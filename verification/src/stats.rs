//! Running statistics that the pipes update and the control plane reports.

use crate::number::{decimal_text, push_decimal};
use vstd::prelude::*;
use vstd::string::*;

verus! {

/// Counters of what the pipes did, and the status message shown with them.
#[derive(Clone, Debug)]
pub struct Stats {
    /// Bytes of all chunks that were held back before being forwarded.
    pub bytes_delayed: u64,
    /// Number of chunks that were dropped.
    pub packets_dropped: u64,
    /// The message shown beside the counters.
    pub status_message: String,
}

/// `a + b`, held at the largest 64-bit value.
pub open spec fn saturating_sum(a: u64, b: u64) -> u64 {
    if a + b > u64::MAX {
        u64::MAX
    } else {
        (a + b) as u64
    }
}

/// The report of the statistics in JSON.
pub open spec fn stats_json(bytes_delayed: u64, packets_dropped: u64, message: Seq<char>) -> Seq<
    char,
> {
    "{\"bytes_delayed\":"@ + decimal_text(bytes_delayed as nat) + ",\"packets_dropped\":"@
        + decimal_text(packets_dropped as nat) + ",\"goofy\":\""@ + message + "\"}"@
}

impl Stats {
    /// Fresh statistics: both counters at zero.
    pub fn new() -> (stats: Stats)
        ensures
            stats.bytes_delayed == 0,
            stats.packets_dropped == 0,
            stats.status_message@ == "NETWORK IS HAVING A BAD DAY"@,
    {
        Stats {
            bytes_delayed: 0,
            packets_dropped: 0,
            status_message: "NETWORK IS HAVING A BAD DAY".to_owned(),
        }
    }

    /// Counts one dropped chunk.
    pub fn record_drop(&mut self)
        ensures
            final(self).packets_dropped == saturating_sum(old(self).packets_dropped, 1),
            final(self).packets_dropped >= old(self).packets_dropped,
            final(self).bytes_delayed == old(self).bytes_delayed,
            final(self).status_message == old(self).status_message,
    {
        if self.packets_dropped < u64::MAX {
            self.packets_dropped = self.packets_dropped + 1;
        }
    }

    /// Counts the `len` bytes of a chunk that is held back.
    pub fn record_delay(&mut self, len: u64)
        ensures
            final(self).bytes_delayed == saturating_sum(old(self).bytes_delayed, len),
            final(self).bytes_delayed >= old(self).bytes_delayed,
            final(self).packets_dropped == old(self).packets_dropped,
            final(self).status_message == old(self).status_message,
    {
        if len <= u64::MAX - self.bytes_delayed {
            self.bytes_delayed = self.bytes_delayed + len;
        } else {
            self.bytes_delayed = u64::MAX;
        }
    }

    /// Replaces the status message as a whole.
    pub fn set_status(&mut self, message: String)
        ensures
            final(self).status_message == message,
            final(self).bytes_delayed == old(self).bytes_delayed,
            final(self).packets_dropped == old(self).packets_dropped,
    {
        self.status_message = message;
    }

    /// The report of the statistics in JSON, as the control plane sends it.
    pub fn to_json(&self) -> (body: String)
        ensures
            body@ == stats_json(self.bytes_delayed, self.packets_dropped, self.status_message@),
    {
        let mut body = "{\"bytes_delayed\":".to_owned();
        push_decimal(&mut body, self.bytes_delayed);
        body.append(",\"packets_dropped\":");
        push_decimal(&mut body, self.packets_dropped);
        body.append(",\"goofy\":\"");
        body.append(self.status_message.as_str());
        body.append("\"}");
        body
    }
}

/// The drop counter after `n` more drops are recorded one by one, starting
/// from `start`.
pub open spec fn drops_recorded(start: u64, n: nat) -> u64
    decreases n,
{
    if n == 0 {
        start
    } else {
        saturating_sum(drops_recorded(start, (n - 1) as nat), 1)
    }
}

/// Recorded drops add up exactly: after `n` of them the counter stands `n`
/// higher, or at the largest 64-bit value where it has no more room.
pub proof fn lemma_drops_add_up(start: u64, n: nat)
    ensures
        drops_recorded(start, n) == if start + n > u64::MAX {
            u64::MAX as int
        } else {
            start + n
        },
    decreases n,
{
    if n > 0 {
        lemma_drops_add_up(start, (n - 1) as nat);
    }
}

/// The drops of two connections add up to the same count whichever of the
/// two records first: no drop of one is lost to the other.
pub proof fn lemma_drops_of_two_connections(start: u64, a: nat, b: nat)
    ensures
        drops_recorded(drops_recorded(start, a), b) == drops_recorded(start, a + b),
        drops_recorded(drops_recorded(start, b), a) == drops_recorded(start, a + b),
{
    lemma_drops_add_up(start, a);
    lemma_drops_add_up(start, b);
    lemma_drops_add_up(start, a + b);
    lemma_drops_add_up(drops_recorded(start, a), b);
    lemma_drops_add_up(drops_recorded(start, b), a);
}

} // verus!
