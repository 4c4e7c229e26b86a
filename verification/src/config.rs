//! The shaping configuration that every pipe reads on every chunk.

use crate::number::{parse_unsigned, parse_window};
use crate::text::{chars_of, find_char, find_first, window_is};
use vstd::prelude::*;

verus! {

/// How traffic is degraded: added latency, drop probability, bandwidth cap
/// and the chaos flag.
#[derive(Clone, Copy, Debug, PartialEq, Eq, Structural)]
pub struct ShapingConfig {
    /// Delay added to every forwarded chunk, in milliseconds.
    pub latency_ms: u64,
    /// Chance, in whole percent, that a chunk is dropped.
    pub drop_pct: u8,
    /// Bandwidth cap in kilobits per second, that is in bits per millisecond.
    pub bandwidth_kbps: u64,
    /// Whether drop chance and latency are drawn anew for every decision.
    pub chaos: bool,
}

impl ShapingConfig {
    /// A configuration is well formed when the drop chance is a percentage
    /// and the bandwidth cap is positive.
    pub open spec fn wf(&self) -> bool {
        self.drop_pct <= 100 && self.bandwidth_kbps >= 1
    }

    /// The configuration a proxy starts with: 120 ms, 5 %, 256 kbps, no chaos.
    pub open spec fn initial() -> ShapingConfig {
        ShapingConfig { latency_ms: 120, drop_pct: 5, bandwidth_kbps: 256, chaos: false }
    }

    /// The configuration a proxy starts with.
    pub fn new() -> (cfg: ShapingConfig)
        ensures
            cfg == ShapingConfig::initial(),
            cfg.wf(),
    {
        ShapingConfig { latency_ms: 120, drop_pct: 5, bandwidth_kbps: 256, chaos: false }
    }

    /// Whether the configuration is well formed.
    pub fn is_valid(&self) -> (b: bool)
        ensures
            b == self.wf(),
    {
        self.drop_pct <= 100 && self.bandwidth_kbps >= 1
    }
}

impl Default for ShapingConfig {
    fn default() -> (cfg: ShapingConfig)
        ensures
            cfg == ShapingConfig::initial(),
    {
        ShapingConfig::new()
    }
}

/// What one setting of the form makes of `cfg`.
///
/// `latency` takes milliseconds, `drop` a percentage up to 100, `bandwidth`
/// a positive number of kilobits per second, and `chaos` is on for the value
/// `true` and off for any other. A value that does not read as such a number
/// leaves its field as it is, and so does a key that is none of the four.
pub open spec fn setting_applied(cfg: ShapingConfig, key: Seq<char>, value: Seq<char>)
    -> ShapingConfig {
    if key == "latency"@ {
        match parse_unsigned(value, u64::MAX as nat) {
            Some(n) => ShapingConfig { latency_ms: n as u64, ..cfg },
            None => cfg,
        }
    } else if key == "drop"@ {
        match parse_unsigned(value, 100) {
            Some(n) => ShapingConfig { drop_pct: n as u8, ..cfg },
            None => cfg,
        }
    } else if key == "bandwidth"@ {
        match parse_unsigned(value, u64::MAX as nat) {
            Some(n) => if n >= 1 {
                ShapingConfig { bandwidth_kbps: n as u64, ..cfg }
            } else {
                cfg
            },
            None => cfg,
        }
    } else if key == "chaos"@ {
        ShapingConfig { chaos: value == "true"@, ..cfg }
    } else {
        cfg
    }
}

/// What the pair in the window `[from, to)` makes of `cfg`: the key runs up
/// to the first `=`, the value from there up to the next `=` or the end.
pub open spec fn pair_applied(s: Seq<char>, from: int, to: int, cfg: ShapingConfig)
    -> ShapingConfig {
    let key_end = find_char(s, from, to, '=');
    let value_from = if key_end < to {
        key_end + 1
    } else {
        to
    };
    let value_end = find_char(s, value_from, to, '=');
    setting_applied(cfg, s.subrange(from, key_end), s.subrange(value_from, value_end))
}

/// What the form in the window `[from, to)` makes of `cfg`: its pairs,
/// which `&` separates, are applied one after the other.
pub open spec fn form_applied(s: Seq<char>, from: int, to: int, cfg: ShapingConfig)
    -> ShapingConfig
    decreases to - from,
{
    let end = find_char(s, from, to, '&');
    let now = pair_applied(s, from, end, cfg);
    if from <= end < to {
        form_applied(s, end + 1, to, now)
    } else {
        now
    }
}

/// A setting keeps a well-formed configuration well formed.
pub proof fn lemma_setting_keeps_wf(cfg: ShapingConfig, key: Seq<char>, value: Seq<char>)
    requires
        cfg.wf(),
    ensures
        setting_applied(cfg, key, value).wf(),
{
}

impl ShapingConfig {
    /// Applies one setting of the form, given as windows of `v`.
    fn apply_setting(
        &mut self,
        v: &Vec<char>,
        key_from: usize,
        key_to: usize,
        value_from: usize,
        value_to: usize,
    )
        requires
            key_from <= key_to <= v.len(),
            value_from <= value_to <= v.len(),
        ensures
            *final(self) == setting_applied(
                *old(self),
                v@.subrange(key_from as int, key_to as int),
                v@.subrange(value_from as int, value_to as int),
            ),
    {
        if window_is(v, key_from, key_to, &chars_of("latency")) {
            match parse_window(v, value_from, value_to, u64::MAX) {
                Some(n) => {
                    self.latency_ms = n;
                },
                None => {},
            }
        } else if window_is(v, key_from, key_to, &chars_of("drop")) {
            match parse_window(v, value_from, value_to, 100) {
                Some(n) => {
                    self.drop_pct = n as u8;
                },
                None => {},
            }
        } else if window_is(v, key_from, key_to, &chars_of("bandwidth")) {
            match parse_window(v, value_from, value_to, u64::MAX) {
                Some(n) => {
                    if n >= 1 {
                        self.bandwidth_kbps = n;
                    }
                },
                None => {},
            }
        } else if window_is(v, key_from, key_to, &chars_of("chaos")) {
            self.chaos = window_is(v, value_from, value_to, &chars_of("true"));
        }
    }

    /// Applies the form in the window `[from, to)` of `v`.
    pub fn apply_form_window(&mut self, v: &Vec<char>, from: usize, to: usize)
        requires
            from <= to <= v.len(),
        ensures
            *final(self) == form_applied(v@, from as int, to as int, *old(self)),
            old(self).wf() ==> final(self).wf(),
    {
        let mut at: usize = from;
        loop
            invariant
                from <= at <= to <= v.len(),
                form_applied(v@, from as int, to as int, *old(self)) == form_applied(
                    v@,
                    at as int,
                    to as int,
                    *self,
                ),
                old(self).wf() ==> self.wf(),
            ensures
                *self == form_applied(v@, from as int, to as int, *old(self)),
                old(self).wf() ==> self.wf(),
            decreases to - at,
        {
            let end = find_first(v, at, to, '&');
            let key_end = find_first(v, at, end, '=');
            let value_from: usize = if key_end < end {
                key_end + 1
            } else {
                end
            };
            let value_end = find_first(v, value_from, end, '=');
            proof {
                if self.wf() {
                    lemma_setting_keeps_wf(
                        *self,
                        v@.subrange(at as int, key_end as int),
                        v@.subrange(value_from as int, value_end as int),
                    );
                }
            }
            self.apply_setting(v, at, key_end, value_from, value_end);
            if end < to {
                at = end + 1;
            } else {
                break ;
            }
        }
    }

    /// Applies a form of `key=value` pairs, separated by `&`, to the
    /// configuration.
    pub fn apply_form(&mut self, body: &str)
        ensures
            *final(self) == form_applied(body@, 0, body@.len() as int, *old(self)),
            old(self).wf() ==> final(self).wf(),
    {
        let v = chars_of(body);
        self.apply_form_window(&v, 0, v.len());
    }
}

} // verus!
