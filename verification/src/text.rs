//! Character-level helpers shared by the request parsers.
//!
//! Requests are handled as sequences of characters. Every helper here works
//! on a window `[from, to)` of such a sequence, so that a parser can walk a
//! request without copying it.

use vstd::prelude::*;
use vstd::utf8::{decode_utf8, valid_utf8};

verus! {

/// The characters of `s`, in order, as an indexable vector.
pub fn chars_of(s: &str) -> (out: Vec<char>)
    ensures
        out@ == s@,
{
    let mut out: Vec<char> = Vec::new();
    for c in it: s.chars()
        invariant
            out@ == it.seq().take(it.index()),
    {
        out.push(c);
    }
    out
}

/// The text that a run of bytes is read as: what the bytes encode in UTF-8,
/// with the replacement character U+FFFD wherever they encode nothing.
pub uninterp spec fn lossy_text(bytes: Seq<u8>) -> Seq<char>;

/// Reads bytes as text.
///
/// Calls `String::from_utf8_lossy` of the standard library. The contract
/// names its result, which depends on the bytes alone, and claims of it what
/// the documentation says of well-formed input: bytes that are UTF-8 give
/// the text they encode.
#[verifier::external_body]
fn lossy_string(bytes: &[u8]) -> (text: String)
    ensures
        text@ == lossy_text(bytes@),
        valid_utf8(bytes@) ==> text@ == decode_utf8(bytes@),
{
    String::from_utf8_lossy(bytes).into_owned()
}

/// The text that `bytes` are read as; bytes that are UTF-8 give the text
/// they encode.
pub fn text_of(bytes: &[u8]) -> (text: String)
    ensures
        text@ == lossy_text(bytes@),
        valid_utf8(bytes@) ==> text@ == decode_utf8(bytes@),
{
    lossy_string(bytes)
}

/// Whether `c` is white space: the characters that separate the tokens of a
/// request line and that are trimmed from a header value.
pub open spec fn is_space(c: char) -> bool {
    let n = c as u32;
    ||| 0x09 <= n <= 0x0D
    ||| n == 0x20
    ||| n == 0x85
    ||| n == 0xA0
    ||| n == 0x1680
    ||| 0x2000 <= n <= 0x200A
    ||| n == 0x2028
    ||| n == 0x2029
    ||| n == 0x202F
    ||| n == 0x205F
    ||| n == 0x3000
}

/// Executable form of [`is_space`].
pub fn char_is_space(c: char) -> (b: bool)
    ensures
        b == is_space(c),
{
    let n: u32 = c as u32;
    (0x09 <= n && n <= 0x0D) || n == 0x20 || n == 0x85 || n == 0xA0 || n == 0x1680 || (0x2000 <= n
        && n <= 0x200A) || n == 0x2028 || n == 0x2029 || n == 0x202F || n == 0x205F || n == 0x3000
}

/// The lower-case letter that `c` stands for when header names are compared
/// without regard to case. Besides the letters `A` to `Z` only the Kelvin sign
/// has a lower-case form among the ASCII letters.
pub open spec fn fold(c: char) -> char {
    if 'A' <= c <= 'Z' {
        ((c as u32) + 32) as char
    } else if c == '\u{212A}' {
        'k'
    } else {
        c
    }
}

/// Executable form of [`fold`].
pub fn fold_char(c: char) -> (r: char)
    ensures
        r == fold(c),
{
    if 'A' <= c && c <= 'Z' {
        let n: u32 = c as u32 + 32;
        char_of_ascii(n)
    } else if c == '\u{212A}' {
        'k'
    } else {
        c
    }
}

fn char_of_ascii(n: u32) -> (c: char)
    requires
        n < 128,
    ensures
        c == n as char,
{
    (n as u8) as char
}

/// What a forward search over a window looks for.
pub enum Stop {
    /// White space.
    Space,
    /// Anything but white space.
    NonSpace,
    /// One given character.
    Is(char),
    /// Anything but one given character.
    Not(char),
}

impl Stop {
    /// Whether the search ends on `c`.
    pub open spec fn at(self, c: char) -> bool {
        match self {
            Stop::Space => is_space(c),
            Stop::NonSpace => !is_space(c),
            Stop::Is(d) => c == d,
            Stop::Not(d) => c != d,
        }
    }
}

/// The first position in `[from, to]` that is `to` itself or holds a character
/// on which `stop` ends the search.
pub open spec fn first_stop(s: Seq<char>, from: int, to: int, stop: Stop) -> int
    decreases to - from,
{
    if from >= to || stop.at(s[from]) {
        from
    } else {
        first_stop(s, from + 1, to, stop)
    }
}

/// Where the line that starts at `from` ends: at the next line feed, or at
/// the end of the text.
pub open spec fn line_end(s: Seq<char>, from: int) -> int {
    first_stop(s, from, s.len() as int, Stop::Is('\n'))
}

/// The first position in `[from, to]` that holds no white space.
pub open spec fn skip_spaces(s: Seq<char>, from: int, to: int) -> int {
    first_stop(s, from, to, Stop::NonSpace)
}

/// Where the token that starts at `from` ends: at the next white space, or at
/// `to`.
pub open spec fn token_end(s: Seq<char>, from: int, to: int) -> int {
    first_stop(s, from, to, Stop::Space)
}

/// The position of the first `c` in `[from, to)`, or `to` where there is none.
pub open spec fn find_char(s: Seq<char>, from: int, to: int, c: char) -> int {
    first_stop(s, from, to, Stop::Is(c))
}

/// The end of the window `[from, to)` once trailing white space is cut off.
pub open spec fn trim_end(s: Seq<char>, from: int, to: int) -> int
    decreases to - from,
{
    if to <= from || !is_space(s[to - 1]) {
        to
    } else {
        trim_end(s, from, to - 1)
    }
}

/// The position of the last `c` in `[from, to)`, or `to` where there is none.
pub open spec fn rfind_char(s: Seq<char>, from: int, to: int, c: char) -> int {
    rfind_from(s, from, to, to, c)
}

/// The position of the last `c` in `[from, at)`, or `none` where there is none.
pub open spec fn rfind_from(s: Seq<char>, from: int, at: int, none: int, c: char) -> int
    decreases at - from,
{
    if at <= from {
        none
    } else if s[at - 1] == c {
        at - 1
    } else {
        rfind_from(s, from, at - 1, none, c)
    }
}

/// What [`first_stop`] promises: the result lies in the window, nothing before
/// it stops, and it stops itself unless it is the window's end.
pub proof fn lemma_first_stop(s: Seq<char>, from: int, to: int, stop: Stop)
    requires
        from <= to,
    ensures
        from <= first_stop(s, from, to, stop) <= to,
        first_stop(s, from, to, stop) < to ==> stop.at(s[first_stop(s, from, to, stop)]),
        forall|k: int| from <= k < first_stop(s, from, to, stop) ==> !stop.at(#[trigger] s[k]),
    decreases to - from,
{
    if from >= to || stop.at(s[from]) {
    } else {
        lemma_first_stop(s, from + 1, to, stop);
    }
}

/// A position that stops, with nothing stopping before it, is the first stop.
pub proof fn lemma_first_stop_is(
    s: Seq<char>,
    from: int,
    to: int,
    stop: Stop,
    at: int,
)
    requires
        from <= at <= to,
        at < to ==> stop.at(s[at]),
        forall|k: int| from <= k < at ==> !stop.at(#[trigger] s[k]),
    ensures
        first_stop(s, from, to, stop) == at,
    decreases at - from,
{
    if from < at {
        assert(!stop.at(s[from]));
        lemma_first_stop_is(s, from + 1, to, stop, at);
    }
}

/// Executable form of [`line_end`].
pub fn find_line_end(v: &Vec<char>, from: usize) -> (at: usize)
    requires
        from <= v.len(),
    ensures
        at == line_end(v@, from as int),
        from <= at <= v.len(),
{
    let mut at: usize = from;
    while at < v.len() && v[at] != '\n'
        invariant
            from <= at <= v.len(),
            forall|k: int| from <= k < at ==> #[trigger] v@[k] != '\n',
        decreases v.len() - at,
    {
        at += 1;
    }
    proof {
        lemma_first_stop_is(v@, from as int, v.len() as int, Stop::Is('\n'), at as int);
    }
    at
}

/// Executable form of [`skip_spaces`].
pub fn find_non_space(v: &Vec<char>, from: usize, to: usize) -> (at: usize)
    requires
        from <= to <= v.len(),
    ensures
        at == skip_spaces(v@, from as int, to as int),
        from <= at <= to,
{
    let mut at: usize = from;
    while at < to && char_is_space(v[at])
        invariant
            from <= at <= to <= v.len(),
            forall|k: int| from <= k < at ==> is_space(#[trigger] v@[k]),
        decreases to - at,
    {
        at += 1;
    }
    proof {
        lemma_first_stop_is(v@, from as int, to as int, Stop::NonSpace, at as int);
    }
    at
}

/// Executable form of [`token_end`].
pub fn find_space(v: &Vec<char>, from: usize, to: usize) -> (at: usize)
    requires
        from <= to <= v.len(),
    ensures
        at == token_end(v@, from as int, to as int),
        from <= at <= to,
{
    let mut at: usize = from;
    while at < to && !char_is_space(v[at])
        invariant
            from <= at <= to <= v.len(),
            forall|k: int| from <= k < at ==> !is_space(#[trigger] v@[k]),
        decreases to - at,
    {
        at += 1;
    }
    proof {
        lemma_first_stop_is(v@, from as int, to as int, Stop::Space, at as int);
    }
    at
}

/// Executable form of [`find_char`].
pub fn find_first(v: &Vec<char>, from: usize, to: usize, c: char) -> (at: usize)
    requires
        from <= to <= v.len(),
    ensures
        at == find_char(v@, from as int, to as int, c),
        from <= at <= to,
        at < to ==> v@[at as int] == c,
{
    let mut at: usize = from;
    while at < to && v[at] != c
        invariant
            from <= at <= to <= v.len(),
            forall|k: int| from <= k < at ==> #[trigger] v@[k] != c,
        decreases to - at,
    {
        at += 1;
    }
    proof {
        lemma_first_stop_is(v@, from as int, to as int, Stop::Is(c), at as int);
    }
    at
}

/// Executable form of [`trim_end`].
pub fn find_trimmed_end(v: &Vec<char>, from: usize, to: usize) -> (at: usize)
    requires
        from <= to <= v.len(),
    ensures
        at == trim_end(v@, from as int, to as int),
        from <= at <= to,
{
    let mut at: usize = to;
    while at > from && char_is_space(v[at - 1])
        invariant
            from <= at <= to <= v.len(),
            trim_end(v@, from as int, to as int) == trim_end(v@, from as int, at as int),
        decreases at - from,
    {
        at -= 1;
    }
    at
}

/// Executable form of [`rfind_char`].
pub fn find_last(v: &Vec<char>, from: usize, to: usize, c: char) -> (at: usize)
    requires
        from <= to <= v.len(),
    ensures
        at == rfind_char(v@, from as int, to as int, c),
        from <= at <= to,
        at < to ==> v@[at as int] == c,
{
    let mut at: usize = to;
    while at > from && v[at - 1] != c
        invariant
            from <= at <= to <= v.len(),
            rfind_char(v@, from as int, to as int, c) == rfind_from(
                v@,
                from as int,
                at as int,
                to as int,
                c,
            ),
        decreases at - from,
    {
        at -= 1;
    }
    if at > from {
        at - 1
    } else {
        to
    }
}

/// Whether the window `[from, to)` begins with `pat`, character for
/// character.
pub open spec fn starts_with(s: Seq<char>, from: int, to: int, pat: Seq<char>) -> bool {
    &&& from + pat.len() <= to
    &&& forall|k: int| 0 <= k < pat.len() ==> s[from + k] == #[trigger] pat[k]
}

/// Whether the window `[from, to)` begins with `pat` once its characters are
/// folded to lower case; `pat` is given in lower case.
pub open spec fn starts_with_folded(s: Seq<char>, from: int, to: int, pat: Seq<char>) -> bool {
    &&& from + pat.len() <= to
    &&& forall|k: int| 0 <= k < pat.len() ==> fold(s[from + k]) == #[trigger] pat[k]
}

/// Whether `pat` occurs somewhere in the window `[from, to)`, without regard
/// to case; `pat` is given in lower case.
pub open spec fn contains_folded(s: Seq<char>, from: int, to: int, pat: Seq<char>) -> bool {
    exists|at: int| from <= at <= to && #[trigger] starts_with_folded(s, at, to, pat)
}

/// Executable form of [`starts_with`].
pub fn window_starts_with(v: &Vec<char>, from: usize, to: usize, pat: &Vec<char>) -> (b: bool)
    requires
        from <= to <= v.len(),
    ensures
        b == starts_with(v@, from as int, to as int, pat@),
{
    if pat.len() > to - from {
        return false;
    }
    let mut k: usize = 0;
    while k < pat.len()
        invariant
            from <= to <= v.len(),
            k <= pat.len() <= to - from,
            forall|j: int| 0 <= j < k ==> v@[from + j] == #[trigger] pat@[j],
        decreases pat.len() - k,
    {
        if v[from + k] != pat[k] {
            return false;
        }
        k += 1;
    }
    true
}

/// Executable form of [`starts_with_folded`].
pub fn window_starts_with_folded(v: &Vec<char>, from: usize, to: usize, pat: &Vec<char>) -> (b:
    bool)
    requires
        from <= to <= v.len(),
    ensures
        b == starts_with_folded(v@, from as int, to as int, pat@),
{
    if pat.len() > to - from {
        return false;
    }
    let mut k: usize = 0;
    while k < pat.len()
        invariant
            from <= to <= v.len(),
            k <= pat.len() <= to - from,
            forall|j: int| 0 <= j < k ==> fold(v@[from + j]) == #[trigger] pat@[j],
        decreases pat.len() - k,
    {
        if fold_char(v[from + k]) != pat[k] {
            return false;
        }
        k += 1;
    }
    true
}

/// Executable form of [`contains_folded`].
pub fn window_contains_folded(v: &Vec<char>, from: usize, to: usize, pat: &Vec<char>) -> (b: bool)
    requires
        from <= to <= v.len(),
    ensures
        b == contains_folded(v@, from as int, to as int, pat@),
{
    let mut at: usize = from;
    while at < to
        invariant
            from <= at <= to <= v.len(),
            forall|j: int| from <= j < at ==> !#[trigger] starts_with_folded(v@, j, to as int, pat@),
        decreases to - at,
    {
        if window_starts_with_folded(v, at, to, pat) {
            return true;
        }
        at += 1;
    }
    window_starts_with_folded(v, to, to, pat)
}

/// Tells whether the window `[from, to)` of `v` is exactly `pat`.
pub fn window_is(v: &Vec<char>, from: usize, to: usize, pat: &Vec<char>) -> (b: bool)
    requires
        from <= to <= v.len(),
    ensures
        b == (v@.subrange(from as int, to as int) == pat@),
{
    if to - from != pat.len() {
        return false;
    }
    let b = window_starts_with(v, from, to, pat);
    proof {
        let w = v@.subrange(from as int, to as int);
        if b {
            assert(w =~= pat@);
        } else {
            let k = choose|k: int| 0 <= k < pat@.len() && v@[from + k] != #[trigger] pat@[k];
            assert(w[k] != pat@[k]);
        }
    }
    b
}

/// The position of the first place in `[from, to]` at which the window
/// `[.., to)` begins with `pat`, or `to` where there is none.
pub open spec fn first_match(s: Seq<char>, from: int, to: int, pat: Seq<char>) -> int
    decreases to - from,
{
    if from >= to || starts_with(s, from, to, pat) {
        from
    } else {
        first_match(s, from + 1, to, pat)
    }
}

/// Executable form of [`first_match`].
pub fn find_text(v: &Vec<char>, from: usize, to: usize, pat: &Vec<char>) -> (at: usize)
    requires
        from <= to <= v.len(),
    ensures
        at == first_match(v@, from as int, to as int, pat@),
        from <= at <= to,
        at < to ==> starts_with(v@, at as int, to as int, pat@),
{
    let mut at: usize = from;
    while at < to && !window_starts_with(v, at, to, pat)
        invariant
            from <= at <= to <= v.len(),
            first_match(v@, from as int, to as int, pat@) == first_match(
                v@,
                at as int,
                to as int,
                pat@,
            ),
        decreases to - at,
    {
        at += 1;
    }
    at
}

/// Tells whether two texts are the same.
pub fn text_is(a: &Vec<char>, b: &Vec<char>) -> (same: bool)
    ensures
        same == (a@ == b@),
{
    assert(a@.subrange(0, a.len() as int) =~= a@);
    window_is(a, 0, a.len(), b)
}

/// The first position in `[from, to]` that holds something else than `c`.
pub fn find_other(v: &Vec<char>, from: usize, to: usize, c: char) -> (at: usize)
    requires
        from <= to <= v.len(),
    ensures
        at == first_stop(v@, from as int, to as int, Stop::Not(c)),
        from <= at <= to,
{
    let mut at: usize = from;
    while at < to && v[at] == c
        invariant
            from <= at <= to <= v.len(),
            forall|k: int| from <= k < at ==> #[trigger] v@[k] == c,
        decreases to - at,
    {
        at += 1;
    }
    proof {
        lemma_first_stop_is(v@, from as int, to as int, Stop::Not(c), at as int);
    }
    at
}

} // verus!
