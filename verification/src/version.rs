//! Parsing of interpreter version reports.
//!
//! The supervised service needs a Python interpreter of version 3.11 or
//! higher. An interpreter invoked with its version-query flag prints a line
//! such as `Python 3.11.5`; this module parses that text into a
//! [`PythonInfo`] descriptor and decides whether it meets the minimum.

use vstd::prelude::*;

use crate::text::{contains_str, is_space_char, spec_contains, spec_is_space};

verus! {

/// Information about a detected Python installation.
#[derive(Clone, Debug)]
pub struct PythonInfo {
    pub path: String,
    pub version: String,
    pub major: u32,
    pub minor: u32,
    pub patch: u32,
}

/// A decimal digit character.
pub open spec fn spec_is_digit(c: char) -> bool {
    48 <= (c as u32) && (c as u32) <= 57
}

/// The numeric value of a decimal digit character.
pub open spec fn spec_digit_val(c: char) -> int {
    (c as u32) - 48
}

/// Every character of `s` is a decimal digit.
pub open spec fn spec_all_digits(s: Seq<char>) -> bool {
    forall|i: int| 0 <= i < s.len() ==> spec_is_digit(s[i])
}

/// The number written by the digit characters of `s`, most significant first.
pub open spec fn spec_digits_val(s: Seq<char>) -> int
    decreases s.len(),
{
    if s.len() == 0 {
        0
    } else {
        spec_digits_val(s.drop_last()) * 10 + spec_digit_val(s.last())
    }
}

/// What `u32` parsing accepts: a non-empty, all-digit string whose value
/// fits; leading zeros are allowed.
pub open spec fn spec_parse_u32(s: Seq<char>) -> Option<u32> {
    if s.len() > 0 && spec_all_digits(s) && spec_digits_val(s) <= u32::MAX {
        Some(spec_digits_val(s) as u32)
    } else {
        None
    }
}

/// The value of an all-digit string is never negative.
proof fn lemma_digits_val_nonneg(s: Seq<char>)
    requires
        spec_all_digits(s),
    ensures
        spec_digits_val(s) >= 0,
    decreases s.len(),
{
    if s.len() > 0 {
        lemma_digits_val_nonneg(s.drop_last());
    }
}

/// Extending an all-digit string never shrinks its value.
proof fn lemma_digits_val_prefix(s: Seq<char>, i: int)
    requires
        0 <= i <= s.len(),
        spec_all_digits(s),
    ensures
        spec_digits_val(s.take(i)) <= spec_digits_val(s),
    decreases s.len() - i,
{
    if i == s.len() {
        assert(s.take(i) =~= s);
    } else {
        assert(spec_all_digits(s.take(i)));
        lemma_digits_val_nonneg(s.take(i));
        assert(s.take(i + 1).drop_last() =~= s.take(i));
        assert(s.take(i + 1).last() == s[i]);
        lemma_digits_val_prefix(s, i + 1);
    }
}

/// Runtime test for [`spec_is_digit`].
pub fn is_digit_char(c: char) -> (b: bool)
    ensures
        b == spec_is_digit(c),
{
    let u = c as u32;
    48 <= u && u <= 57
}

/// Parse a non-empty all-digit string as a `u32`, as [`spec_parse_u32`]
/// says; anything else, including overflow, yields `None`.
pub fn parse_u32_str(s: &str) -> (r: Option<u32>)
    ensures
        r == spec_parse_u32(s@),
{
    let n = s.unicode_len();
    if n == 0 {
        return None;
    }
    let mut acc: u32 = 0;
    let mut i: usize = 0;
    while i < n
        invariant
            i <= n,
            n == s@.len(),
            n > 0,
            spec_all_digits(s@.take(i as int)),
            acc as int == spec_digits_val(s@.take(i as int)),
        decreases n - i,
    {
        let c = s.get_char(i);
        if !is_digit_char(c) {
            proof {
                assert(!spec_all_digits(s@)) by {
                    if spec_all_digits(s@) {
                        assert(spec_is_digit(s@[i as int]));
                    }
                }
            }
            return None;
        }
        let d: u32 = (c as u32) - 48;
        proof {
            assert(s@.take(i + 1).drop_last() =~= s@.take(i as int));
            assert(s@.take(i + 1).last() == s@[i as int]);
        }
        let wide: u64 = acc as u64 * 10 + d as u64;
        if wide > 0xFFFF_FFFFu64 {
            proof {
                assert(spec_digits_val(s@.take(i + 1)) > u32::MAX);
                if spec_all_digits(s@) {
                    lemma_digits_val_prefix(s@, i + 1);
                }
            }
            return None;
        }
        acc = wide as u32;
        i += 1;
    }
    proof {
        assert(s@.take(n as int) =~= s@);
    }
    Some(acc)
}

/// First position of `c` in `s` at or after `from`, or the length of `s`.
pub open spec fn spec_find_char(s: Seq<char>, c: char, from: int) -> int
    decreases s.len() - from,
{
    if from < 0 || from >= s.len() {
        s.len() as int
    } else if s[from] == c {
        from
    } else {
        spec_find_char(s, c, from + 1)
    }
}

/// Find the first `c` in `s` at or after `from`.
pub fn find_char_from(s: &str, c: char, from: usize) -> (r: usize)
    requires
        from <= s@.len(),
    ensures
        r as int == spec_find_char(s@, c, from as int),
        from <= r <= s@.len(),
{
    let n = s.unicode_len();
    let mut i: usize = from;
    while i < n && s.get_char(i) != c
        invariant
            from <= i <= n,
            n == s@.len(),
            spec_find_char(s@, c, from as int) == spec_find_char(s@, c, i as int),
        decreases n - i,
    {
        proof {
            assert(spec_find_char(s@, c, i as int) == spec_find_char(s@, c, i + 1));
        }
        i += 1;
    }
    i
}

/// End of the run of digit characters of `s` that starts at `from`.
pub open spec fn spec_digits_end(s: Seq<char>, from: int) -> int
    decreases s.len() - from,
{
    if from < 0 || from >= s.len() {
        s.len() as int
    } else if !spec_is_digit(s[from]) {
        from
    } else {
        spec_digits_end(s, from + 1)
    }
}

/// Find where the leading digit run of `s` ends.
fn digits_end(s: &str) -> (r: usize)
    ensures
        r as int == spec_digits_end(s@, 0),
        r <= s@.len(),
{
    let n = s.unicode_len();
    let mut i: usize = 0;
    while i < n && is_digit_char(s.get_char(i))
        invariant
            i <= n,
            n == s@.len(),
            spec_digits_end(s@, 0) == spec_digits_end(s@, i as int),
        decreases n - i,
    {
        proof {
            assert(spec_digits_end(s@, i as int) == spec_digits_end(s@, i + 1));
        }
        i += 1;
    }
    i
}

/// What remains of `s` after the leading whitespace is removed.
pub open spec fn spec_trim_start(s: Seq<char>) -> Seq<char>
    decreases s.len(),
{
    if s.len() > 0 && spec_is_space(s[0]) {
        spec_trim_start(s.skip(1))
    } else {
        s
    }
}

/// What remains of `s` after the trailing whitespace is removed.
pub open spec fn spec_trim_end(s: Seq<char>) -> Seq<char>
    decreases s.len(),
{
    if s.len() > 0 && spec_is_space(s.last()) {
        spec_trim_end(s.drop_last())
    } else {
        s
    }
}

/// `s` without leading and trailing whitespace.
pub open spec fn spec_trim(s: Seq<char>) -> Seq<char> {
    spec_trim_end(spec_trim_start(s))
}

proof fn lemma_trim_start_skip(s: Seq<char>, k: int)
    requires
        0 <= k <= s.len(),
        forall|i: int| 0 <= i < k ==> spec_is_space(s[i]),
        k == s.len() || !spec_is_space(s[k]),
    ensures
        spec_trim_start(s) == s.skip(k),
    decreases k,
{
    if k == 0 {
        assert(s.skip(0) =~= s);
    } else {
        lemma_trim_start_skip(s.skip(1), k - 1);
        assert(s.skip(1).skip(k - 1) =~= s.skip(k));
    }
}

proof fn lemma_trim_end_take(s: Seq<char>, k: int)
    requires
        0 <= k <= s.len(),
        forall|i: int| k <= i < s.len() ==> spec_is_space(s[i]),
        k == 0 || !spec_is_space(s[k - 1]),
    ensures
        spec_trim_end(s) == s.take(k),
    decreases s.len() - k,
{
    if k == s.len() {
        assert(s.take(k) =~= s);
    } else {
        lemma_trim_end_take(s.drop_last(), k);
        assert(s.drop_last().take(k) =~= s.take(k));
    }
}

/// The recognized prefix of a version report.
pub open spec fn spec_python_prefix() -> Seq<char> {
    seq!['P', 'y', 't', 'h', 'o', 'n', ' ']
}

/// The word that marks which output stream carries the version text.
pub open spec fn spec_python_word() -> Seq<char> {
    seq!['P', 'y', 't', 'h', 'o', 'n']
}

/// The parsed fields of a version report.
pub struct SpecVersion {
    pub major: u32,
    pub minor: u32,
    pub patch: u32,
    pub version: Seq<char>,
}

/// The patch number of the version text `rest`, whose second dot (or end)
/// sits at `d2`: the leading digits of the third dot-separated component,
/// or zero when there is no such component or no parsable digit run.
pub open spec fn spec_patch_of(rest: Seq<char>, d2: int) -> u32 {
    if d2 >= rest.len() {
        0
    } else {
        let d3 = spec_find_char(rest, '.', d2 + 1);
        let part2 = rest.subrange(d2 + 1, d3);
        match spec_parse_u32(part2.take(spec_digits_end(part2, 0))) {
            Some(p) => p,
            None => 0,
        }
    }
}

/// What version parsing accepts and returns: after trimming, the text must
/// start with `Python ` and continue with at least two dot-separated numeric
/// components; the optional third component contributes its leading digits
/// as the patch number (zero if absent or unusable).
pub open spec fn spec_parse_version(s: Seq<char>) -> Option<SpecVersion> {
    let t = spec_trim(s);
    if t.len() < 7 || t.subrange(0, 7) != spec_python_prefix() {
        None
    } else {
        let rest = t.skip(7);
        let d1 = spec_find_char(rest, '.', 0);
        if d1 >= rest.len() {
            None
        } else {
            let d2 = spec_find_char(rest, '.', d1 + 1);
            match (spec_parse_u32(rest.subrange(0, d1)), spec_parse_u32(
                rest.subrange(d1 + 1, d2),
            )) {
                (Some(maj), Some(min)) => Some(
                    SpecVersion { major: maj, minor: min, patch: spec_patch_of(rest, d2), version: rest },
                ),
                _ => None,
            }
        }
    }
}

/// Parse a version report such as `Python 3.11.5` into a [`PythonInfo`]
/// recording `path` as the interpreter's location, as
/// [`spec_parse_version`] says.
pub fn parse_python_version(version_str: &str, path: &str) -> (r: Option<PythonInfo>)
    ensures
        (r is Some) == (spec_parse_version(version_str@) is Some),
        r is Some ==> {
            let info = r.unwrap();
            let sv = spec_parse_version(version_str@).unwrap();
            &&& info.major == sv.major
            &&& info.minor == sv.minor
            &&& info.patch == sv.patch
            &&& info.version@ == sv.version
            &&& info.path@ == path@
        },
{
    let s = version_str;
    let n = s.unicode_len();
    let mut lo: usize = 0;
    while lo < n && is_space_char(s.get_char(lo))
        invariant
            lo <= n,
            n == s@.len(),
            forall|i: int| 0 <= i < lo ==> spec_is_space(s@[i]),
        decreases n - lo,
    {
        lo += 1;
    }
    let mut hi: usize = n;
    while hi > lo && is_space_char(s.get_char(hi - 1))
        invariant
            lo <= hi <= n,
            n == s@.len(),
            forall|i: int| hi <= i < n ==> spec_is_space(s@[i]),
        decreases hi,
    {
        hi -= 1;
    }
    proof {
        lemma_trim_start_skip(s@, lo as int);
        lemma_trim_end_take(
            s@.skip(lo as int),
            hi - lo,
        );
        assert(s@.skip(lo as int).take(hi - lo) =~= s@.subrange(lo as int, hi as int));
        assert(spec_trim(s@) == s@.subrange(lo as int, hi as int));
    }
    let t = s.substring_char(lo, hi);
    let tn = hi - lo;
    if tn < 7 {
        return None;
    }
    if !(t.get_char(0) == 'P' && t.get_char(1) == 'y' && t.get_char(2) == 't' && t.get_char(3)
        == 'h' && t.get_char(4) == 'o' && t.get_char(5) == 'n' && t.get_char(6) == ' ') {
        proof {
            assert(t@.subrange(0, 7) != spec_python_prefix()) by {
                if t@.subrange(0, 7) == spec_python_prefix() {
                    assert(t@[0] == t@.subrange(0, 7)[0]);
                    assert(t@[1] == t@.subrange(0, 7)[1]);
                    assert(t@[2] == t@.subrange(0, 7)[2]);
                    assert(t@[3] == t@.subrange(0, 7)[3]);
                    assert(t@[4] == t@.subrange(0, 7)[4]);
                    assert(t@[5] == t@.subrange(0, 7)[5]);
                    assert(t@[6] == t@.subrange(0, 7)[6]);
                }
            }
        }
        return None;
    }
    proof {
        assert(t@.subrange(0, 7) =~= spec_python_prefix());
    }
    let rest = t.substring_char(7, tn);
    proof {
        assert(rest@ =~= t@.skip(7));
    }
    let rn = tn - 7;
    let d1 = find_char_from(rest, '.', 0);
    if d1 == rn {
        return None;
    }
    let part0 = rest.substring_char(0, d1);
    let major_opt = parse_u32_str(part0);
    let d2 = find_char_from(rest, '.', d1 + 1);
    let part1 = rest.substring_char(d1 + 1, d2);
    let minor_opt = parse_u32_str(part1);
    match (major_opt, minor_opt) {
        (Some(major), Some(minor)) => {
            let patch: u32 = if d2 == rn {
                0
            } else {
                let d3 = find_char_from(rest, '.', d2 + 1);
                let part2 = rest.substring_char(d2 + 1, d3);
                let e = digits_end(part2);
                let digs = part2.substring_char(0, e);
                proof {
                    assert(digs@ =~= part2@.take(e as int));
                }
                match parse_u32_str(digs) {
                    Some(p) => p,
                    None => 0,
                }
            };
            Some(
                PythonInfo {
                    path: path.to_owned(),
                    version: String::from_str(rest),
                    major,
                    minor,
                    patch,
                },
            )
        },
        _ => None,
    }
}

/// The version floor for the supervised service: major exactly 3, minor at
/// least 11.
pub open spec fn spec_meets_minimum(major: u32, minor: u32) -> bool {
    major == 3 && minor >= 11
}

/// Runtime test for [`spec_meets_minimum`].
pub fn meets_minimum(major: u32, minor: u32) -> (b: bool)
    ensures
        b == spec_meets_minimum(major, minor),
{
    major == 3 && minor >= 11
}

/// Does a version report describe an interpreter of version 3.11 or higher?
pub fn is_python_311_or_higher(version_str: &str) -> (b: bool)
    ensures
        b == (spec_parse_version(version_str@) is Some && spec_meets_minimum(
            spec_parse_version(version_str@).unwrap().major,
            spec_parse_version(version_str@).unwrap().minor,
        )),
{
    match parse_python_version(version_str, "") {
        Some(info) => meets_minimum(info.major, info.minor),
        None => false,
    }
}

/// The flag every version probe and validation passes to the interpreter.
pub fn version_query_arg() -> (r: String)
    ensures
        r@ == "--version"@,
{
    String::from_str("--version")
}

/// Which captured stream carries the version text: standard output if it
/// mentions `Python`, else standard error if it does, else neither; a failed
/// invocation carries none.
pub open spec fn spec_probe_stream(ok: bool, out: Seq<char>, err: Seq<char>) -> Option<Seq<char>> {
    if !ok {
        None
    } else if spec_contains(out, spec_python_word()) {
        Some(out)
    } else if spec_contains(err, spec_python_word()) {
        Some(err)
    } else {
        None
    }
}

/// Interpret a version probe of the interpreter at `path`: `status_ok` says
/// whether the version-query invocation succeeded, `stdout` and `stderr` are
/// its captured streams. The version text is taken from whichever stream
/// mentions `Python` (standard output first) and parsed.
pub fn interpret_version_probe(status_ok: bool, stdout: &str, stderr: &str, path: &str) -> (r:
    Option<PythonInfo>)
    ensures
        spec_probe_stream(status_ok, stdout@, stderr@) is None ==> r is None,
        spec_probe_stream(status_ok, stdout@, stderr@) matches Some(v) ==> {
            &&& (r is Some) == (spec_parse_version(v) is Some)
            &&& r is Some ==> {
                let info = r.unwrap();
                let sv = spec_parse_version(v).unwrap();
                &&& info.major == sv.major
                &&& info.minor == sv.minor
                &&& info.patch == sv.patch
                &&& info.version@ == sv.version
                &&& info.path@ == path@
            }
        },
{
    if !status_ok {
        return None;
    }
    proof {
        reveal_strlit("Python");
        assert("Python"@ =~= spec_python_word());
    }
    if contains_str(stdout, "Python") {
        parse_python_version(stdout, path)
    } else if contains_str(stderr, "Python") {
        parse_python_version(stderr, path)
    } else {
        None
    }
}

} // verus!
