//! Small verified text utilities: decimal rendering of integers, substring
//! search, and whitespace tokenization used by the version parser and the
//! interpreter-command splitter.

use vstd::prelude::*;

verus! {

/// Whitespace characters recognized by trimming and token splitting: the
/// ASCII whitespace set (space, tab, line feed, vertical tab, form feed,
/// carriage return).
pub open spec fn spec_is_space(c: char) -> bool {
    c == ' ' || c == '\t' || c == '\n' || c == '\r' || c == '\u{b}' || c == '\u{c}'
}

/// Runtime test for [`spec_is_space`].
pub fn is_space_char(c: char) -> (b: bool)
    ensures
        b == spec_is_space(c),
{
    c == ' ' || c == '\t' || c == '\n' || c == '\r' || c == '\u{b}' || c == '\u{c}'
}

/// `n` occurs in `h` starting at position `i`.
pub open spec fn spec_contains_at(h: Seq<char>, n: Seq<char>, i: int) -> bool {
    0 <= i && i + n.len() <= h.len() && h.subrange(i, i + n.len() as int) == n
}

/// `n` occurs somewhere in `h`.
pub open spec fn spec_contains(h: Seq<char>, n: Seq<char>) -> bool {
    exists|i: int| spec_contains_at(h, n, i)
}

/// Substring search: does `h` contain `n`?
pub fn contains_str(h: &str, n: &str) -> (b: bool)
    ensures
        b == spec_contains(h@, n@),
{
    let hn = h.unicode_len();
    let nn = n.unicode_len();
    if nn > hn {
        proof {
            assert forall|i: int| !spec_contains_at(h@, n@, i) by {}
        }
        return false;
    }
    let mut i: usize = 0;
    while i <= hn - nn
        invariant
            nn <= hn,
            hn == h@.len(),
            nn == n@.len(),
            i <= hn - nn + 1,
            forall|k: int| 0 <= k < i ==> !spec_contains_at(h@, n@, k),
        decreases hn - nn - i + 1,
    {
        let mut j: usize = 0;
        while j < nn && h.get_char(i + j) == n.get_char(j)
            invariant
                nn <= hn,
                hn == h@.len(),
                nn == n@.len(),
                i + nn <= hn,
                j <= nn,
                forall|j2: int| 0 <= j2 < j ==> h@[i + j2] == n@[j2],
            decreases nn - j,
        {
            j += 1;
        }
        if j == nn {
            proof {
                assert(h@.subrange(i as int, i + nn as int) =~= n@);
                assert(spec_contains_at(h@, n@, i as int));
            }
            return true;
        }
        proof {
            assert(h@.subrange(i as int, i + nn as int)[j as int] == h@[i + j as int]);
            assert(!spec_contains_at(h@, n@, i as int));
        }
        i += 1;
    }
    proof {
        assert forall|k: int| !spec_contains_at(h@, n@, k) by {
            if 0 <= k < i {
            } else if k > hn - nn {
                assert(k + n@.len() > h@.len());
            }
        }
    }
    false
}

/// `s` holds at least one space character.
pub open spec fn spec_has_space(s: Seq<char>) -> bool {
    exists|i: int| 0 <= i < s.len() && s[i] == ' '
}

/// Runtime test for [`spec_has_space`].
pub fn has_space(s: &str) -> (b: bool)
    ensures
        b == spec_has_space(s@),
{
    let n = s.unicode_len();
    let mut i: usize = 0;
    while i < n
        invariant
            i <= n,
            n == s@.len(),
            forall|k: int| 0 <= k < i ==> s@[k] != ' ',
        decreases n - i,
    {
        if s.get_char(i) == ' ' {
            return true;
        }
        i += 1;
    }
    false
}

/// The whitespace-separated tokens of `s[from..]`, given the characters
/// `cur` of the token currently being read.
pub open spec fn spec_tokens_acc(s: Seq<char>, from: int, cur: Seq<char>) -> Seq<Seq<char>>
    decreases s.len() - from,
{
    if from < 0 || from >= s.len() {
        if cur.len() > 0 {
            seq![cur]
        } else {
            Seq::empty()
        }
    } else if spec_is_space(s[from]) {
        if cur.len() > 0 {
            seq![cur] + spec_tokens_acc(s, from + 1, Seq::empty())
        } else {
            spec_tokens_acc(s, from + 1, Seq::empty())
        }
    } else {
        spec_tokens_acc(s, from + 1, cur.push(s[from]))
    }
}

/// The whitespace-separated tokens of `s`, in order, without empties.
pub open spec fn spec_tokens(s: Seq<char>) -> Seq<Seq<char>> {
    spec_tokens_acc(s, 0, Seq::empty())
}

/// Reading a whole run of non-space characters extends the current token by
/// exactly that run.
proof fn lemma_tokens_run(s: Seq<char>, i: int, e: int, cur: Seq<char>)
    requires
        0 <= i <= e <= s.len(),
        forall|k: int| i <= k < e ==> !spec_is_space(s[k]),
        e == s.len() || spec_is_space(s[e]),
    ensures
        spec_tokens_acc(s, i, cur) == spec_tokens_acc(s, e, cur + s.subrange(i, e)),
    decreases e - i,
{
    if i == e {
        assert(cur + s.subrange(i, e) =~= cur);
    } else {
        lemma_tokens_run(s, i + 1, e, cur.push(s[i]));
        assert(cur.push(s[i]) + s.subrange(i + 1, e) =~= cur + s.subrange(i, e));
    }
}

/// Split `s` into its whitespace-separated tokens.
pub fn tokens_of(s: &str) -> (r: Vec<String>)
    ensures
        r@.map_values(|t: String| t@) == spec_tokens(s@),
{
    let n = s.unicode_len();
    let mut out: Vec<String> = Vec::new();
    let mut i: usize = 0;
    while i < n
        invariant
            i <= n,
            n == s@.len(),
            spec_tokens(s@) == out@.map_values(|t: String| t@) + spec_tokens_acc(
                s@,
                i as int,
                Seq::empty(),
            ),
        decreases n - i,
    {
        let c = s.get_char(i);
        if is_space_char(c) {
            i += 1;
        } else {
            let mut e: usize = i;
            while e < n && !is_space_char(s.get_char(e))
                invariant
                    i <= e <= n,
                    n == s@.len(),
                    forall|k: int| i <= k < e ==> !spec_is_space(s@[k]),
                decreases n - e,
            {
                e += 1;
            }
            let token = s.substring_char(i, e);
            proof {
                lemma_tokens_run(s@, i as int, e as int, Seq::empty());
                assert(Seq::empty() + s@.subrange(i as int, e as int) =~= s@.subrange(
                    i as int,
                    e as int,
                ));
                let tok = s@.subrange(i as int, e as int);
                if e < s@.len() {
                    assert(spec_tokens_acc(s@, e as int, tok) == seq![tok] + spec_tokens_acc(
                        s@,
                        e as int + 1,
                        Seq::empty(),
                    ));
                    assert(spec_tokens_acc(s@, e as int, Seq::empty()) == spec_tokens_acc(
                        s@,
                        e as int + 1,
                        Seq::empty(),
                    ));
                } else {
                    assert(spec_tokens_acc(s@, e as int, tok) =~= seq![tok] + spec_tokens_acc(
                        s@,
                        e as int,
                        Seq::empty(),
                    ));
                }
            }
            let ghost old_out = out@;
            out.push(String::from_str(token));
            proof {
                assert(out@.map_values(|t: String| t@) =~= old_out.map_values(|t: String| t@).push(
                    s@.subrange(i as int, e as int),
                ));
            }
            i = e;
        }
    }
    proof {
        assert(spec_tokens(s@) =~= out@.map_values(|t: String| t@));
    }
    out
}

/// How a textual interpreter command is split for execution: if it holds a
/// space, the first whitespace token is the program and the rest are leading
/// arguments; otherwise the whole text is the program.
pub open spec fn spec_split_command(s: Seq<char>) -> (Seq<char>, Seq<Seq<char>>) {
    if spec_has_space(s) {
        (spec_tokens(s)[0], spec_tokens(s).skip(1))
    } else {
        (s, Seq::empty())
    }
}

/// Split an interpreter command such as `py -3.11` into a program and its
/// leading arguments, as [`spec_split_command`] says.
///
/// A command made only of whitespace has no first token and is excluded.
pub fn split_command(cmd: &str) -> (r: (String, Vec<String>))
    requires
        spec_has_space(cmd@) ==> spec_tokens(cmd@).len() > 0,
    ensures
        r.0@ == spec_split_command(cmd@).0,
        r.1@.map_values(|t: String| t@) == spec_split_command(cmd@).1,
{
    if has_space(cmd) {
        let mut toks = tokens_of(cmd);
        let first = toks.remove(0);
        proof {
            assert(toks@.map_values(|t: String| t@) =~= spec_tokens(cmd@).skip(1));
        }
        (first, toks)
    } else {
        proof {
            assert(spec_split_command(cmd@).1 =~= Seq::<Seq<char>>::empty());
        }
        (String::from_str(cmd), Vec::new())
    }
}

/// The character for a single decimal digit value.
pub open spec fn spec_digit_char(d: nat) -> char {
    if d == 0 {
        '0'
    } else if d == 1 {
        '1'
    } else if d == 2 {
        '2'
    } else if d == 3 {
        '3'
    } else if d == 4 {
        '4'
    } else if d == 5 {
        '5'
    } else if d == 6 {
        '6'
    } else if d == 7 {
        '7'
    } else if d == 8 {
        '8'
    } else {
        '9'
    }
}

/// Decimal digit sequence of `n`, most significant digit first, with no
/// leading zeros (a single `'0'` for zero).
pub open spec fn spec_udec(n: nat) -> Seq<char>
    decreases n,
{
    if n < 10 {
        seq![spec_digit_char(n)]
    } else {
        spec_udec(n / 10).push(spec_digit_char(n % 10))
    }
}

/// Append the character for one decimal digit to `s`.
fn append_digit(s: &mut String, d: u16)
    requires
        d < 10,
    ensures
        final(s)@ == old(s)@.push(spec_digit_char(d as nat)),
{
    if d == 0 {
        proof {
            reveal_strlit("0");
        }
        s.append("0");
        proof {
            assert(final(s)@ =~= old(s)@.push('0'));
        }
    } else if d == 1 {
        proof {
            reveal_strlit("1");
        }
        s.append("1");
        proof {
            assert(final(s)@ =~= old(s)@.push('1'));
        }
    } else if d == 2 {
        proof {
            reveal_strlit("2");
        }
        s.append("2");
        proof {
            assert(final(s)@ =~= old(s)@.push('2'));
        }
    } else if d == 3 {
        proof {
            reveal_strlit("3");
        }
        s.append("3");
        proof {
            assert(final(s)@ =~= old(s)@.push('3'));
        }
    } else if d == 4 {
        proof {
            reveal_strlit("4");
        }
        s.append("4");
        proof {
            assert(final(s)@ =~= old(s)@.push('4'));
        }
    } else if d == 5 {
        proof {
            reveal_strlit("5");
        }
        s.append("5");
        proof {
            assert(final(s)@ =~= old(s)@.push('5'));
        }
    } else if d == 6 {
        proof {
            reveal_strlit("6");
        }
        s.append("6");
        proof {
            assert(final(s)@ =~= old(s)@.push('6'));
        }
    } else if d == 7 {
        proof {
            reveal_strlit("7");
        }
        s.append("7");
        proof {
            assert(final(s)@ =~= old(s)@.push('7'));
        }
    } else if d == 8 {
        proof {
            reveal_strlit("8");
        }
        s.append("8");
        proof {
            assert(final(s)@ =~= old(s)@.push('8'));
        }
    } else {
        proof {
            reveal_strlit("9");
        }
        s.append("9");
        proof {
            assert(final(s)@ =~= old(s)@.push('9'));
        }
    }
}

/// Render `n` in decimal, most significant digit first.
pub fn u16_to_string(n: u16) -> (s: String)
    ensures
        s@ == spec_udec(n as nat),
    decreases n,
{
    if n < 10 {
        let mut s = String::new();
        append_digit(&mut s, n);
        proof {
            assert(s@ =~= spec_udec(n as nat));
        }
        s
    } else {
        let mut s = u16_to_string(n / 10);
        append_digit(&mut s, n % 10);
        proof {
            assert(s@ =~= spec_udec(n as nat));
        }
        s
    }
}

} // verus!
