//! Verified text utilities for the package manager's line-oriented output:
//! character classes, string equality and ordering, trimming, line
//! splitting and whitespace tokenizing.

use vstd::prelude::*;

verus! {

/// The whitespace characters recognized when trimming and tokenizing: the
/// Unicode white-space set.
pub open spec fn is_space(c: char) -> bool {
    c == ' ' || c == '\t' || c == '\n' || c == '\u{b}' || c == '\u{c}' || c == '\r'
        || c == '\u{85}' || c == '\u{a0}' || c == '\u{1680}' || ('\u{2000}' <= c && c
        <= '\u{200a}') || c == '\u{2028}' || c == '\u{2029}' || c == '\u{202f}' || c
        == '\u{205f}' || c == '\u{3000}'
}

/// A string is blank when every character is whitespace (an empty string is
/// blank).
pub open spec fn is_blank(s: Seq<char>) -> bool {
    forall|i: int| 0 <= i < s.len() ==> is_space(#[trigger] s[i])
}

fn is_space_char(c: char) -> (r: bool)
    ensures
        r == is_space(c),
{
    c == ' ' || c == '\t' || c == '\n' || c == '\u{b}' || c == '\u{c}' || c == '\r'
        || c == '\u{85}' || c == '\u{a0}' || c == '\u{1680}' || ('\u{2000}' <= c && c
        <= '\u{200a}') || c == '\u{2028}' || c == '\u{2029}' || c == '\u{202f}' || c
        == '\u{205f}' || c == '\u{3000}'
}

/// Decides whether `s` is blank.
pub fn blank(s: &str) -> (r: bool)
    ensures
        r == is_blank(s@),
{
    let n = s.unicode_len();
    let mut i: usize = 0;
    while i < n
        invariant
            n == s@.len(),
            0 <= i <= n,
            forall|j: int| 0 <= j < i ==> is_space(#[trigger] s@[j]),
        decreases n - i,
    {
        if !is_space_char(s.get_char(i)) {
            return false;
        }
        i += 1;
    }
    true
}

/// Decides string equality by content.
pub fn str_eq(a: &str, b: &str) -> (r: bool)
    ensures
        r == (a@ == b@),
{
    let n = a.unicode_len();
    if n != b.unicode_len() {
        proof {
            assert(a@.len() != b@.len());
        }
        return false;
    }
    let mut i: usize = 0;
    while i < n
        invariant
            n == a@.len(),
            n == b@.len(),
            0 <= i <= n,
            forall|j: int| 0 <= j < i ==> a@[j] == b@[j],
        decreases n - i,
    {
        if a.get_char(i) != b.get_char(i) {
            return false;
        }
        i += 1;
    }
    proof {
        assert(a@ =~= b@);
    }
    true
}

/// Length of the longest prefix of `s` in which `stop` holds of no
/// character.
pub open spec fn prefix_len(s: Seq<char>, stop: spec_fn(char) -> bool) -> nat
    decreases s.len(),
{
    if s.len() == 0 || stop(s[0]) {
        0
    } else {
        1 + prefix_len(s.drop_first(), stop)
    }
}

/// `prefix_len` is the unique cut: everything before it fails `stop`, and
/// the character at it (if any) satisfies `stop`.
pub proof fn lemma_prefix_len(s: Seq<char>, stop: spec_fn(char) -> bool)
    ensures
        prefix_len(s, stop) <= s.len(),
        forall|j: int| 0 <= j < prefix_len(s, stop) ==> !stop(#[trigger] s[j]),
        prefix_len(s, stop) < s.len() ==> stop(s[prefix_len(s, stop) as int]),
    decreases s.len(),
{
    if s.len() == 0 || stop(s[0]) {
    } else {
        lemma_prefix_len(s.drop_first(), stop);
        assert forall|j: int| 0 <= j < prefix_len(s, stop) implies !stop(#[trigger] s[j]) by {
            if j > 0 {
                assert(s.drop_first()[j - 1] == s[j]);
            }
        }
        if prefix_len(s, stop) < s.len() {
            assert(s.drop_first()[prefix_len(s.drop_first(), stop) as int] == s[prefix_len(
                s,
                stop,
            ) as int]);
        }
    }
}

/// Any index with the properties of `prefix_len` is `prefix_len`.
pub proof fn lemma_prefix_len_unique(s: Seq<char>, stop: spec_fn(char) -> bool, q: int)
    requires
        0 <= q <= s.len(),
        forall|j: int| 0 <= j < q ==> !stop(#[trigger] s[j]),
        q < s.len() ==> stop(s[q]),
    ensures
        q == prefix_len(s, stop),
{
    lemma_prefix_len(s, stop);
    let p = prefix_len(s, stop) as int;
    if q < p {
        assert(stop(s[q]));
        assert(!stop(s[q]));
    } else if p < q {
        assert(stop(s[p]));
        assert(!stop(s[p]));
    }
}

/// Index of the first newline at or after `from`, or the length when the
/// rest of the string has none.
fn find_newline(s: &str, from: usize) -> (r: usize)
    requires
        from <= s@.len(),
    ensures
        from <= r <= s@.len(),
        r - from == prefix_len(s@.skip(from as int), |c: char| c == '\n'),
        forall|j: int| from <= j < r ==> s@[j] != '\n',
        r < s@.len() ==> s@[r as int] == '\n',
{
    let n = s.unicode_len();
    let mut i: usize = from;
    while i < n && s.get_char(i) != '\n'
        invariant
            n == s@.len(),
            from <= i <= n,
            forall|j: int| from <= j < i ==> s@[j] != '\n',
        decreases n - i,
    {
        i += 1;
    }
    proof {
        let rest = s@.skip(from as int);
        assert forall|j: int| 0 <= j < i - from implies !((|c: char| c == '\n')(
            #[trigger] rest[j],
        )) by {
            assert(rest[j] == s@[j + from]);
        }
        assert(i - from < rest.len() ==> (|c: char| c == '\n')(rest[i - from]));
        lemma_prefix_len_unique(rest, |c: char| c == '\n', i - from);
    }
    i
}

/// Number of whitespace characters at the start of `s`.
pub open spec fn lead_spaces(s: Seq<char>) -> nat {
    prefix_len(s, |c: char| !is_space(c))
}

/// Index just past the last non-whitespace character of `s` (0 when blank).
pub open spec fn trim_end(s: Seq<char>) -> nat
    decreases s.len(),
{
    if s.len() == 0 {
        0
    } else if is_space(s.last()) {
        trim_end(s.drop_last())
    } else {
        s.len()
    }
}

/// `trim_end` cuts exactly the trailing whitespace.
pub proof fn lemma_trim_end(s: Seq<char>)
    ensures
        trim_end(s) <= s.len(),
        forall|j: int| trim_end(s) <= j < s.len() ==> is_space(#[trigger] s[j]),
        trim_end(s) > 0 ==> !is_space(s[trim_end(s) - 1]),
    decreases s.len(),
{
    if s.len() == 0 {
    } else if is_space(s.last()) {
        lemma_trim_end(s.drop_last());
        assert forall|j: int| trim_end(s) <= j < s.len() implies is_space(#[trigger] s[j]) by {
            if j < s.len() - 1 {
                assert(s.drop_last()[j] == s[j]);
            }
        }
        if trim_end(s) > 0 {
            assert(s.drop_last()[trim_end(s) - 1] == s[trim_end(s) - 1]);
        }
    }
}

/// Any cut with the properties of `trim_end` is `trim_end`.
pub proof fn lemma_trim_end_unique(s: Seq<char>, q: int)
    requires
        0 <= q <= s.len(),
        forall|j: int| q <= j < s.len() ==> is_space(#[trigger] s[j]),
        q > 0 ==> !is_space(s[q - 1]),
    ensures
        q == trim_end(s),
{
    lemma_trim_end(s);
    let p = trim_end(s) as int;
    if q < p {
        assert(is_space(s[p - 1]));
        assert(!is_space(s[p - 1]));
    } else if p < q {
        assert(is_space(s[q - 1]));
        assert(!is_space(s[q - 1]));
    }
}

/// `s` with leading and trailing whitespace removed.
pub open spec fn trim_spec(s: Seq<char>) -> Seq<char> {
    if lead_spaces(s) >= trim_end(s) {
        Seq::empty()
    } else {
        s.subrange(lead_spaces(s) as int, trim_end(s) as int)
    }
}

/// Removes leading and trailing whitespace.
pub fn trim(s: &str) -> (r: String)
    ensures
        r@ == trim_spec(s@),
{
    let n = s.unicode_len();
    let mut a: usize = 0;
    while a < n && is_space_char(s.get_char(a))
        invariant
            n == s@.len(),
            0 <= a <= n,
            forall|j: int| 0 <= j < a ==> is_space(#[trigger] s@[j]),
        decreases n - a,
    {
        a += 1;
    }
    proof {
        let stop = |c: char| !is_space(c);
        assert forall|j: int| 0 <= j < a implies !stop(#[trigger] s@[j]) by {}
        lemma_prefix_len_unique(s@, stop, a as int);
    }
    let mut b: usize = n;
    while b > 0 && is_space_char(s.get_char(b - 1))
        invariant
            n == s@.len(),
            0 <= b <= n,
            forall|j: int| b <= j < n ==> is_space(#[trigger] s@[j]),
        decreases b,
    {
        b -= 1;
    }
    proof {
        lemma_trim_end_unique(s@, b as int);
    }
    if a >= b {
        String::new()
    } else {
        s.substring_char(a, b).to_owned()
    }
}

/// A segment terminated by a newline loses one trailing carriage return.
pub open spec fn strip_cr(l: Seq<char>) -> Seq<char> {
    if l.len() > 0 && l.last() == '\r' {
        l.drop_last()
    } else {
        l
    }
}

/// The logical lines of `s`: segments split at `\n`, each losing a trailing
/// `\r`; a final unterminated fragment still counts as one line, and a
/// trailing newline adds no empty line.
pub open spec fn split_lines_spec(s: Seq<char>) -> Seq<Seq<char>>
    decreases s.len(),
{
    if s.len() == 0 {
        Seq::empty()
    } else {
        let n = prefix_len(s, |c: char| c == '\n');
        if n >= s.len() {
            seq![s]
        } else {
            seq![strip_cr(s.take(n as int))] + split_lines_spec(s.skip(n as int + 1))
        }
    }
}

/// Splits `s` into its logical lines.
pub fn split_lines(s: &str) -> (r: Vec<String>)
    ensures
        r@.map_values(|l: String| l@) == split_lines_spec(s@),
{
    let n = s.unicode_len();
    let mut r: Vec<String> = Vec::new();
    let mut pos: usize = 0;
    proof {
        assert(s@.skip(0) =~= s@);
    }
    while pos < n
        invariant
            n == s@.len(),
            0 <= pos <= n,
            r@.map_values(|l: String| l@) + split_lines_spec(s@.skip(pos as int))
                =~= split_lines_spec(s@),
        decreases n - pos,
    {
        let ghost rest = s@.skip(pos as int);
        let end = find_newline(s, pos);
        proof {
            assert forall|j: int| 0 <= j < end - pos implies !((|c: char| c == '\n')(
                #[trigger] rest[j],
            )) by {
                assert(rest[j] == s@[j + pos]);
            }
            assert(end - pos < rest.len() ==> (|c: char| c == '\n')(rest[end - pos]));
            lemma_prefix_len_unique(rest, |c: char| c == '\n', end - pos);
        }
        if end < n {
            let mut seg = s.substring_char(pos, end);
            let seg_len = end - pos;
            let piece: String = if seg_len > 0 && seg.get_char(seg_len - 1) == '\r' {
                seg.substring_char(0, seg_len - 1).to_owned()
            } else {
                seg.to_owned()
            };
            proof {
                assert(rest.take(end - pos) =~= s@.subrange(pos as int, end as int));
                assert(piece@ =~= strip_cr(rest.take(end - pos)));
                assert(rest.skip(end - pos + 1) =~= s@.skip(end + 1));
                assert((r@.map_values(|l: String| l@)).push(piece@) =~= (r@.push(
                    piece,
                )).map_values(|l: String| l@));
            }
            r.push(piece);
            pos = end + 1;
        } else {
            let piece = s.substring_char(pos, n).to_owned();
            proof {
                assert(piece@ =~= rest);
                assert(split_lines_spec(rest) =~= seq![rest]);
                assert((r@.map_values(|l: String| l@)).push(piece@) =~= (r@.push(
                    piece,
                )).map_values(|l: String| l@));
                assert(s@.skip(n as int) =~= Seq::<char>::empty());
            }
            r.push(piece);
            pos = n;
        }
    }
    proof {
        assert(s@.skip(pos as int) =~= Seq::<char>::empty());
        assert(r@.map_values(|l: String| l@) =~= split_lines_spec(s@));
    }
    r
}

/// Start of the first whitespace-separated token at or after position `i`.
pub open spec fn token_start(s: Seq<char>, i: int) -> int {
    i + prefix_len(s.skip(i), |c: char| !is_space(c))
}

/// End of the token that starts at position `i`.
pub open spec fn token_end(s: Seq<char>, i: int) -> int {
    i + prefix_len(s.skip(i), |c: char| is_space(c))
}

/// The first whitespace-separated token of `s`, empty when `s` is blank.
pub open spec fn first_token(s: Seq<char>) -> Seq<char> {
    let a = token_start(s, 0);
    s.subrange(a, token_end(s, a))
}

/// What remains of `s` after its first token.
pub open spec fn after_first_token(s: Seq<char>) -> Seq<char> {
    s.skip(token_end(s, token_start(s, 0)))
}

/// The second whitespace-separated token of `s`, empty when there is none.
pub open spec fn second_token(s: Seq<char>) -> Seq<char> {
    first_token(after_first_token(s))
}

/// Finds the bounds of the first token at or after `from`: skips
/// whitespace, then takes the run of non-whitespace. Both bounds equal the
/// string's length when only whitespace remains.
pub fn token_bounds(s: &str, from: usize) -> (r: (usize, usize))
    requires
        from <= s@.len(),
    ensures
        from <= r.0 <= r.1 <= s@.len(),
        r.0 == token_start(s@, from as int),
        r.1 == token_end(s@, r.0 as int),
{
    let n = s.unicode_len();
    let mut a: usize = from;
    while a < n && is_space_char(s.get_char(a))
        invariant
            n == s@.len(),
            from <= a <= n,
            forall|j: int| from <= j < a ==> is_space(#[trigger] s@[j]),
        decreases n - a,
    {
        a += 1;
    }
    proof {
        let rest = s@.skip(from as int);
        let stop = |c: char| !is_space(c);
        assert forall|j: int| 0 <= j < a - from implies !stop(#[trigger] rest[j]) by {
            assert(rest[j] == s@[j + from]);
        }
        assert(a - from < rest.len() ==> stop(rest[a - from]));
        lemma_prefix_len_unique(rest, stop, a - from);
    }
    let mut b: usize = a;
    while b < n && !is_space_char(s.get_char(b))
        invariant
            n == s@.len(),
            a <= b <= n,
            forall|j: int| a <= j < b ==> !is_space(#[trigger] s@[j]),
        decreases n - b,
    {
        b += 1;
    }
    proof {
        let rest = s@.skip(a as int);
        let stop = |c: char| is_space(c);
        assert forall|j: int| 0 <= j < b - a implies !stop(#[trigger] rest[j]) by {
            assert(rest[j] == s@[j + a]);
        }
        assert(b - a < rest.len() ==> stop(rest[b - a]));
        lemma_prefix_len_unique(rest, stop, b - a);
    }
    (a, b)
}

/// Extracts the first two whitespace-separated tokens: the name and,
/// when present, the version column of one output line.
pub fn two_tokens(s: &str) -> (r: (String, String))
    ensures
        r.0@ == first_token(s@),
        r.1@ == second_token(s@),
{
    let (a1, b1) = token_bounds(s, 0);
    let tok1 = s.substring_char(a1, b1).to_owned();
    let (a2, b2) = token_bounds(s, b1);
    let tok2 = s.substring_char(a2, b2).to_owned();
    proof {
        let rest = s@.skip(b1 as int);
        assert(tok1@ =~= first_token(s@));
        let ra = token_start(rest, 0);
        assert(rest.skip(0) =~= rest);
        assert forall|j: int| 0 <= j < rest.len() implies rest[j] == s@[j + b1] by {}
        let stopa = |c: char| !is_space(c);
        assert(prefix_len(rest, stopa) == prefix_len(s@.skip(b1 as int), stopa));
        assert(a2 - b1 == prefix_len(s@.skip(b1 as int), stopa));
        assert(ra == a2 - b1);
        let stopb = |c: char| is_space(c);
        assert(rest.skip(ra) =~= s@.skip(a2 as int));
        assert(token_end(rest, ra) == ra + prefix_len(s@.skip(a2 as int), stopb));
        assert(token_end(rest, ra) == b2 - b1);
        assert(rest.subrange(ra, b2 - b1) =~= s@.subrange(a2 as int, b2 as int));
        assert(tok2@ =~= first_token(rest));
        assert(after_first_token(s@) == rest);
    }
    (tok1, tok2)
}

} // verus!
