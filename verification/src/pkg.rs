//! Package-name validation shared by every subcommand that takes a name.

use vstd::prelude::*;

verus! {

/// Characters admitted in a package, cask or tap name: ASCII letters and
/// digits plus the separators Homebrew itself uses.
pub open spec fn valid_pkg_char(c: char) -> bool {
    ('a' <= c && c <= 'z') || ('A' <= c && c <= 'Z') || ('0' <= c && c <= '9')
        || c == '/' || c == '+' || c == '.' || c == '-' || c == '@' || c == '_'
}

/// A package name is accepted iff it is non-empty and every character is a
/// valid package-name character.
pub open spec fn valid_pkg_name(s: Seq<char>) -> bool {
    s.len() > 0 && forall|i: int| 0 <= i < s.len() ==> valid_pkg_char(#[trigger] s[i])
}

fn is_valid_pkg_char(c: char) -> (r: bool)
    ensures
        r == valid_pkg_char(c),
{
    ('a' <= c && c <= 'z') || ('A' <= c && c <= 'Z') || ('0' <= c && c <= '9')
        || c == '/' || c == '+' || c == '.' || c == '-' || c == '@' || c == '_'
}

/// Decides whether `name` may be passed to the package manager as a
/// package, cask or tap name.
pub fn is_valid_pkg_name(name: &str) -> (r: bool)
    ensures
        r == valid_pkg_name(name@),
{
    let n = name.unicode_len();
    if n == 0 {
        return false;
    }
    let mut i: usize = 0;
    while i < n
        invariant
            n == name@.len(),
            0 <= i <= n,
            forall|j: int| 0 <= j < i ==> valid_pkg_char(#[trigger] name@[j]),
        decreases n - i,
    {
        let c = name.get_char(i);
        if !is_valid_pkg_char(c) {
            return false;
        }
        i += 1;
    }
    true
}

} // verus!
