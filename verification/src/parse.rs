//! Parsers for the package manager's line-oriented output: package listings
//! (name and optional version columns), search results, tap lists and the
//! version banner. All output text is passed through unmodified; the
//! parsers only split and select, they never interpret.

use vstd::prelude::*;

use crate::stream::opt_str_view;
use crate::text::first_token;
use crate::text::is_blank;
use crate::text::second_token;
use crate::text::split_lines;
use crate::text::split_lines_spec;
use crate::text::token_bounds;
use crate::text::trim;
use crate::text::trim_spec;
use crate::text::two_tokens;
use crate::types::BrewPackage;

verus! {

/// The `(name, version)` entries one output line contributes: none for a
/// blank line, otherwise its first token as the name and — when versions
/// are requested and present — its second token as the version.
pub open spec fn line_entry(l: Seq<char>, with_versions: bool) -> Seq<
    (Seq<char>, Option<Seq<char>>),
> {
    if is_blank(l) {
        Seq::empty()
    } else {
        seq![
            (
                first_token(l),
                if with_versions && second_token(l).len() > 0 {
                    Some(second_token(l))
                } else {
                    None
                },
            ),
        ]
    }
}

/// The `(name, version)` entries of a whole listing, line by line.
pub open spec fn package_entries(ls: Seq<Seq<char>>, with_versions: bool) -> Seq<
    (Seq<char>, Option<Seq<char>>),
> decreases ls.len(),
{
    if ls.len() == 0 {
        Seq::empty()
    } else {
        package_entries(ls.drop_last(), with_versions) + line_entry(ls.last(), with_versions)
    }
}

/// View of one parsed package record.
pub open spec fn pkg_entry_view(p: BrewPackage) -> (Seq<char>, Option<Seq<char>>) {
    (p.name@, opt_str_view(p.version))
}

/// Parses one listing into package records of the given kind: one record
/// per non-blank line, carrying the line's name and optional version
/// column.
pub fn parse_package_lines(raw: &str, kind: &str, with_versions: bool) -> (r: Vec<BrewPackage>)
    ensures
        r@.map_values(|p: BrewPackage| pkg_entry_view(p)) == package_entries(
            split_lines_spec(raw@),
            with_versions,
        ),
        forall|i: int| 0 <= i < r@.len() ==> (#[trigger] r@[i]).kind@ == kind@,
{
    let lines = split_lines(raw);
    let ghost lviews = lines@.map_values(|l: String| l@);
    let mut r: Vec<BrewPackage> = Vec::new();
    let mut i: usize = 0;
    proof {
        assert(lviews.take(0) =~= Seq::<Seq<char>>::empty());
    }
    while i < lines.len()
        invariant
            lviews == lines@.map_values(|l: String| l@),
            0 <= i <= lines@.len(),
            r@.map_values(|p: BrewPackage| pkg_entry_view(p)) =~= package_entries(
                lviews.take(i as int),
                with_versions,
            ),
            forall|j: int| 0 <= j < r@.len() ==> (#[trigger] r@[j]).kind@ == kind@,
        decreases lines@.len() - i,
    {
        let line = &lines[i];
        proof {
            assert(lviews.take(i as int + 1).drop_last() =~= lviews.take(i as int));
            assert(lviews.take(i as int + 1).last() == line@);
        }
        let (a, b) = token_bounds(line.as_str(), 0);
        if b > a {
            proof {
                assert(!is_blank(line@)) by {
                    let rest = line@.skip(a as int);
                    assert(crate::text::prefix_len(rest, |c: char| crate::text::is_space(c))
                        > 0);
                    assert(!crate::text::is_space(rest[0]));
                    assert(rest[0] == line@[a as int]);
                }
            }
            let (name, ver) = two_tokens(line.as_str());
            let version: Option<String> = if with_versions && ver.as_str().unicode_len() > 0 {
                Some(ver)
            } else {
                None
            };
            let p = BrewPackage { name, version, kind: kind.to_owned() };
            proof {
                let ghost rv = r@.map_values(|q: BrewPackage| pkg_entry_view(q));
                assert((r@.push(p)).map_values(|q: BrewPackage| pkg_entry_view(q)) =~= rv.push(
                    pkg_entry_view(p),
                ));
                assert(rv.push(pkg_entry_view(p)) =~= package_entries(
                    lviews.take(i as int + 1),
                    with_versions,
                ));
            }
            r.push(p);
        } else {
            proof {
                assert(is_blank(line@)) by {
                    let stop_tok = |c: char| !crate::text::is_space(c);
                    let stop_sp = |c: char| crate::text::is_space(c);
                    assert(line@.skip(0) =~= line@);
                    crate::text::lemma_prefix_len(line@, stop_tok);
                    crate::text::lemma_prefix_len(line@.skip(a as int), stop_sp);
                    if a < line@.len() {
                        assert(!crate::text::is_space(line@[a as int]));
                        assert(crate::text::is_space(line@.skip(a as int)[0]));
                        assert(line@.skip(a as int)[0] == line@[a as int]);
                    }
                    assert(a == line@.len());
                    assert forall|j: int| 0 <= j < line@.len() implies crate::text::is_space(
                        #[trigger] line@[j],
                    ) by {
                        assert(!stop_tok(line@[j]));
                    }
                }
                assert(package_entries(lviews.take(i as int + 1), with_versions)
                    =~= package_entries(lviews.take(i as int), with_versions));
            }
        }
        i += 1;
    }
    proof {
        assert(lviews.take(lviews.len() as int) =~= lviews);
    }
    r
}

/// The search-result entries one output line contributes: its trimmed text,
/// unless that is empty or starts with `=` (a heading, not a package name).
pub open spec fn search_entry(l: Seq<char>) -> Seq<Seq<char>> {
    let t = trim_spec(l);
    if t.len() == 0 || t[0] == '=' {
        Seq::empty()
    } else {
        seq![t]
    }
}

/// The search-result names of a whole listing, line by line.
pub open spec fn search_entries(ls: Seq<Seq<char>>) -> Seq<Seq<char>>
    decreases ls.len(),
{
    if ls.len() == 0 {
        Seq::empty()
    } else {
        search_entries(ls.drop_last()) + search_entry(ls.last())
    }
}

/// Parses a search listing into the package names it offers.
pub fn parse_search_lines(raw: &str) -> (r: Vec<String>)
    ensures
        r@.map_values(|s: String| s@) == search_entries(split_lines_spec(raw@)),
{
    let lines = split_lines(raw);
    let ghost lviews = lines@.map_values(|l: String| l@);
    let mut r: Vec<String> = Vec::new();
    let mut i: usize = 0;
    proof {
        assert(lviews.take(0) =~= Seq::<Seq<char>>::empty());
    }
    while i < lines.len()
        invariant
            lviews == lines@.map_values(|l: String| l@),
            0 <= i <= lines@.len(),
            r@.map_values(|s: String| s@) =~= search_entries(lviews.take(i as int)),
        decreases lines@.len() - i,
    {
        let line = &lines[i];
        proof {
            assert(lviews.take(i as int + 1).drop_last() =~= lviews.take(i as int));
            assert(lviews.take(i as int + 1).last() == line@);
        }
        let t = trim(line.as_str());
        let keep = if t.as_str().unicode_len() == 0 {
            false
        } else {
            t.as_str().get_char(0) != '='
        };
        if keep {
            proof {
                let ghost rv = r@.map_values(|s: String| s@);
                assert((r@.push(t)).map_values(|s: String| s@) =~= rv.push(t@));
                assert(rv.push(t@) =~= search_entries(lviews.take(i as int + 1)));
            }
            r.push(t);
        } else {
            proof {
                assert(search_entries(lviews.take(i as int + 1)) =~= search_entries(
                    lviews.take(i as int),
                ));
            }
        }
        i += 1;
    }
    proof {
        assert(lviews.take(lviews.len() as int) =~= lviews);
    }
    r
}

/// The tap-list entries one output line contributes: its trimmed text,
/// unless empty.
pub open spec fn tap_entry(l: Seq<char>) -> Seq<Seq<char>> {
    let t = trim_spec(l);
    if t.len() == 0 {
        Seq::empty()
    } else {
        seq![t]
    }
}

/// The tap names of a whole listing, line by line.
pub open spec fn tap_entries(ls: Seq<Seq<char>>) -> Seq<Seq<char>>
    decreases ls.len(),
{
    if ls.len() == 0 {
        Seq::empty()
    } else {
        tap_entries(ls.drop_last()) + tap_entry(ls.last())
    }
}

/// Parses a tap listing into the tap names it holds.
pub fn parse_tap_lines(raw: &str) -> (r: Vec<String>)
    ensures
        r@.map_values(|s: String| s@) == tap_entries(split_lines_spec(raw@)),
{
    let lines = split_lines(raw);
    let ghost lviews = lines@.map_values(|l: String| l@);
    let mut r: Vec<String> = Vec::new();
    let mut i: usize = 0;
    proof {
        assert(lviews.take(0) =~= Seq::<Seq<char>>::empty());
    }
    while i < lines.len()
        invariant
            lviews == lines@.map_values(|l: String| l@),
            0 <= i <= lines@.len(),
            r@.map_values(|s: String| s@) =~= tap_entries(lviews.take(i as int)),
        decreases lines@.len() - i,
    {
        let line = &lines[i];
        proof {
            assert(lviews.take(i as int + 1).drop_last() =~= lviews.take(i as int));
            assert(lviews.take(i as int + 1).last() == line@);
        }
        let t = trim(line.as_str());
        if t.as_str().unicode_len() > 0 {
            proof {
                let ghost rv = r@.map_values(|s: String| s@);
                assert((r@.push(t)).map_values(|s: String| s@) =~= rv.push(t@));
                assert(rv.push(t@) =~= tap_entries(lviews.take(i as int + 1)));
            }
            r.push(t);
        } else {
            proof {
                assert(tap_entries(lviews.take(i as int + 1)) =~= tap_entries(
                    lviews.take(i as int),
                ));
            }
        }
        i += 1;
    }
    proof {
        assert(lviews.take(lviews.len() as int) =~= lviews);
    }
    r
}

/// The first logical line of `s`, empty when `s` is empty.
pub open spec fn first_line_spec(s: Seq<char>) -> Seq<char> {
    if split_lines_spec(s).len() == 0 {
        Seq::empty()
    } else {
        split_lines_spec(s)[0]
    }
}

/// Takes the first line of a command's output: the version banner.
pub fn first_line(s: &str) -> (r: String)
    ensures
        r@ == first_line_spec(s@),
{
    let mut lines = split_lines(s);
    if lines.len() == 0 {
        String::new()
    } else {
        let ghost lviews = lines@.map_values(|l: String| l@);
        let first = lines.remove(0);
        proof {
            assert(first@ == lviews[0]);
        }
        first
    }
}

} // verus!
