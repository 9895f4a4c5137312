use brew_manager::parse::first_line;
use brew_manager::parse::parse_package_lines;
use brew_manager::parse::parse_search_lines;
use brew_manager::parse::parse_tap_lines;
use brew_manager::text::blank;
use brew_manager::text::split_lines;
use brew_manager::text::str_eq;
use brew_manager::text::trim;
use brew_manager::text::two_tokens;
use brew_manager::order::sort_packages_by_name;
use brew_manager::order::str_le;
use brew_manager::BrewPackage;

#[test]
fn split_lines_handles_endings_and_fragments() {
    assert_eq!(split_lines(""), Vec::<String>::new());
    assert_eq!(split_lines("one"), vec![String::from("one")]);
    assert_eq!(split_lines("one\n"), vec![String::from("one")]);
    assert_eq!(
        split_lines("one\r\ntwo"),
        vec![String::from("one"), String::from("two")]
    );
    assert_eq!(
        split_lines("a\n\nb"),
        vec![String::from("a"), String::from(""), String::from("b")]
    );
    // a lone trailing carriage return is not a line ending
    assert_eq!(split_lines("one\r"), vec![String::from("one\r")]);
}

#[test]
fn text_helpers() {
    assert!(blank(""));
    assert!(blank(" \t \r\n"));
    assert!(!blank(" x "));
    assert_eq!(trim("  hello  "), "hello");
    assert_eq!(trim("\tword"), "word");
    assert_eq!(trim("   "), "");
    assert_eq!(trim("a"), "a");
    assert!(str_eq("abc", "abc"));
    assert!(!str_eq("abc", "abd"));
    assert!(!str_eq("abc", "ab"));
    let (name, version) = two_tokens("wget 1.21.4 extra");
    assert_eq!(name, "wget");
    assert_eq!(version, "1.21.4");
    let (name, version) = two_tokens("  solo  ");
    assert_eq!(name, "solo");
    assert_eq!(version, "");
}

#[test]
fn lexicographic_order() {
    assert!(str_le("", "a"));
    assert!(str_le("a", "a"));
    assert!(str_le("abc", "abd"));
    assert!(!str_le("abd", "abc"));
    assert!(str_le("ab", "abc"));
    assert!(!str_le("abc", "ab"));
    assert!(str_le("Zed", "apple"));
}

#[test]
fn package_listing_with_versions() {
    let raw = "wget 1.21.4\ncurl 8.4.0 8.5.0\n\n   \nsolo\n";
    let pkgs = parse_package_lines(raw, "formula", true);
    assert_eq!(pkgs.len(), 3);
    assert_eq!(pkgs[0].name, "wget");
    assert_eq!(pkgs[0].version.as_deref(), Some("1.21.4"));
    assert_eq!(pkgs[0].kind, "formula");
    assert_eq!(pkgs[1].name, "curl");
    assert_eq!(pkgs[1].version.as_deref(), Some("8.4.0"));
    assert_eq!(pkgs[2].name, "solo");
    assert!(pkgs[2].version.is_none());
}

#[test]
fn package_listing_without_versions() {
    let raw = "wget 1.21.4\ncurl 8.4.0\n";
    let pkgs = parse_package_lines(raw, "cask", false);
    assert_eq!(pkgs.len(), 2);
    assert_eq!(pkgs[0].name, "wget");
    assert!(pkgs[0].version.is_none());
    assert_eq!(pkgs[0].kind, "cask");
}

#[test]
fn search_listing_skips_headings_and_blanks() {
    let raw = "==> Formulae\nwget\n  curl \n\n=== something\n";
    let names = parse_search_lines(raw);
    assert_eq!(names, vec![String::from("wget"), String::from("curl")]);
}

#[test]
fn tap_listing_trims_and_skips_blanks() {
    let raw = "homebrew/core\n\n  homebrew/cask  \n   \n";
    let taps = parse_tap_lines(raw);
    assert_eq!(
        taps,
        vec![String::from("homebrew/core"), String::from("homebrew/cask")]
    );
}

#[test]
fn first_line_of_version_banner() {
    assert_eq!(first_line("Homebrew 4.2.0\nHomebrew/homebrew-core"), "Homebrew 4.2.0");
    assert_eq!(first_line(""), "");
    assert_eq!(first_line("only"), "only");
}

fn pkg(name: &str, kind: &str) -> BrewPackage {
    BrewPackage {
        name: String::from(name),
        version: None,
        kind: String::from(kind),
    }
}

#[test]
fn sorting_by_name() {
    let mut v = vec![pkg("wget", "formula"), pkg("curl", "formula"), pkg("bat", "cask")];
    sort_packages_by_name(&mut v);
    let names: Vec<&str> = v.iter().map(|p| p.name.as_str()).collect();
    assert_eq!(names, vec!["bat", "curl", "wget"]);

    let mut empty: Vec<BrewPackage> = Vec::new();
    sort_packages_by_name(&mut empty);
    assert!(empty.is_empty());

    // the sort is stable: records with equal names keep their input order
    let mut dup = vec![pkg("x", "cask"), pkg("x", "formula"), pkg("a", "formula")];
    sort_packages_by_name(&mut dup);
    assert_eq!(dup.len(), 3);
    assert_eq!(dup[0].name, "a");
    assert_eq!(dup[1].name, "x");
    assert_eq!(dup[1].kind, "cask");
    assert_eq!(dup[2].name, "x");
    assert_eq!(dup[2].kind, "formula");
}
