use life_os::commands::destination::{split_name_ext, unique_destination};
use life_os::path::join_path;
use life_os::text::{decimal, ends_with, list_contains, starts_with, str_eq};

fn strings(items: &[&str]) -> Vec<String> {
    items.iter().map(|s| s.to_string()).collect()
}

#[test]
fn a_free_name_resolves_to_itself() {
    assert_eq!(unique_destination("/dest", "shot.png", &Vec::new()), "/dest/shot.png");
    let other = strings(&["/dest/other.png", "/dest/shot (1).png"]);
    assert_eq!(unique_destination("/dest", "shot.png", &other), "/dest/shot.png");
}

#[test]
fn a_taken_name_resolves_to_its_first_free_variant() {
    let one = strings(&["/dest/shot.png"]);
    assert_eq!(unique_destination("/dest", "shot.png", &one), "/dest/shot (1).png");
    let three = strings(&["/dest/shot (2).png", "/dest/shot.png", "/dest/shot (1).png"]);
    assert_eq!(unique_destination("/dest", "shot.png", &three), "/dest/shot (3).png");
    let gap = strings(&["/dest/shot.png", "/dest/shot (2).png"]);
    assert_eq!(unique_destination("/dest", "shot.png", &gap), "/dest/shot (1).png");
}

#[test]
fn variants_are_numbered_in_decimal_past_nine() {
    let mut existing = vec!["/dest/a.b.txt".to_string()];
    for i in 1..=11 {
        existing.push(format!("/dest/a.b ({}).txt", i));
    }
    assert_eq!(unique_destination("/dest", "a.b.txt", &existing), "/dest/a.b (12).txt");
}

#[test]
fn a_name_without_a_dot_gets_the_number_at_its_end() {
    let existing = strings(&["/dest/README"]);
    assert_eq!(unique_destination("/dest", "README", &existing), "/dest/README (1)");
    let dotfile = strings(&["/dest/.profile"]);
    assert_eq!(unique_destination("/dest", ".profile", &dotfile), "/dest/ (1).profile");
}

#[test]
fn resolving_twice_gives_the_same_destination() {
    let existing = strings(&["/dest/shot.png", "/dest/shot (1).png"]);
    let first = unique_destination("/dest", "shot.png", &existing);
    let second = unique_destination("/dest", "shot.png", &existing);
    assert_eq!(first, second);
    assert!(!existing.contains(&first));
}

#[test]
fn names_split_at_the_last_dot() {
    assert_eq!(split_name_ext("a.png"), ("a".to_string(), ".png".to_string()));
    assert_eq!(split_name_ext("a.b.c"), ("a.b".to_string(), ".c".to_string()));
    assert_eq!(split_name_ext("noext"), ("noext".to_string(), String::new()));
    assert_eq!(split_name_ext(".hidden"), (String::new(), ".hidden".to_string()));
    assert_eq!(split_name_ext("dot."), ("dot".to_string(), ".".to_string()));
    assert_eq!(split_name_ext(""), (String::new(), String::new()));
    assert_eq!(split_name_ext("é.ü"), ("é".to_string(), ".ü".to_string()));
}

#[test]
fn paths_join_with_one_separator() {
    assert_eq!(join_path("/a", "b"), "/a/b");
    assert_eq!(join_path("/a/", "b"), "/a/b");
    assert_eq!(join_path("/a", "b/c"), "/a/b/c");
    assert_eq!(join_path("/a", "/b"), "/b");
    assert_eq!(join_path("", "b"), "b");
    assert_eq!(join_path("/a", ""), "/a/");
    assert_eq!(join_path("/", "b"), "/b");
}

#[test]
fn joining_agrees_with_the_platform_on_unix_paths() {
    for (base, rel) in [("/a", "b"), ("/a/", "b"), ("/a", "/b"), ("", "b"), ("/a", ""), ("a", "b/c")] {
        let expected = std::path::Path::new(base).join(rel);
        assert_eq!(std::path::Path::new(&join_path(base, rel)), expected.as_path());
        assert_eq!(join_path(base, rel), expected.to_str().expect("unicode"));
    }
}

#[test]
fn decimal_writes_numbers_without_leading_zeros() {
    assert_eq!(decimal(0), "0");
    assert_eq!(decimal(7), "7");
    assert_eq!(decimal(10), "10");
    assert_eq!(decimal(1234567890), "1234567890");
    assert_eq!(decimal(u128::MAX), u128::MAX.to_string());
}

#[test]
fn text_tests_compare_characters() {
    assert!(starts_with("Screenshot 1", "Screenshot "));
    assert!(starts_with("abc", ""));
    assert!(!starts_with("ab", "abc"));
    assert!(!starts_with("xbc", "ab"));
    assert!(ends_with("a.png", ".png"));
    assert!(ends_with("a", ""));
    assert!(!ends_with("png", ".png"));
    assert!(!ends_with("a.pnG", ".png"));
    assert!(starts_with("éa", "é"));
    assert!(ends_with("aé", "é"));
    assert!(str_eq("abc", "abc"));
    assert!(!str_eq("abc", "abd"));
    assert!(!str_eq("abc", "ab"));
    assert!(list_contains(&strings(&["a", "b"]), "b"));
    assert!(!list_contains(&strings(&["a", "b"]), "c"));
    assert!(!list_contains(&Vec::new(), ""));
}
