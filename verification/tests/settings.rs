use xojo_mcp::settings::{compare_version_names, extract_version_parts, is_truthy, newest_version};

#[test]
fn truthy_flags() {
    for v in ["1", "true", "YES", " On ", "True\n"] {
        assert!(is_truthy(v), "{v} should be truthy");
    }
    for v in ["", "0", "false", "no", "off", "2", "yes please"] {
        assert!(!is_truthy(v), "{v} should not be truthy");
    }
}

#[test]
fn version_parts_are_the_digit_runs() {
    assert_eq!(extract_version_parts("2024r9"), vec![2024, 9]);
    assert_eq!(extract_version_parts("2025r1.2"), vec![2025, 1, 2]);
    assert_eq!(extract_version_parts("abc"), Vec::<i32>::new());
    assert_eq!(extract_version_parts("r99999999999x7"), vec![7]);
    assert_eq!(extract_version_parts("2147483647"), vec![2147483647]);
}

#[test]
fn versions_compare_numerically() {
    assert_eq!(compare_version_names("2024r10", "2024r9"), 1);
    assert_eq!(compare_version_names("2024r9", "2024r10"), -1);
    assert_eq!(compare_version_names("2024r9", "2024r9.0"), 0);
    assert_eq!(compare_version_names("Beta", "alpha"), 1);
    assert_eq!(compare_version_names("alpha", "ALPHA"), 0);
}

#[test]
fn the_newest_version_wins() {
    let names: Vec<String> = ["2024r9", "2025r1", "2024r10", "2025r1"].iter().map(|s| s.to_string()).collect();
    assert_eq!(newest_version(&names), Some(1));
    assert_eq!(newest_version(&Vec::new()), None);
}

#[test]
fn newer_is_transitive_and_the_kept_version_is_not_older() {
    assert_eq!(compare_version_names("zeta", "beta"), 1);
    assert_eq!(compare_version_names("beta", "2"), -1);
    assert_eq!(compare_version_names("3", "2024r1"), -1);
    let names: Vec<String> = ["beta", "0", "alpha", "2024r1", "2023r4", "Beta"].iter().map(|s| s.to_string()).collect();
    let k = newest_version(&names).unwrap();
    assert_eq!(k, 3);
    for n in &names {
        assert!(compare_version_names(n, &names[k]) <= 0);
    }
}
