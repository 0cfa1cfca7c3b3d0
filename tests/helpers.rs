use chart_uploader::cli::{confirms, is_yes_answer, parse_args, ArgValues};
use chart_uploader::discovery::{compare_paths, is_chart_file, select_chart_files};
use std::cmp::Ordering;
use chart_uploader::request::{bearer_header, upload_file_name};
use chart_uploader::text::decimal_string;
use chart_uploader::upload::build_upload_url;

fn values(max_retries: Option<u32>, retry_delay: Option<u64>) -> ArgValues {
    ArgValues {
        path: "charts".to_string(),
        server: "http://localhost:8080".to_string(),
        token: "SECRET-REDACTED".to_string(),
        dry_run: false,
        yes: false,
        continue_on_error: true,
        verbose: true,
        max_retries,
        retry_delay,
    }
}

#[test]
fn defaults_apply_when_absent() {
    let a = parse_args(values(None, None)).ok().unwrap();
    assert_eq!(a.max_retries, 3);
    assert_eq!(a.retry_delay, 1);
    assert_eq!(a.server, "http://localhost:8080");
    assert!(a.continue_on_error);
    assert!(a.verbose);
    assert!(!a.dry_run);
}

#[test]
fn given_values_are_kept() {
    let a = parse_args(values(Some(0), Some(10))).ok().unwrap();
    assert_eq!(a.max_retries, 0);
    assert_eq!(a.retry_delay, 10);
}

#[test]
fn upload_url_strips_trailing_slashes() {
    assert_eq!(build_upload_url("http://h"), "http://h/charts/import/ksh");
    assert_eq!(build_upload_url("http://h/"), "http://h/charts/import/ksh");
    assert_eq!(build_upload_url("http://h///"), "http://h/charts/import/ksh");
    assert_eq!(build_upload_url("http://h/api/"), "http://h/api/charts/import/ksh");
    assert_eq!(build_upload_url(""), "/charts/import/ksh");
}

#[test]
fn chart_extension_is_recognised() {
    assert!(is_chart_file("a/b/song.ksh"));
    assert!(is_chart_file("x.ksh"));
    assert!(is_chart_file("a/..ksh"));
    assert!(!is_chart_file(".ksh"));
    assert!(!is_chart_file("a/.ksh"));
    assert!(!is_chart_file("a/song.KSH"));
    assert!(!is_chart_file("a/song.ksh.bak"));
    assert!(!is_chart_file("a/songksh"));
    assert!(!is_chart_file(""));
}

#[test]
fn discovery_filters_and_sorts() {
    let listing: Vec<String> = vec![
        "root/zeta/final.ksh",
        "root/readme.txt",
        "root/alpha/b.ksh",
        "root/alpha/a.ksh",
        "root/alpha/cover.png",
        "root/beta/.ksh",
        "root/Beta/upper.ksh",
        "root/alpha/sub/deep.ksh",
    ]
    .into_iter()
    .map(String::from)
    .collect();
    let r = select_chart_files(&listing);
    assert_eq!(
        r,
        vec![
            "root/Beta/upper.ksh",
            "root/alpha/a.ksh",
            "root/alpha/b.ksh",
            "root/alpha/sub/deep.ksh",
            "root/zeta/final.ksh",
        ]
    );
}

#[test]
fn discovery_of_nothing_is_empty() {
    assert!(select_chart_files(&Vec::new()).is_empty());
    let none: Vec<String> = vec!["a.txt".to_string()];
    assert!(select_chart_files(&none).is_empty());
}

#[test]
fn file_name_is_base_name() {
    assert_eq!(upload_file_name("charts/pack/song.ksh"), "song.ksh");
    assert_eq!(upload_file_name("song.ksh"), "song.ksh");
    assert_eq!(upload_file_name("charts/"), "chart.ksh");
    assert_eq!(upload_file_name(""), "chart.ksh");
}

#[test]
fn bearer_header_prefixes_token() {
    assert_eq!(bearer_header("abc"), "Bearer abc");
    assert_eq!(bearer_header(""), "Bearer ");
}

#[test]
fn decimal_rendering() {
    assert_eq!(decimal_string(0), "0");
    assert_eq!(decimal_string(7), "7");
    assert_eq!(decimal_string(10), "10");
    assert_eq!(decimal_string(404), "404");
    assert_eq!(decimal_string(u64::MAX), "18446744073709551615");
}

#[test]
fn discovery_orders_by_component() {
    let listing: Vec<String> = vec!["a.b/c.ksh", "a-b.ksh", "a/x.ksh", "a b/y.ksh", "a/x/z.ksh"]
        .into_iter()
        .map(String::from)
        .collect();
    let r = select_chart_files(&listing);
    assert_eq!(r, vec!["a/x/z.ksh", "a/x.ksh", "a b/y.ksh", "a-b.ksh", "a.b/c.ksh"]);
    let mut as_paths: Vec<std::path::PathBuf> = listing.iter().map(std::path::PathBuf::from).collect();
    as_paths.sort();
    let expected: Vec<String> = as_paths.iter().map(|p| p.to_str().unwrap().to_string()).collect();
    assert_eq!(r, expected);
}

#[test]
fn path_comparison() {
    assert_eq!(compare_paths("a/x.ksh", "a-b.ksh"), Ordering::Less);
    assert_eq!(compare_paths("a-b.ksh", "a/x.ksh"), Ordering::Greater);
    assert_eq!(compare_paths("a", "a/b"), Ordering::Less);
    assert_eq!(compare_paths("a/b", "a/b"), Ordering::Equal);
    assert_eq!(compare_paths("B", "a"), Ordering::Less);
    assert_eq!(compare_paths("", ""), Ordering::Equal);
}

#[test]
fn confirmation_answers() {
    assert!(confirms("y\n"));
    assert!(confirms("  Y  \r\n"));
    assert!(!confirms("yes\n"));
    assert!(!confirms("n\n"));
    assert!(!confirms("\n"));
    assert!(!confirms("y y"));
    assert!(is_yes_answer("y"));
    assert!(is_yes_answer("Y"));
    assert!(!is_yes_answer(" y"));
    assert!(!is_yes_answer(""));
}
