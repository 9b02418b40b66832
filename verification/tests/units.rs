use arity_scan::count::count_parameters;
use arity_scan::paths::relativize;
use arity_scan::record::FnInfo;
use arity_scan::record::dec_str;

fn kinds(v: &[&str]) -> Vec<String> {
    v.iter().map(|s| s.to_string()).collect()
}

#[test]
fn count_plain_parameters() {
    let ks = kinds(&["(", "parameter", ",", "parameter", ",", "parameter", ")"]);
    assert_eq!(count_parameters(&ks), 3);
}

#[test]
fn count_skips_receiver() {
    let ks = kinds(&["(", "self_parameter", ",", "parameter", ")"]);
    assert_eq!(count_parameters(&ks), 1);
    let without = kinds(&["(", "parameter", ")"]);
    assert_eq!(count_parameters(&ks), count_parameters(&without));
}

#[test]
fn count_empty_list() {
    let ks = kinds(&["(", ")"]);
    assert_eq!(count_parameters(&ks), 0);
}

#[test]
fn decimal_rendering() {
    assert_eq!(dec_str(0), "0");
    assert_eq!(dec_str(7), "7");
    assert_eq!(dec_str(10), "10");
    assert_eq!(dec_str(90152), "90152");
}

#[test]
fn record_rendering() {
    let rec = FnInfo {
        path: String::from("src/a.rs"),
        name: String::from("foo"),
        arity: 10,
        line: 12,
    };
    assert_eq!(rec.render(), "src/a.rs:12: fn foo/10");
}

#[test]
fn relativize_strips_root_and_separator() {
    assert_eq!(relativize("root", "root/a/b.rs"), Some(String::from("a/b.rs")));
    assert_eq!(relativize("/abs/dir", "/abs/dir/x.rs"), Some(String::from("x.rs")));
    assert_eq!(relativize("root/", "root/x.rs"), Some(String::from("x.rs")));
    assert_eq!(relativize("root", "root"), Some(String::from("")));
}

#[test]
fn relativize_rejects_foreign_path() {
    assert_eq!(relativize("root", "other/x.rs"), None);
    assert_eq!(relativize("long-root", "short"), None);
}
