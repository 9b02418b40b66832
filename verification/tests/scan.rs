use arity_scan::report::process_source;
use arity_scan::report::report_after_scan;

#[test]
fn three_params_threshold_two() {
    let path = String::from("main.rs");
    let src = "fn foo(a: i32, b: i32, c: i32) {}\n";
    let records = process_source(&path, src, 2).expect("source parses");
    assert_eq!(records.len(), 1);
    assert_eq!(records[0].name, "foo");
    assert_eq!(records[0].arity, 3);
    assert_eq!(records[0].line, 1);
    assert_eq!(records[0].path, "main.rs");
}

#[test]
fn three_params_threshold_three() {
    let path = String::from("main.rs");
    let src = "fn foo(a: i32, b: i32, c: i32) {}\n";
    let records = process_source(&path, src, 3).expect("source parses");
    assert_eq!(records.len(), 0);
}

#[test]
fn receiver_excluded_from_arity() {
    let path = String::from("lib.rs");
    let src = "struct S;\nimpl S {\n    fn bar(&self, x: i32) {}\n}\n";
    let records = process_source(&path, src, 0).expect("source parses");
    assert_eq!(records.len(), 1);
    assert_eq!(records[0].name, "bar");
    assert_eq!(records[0].arity, 1);
    assert_eq!(records[0].line, 3);
}

#[test]
fn receiver_removal_leaves_arity_unchanged() {
    let path = String::from("lib.rs");
    let with_self = "struct S;\nimpl S {\n    fn bar(&self, x: i32, y: i32) {}\n}\n";
    let without_self = "struct S;\nimpl S {\n    fn bar(x: i32, y: i32) {}\n}\n";
    let a = process_source(&path, with_self, 0).expect("source parses");
    let b = process_source(&path, without_self, 0).expect("source parses");
    assert_eq!(a.len(), 1);
    assert_eq!(b.len(), 1);
    assert_eq!(a[0].arity, b[0].arity);
    assert_eq!(a[0].arity, 2);
}

#[test]
fn signature_only_reported_like_full_declaration() {
    let path = String::from("lib.rs");
    let signature = "trait T {\n    fn quux(a: u8, b: u8, c: u8, d: u8, e: u8);\n}\n";
    let full = "fn quux(a: u8, b: u8, c: u8, d: u8, e: u8) {}\n";
    let a = process_source(&path, signature, 4).expect("source parses");
    let b = process_source(&path, full, 4).expect("source parses");
    assert_eq!(a.len(), 1);
    assert_eq!(b.len(), 1);
    assert_eq!(a[0].name, b[0].name);
    assert_eq!(a[0].arity, b[0].arity);
    assert_eq!(a[0].arity, 5);
}

#[test]
fn two_files_sorted_with_summary() {
    let pa = String::from("a.rs");
    let pb = String::from("b.rs");
    let src5 = "fn f(a: u8, b: u8, c: u8, d: u8, e: u8) {}\n";
    let src8 = "fn g(a: u8, b: u8, c: u8, d: u8, e: u8, f: u8, g: u8, h: u8) {}\n";
    // feed the larger arity first: the report must still come out ascending
    let mut all = process_source(&pb, src8, 3).expect("source parses");
    all.extend(process_source(&pa, src5, 3).expect("source parses"));
    let report = report_after_scan(Some(all), 3).expect("no parse failure");
    assert_eq!(
        report,
        "a.rs:1: fn f/5\nb.rs:1: fn g/8\n\nFound 2 functions with more than 3 arguments\n"
    );
}

#[test]
fn parse_failure_yields_no_summary() {
    let report = report_after_scan(None, 3);
    assert!(report.is_none());
}

#[test]
fn file_without_declarations_contributes_nothing() {
    let path = String::from("consts.rs");
    let src = "const X: u8 = 1;\nstatic Y: u8 = 2;\n";
    let records = process_source(&path, src, 0).expect("source parses");
    assert_eq!(records.len(), 0);
    let report = report_after_scan(Some(records), 0).expect("no parse failure");
    assert_eq!(report, "\nFound 0 functions with more than 0 arguments\n");
}

#[test]
fn same_input_same_report() {
    let path = String::from("m.rs");
    let src = "fn a(x: u8, y: u8) {}\nfn b(x: u8, y: u8, z: u8) {}\n";
    let r1 = report_after_scan(Some(process_source(&path, src, 1).unwrap()), 1).unwrap();
    let r2 = report_after_scan(Some(process_source(&path, src, 1).unwrap()), 1).unwrap();
    assert_eq!(r1, r2);
    assert_eq!(
        r1,
        "m.rs:1: fn a/2\nm.rs:2: fn b/3\n\nFound 2 functions with more than 1 arguments\n"
    );
}

#[test]
fn ties_and_order_across_many_declarations() {
    let path = String::from("m.rs");
    let src = "fn big(a: u8, b: u8, c: u8, d: u8) {}\nfn one(a: u8) {}\nfn mid(a: u8, b: u8) {}\n";
    let records = process_source(&path, src, 0).expect("source parses");
    assert_eq!(records.len(), 3);
    let report = report_after_scan(Some(records), 0).expect("no parse failure");
    assert_eq!(
        report,
        "m.rs:2: fn one/1\nm.rs:3: fn mid/2\nm.rs:1: fn big/4\n\nFound 3 functions with more than 0 arguments\n"
    );
}
