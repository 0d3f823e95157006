use async_attributes::decl::{FnDecl, Span};
use async_attributes::diag::DiagnosticKind;
use async_attributes::text::render_decl;
use async_attributes::transform::{
    benchmark_transform, entry_point_transform, unit_test_transform,
};

fn sp(tag: usize) -> Span {
    Span { start_line: tag, start_col: 0, end_line: tag, end_col: 5 }
}

fn decl(
    attrs: &[&str],
    is_async: bool,
    name: &str,
    params: &[&str],
    ret: Option<&str>,
    body: &str,
) -> FnDecl {
    FnDecl {
        attrs: attrs.iter().map(|s| s.to_string()).collect(),
        is_async,
        name: name.to_string(),
        params: params.iter().map(|s| s.to_string()).collect(),
        ret: ret.map(|s| s.to_string()),
        body: body.to_string(),
        name_span: sp(1),
        sig_span: sp(2),
        params_span: sp(3),
    }
}

#[test]
fn entry_point_rewrites_async_main() {
    let d = decl(&[], true, "main", &[], Some("Result<(), E>"), "{ Ok(()) }");
    let out = entry_point_transform(&d).unwrap();
    assert!(!out.is_async);
    assert_eq!(out.name, "main");
    assert_eq!(out.ret, Some("Result<(), E>".to_string()));
    assert!(out.params.is_empty());
    assert!(out.attrs.is_empty());
    assert_eq!(
        out.body,
        "{ async fn main() -> Result<(), E> { Ok(()) } \
         async_std::task::block_on(async { main().await }) }"
    );
    assert_eq!(
        render_decl(&out),
        "fn main() -> Result<(), E> { async fn main() -> Result<(), E> { Ok(()) } \
         async_std::task::block_on(async { main().await }) }"
    );
}

#[test]
fn entry_point_keeps_parameters_on_inner_declaration() {
    let d = decl(&[], true, "main", &["a: u32", "b: bool"], None, "{ go(a, b) }");
    let out = entry_point_transform(&d).unwrap();
    assert!(out.params.is_empty());
    assert_eq!(
        out.body,
        "{ async fn main(a: u32, b: bool) { go(a, b) } \
         async_std::task::block_on(async { main().await }) }"
    );
}

#[test]
fn entry_point_rejects_sync_main() {
    let d = decl(&[], false, "main", &[], None, "{ }");
    let e = entry_point_transform(&d).unwrap_err();
    assert_eq!(e.kind, DiagnosticKind::MissingAsyncMarker);
    assert_eq!(e.span, sp(2));
}

#[test]
fn entry_point_rejects_wrong_name() {
    let d = decl(&[], true, "foo", &[], None, "{ }");
    let e = entry_point_transform(&d).unwrap_err();
    assert_eq!(e.kind, DiagnosticKind::WrongFunctionName);
    assert_eq!(e.span, sp(1));
}

#[test]
fn entry_point_checks_name_before_asyncness() {
    let d = decl(&[], false, "foo", &[], None, "{ }");
    let e = entry_point_transform(&d).unwrap_err();
    assert_eq!(e.kind, DiagnosticKind::WrongFunctionName);
    assert_eq!(e.span, sp(1));
}

#[test]
fn unit_test_rewrites_async_fn() {
    let d = decl(&[], true, "my_test", &[], Some("std::io::Result<()>"), "{ Ok(()) }");
    let out = unit_test_transform(&d).unwrap();
    assert!(!out.is_async);
    assert_eq!(out.name, "my_test");
    assert_eq!(out.ret, Some("std::io::Result<()>".to_string()));
    assert!(out.params.is_empty());
    assert_eq!(out.attrs, vec!["#[test]".to_string()]);
    assert_eq!(out.body, "{ async_std::task::block_on(async { Ok(()) }) }");
    assert_eq!(
        render_decl(&out),
        "#[test]\nfn my_test() -> std::io::Result<()> \
         { async_std::task::block_on(async { Ok(()) }) }"
    );
}

#[test]
fn unit_test_rejects_sync_fn() {
    let d = decl(&[], false, "my_test", &[], None, "{ }");
    let e = unit_test_transform(&d).unwrap_err();
    assert_eq!(e.kind, DiagnosticKind::MissingAsyncMarker);
    assert_eq!(e.span, sp(2));
}

#[test]
fn benchmark_rewrites_parameterless_fn() {
    let d = decl(&[], true, "bench_1", &[], None, "{ println(\"hello world\") }");
    let out = benchmark_transform(&d).unwrap();
    assert!(!out.is_async);
    assert_eq!(out.name, "bench_1");
    assert_eq!(out.ret, None);
    assert_eq!(out.attrs, vec!["#[bench]".to_string()]);
    assert_eq!(out.params, vec!["b: &mut test::Bencher".to_string()]);
    assert_eq!(
        out.body,
        "{ b.iter(|| { let _ = async_std::task::block_on(async \
         { println(\"hello world\") }); }); }"
    );
    assert_eq!(
        render_decl(&out),
        "#[bench]\nfn bench_1(b: &mut test::Bencher) \
         { b.iter(|| { let _ = async_std::task::block_on(async \
         { println(\"hello world\") }); }); }"
    );
}

#[test]
fn benchmark_rejects_parameters() {
    let d = decl(&[], true, "bench_1", &["b: &mut Bencher"], None, "{ }");
    let e = benchmark_transform(&d).unwrap_err();
    assert_eq!(e.kind, DiagnosticKind::UnexpectedArguments);
    assert_eq!(e.span, sp(3));
}

#[test]
fn benchmark_rejects_sync_fn() {
    let d = decl(&[], false, "bench_1", &[], None, "{ }");
    let e = benchmark_transform(&d).unwrap_err();
    assert_eq!(e.kind, DiagnosticKind::MissingAsyncMarker);
    assert_eq!(e.span, sp(2));
}

#[test]
fn benchmark_checks_asyncness_before_parameters() {
    let d = decl(&[], false, "bench_1", &["b: &mut Bencher"], None, "{ }");
    let e = benchmark_transform(&d).unwrap_err();
    assert_eq!(e.kind, DiagnosticKind::MissingAsyncMarker);
    assert_eq!(e.span, sp(2));
}

#[test]
fn annotations_pass_through_in_order() {
    let attrs = ["#[ignore]", "#[allow(dead_code)]"];
    let d = decl(&attrs, true, "my_test", &[], None, "{ }");
    let out = unit_test_transform(&d).unwrap();
    assert_eq!(
        out.attrs,
        vec![
            "#[test]".to_string(),
            "#[ignore]".to_string(),
            "#[allow(dead_code)]".to_string(),
        ]
    );

    let b = decl(&attrs, true, "bench_1", &[], None, "{ }");
    let out = benchmark_transform(&b).unwrap();
    assert_eq!(
        out.attrs,
        vec![
            "#[bench]".to_string(),
            "#[ignore]".to_string(),
            "#[allow(dead_code)]".to_string(),
        ]
    );

    let m = decl(&attrs, true, "main", &[], None, "{ }");
    let out = entry_point_transform(&m).unwrap();
    assert_eq!(
        out.attrs,
        vec!["#[ignore]".to_string(), "#[allow(dead_code)]".to_string()]
    );
}

#[test]
fn diagnostic_messages_match_reasons() {
    let wrong = entry_point_transform(&decl(&[], true, "foo", &[], None, "{ }")).unwrap_err();
    assert_eq!(
        wrong.message(),
        "only the main function can be tagged with #[runtime::main]"
    );
    let missing = unit_test_transform(&decl(&[], false, "t", &[], None, "{ }")).unwrap_err();
    assert_eq!(
        missing.message(),
        "the async keyword is missing from the function declaration"
    );
    let args =
        benchmark_transform(&decl(&[], true, "b", &["x: u8"], None, "{ }")).unwrap_err();
    assert_eq!(args.message(), "async benchmarks don't take any arguments");
}

#[test]
fn render_keeps_async_header_and_attrs() {
    let d = decl(&["#[cold]"], true, "foo", &["x: u8"], Some("u8"), "{ x }");
    assert_eq!(render_decl(&d), "#[cold]\nasync fn foo(x: u8) -> u8 { x }");
}
