use modularize_exports::pattern::anchor;
use modularize_exports::render::has_partial_call;
use modularize_exports::rewrite::export_from;
use modularize_exports::{
    modularize_exports, normalize_path, Config, ExportAll, ExportNamedSpecifier,
    ExportNamespaceSpecifier, ExportSpecifier, ModularizeExports, ModuleExportName, ModuleItem,
    NamedExport, PackageConfig, Span, Transform, TransformError,
};

type Item = ModuleItem<(), u32>;

fn span() -> Span {
    Span { lo: 0, hi: 0 }
}

fn rule(template: &str, prevent_full_export: bool, skip_default_conversion: bool) -> PackageConfig {
    PackageConfig {
        transform: Transform::template(template),
        prevent_full_export,
        skip_default_conversion,
    }
}

fn member_rules(rules: &[(&str, &str)]) -> PackageConfig {
    PackageConfig {
        transform: Transform::rules(
            rules.iter().map(|(k, v)| (k.to_string(), v.to_string())).collect(),
        ),
        prevent_full_export: false,
        skip_default_conversion: false,
    }
}

fn build(packages: Vec<(&str, PackageConfig)>) -> ModularizeExports {
    let packages = packages.into_iter().map(|(k, v)| (k.to_string(), v)).collect();
    match modularize_exports(Config { packages }) {
        Ok(t) => t,
        Err(e) => panic!("configuration refused: {:?}", e),
    }
}

fn ident(s: &str) -> ModuleExportName {
    ModuleExportName::Ident(s.to_string())
}

fn named(orig: &str, exported: Option<&str>) -> ExportSpecifier {
    ExportSpecifier::Named(ExportNamedSpecifier {
        span: span(),
        orig: ident(orig),
        exported: exported.map(ident),
        is_type_only: false,
    })
}

fn export_named(specifiers: Vec<ExportSpecifier>, src: &str, type_only: bool) -> Item {
    ModuleItem::ExportNamed(NamedExport {
        span: span(),
        specifiers,
        src: Some(src.to_string()),
        type_only,
        with: None,
    })
}

fn export_all(src: &str) -> Item {
    ModuleItem::ExportAll(ExportAll { span: span(), src: src.to_string(), type_only: false, with: None })
}

/// `(source, specifier kind, local name)` of each statement, for comparison.
fn shape(items: &[Item]) -> Vec<(String, String, String)> {
    items
        .iter()
        .map(|item| match item {
            ModuleItem::ExportNamed(d) => {
                assert_eq!(d.specifiers.len(), 1);
                let (kind, name) = match &d.specifiers[0] {
                    ExportSpecifier::Named(n) => ("named", n.orig.as_str().to_string()),
                    ExportSpecifier::Namespace(n) => ("namespace", n.name.as_str().to_string()),
                    ExportSpecifier::Default(n) => ("default", n.exported.clone()),
                };
                (d.src.clone().unwrap_or_default(), kind.to_string(), name)
            },
            ModuleItem::ExportAll(d) => (d.src.clone(), "all".to_string(), String::new()),
            ModuleItem::Other(n) => (String::new(), "other".to_string(), n.to_string()),
        })
        .collect()
}

fn row(src: &str, kind: &str, name: &str) -> (String, String, String) {
    (src.to_string(), kind.to_string(), name.to_string())
}

fn library_four() -> ModularizeExports {
    build(vec![(
        "my-library-4",
        member_rules(&[
            ("foo", "my-library-4/this_is_foo"),
            ("bar", "my-library-4/bar"),
            ("use(\\w*)", "my-library-4/{{kebabCase member}}/{{kebabCase memberMatches.[1]}}"),
            ("(\\w*)Icon", "my-library-4/{{kebabCase memberMatches.[1]}}"),
            ("*", "my-library-4/{{upperCase member}}"),
        ]),
    )])
}

#[test]
fn anchoring_matches_whole_names_only() {
    let t = build(vec![("react-bootstrap", rule("react-bootstrap/lib/{{member}}", false, false))]);
    assert!(t.should_rewrite(Some("react-bootstrap")).is_some());
    assert!(t.should_rewrite(Some("react-bootstrap-extra")).is_none());
    assert!(t.should_rewrite(Some("my-react-bootstrap")).is_none());
    assert!(t.should_rewrite(None).is_none());
}

#[test]
fn explicit_anchor_is_kept() {
    let t = build(vec![("^react", rule("x/{{member}}", false, false))]);
    assert!(t.should_rewrite(Some("react-bootstrap")).is_some());
    assert!(t.should_rewrite(Some("preact")).is_none());
}

#[test]
fn first_matching_package_wins_and_captures_groups() {
    let t = build(vec![
        ("my-library/?(((\\w*)?/?)*)", rule("my-library/{{ matches.[1] }}/{{member}}", false, false)),
        ("my-.*", rule("other/{{member}}", false, false)),
    ]);
    let rw = t.should_rewrite(Some("my-library/beta")).unwrap();
    assert_eq!(rw.group[0], "my-library/beta");
    assert_eq!(rw.group[1], "beta");
    let out = t.fold_module(vec![export_named(vec![named("Foo", None)], "my-library/beta", false)]).unwrap();
    assert_eq!(shape(&out), vec![row("my-library/beta/Foo", "namespace", "Foo")]);
}

#[test]
fn scenario_single_template_default_conversion() {
    let t = build(vec![("react-bootstrap", rule("react-bootstrap/lib/{{member}}", false, false))]);
    let input = vec![export_named(vec![named("Button", None), named("Alert", None)], "react-bootstrap", false)];
    let out = t.fold_module(input).unwrap();
    assert_eq!(
        shape(&out),
        vec![
            row("react-bootstrap/lib/Button", "namespace", "Button"),
            row("react-bootstrap/lib/Alert", "namespace", "Alert"),
        ]
    );
}

#[test]
fn namespace_takes_the_exported_alias() {
    let t = build(vec![("react-bootstrap", rule("react-bootstrap/lib/{{member}}", false, false))]);
    let out = t.fold_module(vec![export_named(vec![named("Button", Some("Btn"))], "react-bootstrap", false)]).unwrap();
    assert_eq!(shape(&out), vec![row("react-bootstrap/lib/Button", "namespace", "Btn")]);
}

#[test]
fn scenario_skip_default_conversion() {
    let t = build(vec![("my-library-2", rule("my-library-2/{{camelCase member}}", false, true))]);
    let out = t.fold_module(vec![export_named(vec![named("my_foo", Some("bar"))], "my-library-2", false)]).unwrap();
    assert_eq!(shape(&out), vec![row("my-library-2/myFoo", "named", "my_foo")]);
    match &out[0] {
        ModuleItem::ExportNamed(d) => match &d.specifiers[0] {
            ExportSpecifier::Named(n) => assert_eq!(n.exported.as_ref().unwrap().as_str(), "bar"),
            _ => panic!("named specifier expected"),
        },
        _ => panic!("named export expected"),
    }
}

#[test]
fn scenario_member_rules_first_match_wins() {
    let t = library_four();
    let out = t.fold_module(vec![export_named(vec![named("useButton", None)], "my-library-4", false)]).unwrap();
    assert_eq!(shape(&out), vec![row("my-library-4/use-button/button", "namespace", "useButton")]);
}

#[test]
fn member_rules_in_order() {
    let t = library_four();
    let input = vec![export_named(
        vec![named("foo", None), named("bar", None), named("StarIcon", None), named("Other", None)],
        "my-library-4",
        false,
    )];
    let out = t.fold_module(input).unwrap();
    assert_eq!(
        shape(&out),
        vec![
            row("my-library-4/this_is_foo", "namespace", "foo"),
            row("my-library-4/bar", "namespace", "bar"),
            row("my-library-4/star", "namespace", "StarIcon"),
            row("my-library-4/OTHER", "namespace", "Other"),
        ]
    );
}

#[test]
fn missing_member_rule_is_an_error() {
    let t = build(vec![("pkg", member_rules(&[("foo", "pkg/foo")]))]);
    let r = t.fold_module(vec![export_named(vec![named("bar", None)], "pkg", false)]);
    match r {
        Err(TransformError::MissingRule { member, package }) => {
            assert_eq!(member, "bar");
            assert_eq!(package, "pkg");
        },
        other => panic!("missing rule expected, got {:?}", other.map(|v| v.len())),
    }
}

#[test]
fn invalid_member_pattern_is_refused_at_construction() {
    let packages = vec![
        ("pkg".to_string(), member_rules(&[("foo", "pkg/foo"), ("use(", "pkg/bar")])),
    ];
    match modularize_exports(Config { packages }) {
        Err(TransformError::InvalidPattern { pattern }) => assert_eq!(pattern, "^(?:use()$"),
        _ => panic!("invalid pattern expected"),
    }
}

#[test]
fn alternation_matches_whole_names_only() {
    let t = build(vec![("a|b", rule("x/{{member}}", false, false))]);
    assert!(t.should_rewrite(Some("a")).is_some());
    assert!(t.should_rewrite(Some("b")).is_some());
    assert!(t.should_rewrite(Some("ax")).is_none());
    assert!(t.should_rewrite(Some("xb")).is_none());
}

#[test]
fn absent_binding_is_a_render_error() {
    let t = build(vec![("pkg", rule("pkg/{{memberMatches.[1]}}", false, false))]);
    let r = t.fold_module(vec![export_all("pkg")]);
    match r {
        Err(TransformError::Render { package, .. }) => assert_eq!(package, "pkg"),
        _ => panic!("render error expected"),
    }
}

#[test]
fn full_export_error_names_the_package() {
    let t = build(vec![("pk.", rule("pkg/{{member}}", true, false))]);
    let ns = ExportSpecifier::Namespace(ExportNamespaceSpecifier { span: span(), name: ident("ns") });
    match t.fold_module(vec![export_named(vec![ns], "pkg", false)]) {
        Err(TransformError::FullExport { package }) => assert_eq!(package, "pkg"),
        _ => panic!("full export error expected"),
    }
}

#[test]
fn invalid_package_pattern_is_refused() {
    let r = modularize_exports(Config { packages: vec![("(".to_string(), rule("x", false, false))] });
    match r {
        Err(TransformError::InvalidPattern { pattern }) => assert_eq!(pattern, "^(?:()$"),
        _ => panic!("invalid pattern expected"),
    }
}

#[test]
fn malformed_template_is_a_render_error() {
    let t = build(vec![("pkg", rule("pkg/{{#if member}}", false, false))]);
    let r = t.fold_module(vec![export_named(vec![named("Foo", None)], "pkg", false)]);
    match r {
        Err(TransformError::Render { package, .. }) => assert_eq!(package, "pkg"),
        _ => panic!("render error expected"),
    }
}

#[test]
fn path_normalization_collapses_slashes() {
    let t = build(vec![("my-library", rule("my-library//{{member}}", false, false))]);
    let out = t.fold_module(vec![export_named(vec![named("Foo", None)], "my-library", false)]).unwrap();
    assert_eq!(shape(&out), vec![row("my-library/Foo", "namespace", "Foo")]);
}

#[test]
fn normalize_path_collapses_every_run() {
    assert_eq!(normalize_path("a///b//c/"), "a/b/c/");
    assert_eq!(normalize_path("//"), "/");
    assert_eq!(normalize_path(""), "");
    assert_eq!(normalize_path("plain"), "plain");
}

#[test]
fn scenario_type_only_left_unchanged() {
    let t = build(vec![("my-library-2", rule("my-library-2/{{camelCase member}}", false, true))]);
    let out = t.fold_module(vec![export_named(vec![named("Foo", None)], "my-library-2", true)]).unwrap();
    assert_eq!(out.len(), 1);
    match &out[0] {
        ModuleItem::ExportNamed(d) => {
            assert!(d.type_only);
            assert_eq!(d.src.as_deref(), Some("my-library-2"));
            assert_eq!(d.specifiers.len(), 1);
        },
        _ => panic!("named export expected"),
    }
}

#[test]
fn attributes_clause_left_unchanged() {
    let t = build(vec![("pkg", rule("pkg/{{member}}", false, false))]);
    let item: Item = ModuleItem::ExportNamed(NamedExport {
        span: span(),
        specifiers: vec![named("Foo", None)],
        src: Some("pkg".to_string()),
        type_only: false,
        with: Some(()),
    });
    let out = t.fold_module(vec![item]).unwrap();
    assert_eq!(shape(&out), vec![row("pkg", "named", "Foo")]);
}

#[test]
fn scenario_prevent_full_export() {
    let t = build(vec![("pkg", rule("pkg/{{member}}", true, false))]);
    let ns = ExportSpecifier::Namespace(ExportNamespaceSpecifier { span: span(), name: ident("ns") });
    let r = t.fold_module(vec![export_named(vec![ns], "pkg", false)]);
    assert!(matches!(r, Err(TransformError::FullExport { .. })));
    let out = t.fold_module(vec![export_all("pkg")]).unwrap();
    assert_eq!(shape(&out), vec![row("pkg/*", "all", "")]);
}

#[test]
fn mixed_specifiers_give_up_on_the_whole_statement() {
    let t = build(vec![("pkg", rule("pkg/{{member}}", false, false))]);
    let ns = ExportSpecifier::Namespace(ExportNamespaceSpecifier { span: span(), name: ident("ns") });
    let out = t.fold_module(vec![export_named(vec![named("Foo", None), ns], "pkg", false)]).unwrap();
    assert_eq!(out.len(), 1);
    match &out[0] {
        ModuleItem::ExportNamed(d) => {
            assert_eq!(d.src.as_deref(), Some("pkg"));
            assert_eq!(d.specifiers.len(), 2);
        },
        _ => panic!("named export expected"),
    }
}

#[test]
fn other_statements_and_unmatched_sources_pass_through() {
    let t = build(vec![("pkg", rule("pkg/{{member}}", false, false))]);
    let input = vec![
        ModuleItem::Other(7),
        export_named(vec![named("Foo", None)], "elsewhere", false),
        export_all("elsewhere"),
        export_named(vec![named("Bar", None)], "pkg", false),
    ];
    let out = t.fold_module(input).unwrap();
    assert_eq!(
        shape(&out),
        vec![
            row("", "other", "7"),
            row("elsewhere", "named", "Foo"),
            row("elsewhere", "all", ""),
            row("pkg/Bar", "namespace", "Bar"),
        ]
    );
}

#[test]
fn export_all_with_member_rules_uses_star() {
    let t = library_four();
    let out = t.fold_module(vec![export_all("my-library-4")]).unwrap();
    assert_eq!(shape(&out), vec![row("my-library-4/*", "all", "")]);
}

#[test]
fn fixed_point_second_run_changes_nothing() {
    let t = build(vec![("react-bootstrap", rule("react-bootstrap/lib/{{member}}", false, false))]);
    let input = vec![
        export_named(vec![named("Button", None), named("Alert", None)], "react-bootstrap", false),
        export_all("react-bootstrap"),
        ModuleItem::Other(1),
    ];
    let once = t.fold_module(input).unwrap();
    let first = shape(&once);
    let twice = t.fold_module(once).unwrap();
    assert_eq!(shape(&twice), first);
}

#[test]
fn first_failure_stops_the_pass() {
    let t = build(vec![("pkg", member_rules(&[("foo", "pkg/foo")]))]);
    let input = vec![
        export_named(vec![named("foo", None)], "pkg", false),
        export_named(vec![named("bar", None)], "pkg", false),
    ];
    assert!(matches!(t.fold_module(input), Err(TransformError::MissingRule { .. })));
}

#[test]
fn anchor_wraps_unanchored_patterns_only() {
    assert_eq!(anchor("react-bootstrap"), "^(?:react-bootstrap)$");
    assert_eq!(anchor("^react"), "^react");
    assert_eq!(anchor("bootstrap$"), "bootstrap$");
    assert_eq!(anchor(""), "^(?:)$");
    assert_eq!(anchor("*"), "^(?:.*)$");
    assert_eq!(anchor("a|b"), "^(?:a|b)$");
}

#[test]
fn export_from_builds_one_specifier_statement() {
    let spec = ExportNamedSpecifier {
        span: Span { lo: 3, hi: 9 },
        orig: ident("Button"),
        exported: Some(ident("Btn")),
        is_type_only: false,
    };
    let d: NamedExport<()> = export_from(Span { lo: 1, hi: 20 }, &spec, "lib/Button".to_string(), false);
    assert_eq!(d.src.as_deref(), Some("lib/Button"));
    assert_eq!(d.span, Span { lo: 1, hi: 20 });
    assert!(!d.type_only && d.with.is_none());
    match &d.specifiers[..] {
        [ExportSpecifier::Namespace(n)] => {
            assert_eq!(n.name.as_str(), "Btn");
            assert_eq!(n.span, Span { lo: 3, hi: 9 });
        },
        _ => panic!("one namespace specifier expected"),
    }
    let kept: NamedExport<()> = export_from(Span { lo: 1, hi: 20 }, &spec, "lib/Button".to_string(), true);
    match &kept.specifiers[..] {
        [ExportSpecifier::Named(n)] => {
            assert_eq!(n.orig.as_str(), "Button");
            assert_eq!(n.exported.as_ref().map(|e| e.as_str()), Some("Btn"));
        },
        _ => panic!("one named specifier expected"),
    }
}

#[test]
fn template_calling_a_partial_is_refused() {
    let template = "pkg/{{#*inline \"p\"}}{{> p}}{{/inline}}{{> p}}";
    let r = modularize_exports(Config { packages: vec![("pkg".to_string(), rule(template, false, false))] });
    match r {
        Err(TransformError::PartialCall { template: t }) => assert_eq!(t, template),
        _ => panic!("partial call expected"),
    }
    let r = modularize_exports(Config {
        packages: vec![("pkg".to_string(), member_rules(&[("*", "pkg/{{~#> layout}}x{{/layout}}")]))],
    });
    assert!(matches!(r, Err(TransformError::PartialCall { .. })));
}

#[test]
fn partial_call_detection() {
    assert!(has_partial_call("{{> p}}"));
    assert!(has_partial_call("a/{{~> p}}"));
    assert!(has_partial_call("{{#> p}}{{/p}}"));
    assert!(has_partial_call("{{ > p }}"));
    assert!(!has_partial_call("a>b/{{member}}"));
    assert!(!has_partial_call("{{member}}>x"));
    assert!(!has_partial_call("{ {> p}"));
    assert!(!has_partial_call(""));
}
