use nocojs::get_placeholder::{deliver_placeholder, standalone_fetch_plan, GetPlaceholderOptions};
use nocojs::log::{collect_logs, create_log, get_log_level, set_log_level, LogLevel, Logger};
use nocojs::placeholder_image::{wrap_with_svg, PlaceholderImageOutputKind};
use nocojs::store::Store;
use nocojs::transform::{
    apply_call_site_option, import_marks_preview, merge_call_options, needs_schema_version_write,
    plan_fetch, plan_preview_call, plan_rewrite, schema_version, source_mentions_client,
    CallOptionValue, CallSiteProp, FetchPlan, FirstArgument, Pass1Action, PreviewOptions,
    RewriteAction, TransformOptions,
};

fn defaults() -> PreviewOptions {
    PreviewOptions {
        width: None,
        height: None,
        output_kind: PlaceholderImageOutputKind::Normal,
        replace_function_call: true,
        cache: true,
        wrap_with_svg: true,
    }
}

fn prop(key: &str, value: CallOptionValue) -> CallSiteProp {
    CallSiteProp { key: key.to_string(), value }
}

#[test]
fn global_defaults() {
    let t = TransformOptions {
        placeholder_type: None,
        replace_function_call: None,
        cache: None,
        public_dir: None,
        cache_file_dir: None,
        log_level: None,
        width: None,
        height: None,
        sourcemap_file_path: None,
        wrap_with_svg: None,
    };
    let o = PreviewOptions::from_global_options(&t);
    assert_eq!(o, defaults());
}

#[test]
fn global_overrides_carry_over() {
    let t = TransformOptions {
        placeholder_type: Some(PlaceholderImageOutputKind::Blurred),
        replace_function_call: Some(false),
        cache: Some(false),
        public_dir: Some("./public".to_string()),
        cache_file_dir: Some(".cache".to_string()),
        log_level: Some(LogLevel::Verbose),
        width: Some(4),
        height: Some(3),
        sourcemap_file_path: None,
        wrap_with_svg: Some(false),
    };
    let o = PreviewOptions::from_global_options(&t);
    assert_eq!(o.output_kind, PlaceholderImageOutputKind::Blurred);
    assert!(!o.replace_function_call);
    assert!(!o.cache);
    assert!(!o.wrap_with_svg);
    assert_eq!(o.width, Some(4));
    assert_eq!(o.height, Some(3));
}

#[test]
fn source_mention_check() {
    assert!(source_mentions_client(
        "import { preview } from \"@nocojs/client\";\npreview(\"/a.png\");"
    ));
    assert!(!source_mentions_client(
        "import { preview } from \"some-other-module\";"
    ));
    assert!(!source_mentions_client(""));
}

#[test]
fn import_detection_includes_renames() {
    // import { preview as p } from "@nocojs/client";
    assert!(import_marks_preview("@nocojs/client", "preview"));
    assert!(!import_marks_preview("@nocojs/client", "other"));
    assert!(!import_marks_preview("other-module", "preview"));
}

#[test]
fn call_site_options_merge() {
    let props = vec![
        prop("width", CallOptionValue::UInt(8)),
        prop("placeholderType", CallOptionValue::Text("average-color".to_string())),
        prop("wrapWithSvg", CallOptionValue::Bool(false)),
        prop("unknownKey", CallOptionValue::UInt(9)),
    ];
    let merged = merge_call_options(&defaults(), &props);
    assert_eq!(merged.width, Some(8));
    assert_eq!(merged.height, None);
    assert_eq!(merged.output_kind, PlaceholderImageOutputKind::AverageColor);
    assert!(!merged.wrap_with_svg);
    assert!(merged.replace_function_call);
}

#[test]
fn mistyped_option_values_are_ignored() {
    let mut o = defaults();
    apply_call_site_option(&mut o, &prop("width", CallOptionValue::Bool(true)));
    apply_call_site_option(&mut o, &prop("cache", CallOptionValue::UInt(1)));
    apply_call_site_option(&mut o, &prop("placeholderType", CallOptionValue::UInt(2)));
    assert_eq!(o, defaults());
}

#[test]
fn later_option_wins() {
    let props = vec![
        prop("width", CallOptionValue::UInt(8)),
        prop("width", CallOptionValue::UInt(12)),
    ];
    let merged = merge_call_options(&defaults(), &props);
    assert_eq!(merged.width, Some(12));
}

#[test]
fn discovery_plans() {
    let mut store = Store::new();
    let o = defaults();
    let url = FirstArgument::Text("https://example.test/a.png".to_string());
    assert_eq!(plan_preview_call(&store, &url, &o), Pass1Action::Spawn);
    assert_eq!(
        plan_preview_call(&store, &FirstArgument::NonString, &o),
        Pass1Action::SkipInvalid
    );
    assert_eq!(
        plan_preview_call(&store, &FirstArgument::Missing, &o),
        Pass1Action::SkipInvalid
    );
    store.insert_or_update(
        "https://example.test/a.png".to_string(),
        "data:image/png;base64,AAAA".to_string(),
        320,
        200,
        &o,
    );
    // The second run over the same source hits the cache: no task.
    assert_eq!(plan_preview_call(&store, &url, &o), Pass1Action::UseCache);
}

#[test]
fn rewrite_replaces_whole_call() {
    let mut store = Store::new();
    let o = defaults();
    store.insert_or_update(
        "https://example.test/a.png".to_string(),
        "data:image/png;base64,AAAA".to_string(),
        320,
        200,
        &o,
    );
    let url = FirstArgument::Text("https://example.test/a.png".to_string());
    let action = plan_rewrite(&store, &url, &o);
    let expected = wrap_with_svg("data:image/png;base64,AAAA".to_string(), 320, 200);
    match action {
        RewriteAction::ReplaceCall(s) => assert_eq!(s, expected),
        other => panic!("expected a whole-call replacement, got {:?}", other),
    }
}

#[test]
fn rewrite_non_replace_mode_swaps_first_argument() {
    let mut store = Store::new();
    let mut o = defaults();
    o.replace_function_call = false;
    o.wrap_with_svg = false;
    store.insert_or_update(
        "/img/c.png".to_string(),
        "data:image/png;base64,CCCC".to_string(),
        64,
        64,
        &o,
    );
    let url = FirstArgument::Text("/img/c.png".to_string());
    let action = plan_rewrite(&store, &url, &o);
    match action {
        RewriteAction::ReplaceFirstArgument(s) => assert_eq!(s, "data:image/png;base64,CCCC"),
        other => panic!("expected a first-argument swap, got {:?}", other),
    }
}

#[test]
fn rewrite_failure_isolates_to_one_call() {
    let mut store = Store::new();
    let o = defaults();
    store.insert_or_update(
        "https://example.test/good.png".to_string(),
        "data:image/png;base64,GGGG".to_string(),
        10,
        10,
        &o,
    );
    let good = FirstArgument::Text("https://example.test/good.png".to_string());
    let bad = FirstArgument::Text("/missing/file.png".to_string());
    assert!(matches!(
        plan_rewrite(&store, &good, &o),
        RewriteAction::ReplaceCall(_)
    ));
    assert!(matches!(
        plan_rewrite(&store, &bad, &o),
        RewriteAction::LeaveUntouched
    ));
    assert!(matches!(
        plan_rewrite(&store, &FirstArgument::NonString, &o),
        RewriteAction::LeaveUntouched
    ));
}

#[test]
fn fetch_plans() {
    let url = "https://example.test/a.png".to_string();
    assert!(matches!(
        plan_fetch(&url, &None),
        FetchPlan::Remote(u) if u == url
    ));
    let rel = "/img/c.png".to_string();
    assert!(matches!(
        plan_fetch(&rel, &Some("./fixtures".to_string())),
        FetchPlan::Local(p) if p == "./fixtures/img/c.png"
    ));
    assert!(matches!(
        plan_fetch(&rel, &Some("./fixtures/".to_string())),
        FetchPlan::Local(p) if p == "./fixtures/img/c.png"
    ));
    let bare = "img/c.png".to_string();
    assert!(matches!(
        plan_fetch(&bare, &Some("assets".to_string())),
        FetchPlan::Local(p) if p == "assets/img/c.png"
    ));
    assert!(matches!(
        plan_fetch(&rel, &None),
        FetchPlan::MissingPublicDir
    ));
}

#[test]
fn schema_version_decision() {
    assert!(needs_schema_version_write(&None));
    assert!(needs_schema_version_write(&Some("0".to_string())));
    assert!(!needs_schema_version_write(&Some("1.0.0".to_string())));
    assert_eq!(schema_version(), "1.0.0");
}

#[test]
fn log_levels_filter_messages() {
    let mut logger = Logger::new();
    assert_eq!(get_log_level(&logger), 2);
    create_log(&mut logger, "kept".to_string(), LogLevel::Error);
    create_log(&mut logger, "dropped".to_string(), LogLevel::Verbose);
    let logs = collect_logs(&logger);
    assert_eq!(logs.len(), 1);
    assert_eq!(logs[0].message, "kept");
    set_log_level(&mut logger, LogLevel::Verbose);
    assert_eq!(get_log_level(&logger), 3);
    create_log(&mut logger, "now kept".to_string(), LogLevel::Verbose);
    assert_eq!(collect_logs(&logger).len(), 2);
    set_log_level(&mut logger, LogLevel::Silent);
    create_log(&mut logger, "muted".to_string(), LogLevel::Error);
    assert_eq!(collect_logs(&logger).len(), 2);
}

#[test]
fn standalone_options_never_replace_calls() {
    let o = GetPlaceholderOptions {
        width: Some(5),
        height: None,
        output_kind: None,
        cache_file_dir: None,
        cache: None,
        wrap_with_svg: Some(false),
    };
    let p = o.to_preview_options();
    assert_eq!(p.width, Some(5));
    assert_eq!(p.output_kind, PlaceholderImageOutputKind::Normal);
    assert!(p.cache);
    assert!(!p.wrap_with_svg);
    assert!(!p.replace_function_call);
}

#[test]
fn standalone_fetch_uses_default_public_dir() {
    assert!(matches!(
        standalone_fetch_plan(&"/a.png".to_string()),
        FetchPlan::Local(p) if p == "public/a.png"
    ));
    assert!(matches!(
        standalone_fetch_plan(&"https://example.test/a.png".to_string()),
        FetchPlan::Remote(_)
    ));
}

#[test]
fn delivery_wrap_switch() {
    let plain = deliver_placeholder("data:image/png;base64,AAAA".to_string(), 320, 200, false);
    assert_eq!(plain, "data:image/png;base64,AAAA");
    let wrapped = deliver_placeholder("data:image/png;base64,AAAA".to_string(), 320, 200, true);
    assert_eq!(
        wrapped,
        wrap_with_svg("data:image/png;base64,AAAA".to_string(), 320, 200)
    );
}
