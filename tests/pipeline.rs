use nixvault::ident::{ends_with_text, normalize_id, starts_with_text};
use nixvault::introspect::{derivation_from_answer, derivation_from_json, derivation_from_query, trim_text, IntrospectionError};
use nixvault::json::Json;
use nixvault::pipeline::{
    outcome_of, package_entries, parse_manifest, plan_package, selected_count, summarize,
    worker_count, ManifestError, Outcome, Plan, Progress,
};
use nixvault::record::{Derivation, PackageRecord};
use nixvault::render::{note_file, note_path, packages_dir, render_note, stamp_at};

fn s(t: &str) -> String {
    t.to_string()
}

fn obj(members: Vec<(&str, Json)>) -> Json {
    Json::Object(members.into_iter().map(|(k, v)| (k.to_string(), v)).collect())
}

fn text(t: &str) -> Json {
    Json::Str(t.to_string())
}

fn manifest_entry(version: &str, available: bool) -> Json {
    obj(vec![
        ("version", text(version)),
        (
            "meta",
            obj(vec![
                ("available", Json::Bool(available)),
                ("broken", Json::Bool(false)),
                ("description", text("A tool")),
                ("homepage", text("https://example.org")),
                ("maintainers", Json::Array(vec![text("alice"), Json::Number(s("3")), text("bob")])),
                ("platforms", Json::Array(vec![text("x86_64-linux"), text("aarch64-linux")])),
            ]),
        ),
        ("license", obj(vec![("shortName", text("mit"))])),
    ])
}

fn answer(id: &str, deps: &[&str]) -> String {
    let drvs: Vec<String> = deps.iter().map(|d| format!("\"{}\": {{\"dynamicOutputs\": {{}}, \"outputs\": [\"out\"]}}", d)).collect();
    format!(
        "{{\"{}\": {{\"outputs\": {{\"out\": {{\"path\": \"/nix/store/x\"}}, \"dev\": {{}}}}, \"inputDrvs\": {{{}}}, \"inputSrcs\": [\"/nix/store/src-builder.sh\"]}}}}\n",
        id,
        drvs.join(", ")
    )
}

fn write_content(p: &Plan) -> (String, String) {
    match p {
        Plan::Write { path, content, .. } => (path.clone(), content.clone()),
        Plan::Skip(e) => panic!("expected a note, got {:?}", e),
    }
}

#[test]
fn normalize_strips_store_prefix_and_drv_suffix() {
    assert_eq!(normalize_id("/nix/store/abc123-hello-2.12.drv"), "abc123-hello-2.12");
    assert_eq!(normalize_id("abc123-hello-2.12.drv"), "abc123-hello-2.12");
    assert_eq!(normalize_id("/nix/store/abc123-hello"), "abc123-hello");
    assert_eq!(normalize_id("hello"), "hello");
    assert_eq!(normalize_id(""), "");
}

#[test]
fn normalize_is_idempotent_and_injective_on_synthetic_ids() {
    let a = "/nix/store/aaaa-foo-1.0.drv";
    let b = "/nix/store/bbbb-foo-1.0.drv";
    let na = normalize_id(a);
    let nb = normalize_id(b);
    assert_ne!(na, nb);
    assert_eq!(normalize_id(&na), na);
    assert_eq!(normalize_id(&nb), nb);
}

#[test]
fn prefix_and_suffix_checks() {
    assert!(starts_with_text("/nix/store/x", "/nix/store/"));
    assert!(!starts_with_text("/nix/stor", "/nix/store/"));
    assert!(ends_with_text("x.drv", ".drv"));
    assert!(!ends_with_text("x.drvs", ".drv"));
    assert!(ends_with_text("", ""));
}

#[test]
fn manifest_entry_with_defaults() {
    let r = PackageRecord::from_manifest("empty", &obj(vec![]));
    assert_eq!(r.name, "empty");
    assert_eq!(r.version, "unknown");
    assert_eq!(r.license_short_name, "unknown");
    assert!(r.available);
    assert!(!r.broken);
    assert!(r.description.is_none());
    assert!(r.maintainers.is_empty());
    assert!(r.drv_path.is_empty());
}

#[test]
fn manifest_entry_fields_and_string_items_only() {
    let r = PackageRecord::from_manifest("hello", &manifest_entry("2.12", false));
    assert_eq!(r.version, "2.12");
    assert_eq!(r.license_short_name, "mit");
    assert!(r.available);
    assert_eq!(r.description.as_deref(), Some("A tool"));
    assert_eq!(r.homepage.as_deref(), Some("https://example.org"));
    assert_eq!(r.maintainers, vec![s("alice"), s("bob")]);
    assert_eq!(r.platforms, vec![s("x86_64-linux"), s("aarch64-linux")]);
}

#[test]
fn raw_available_true_renders_not_available() {
    let r = PackageRecord::from_manifest("hello", &manifest_entry("2.12", true));
    assert!(!r.available);
    let note = render_note(&r, "2024-01-02 03:04:05 UTC");
    assert!(note.contains("- **Available**: ❌ No\n"));
    assert!(note.contains("#nixpkgs #package #unavailable\n"));
}

#[test]
fn wrong_json_types_fall_back_to_defaults() {
    let info = obj(vec![
        ("version", Json::Number(s("1"))),
        ("meta", obj(vec![("available", text("yes")), ("maintainers", text("alice"))])),
    ]);
    let r = PackageRecord::from_manifest("odd", &info);
    assert_eq!(r.version, "unknown");
    assert!(r.available);
    assert!(r.maintainers.is_empty());
}

#[test]
fn answer_is_read_into_derivation() {
    let d = derivation_from_answer(&answer("/nix/store/aaaa-a.drv", &["/nix/store/cccc-c.drv", "/nix/store/bbbb-b.drv"])).unwrap();
    assert_eq!(d.drv_path, "/nix/store/aaaa-a.drv");
    assert_eq!(d.outputs, vec![s("dev"), s("out")]);
    assert_eq!(d.dependencies, vec![s("/nix/store/bbbb-b.drv"), s("/nix/store/cccc-c.drv")]);
    assert_eq!(d.input_srcs, vec![s("/nix/store/src-builder.sh")]);
}

#[test]
fn empty_answers_are_no_derivation() {
    assert!(matches!(derivation_from_answer("{}"), Err(IntrospectionError::NoDerivation)));
    assert!(matches!(derivation_from_answer(" {}\n"), Err(IntrospectionError::NoDerivation)));
    assert!(matches!(derivation_from_answer(""), Err(IntrospectionError::NoDerivation)));
    assert!(matches!(derivation_from_answer("\n\t "), Err(IntrospectionError::NoDerivation)));
    assert!(matches!(derivation_from_answer("{ }"), Err(IntrospectionError::NoDerivation)));
}

#[test]
fn malformed_answers_fail() {
    assert!(matches!(derivation_from_answer("error: flake not found"), Err(IntrospectionError::NotJson)));
    assert!(matches!(derivation_from_answer("[1, 2]"), Err(IntrospectionError::Unexpected)));
    assert!(matches!(
        derivation_from_answer("{\"/nix/store/a.drv\": {\"outputs\": {}, \"inputDrvs\": {}}}"),
        Err(IntrospectionError::Unexpected)
    ));
    assert!(matches!(
        derivation_from_answer("{\"\": {\"outputs\": {}, \"inputDrvs\": {}, \"inputSrcs\": []}}"),
        Err(IntrospectionError::Unexpected)
    ));
    assert!(matches!(derivation_from_query(None), Err(IntrospectionError::QueryFailed)));
}

#[test]
fn derivation_from_tree() {
    let j = obj(vec![(
        "/nix/store/zzzz-z.drv",
        obj(vec![
            ("outputs", obj(vec![("out", obj(vec![]))])),
            ("inputDrvs", obj(vec![])),
            ("inputSrcs", Json::Array(vec![text("/nix/store/s"), Json::Null])),
        ]),
    )]);
    let d = derivation_from_json(&j).unwrap();
    assert_eq!(d.drv_path, "/nix/store/zzzz-z.drv");
    assert_eq!(d.outputs, vec![s("out")]);
    assert!(d.dependencies.is_empty());
    assert_eq!(d.input_srcs, vec![s("/nix/store/s")]);
    assert!(matches!(derivation_from_json(&obj(vec![])), Err(IntrospectionError::NoDerivation)));
    assert!(matches!(derivation_from_json(&Json::Null), Err(IntrospectionError::Unexpected)));
}

#[test]
fn trim_text_removes_blank_ends() {
    assert_eq!(trim_text("  {} \n"), "{}");
    assert_eq!(trim_text("\t\n"), "");
    assert_eq!(trim_text("a b"), "a b");
}

#[test]
fn full_note_layout() {
    let mut r = PackageRecord::from_manifest("hello", &manifest_entry("2.12", false));
    r.long_description = Some(s("Longer text."));
    r.enrich(Derivation {
        drv_path: s("/nix/store/aaaa-hello-2.12.drv"),
        outputs: vec![s("out"), s("man")],
        input_srcs: vec![s("/nix/store/src-builder.sh")],
        dependencies: vec![s("/nix/store/bbbb-glibc.drv")],
    });
    let expected = "# hello\n\n\
#nixpkgs #package\n\n\
## 📋 Package Information\n\n\
- **Name**: `hello`\n\
- **Version**: `2.12`\n\
- **Available**: ✅ Yes\n\
- **Broken**: ✅ No\n\
- **Description**: A tool\n\
- **Homepage**: [https://example.org](https://example.org)\n\
- **License**: `mit`\n\
- **Platforms**: `x86_64-linux`, `aarch64-linux`\n\
\n\
## 📝 Description\n\n\
Longer text.\n\n\
## 👥 Maintainers\n\n\
- alice\n\
- bob\n\
\n\
## 🔧 Build Information\n\n\
- **Derivation Path**: `/nix/store/aaaa-hello-2.12.drv`\n\
- **Outputs**: `out`, `man`\n\
\n\
## 🔗 Dependencies\n\n\
- [[bbbb-glibc]]\n\
\n\
## 📁 Input Sources\n\n\
- `/nix/store/src-builder.sh`\n\
\n\
---\n\
*Generated on 2024-01-02 03:04:05 UTC*\n";
    assert_eq!(render_note(&r, "2024-01-02 03:04:05 UTC"), expected);
    assert_eq!(note_file(&r), "aaaa-hello-2.12.md");
    assert_eq!(note_path(&r_dir(), &r), "vault/packages/aaaa-hello-2.12.md");
}

fn r_dir() -> String {
    s("vault")
}

#[test]
fn broken_package_tag_and_line() {
    let mut r = PackageRecord::from_manifest("x", &obj(vec![("meta", obj(vec![("broken", Json::Bool(true))]))]));
    r.version = String::new();
    let note = render_note(&r, "t");
    assert!(note.contains("#nixpkgs #package #broken\n"));
    assert!(note.contains("- **Broken**: ⚠️ Yes\n"));
    assert!(!note.contains("**Version**"));
}

#[test]
fn note_file_falls_back_to_name() {
    let r = PackageRecord::from_manifest("plain", &obj(vec![]));
    assert_eq!(note_file(&r), "plain.md");
    assert_eq!(packages_dir("out"), "out/packages");
}

#[test]
fn three_packages_dependency_link() {
    let a_id = "/nix/store/aaaa-a-1.0.drv";
    let b_id = "/nix/store/bbbb-b-1.0.drv";
    let info = manifest_entry("1.0", false);
    let plan_a = plan_package("vault", "a", &info, Some(&answer(a_id, &[])), "t");
    let plan_b = plan_package("vault", "b", &info, Some(&answer(b_id, &[a_id])), "t");
    let plan_c = plan_package("vault", "c", &info, None, "t");
    let (path_a, note_a) = write_content(&plan_a);
    let (_, note_b) = write_content(&plan_b);
    assert!(matches!(plan_c, Plan::Skip(IntrospectionError::QueryFailed)));
    assert_eq!(path_a, "vault/packages/aaaa-a-1.0.md");
    assert_eq!(note_b.matches("- [[").count(), 1);
    assert!(note_b.contains("## 🔗 Dependencies\n\n- [[aaaa-a-1.0]]\n\n"));
    let stem_a = path_a.trim_start_matches("vault/packages/").trim_end_matches(".md");
    assert_eq!(stem_a, "aaaa-a-1.0");
    assert!(!note_a.contains("## 🔗 Dependencies"));
}

#[test]
fn failed_introspection_writes_nothing_and_counts_once() {
    let info = manifest_entry("1.0", false);
    let ids = ["/nix/store/p1-x.drv", "/nix/store/p2-y.drv", "/nix/store/p3-z.drv", "/nix/store/p4-w.drv"];
    let mut outcomes = Vec::new();
    for (i, id) in ids.iter().enumerate() {
        let stub = match i {
            1 => Some(s("{}\n")),
            3 => None,
            _ => Some(answer(id, &[])),
        };
        let plan = plan_package("vault", "p", &info, stub.as_deref(), "t");
        match (i, &plan) {
            (1, Plan::Skip(IntrospectionError::NoDerivation)) => {}
            (3, Plan::Skip(IntrospectionError::QueryFailed)) => {}
            (0, Plan::Write { .. }) | (2, Plan::Write { .. }) => {}
            _ => panic!("unexpected plan for package {}", i),
        }
        outcomes.push(outcome_of(&plan, true));
    }
    let p = summarize(&outcomes);
    assert_eq!(p.processed, 4);
    assert_eq!(p.failed, 2);
    assert_eq!(p.written(), 2);
    assert!(p.is_done());
}

#[test]
fn save_failure_is_counted() {
    let info = manifest_entry("1.0", false);
    let plan = plan_package("vault", "p", &info, Some(&answer("/nix/store/q-p.drv", &[])), "t");
    assert!(matches!(outcome_of(&plan, false), Outcome::SaveFailed));
    assert!(matches!(outcome_of(&plan, true), Outcome::Written));
    let mut p = Progress::new(2);
    p.record(&Outcome::SaveFailed);
    p.record(&Outcome::Written);
    assert_eq!((p.processed, p.failed, p.written()), (2, 1, 1));
}

#[test]
fn rerun_differs_only_in_timestamp() {
    let info = manifest_entry("1.0", false);
    let ans = answer("/nix/store/rrrr-r.drv", &["/nix/store/ssss-s.drv"]);
    let (p1, c1) = write_content(&plan_package("vault", "r", &info, Some(&ans), "2024-01-01 00:00:00 UTC"));
    let (p2, c2) = write_content(&plan_package("vault", "r", &info, Some(&ans), "2025-06-07 08:09:10 UTC"));
    assert_eq!(p1, p2);
    let body1 = &c1[..c1.rfind("*Generated on ").unwrap()];
    let body2 = &c2[..c2.rfind("*Generated on ").unwrap()];
    assert_eq!(body1, body2);
    assert_ne!(c1, c2);
}

#[test]
fn stamps_from_seconds() {
    assert_eq!(stamp_at(1431648000).as_deref(), Some("2015-05-15 00:00:00 UTC"));
    assert_eq!(stamp_at(0).as_deref(), Some("1970-01-01 00:00:00 UTC"));
    assert_eq!(stamp_at(86399).as_deref(), Some("1970-01-01 23:59:59 UTC"));
    assert_eq!(stamp_at(u64::MAX), None);
    assert_eq!(stamp_at(i64::MAX as u64), None);
}

#[test]
fn note_carries_stamp() {
    let info = manifest_entry("1.0", false);
    let stamp = stamp_at(1704164645).unwrap();
    let plan = plan_package("vault", "n", &info, Some(&answer("/nix/store/nnnn-n.drv", &[])), &stamp);
    let (_, c) = write_content(&plan);
    assert_eq!(c.lines().last().unwrap(), "*Generated on 2024-01-02 03:04:05 UTC*");
}

#[test]
fn manifest_parsing() {
    let m = parse_manifest("{\"version\": 2, \"packages\": {\"b\": {\"version\": \"1\"}, \"a\": {}}}").unwrap();
    let entries = package_entries(&m).unwrap();
    assert_eq!(entries.len(), 2);
    assert_eq!(entries[0].0, "a");
    assert_eq!(entries[1].0, "b");
    assert!(matches!(parse_manifest("nope"), Err(ManifestError::NotJson)));
    assert!(matches!(parse_manifest("{\"packages\": []}"), Err(ManifestError::NoPackages)));
    assert!(matches!(parse_manifest("{}"), Err(ManifestError::NoPackages)));
}

#[test]
fn selection_and_workers() {
    assert_eq!(selected_count(10, 0), 10);
    assert_eq!(selected_count(10, 3), 3);
    assert_eq!(selected_count(10, 30), 10);
    assert_eq!(worker_count(4), 4);
    assert!(worker_count(0) >= 1);
}

#[test]
fn several_top_level_keys_are_unexpected() {
    let one = "{\"outputs\": {\"out\": {}}, \"inputDrvs\": {}, \"inputSrcs\": []}";
    let text = format!("{{\"/nix/store/a-a.drv\": {}, \"/nix/store/b-b.drv\": {}}}", one, one);
    assert!(matches!(derivation_from_answer(&text), Err(IntrospectionError::Unexpected)));
    let single = format!("{{\"/nix/store/a-a.drv\": {}}}", one);
    assert!(derivation_from_answer(&single).is_ok());
}

#[test]
fn unicode_white_space_is_trimmed() {
    assert_eq!(trim_text("\u{c}\u{a0}x\u{3000}\u{2028}"), "x");
    assert!(matches!(derivation_from_answer("\u{b}{}\u{85}"), Err(IntrospectionError::NoDerivation)));
    assert!(matches!(derivation_from_answer("\u{2003}"), Err(IntrospectionError::NoDerivation)));
}
