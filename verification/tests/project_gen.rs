use openharmony_cli::error::Error;
use openharmony_cli::paths::{join_path, join_text};
use openharmony_cli::project::{
    app_settings, gen, generate_out_file, has_out_parent, icon_ops, next_icon_step, out_file_step, record_created_dir,
    render_failure, AppEntry, AppSettings, IconOp, IconSearch, JsonField, OutFileStep,
};

fn p(parts: &[&str]) -> Vec<String> {
    parts.iter().map(|s| s.to_string()).collect()
}

fn text(k: &str, v: &str) -> (String, JsonField) {
    (k.to_string(), JsonField::Text(v.to_string()))
}

#[test]
fn settings_defaults() {
    let s = app_settings(&AppEntry::Object(vec![])).unwrap();
    assert_eq!(
        s,
        AppSettings {
            lib_name: "app".to_string(),
            identifier: "com.example.app".to_string(),
            project_root: ".".to_string()
        }
    );
}

#[test]
fn settings_read_strings_and_ignore_others() {
    let entry = AppEntry::Object(vec![
        text("lib-name", "my_lib"),
        ("identifier".to_string(), JsonField::Other),
        text("root-dir", "/proj"),
        text("name", "ignored"),
    ]);
    let s = app_settings(&entry).unwrap();
    assert_eq!(s.lib_name, "my_lib");
    assert_eq!(s.identifier, "com.example.app");
    assert_eq!(s.project_root, "/proj");
}

#[test]
fn settings_missing_app() {
    let missing = Error::Context { context: "app config missing".to_string(), cause: None };
    assert_eq!(app_settings(&AppEntry::Missing), Err(missing.clone()));
    assert_eq!(app_settings(&AppEntry::NotObject), Err(missing));
}

#[test]
fn gen_plan() {
    let entry = AppEntry::Object(vec![text("lib-name", "demo"), text("identifier", "com.d")]);
    let plan = gen(Ok(p(&["/", "home", "u"])), &entry).unwrap();
    assert_eq!(plan.dest, p(&["/", "home", "u", "src-tauri", "gen", "openharmony"]));
    assert_eq!(
        plan.template_values,
        vec![
            ("lib-name".to_string(), "demo".to_string()),
            ("reverse-domain-name".to_string(), "com.d".to_string())
        ]
    );
    assert_eq!(
        plan.icon_candidates,
        vec![p(&["icons", "icon.png"]), p(&["icons", "128x128@2x.png"]), p(&["icons", "128x128.png"])]
    );
    assert_eq!(
        plan.media_dirs,
        vec![
            p(&["/", "home", "u", "src-tauri", "gen", "openharmony", "AppScope", "resources", "base", "media"]),
            p(&[
                "/", "home", "u", "src-tauri", "gen", "openharmony", "entry", "src", "main", "resources", "base",
                "media"
            ]),
        ]
    );
    assert_eq!(plan.icon_file_name, "app_icon.png");
    assert_eq!(plan.settings.project_root, ".");
}

#[test]
fn gen_errors_in_order() {
    let e = gen(Err("gone".to_string()), &AppEntry::Missing).unwrap_err();
    assert_eq!(e, Error::Context { context: "failed to get current dir".to_string(), cause: Some("gone".to_string()) });
    let e = gen(Ok(p(&["/"])), &AppEntry::NotObject).unwrap_err();
    assert_eq!(e, Error::Context { context: "app config missing".to_string(), cause: None });
}

#[test]
fn out_file_replaces_placeholder_and_marks_dirs() {
    let dest = p(&["/", "gen"]);
    let mut created: Vec<Vec<String>> = Vec::new();
    let f = generate_out_file(
        &p(&["entry", "src", "main", "cpp", "lib_name_placeholder", "types.d.ts"]),
        &dest,
        &"demo".to_string(),
        &created,
    );
    assert_eq!(f.path, p(&["/", "gen", "entry", "src", "main", "cpp", "demo", "types.d.ts"]));
    assert_eq!(f.parent, p(&["/", "gen", "entry", "src", "main", "cpp", "demo"]));
    assert!(f.create_parent);
    assert!(!f.executable);
    record_created_dir(&mut created, f.parent.clone());
    record_created_dir(&mut created, f.parent.clone());
    assert_eq!(created.len(), 1);
    let g = generate_out_file(
        &p(&["entry", "src", "main", "cpp", "lib_name_placeholder", "index.d.ts"]),
        &dest,
        &"demo".to_string(),
        &created,
    );
    assert!(!g.create_parent);
}

#[test]
fn out_file_hvigorw_is_executable() {
    let f = generate_out_file(&p(&["hvigorw"]), &p(&["/", "gen"]), &"x".to_string(), &Vec::new());
    assert!(f.executable);
    assert_eq!(f.parent, p(&["/", "gen"]));
    let g = generate_out_file(&p(&["hvigorw.bat"]), &p(&["/", "gen"]), &"x".to_string(), &Vec::new());
    assert!(!g.executable);
}

#[test]
fn out_file_absolute_template_replaces_destination() {
    let f = generate_out_file(&p(&["/", "abs", "f"]), &p(&["/", "gen"]), &"x".to_string(), &Vec::new());
    assert_eq!(f.path, p(&["/", "abs", "f"]));
}

#[test]
fn icon_search_order() {
    assert_eq!(next_icon_step(&vec![]), IconSearch::Check(0));
    assert_eq!(next_icon_step(&vec![false]), IconSearch::Check(1));
    assert_eq!(next_icon_step(&vec![false, true]), IconSearch::Found(1));
    assert_eq!(next_icon_step(&vec![true]), IconSearch::Found(0));
    assert_eq!(next_icon_step(&vec![false, false, false]), IconSearch::NotFound);
    assert_eq!(next_icon_step(&vec![false, false, true]), IconSearch::Found(2));
}

#[test]
fn path_joining() {
    assert_eq!(join_path(&p(&["/", "a"]), &p(&["b"])), p(&["/", "a", "b"]));
    assert_eq!(join_path(&p(&["/", "a"]), &p(&["/", "c"])), p(&["/", "c"]));
    assert_eq!(join_text("/a", "b/c"), "/a/b/c");
    assert_eq!(join_text("/a/", "b"), "/a/b");
    assert_eq!(join_text("", "b"), "b");
    assert_eq!(join_text("a", "/b"), "/b");
    assert_eq!(join_text("a/./b", "bin/hvigorw"), "a/./b/bin/hvigorw");
}

#[test]
fn out_file_without_name_stops() {
    let f = generate_out_file(&p(&[".."]), &p(&["/", "gen"]), &"x".to_string(), &Vec::new());
    assert!(!f.named);
    assert!(!f.executable);
    assert!(f.create_parent);
    assert_eq!(out_file_step(&f, false), OutFileStep::Unnamed);
    assert_eq!(out_file_step(&f, true), OutFileStep::Unnamed);
    assert!(has_out_parent(&p(&[".."]), &p(&["/", "gen"]), &"x".to_string()));
    assert!(!has_out_parent(&p(&["/"]), &p(&["/", "gen"]), &"x".to_string()));
}

#[test]
fn icon_copy_operations() {
    let entry = AppEntry::Object(vec![]);
    let plan = gen(Ok(p(&["/", "h"])), &entry).unwrap();
    let ops = icon_ops(&plan);
    let media = p(&["/", "h", "src-tauri", "gen", "openharmony", "AppScope", "resources", "base", "media"]);
    let mut icon = media.clone();
    icon.push("app_icon.png".to_string());
    assert_eq!(ops.len(), 4);
    assert_eq!(ops[0], IconOp::CreateDir { dir: media, failure: "failed to create media dir".to_string() });
    assert_eq!(ops[1], IconOp::Copy { to: icon, failure: "failed to copy icon".to_string() });
    assert!(matches!(&ops[2], IconOp::CreateDir { .. }));
    assert!(matches!(&ops[3], IconOp::Copy { .. }));
}

#[test]
fn template_failure_context() {
    assert_eq!(
        render_failure("bad".to_string()),
        Error::Context { context: "failed to process template".to_string(), cause: Some("bad".to_string()) }
    );
}

#[test]
fn existing_out_file_is_skipped() {
    let f = generate_out_file(&p(&["hvigorw"]), &p(&["/", "gen"]), &"x".to_string(), &Vec::new());
    assert_eq!(out_file_step(&f, true), OutFileStep::Skip);
    assert_eq!(
        out_file_step(&f, false),
        OutFileStep::Create { path: p(&["/", "gen", "hvigorw"]), executable: true }
    );
}
