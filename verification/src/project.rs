//! Generating the OpenHarmony project of an app from its templates.
use vstd::prelude::*;
use crate::error::{Error, ErrorView};
use crate::paths::{pv, join, parent, file_name, is_root, is_absolute, clone_path, join_path, push_component, push_string, is_normal, is_root_component, is_normal_component};

verus! {

/// A value of the `app` object in the template data, as far as generation
/// reads it: a string, or anything else.
#[derive(Debug, Clone, PartialEq, Eq)]
pub enum JsonField {
    Text(String),
    Other,
}

/// The `app` entry of the template data: absent, not an object, or an
/// object given as its keys and values.
#[derive(Debug, Clone, PartialEq, Eq)]
pub enum AppEntry {
    Missing,
    NotObject,
    Object(Vec<(String, JsonField)>),
}

/// The string that `key` holds in an object, when it holds a string.
pub open spec fn field_text(entries: Seq<(String, JsonField)>, key: Seq<char>) -> Option<Seq<char>>
    decreases entries.len(),
{
    if entries.len() == 0 {
        None
    } else if entries[0].0@ == key {
        match entries[0].1 {
            JsonField::Text(s) => Some(s@),
            JsonField::Other => None,
        }
    } else {
        field_text(entries.drop_first(), key)
    }
}

pub open spec fn text_or(v: Option<Seq<char>>, default: Seq<char>) -> Seq<char> {
    match v {
        Some(s) => s,
        None => default,
    }
}

/// What generation takes from the `app` entry.
#[derive(Debug, Clone, PartialEq, Eq)]
pub struct AppSettings {
    /// `lib-name`, `app` by default.
    pub lib_name: String,
    /// `identifier`, `com.example.app` by default.
    pub identifier: String,
    /// `root-dir`, `.` by default.
    pub project_root: String,
}

pub open spec fn app_config_missing() -> ErrorView {
    ErrorView::Context("app config missing"@, None)
}

/// The settings an `app` object gives: each key that holds a string gives
/// that string, any other key its default.
pub open spec fn settings_of(entries: Seq<(String, JsonField)>) -> (Seq<char>, Seq<char>, Seq<char>) {
    (
        text_or(field_text(entries, "lib-name"@), "app"@),
        text_or(field_text(entries, "identifier"@), "com.example.app"@),
        text_or(field_text(entries, "root-dir"@), "."@),
    )
}

/// The string a key holds in an object, when it holds one.
pub fn get_text(entries: &Vec<(String, JsonField)>, key: &str) -> (r: Option<String>)
    ensures
        match r {
            Some(s) => field_text(entries@, key@) == Some(s@),
            None => field_text(entries@, key@) is None,
        },
{
    let wanted = String::from_str(key);
    let mut i: usize = 0;
    assert(entries@.skip(0) =~= entries@);
    while i < entries.len()
        invariant
            i <= entries.len(),
            wanted@ == key@,
            field_text(entries@, key@) == field_text(entries@.skip(i as int), key@),
        decreases entries.len() - i,
    {
        assert(entries@.skip(i as int).drop_first() =~= entries@.skip(i + 1));
        assert(entries@.skip(i as int)[0] == entries@[i as int]);
        if entries[i].0 == wanted {
            return match &entries[i].1 {
                JsonField::Text(s) => Some(s.clone()),
                JsonField::Other => None,
            };
        }
        i = i + 1;
    }
    None
}

fn text_or_default(v: Option<String>, default: &str) -> (r: String)
    ensures
        r@ == text_or(
            match v {
                Some(s) => Some(s@),
                None => None,
            },
            default@,
        ),
{
    match v {
        Some(s) => s,
        None => String::from_str(default),
    }
}

/// The settings of the `app` entry; fails with "app config missing" when the
/// entry is absent or not an object.
pub fn app_settings(app: &AppEntry) -> (r: Result<AppSettings, Error>)
    ensures
        match app {
            AppEntry::Object(entries) => r matches Ok(s) && (s.lib_name@, s.identifier@, s.project_root@)
                == settings_of(entries@),
            _ => r matches Err(e) && e@ == app_config_missing(),
        },
{
    match app {
        AppEntry::Object(entries) => {
            let lib_name = text_or_default(get_text(entries, "lib-name"), "app");
            let identifier = text_or_default(get_text(entries, "identifier"), "com.example.app");
            let project_root = text_or_default(get_text(entries, "root-dir"), ".");
            Ok(AppSettings { lib_name, identifier, project_root })
        },
        _ => Err(Error::Context { context: String::from_str("app config missing"), cause: None }),
    }
}

/// What generating the project comes to, before the templates are rendered.
#[derive(Debug, PartialEq, Eq)]
pub struct GenPlan {
    /// Where the project is generated.
    pub dest: Vec<String>,
    pub settings: AppSettings,
    /// The keys set in the template data, with their values.
    pub template_values: Vec<(String, String)>,
    /// The icons to look for, in order, relative to the project root.
    pub icon_candidates: Vec<Vec<String>>,
    /// The directories that receive the app icon.
    pub media_dirs: Vec<Vec<String>>,
    /// The file name the icon gets there.
    pub icon_file_name: String,
}

pub open spec fn gen_dest(cwd: Seq<Seq<char>>) -> Seq<Seq<char>> {
    cwd + seq!["src-tauri"@, "gen"@, "openharmony"@]
}

pub open spec fn paths_view(v: Seq<Vec<String>>) -> Seq<Seq<Seq<char>>> {
    Seq::new(v.len(), |i: int| pv(&v[i]))
}

pub open spec fn pairs_view(v: Seq<(String, String)>) -> Seq<(Seq<char>, Seq<char>)> {
    Seq::new(v.len(), |i: int| (v[i].0@, v[i].1@))
}

pub open spec fn icon_candidates() -> Seq<Seq<Seq<char>>> {
    seq![
        seq!["icons"@, "icon.png"@],
        seq!["icons"@, "128x128@2x.png"@],
        seq!["icons"@, "128x128.png"@],
    ]
}

pub open spec fn media_dirs(dest: Seq<Seq<char>>) -> Seq<Seq<Seq<char>>> {
    seq![
        dest + seq!["AppScope"@, "resources"@, "base"@, "media"@],
        dest + seq!["entry"@, "src"@, "main"@, "resources"@, "base"@, "media"@],
    ]
}

/// Whether `p` is the plan for generating into `cwd/src-tauri/gen/openharmony`
/// with the settings `s`.
pub open spec fn is_gen_plan(p: GenPlan, cwd: Seq<Seq<char>>, s: (Seq<char>, Seq<char>, Seq<char>)) -> bool {
    &&& pv(&p.dest) == gen_dest(cwd)
    &&& (p.settings.lib_name@, p.settings.identifier@, p.settings.project_root@) == s
    &&& pairs_view(p.template_values@) == seq![("lib-name"@, s.0), ("reverse-domain-name"@, s.1)]
    &&& paths_view(p.icon_candidates@) == icon_candidates()
    &&& paths_view(p.media_dirs@) == media_dirs(gen_dest(cwd))
    &&& p.icon_file_name@ == "app_icon.png"@
}

fn icon_path(name: &str) -> (r: Vec<String>)
    ensures
        pv(&r) == seq!["icons"@, name@],
{
    let mut r: Vec<String> = Vec::new();
    push_component(&mut r, "icons");
    push_component(&mut r, name);
    assert(pv(&r) =~= seq!["icons"@, name@]);
    r
}

fn dest_of(cwd: &Vec<String>) -> (r: Vec<String>)
    ensures
        pv(&r) == gen_dest(pv(cwd)),
{
    let mut r = clone_path(cwd);
    assert(pv(&r) =~= pv(cwd));
    push_component(&mut r, "src-tauri");
    push_component(&mut r, "gen");
    push_component(&mut r, "openharmony");
    assert(pv(&r) =~= gen_dest(pv(cwd)));
    r
}

fn media_dirs_of(dest: &Vec<String>) -> (r: Vec<Vec<String>>)
    ensures
        paths_view(r@) == media_dirs(pv(dest)),
{
    let mut a = clone_path(dest);
    assert(pv(&a) =~= pv(dest));
    push_component(&mut a, "AppScope");
    push_component(&mut a, "resources");
    push_component(&mut a, "base");
    push_component(&mut a, "media");
    assert(pv(&a) =~= pv(dest) + seq!["AppScope"@, "resources"@, "base"@, "media"@]);
    let mut b = clone_path(dest);
    assert(pv(&b) =~= pv(dest));
    push_component(&mut b, "entry");
    push_component(&mut b, "src");
    push_component(&mut b, "main");
    push_component(&mut b, "resources");
    push_component(&mut b, "base");
    push_component(&mut b, "media");
    assert(pv(&b) =~= pv(dest) + seq!["entry"@, "src"@, "main"@, "resources"@, "base"@, "media"@]);
    let mut r: Vec<Vec<String>> = Vec::new();
    r.push(a);
    r.push(b);
    assert(paths_view(r@) =~= media_dirs(pv(dest)));
    r
}

/// Plans the generation of the project in `cwd/src-tauri/gen/openharmony`.
/// Fails with "failed to get current dir" when the current directory could
/// not be read, and then with "app config missing" when the template data
/// has no `app` object.
pub fn gen(cwd: Result<Vec<String>, String>, app: &AppEntry) -> (r: Result<GenPlan, Error>)
    ensures
        match cwd {
            Err(m) => r matches Err(e) && e@ == ErrorView::Context("failed to get current dir"@, Some(m@)),
            Ok(c) => match app {
                AppEntry::Object(entries) => r matches Ok(p) && is_gen_plan(p, pv(&c), settings_of(entries@))
                    && p.settings.lib_name@ == text_or(field_text(entries@, "lib-name"@), "app"@)
                    && p.settings.identifier@ == text_or(field_text(entries@, "identifier"@), "com.example.app"@)
                    && p.settings.project_root@ == text_or(field_text(entries@, "root-dir"@), "."@),
                _ => r matches Err(e) && e@ == app_config_missing(),
            },
        },
{
    let cwd = match cwd {
        Ok(c) => c,
        Err(m) => {
            return Err(Error::Context { context: String::from_str("failed to get current dir"), cause: Some(m) });
        },
    };
    let dest = dest_of(&cwd);
    let settings = match app_settings(app) {
        Ok(s) => s,
        Err(e) => return Err(e),
    };
    let mut template_values: Vec<(String, String)> = Vec::new();
    template_values.push((String::from_str("lib-name"), settings.lib_name.clone()));
    template_values.push((String::from_str("reverse-domain-name"), settings.identifier.clone()));
    let mut icons: Vec<Vec<String>> = Vec::new();
    icons.push(icon_path("icon.png"));
    icons.push(icon_path("128x128@2x.png"));
    icons.push(icon_path("128x128.png"));
    let media = media_dirs_of(&dest);
    let plan = GenPlan {
        dest,
        settings,
        template_values,
        icon_candidates: icons,
        media_dirs: media,
        icon_file_name: String::from_str("app_icon.png"),
    };
    proof {
        assert(pairs_view(plan.template_values@) =~= seq![
            ("lib-name"@, plan.settings.lib_name@),
            ("reverse-domain-name"@, plan.settings.identifier@),
        ]);
        assert(paths_view(plan.icon_candidates@) =~= icon_candidates());
    }
    Ok(plan)
}

/// The component of a template path that stands for the library name.
pub open spec fn placeholder() -> Seq<char> {
    "lib_name_placeholder"@
}

/// A template path with each placeholder component replaced by `lib_name`.
pub open spec fn substitute(path: Seq<Seq<char>>, lib_name: Seq<char>) -> Seq<Seq<char>> {
    Seq::new(path.len(), |i: int| if path[i] == placeholder() { lib_name } else { path[i] })
}

/// Where the file of a template path is written: the substituted path joined
/// onto the destination.
pub open spec fn out_path(path: Seq<Seq<char>>, dest: Seq<Seq<char>>, lib_name: Seq<char>) -> Seq<Seq<char>> {
    join(dest, substitute(path, lib_name))
}

/// How to write the file of one template.
#[derive(Debug, PartialEq, Eq)]
pub struct OutFile {
    /// The file to create, unless it exists already.
    pub path: Vec<String>,
    /// Its directory.
    pub parent: Vec<String>,
    /// Whether the directory still has to be created.
    pub create_parent: bool,
    /// Whether the path names a file (its last component is not the root,
    /// `.` or `..`).
    pub named: bool,
    /// Whether the file is created executable (mode 0o755 on Unix).
    pub executable: bool,
}

/// Whether two paths are the same.
pub fn same_path(a: &Vec<String>, b: &Vec<String>) -> (r: bool)
    ensures
        r == (pv(a) == pv(b)),
{
    if a.len() != b.len() {
        assert(pv(a).len() != pv(b).len());
        return false;
    }
    for i in 0..a.len()
        invariant
            a.len() == b.len(),
            forall|j: int| 0 <= j < i ==> pv(a)[j] == pv(b)[j],
    {
        if a[i] != b[i] {
            assert(pv(a)[i as int] != pv(b)[i as int]);
            return false;
        }
    }
    assert(pv(a) =~= pv(b));
    true
}

/// Whether a list of directories holds a path.
pub fn holds_dir(dirs: &Vec<Vec<String>>, p: &Vec<String>) -> (r: bool)
    ensures
        r == paths_view(dirs@).contains(pv(p)),
{
    for i in 0..dirs.len()
        invariant
            forall|j: int| 0 <= j < i ==> paths_view(dirs@)[j] != pv(p),
    {
        if same_path(&dirs[i], p) {
            assert(paths_view(dirs@)[i as int] == pv(p));
            return true;
        }
    }
    false
}

fn substituted(path: &Vec<String>, lib_name: &String) -> (r: Vec<String>)
    ensures
        pv(&r) == substitute(pv(path), lib_name@),
{
    let marker = String::from_str("lib_name_placeholder");
    let mut r: Vec<String> = Vec::new();
    for i in 0..path.len()
        invariant
            marker@ == placeholder(),
            pv(&r) == substitute(pv(path).take(i as int), lib_name@),
    {
        if path[i] == marker {
            push_string(&mut r, lib_name.clone());
        } else {
            push_string(&mut r, path[i].clone());
        }
        assert(pv(&r) =~= substitute(pv(path).take(i + 1), lib_name@));
    }
    assert(pv(path).take(path.len() as int) =~= pv(path));
    r
}

/// Where the file of a template path is written.
pub fn out_path_of(path: &Vec<String>, dest: &Vec<String>, lib_name: &String) -> (r: Vec<String>)
    ensures
        pv(&r) == out_path(pv(path), pv(dest), lib_name@),
{
    let rel = substituted(path, lib_name);
    join_path(dest, &rel)
}

/// Whether the file of a template path has a directory: what planning it
/// requires.
pub fn has_out_parent(path: &Vec<String>, dest: &Vec<String>, lib_name: &String) -> (r: bool)
    ensures
        r == (parent(out_path(pv(path), pv(dest), lib_name@)) is Some),
{
    let full = out_path_of(path, dest, lib_name);
    !(full.len() == 0 || (full.len() == 1 && is_root_component(&full[0])))
}

/// Plans the file of the template at `path`: placeholders become the library
/// name, the result is joined onto `dest`, its directory is created unless
/// `created_dirs` holds it, the file is named when its last component names
/// an entry, and a file named `hvigorw` is executable.
pub fn generate_out_file(
    path: &Vec<String>,
    dest: &Vec<String>,
    lib_name: &String,
    created_dirs: &Vec<Vec<String>>,
) -> (r: OutFile)
    requires
        parent(out_path(pv(path), pv(dest), lib_name@)) is Some,
    ensures
        pv(&r.path) == out_path(pv(path), pv(dest), lib_name@),
        parent(pv(&r.path)) == Some(pv(&r.parent)),
        r.create_parent == !paths_view(created_dirs@).contains(pv(&r.parent)),
        r.named == (file_name(pv(&r.path)) is Some),
        r.executable == (file_name(pv(&r.path)) == Some("hvigorw"@)),
{
    let full = out_path_of(path, dest, lib_name);
    let n = full.len() - 1;
    let mut up: Vec<String> = Vec::new();
    for i in 0..n
        invariant
            n == full.len() - 1,
            up@ == full@.take(i as int),
    {
        up.push(full[i].clone());
        assert(up@ =~= full@.take(i + 1));
    }
    assert(pv(&up) =~= pv(&full).drop_last());
    let create_parent = !holds_dir(created_dirs, &up);
    let named = is_normal_component(&full[n]);
    let tool = String::from_str("hvigorw");
    let executable = named && full[n] == tool;
    OutFile { path: full, parent: up, create_parent, named, executable }
}

/// The created directories after `dir` is noted.
pub open spec fn recorded(dirs: Seq<Seq<Seq<char>>>, dir: Seq<Seq<char>>) -> Seq<Seq<Seq<char>>> {
    if dirs.contains(dir) {
        dirs
    } else {
        dirs.push(dir)
    }
}

/// What becomes of the file of a template once it is known whether it exists.
#[derive(Debug, PartialEq, Eq)]
pub enum OutFileStep {
    /// Create the file for writing (executable where the plan says so) and
    /// render the template into it.
    Create { path: Vec<String>, executable: bool },
    /// The file exists already: it is left as it is and the template is skipped.
    Skip,
    /// The path names no file: it cannot be written, and the process stops.
    Unnamed,
}

/// An existing file is never overwritten: the file of a template is created
/// only when it does not exist yet, at the planned path and with the planned
/// mode; otherwise the template is skipped. A path that names no file stops
/// generation.
pub fn out_file_step(out: &OutFile, exists: bool) -> (r: OutFileStep)
    ensures
        !out.named ==> r == OutFileStep::Unnamed,
        out.named && exists ==> r == OutFileStep::Skip,
        out.named && !exists ==> (r matches OutFileStep::Create { path, executable } && pv(&path) == pv(
            &out.path,
        ) && executable == out.executable),
{
    if !out.named {
        OutFileStep::Unnamed
    } else if exists {
        OutFileStep::Skip
    } else {
        OutFileStep::Create { path: clone_path(&out.path), executable: out.executable }
    }
}

/// Notes that a directory was created: `created_dirs` gains it unless it
/// holds it already.
pub fn record_created_dir(created_dirs: &mut Vec<Vec<String>>, dir: Vec<String>)
    ensures
        paths_view(final(created_dirs)@) == recorded(paths_view(old(created_dirs)@), pv(&dir)),
{
    if !holds_dir(created_dirs, &dir) {
        let ghost d = pv(&dir);
        created_dirs.push(dir);
        assert(paths_view(created_dirs@) =~= paths_view(old(created_dirs)@).push(d));
    }
}

/// How many icon files are looked for.
pub open spec fn icon_count() -> int {
    3
}

/// The next move of the icon search, from what is known of the candidates
/// looked at so far, in order.
#[derive(Debug, PartialEq, Eq)]
pub enum IconSearch {
    /// Look whether candidate `i` exists.
    Check(usize),
    /// Candidate `i` is the icon.
    Found(usize),
    /// No candidate exists.
    NotFound,
}

/// The first candidate known to exist.
pub open spec fn first_found(found: Seq<bool>) -> Option<int>
    decreases found.len(),
{
    if found.len() == 0 {
        None
    } else if found[0] {
        Some(0)
    } else {
        match first_found(found.drop_first()) {
            Some(i) => Some(i + 1),
            None => None,
        }
    }
}

/// The icon search: the first candidate that exists is the icon; until
/// one is found, the next candidate is looked at, and none is the answer
/// once all have been.
pub open spec fn icon_search(found: Seq<bool>) -> IconSearch {
    match first_found(found) {
        Some(i) => IconSearch::Found(i as usize),
        None => if found.len() < icon_count() {
            IconSearch::Check(found.len() as usize)
        } else {
            IconSearch::NotFound
        },
    }
}

/// The next move of the icon search.
pub fn next_icon_step(found: &Vec<bool>) -> (r: IconSearch)
    ensures
        r == icon_search(found@),
{
    let mut i: usize = 0;
    assert(found@.skip(0) =~= found@);
    while i < found.len()
        invariant
            i <= found.len(),
            forall|j: int| 0 <= j < i ==> !found@[j],
            first_found(found@) == match first_found(found@.skip(i as int)) {
                Some(k) => Some(k + i),
                None => None,
            },
        decreases found.len() - i,
    {
        assert(found@.skip(i as int).drop_first() =~= found@.skip(i + 1));
        assert(found@.skip(i as int)[0] == found@[i as int]);
        if found[i] {
            return IconSearch::Found(i);
        }
        i = i + 1;
    }
    assert(found@.skip(i as int) =~= Seq::<bool>::empty());
    if found.len() < 3 {
        IconSearch::Check(found.len())
    } else {
        IconSearch::NotFound
    }
}

/// No path occurs twice.
pub open spec fn distinct(dirs: Seq<Seq<Seq<char>>>) -> bool {
    forall|i: int, j: int| 0 <= i < j < dirs.len() ==> dirs[i] != dirs[j]
}

/// The directories noted during generation never hold a path twice and
/// only grow at the end: noting a directory leaves the list as it was when
/// it holds the directory already, and otherwise appends it; once a
/// directory is noted every later file in it is planned without creating it
/// again, so each directory is created at most once.
pub proof fn created_dirs_stay_distinct(dirs: Seq<Seq<Seq<char>>>, dir: Seq<Seq<char>>)
    requires
        distinct(dirs),
    ensures
        distinct(recorded(dirs, dir)),
        recorded(dirs, dir).contains(dir),
        recorded(dirs, dir).subrange(0, dirs.len() as int) == dirs,
        recorded(dirs, dir) == dirs || (!dirs.contains(dir) && recorded(dirs, dir) == dirs.push(dir)),
        forall|d: Seq<Seq<char>>| dirs.contains(d) ==> recorded(dirs, dir).contains(d),
{
    if !dirs.contains(dir) {
        let r = dirs.push(dir);
        assert(r[dirs.len() as int] == dir);
        assert(r.subrange(0, dirs.len() as int) =~= dirs);
        assert forall|d: Seq<Seq<char>>| dirs.contains(d) implies r.contains(d) by {
            let k = choose|k: int| 0 <= k < dirs.len() && dirs[k] == d;
            assert(r[k] == d);
        }
    } else {
        assert(dirs.subrange(0, dirs.len() as int) =~= dirs);
    }
}

/// The directories noted while one template file is written: its parent is
/// noted when it was not noted before and creating it succeeded; otherwise
/// the list stays as it was.
pub open spec fn after_out_file(dirs: Seq<Seq<Seq<char>>>, parent_dir: Seq<Seq<char>>, created: bool) -> Seq<Seq<Seq<char>>> {
    if !dirs.contains(parent_dir) && created {
        dirs.push(parent_dir)
    } else {
        dirs
    }
}

/// For every template path, destination and library name, writing the file
/// keeps the noted directories free of duplicates, keeps the old list as a
/// prefix, and appends the file's parent exactly when it was not noted and
/// creating it succeeded.
pub proof fn out_file_keeps_dirs_distinct(
    dirs: Seq<Seq<Seq<char>>>,
    path: Seq<Seq<char>>,
    dest: Seq<Seq<char>>,
    lib_name: Seq<char>,
    created: bool,
)
    requires
        distinct(dirs),
    ensures
        ({
            let parent_dir = out_path(path, dest, lib_name).drop_last();
            let next = after_out_file(dirs, parent_dir, created);
            &&& distinct(next)
            &&& next.subrange(0, dirs.len() as int) == dirs
            &&& next == dirs || (next == dirs.push(parent_dir) && !dirs.contains(parent_dir) && created)
            &&& (!dirs.contains(parent_dir) && created) ==> next == recorded(dirs, parent_dir)
        }),
{
    let parent_dir = out_path(path, dest, lib_name).drop_last();
    created_dirs_stay_distinct(dirs, parent_dir);
    assert(dirs.subrange(0, dirs.len() as int) =~= dirs);
}

/// Every placeholder component of a template path is replaced by the library
/// name and every other component is kept, in order.
pub proof fn placeholders_replaced(path: Seq<Seq<char>>, lib_name: Seq<char>)
    ensures
        substitute(path, lib_name).len() == path.len(),
        forall|i: int| 0 <= i < path.len() && path[i] == placeholder() ==> substitute(path, lib_name)[i]
            == lib_name,
        forall|i: int| 0 <= i < path.len() && path[i] != placeholder() ==> substitute(path, lib_name)[i]
            == path[i],
        lib_name != placeholder() ==> !substitute(path, lib_name).contains(placeholder()),
{
}

/// What `first_found` finds: the first candidate known to exist.
pub proof fn first_found_is_first(found: Seq<bool>)
    ensures
        match first_found(found) {
            Some(i) => 0 <= i < found.len() && found[i] && forall|j: int| 0 <= j < i ==> !found[j],
            None => forall|j: int| 0 <= j < found.len() ==> !found[j],
        },
    decreases found.len(),
{
    if found.len() > 0 && !found[0] {
        first_found_is_first(found.drop_first());
        assert forall|j: int| 1 <= j < found.len() implies found[j] == found.drop_first()[j - 1] by {}
    }
}

/// The icon copied is the first candidate that exists, and the search looks
/// at the candidates in order, one at a time, until one exists or all have
/// been looked at.
pub proof fn icon_search_takes_first(found: Seq<bool>)
    requires
        found.len() <= usize::MAX,
    ensures
        icon_search(found) matches IconSearch::Found(i) ==> i < found.len() && found[i as int] && forall|
            j: int,
        |
            0 <= j < i ==> !found[j],
        icon_search(found) matches IconSearch::Check(k) ==> k == found.len() && k < icon_count() && forall|
            j: int,
        |
            0 <= j < found.len() ==> !found[j],
        icon_search(found) is NotFound ==> found.len() >= icon_count() && forall|j: int|
            0 <= j < found.len() ==> !found[j],
{
    first_found_is_first(found);
}

/// A template path that starts with a name (not the root) is written inside
/// the destination: the destination's components come first, then one
/// component for each component of the template path.
pub proof fn generated_files_stay_in_destination(
    path: Seq<Seq<char>>,
    dest: Seq<Seq<char>>,
    lib_name: Seq<char>,
)
    requires
        path.len() > 0 ==> !is_root(path[0]),
        !is_root(lib_name),
    ensures
        out_path(path, dest, lib_name).len() == dest.len() + path.len(),
        out_path(path, dest, lib_name).subrange(0, dest.len() as int) == dest,
{
    let rel = substitute(path, lib_name);
    assert(!is_absolute(rel));
    assert(out_path(path, dest, lib_name) == dest + rel);
    assert((dest + rel).subrange(0, dest.len() as int) =~= dest);
}

/// The error of a template that could not be rendered.
pub fn render_failure(cause: String) -> (e: Error)
    ensures
        e@ == ErrorView::Context("failed to process template"@, Some(cause@)),
{
    Error::Context { context: String::from_str("failed to process template"), cause: Some(cause) }
}

/// One operation of copying the app icon into the project, with the context
/// its failure is reported with.
#[derive(Debug, PartialEq, Eq)]
pub enum IconOp {
    /// Create a media directory and its parents.
    CreateDir { dir: Vec<String>, failure: String },
    /// Copy the icon to this file.
    Copy { to: Vec<String>, failure: String },
}

pub enum IconOpView {
    CreateDir(Seq<Seq<char>>, Seq<char>),
    Copy(Seq<Seq<char>>, Seq<char>),
}

pub open spec fn icon_op_view(op: IconOp) -> IconOpView {
    match op {
        IconOp::CreateDir { dir, failure } => IconOpView::CreateDir(pv(&dir), failure@),
        IconOp::Copy { to, failure } => IconOpView::Copy(pv(&to), failure@),
    }
}

/// The icon copy, in order: for each media directory of the plan, create it
/// (failing with "failed to create media dir"), then copy the icon into it
/// under the plan's icon file name (failing with "failed to copy icon"); the
/// first failure ends generation.
pub open spec fn icon_ops_of(media: Seq<Seq<Seq<char>>>, file: Seq<char>) -> Seq<IconOpView>
    decreases media.len(),
{
    if media.len() == 0 {
        Seq::empty()
    } else {
        icon_ops_of(media.drop_last(), file) + seq![
            IconOpView::CreateDir(media.last(), "failed to create media dir"@),
            IconOpView::Copy(media.last().push(file), "failed to copy icon"@),
        ]
    }
}

/// The operations that copy the icon found for a plan.
pub fn icon_ops(plan: &GenPlan) -> (r: Vec<IconOp>)
    ensures
        Seq::new(r.len() as nat, |i: int| icon_op_view(r@[i])) == icon_ops_of(
            paths_view(plan.media_dirs@),
            plan.icon_file_name@,
        ),
        r.len() == 2 * plan.media_dirs.len(),
        forall|k: int|
            0 <= k < plan.media_dirs.len() ==> icon_op_view(#[trigger] r@[2 * k]) == IconOpView::CreateDir(
                pv(&plan.media_dirs@[k]),
                "failed to create media dir"@,
            ) && icon_op_view(r@[2 * k + 1]) == IconOpView::Copy(
                pv(&plan.media_dirs@[k]).push(plan.icon_file_name@),
                "failed to copy icon"@,
            ),
{
    let mut r: Vec<IconOp> = Vec::new();
    let ghost media = paths_view(plan.media_dirs@);
    for i in 0..plan.media_dirs.len()
        invariant
            media == paths_view(plan.media_dirs@),
            Seq::new(r.len() as nat, |k: int| icon_op_view(r@[k])) == icon_ops_of(
                media.take(i as int),
                plan.icon_file_name@,
            ),
    {
        let ghost before = Seq::new(r.len() as nat, |k: int| icon_op_view(r@[k]));
        let dir = clone_path(&plan.media_dirs[i]);
        let mut to = clone_path(&plan.media_dirs[i]);
        assert(pv(&to) =~= media[i as int]);
        push_string(&mut to, plan.icon_file_name.clone());
        assert(pv(&dir) =~= media[i as int]);
        r.push(IconOp::CreateDir { dir, failure: String::from_str("failed to create media dir") });
        r.push(IconOp::Copy { to, failure: String::from_str("failed to copy icon") });
        assert(media.take(i + 1).drop_last() =~= media.take(i as int));
        assert(media.take(i + 1).last() == media[i as int]);
        assert(Seq::new(r.len() as nat, |k: int| icon_op_view(r@[k])) =~= before + seq![
            IconOpView::CreateDir(media[i as int], "failed to create media dir"@),
            IconOpView::Copy(media[i as int].push(plan.icon_file_name@), "failed to copy icon"@),
        ]);
    }
    assert(media.take(plan.media_dirs.len() as int) =~= media);
    proof {
        let v = Seq::new(r.len() as nat, |i: int| icon_op_view(r@[i]));
        icon_ops_pairs(media, plan.icon_file_name@);
        assert forall|k: int| 0 <= k < plan.media_dirs.len() implies icon_op_view(#[trigger] r@[2 * k])
            == IconOpView::CreateDir(pv(&plan.media_dirs@[k]), "failed to create media dir"@)
            && icon_op_view(r@[2 * k + 1]) == IconOpView::Copy(
            pv(&plan.media_dirs@[k]).push(plan.icon_file_name@),
            "failed to copy icon"@,
        ) by {
            assert(v[2 * k] == icon_op_view(r@[2 * k]));
            assert(v[2 * k + 1] == icon_op_view(r@[2 * k + 1]));
            assert(media[k] == pv(&plan.media_dirs@[k]));
        }
    }
    r
}


/// The icon copy creates every media directory and copies the icon into
/// that same directory right after: operation `2k` creates media directory
/// `k` and operation `2k + 1` copies the icon to the icon file name inside
/// it, for every media directory and nothing else.
pub proof fn icon_ops_pairs(media: Seq<Seq<Seq<char>>>, file: Seq<char>)
    ensures
        icon_ops_of(media, file).len() == 2 * media.len(),
        forall|k: int|
            0 <= k < media.len() ==> #[trigger] icon_ops_of(media, file)[2 * k] == IconOpView::CreateDir(
                media[k],
                "failed to create media dir"@,
            ) && icon_ops_of(media, file)[2 * k + 1] == IconOpView::Copy(
                media[k].push(file),
                "failed to copy icon"@,
            ),
    decreases media.len(),
{
    if media.len() > 0 {
        let m = media.drop_last();
        icon_ops_pairs(m, file);
        assert forall|k: int| 0 <= k < media.len() implies #[trigger] icon_ops_of(media, file)[2 * k]
            == IconOpView::CreateDir(media[k], "failed to create media dir"@) && icon_ops_of(media, file)[2
            * k + 1] == IconOpView::Copy(media[k].push(file), "failed to copy icon"@) by {
            if k < m.len() {
                assert(icon_ops_of(m, file)[2 * k] == icon_ops_of(media, file)[2 * k]);
                assert(m[k] == media[k]);
            }
        }
    }
}

/// The settings of a generation plan are the app object's own: each of
/// `lib-name`, `identifier` and `root-dir` is the string the object holds
/// for it, and only where it holds none the default (`app`,
/// `com.example.app`, `.`).
pub proof fn gen_settings_come_from_app(p: GenPlan, cwd: Seq<Seq<char>>, entries: Seq<(String, JsonField)>)
    requires
        is_gen_plan(p, cwd, settings_of(entries)),
    ensures
        field_text(entries, "root-dir"@) matches Some(r) ==> p.settings.project_root@ == r,
        field_text(entries, "root-dir"@) is None ==> p.settings.project_root@ == "."@,
        field_text(entries, "lib-name"@) matches Some(l) ==> p.settings.lib_name@ == l,
        field_text(entries, "lib-name"@) is None ==> p.settings.lib_name@ == "app"@,
        field_text(entries, "identifier"@) matches Some(i) ==> p.settings.identifier@ == i,
        field_text(entries, "identifier"@) is None ==> p.settings.identifier@ == "com.example.app"@,
        pairs_view(p.template_values@) == seq![
            ("lib-name"@, p.settings.lib_name@),
            ("reverse-domain-name"@, p.settings.identifier@),
        ],
{
}

/// Every component names an entry except the root, `.` and `..`; so a file
/// path has a name exactly when its last component is none of these, and a
/// planned file is named exactly then, whatever characters (dots among
/// them) the name holds.
pub proof fn names_are_all_but_root_and_dots(c: Seq<char>, p: Seq<Seq<char>>)
    ensures
        is_normal(c) <==> (c != "/"@ && c != "."@ && c != ".."@),
        (file_name(p) is Some) <==> (p.len() > 0 && p.last() != "/"@ && p.last() != "."@ && p.last() != ".."@),
        file_name(p) matches Some(n) ==> n == p.last(),
{
}

/// A planned template file is named exactly when the last component of its
/// output path is neither the root nor `.` nor `..`.
pub proof fn out_file_named_iff(path: Seq<Seq<char>>, dest: Seq<Seq<char>>, lib_name: Seq<char>)
    ensures
        ({
            let o = out_path(path, dest, lib_name);
            (file_name(o) is Some) <==> (o.len() > 0 && o.last() != "/"@ && o.last() != "."@ && o.last()
                != ".."@)
        }),
{
}

} // verus!
