//! The launcher's runtime folders and what is listed from them.
use vstd::prelude::*;

use crate::entry::{join_path, join_spec, ConfigEntry, ConfigMetadata, EntryView, METADATA_FILENAME};
use crate::sorting::{lemma_insert_split, lex_less, lex_lt, sort_by_key};
use crate::text::{ascii_lower_seq, chars_ascii_lower, chars_of, to_lowercase, unicode_lowercase};

verus! {

/// Every path the launcher uses, derived from one runtime root: the
/// executable's folder in release builds, the working directory in debug
/// builds.
pub struct Paths {
    pub root: String,
    pub core_dir: String,
    pub config_dir: String,
    pub working_dir: String,
    pub settings_file: String,
}

/// The paths under `root`, as text: root, `core`, `config`, `sing-box`,
/// `settings.json`.
pub open spec fn paths_under(root: Seq<char>) -> (
    Seq<char>,
    Seq<char>,
    Seq<char>,
    Seq<char>,
    Seq<char>,
) {
    (
        root,
        join_spec(root, "core"@),
        join_spec(root, "config"@),
        join_spec(root, "sing-box"@),
        join_spec(root, "settings.json"@),
    )
}

impl Clone for Paths {
    fn clone(&self) -> (r: Self)
        ensures
            r.root@ == self.root@,
            r.core_dir@ == self.core_dir@,
            r.config_dir@ == self.config_dir@,
            r.working_dir@ == self.working_dir@,
            r.settings_file@ == self.settings_file@,
    {
        Paths {
            root: self.root.clone(),
            core_dir: self.core_dir.clone(),
            config_dir: self.config_dir.clone(),
            working_dir: self.working_dir.clone(),
            settings_file: self.settings_file.clone(),
        }
    }
}

impl Paths {
    /// The folders and files under a resolved root.
    pub fn under_root(root: &str) -> (p: Paths)
        ensures
            (p.root@, p.core_dir@, p.config_dir@, p.working_dir@, p.settings_file@)
                == paths_under(root@),
    {
        Paths {
            root: root.to_owned(),
            core_dir: join_path(root, "core"),
            config_dir: join_path(root, "config"),
            working_dir: join_path(root, "sing-box"),
            settings_file: join_path(root, "settings.json"),
        }
    }

    /// Folder of the config with folder name `slug`.
    pub fn config_folder(&self, slug: &str) -> (r: String)
        ensures
            r@ == join_spec(self.config_dir@, slug@),
    {
        join_path(self.config_dir.as_str(), slug)
    }

    /// Path of the core executable `name`.
    pub fn core_path(&self, name: &str) -> (r: String)
        ensures
            r@ == join_spec(self.core_dir@, name@),
    {
        join_path(self.core_dir.as_str(), name)
    }

    /// The config actually handed to `sing-box`, inside its working folder.
    pub fn runtime_config_file(&self) -> (r: String)
        ensures
            r@ == join_spec(self.working_dir@, "config.json"@),
    {
        join_path(self.working_dir.as_str(), "config.json")
    }

    /// The entry for folder `slug` once its metadata has been read.
    pub fn entry_at(&self, slug: &str, metadata: ConfigMetadata) -> (e: ConfigEntry)
        ensures
            e@.slug == slug@,
            e@.metadata == metadata@,
            e@.folder == join_spec(self.config_dir@, slug@),
    {
        ConfigEntry { slug: slug.to_owned(), metadata, folder: self.config_folder(slug) }
    }
}

// ----- cores -------------------------------------------------------------------

/// One item of a directory listing.
pub struct DirItem {
    pub name: String,
    pub is_file: bool,
}

/// A file name whose extension is `exe` in any ASCII case, as
/// `Path::extension` finds it: a dot followed by `exe` at the end, with
/// something before the dot.
pub open spec fn has_exe_extension(name: Seq<char>) -> bool {
    name.len() > 4 && ascii_lower_seq(name.skip(name.len() - 4)) == ".exe"@
}

/// The names of the `*.exe` files among `items`, in listing order.
pub open spec fn exe_names(items: Seq<(Seq<char>, bool)>) -> Seq<Seq<char>>
    decreases items.len(),
{
    if items.len() == 0 {
        Seq::empty()
    } else {
        let rest = exe_names(items.drop_last());
        let (n, f) = items.last();
        if f && has_exe_extension(n) {
            rest.push(n)
        } else {
            rest
        }
    }
}

/// Texts order by themselves.
pub open spec fn text_key() -> spec_fn(Seq<char>) -> Seq<char> {
    |s: Seq<char>| s
}

/// A listing as pairs of name and whether it is a file.
pub open spec fn items_view(items: Seq<DirItem>) -> Seq<(Seq<char>, bool)> {
    items.map_values(|d: DirItem| (d.name@, d.is_file))
}

/// The characters of each string.
pub open spec fn string_views(v: Seq<String>) -> Seq<Seq<char>> {
    v.map_values(|s: String| s@)
}

fn is_exe_name(name: &String) -> (b: bool)
    ensures
        b == has_exe_extension(name@),
{
    let v = chars_of(name.as_str());
    let n = v.len();
    if n <= 4 {
        return false;
    }
    let lower = chars_ascii_lower(&v);
    let want = chars_of(".exe");
    proof {
        reveal_strlit(".exe");
    }
    let mut k: usize = 0;
    let ghost tail = v@.skip(n - 4);
    assert(ascii_lower_seq(tail).len() == 4);
    while k < 4
        invariant
            n == v@.len(),
            n > 4,
            v@ == name@,
            lower@ == ascii_lower_seq(v@),
            want@ == ".exe"@,
            want@.len() == 4,
            tail == v@.skip(n - 4),
            k <= 4,
            forall|m: int| 0 <= m < k ==> ascii_lower_seq(tail)[m] == want@[m],
        decreases 4 - k,
    {
        assert(ascii_lower_seq(tail)[k as int] == lower@[n - 4 + k]);
        if lower[n - 4 + k] != want[k] {
            assert(ascii_lower_seq(tail)[k as int] != ".exe"@[k as int]);
            assert(ascii_lower_seq(tail) != ".exe"@);
            assert(v@ == name@);
            return false;
        }
        k = k + 1;
    }
    assert(ascii_lower_seq(tail) =~= ".exe"@);
    true
}

/// Sorts names into `String` order.
fn sort_names(names: Vec<String>) -> (r: Vec<String>)
    ensures
        string_views(r@) == sort_by_key(string_views(names@), text_key()),
{
    let mut out: Vec<String> = Vec::new();
    let mut out_keys: Vec<Vec<char>> = Vec::new();
    let mut i: usize = 0;
    while i < names.len()
        invariant
            i <= names@.len(),
            out@.len() == out_keys@.len(),
            string_views(out@) == sort_by_key(string_views(names@.take(i as int)), text_key()),
            forall|j: int| 0 <= j < out_keys@.len() ==> #[trigger] out_keys@[j]@ == out@[j]@,
        decreases names.len() - i,
    {
        let x = names[i].clone();
        let kx = chars_of(x.as_str());
        let mut p: usize = 0;
        while p < out.len() && !lex_less(&kx, &out_keys[p])
            invariant
                p <= out@.len(),
                out@.len() == out_keys@.len(),
                kx@ == x@,
                forall|j: int| 0 <= j < out_keys@.len() ==> #[trigger] out_keys@[j]@ == out@[j]@,
                forall|j: int|
                    0 <= j < p ==> !lex_lt(x@, #[trigger] text_key()(string_views(out@)[j])),
            decreases out.len() - p,
        {
            assert(string_views(out@)[p as int] == out_keys@[p as int]@);
            p = p + 1;
        }
        let ghost sv = string_views(out@);
        proof {
            if p < out@.len() {
                assert(sv[p as int] == out_keys@[p as int]@);
            }
            lemma_insert_split(sv, x@, text_key(), p as int);
            assert(string_views(names@.take(i + 1)).drop_last() =~= string_views(
                names@.take(i as int),
            ));
            assert(string_views(names@.take(i + 1)).last() == x@);
        }
        out.insert(p, x);
        out_keys.insert(p, kx);
        proof {
            assert(string_views(out@) =~= sv.take(p as int) + seq![x@] + sv.skip(p as int));
            assert forall|j: int| 0 <= j < out_keys@.len() implies #[trigger] out_keys@[j]@
                == out@[j]@ by {
                if j < p {
                } else if j > p {
                }
            }
        }
        i = i + 1;
    }
    assert(names@.take(names@.len() as int) =~= names@);
    out
}

/// The `*.exe` files of a listing of `core/`, sorted by name.
fn exe_files_sorted(items: &Vec<DirItem>) -> (r: Vec<String>)
    ensures
        string_views(r@) == sort_by_key(exe_names(items_view(items@)), text_key()),
{
    let mut names: Vec<String> = Vec::new();
    let mut i: usize = 0;
    while i < items.len()
        invariant
            i <= items@.len(),
            string_views(names@) == exe_names(items_view(items@.take(i as int))),
        decreases items.len() - i,
    {
        let it = &items[i];
        proof {
            assert(items_view(items@.take(i + 1)).drop_last() =~= items_view(
                items@.take(i as int),
            ));
            assert(items_view(items@.take(i + 1)).last() == (it.name@, it.is_file));
        }
        if it.is_file && is_exe_name(&it.name) {
            names.push(it.name.clone());
            assert(string_views(names@) =~= exe_names(items_view(items@.take(i as int))).push(
                it.name@,
            ));
        }
        i = i + 1;
    }
    assert(items@.take(items@.len() as int) =~= items@);
    sort_names(names)
}

impl Paths {
    /// The cores to choose from: the `*.exe` files among `items`, the
    /// listing of `core/`, sorted by name.
    pub fn list_cores(&self, items: &Vec<DirItem>) -> (r: Vec<String>)
        ensures
            string_views(r@) == sort_by_key(exe_names(items_view(items@)), text_key()),
    {
        exe_files_sorted(items)
    }

    /// The entry for folder `slug`, given whether the folder is there and
    /// its metadata if it could be loaded; nothing otherwise.
    pub fn load_entry(&self, slug: &str, is_dir: bool, metadata: Option<ConfigMetadata>) -> (r:
        Option<ConfigEntry>)
        ensures
            match (is_dir, metadata) {
                (true, Some(m)) => r matches Some(e) && e@.slug == slug@ && e@.metadata == m@
                    && e@.folder == join_spec(self.config_dir@, slug@),
                _ => r is None,
            },
    {
        if !is_dir {
            return None;
        }
        match metadata {
            Some(m) => Some(self.entry_at(slug, m)),
            None => None,
        }
    }
}

// ----- configs ---------------------------------------------------------------------

/// Configs order by their display name in lower case.
pub open spec fn config_key() -> spec_fn(EntryView) -> Seq<char> {
    |e: EntryView| unicode_lowercase(e.metadata.name)
}

/// The views of a list of entries.
pub open spec fn entry_views(v: Seq<ConfigEntry>) -> Seq<EntryView> {
    v.map_values(|e: ConfigEntry| e@)
}

/// Sorts config entries by lower-cased display name, keeping the listing
/// order of equal names.
pub fn sort_configs(entries: Vec<ConfigEntry>) -> (r: Vec<ConfigEntry>)
    ensures
        entry_views(r@) == sort_by_key(entry_views(entries@), config_key()),
{
    let mut out: Vec<ConfigEntry> = Vec::new();
    let mut out_keys: Vec<Vec<char>> = Vec::new();
    let mut i: usize = 0;
    while i < entries.len()
        invariant
            i <= entries@.len(),
            out@.len() == out_keys@.len(),
            entry_views(out@) == sort_by_key(entry_views(entries@.take(i as int)), config_key()),
            forall|j: int|
                0 <= j < out_keys@.len() ==> #[trigger] out_keys@[j]@ == config_key()(
                    out@[j]@,
                ),
        decreases entries.len() - i,
    {
        let x = entries[i].clone();
        let lowered = to_lowercase(x.metadata.name.as_str());
        let kx = chars_of(lowered.as_str());
        let mut p: usize = 0;
        while p < out.len() && !lex_less(&kx, &out_keys[p])
            invariant
                p <= out@.len(),
                out@.len() == out_keys@.len(),
                kx@ == config_key()(x@),
                forall|j: int|
                    0 <= j < out_keys@.len() ==> #[trigger] out_keys@[j]@ == config_key()(
                        out@[j]@,
                    ),
                forall|j: int|
                    0 <= j < p ==> !lex_lt(
                        config_key()(x@),
                        #[trigger] config_key()(entry_views(out@)[j]),
                    ),
            decreases out.len() - p,
        {
            assert(entry_views(out@)[p as int] == out@[p as int]@);
            p = p + 1;
        }
        let ghost sv = entry_views(out@);
        proof {
            if p < out@.len() {
                assert(sv[p as int] == out@[p as int]@);
            }
            lemma_insert_split(sv, x@, config_key(), p as int);
            assert(entry_views(entries@.take(i + 1)).drop_last() =~= entry_views(
                entries@.take(i as int),
            ));
            assert(entry_views(entries@.take(i + 1)).last() == x@);
        }
        let ghost xv = x@;
        out.insert(p, x);
        out_keys.insert(p, kx);
        proof {
            assert(entry_views(out@) =~= sv.take(p as int) + seq![xv] + sv.skip(p as int));
            assert forall|j: int| 0 <= j < out_keys@.len() implies #[trigger] out_keys@[j]@
                == config_key()(out@[j]@) by {
                if j < p {
                } else if j > p {
                }
            }
        }
        i = i + 1;
    }
    assert(entries@.take(entries@.len() as int) =~= entries@);
    out
}


// ----- problems met while listing configs ---------------------------------------------

/// A config folder that could not be listed, and why. Each becomes one
/// line of the startup or refresh warning, so no folder disappears from
/// the list silently.
pub enum ScanIssue {
    /// `config/` itself could not be read.
    ReadDir { dir: String, error: String },
    /// An item of `config/` could not be read.
    ReadEntry { error: String },
    /// The kind of an item could not be told.
    Inspect { path: String, error: String },
    /// A folder whose name is not valid UTF-8.
    NonUtf8 { path: String },
    /// The folder's `metadata.json` could not be loaded.
    LoadMetadata { path: String, error: String },
}

/// The warning line for an issue.
pub open spec fn scan_issue_text(i: ScanIssue) -> Seq<char> {
    match i {
        ScanIssue::ReadDir { dir, error } => "Failed to read config directory "@ + dir@ + ": "@
            + error@,
        ScanIssue::ReadEntry { error } => "Failed to read config directory entry: "@ + error@,
        ScanIssue::Inspect { path, error } => "Failed to inspect config path "@ + path@ + ": "@
            + error@,
        ScanIssue::NonUtf8 { path } => "Skipped config folder with non-UTF-8 name: "@ + path@,
        ScanIssue::LoadMetadata { path, error } => "Failed to load config metadata "@ + path@
            + ": "@ + error@,
    }
}

fn joined(a: &str, b: &str, c: &str, d: &str) -> (r: String)
    ensures
        r@ == a@ + b@ + c@ + d@,
{
    let mut s = a.to_owned();
    crate::text::append_str(&mut s, b);
    crate::text::append_str(&mut s, c);
    crate::text::append_str(&mut s, d);
    s
}

impl ScanIssue {
    /// The warning line.
    pub fn message(&self) -> (r: String)
        ensures
            r@ == scan_issue_text(*self),
    {
        match self {
            ScanIssue::ReadDir { dir, error } => joined(
                "Failed to read config directory ",
                dir.as_str(),
                ": ",
                error.as_str(),
            ),
            ScanIssue::ReadEntry { error } => {
                let mut s = "Failed to read config directory entry: ".to_owned();
                crate::text::append_str(&mut s, error.as_str());
                s
            },
            ScanIssue::Inspect { path, error } => joined(
                "Failed to inspect config path ",
                path.as_str(),
                ": ",
                error.as_str(),
            ),
            ScanIssue::NonUtf8 { path } => {
                let mut s = "Skipped config folder with non-UTF-8 name: ".to_owned();
                crate::text::append_str(&mut s, path.as_str());
                s
            },
            ScanIssue::LoadMetadata { path, error } => joined(
                "Failed to load config metadata ",
                path.as_str(),
                ": ",
                error.as_str(),
            ),
        }
    }
}

/// What the scan of `config/` learned of one of its items.
pub enum FolderScan {
    /// The item could not be read from the directory.
    ReadFailed { error: String },
    /// The item's kind could not be told.
    InspectFailed { path: String, error: String },
    /// The item is not a folder.
    NotFolder,
    /// A folder whose name is not valid UTF-8.
    NonUtf8 { path: String },
    /// A folder named `slug`, with what loading its metadata gave.
    Folder { slug: String, metadata: Result<ConfigMetadata, String> },
}

/// The path of a config folder's metadata file.
pub open spec fn metadata_path(dir: Seq<char>, slug: Seq<char>) -> Seq<char> {
    join_spec(join_spec(dir, slug), METADATA_FILENAME@)
}

/// What one item contributes: a folder with loadable metadata an entry,
/// any failure a warning line, any other item nothing.
pub open spec fn folder_outcome(dir: Seq<char>, f: FolderScan) -> (Option<EntryView>, Option<Seq<char>>) {
    match f {
        FolderScan::ReadFailed { error } => (
            None,
            Some("Failed to read config directory entry: "@ + error@),
        ),
        FolderScan::InspectFailed { path, error } => (
            None,
            Some("Failed to inspect config path "@ + path@ + ": "@ + error@),
        ),
        FolderScan::NotFolder => (None, None),
        FolderScan::NonUtf8 { path } => (
            None,
            Some("Skipped config folder with non-UTF-8 name: "@ + path@),
        ),
        FolderScan::Folder { slug, metadata } => match metadata {
            Ok(m) => (
                Some(EntryView { slug: slug@, metadata: m@, folder: join_spec(dir, slug@) }),
                None,
            ),
            Err(e) => (
                None,
                Some("Failed to load config metadata "@ + metadata_path(dir, slug@) + ": "@ + e@),
            ),
        },
    }
}

/// The entries, in scan order, and the warning lines that the items of
/// `config/` give.
pub open spec fn scan_spec(dir: Seq<char>, items: Seq<FolderScan>) -> (Seq<EntryView>, Seq<Seq<char>>)
    decreases items.len(),
{
    if items.len() == 0 {
        (Seq::empty(), Seq::empty())
    } else {
        let p = scan_spec(dir, items.drop_last());
        let o = folder_outcome(dir, items.last());
        (
            match o.0 {
                Some(e) => p.0.push(e),
                None => p.0,
            },
            match o.1 {
                Some(w) => p.1.push(w),
                None => p.1,
            },
        )
    }
}

impl Paths {
    /// What one scanned item contributes to the listing.
    fn folder_entry(&self, f: &FolderScan) -> (r: (Option<ConfigEntry>, Option<String>))
        ensures
            (match r.0 {
                Some(e) => Some(e@),
                None => None,
            }, match r.1 {
                Some(w) => Some(w@),
                None => None,
            }) == folder_outcome(self.config_dir@, *f),
    {
        match f {
            FolderScan::ReadFailed { error } => {
                let issue = ScanIssue::ReadEntry { error: error.clone() };
                (None, Some(issue.message()))
            },
            FolderScan::InspectFailed { path, error } => {
                let issue = ScanIssue::Inspect { path: path.clone(), error: error.clone() };
                (None, Some(issue.message()))
            },
            FolderScan::NotFolder => (None, None),
            FolderScan::NonUtf8 { path } => {
                let issue = ScanIssue::NonUtf8 { path: path.clone() };
                (None, Some(issue.message()))
            },
            FolderScan::Folder { slug, metadata } => match metadata {
                Ok(m) => (Some(self.entry_at(slug.as_str(), m.clone())), None),
                Err(e) => {
                    let folder = self.config_folder(slug.as_str());
                    let path = join_path(folder.as_str(), METADATA_FILENAME);
                    let issue = ScanIssue::LoadMetadata { path, error: e.clone() };
                    (None, Some(issue.message()))
                },
            },
        }
    }

    /// The config listing from a scan of `config/`: the entries of every
    /// folder whose metadata loaded, sorted by name, and one warning line
    /// per item that failed, in scan order; when `config/` itself could
    /// not be read, no entries and that one warning.
    pub fn list_configs(&self, scan: &Result<Vec<FolderScan>, String>) -> (r: (
        Vec<ConfigEntry>,
        Vec<String>,
    ))
        ensures
            match scan {
                Err(e) => r.0@.len() == 0 && string_views(r.1@) == seq![
                    "Failed to read config directory "@ + self.config_dir@ + ": "@ + e@,
                ],
                Ok(items) => entry_views(r.0@) == sort_by_key(
                    scan_spec(self.config_dir@, items@).0,
                    config_key(),
                ) && string_views(r.1@) == scan_spec(self.config_dir@, items@).1,
            },
    {
        let items = match scan {
            Err(e) => {
                let issue = ScanIssue::ReadDir { dir: self.config_dir.clone(), error: e.clone() };
                let mut errors: Vec<String> = Vec::new();
                errors.push(issue.message());
                assert(string_views(errors@) =~= seq![
                    "Failed to read config directory "@ + self.config_dir@ + ": "@ + e@,
                ]);
                return (Vec::new(), errors);
            },
            Ok(items) => items,
        };
        let mut out: Vec<ConfigEntry> = Vec::new();
        let mut errors: Vec<String> = Vec::new();
        let mut i: usize = 0;
        while i < items.len()
            invariant
                i <= items@.len(),
                entry_views(out@) == scan_spec(self.config_dir@, items@.take(i as int)).0,
                string_views(errors@) == scan_spec(self.config_dir@, items@.take(i as int)).1,
            decreases items@.len() - i,
        {
            let ghost before = (entry_views(out@), string_views(errors@));
            let (e, w) = self.folder_entry(&items[i]);
            assert(items@.take(i + 1).drop_last() =~= items@.take(i as int));
            assert(items@.take(i + 1).last() == items@[i as int]);
            match e {
                Some(x) => {
                    out.push(x);
                },
                None => {},
            }
            match w {
                Some(m) => {
                    errors.push(m);
                },
                None => {},
            }
            assert(entry_views(out@) =~= scan_spec(self.config_dir@, items@.take(i + 1)).0);
            assert(string_views(errors@) =~= scan_spec(self.config_dir@, items@.take(i + 1)).1);
            i = i + 1;
        }
        assert(items@.take(items@.len() as int) =~= items@);
        (sort_configs(out), errors)
    }
}

} // verus!
