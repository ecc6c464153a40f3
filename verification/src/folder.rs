//! Directory listing and file creation support: a plain-value model of a
//! directory tree, the script-file and directory walks over it with their
//! exclusion rules, the file-creation plans, and the editor template for new
//! script files. The filesystem itself is read and written outside the
//! library; it hands the tree and the existence probes in as values.

use vstd::prelude::*;
use vstd::string::StringExecFns;
use crate::paths::{extension_spec, extension_of, last_dot_index};
use crate::text::{str_eq, trim_suffix_spec, trim_suffix_repeated, chars_of, string_of_chars};

verus! {

/// What one filesystem probe reports of a path.
pub struct FileStats {
    /// The path names a regular file.
    pub is_file: bool,
    /// The path names a directory.
    pub is_directory: bool,
    /// Size in bytes.
    pub size: u64,
    /// Modification time as a Unix timestamp, where the filesystem gave one.
    pub modified: Option<u64>,
}

/// One directory entry as the walks see it: a file, or a directory with its
/// entries.
pub enum FsTree {
    /// A regular file.
    File {
        /// Full path of the file.
        path: String,
        /// Its file name.
        name: String,
    },
    /// A directory.
    Dir {
        /// Full path of the directory.
        path: String,
        /// Its directory name.
        name: String,
        /// Its entries, in directory order.
        entries: Vec<FsTree>,
    },
}

/// The directory names every walk skips.
pub open spec fn excluded_name(name: Seq<char>) -> bool {
    name == ".git"@ || name == "swagger"@ || name == "node_modules"@
}

fn is_excluded_name(name: &str) -> (r: bool)
    ensures
        r == excluded_name(name@),
{
    str_eq(name, ".git") || str_eq(name, "swagger") || str_eq(name, "node_modules")
}

/// A file the script walk collects: extension `js` or `ts`.
pub open spec fn script_extension(path: Seq<char>) -> bool {
    extension_spec(path) == Some("js"@) || extension_spec(path) == Some("ts"@)
}

/// The script files one entry contributes: the file itself when its
/// extension fits; a directory's files unless its name is excluded.
pub open spec fn script_files_of_entry(t: FsTree) -> Seq<Seq<char>>
    decreases t,
{
    match t {
        FsTree::File { path, .. } => if script_extension(path@) {
            seq![path@]
        } else {
            Seq::empty()
        },
        FsTree::Dir { name, entries, .. } => if excluded_name(name@) {
            Seq::empty()
        } else {
            script_files_of_entries(entries@)
        },
    }
}

/// The script files a list of entries contributes, in order.
pub open spec fn script_files_of_entries(entries: Seq<FsTree>) -> Seq<Seq<char>>
    decreases entries,
{
    if entries.len() == 0 {
        Seq::empty()
    } else {
        script_files_of_entry(entries[0]) + script_files_of_entries(entries.drop_first())
    }
}

/// The directories one entry contributes to the directory walk: an
/// unexcluded directory itself, then its subdirectories.
pub open spec fn dirs_of_entry(t: FsTree) -> Seq<Seq<char>>
    decreases t,
{
    match t {
        FsTree::File { .. } => Seq::empty(),
        FsTree::Dir { path, name, entries } => if excluded_name(name@) {
            Seq::empty()
        } else {
            seq![path@] + dirs_of_entries(entries@)
        },
    }
}

/// The directories a list of entries contributes, in order.
pub open spec fn dirs_of_entries(entries: Seq<FsTree>) -> Seq<Seq<char>>
    decreases entries,
{
    if entries.len() == 0 {
        Seq::empty()
    } else {
        dirs_of_entry(entries[0]) + dirs_of_entries(entries.drop_first())
    }
}

fn collect_script_files(entries: &Vec<FsTree>, out: &mut Vec<String>)
    ensures
        final(out)@.map_values(|s: String| s@) == old(out)@.map_values(|s: String| s@)
            + script_files_of_entries(entries@),
    decreases entries,
{
    let ghost base = out@.map_values(|s: String| s@);
    let mut i: usize = 0;
    proof {
        assert(base + script_files_of_entries(entries@.take(0)) =~= base);
    }
    while i < entries.len()
        invariant
            i <= entries@.len(),
            out@.map_values(|s: String| s@) == base + script_files_of_entries(
                entries@.take(i as int),
            ),
        decreases entries@.len() - i,
    {
        let ghost before = out@.map_values(|s: String| s@);
        match &entries[i] {
            FsTree::File { path, .. } => {
                if let Some(ext) = extension_of(path.as_str()) {
                    if str_eq(ext.as_str(), "js") || str_eq(ext.as_str(), "ts") {
                        out.push(path.clone());
                        proof {
                            assert(out@.map_values(|s: String| s@) =~= before + seq![
                                entries@[i as int]->File_path@,
                            ]);
                        }
                    }
                }
            },
            FsTree::Dir { name, entries: sub, .. } => {
                if !is_excluded_name(name.as_str()) {
                    collect_script_files(sub, out);
                }
            },
        }
        proof {
            assert(out@.map_values(|s: String| s@) =~= before + script_files_of_entry(
                entries@[i as int],
            ));
            assert(script_files_of_entries(entries@.take(i + 1)) =~= script_files_of_entries(
                entries@.take(i as int),
            ) + script_files_of_entry(entries@[i as int])) by {
                lemma_script_files_snoc(entries@, i as int);
            }
            assert(out@.map_values(|s: String| s@) =~= base + script_files_of_entries(
                entries@.take(i + 1),
            ));
        }
        i = i + 1;
    }
    proof {
        assert(entries@.take(entries@.len() as int) =~= entries@);
    }
}

proof fn lemma_script_files_snoc(entries: Seq<FsTree>, i: int)
    requires
        0 <= i < entries.len(),
    ensures
        script_files_of_entries(entries.take(i + 1)) == script_files_of_entries(entries.take(i))
            + script_files_of_entry(entries[i]),
    decreases i,
{
    if i == 0 {
        assert(entries.take(1)[0] == entries[0]);
        assert(entries.take(1).drop_first() =~= entries.take(0));
        assert(script_files_of_entries(entries.take(0)) =~= Seq::<Seq<char>>::empty());
        assert(script_files_of_entries(entries.take(1)) =~= script_files_of_entry(entries[0])
            + script_files_of_entries(entries.take(0)));
        assert(script_files_of_entry(entries[0]) + Seq::<Seq<char>>::empty() =~= script_files_of_entry(
            entries[0],
        ));
        assert(Seq::<Seq<char>>::empty() + script_files_of_entry(entries[0]) =~= script_files_of_entry(
            entries[0],
        ));
    } else {
        lemma_script_files_snoc(entries.drop_first(), i - 1);
        assert(entries.take(i + 1).drop_first() =~= entries.drop_first().take(i));
        assert(entries.take(i).drop_first() =~= entries.drop_first().take(i - 1));
        assert(entries.take(i + 1)[0] == entries[0]);
        assert(entries.take(i)[0] == entries[0]);
        assert(entries.drop_first()[i - 1] == entries[i]);
        assert(script_files_of_entries(entries.take(i + 1)) =~= script_files_of_entry(entries[0])
            + script_files_of_entries(entries.drop_first().take(i)));
        assert(script_files_of_entries(entries.take(i)) =~= script_files_of_entry(entries[0])
            + script_files_of_entries(entries.drop_first().take(i - 1)));
    }
}

proof fn lemma_dirs_snoc(entries: Seq<FsTree>, i: int)
    requires
        0 <= i < entries.len(),
    ensures
        dirs_of_entries(entries.take(i + 1)) == dirs_of_entries(entries.take(i)) + dirs_of_entry(
            entries[i],
        ),
    decreases i,
{
    if i == 0 {
        assert(entries.take(1)[0] == entries[0]);
        assert(entries.take(1).drop_first() =~= entries.take(0));
        assert(dirs_of_entries(entries.take(1)) =~= dirs_of_entry(entries[0]) + dirs_of_entries(
            entries.take(0),
        ));
        assert(dirs_of_entry(entries[0]) + Seq::<Seq<char>>::empty() =~= dirs_of_entry(entries[0]));
        assert(Seq::<Seq<char>>::empty() + dirs_of_entry(entries[0]) =~= dirs_of_entry(entries[0]));
    } else {
        lemma_dirs_snoc(entries.drop_first(), i - 1);
        assert(entries.take(i + 1).drop_first() =~= entries.drop_first().take(i));
        assert(entries.take(i).drop_first() =~= entries.drop_first().take(i - 1));
        assert(entries.take(i + 1)[0] == entries[0]);
        assert(entries.take(i)[0] == entries[0]);
        assert(entries.drop_first()[i - 1] == entries[i]);
        assert(dirs_of_entries(entries.take(i + 1)) =~= dirs_of_entry(entries[0]) + dirs_of_entries(
            entries.drop_first().take(i),
        ));
        assert(dirs_of_entries(entries.take(i)) =~= dirs_of_entry(entries[0]) + dirs_of_entries(
            entries.drop_first().take(i - 1),
        ));
    }
}

fn collect_dirs(entries: &Vec<FsTree>, out: &mut Vec<String>)
    ensures
        final(out)@.map_values(|s: String| s@) == old(out)@.map_values(|s: String| s@)
            + dirs_of_entries(entries@),
    decreases entries,
{
    let ghost base = out@.map_values(|s: String| s@);
    let mut i: usize = 0;
    proof {
        assert(base + dirs_of_entries(entries@.take(0)) =~= base);
    }
    while i < entries.len()
        invariant
            i <= entries@.len(),
            out@.map_values(|s: String| s@) == base + dirs_of_entries(entries@.take(i as int)),
        decreases entries@.len() - i,
    {
        let ghost before = out@.map_values(|s: String| s@);
        match &entries[i] {
            FsTree::File { .. } => {},
            FsTree::Dir { path, name, entries: sub } => {
                if !is_excluded_name(name.as_str()) {
                    out.push(path.clone());
                    proof {
                        assert(out@.map_values(|s: String| s@) =~= before + seq![
                            entries@[i as int]->Dir_path@,
                        ]);
                    }
                    collect_dirs(sub, out);
                }
            },
        }
        proof {
            assert(out@.map_values(|s: String| s@) =~= before + dirs_of_entry(entries@[i as int]));
            lemma_dirs_snoc(entries@, i as int);
            assert(out@.map_values(|s: String| s@) =~= base + dirs_of_entries(
                entries@.take(i + 1),
            ));
        }
        i = i + 1;
    }
    proof {
        assert(entries@.take(entries@.len() as int) =~= entries@);
    }
}

/// Walks a directory's entries and lists every `js`/`ts` file under it, in
/// directory order, skipping the excluded directories.
pub fn list_files_in_path(entries: &Vec<FsTree>) -> (r: Vec<String>)
    ensures
        r@.map_values(|s: String| s@) == script_files_of_entries(entries@),
{
    let mut out: Vec<String> = Vec::new();
    proof {
        assert(out@.map_values(|s: String| s@) =~= Seq::<Seq<char>>::empty());
        assert(Seq::<Seq<char>>::empty() + script_files_of_entries(entries@)
            =~= script_files_of_entries(entries@));
    }
    collect_script_files(entries, &mut out);
    out
}

/// Walks a directory's entries and lists every directory under it, each
/// before its own subdirectories, skipping the excluded ones.
pub fn list_dirs_in_path(entries: &Vec<FsTree>) -> (r: Vec<String>)
    ensures
        r@.map_values(|s: String| s@) == dirs_of_entries(entries@),
{
    let mut out: Vec<String> = Vec::new();
    proof {
        assert(out@.map_values(|s: String| s@) =~= Seq::<Seq<char>>::empty());
        assert(Seq::<Seq<char>>::empty() + dirs_of_entries(entries@) =~= dirs_of_entries(entries@));
    }
    collect_dirs(entries, &mut out);
    out
}

/// Lists the script files under the configured scripts directory, whose
/// entries the caller read.
pub fn list_js_files(entries: &Vec<FsTree>) -> (r: Vec<String>)
    ensures
        r@.map_values(|s: String| s@) == script_files_of_entries(entries@),
{
    list_files_in_path(entries)
}

/// Lists the directories under the configured scripts directory, whose
/// entries the caller read.
pub fn list_dirs(entries: &Vec<FsTree>) -> (r: Vec<String>)
    ensures
        r@.map_values(|s: String| s@) == dirs_of_entries(entries@),
{
    list_dirs_in_path(entries)
}

/// Every path one entry contributes to the full listing: files and
/// directories alike, a directory before its contents, entries with
/// excluded names dropped along with everything beneath them.
pub open spec fn all_items_of_entry(t: FsTree) -> Seq<Seq<char>>
    decreases t,
{
    match t {
        FsTree::File { path, name } => if excluded_name(name@) {
            Seq::empty()
        } else {
            seq![path@]
        },
        FsTree::Dir { path, name, entries } => if excluded_name(name@) {
            Seq::empty()
        } else {
            seq![path@] + all_items_of_entries(entries@)
        },
    }
}

/// Every path a list of entries contributes to the full listing, in order.
pub open spec fn all_items_of_entries(entries: Seq<FsTree>) -> Seq<Seq<char>>
    decreases entries,
{
    if entries.len() == 0 {
        Seq::empty()
    } else {
        all_items_of_entry(entries[0]) + all_items_of_entries(entries.drop_first())
    }
}

proof fn lemma_all_items_snoc(entries: Seq<FsTree>, i: int)
    requires
        0 <= i < entries.len(),
    ensures
        all_items_of_entries(entries.take(i + 1)) == all_items_of_entries(entries.take(i))
            + all_items_of_entry(entries[i]),
    decreases i,
{
    if i == 0 {
        assert(entries.take(1)[0] == entries[0]);
        assert(entries.take(1).drop_first() =~= entries.take(0));
        assert(all_items_of_entries(entries.take(1)) =~= all_items_of_entry(entries[0])
            + all_items_of_entries(entries.take(0)));
        assert(all_items_of_entry(entries[0]) + Seq::<Seq<char>>::empty() =~= all_items_of_entry(
            entries[0],
        ));
        assert(Seq::<Seq<char>>::empty() + all_items_of_entry(entries[0]) =~= all_items_of_entry(
            entries[0],
        ));
    } else {
        lemma_all_items_snoc(entries.drop_first(), i - 1);
        assert(entries.take(i + 1).drop_first() =~= entries.drop_first().take(i));
        assert(entries.take(i).drop_first() =~= entries.drop_first().take(i - 1));
        assert(entries.take(i + 1)[0] == entries[0]);
        assert(entries.take(i)[0] == entries[0]);
        assert(entries.drop_first()[i - 1] == entries[i]);
        assert(all_items_of_entries(entries.take(i + 1)) =~= all_items_of_entry(entries[0])
            + all_items_of_entries(entries.drop_first().take(i)));
        assert(all_items_of_entries(entries.take(i)) =~= all_items_of_entry(entries[0])
            + all_items_of_entries(entries.drop_first().take(i - 1)));
    }
}

fn collect_all_items(entries: &Vec<FsTree>, out: &mut Vec<String>)
    ensures
        final(out)@.map_values(|s: String| s@) == old(out)@.map_values(|s: String| s@)
            + all_items_of_entries(entries@),
    decreases entries,
{
    let ghost base = out@.map_values(|s: String| s@);
    let mut i: usize = 0;
    proof {
        assert(base + all_items_of_entries(entries@.take(0)) =~= base);
    }
    while i < entries.len()
        invariant
            i <= entries@.len(),
            out@.map_values(|s: String| s@) == base + all_items_of_entries(entries@.take(i as int)),
        decreases entries@.len() - i,
    {
        let ghost before = out@.map_values(|s: String| s@);
        match &entries[i] {
            FsTree::File { path, name } => {
                if !is_excluded_name(name.as_str()) {
                    out.push(path.clone());
                    proof {
                        assert(out@.map_values(|s: String| s@) =~= before + seq![
                            entries@[i as int]->File_path@,
                        ]);
                    }
                }
            },
            FsTree::Dir { path, name, entries: sub } => {
                if !is_excluded_name(name.as_str()) {
                    out.push(path.clone());
                    proof {
                        assert(out@.map_values(|s: String| s@) =~= before + seq![
                            entries@[i as int]->Dir_path@,
                        ]);
                    }
                    collect_all_items(sub, out);
                }
            },
        }
        proof {
            assert(out@.map_values(|s: String| s@) =~= before + all_items_of_entry(
                entries@[i as int],
            ));
            lemma_all_items_snoc(entries@, i as int);
            assert(out@.map_values(|s: String| s@) =~= base + all_items_of_entries(
                entries@.take(i + 1),
            ));
        }
        i = i + 1;
    }
    proof {
        assert(entries@.take(entries@.len() as int) =~= entries@);
    }
}

/// Walks a directory's entries and lists every file and directory under it,
/// each directory before its contents, dropping excluded names and
/// everything beneath them.
pub fn list_all_items_in_path(entries: &Vec<FsTree>) -> (r: Vec<String>)
    ensures
        r@.map_values(|s: String| s@) == all_items_of_entries(entries@),
{
    let mut out: Vec<String> = Vec::new();
    proof {
        assert(out@.map_values(|s: String| s@) =~= Seq::<Seq<char>>::empty());
        assert(Seq::<Seq<char>>::empty() + all_items_of_entries(entries@) =~= all_items_of_entries(
            entries@,
        ));
    }
    collect_all_items(entries, &mut out);
    out
}

/// The single-level listing: each entry's path, entries with excluded names
/// dropped, nothing recursed into.
pub open spec fn single_level_spec(entries: Seq<FsTree>) -> Seq<Seq<char>>
    decreases entries.len(),
{
    if entries.len() == 0 {
        Seq::empty()
    } else {
        let rest = single_level_spec(entries.drop_last());
        let last = entries.last();
        let name = match last {
            FsTree::File { name, .. } => name@,
            FsTree::Dir { name, .. } => name@,
        };
        let path = match last {
            FsTree::File { path, .. } => path@,
            FsTree::Dir { path, .. } => path@,
        };
        if excluded_name(name) {
            rest
        } else {
            rest + seq![path]
        }
    }
}

/// Lists one directory level: every entry that does not carry an excluded
/// name, in directory order, without recursing.
pub fn list_items_single_level(entries: &Vec<FsTree>) -> (r: Vec<String>)
    ensures
        r@.map_values(|s: String| s@) == single_level_spec(entries@),
{
    let mut out: Vec<String> = Vec::new();
    let mut i: usize = 0;
    proof {
        assert(out@.map_values(|s: String| s@) =~= single_level_spec(entries@.take(0)));
    }
    while i < entries.len()
        invariant
            i <= entries@.len(),
            out@.map_values(|s: String| s@) == single_level_spec(entries@.take(i as int)),
        decreases entries@.len() - i,
    {
        proof {
            assert(entries@.take(i + 1).drop_last() =~= entries@.take(i as int));
            assert(entries@.take(i + 1).last() == entries@[i as int]);
        }
        let ghost before = out@.map_values(|s: String| s@);
        match &entries[i] {
            FsTree::File { path, name } => {
                if !is_excluded_name(name.as_str()) {
                    out.push(path.clone());
                    proof {
                        assert(out@.map_values(|s: String| s@) =~= before + seq![
                            entries@[i as int]->File_path@,
                        ]);
                    }
                }
            },
            FsTree::Dir { path, name, .. } => {
                if !is_excluded_name(name.as_str()) {
                    out.push(path.clone());
                    proof {
                        assert(out@.map_values(|s: String| s@) =~= before + seq![
                            entries@[i as int]->Dir_path@,
                        ]);
                    }
                }
            },
        }
        i = i + 1;
    }
    proof {
        assert(entries@.take(entries@.len() as int) =~= entries@);
    }
    out
}

/// The directory part of a path: everything before the last separator,
/// empty when the path is a bare name.
pub open spec fn parent_dir_spec(p: Seq<char>) -> Seq<char> {
    let d = crate::paths::last_sep_index(p);
    if d <= 0 {
        Seq::empty()
    } else {
        p.take(d)
    }
}

/// The path a renamed file moves to: the same directory, the new name, and
/// the old extension appended behind a dot (an empty one when the old path
/// had none).
pub open spec fn renamed_path_spec(p: Seq<char>, new_name: Seq<char>) -> Seq<char> {
    let ext = match extension_spec(p) {
        Some(e) => e,
        None => Seq::<char>::empty(),
    };
    let dir = parent_dir_spec(p);
    if dir.len() == 0 {
        new_name + "."@ + ext
    } else {
        dir + "/"@ + new_name + "."@ + ext
    }
}

/// Plans a rename: where the file moves to, keeping directory and
/// extension. An empty path has no place to rename within.
pub fn plan_rename_file(file_path: &str, new_file_name: &str) -> (r: Result<String, String>)
    ensures
        match r {
            Ok(p) => file_path@.len() > 0 && p@ == renamed_path_spec(file_path@, new_file_name@),
            Err(m) => file_path@.len() == 0 && m@ == "Could not determine parent directory"@,
        },
{
    let v = chars_of(file_path);
    if v.len() == 0 {
        let mut m = String::new();
        m.append("Could not determine parent directory");
        return Err(m);
    }
    let ext: String = match extension_of(file_path) {
        Some(e) => e,
        None => String::new(),
    };
    let mut out: Vec<char> = Vec::new();
    match crate::paths::path_last_sep(&v) {
        Some(d) if d > 0 => {
            let mut i: usize = 0;
            while i < d
                invariant
                    i <= d <= v@.len(),
                    out@ == v@.subrange(0, i as int),
                decreases d - i,
            {
                out.push(v[i]);
                proof {
                    assert(out@ =~= v@.subrange(0, i + 1));
                }
                i = i + 1;
            }
            proof {
                assert(out@ =~= v@.take(d as int));
            }
            let mut s = string_of_chars(&out);
            s.append("/");
            s.append(new_file_name);
            s.append(".");
            s.append(ext.as_str());
            Ok(s)
        },
        _ => {
            let mut s = String::new();
            s.append(new_file_name);
            s.append(".");
            s.append(ext.as_str());
            Ok(s)
        },
    }
}

/// The name of the path configuration file.
pub fn get_path_config_file_name() -> (r: String)
    ensures
        r@ == "pathConfig.json"@,
{
    let mut s = String::new();
    s.append("pathConfig.json");
    s
}

/// What creating a file with a template reports back.
#[derive(Debug)]
pub struct CreateFileResult {
    /// Full path of the created file.
    pub file_path: String,
    /// The file name without its extension.
    pub file_name: String,
    /// The file's extension, empty when it has none.
    pub file_extension: String,
    /// Whether a template was written rather than an empty file.
    pub template_applied: bool,
}

/// The file-name part of a name before its extension.
pub open spec fn stem_spec(name: Seq<char>) -> Seq<char> {
    let d = last_dot_index(name);
    if d <= 0 {
        name
    } else {
        name.take(d)
    }
}

/// The name a template greets the user with: the file name without its
/// trailing `.ts` and `.js` suffixes.
pub open spec fn template_name_spec(file_name: Seq<char>) -> Seq<char> {
    trim_suffix_spec(trim_suffix_spec(file_name, ".ts"@), ".js"@)
}

/// The script template's text for a given display name.
pub open spec fn template_spec(file_name: Seq<char>) -> Seq<char> {
    let n = template_name_spec(file_name);
    template_head() + n + template_mid() + n + template_tail()
}

/// The template text before the first name splice.
pub open spec fn template_head() -> Seq<char> {
    "import fs from 'fs';\n\n/**\n * "@
}

/// The template text between the two name splices.
pub open spec fn template_mid() -> Seq<char> {
    " - Auto-generated by ITOL\n * \n * This file is executed as part of an ITOL workflow node.\n * \n * @input  JSON file path (process.argv[2]) - Contains requestProperties and previousNodeResults\n * @output JSON file path (process.argv[3]) - Write your results here\n */\n\ninterface RequestProperty {\n  name: string;\n  value: any;\n}\n\ninterface InputData {\n  requestProperties: RequestProperty[];\n  previousNodeResults?: Record<string, any>;\n}\n\ninterface OutputData {\n  status: 'success' | 'error';\n  data?: any;\n  error?: string;\n  timestamp: string;\n}\n\nasync function main() {\n  const [inputPath, outputPath] = process.argv.slice(2);\n  \n  if (!inputPath || !outputPath) {\n    console.error('Usage: node "@
}

/// The template text after the second name splice.
pub open spec fn template_tail() -> Seq<char> {
    " <input.json> <output.json>');\n    process.exit(1);\n  }\n  \n  try {\n    // 1. Read input data\n    const inputData: InputData = JSON.parse(\n      fs.readFileSync(inputPath, 'utf8')\n    );\n    \n    console.log('Input received:', inputData);\n    \n    // 2. Extract parameters from requestProperties\n    const params = inputData.requestProperties.reduce((acc, prop) => {\n      acc[prop.name] = prop.value;\n      return acc;\n    }, {} as Record<string, any>);\n    \n    // 3. Access results from previous nodes (if any)\n    const previousResults = inputData.previousNodeResults || {};\n    \n    // ============================================\n    // Implement your logic here\n    // ============================================\n    \n    const result = {\n      message: 'Replace this with your actual implementation',\n      receivedParams: params,\n      previousNodeCount: Object.keys(previousResults).length\n    };\n    \n    // ============================================\n    \n    // 4. Write successful output\n    const output: OutputData = {\n      status: 'success',\n      data: result,\n      timestamp: new Date().toISOString()\n    };\n    \n    fs.writeFileSync(outputPath, JSON.stringify(output, null, 2));\n    console.log('Output written successfully');\n    \n  } catch (error) {\n    console.error('Error:', error);\n    \n    // Write error output\n    const output: OutputData = {\n      status: 'error',\n      error: error instanceof Error ? error.message : String(error),\n      timestamp: new Date().toISOString()\n    };\n    \n    fs.writeFileSync(outputPath, JSON.stringify(output, null, 2));\n    process.exit(1);\n  }\n}\n\nmain();\n"@
}

/// Generates the starter template for a new workflow script: the skeleton
/// that reads the input artifact, leaves room for the node's own logic, and
/// writes the output artifact.
pub fn generate_basic_typescript_template(file_name: &str) -> (r: String)
    ensures
        r@ == template_spec(file_name@),
{
    let trimmed_ts = trim_suffix_repeated(file_name, ".ts");
    let name = trim_suffix_repeated(trimmed_ts.as_str(), ".js");
    let mut s = String::new();
    s.append("import fs from 'fs';\n\n/**\n * ");
    s.append(name.as_str());
    s.append(
        " - Auto-generated by ITOL\n * \n * This file is executed as part of an ITOL workflow node.\n * \n * @input  JSON file path (process.argv[2]) - Contains requestProperties and previousNodeResults\n * @output JSON file path (process.argv[3]) - Write your results here\n */\n\ninterface RequestProperty {\n  name: string;\n  value: any;\n}\n\ninterface InputData {\n  requestProperties: RequestProperty[];\n  previousNodeResults?: Record<string, any>;\n}\n\ninterface OutputData {\n  status: 'success' | 'error';\n  data?: any;\n  error?: string;\n  timestamp: string;\n}\n\nasync function main() {\n  const [inputPath, outputPath] = process.argv.slice(2);\n  \n  if (!inputPath || !outputPath) {\n    console.error('Usage: node ",
    );
    s.append(name.as_str());
    s.append(
        " <input.json> <output.json>');\n    process.exit(1);\n  }\n  \n  try {\n    // 1. Read input data\n    const inputData: InputData = JSON.parse(\n      fs.readFileSync(inputPath, 'utf8')\n    );\n    \n    console.log('Input received:', inputData);\n    \n    // 2. Extract parameters from requestProperties\n    const params = inputData.requestProperties.reduce((acc, prop) => {\n      acc[prop.name] = prop.value;\n      return acc;\n    }, {} as Record<string, any>);\n    \n    // 3. Access results from previous nodes (if any)\n    const previousResults = inputData.previousNodeResults || {};\n    \n    // ============================================\n    // Implement your logic here\n    // ============================================\n    \n    const result = {\n      message: 'Replace this with your actual implementation',\n      receivedParams: params,\n      previousNodeCount: Object.keys(previousResults).length\n    };\n    \n    // ============================================\n    \n    // 4. Write successful output\n    const output: OutputData = {\n      status: 'success',\n      data: result,\n      timestamp: new Date().toISOString()\n    };\n    \n    fs.writeFileSync(outputPath, JSON.stringify(output, null, 2));\n    console.log('Output written successfully');\n    \n  } catch (error) {\n    console.error('Error:', error);\n    \n    // Write error output\n    const output: OutputData = {\n      status: 'error',\n      error: error instanceof Error ? error.message : String(error),\n      timestamp: new Date().toISOString()\n    };\n    \n    fs.writeFileSync(outputPath, JSON.stringify(output, null, 2));\n    process.exit(1);\n  }\n}\n\nmain();\n",
    );
    s
}

/// The full path a new file would get inside a directory.
pub open spec fn new_file_path_spec(dir: Seq<char>, name: Seq<char>) -> Seq<char> {
    dir + "/"@ + name
}

/// Plans the creation of an empty file: the target path, or the error when
/// a file is already there (the caller passes the probe's outcome).
pub fn plan_create_file(new_file_name: &str, dir_path: &str, exists: bool) -> (r: Result<
    String,
    String,
>)
    ensures
        match r {
            Ok(p) => !exists && p@ == new_file_path_spec(dir_path@, new_file_name@),
            Err(m) => exists && m@ == "File "@ + new_file_path_spec(dir_path@, new_file_name@)
                + " already exists"@,
        },
{
    let mut p = String::new();
    p.append(dir_path);
    p.append("/");
    p.append(new_file_name);
    if exists {
        let mut m = String::new();
        m.append("File ");
        m.append(p.as_str());
        m.append(" already exists");
        Err(m)
    } else {
        Ok(p)
    }
}

/// Everything needed to create one templated file: where to write, what to
/// write, and what to report back.
#[derive(Debug)]
pub struct FileCreationPlan {
    /// The content to write: the template for script extensions, empty
    /// otherwise.
    pub content: String,
    /// What the operation reports back.
    pub result: CreateFileResult,
}

fn stem_of_name(name: &str) -> (r: String)
    ensures
        r@ == stem_spec(name@),
{
    let v = chars_of(name);
    match crate::paths::name_last_dot(&v) {
        Some(d) => {
            if d == 0 {
                string_of_chars(&v)
            } else {
                let mut out: Vec<char> = Vec::new();
                let mut i: usize = 0;
                while i < d
                    invariant
                        i <= d <= v@.len(),
                        out@ == v@.subrange(0, i as int),
                    decreases d - i,
                {
                    out.push(v[i]);
                    proof {
                        assert(out@ =~= v@.subrange(0, i + 1));
                    }
                    i = i + 1;
                }
                proof {
                    assert(out@ =~= v@.take(d as int));
                }
                string_of_chars(&out)
            }
        },
        None => string_of_chars(&v),
    }
}

/// Plans the creation of a templated file: rejects an existing target,
/// picks the template by extension (`ts` and `js` get the script template,
/// anything else an empty file), and fills in the report.
pub fn plan_create_file_with_template(new_file_name: &str, dir_path: &str, exists: bool) -> (r:
    Result<FileCreationPlan, String>)
    ensures
        match r {
            Err(m) => exists && m@ == "File "@ + new_file_path_spec(dir_path@, new_file_name@)
                + " already exists"@,
            Ok(plan) => {
                let path = new_file_path_spec(dir_path@, new_file_name@);
                let ext = extension_spec(path);
                &&& !exists
                &&& plan.result.file_path@ == path
                &&& plan.result.file_name@ == stem_spec(crate::paths::file_name_spec(path))
                &&& plan.result.file_extension@ == (match ext {
                    Some(e) => e,
                    None => Seq::<char>::empty(),
                })
                &&& plan.result.template_applied == (ext == Some("ts"@) || ext == Some("js"@))
                &&& plan.content@ == (if ext == Some("ts"@) || ext == Some("js"@) {
                    template_spec(new_file_name@)
                } else {
                    Seq::<char>::empty()
                })
            },
        },
{
    let mut p = String::new();
    p.append(dir_path);
    p.append("/");
    p.append(new_file_name);
    if exists {
        let mut m = String::new();
        m.append("File ");
        m.append(p.as_str());
        m.append(" already exists");
        return Err(m);
    }
    let ext: String = match extension_of(p.as_str()) {
        Some(e) => e,
        None => String::new(),
    };
    let is_script = match extension_of(p.as_str()) {
        Some(e) => str_eq(e.as_str(), "ts") || str_eq(e.as_str(), "js"),
        None => false,
    };
    let content = if is_script {
        generate_basic_typescript_template(new_file_name)
    } else {
        String::new()
    };
    let name_part = crate::paths::file_name_of(p.as_str());
    let file_name = stem_of_name(name_part.as_str());
    Ok(FileCreationPlan {
        content,
        result: CreateFileResult {
            file_path: p,
            file_name,
            file_extension: ext,
            template_applied: is_script,
        },
    })
}

/// The exact content of the path configuration file for the two configured
/// paths, pretty-printed.
pub open spec fn config_content_spec(js_path: Seq<char>, py_path: Seq<char>) -> Seq<char> {
    "{\n  \"js_path\": "@ + crate::json::json_quoted(js_path) + ",\n  \"py_path\": "@
        + crate::json::json_quoted(py_path) + "\n}"@
}

/// Renders the path configuration file's content.
pub fn config_content(js_path: &str, py_path: &str) -> (r: String)
    ensures
        r@ == config_content_spec(js_path@, py_path@),
{
    let mut s = String::new();
    s.append("{\n  \"js_path\": ");
    let js = crate::json::json_quote(js_path);
    s.append(js.as_str());
    s.append(",\n  \"py_path\": ");
    let py = crate::json::json_quote(py_path);
    s.append(py.as_str());
    s.append("\n}");
    s
}

} // verus!
