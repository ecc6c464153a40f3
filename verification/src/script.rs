//! The script execution strategy: dispatching a script path to the right
//! runner, the preflight checks, the source-to-compiled path mapping, the
//! rebuild decision with its cache, and the classification of subprocess
//! outcomes. Every decision is a verified function from plain values; the
//! process spawning and the filesystem probes happen outside the library and
//! feed their observations in as arguments.

use vstd::prelude::*;
use vstd::string::StringExecFns;
use crate::text::{contains_seq, ends_with_seq, starts_with_seq, str_contains, str_ends_with, str_starts_with};
use crate::paths::{extension_spec, extension_of, is_sep, strip_leading_seps, normalize_seps, normalize_separators};

verus! {

/// Which runner a script path is dispatched to.
#[derive(Debug, Clone, Copy, PartialEq, Eq, Structural)]
pub enum ScriptKind {
    /// A browser test, run through the project's test runner.
    BrowserTest,
    /// A TypeScript source, run through the build-and-run pipeline.
    TypeScript,
    /// A JavaScript source, run directly by the interpreter.
    JavaScript,
}

/// The terminal failures of the script strategy, each carrying the
/// human-readable message that crosses the boundary.
#[derive(Debug)]
pub enum ScriptError {
    /// The subprocess could not be spawned at all.
    ProcessSpawnFailed(String),
    /// The subprocess ran and failed; carries the captured diagnostics.
    NonZeroExit(String),
    /// Captured output was not valid text.
    OutputDecodeFailed(String),
    /// The expected output artifact was missing or unreadable.
    MissingResultFile(String),
    /// The TypeScript build failed; carries the build diagnostics.
    BuildFailed(String),
    /// The path names no supported script type.
    UnsupportedFileType(String),
    /// A required path does not exist.
    ProjectPathMissing(String),
    /// The project does not declare the dependency the run needs.
    DependencyMissing(String),
}

/// The message carried by a script-strategy error.
pub open spec fn error_text(e: &ScriptError) -> Seq<char> {
    match e {
        ScriptError::ProcessSpawnFailed(m) => m@,
        ScriptError::NonZeroExit(m) => m@,
        ScriptError::OutputDecodeFailed(m) => m@,
        ScriptError::MissingResultFile(m) => m@,
        ScriptError::BuildFailed(m) => m@,
        ScriptError::UnsupportedFileType(m) => m@,
        ScriptError::ProjectPathMissing(m) => m@,
        ScriptError::DependencyMissing(m) => m@,
    }
}

impl ScriptError {
    /// The human-readable message of this error.
    pub fn message(&self) -> (r: &String)
        ensures
            r@ == error_text(self),
    {
        match self {
            ScriptError::ProcessSpawnFailed(m) => m,
            ScriptError::NonZeroExit(m) => m,
            ScriptError::OutputDecodeFailed(m) => m,
            ScriptError::MissingResultFile(m) => m,
            ScriptError::BuildFailed(m) => m,
            ScriptError::UnsupportedFileType(m) => m,
            ScriptError::ProjectPathMissing(m) => m,
            ScriptError::DependencyMissing(m) => m,
        }
    }
}

/// Where a script path is routed: a path containing `.spec.` or `.test.`
/// goes to the browser-test runner whatever its extension; otherwise `.ts`
/// goes to the TypeScript pipeline and `.js` to the direct run.
pub open spec fn dispatch_spec(p: Seq<char>) -> Option<ScriptKind> {
    if contains_seq(p, ".spec."@) || contains_seq(p, ".test."@) {
        Some(ScriptKind::BrowserTest)
    } else if ends_with_seq(p, ".ts"@) {
        Some(ScriptKind::TypeScript)
    } else if ends_with_seq(p, ".js"@) {
        Some(ScriptKind::JavaScript)
    } else {
        None
    }
}

/// Dispatches a script path to its runner, or reports an unsupported type.
pub fn dispatch_script(file_path: &str) -> (r: Result<ScriptKind, ScriptError>)
    ensures
        match r {
            Ok(k) => dispatch_spec(file_path@) == Some(k),
            Err(e) => dispatch_spec(file_path@) is None && (e matches ScriptError::UnsupportedFileType(m)
                && m@ == "Unsupported file type"@),
        },
{
    if str_contains(file_path, ".spec.") || str_contains(file_path, ".test.") {
        Ok(ScriptKind::BrowserTest)
    } else if str_ends_with(file_path, ".ts") {
        Ok(ScriptKind::TypeScript)
    } else if str_ends_with(file_path, ".js") {
        Ok(ScriptKind::JavaScript)
    } else {
        let mut m = String::new();
        m.append("Unsupported file type");
        Err(ScriptError::UnsupportedFileType(m))
    }
}

/// Law: a path containing `.spec.` or `.test.` is dispatched to the
/// browser-test runner, whatever else the path looks like — in particular
/// even when it also ends in `.ts`.
pub proof fn lemma_dispatch_precedence(p: Seq<char>)
    requires
        contains_seq(p, ".spec."@) || contains_seq(p, ".test."@),
    ensures
        dispatch_spec(p) == Some(ScriptKind::BrowserTest),
{
}

/// A script file is acceptable when it exists and its extension is `js` or `ts`.
pub open spec fn acceptable_extension(p: Seq<char>) -> bool {
    extension_spec(p) == Some("js"@) || extension_spec(p) == Some("ts"@)
}

/// Preflight check of a script path: the file must exist (the caller passes
/// the probe's outcome) and carry a supported extension.
pub fn validate_file_path(file_path: &str, exists: bool) -> (r: Result<(), ScriptError>)
    ensures
        r is Ok <==> exists && acceptable_extension(file_path@),
        match r {
            Ok(_) => true,
            Err(e) => {
                if !exists {
                    e matches ScriptError::ProjectPathMissing(m)
                        && m@ == "File does not exist: "@ + file_path@
                } else if extension_spec(file_path@) is None {
                    e matches ScriptError::UnsupportedFileType(m) && m@ == "File has no extension"@
                } else {
                    e matches ScriptError::UnsupportedFileType(m)
                        && m@ == "Unsupported file extension: "@ + extension_spec(file_path@).unwrap()
                }
            },
        },
{
    if !exists {
        let mut m = String::new();
        m.append("File does not exist: ");
        m.append(file_path);
        return Err(ScriptError::ProjectPathMissing(m));
    }
    match extension_of(file_path) {
        None => {
            let mut m = String::new();
            m.append("File has no extension");
            Err(ScriptError::UnsupportedFileType(m))
        },
        Some(ext) => {
            if crate::text::str_eq(ext.as_str(), "js") || crate::text::str_eq(ext.as_str(), "ts") {
                Ok(())
            } else {
                let mut m = String::new();
                m.append("Unsupported file extension: ");
                m.append(ext.as_str());
                Err(ScriptError::UnsupportedFileType(m))
            }
        },
    }
}

/// The project-relative remainder of `file` under the project root `proj`:
/// the prefix must match on a component boundary; leading separators are
/// dropped from the remainder.
pub open spec fn strip_prefix_spec(file: Seq<char>, proj: Seq<char>) -> Option<Seq<char>> {
    if starts_with_seq(file, proj) && (file.len() == proj.len() || is_sep(file[proj.len() as int])
        || (proj.len() > 0 && is_sep(proj.last()))) {
        Some(strip_leading_seps(file.skip(proj.len() as int)))
    } else {
        None
    }
}

/// Drops one leading `src` component from a relative path, if present.
pub open spec fn drop_src_component(rel: Seq<char>) -> Seq<char> {
    if rel == "src"@ {
        Seq::empty()
    } else if starts_with_seq(rel, "src/"@) || starts_with_seq(rel, "src\\"@) {
        strip_leading_seps(rel.skip(3))
    } else {
        rel
    }
}

/// The project-relative path of a source file, with a leading `src`
/// component removed and separators normalized to `/` — the shape under
/// which the compiled output is looked up.
pub open spec fn relative_path_spec(file: Seq<char>, proj: Seq<char>) -> Option<Seq<char>> {
    match strip_prefix_spec(file, proj) {
        None => None,
        Some(rel) => {
            if rel.len() == 0 {
                None
            } else {
                Some(normalize_seps(drop_src_component(rel)))
            }
        },
    }
}

proof fn lemma_strip_leading_seps_at(s: Seq<char>, k: int)
    requires
        0 <= k <= s.len(),
        forall|j: int| 0 <= j < k ==> is_sep(s[j]),
        k == s.len() || !is_sep(s[k]),
    ensures
        strip_leading_seps(s) == s.skip(k),
    decreases k,
{
    if k == 0 {
        assert(s.skip(0) =~= s);
    } else {
        lemma_strip_leading_seps_at(s.drop_first(), k - 1);
        assert(s.drop_first().skip(k - 1) =~= s.skip(k));
    }
}

fn skip_leading_seps_exec(v: &Vec<char>, from: usize) -> (out: Vec<char>)
    requires
        from <= v@.len(),
    ensures
        out@ == strip_leading_seps(v@.skip(from as int)),
{
    let n = v.len();
    let mut k: usize = from;
    while k < n && (v[k] == '/' || v[k] == '\\')
        invariant
            from <= k <= n,
            n == v@.len(),
            forall|j: int| from <= j < k ==> is_sep(v@[j]),
        decreases n - k,
    {
        k = k + 1;
    }
    let mut out: Vec<char> = Vec::new();
    let mut i: usize = k;
    while i < n
        invariant
            k <= i <= n,
            n == v@.len(),
            out@ == v@.subrange(k as int, i as int),
        decreases n - i,
    {
        out.push(v[i]);
        proof {
            assert(out@ =~= v@.subrange(k as int, i + 1));
        }
        i = i + 1;
    }
    proof {
        let s = v@.skip(from as int);
        lemma_strip_leading_seps_at(s, k - from);
        assert(s.skip(k - from) =~= v@.subrange(k as int, n as int));
        assert(out@ =~= v@.subrange(k as int, n as int));
    }
    out
}

/// Computes the project-relative path of a source file: strips the project
/// prefix, drops a leading `src` component, and normalizes separators.
pub fn get_relative_file_path(file_path: &str, project_path: &str) -> (r: Result<String, String>)
    ensures
        match r {
            Ok(s) => relative_path_spec(file_path@, project_path@) == Some(s@),
            Err(m) => relative_path_spec(file_path@, project_path@) is None && (
                if strip_prefix_spec(file_path@, project_path@) is None {
                    m@ == "Failed to strip prefix: prefix not found"@
                } else {
                    m@ == "Empty relative path"@
                }
            ),
        },
{
    let fv = crate::text::chars_of(file_path);
    let pv = crate::text::chars_of(project_path);
    let prefix_ok = if !str_starts_with(file_path, project_path) {
        false
    } else if fv.len() == pv.len() {
        true
    } else {
        let boundary = fv[pv.len()];
        let proj_sep_end = if pv.len() > 0 {
            let lastc = pv[pv.len() - 1];
            lastc == '/' || lastc == '\\'
        } else {
            false
        };
        boundary == '/' || boundary == '\\' || proj_sep_end
    };
    if !prefix_ok {
        let mut m = String::new();
        m.append("Failed to strip prefix: prefix not found");
        return Err(m);
    }
    let rel = skip_leading_seps_exec(&fv, pv.len());
    if rel.len() == 0 {
        let mut m = String::new();
        m.append("Empty relative path");
        return Err(m);
    }
    // Drop a leading `src` component, if one is there.
    let ghost rel_seq = rel@;
    let dropped: Vec<char> = if rel.len() == 3 && rel[0] == 's' && rel[1] == 'r' && rel[2] == 'c' {
        proof {
            reveal_strlit("src");
            assert(rel@ =~= "src"@);
        }
        Vec::new()
    } else if rel.len() >= 4 && rel[0] == 's' && rel[1] == 'r' && rel[2] == 'c' && (rel[3] == '/'
        || rel[3] == '\\') {
        proof {
            reveal_strlit("src");
            reveal_strlit("src/");
            reveal_strlit("src\\");
            if rel@[3] == '/' {
                assert(rel@.subrange(0, 4) =~= "src/"@);
            } else {
                assert(rel@.subrange(0, 4) =~= "src\\"@);
            }
            assert(rel@ != "src"@);
        }
        skip_leading_seps_exec(&rel, 3)
    } else {
        proof {
            reveal_strlit("src");
            reveal_strlit("src/");
            reveal_strlit("src\\");
            assert(rel@ != "src"@);
            if rel@.len() >= 4 && rel@.subrange(0, 4) == "src/"@ {
                assert(rel@.subrange(0, 4)[0] == rel@[0]);
                assert(rel@.subrange(0, 4)[1] == rel@[1]);
                assert(rel@.subrange(0, 4)[2] == rel@[2]);
                assert(rel@.subrange(0, 4)[3] == rel@[3]);
                assert(rel@[0] == 's' && rel@[1] == 'r' && rel@[2] == 'c' && rel@[3] == '/');
            }
            if rel@.len() >= 4 && rel@.subrange(0, 4) == "src\\"@ {
                assert(rel@.subrange(0, 4)[0] == rel@[0]);
                assert(rel@.subrange(0, 4)[1] == rel@[1]);
                assert(rel@.subrange(0, 4)[2] == rel@[2]);
                assert(rel@.subrange(0, 4)[3] == rel@[3]);
                assert(rel@[0] == 's' && rel@[1] == 'r' && rel@[2] == 'c' && rel@[3] == '\\');
            }
            assert(!starts_with_seq(rel@, "src/"@) && !starts_with_seq(rel@, "src\\"@));
        }
        let mut c: Vec<char> = Vec::new();
        let mut i: usize = 0;
        while i < rel.len()
            invariant
                i <= rel@.len(),
                c@ == rel@.subrange(0, i as int),
            decreases rel@.len() - i,
        {
            c.push(rel[i]);
            proof {
                assert(c@ =~= rel@.subrange(0, i + 1));
            }
            i = i + 1;
        }
        proof {
            assert(c@ =~= rel@);
        }
        c
    };
    proof {
        assert(dropped@ == drop_src_component(rel_seq));
    }
    let normalized = normalize_separators(&dropped);
    Ok(crate::text::string_of_chars(&normalized))
}

/// Strips every trailing `.ts` suffix from a path.
pub open spec fn trim_ts_spec(s: Seq<char>) -> Seq<char>
    decreases s.len(),
{
    if ends_with_seq(s, ".ts"@) && s.len() >= 3 {
        trim_ts_spec(s.take(s.len() - 3))
    } else {
        s
    }
}

/// Where the compiled output of a TypeScript source is expected: under the
/// project's `dist` directory at the source's project-relative path, with
/// the `.ts` suffix rewritten to `.js`.
pub open spec fn compiled_js_spec(file: Seq<char>, proj: Seq<char>) -> Option<Seq<char>> {
    match relative_path_spec(file, proj) {
        None => None,
        Some(rel) => {
            let joined = proj + "/dist/"@ + rel;
            if ends_with_seq(joined, ".ts"@) {
                Some(trim_ts_spec(joined) + ".js"@)
            } else {
                Some(joined)
            }
        },
    }
}

/// Computes the compiled-output path for a TypeScript source file.
pub fn compiled_js_path(file_path: &str, project_path: &str) -> (r: Result<String, String>)
    ensures
        match r {
            Ok(s) => compiled_js_spec(file_path@, project_path@) == Some(s@),
            Err(m) => compiled_js_spec(file_path@, project_path@) is None
                && relative_path_spec(file_path@, project_path@) is None,
        },
{
    let rel = match get_relative_file_path(file_path, project_path) {
        Ok(s) => s,
        Err(m) => {
            return Err(m);
        },
    };
    let mut joined = String::new();
    joined.append(project_path);
    joined.append("/dist/");
    joined.append(rel.as_str());
    if !str_ends_with(joined.as_str(), ".ts") {
        return Ok(joined);
    }
    let mut v = crate::text::chars_of(joined.as_str());
    while v.len() >= 3 && v[v.len() - 3] == '.' && v[v.len() - 2] == 't' && v[v.len() - 1] == 's'
        invariant
            trim_ts_spec(v@) == trim_ts_spec(joined@),
        decreases v@.len(),
    {
        proof {
            reveal_strlit(".ts");
            assert(v@.subrange(v@.len() - 3, v@.len() as int) =~= ".ts"@);
            assert(ends_with_seq(v@, ".ts"@));
        }
        let n = v.len();
        v.truncate(n - 3);
    }
    proof {
        reveal_strlit(".ts");
        if ends_with_seq(v@, ".ts"@) && v@.len() >= 3 {
            let tail = v@.subrange(v@.len() - 3, v@.len() as int);
            assert(tail[0] == v@[v@.len() - 3]);
            assert(tail[1] == v@[v@.len() - 2]);
            assert(tail[2] == v@[v@.len() - 1]);
            assert(v@[v@.len() - 3] == '.' && v@[v@.len() - 2] == 't' && v@[v@.len() - 1] == 's');
        }
        assert(trim_ts_spec(v@) == v@);
    }
    let mut out = crate::text::string_of_chars(&v);
    out.append(".js");
    Ok(out)
}

/// One execution request for the script strategy, as the orchestrating
/// caller hands it over.
pub struct ExecuteFileParams {
    /// Root of the project the script belongs to.
    pub project_path: String,
    /// Path of the script to run.
    pub file_path: String,
    /// Serialized parameter payload, written verbatim to the input artifact.
    pub param: String,
    /// Project identifier, if the node belongs to a project.
    pub project_id: Option<i32>,
    /// Page identifier the node sits on.
    pub page_id: i32,
    /// Name of the node; names the artifact files.
    pub node_name: String,
    /// Run identifier; isolates concurrent runs of one node.
    pub run_id: String,
}

/// Where one run's artifacts live, all derived from the run id and the node
/// name under the project/page log directory.
pub struct RunArtifacts {
    /// The run's own directory.
    pub run_dir: String,
    /// The input artifact, `<node_name>.json`.
    pub input_path: String,
    /// The output artifact, `<node_name>_save.json`.
    pub save_path: String,
    /// The captured-output log, `output.txt`.
    pub log_path: String,
}

/// Derives the artifact locations of one run from its request: the
/// (node name, run id) pair fixes every file name, so runs under different
/// run ids never collide.
pub fn run_artifact_locations(log_dir: &str, params: &ExecuteFileParams) -> (r: RunArtifacts)
    ensures
        r.run_dir@ == crate::artifact::run_dir_spec(log_dir@, params.run_id@),
        r.input_path@ == crate::artifact::input_artifact_spec(log_dir@, params.run_id@, params.node_name@),
        r.save_path@ == crate::artifact::save_artifact_spec(log_dir@, params.run_id@, params.node_name@),
        r.log_path@ == crate::artifact::output_log_spec(
            crate::artifact::run_dir_spec(log_dir@, params.run_id@),
        ),
{
    let run_dir = crate::artifact::run_dir_path(log_dir, params.run_id.as_str());
    let input_path = crate::artifact::input_artifact_path(
        log_dir,
        params.run_id.as_str(),
        params.node_name.as_str(),
    );
    let save_path = crate::artifact::save_artifact_path(
        log_dir,
        params.run_id.as_str(),
        params.node_name.as_str(),
    );
    let log_path = crate::artifact::output_log_path(run_dir.as_str());
    RunArtifacts { run_dir, input_path, save_path, log_path }
}

/// What one finished subprocess looked like: exit success and the two
/// captured streams as text.
#[derive(Debug)]
pub struct ProcessOutcome {
    /// The process exited with status zero.
    pub success: bool,
    /// Captured standard output.
    pub stdout: String,
    /// Captured standard error.
    pub stderr: String,
}

/// What the last build time recorded per project path means: later records
/// win.
pub open spec fn cache_map(entries: Seq<(String, u64)>) -> Map<Seq<char>, u64>
    decreases entries.len(),
{
    if entries.len() == 0 {
        Map::empty()
    } else {
        cache_map(entries.drop_last()).insert(entries.last().0@, entries.last().1 as u64)
    }
}

/// The build cache: the last rebuild time recorded for each project path,
/// owned by the engine instance and consulted before every TypeScript build.
pub struct BuildCache {
    entries: Vec<(String, u64)>,
}

impl View for BuildCache {
    type V = Map<Seq<char>, u64>;

    closed spec fn view(&self) -> Map<Seq<char>, u64> {
        cache_map(self.entries@)
    }
}

proof fn lemma_cache_map_found(entries: Seq<(String, u64)>, k: Seq<char>, i: int)
    requires
        0 <= i < entries.len(),
        entries[i].0@ == k,
        forall|j: int| i < j < entries.len() ==> entries[j].0@ != k,
    ensures
        cache_map(entries).contains_key(k),
        cache_map(entries)[k] == entries[i].1,
    decreases entries.len(),
{
    if i == entries.len() - 1 {
    } else {
        lemma_cache_map_found(entries.drop_last(), k, i);
    }
}

proof fn lemma_cache_map_absent(entries: Seq<(String, u64)>, k: Seq<char>)
    requires
        forall|j: int| 0 <= j < entries.len() ==> entries[j].0@ != k,
    ensures
        !cache_map(entries).contains_key(k),
    decreases entries.len(),
{
    if entries.len() > 0 {
        lemma_cache_map_absent(entries.drop_last(), k);
    }
}

impl BuildCache {
    /// An empty build cache.
    pub fn new() -> (r: BuildCache)
        ensures
            r@ == Map::<Seq<char>, u64>::empty(),
    {
        BuildCache { entries: Vec::new() }
    }

    fn lookup(&self, path: &str) -> (r: Option<u64>)
        ensures
            match r {
                Some(t) => self@.contains_key(path@) && self@[path@] == t,
                None => !self@.contains_key(path@),
            },
    {
        let mut i: usize = self.entries.len();
        while i > 0
            invariant
                i <= self.entries@.len(),
                forall|j: int| i <= j < self.entries@.len() ==> self.entries@[j].0@ != path@,
            decreases i,
        {
            i = i - 1;
            if crate::text::str_eq(self.entries[i].0.as_str(), path) {
                proof {
                    lemma_cache_map_found(self.entries@, path@, i as int);
                }
                return Some(self.entries[i].1);
            }
        }
        proof {
            lemma_cache_map_absent(self.entries@, path@);
        }
        None
    }

    fn record(&mut self, path: &str, time: u64)
        ensures
            final(self)@ == old(self)@.insert(path@, time),
    {
        let ghost prev = self.entries@;
        let mut owned = String::new();
        owned.append(path);
        self.entries.push((owned, time));
        proof {
            assert(self.entries@.drop_last() =~= prev);
        }
    }
}

/// Whether a project must be rebuilt, given the cache and the manifest
/// modification times (`None` where the file is missing): with both
/// manifests absent a build is always assumed necessary; with no cache
/// record the first build is due; otherwise a build is due exactly when a
/// present manifest is newer than the recorded build time.
pub open spec fn rebuild_decision(
    cache: Map<Seq<char>, u64>,
    path: Seq<char>,
    package_mtime: Option<u64>,
    tsconfig_mtime: Option<u64>,
) -> bool {
    if package_mtime is None && tsconfig_mtime is None {
        true
    } else if cache.contains_key(path) {
        ||| (package_mtime is Some && package_mtime.unwrap() > cache[path])
        ||| (tsconfig_mtime is Some && tsconfig_mtime.unwrap() > cache[path])
    } else {
        true
    }
}

/// Decides whether the project at `project_path` must be rebuilt, and
/// records `now` as its build time when it must (except when both manifests
/// are missing, which skips the cache entirely as the decision needs no
/// record).
pub fn should_rebuild(
    cache: &mut BuildCache,
    project_path: &str,
    package_mtime: Option<u64>,
    tsconfig_mtime: Option<u64>,
    now: u64,
) -> (r: bool)
    ensures
        r == rebuild_decision(old(cache)@, project_path@, package_mtime, tsconfig_mtime),
        final(cache)@ == if r && !(package_mtime is None && tsconfig_mtime is None) {
            old(cache)@.insert(project_path@, now)
        } else {
            old(cache)@
        },
{
    if package_mtime.is_none() && tsconfig_mtime.is_none() {
        return true;
    }
    match cache.lookup(project_path) {
        Some(last_build) => {
            let mut needs_rebuild = false;
            match package_mtime {
                Some(t) => {
                    if t > last_build {
                        needs_rebuild = true;
                    }
                },
                None => {},
            }
            match tsconfig_mtime {
                Some(t) => {
                    if t > last_build {
                        needs_rebuild = true;
                    }
                },
                None => {},
            }
            if !needs_rebuild {
                return false;
            }
            cache.record(project_path, now);
            true
        },
        None => {
            cache.record(project_path, now);
            true
        },
    }
}

/// Law: once a rebuild check has run at time `now`, a second consecutive
/// check with unchanged manifests (whose modification times do not lie in
/// the future) reports that no rebuild is needed.
pub proof fn lemma_rebuild_idempotent(
    cache: Map<Seq<char>, u64>,
    path: Seq<char>,
    package_mtime: Option<u64>,
    tsconfig_mtime: Option<u64>,
    now: u64,
)
    requires
        package_mtime is Some || tsconfig_mtime is Some,
        package_mtime is Some ==> package_mtime.unwrap() <= now,
        tsconfig_mtime is Some ==> tsconfig_mtime.unwrap() <= now,
    ensures
        !rebuild_decision(
            if rebuild_decision(cache, path, package_mtime, tsconfig_mtime) {
                cache.insert(path, now)
            } else {
                cache
            },
            path,
            package_mtime,
            tsconfig_mtime,
        ),
{
}

/// How a needed build is attempted: through the package manager's build
/// script when the project has a manifest, else directly through the
/// compiler.
#[derive(Debug, Clone, Copy, PartialEq, Eq, Structural)]
pub enum BuildMethod {
    /// Run the package manager's build script.
    Npm,
    /// Invoke the compiler directly.
    Tsc,
}

/// Picks the build path: nothing when no rebuild is needed, the package
/// manager when a manifest is present, else the compiler directly.
pub fn plan_build(needs_rebuild: bool, has_package_json: bool) -> (r: Option<BuildMethod>)
    ensures
        r == if !needs_rebuild {
            None::<BuildMethod>
        } else if has_package_json {
            Some(BuildMethod::Npm)
        } else {
            Some(BuildMethod::Tsc)
        },
{
    if !needs_rebuild {
        None
    } else if has_package_json {
        Some(BuildMethod::Npm)
    } else {
        Some(BuildMethod::Tsc)
    }
}

/// What follows a package-manager build attempt.
#[derive(Debug)]
pub enum NpmBuildNext {
    /// The build succeeded; nothing more to do.
    Done,
    /// The build script failed; fall back to the compiler.
    FallBackToTsc,
    /// The build command could not even be spawned; terminal.
    Failed(String),
}

/// Classifies the package-manager build attempt: a spawn failure is
/// terminal, a non-zero exit falls back to the compiler.
pub fn npm_build_step(outcome: Result<ProcessOutcome, String>) -> (r: NpmBuildNext)
    ensures
        match outcome {
            Err(e) => r matches NpmBuildNext::Failed(m)
                && m@ == "Failed to execute build command: "@ + e@,
            Ok(o) => if o.success {
                r is Done
            } else {
                r is FallBackToTsc
            },
        },
{
    match outcome {
        Err(e) => {
            let mut m = String::new();
            m.append("Failed to execute build command: ");
            m.append(e.as_str());
            NpmBuildNext::Failed(m)
        },
        Ok(o) => {
            if o.success {
                NpmBuildNext::Done
            } else {
                NpmBuildNext::FallBackToTsc
            }
        },
    }
}

/// Classifies the direct compiler invocation: success ends the build, a
/// spawn failure or a non-zero exit is terminal and carries the diagnostics.
pub fn tsc_build_step(outcome: Result<ProcessOutcome, String>) -> (r: Result<(), String>)
    ensures
        match outcome {
            Err(e) => r matches Err(m) && m@ == "Failed to execute tsc: "@ + e@,
            Ok(o) => if o.success {
                r is Ok
            } else {
                r matches Err(m) && m@ == "TypeScript compilation failed:\n"@ + o.stderr@
            },
        },
{
    match outcome {
        Err(e) => {
            let mut m = String::new();
            m.append("Failed to execute tsc: ");
            m.append(e.as_str());
            Err(m)
        },
        Ok(o) => {
            if o.success {
                Ok(())
            } else {
                let mut m = String::new();
                m.append("TypeScript compilation failed:\n");
                m.append(o.stderr.as_str());
                Err(m)
            }
        },
    }
}

/// Wraps a build failure into the strategy's terminal error.
pub fn wrap_build_error(e: &str) -> (r: ScriptError)
    ensures
        r matches ScriptError::BuildFailed(m) && m@ == "TypeScript build failed: "@ + e@,
{
    let mut m = String::new();
    m.append("TypeScript build failed: ");
    m.append(e);
    ScriptError::BuildFailed(m)
}

/// One finished subprocess whose streams may not have decoded as text:
/// `Ok` carries the decoded stream, `Err` the decode failure's description.
pub struct RawRunOutcome {
    /// The process exited with status zero.
    pub success: bool,
    /// Standard output, decoded or not.
    pub stdout: Result<String, String>,
    /// Standard error, decoded or not.
    pub stderr: Result<String, String>,
}

/// Classifies a direct script run: on success the decoded standard output
/// is the result; a non-zero exit returns the decoded standard error; a
/// spawn failure or an undecodable stream is its own terminal error.
pub fn classify_direct_run(outcome: Result<RawRunOutcome, String>) -> (r: Result<String, ScriptError>)
    ensures
        match outcome {
            Err(e) => r matches Err(ScriptError::ProcessSpawnFailed(m))
                && m@ == "Failed to execute process: "@ + e@,
            Ok(o) => {
                if o.success {
                    match o.stdout {
                        Ok(out) => r matches Ok(res) && res@ == out@,
                        Err(e) => r matches Err(ScriptError::OutputDecodeFailed(m))
                            && m@ == "Failed to parse output: "@ + e@,
                    }
                } else {
                    match o.stderr {
                        Ok(err) => r matches Err(ScriptError::NonZeroExit(m)) && m@ == err@,
                        Err(e) => r matches Err(ScriptError::OutputDecodeFailed(m))
                            && m@ == "Failed to parse error: "@ + e@,
                    }
                }
            },
        },
{
    match outcome {
        Err(e) => {
            let mut m = String::new();
            m.append("Failed to execute process: ");
            m.append(e.as_str());
            Err(ScriptError::ProcessSpawnFailed(m))
        },
        Ok(o) => {
            if o.success {
                match o.stdout {
                    Ok(out) => Ok(out),
                    Err(e) => {
                        let mut m = String::new();
                        m.append("Failed to parse output: ");
                        m.append(e.as_str());
                        Err(ScriptError::OutputDecodeFailed(m))
                    },
                }
            } else {
                match o.stderr {
                    Ok(err) => Err(ScriptError::NonZeroExit(err)),
                    Err(e) => {
                        let mut m = String::new();
                        m.append("Failed to parse error: ");
                        m.append(e.as_str());
                        Err(ScriptError::OutputDecodeFailed(m))
                    },
                }
            }
        },
    }
}

/// What the direct TypeScript attempt yields: the result text on a clean
/// run — the output artifact's contents if the file exists, else the
/// captured standard output — and nothing on any failure, which means
/// falling back to the build pipeline.
pub open spec fn ts_direct_result_spec(
    outcome: &Result<ProcessOutcome, String>,
    save_contents: &Option<Result<String, String>>,
) -> Option<Seq<char>> {
    match outcome {
        Err(_) => None,
        Ok(o) => {
            if !o.success {
                None
            } else {
                match save_contents {
                    None => Some(o.stdout@),
                    Some(Ok(c)) => Some(c@),
                    Some(Err(_)) => None,
                }
            }
        },
    }
}

/// Classifies the first TypeScript attempt, the direct interpretation of the
/// source: any failure — a spawn error, a non-zero exit, or an unreadable
/// output artifact — means falling back to the build pipeline (`None`); on
/// success the result is the output artifact's contents if the file exists,
/// else the captured standard output.
pub fn ts_direct_step(
    outcome: Result<ProcessOutcome, String>,
    save_contents: Option<Result<String, String>>,
) -> (r: Option<String>)
    ensures
        match ts_direct_result_spec(&outcome, &save_contents) {
            Some(t) => r matches Some(res) && res@ == t,
            None => r is None,
        },
{
    match outcome {
        Err(_) => None,
        Ok(o) => {
            if !o.success {
                None
            } else {
                match save_contents {
                    None => Some(o.stdout),
                    Some(Ok(c)) => Some(c),
                    Some(Err(_)) => None,
                }
            }
        },
    }
}

/// What the compiled run is judged to be: it succeeds with an empty
/// standard error, a standard output clean of the recognized failure
/// markers, a zero exit, and a readable output artifact, whose contents
/// are then the result.
pub open spec fn compiled_run_decision(
    outcome: &ProcessOutcome,
    save_path: Seq<char>,
    save_contents: &Option<Result<String, String>>,
    r: &Result<String, ScriptError>,
) -> bool {
    let marked = contains_seq(outcome.stdout@, "SyntaxError"@) || contains_seq(
        outcome.stdout@,
        "Failed to"@,
    );
    if outcome.stderr@.len() > 0 {
        r matches Err(ScriptError::NonZeroExit(m)) && m@ == "Node script error: "@ + outcome.stderr@
    } else if marked {
        r matches Err(ScriptError::NonZeroExit(m))
            && m@ == "Node script stdout error: "@ + outcome.stdout@
    } else if outcome.success {
        match save_contents {
            None => r matches Err(ScriptError::MissingResultFile(m))
                && m@ == "Result file not created: "@ + save_path,
            Some(Ok(c)) => r matches Ok(res) && res@ == c@,
            Some(Err(e)) => r matches Err(ScriptError::MissingResultFile(m))
                && m@ == "Failed to read result file: "@ + e@,
        }
    } else {
        r matches Err(ScriptError::NonZeroExit(m))
            && m@ == "Node script failed with non-zero exit code"@
    }
}

/// The compiled run succeeds only with an empty standard error, a standard
/// output free of the recognized failure markers, a zero exit, and an
/// existing, readable output artifact — whose contents are then the result.
pub fn classify_compiled_run(
    outcome: ProcessOutcome,
    save_path: &str,
    save_contents: Option<Result<String, String>>,
) -> (r: Result<String, ScriptError>)
    ensures
        compiled_run_decision(&outcome, save_path@, &save_contents, &r),
{
    if !outcome.stderr.as_str().is_empty() {
        let mut m = String::new();
        m.append("Node script error: ");
        m.append(outcome.stderr.as_str());
        return Err(ScriptError::NonZeroExit(m));
    }
    if str_contains(outcome.stdout.as_str(), "SyntaxError") || str_contains(
        outcome.stdout.as_str(),
        "Failed to",
    ) {
        let mut m = String::new();
        m.append("Node script stdout error: ");
        m.append(outcome.stdout.as_str());
        return Err(ScriptError::NonZeroExit(m));
    }
    if outcome.success {
        match save_contents {
            None => {
                let mut m = String::new();
                m.append("Result file not created: ");
                m.append(save_path);
                Err(ScriptError::MissingResultFile(m))
            },
            Some(Ok(c)) => Ok(c),
            Some(Err(e)) => {
                let mut m = String::new();
                m.append("Failed to read result file: ");
                m.append(e.as_str());
                Err(ScriptError::MissingResultFile(m))
            },
        }
    } else {
        let mut m = String::new();
        m.append("Node script failed with non-zero exit code");
        Err(ScriptError::NonZeroExit(m))
    }
}

/// Classifies a browser-test run: on success the output artifact's contents
/// if present, else the captured standard output; a non-zero exit is
/// terminal and carries the standard error.
pub fn classify_browser_test_run(
    outcome: ProcessOutcome,
    save_contents: Option<Result<String, String>>,
) -> (r: Result<String, ScriptError>)
    ensures
        ({
            if outcome.success {
                match save_contents {
                    None => r matches Ok(res) && res@ == outcome.stdout@,
                    Some(Ok(c)) => r matches Ok(res) && res@ == c@,
                    Some(Err(e)) => r matches Err(ScriptError::MissingResultFile(m))
                        && m@ == "Failed to read result file: "@ + e@,
                }
            } else {
                r matches Err(ScriptError::NonZeroExit(m))
                    && m@ == "Playwright execution failed: "@ + outcome.stderr@
            }
        }),
{
    if outcome.success {
        match save_contents {
            None => Ok(outcome.stdout),
            Some(Ok(c)) => Ok(c),
            Some(Err(e)) => {
                let mut m = String::new();
                m.append("Failed to read result file: ");
                m.append(e.as_str());
                Err(ScriptError::MissingResultFile(m))
            },
        }
    } else {
        let mut m = String::new();
        m.append("Playwright execution failed: ");
        m.append(outcome.stderr.as_str());
        Err(ScriptError::NonZeroExit(m))
    }
}

/// Where one TypeScript run stands: first the direct interpretation of the
/// source is tried; any failure there falls back to building the project and
/// running the compiled output. The run is terminal on the first success or
/// on the final fallback's failure.
#[derive(Debug)]
pub enum TsPipelineState {
    /// About to try the direct interpretation of the source.
    TryDirect,
    /// The direct attempt failed; about to build the project.
    Building,
    /// The build finished; about to run the compiled output.
    RunCompiled,
    /// Terminal: the run's result.
    Done(Result<String, ScriptError>),
}

/// What the world reports back to the pipeline after each action.
#[derive(Debug)]
pub enum TsPipelineEvent {
    /// The direct attempt finished: the process outcome (or spawn failure)
    /// and the output artifact's contents if the file exists.
    DirectFinished(Result<ProcessOutcome, String>, Option<Result<String, String>>),
    /// The build attempt finished, already reduced to its verdict.
    BuildFinished(Result<(), String>),
    /// The expected compiled file is not where the path mapping says.
    CompiledFileMissing(String),
    /// The compiled run finished: its outcome, the output artifact path, and
    /// that artifact's contents if the file exists.
    CompiledFinished(ProcessOutcome, String, Option<Result<String, String>>),
}

/// Advances the TypeScript pipeline by one observed event. An event meant
/// for another stage leaves the state alone, and a terminal state absorbs
/// everything.
pub fn ts_pipeline_step(state: TsPipelineState, event: TsPipelineEvent) -> (r: TsPipelineState)
    ensures
        match event {
            TsPipelineEvent::DirectFinished(outcome, save) => {
                if state is TryDirect {
                    match ts_direct_result_spec(&outcome, &save) {
                        Some(t) => r matches TsPipelineState::Done(Ok(res)) && res@ == t,
                        None => r is Building,
                    }
                } else {
                    r == state
                }
            },
            TsPipelineEvent::BuildFinished(verdict) => {
                if state is Building {
                    match verdict {
                        Ok(_) => r is RunCompiled,
                        Err(e) => r matches TsPipelineState::Done(
                            Err(ScriptError::BuildFailed(m)),
                        ) && m@ == "TypeScript build failed: "@ + e@,
                    }
                } else {
                    r == state
                }
            },
            TsPipelineEvent::CompiledFileMissing(path) => {
                if state is RunCompiled {
                    r matches TsPipelineState::Done(Err(ScriptError::BuildFailed(m))) && m@
                        == "Compiled JS file not found: "@ + path@
                } else {
                    r == state
                }
            },
            TsPipelineEvent::CompiledFinished(outcome, save_path, save) => {
                if state is RunCompiled {
                    r matches TsPipelineState::Done(res) && compiled_run_decision(
                        &outcome,
                        save_path@,
                        &save,
                        &res,
                    )
                } else {
                    r == state
                }
            },
        },
{
    match event {
        TsPipelineEvent::DirectFinished(outcome, save) => {
            match state {
                TsPipelineState::TryDirect => {
                    match ts_direct_step(outcome, save) {
                        Some(result) => TsPipelineState::Done(Ok(result)),
                        None => TsPipelineState::Building,
                    }
                },
                other => other,
            }
        },
        TsPipelineEvent::BuildFinished(verdict) => {
            match state {
                TsPipelineState::Building => {
                    match verdict {
                        Ok(_) => TsPipelineState::RunCompiled,
                        Err(e) => TsPipelineState::Done(Err(wrap_build_error(e.as_str()))),
                    }
                },
                other => other,
            }
        },
        TsPipelineEvent::CompiledFileMissing(path) => {
            match state {
                TsPipelineState::RunCompiled => {
                    let mut m = String::new();
                    m.append("Compiled JS file not found: ");
                    m.append(path.as_str());
                    TsPipelineState::Done(Err(ScriptError::BuildFailed(m)))
                },
                other => other,
            }
        },
        TsPipelineEvent::CompiledFinished(outcome, save_path, save) => {
            match state {
                TsPipelineState::RunCompiled => {
                    TsPipelineState::Done(classify_compiled_run(outcome, save_path.as_str(), save))
                },
                other => other,
            }
        },
    }
}

/// Checks that the project manifest declares the test-runner dependency:
/// the manifest must exist, be readable, and mention it.
pub fn check_browser_test_deps(package_json: Option<Result<String, String>>) -> (r: Result<
    (),
    ScriptError,
>)
    ensures
        match package_json {
            None => r matches Err(ScriptError::DependencyMissing(m))
                && m@ == "package.json not found in project"@,
            Some(Err(e)) => r matches Err(ScriptError::DependencyMissing(m))
                && m@ == "Failed to read package.json: "@ + e@,
            Some(Ok(content)) => {
                if contains_seq(content@, "playwright"@) {
                    r is Ok
                } else {
                    r matches Err(ScriptError::DependencyMissing(m))
                        && m@ == "Playwright not found in package.json dependencies"@
                }
            },
        },
{
    match package_json {
        None => {
            let mut m = String::new();
            m.append("package.json not found in project");
            Err(ScriptError::DependencyMissing(m))
        },
        Some(Err(e)) => {
            let mut m = String::new();
            m.append("Failed to read package.json: ");
            m.append(e.as_str());
            Err(ScriptError::DependencyMissing(m))
        },
        Some(Ok(content)) => {
            if str_contains(content.as_str(), "playwright") {
                Ok(())
            } else {
                let mut m = String::new();
                m.append("Playwright not found in package.json dependencies");
                Err(ScriptError::DependencyMissing(m))
            }
        },
    }
}

/// Checks that the project root exists before the TypeScript pipeline runs.
pub fn require_project_path(project_path: &str, exists: bool) -> (r: Result<(), ScriptError>)
    ensures
        r is Ok <==> exists,
        match r {
            Ok(_) => true,
            Err(e) => e matches ScriptError::ProjectPathMissing(m)
                && m@ == "Project path does not exist: "@ + project_path@,
        },
{
    if exists {
        Ok(())
    } else {
        let mut m = String::new();
        m.append("Project path does not exist: ");
        m.append(project_path);
        Err(ScriptError::ProjectPathMissing(m))
    }
}

/// The script interpreter's executable name.
pub fn node_command() -> (r: String)
    ensures
        r@ == "node"@,
{
    let mut s = String::new();
    s.append("node");
    s
}

/// The package manager's executable name on the given platform.
pub fn npm_command(on_windows: bool) -> (r: String)
    ensures
        r@ == if on_windows {
            "npm.cmd"@
        } else {
            "npm"@
        },
{
    let mut s = String::new();
    if on_windows {
        s.append("npm.cmd");
    } else {
        s.append("npm");
    }
    s
}

/// The compiler's executable name on the given platform.
pub fn tsc_command(on_windows: bool) -> (r: String)
    ensures
        r@ == if on_windows {
            "tsc.cmd"@
        } else {
            "tsc"@
        },
{
    let mut s = String::new();
    if on_windows {
        s.append("tsc.cmd");
    } else {
        s.append("tsc");
    }
    s
}

/// The direct TypeScript runner's executable name on the given platform.
pub fn ts_node_command(on_windows: bool) -> (r: String)
    ensures
        r@ == if on_windows {
            "ts-node.cmd"@
        } else {
            "ts-node"@
        },
{
    let mut s = String::new();
    if on_windows {
        s.append("ts-node.cmd");
    } else {
        s.append("ts-node");
    }
    s
}

/// The package runner's executable name on the given platform.
pub fn npx_command(on_windows: bool) -> (r: String)
    ensures
        r@ == if on_windows {
            "npx.cmd"@
        } else {
            "npx"@
        },
{
    let mut s = String::new();
    if on_windows {
        s.append("npx.cmd");
    } else {
        s.append("npx");
    }
    s
}

/// The package manager's build invocation.
pub fn npm_build_args() -> (r: Vec<String>)
    ensures
        r@.len() == 2,
        r@[0]@ == "run"@,
        r@[1]@ == "build"@,
{
    let mut v: Vec<String> = Vec::new();
    let mut a = String::new();
    a.append("run");
    v.push(a);
    let mut b = String::new();
    b.append("build");
    v.push(b);
    v
}

/// The compiler flags used when the project brings no compiler
/// configuration of its own: target, module and resolution settings with a
/// fixed output directory.
pub fn default_tsc_args() -> (r: Vec<String>)
    ensures
        r@.len() == 13,
        r@[0]@ == "--outDir"@,
        r@[1]@ == "dist"@,
        r@[2]@ == "--target"@,
        r@[3]@ == "ES2020"@,
        r@[4]@ == "--module"@,
        r@[5]@ == "CommonJS"@,
        r@[6]@ == "--moduleResolution"@,
        r@[7]@ == "node"@,
        r@[8]@ == "--esModuleInterop"@,
        r@[9]@ == "--allowSyntheticDefaultImports"@,
        r@[10]@ == "--strict"@,
        r@[11]@ == "--skipLibCheck"@,
        r@[12]@ == "**/*.ts"@,
{
    let mut v: Vec<String> = Vec::new();
    let mut a0 = String::new();
    a0.append("--outDir");
    v.push(a0);
    let mut a1 = String::new();
    a1.append("dist");
    v.push(a1);
    let mut a2 = String::new();
    a2.append("--target");
    v.push(a2);
    let mut a3 = String::new();
    a3.append("ES2020");
    v.push(a3);
    let mut a4 = String::new();
    a4.append("--module");
    v.push(a4);
    let mut a5 = String::new();
    a5.append("CommonJS");
    v.push(a5);
    let mut a6 = String::new();
    a6.append("--moduleResolution");
    v.push(a6);
    let mut a7 = String::new();
    a7.append("node");
    v.push(a7);
    let mut a8 = String::new();
    a8.append("--esModuleInterop");
    v.push(a8);
    let mut a9 = String::new();
    a9.append("--allowSyntheticDefaultImports");
    v.push(a9);
    let mut a10 = String::new();
    a10.append("--strict");
    v.push(a10);
    let mut a11 = String::new();
    a11.append("--skipLibCheck");
    v.push(a11);
    let mut a12 = String::new();
    a12.append("**/*.ts");
    v.push(a12);
    v
}

/// The browser-test runner's invocation for one relative script path, with
/// the machine-readable report flag.
pub fn browser_test_args(relative_path: &str) -> (r: Vec<String>)
    ensures
        r@.len() == 4,
        r@[0]@ == "playwright"@,
        r@[1]@ == "test"@,
        r@[2]@ == relative_path@,
        r@[3]@ == "--reporter=json"@,
{
    let mut v: Vec<String> = Vec::new();
    let mut a0 = String::new();
    a0.append("playwright");
    v.push(a0);
    let mut a1 = String::new();
    a1.append("test");
    v.push(a1);
    let mut a2 = String::new();
    a2.append(relative_path);
    v.push(a2);
    let mut a3 = String::new();
    a3.append("--reporter=json");
    v.push(a3);
    v
}

/// The exact text persisted to `output.txt`: both captured streams behind
/// their literal section markers.
pub open spec fn log_text_spec(stdout: Seq<char>, stderr: Seq<char>) -> Seq<char> {
    "=== STDOUT ===\n"@ + stdout + "\n\n=== STDERR ===\n"@ + stderr
}

/// Renders the persistent execution log for one run.
pub fn build_log_text(stdout: &str, stderr: &str) -> (r: String)
    ensures
        r@ == log_text_spec(stdout@, stderr@),
{
    let mut s = String::new();
    s.append("=== STDOUT ===\n");
    s.append(stdout);
    s.append("\n\n=== STDERR ===\n");
    s.append(stderr);
    s
}

} // verus!
