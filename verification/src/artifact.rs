//! The artifact store: where a run's input payload and a script's output
//! live on disk, and what is known of them.
//!
//! A run writes its input payload to
//! `<local-data>/TTOL/log/<project>/<page>/<run_id>/<node_name>.json`; a
//! script or browser-test run answers through the sibling
//! `<node_name>_save.json`, and the captured process output goes to
//! `output.txt` in the same run directory. The path arithmetic is verified
//! here; the filesystem calls that realize it live outside the library and
//! hand payloads through unchanged. `ArtifactStore` is the verified model of
//! that tree: a map from path to payload, on which writing and reading back
//! are proved to round-trip byte for byte.

use vstd::prelude::*;
use vstd::string::StringExecFns;
use crate::text::str_eq;

verus! {

/// The log directory for one project and page under the local-data root.
pub open spec fn log_dir_spec(root: Seq<char>, project: Seq<char>, page: Seq<char>) -> Seq<char> {
    root + "/TTOL/log/"@ + project + "/"@ + page
}

/// Builds the log directory path for a project/page pair.
pub fn log_dir_path(root: &str, project: &str, page: &str) -> (r: String)
    ensures
        r@ == log_dir_spec(root@, project@, page@),
{
    let mut s = String::new();
    s.append(root);
    s.append("/TTOL/log/");
    s.append(project);
    s.append("/");
    s.append(page);
    s
}

/// The directory of one run inside a log directory.
pub open spec fn run_dir_spec(dir: Seq<char>, run_id: Seq<char>) -> Seq<char> {
    dir + "/"@ + run_id
}

/// The input artifact path for a node inside its run directory.
pub open spec fn input_artifact_spec(dir: Seq<char>, run_id: Seq<char>, node_name: Seq<char>) -> Seq<char> {
    run_dir_spec(dir, run_id) + "/"@ + node_name + ".json"@
}

/// The output artifact path (`<node_name>_save.json`) beside the input artifact.
pub open spec fn save_artifact_spec(dir: Seq<char>, run_id: Seq<char>, node_name: Seq<char>) -> Seq<char> {
    run_dir_spec(dir, run_id) + "/"@ + node_name + "_save.json"@
}

/// The captured-output log path (`output.txt`) inside a run directory.
pub open spec fn output_log_spec(run_dir: Seq<char>) -> Seq<char> {
    run_dir + "/output.txt"@
}

/// Builds the run directory path.
pub fn run_dir_path(dir: &str, run_id: &str) -> (r: String)
    ensures
        r@ == run_dir_spec(dir@, run_id@),
{
    let mut s = String::new();
    s.append(dir);
    s.append("/");
    s.append(run_id);
    s
}

/// Builds the input artifact path for one node run.
pub fn input_artifact_path(dir: &str, run_id: &str, node_name: &str) -> (r: String)
    ensures
        r@ == input_artifact_spec(dir@, run_id@, node_name@),
{
    let mut s = run_dir_path(dir, run_id);
    s.append("/");
    s.append(node_name);
    s.append(".json");
    s
}

/// Builds the output artifact path for one node run.
pub fn save_artifact_path(dir: &str, run_id: &str, node_name: &str) -> (r: String)
    ensures
        r@ == save_artifact_spec(dir@, run_id@, node_name@),
{
    let mut s = run_dir_path(dir, run_id);
    s.append("/");
    s.append(node_name);
    s.append("_save.json");
    s
}

/// Builds the captured-output log path for a run directory.
pub fn output_log_path(run_dir: &str) -> (r: String)
    ensures
        r@ == output_log_spec(run_dir@),
{
    let mut s = String::new();
    s.append(run_dir);
    s.append("/output.txt");
    s
}

/// What a sequence of write records means: a map from path to the payload
/// most recently written there.
pub open spec fn store_map(entries: Seq<(String, String)>) -> Map<Seq<char>, Seq<char>>
    decreases entries.len(),
{
    if entries.len() == 0 {
        Map::empty()
    } else {
        store_map(entries.drop_last()).insert(entries.last().0@, entries.last().1@)
    }
}

/// The verified model of the artifact tree: payloads keyed by path, with the
/// latest write winning. Writing and reading against it round-trip byte for
/// byte; the filesystem realization outside the library mirrors these
/// operations one for one.
pub struct ArtifactStore {
    entries: Vec<(String, String)>,
}

impl View for ArtifactStore {
    type V = Map<Seq<char>, Seq<char>>;

    closed spec fn view(&self) -> Map<Seq<char>, Seq<char>> {
        store_map(self.entries@)
    }
}

proof fn lemma_store_map_found(entries: Seq<(String, String)>, k: Seq<char>, i: int)
    requires
        0 <= i < entries.len(),
        entries[i].0@ == k,
        forall|j: int| i < j < entries.len() ==> entries[j].0@ != k,
    ensures
        store_map(entries).contains_key(k),
        store_map(entries)[k] == entries[i].1@,
    decreases entries.len(),
{
    if i == entries.len() - 1 {
    } else {
        lemma_store_map_found(entries.drop_last(), k, i);
    }
}

proof fn lemma_store_map_absent(entries: Seq<(String, String)>, k: Seq<char>)
    requires
        forall|j: int| 0 <= j < entries.len() ==> entries[j].0@ != k,
    ensures
        !store_map(entries).contains_key(k),
    decreases entries.len(),
{
    if entries.len() > 0 {
        lemma_store_map_absent(entries.drop_last(), k);
    }
}

impl ArtifactStore {
    /// An empty artifact store.
    pub fn new() -> (r: ArtifactStore)
        ensures
            r@ == Map::<Seq<char>, Seq<char>>::empty(),
    {
        ArtifactStore { entries: Vec::new() }
    }

    /// Records a payload under a path, replacing what was there.
    pub fn record(&mut self, path: String, payload: String)
        ensures
            final(self)@ == old(self)@.insert(path@, payload@),
    {
        let ghost prev = self.entries@;
        self.entries.push((path, payload));
        proof {
            assert(self.entries@.drop_last() =~= prev);
        }
    }

    /// Fetches the payload recorded under a path, if any.
    pub fn fetch(&self, path: &str) -> (r: Option<&String>)
        ensures
            match r {
                Some(p) => self@.contains_key(path@) && p@ == self@[path@],
                None => !self@.contains_key(path@),
            },
    {
        let mut i: usize = self.entries.len();
        while i > 0
            invariant
                i <= self.entries@.len(),
                forall|j: int| i <= j < self.entries@.len() ==> self.entries@[j].0@ != path@,
            decreases i,
        {
            i = i - 1;
            if str_eq(self.entries[i].0.as_str(), path) {
                proof {
                    lemma_store_map_found(self.entries@, path@, i as int);
                }
                return Some(&self.entries[i].1);
            }
        }
        proof {
            lemma_store_map_absent(self.entries@, path@);
        }
        None
    }

    /// Records a run's input payload under the path the engine derives from
    /// the run id and node name, and returns that path. The payload is kept
    /// exactly as supplied.
    pub fn record_request(&mut self, dir: &str, node_name: &str, payload: String, run_id: &str) -> (r: String)
        ensures
            r@ == input_artifact_spec(dir@, run_id@, node_name@),
            final(self)@ == old(self)@.insert(input_artifact_spec(dir@, run_id@, node_name@), payload@),
    {
        let path = input_artifact_path(dir, run_id, node_name);
        let path_copy = path.clone();
        self.record(path, payload);
        path_copy
    }
}

/// Law: runs under different run ids never collide — the input artifact
/// paths they derive from the same log directory and node name differ.
pub proof fn lemma_run_isolation(
    dir: Seq<char>,
    run_a: Seq<char>,
    run_b: Seq<char>,
    node_name: Seq<char>,
)
    requires
        run_a != run_b,
    ensures
        input_artifact_spec(dir, run_a, node_name) != input_artifact_spec(dir, run_b, node_name),
{
    reveal_strlit("/");
    reveal_strlit(".json");
    let a = input_artifact_spec(dir, run_a, node_name);
    let b = input_artifact_spec(dir, run_b, node_name);
    if a == b {
        assert(a.len() == b.len());
        assert(run_a.len() == run_b.len());
        assert forall|i: int| 0 <= i < run_a.len() implies run_a[i] == run_b[i] by {
            let at = dir.len() + 1 + i;
            let rd_a = run_dir_spec(dir, run_a);
            let rd_b = run_dir_spec(dir, run_b);
            assert(rd_a[at] == run_a[i]);
            assert(rd_b[at] == run_b[i]);
            assert(a[at] == rd_a[at]);
            assert(b[at] == rd_b[at]);
        }
        assert(run_a =~= run_b);
    }
}

/// Law: writing an artifact and then reading the same path yields exactly the
/// payload that was written, for every prior store content.
pub proof fn lemma_artifact_round_trip(
    store: Map<Seq<char>, Seq<char>>,
    path: Seq<char>,
    payload: Seq<char>,
)
    ensures
        store.insert(path, payload).contains_key(path),
        store.insert(path, payload)[path] == payload,
{
}

} // verus!
