//! Project bookkeeping decisions: the access and project type
//! vocabularies with their wire names, project type detection from the
//! manifest files a probe found, and the path-permission test. The
//! filesystem probes and the persisted configuration live outside the
//! library.

use vstd::prelude::*;
use vstd::string::StringExecFns;
use crate::text::{contains_seq, str_contains, str_eq, starts_with_seq, str_starts_with, chars_of};
use crate::paths::is_sep;

verus! {

/// How a project or path may be accessed.
#[derive(Debug, Clone, Copy, PartialEq, Eq, Structural)]
pub enum ProjectAccessType {
    /// Read-only access.
    Read,
    /// Write-only access.
    Write,
    /// Full access.
    ReadWrite,
}

/// What kind of project a path holds.
#[derive(Debug, Clone)]
pub enum ProjectType {
    /// A plain Node.js project.
    NodeJs,
    /// A Python project.
    Python,
    /// A Rust project.
    Rust,
    /// A TypeScript project.
    TypeScript,
    /// A JavaScript project.
    JavaScript,
    /// A React project.
    React,
    /// A Vue project.
    Vue,
    /// An Angular project.
    Angular,
    /// Anything else, under its own name.
    Other(String),
}

/// The wire name of each access type.
pub open spec fn access_type_of(s: Seq<char>) -> Option<ProjectAccessType> {
    if s == "read"@ {
        Some(ProjectAccessType::Read)
    } else if s == "write"@ {
        Some(ProjectAccessType::Write)
    } else if s == "readwrite"@ {
        Some(ProjectAccessType::ReadWrite)
    } else {
        None
    }
}

/// Parses an access type's wire name.
pub fn access_type_from_str(s: &str) -> (r: Option<ProjectAccessType>)
    ensures
        r == access_type_of(s@),
{
    if str_eq(s, "read") {
        Some(ProjectAccessType::Read)
    } else if str_eq(s, "write") {
        Some(ProjectAccessType::Write)
    } else if str_eq(s, "readwrite") {
        Some(ProjectAccessType::ReadWrite)
    } else {
        None
    }
}

/// Whether a project type value carries the given wire name.
pub open spec fn project_type_matches(t: &ProjectType, s: Seq<char>) -> bool {
    match t {
        ProjectType::NodeJs => s == "nodejs"@,
        ProjectType::Python => s == "python"@,
        ProjectType::Rust => s == "rust"@,
        ProjectType::TypeScript => s == "typescript"@,
        ProjectType::JavaScript => s == "javascript"@,
        ProjectType::React => s == "react"@,
        ProjectType::Vue => s == "vue"@,
        ProjectType::Angular => s == "angular"@,
        ProjectType::Other(name) => !(s == "nodejs"@ || s == "python"@ || s == "rust"@ || s
            == "typescript"@ || s == "javascript"@ || s == "react"@ || s == "vue"@ || s
            == "angular"@) && name@ == s,
    }
}

/// Parses a project type's wire name; an unknown name stands for itself.
pub fn project_type_from_str(s: &str) -> (r: ProjectType)
    ensures
        project_type_matches(&r, s@),
{
    if str_eq(s, "nodejs") {
        ProjectType::NodeJs
    } else if str_eq(s, "python") {
        ProjectType::Python
    } else if str_eq(s, "rust") {
        ProjectType::Rust
    } else if str_eq(s, "typescript") {
        ProjectType::TypeScript
    } else if str_eq(s, "javascript") {
        ProjectType::JavaScript
    } else if str_eq(s, "react") {
        ProjectType::React
    } else if str_eq(s, "vue") {
        ProjectType::Vue
    } else if str_eq(s, "angular") {
        ProjectType::Angular
    } else {
        let mut name = String::new();
        name.append(s);
        ProjectType::Other(name)
    }
}

/// The wire name a project type value goes out under.
pub open spec fn project_type_key_spec(t: &ProjectType) -> Seq<char> {
    match t {
        ProjectType::NodeJs => "nodejs"@,
        ProjectType::Python => "python"@,
        ProjectType::Rust => "rust"@,
        ProjectType::TypeScript => "typescript"@,
        ProjectType::JavaScript => "javascript"@,
        ProjectType::React => "react"@,
        ProjectType::Vue => "vue"@,
        ProjectType::Angular => "angular"@,
        ProjectType::Other(name) => name@,
    }
}

/// Renders a project type's wire name.
pub fn project_type_key(t: &ProjectType) -> (r: String)
    ensures
        r@ == project_type_key_spec(t),
{
    let mut s = String::new();
    match t {
        ProjectType::NodeJs => s.append("nodejs"),
        ProjectType::Python => s.append("python"),
        ProjectType::Rust => s.append("rust"),
        ProjectType::TypeScript => s.append("typescript"),
        ProjectType::JavaScript => s.append("javascript"),
        ProjectType::React => s.append("react"),
        ProjectType::Vue => s.append("vue"),
        ProjectType::Angular => s.append("angular"),
        ProjectType::Other(name) => s.append(name.as_str()),
    }
    s
}

/// What the manifest probes decide a project to be: a readable `package.json`
/// is searched for the framework markers in fixed order, an unreadable one
/// still means a Node.js project; otherwise the Rust and Python manifests
/// decide; anything else is unknown.
pub open spec fn detected_type_spec(
    has_package_json: bool,
    package_json: Option<String>,
    has_cargo_toml: bool,
    has_python_manifest: bool,
) -> &'static str {
    if has_package_json {
        match package_json {
            Some(c) => {
                if contains_seq(c@, "\"react\""@) {
                    "react"
                } else if contains_seq(c@, "\"vue\""@) {
                    "vue"
                } else if contains_seq(c@, "\"@angular\""@) {
                    "angular"
                } else if contains_seq(c@, "\"typescript\""@) {
                    "typescript"
                } else {
                    "nodejs"
                }
            },
            None => "nodejs",
        }
    } else if has_cargo_toml {
        "rust"
    } else if has_python_manifest {
        "python"
    } else {
        "unknown"
    }
}

/// Detects the project type from the manifest probes: `package_json` holds
/// the manifest's content where it exists and could be read.
pub fn detect_project_type(
    has_package_json: bool,
    package_json: Option<String>,
    has_cargo_toml: bool,
    has_python_manifest: bool,
) -> (r: ProjectType)
    ensures
        ({
            let key = detected_type_spec(
                has_package_json,
                package_json,
                has_cargo_toml,
                has_python_manifest,
            );
            match r {
                ProjectType::React => key == "react",
                ProjectType::Vue => key == "vue",
                ProjectType::Angular => key == "angular",
                ProjectType::TypeScript => key == "typescript",
                ProjectType::NodeJs => key == "nodejs",
                ProjectType::Rust => key == "rust",
                ProjectType::Python => key == "python",
                ProjectType::Other(name) => key == "unknown" && name@ == "Unknown"@,
                _ => false,
            }
        }),
{
    if has_package_json {
        match package_json {
            Some(c) => {
                if str_contains(c.as_str(), "\"react\"") {
                    ProjectType::React
                } else if str_contains(c.as_str(), "\"vue\"") {
                    ProjectType::Vue
                } else if str_contains(c.as_str(), "\"@angular\"") {
                    ProjectType::Angular
                } else if str_contains(c.as_str(), "\"typescript\"") {
                    ProjectType::TypeScript
                } else {
                    ProjectType::NodeJs
                }
            },
            None => ProjectType::NodeJs,
        }
    } else if has_cargo_toml {
        ProjectType::Rust
    } else if has_python_manifest {
        ProjectType::Python
    } else {
        let mut name = String::new();
        name.append("Unknown");
        ProjectType::Other(name)
    }
}

/// A path lies under an allowed path: equality, or a prefix that ends on a
/// component boundary.
pub open spec fn under_allowed_path(path: Seq<char>, allowed: Seq<char>) -> bool {
    path == allowed || (starts_with_seq(path, allowed) && (path.len() == allowed.len() || is_sep(
        path[allowed.len() as int],
    ) || (allowed.len() > 0 && is_sep(allowed.last()))))
}

/// Whether a path is allowed: it must equal one of the allowed paths or lie
/// beneath one of them.
pub fn is_path_allowed(allowed_paths: &Vec<String>, path: &str) -> (r: bool)
    ensures
        r == exists|i: int|
            0 <= i < allowed_paths@.len() && under_allowed_path(
                path@,
                #[trigger] allowed_paths@[i]@,
            ),
{
    let pv = chars_of(path);
    let n = pv.len();
    let mut i: usize = 0;
    while i < allowed_paths.len()
        invariant
            i <= allowed_paths@.len(),
            n == path@.len(),
            pv@ == path@,
            forall|j: int|
                0 <= j < i ==> !under_allowed_path(path@, #[trigger] allowed_paths@[j]@),
        decreases allowed_paths@.len() - i,
    {
        let ap = &allowed_paths[i];
        if str_eq(ap.as_str(), path) {
            return true;
        }
        if str_starts_with(path, ap.as_str()) {
            let alen = ap.as_str().unicode_len();
            if n == alen {
                proof {
                    assert(path@ =~= allowed_paths@[i as int]@);
                }
                return true;
            }
            let boundary = pv[alen];
            if boundary == '/' || boundary == '\\' {
                return true;
            }
            if alen > 0 {
                let av = chars_of(ap.as_str());
                let lastc = av[alen - 1];
                if lastc == '/' || lastc == '\\' {
                    return true;
                }
            }
        }
        i = i + 1;
    }
    false
}

/// What a probe of the client library's installation reports.
pub struct OracleInstallStatus {
    /// A client library was found.
    pub installed: bool,
    /// Its recorded version, where the application installed it itself.
    pub version: Option<String>,
    /// Where it lives, where the application installed it itself.
    pub path: Option<String>,
}

/// Builds the installation report: an application-local installation wins
/// and carries its recorded version and path; otherwise an installation on
/// the system's library path counts, anonymous; else nothing is installed.
pub fn oracle_install_status(
    app_path: &str,
    app_path_exists: bool,
    version_file: Option<String>,
    system_has_oracle: bool,
) -> (r: OracleInstallStatus)
    ensures
        app_path_exists ==> r.installed && (match version_file {
            Some(v) => r.version matches Some(rv) && rv@ == v@,
            None => r.version is None,
        }) && (r.path matches Some(p) && p@ == app_path@),
        !app_path_exists && system_has_oracle ==> r.installed && r.version is None && r.path is None,
        !app_path_exists && !system_has_oracle ==> !r.installed && r.version is None
            && r.path is None,
{
    if app_path_exists {
        let mut p = String::new();
        p.append(app_path);
        OracleInstallStatus { installed: true, version: version_file, path: Some(p) }
    } else if system_has_oracle {
        OracleInstallStatus { installed: true, version: None, path: None }
    } else {
        OracleInstallStatus { installed: false, version: None, path: None }
    }
}

/// Whether an environment path value mentions the client library.
pub open spec fn mentions_oracle(lowered: Seq<char>) -> bool {
    contains_seq(lowered, "instantclient"@) || contains_seq(lowered, "oracle"@)
}

/// ASCII lower-case folding of one character.
pub open spec fn to_lower_char(c: char) -> char {
    if 'A' <= c && c <= 'Z' {
        ((c as int) + 32) as char
    } else {
        c
    }
}

fn lower_chars(v: &Vec<char>) -> (out: Vec<char>)
    ensures
        out@ == v@.map_values(|c: char| to_lower_char(c)),
{
    let mut out: Vec<char> = Vec::new();
    let mut i: usize = 0;
    while i < v.len()
        invariant
            i <= v@.len(),
            out@ == v@.subrange(0, i as int).map_values(|c: char| to_lower_char(c)),
        decreases v@.len() - i,
    {
        let c = v[i];
        let cl: char = if 'A' <= c && c <= 'Z' {
            ((c as u32) + 32) as u8 as char
        } else {
            c
        };
        proof {
            assert(cl == to_lower_char(v@[i as int]));
        }
        out.push(cl);
        proof {
            assert(out@ =~= v@.subrange(0, i + 1).map_values(|c: char| to_lower_char(c)));
        }
        i = i + 1;
    }
    proof {
        assert(v@.subrange(0, v@.len() as int) =~= v@);
    }
    out
}

/// Tests whether a search-path value mentions the client library, letter
/// case aside.
pub fn env_mentions_oracle(env_value: &str) -> (r: bool)
    ensures
        r == mentions_oracle(env_value@.map_values(|c: char| to_lower_char(c))),
{
    let v = chars_of(env_value);
    let lowered = lower_chars(&v);
    let needle1 = chars_of("instantclient");
    let needle2 = chars_of("oracle");
    crate::text::contains_chars(&lowered, &needle1) || crate::text::contains_chars(
        &lowered,
        &needle2,
    )
}

/// The download address and archive name of the client library for each
/// supported platform.
pub fn get_download_info(os: &str) -> (r: Result<(String, String), String>)
    ensures
        match r {
            Ok(info) => {
                if os@ == "windows"@ {
                    info.0@
                        == "https://download.oracle.com/otn_software/nt/instantclient/2113000/instantclient-basic-windows.x64-21.13.0.0.0dbru.zip"@
                        && info.1@ == "instantclient-basic-windows.zip"@
                } else if os@ == "linux"@ {
                    info.0@
                        == "https://download.oracle.com/otn_software/linux/instantclient/2113000/instantclient-basic-linux.x64-21.13.0.0.0dbru.zip"@
                        && info.1@ == "instantclient-basic-linux.zip"@
                } else {
                    os@ == "macos"@ && info.0@
                        == "https://download.oracle.com/otn_software/mac/instantclient/2113000/instantclient-basic-macos.x64-21.13.0.0.0dbru.zip"@
                        && info.1@ == "instantclient-basic-macos.zip"@
                }
            },
            Err(m) => !(os@ == "windows"@ || os@ == "linux"@ || os@ == "macos"@) && m@
                == "Unsupported operating system"@,
        },
{
    if str_eq(os, "windows") {
        let mut url = String::new();
        url.append(
            "https://download.oracle.com/otn_software/nt/instantclient/2113000/instantclient-basic-windows.x64-21.13.0.0.0dbru.zip",
        );
        let mut name = String::new();
        name.append("instantclient-basic-windows.zip");
        Ok((url, name))
    } else if str_eq(os, "linux") {
        let mut url = String::new();
        url.append(
            "https://download.oracle.com/otn_software/linux/instantclient/2113000/instantclient-basic-linux.x64-21.13.0.0.0dbru.zip",
        );
        let mut name = String::new();
        name.append("instantclient-basic-linux.zip");
        Ok((url, name))
    } else if str_eq(os, "macos") {
        let mut url = String::new();
        url.append(
            "https://download.oracle.com/otn_software/mac/instantclient/2113000/instantclient-basic-macos.x64-21.13.0.0.0dbru.zip",
        );
        let mut name = String::new();
        name.append("instantclient-basic-macos.zip");
        Ok((url, name))
    } else {
        let mut m = String::new();
        m.append("Unsupported operating system");
        Err(m)
    }
}

} // verus!
