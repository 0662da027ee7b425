//! Paths the supervisor derives: where the database lives, where media and
//! temporary files go, and where a bundled Python interpreter is expected
//! inside a virtual environment.
//!
//! Directories are plain strings joined with `/`; creating them and asking
//! the platform for its data directories is outside work.

use vstd::prelude::*;

use crate::menu::Platform;

verus! {

/// `dir` and `file` joined with a single separator.
pub open spec fn spec_joined(dir: Seq<char>, file: Seq<char>) -> Seq<char> {
    dir + "/"@ + file
}

/// Join a directory and an entry name with `/`.
pub fn join_path(dir: &str, file: &str) -> (r: String)
    ensures
        r@ == spec_joined(dir@, file@),
{
    let mut r = dir.to_owned();
    r.append("/");
    r.append(file);
    proof {
        assert(r@ =~= spec_joined(dir@, file@));
    }
    r
}

/// The database file inside the application's data directory.
pub fn get_database_path(data_dir: &str) -> (r: String)
    ensures
        r@ == spec_joined(data_dir@, "webterminal.db"@),
{
    join_path(data_dir, "webterminal.db")
}

/// The media directory inside the application's data directory.
pub fn get_media_directory(data_dir: &str) -> (r: String)
    ensures
        r@ == spec_joined(data_dir@, "media"@),
{
    join_path(data_dir, "media")
}

/// The temporary directory inside the application's cache directory.
pub fn get_temp_directory(cache_dir: &str) -> (r: String)
    ensures
        r@ == spec_joined(cache_dir@, "temp"@),
{
    join_path(cache_dir, "temp")
}

/// Relies on dirs::data_local_dir: the platform's local data directory, if
/// the system reports one.
#[verifier::external_body]
fn data_local_dir_string() -> (r: Option<String>)
{
    dirs::data_local_dir().map(|p| p.to_string_lossy().into_owned())
}

/// The database file path resolved without an application handle: the
/// platform's local data directory, the application's own directory inside
/// it, and the database file name. Nothing when the platform reports no
/// data directory.
pub fn get_database_path_static() -> (r: Option<String>)
    ensures
        r matches Some(p) ==> exists|d: Seq<char>|
            p@ == spec_joined(spec_joined(d, "jterm"@), "webterminal.db"@),
{
    match data_local_dir_string() {
        Some(base) => {
            let app_dir = join_path(base.as_str(), "jterm");
            Some(get_database_path(app_dir.as_str()))
        },
        None => None,
    }
}

/// Relies on std::path::Path::exists: whether the path points at an
/// existing file-system entity right now.
#[verifier::external_body]
fn file_exists(path: &str) -> (r: bool)
{
    std::path::Path::new(path).exists()
}

/// Look for a web-version database in the current directory, for migration
/// to the desktop version: the well-known relative path when a probe saw it
/// exist, nothing otherwise.
pub fn check_web_database_exists() -> (r: Option<String>)
    ensures
        r matches Some(p) ==> p@ == "webterminal.db"@,
{
    if file_exists("webterminal.db") {
        Some("webterminal.db".to_owned())
    } else {
        None
    }
}

/// The platform's display name.
pub open spec fn spec_platform_name(platform: Platform) -> Seq<char> {
    match platform {
        Platform::MacOS => "macOS"@,
        Platform::Windows => "Windows"@,
        Platform::Linux => "Linux"@,
    }
}

/// The display name of a platform.
pub fn get_platform_name(platform: Platform) -> (r: &'static str)
    ensures
        r@ == spec_platform_name(platform),
{
    match platform {
        Platform::MacOS => "macOS",
        Platform::Windows => "Windows",
        Platform::Linux => "Linux",
    }
}

/// The Python interpreter's file name on a platform.
pub open spec fn spec_python_executable_name(platform: Platform) -> Seq<char> {
    if platform is Windows {
        "python.exe"@
    } else {
        "python3"@
    }
}

/// The file name of the Python interpreter on a platform: `python.exe` on
/// Windows, `python3` elsewhere.
pub fn get_python_executable_name(platform: Platform) -> (r: &'static str)
    ensures
        r@ == spec_python_executable_name(platform),
{
    match platform {
        Platform::Windows => "python.exe",
        Platform::MacOS | Platform::Linux => "python3",
    }
}

/// Where a root directory's virtual environment keeps its Python
/// interpreter.
pub open spec fn spec_venv_python(root: Seq<char>, platform: Platform) -> Seq<char> {
    spec_joined(
        spec_joined(spec_joined(root, "venv"@), "bin"@),
        spec_python_executable_name(platform),
    )
}

/// The interpreter path inside a root directory's virtual environment.
pub fn venv_python_path(root: &str, platform: Platform) -> (r: String)
    ensures
        r@ == spec_venv_python(root@, platform),
{
    let venv = join_path(root, "venv");
    let bin = join_path(venv.as_str(), "bin");
    join_path(bin.as_str(), get_python_executable_name(platform))
}

/// Pick the launch root among candidate directories: the first whose
/// virtual environment holds an interpreter and which has a source
/// directory, probed on the file system. The result is the interpreter path
/// and the root it was found under; nothing when no candidate qualifies.
pub fn find_venv_root(roots: &Vec<String>, platform: Platform) -> (r: Option<(String, String)>)
    ensures
        r matches Some(found) ==> exists|i: int|
            0 <= i < roots@.len() && found.1@ == roots@[i]@ && found.0@ == spec_venv_python(
                roots@[i]@,
                platform,
            ),
{
    let n = roots.len();
    let mut i: usize = 0;
    while i < n
        invariant
            n == roots@.len(),
            0 <= i <= n,
        decreases n - i,
    {
        let root = &roots[i];
        let python = venv_python_path(root.as_str(), platform);
        let src_dir = join_path(root.as_str(), "src");
        if file_exists(python.as_str()) && file_exists(src_dir.as_str()) {
            return Some((python, root.clone()));
        }
        i += 1;
    }
    None
}

} // verus!
