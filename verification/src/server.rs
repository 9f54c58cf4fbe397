//! Starting the backend server: how it is run, and with what.

use vstd::prelude::*;

use crate::common::{
    ancestors, chain_from, explain, found_by_search, holds_entry, join_path, low_port_text,
    nearest_holding, parent_directory, path_exists, path_join, path_parent, search_chain,
    validate_port, MIN_PORT,
};
use crate::text::{decimal_digits, decimal_string, push_str, string_of, strings_view};

verus! {

/// Maximum number of parent directories to search when finding the
/// project root.
pub const MAX_SEARCH_DEPTH: usize = 10;

/// Maximum number of parent directories to search from the executable.
pub const MAX_EXE_SEARCH_DEPTH: usize = 5;

/// How the backend server is run.
#[derive(Debug, Clone, Copy, PartialEq, Eq, Structural)]
pub enum LaunchMode {
    /// From its sources, with the package manager's `run dev`.
    Development,
    /// As the bundled script, with the Node.js executable.
    Production,
}

/// Whether the application runs in development mode: a development flag is
/// set in the environment, or the running executable is known to have no
/// file extension.
pub fn is_development_mode(flag_set: bool, exe_has_extension: Option<bool>) -> (dev: bool)
    ensures
        dev == (flag_set || exe_has_extension != Some(true)),
{
    flag_set || !match exe_has_extension {
        Some(has) => has,
        None => false,
    }
}

/// Decides how the server is started on `port`: a port below 1024 is
/// rejected; else the mode follows `development`.
pub fn start(port: u16, development: bool) -> (r: Result<LaunchMode, String>)
    ensures
        match r {
            Ok(mode) => port >= MIN_PORT && mode == if development {
                LaunchMode::Development
            } else {
                LaunchMode::Production
            },
            Err(e) => port < MIN_PORT && e@ == low_port_text(port),
        },
{
    match validate_port(port) {
        Ok(()) => if development {
            Ok(LaunchMode::Development)
        } else {
            Ok(LaunchMode::Production)
        },
        Err(e) => Err(e),
    }
}

/// The value of the `PORT` variable that tells the server its port.
pub fn port_variable(port: u16) -> (v: String)
    ensures
        v@ == decimal_digits(port as nat),
{
    decimal_string(port)
}

/// The failure of a start whose script is not where it should be.
pub fn missing_script_message(path: &str) -> (msg: String)
    ensures
        msg@ == "Server executable not found at: "@ + path@
            + ". Ensure resources are bundled correctly."@,
{
    let mut out: Vec<char> = Vec::new();
    push_str(&mut out, "Server executable not found at: ");
    push_str(&mut out, path);
    push_str(&mut out, ". Ensure resources are bundled correctly.");
    string_of(out.as_slice())
}

// ---------------------------------------------------------------------------
// Finding the server's files
// ---------------------------------------------------------------------------

/// The failure of a search that found no project root.
pub const NO_PROJECT_ROOT: &'static str = "Could not find project root (package.json)";

/// The failure of a search that started at an executable without a
/// directory.
pub const NO_EXE_PARENT: &'static str = "Could not determine exe parent directory";

/// The failure of a search for the server script that started at an
/// executable without a directory.
pub const NO_EXE_DIRECTORY: &'static str = "Failed to get exe directory";

/// What `find_project_root` may return: a directory that a search for
/// `package.json` finds from the current directory, or, where the running
/// executable is known and has a directory, from that directory.
pub open spec fn project_root_found(
    root: Seq<char>,
    current_dir: Seq<char>,
    exe_path: Result<String, String>,
) -> bool {
    found_by_search(root, current_dir, MAX_SEARCH_DEPTH as nat) || match exe_path {
        Ok(exe) => match path_parent(exe@) {
            Some(dir) => found_by_search(root, dir, MAX_SEARCH_DEPTH as nat) || found_by_search(
                root,
                dir,
                MAX_EXE_SEARCH_DEPTH as nat,
            ),
            None => false,
        },
        Err(_) => false,
    }
}

/// Finds the project root: the nearest directory with a `package.json`, at
/// or above the current directory, else at or above the directory of the
/// running executable.
///
/// `current_dir` and `exe_path` hold the two places, or why they are not
/// known. Where `package.json` exists is for the file system to say: a
/// result is the first directory with a yes, of one of the two chains. The
/// search fails where the current directory is not known, and, if it finds
/// nothing there, where the executable is not known, has no directory, or
/// has nothing above it either.
pub fn find_project_root(
    current_dir: Result<String, String>,
    exe_path: Result<String, String>,
) -> (r: Result<String, String>)
    ensures
        match r {
            Ok(root) => current_dir is Ok && project_root_found(
                root@,
                current_dir->Ok_0@,
                exe_path,
            ),
            Err(m) => match current_dir {
                Err(e) => m@ == "Failed to get current dir: "@ + e@,
                Ok(_) => match exe_path {
                    Err(e) => m@ == "Failed to get exe path: "@ + e@,
                    Ok(exe) => m@ == if path_parent(exe@) is None {
                        NO_EXE_PARENT@
                    } else {
                        NO_PROJECT_ROOT@
                    },
                },
            },
        },
{
    let start = match current_dir {
        Ok(dir) => dir,
        Err(e) => {
            return Err(explain("Failed to get current dir: ", e.as_str()));
        },
    };
    match nearest_holding(start.as_str(), "package.json", MAX_SEARCH_DEPTH) {
        Some(root) => {
            assert(found_by_search(root@, start@, MAX_SEARCH_DEPTH as nat));
            return Ok(root);
        },
        None => {},
    }
    let exe = match exe_path {
        Ok(path) => path,
        Err(e) => {
            return Err(explain("Failed to get exe path: ", e.as_str()));
        },
    };
    let exe_dir = match parent_directory(exe.as_str()) {
        Some(dir) => dir,
        None => {
            return Err(NO_EXE_PARENT.to_owned());
        },
    };
    match nearest_holding(exe_dir.as_str(), "package.json", MAX_SEARCH_DEPTH) {
        Some(root) => {
            assert(found_by_search(root@, exe_dir@, MAX_SEARCH_DEPTH as nat));
            return Ok(root);
        },
        None => {},
    }
    match nearest_holding(exe_dir.as_str(), "package.json", MAX_EXE_SEARCH_DEPTH) {
        Some(root) => {
            assert(found_by_search(root@, exe_dir@, MAX_EXE_SEARCH_DEPTH as nat));
            Ok(root)
        },
        None => Err(NO_PROJECT_ROOT.to_owned()),
    }
}

/// The path of the server script below the directory `dir`:
/// `resources/server/index.js`.
pub open spec fn script_path(dir: Seq<char>) -> Seq<char> {
    path_join(path_join(path_join(dir, "resources"@), "server"@), "index.js"@)
}

/// The server script below the directory `dir`.
fn script_below(dir: &str) -> (r: String)
    ensures
        r@ == script_path(dir@),
{
    let resources = join_path(dir, "resources");
    let server = join_path(resources.as_str(), "server");
    join_path(server.as_str(), "index.js")
}

/// `script` is the server script directly below `dir`, or below the
/// `src-tauri` in `dir`.
pub open spec fn script_at(script: Seq<char>, dir: Seq<char>) -> bool {
    script == script_path(dir) || script == script_path(path_join(dir, "src-tauri"@))
}

/// What `get_server_path` may return for an executable in `exe_dir`: the
/// server script at one of the directories that the search looks at.
pub open spec fn script_found(script: Seq<char>, exe_dir: Seq<char>) -> bool {
    exists|k: int|
        0 <= k < search_chain(exe_dir, MAX_SEARCH_DEPTH as nat).len() && script_at(
            script,
            #[trigger] search_chain(exe_dir, MAX_SEARCH_DEPTH as nat)[k],
        )
}

/// Finds the bundled server script: at or above the directory of the
/// running executable, below `src-tauri` or directly; where it is nowhere,
/// the place below the executable's directory where it should be.
///
/// `exe_path` holds the path of the executable, or why it is not known.
/// The search succeeds whenever the executable is known and has a
/// directory. Which of the places holds the script is for the file system
/// to say; the result is the script's path at one of them.
pub fn get_server_path(exe_path: Result<String, String>) -> (r: Result<String, String>)
    ensures
        match r {
            Ok(script) => exe_path is Ok && path_parent(exe_path->Ok_0@) is Some && script_found(
                script@,
                path_parent(exe_path->Ok_0@)->Some_0,
            ),
            Err(m) => match exe_path {
                Err(e) => m@ == "Failed to get exe path: "@ + e@,
                Ok(exe) => path_parent(exe@) is None && m@ == NO_EXE_DIRECTORY@,
            },
        },
{
    let exe = match exe_path {
        Ok(path) => path,
        Err(e) => {
            return Err(explain("Failed to get exe path: ", e.as_str()));
        },
    };
    let exe_dir = match parent_directory(exe.as_str()) {
        Some(dir) => dir,
        None => {
            return Err(NO_EXE_DIRECTORY.to_owned());
        },
    };
    let chain = ancestors(exe_dir.as_str(), MAX_SEARCH_DEPTH);
    let ghost dirs = search_chain(exe_dir@, MAX_SEARCH_DEPTH as nat);
    let mut level: usize = 0;
    while level < chain.len()
        invariant
            level <= chain.len(),
            strings_view(chain@) == dirs,
            dirs == search_chain(exe_dir@, MAX_SEARCH_DEPTH as nat),
            exe_path is Ok,
            path_parent(exe_path->Ok_0@) == Some(exe_dir@),
        decreases chain.len() - level,
    {
        let current = chain[level].as_str();
        assert(dirs[level as int] == current@);
        let src_tauri = join_path(current, "src-tauri");
        if path_exists(src_tauri.as_str()) {
            let script = script_below(src_tauri.as_str());
            if path_exists(script.as_str()) {
                assert(script_at(script@, dirs[level as int]));
                return Ok(script);
            }
        }
        let script = script_below(current);
        if path_exists(script.as_str()) {
            assert(script_at(script@, dirs[level as int]));
            return Ok(script);
        }
        level += 1;
    }
    let script = script_below(exe_dir.as_str());
    proof {
        assert(dirs =~= seq![exe_dir@] + chain_from(
            path_parent(exe_dir@),
            (MAX_SEARCH_DEPTH - 1) as nat,
        ));
        assert(script_at(script@, dirs[0]));
    }
    Ok(script)
}

/// Whether `dir` exists and holds something called `name`.
pub fn is_directory_with(dir: &str, name: &str) -> bool {
    path_exists(dir) && holds_entry(dir, name)
}

// ---------------------------------------------------------------------------
// Where the server keeps its data
// ---------------------------------------------------------------------------

/// The directory of the server's sources below the project root `root`:
/// `apps/server`.
pub open spec fn server_directory_below(root: Seq<char>) -> Seq<char> {
    path_join(path_join(root, "apps"@), "server"@)
}

/// The directory of the server's sources below the project root.
pub fn dev_server_directory(root: &str) -> (r: String)
    ensures
        r@ == server_directory_below(root@),
{
    let apps = join_path(root, "apps");
    join_path(apps.as_str(), "server")
}

/// The data directory of the server that runs from its sources in
/// `server_dir`: `data` below it.
pub fn dev_data_directory(server_dir: &str) -> (r: String)
    ensures
        r@ == path_join(server_dir@, "data"@),
{
    join_path(server_dir, "data")
}

/// The data directory of the bundled server whose script is `script`:
/// `data` beside the directory that holds the script, or `resources/data`
/// where the script has no such directory above it.
pub open spec fn data_path(script: Seq<char>) -> Seq<char> {
    match path_parent(script) {
        Some(dir) => match path_parent(dir) {
            Some(above) => path_join(above, "data"@),
            None => "resources/data"@,
        },
        None => "resources/data"@,
    }
}

/// The data directory of the bundled server whose script is `script`.
pub fn data_directory(script: &str) -> (r: String)
    ensures
        r@ == data_path(script@),
{
    match parent_directory(script) {
        Some(dir) => match parent_directory(dir.as_str()) {
            Some(above) => join_path(above.as_str(), "data"),
            None => "resources/data".to_owned(),
        },
        None => "resources/data".to_owned(),
    }
}

/// The database file in the data directory `data_dir`: `deck-ide.db`.
pub fn database_path(data_dir: &str) -> (r: String)
    ensures
        r@ == path_join(data_dir@, "deck-ide.db"@),
{
    join_path(data_dir, "deck-ide.db")
}

} // verus!
