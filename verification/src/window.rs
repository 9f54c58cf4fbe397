//! Bringing the backend server up when the application starts.

use vstd::prelude::*;

use crate::common::{
    ancestors, explain, join_path, parent_directory, path_join, path_parent, search_chain,
};
use crate::json::{parse_json, parsed_json, Json};
use crate::server::{dev_server_directory, is_directory_with, server_directory_below};
use crate::text::{
    chars_of, contains, contains_in, decimal_digits, push_decimal, push_str, string_of,
    strings_view,
};

verus! {

/// Label of the main window.
pub const WINDOW_LABEL: &'static str = "main";

/// Delay before the window is initialized, in milliseconds.
pub const WINDOW_INIT_DELAY_MS: u64 = 500;

/// Maximum number of parent directories to search for the server.
pub const MAX_SERVER_SEARCH_DEPTH: usize = 10;

/// How often the server is asked whether it is ready.
pub const READY_ATTEMPTS: u32 = 15;

/// Pause between two such questions, in milliseconds.
pub const READY_POLL_MS: u64 = 500;

/// From which attempt on an occupied port counts as a ready server.
pub const READY_BY_PORT_FROM: u32 = 5;

/// Whether the application runs in development mode. Where the path of the
/// executable is known and holds `target`, it decides: development where it
/// also holds `debug`. Else a development flag in the environment decides.
pub open spec fn development_mode(exe_path: Option<Seq<char>>, flag_set: bool) -> bool {
    match exe_path {
        Some(path) => if contains(path, "target"@) {
            contains(path, "debug"@)
        } else {
            flag_set
        },
        None => flag_set,
    }
}

/// Whether the application runs in development mode.
pub fn is_development_mode(exe_path: Option<&str>, flag_set: bool) -> (dev: bool)
    ensures
        dev == development_mode(
            match exe_path {
                Some(p) => Some(p@),
                None => None,
            },
            flag_set,
        ),
{
    match exe_path {
        Some(path) => {
            let p = chars_of(path);
            let target = chars_of("target");
            if contains_in(p.as_slice(), target.as_slice()) {
                let debug = chars_of("debug");
                contains_in(p.as_slice(), debug.as_slice())
            } else {
                flag_set
            }
        },
        None => flag_set,
    }
}

/// Whether the server counts as ready after the attempt with the index
/// `attempt`: it answered the health check, or its port is occupied and
/// enough attempts have passed.
pub fn server_ready(attempt: u32, healthy: bool, port_in_use: bool) -> (ready: bool)
    ensures
        ready == (healthy || (port_in_use && attempt >= READY_BY_PORT_FROM)),
{
    healthy || (port_in_use && attempt >= READY_BY_PORT_FROM)
}

/// The address of the server's health check.
pub fn health_url(port: u16) -> (url: String)
    ensures
        url@ == "http://localhost:"@ + decimal_digits(port as nat) + "/health"@,
{
    let mut out: Vec<char> = Vec::new();
    push_str(&mut out, "http://localhost:");
    push_decimal(&mut out, port);
    push_str(&mut out, "/health");
    string_of(out.as_slice())
}

/// The port that a settings value names: its member `port`, where that is
/// an integer from 0 to 65535.
pub open spec fn settings_port(v: Json) -> Option<u16> {
    match v.field("port"@) {
        Some(Json::Number(Some(n))) => if n <= u16::MAX {
            Some(n as u16)
        } else {
            None
        },
        _ => None,
    }
}

/// The port that a parsed settings value names.
pub fn port_from_settings(v: &Json) -> (r: Option<u16>)
    ensures
        r == settings_port(*v),
{
    match v.get("port") {
        Some(member) => match member.as_u64() {
            Some(n) => if n <= 65535 {
                Some(n as u16)
            } else {
                None
            },
            None => None,
        },
        None => None,
    }
}

/// Reads the server port from the text of the server's settings file.
/// `None` where the text is no JSON or names no port.
pub fn read_server_port_from_settings(raw: &str) -> (r: Option<u16>)
    ensures
        r == match parsed_json(raw@) {
            Ok(v) => settings_port(v),
            Err(_) => None,
        },
{
    match parse_json(raw) {
        Ok(v) => port_from_settings(&v),
        Err(_) => None,
    }
}

// ---------------------------------------------------------------------------
// Finding the server's directory
// ---------------------------------------------------------------------------

/// The failure of a search that found no server directory.
pub const NO_SERVER_DIRECTORY: &'static str =
    "Could not find server directory. Please run from the project root.";

/// What `find_server_directory` may return: the server's directory below
/// one of the directories that a search from the current directory looks
/// at.
pub open spec fn server_directory_found(found: Seq<char>, current_dir: Seq<char>) -> bool {
    exists|k: int|
        0 <= k < search_chain(current_dir, MAX_SERVER_SEARCH_DEPTH as nat).len() && found
            == server_directory_below(
            #[trigger] search_chain(current_dir, MAX_SERVER_SEARCH_DEPTH as nat)[k],
        )
}

/// Finds the directory of the server's sources: `apps/server` with a
/// `package.json`, below the current directory or one above it.
///
/// `current_dir` holds the current directory, or why it is not known.
/// Which directory holds the sources is for the file system to say; a
/// result is `apps/server` below one of the directories of the search.
pub fn find_server_directory(current_dir: Result<String, String>) -> (r: Result<String, String>)
    ensures
        match r {
            Ok(found) => current_dir is Ok && server_directory_found(found@, current_dir->Ok_0@),
            Err(m) => match current_dir {
                Err(e) => m@ == "Failed to get current dir: "@ + e@,
                Ok(_) => m@ == NO_SERVER_DIRECTORY@,
            },
        },
{
    let start = match current_dir {
        Ok(dir) => dir,
        Err(e) => {
            return Err(explain("Failed to get current dir: ", e.as_str()));
        },
    };
    let chain = ancestors(start.as_str(), MAX_SERVER_SEARCH_DEPTH);
    let ghost dirs = search_chain(start@, MAX_SERVER_SEARCH_DEPTH as nat);
    let mut level: usize = 0;
    while level < chain.len()
        invariant
            level <= chain.len(),
            strings_view(chain@) == dirs,
            dirs == search_chain(start@, MAX_SERVER_SEARCH_DEPTH as nat),
            current_dir == Ok::<String, String>(start),
        decreases chain.len() - level,
    {
        let server_dir = dev_server_directory(chain[level].as_str());
        if is_directory_with(server_dir.as_str(), "package.json") {
            assert(server_dir@ == server_directory_below(dirs[level as int]));
            return Ok(server_dir);
        }
        level += 1;
    }
    Err(NO_SERVER_DIRECTORY.to_owned())
}

/// The directory of the bundled server beside an executable in `exe_dir`:
/// `resources/server`.
pub open spec fn bundled_server_path(exe_dir: Seq<char>) -> Seq<char> {
    path_join(path_join(exe_dir, "resources"@), "server"@)
}

/// Finds the server that was bundled with the application:
/// `resources/server` with an `index.js`, beside the running executable.
///
/// `exe_path` holds the path of the executable, or why it is not known.
/// Whether the server is there is for the file system to say.
pub fn find_bundled_server(exe_path: Result<String, String>) -> (r: Result<String, String>)
    ensures
        match r {
            Ok(found) => exe_path is Ok && path_parent(exe_path->Ok_0@) is Some && found@
                == bundled_server_path(path_parent(exe_path->Ok_0@)->Some_0),
            Err(m) => match exe_path {
                Err(e) => m@ == "Failed to get exe path: "@ + e@,
                Ok(exe) => m@ == if path_parent(exe@) is None {
                    "Failed to get exe directory"@
                } else {
                    "Bundled server not found"@
                },
            },
        },
{
    let exe = match exe_path {
        Ok(path) => path,
        Err(e) => {
            return Err(explain("Failed to get exe path: ", e.as_str()));
        },
    };
    let exe_dir = match parent_directory(exe.as_str()) {
        Some(dir) => dir,
        None => {
            return Err("Failed to get exe directory".to_owned());
        },
    };
    let resources = join_path(exe_dir.as_str(), "resources");
    let server_dir = join_path(resources.as_str(), "server");
    if is_directory_with(server_dir.as_str(), "index.js") {
        Ok(server_dir)
    } else {
        Err("Bundled server not found".to_owned())
    }
}

/// The directory into which the server is downloaded: `S-IDE/server` below
/// the directory for application data.
pub open spec fn download_path(app_data: Seq<char>) -> Seq<char> {
    path_join(path_join(app_data, "S-IDE"@), "server"@)
}

/// The directory into which the server is downloaded: `S-IDE/server` below
/// the directory for application data.
pub fn download_directory(app_data: &str) -> (r: String)
    ensures
        r@ == download_path(app_data@),
{
    let product = join_path(app_data, "S-IDE");
    join_path(product.as_str(), "server")
}

/// Finds a server that was downloaded earlier: the download directory, if
/// it holds an `index.js`.
///
/// `app_data` holds the directory for application data, if it is known.
/// Whether the server is there is for the file system to say.
pub fn find_downloaded_server(app_data: Option<&str>) -> (r: Result<String, String>)
    ensures
        match r {
            Ok(found) => app_data is Some && found@ == download_path(app_data->Some_0@),
            Err(m) => match app_data {
                None => m@ == "Failed to get AppData directory"@,
                Some(_) => m@ == "Downloaded server not found"@,
            },
        },
{
    match app_data {
        Some(base) => {
            let server_dir = download_directory(base);
            if is_directory_with(server_dir.as_str(), "index.js") {
                Ok(server_dir)
            } else {
                Err("Downloaded server not found".to_owned())
            }
        },
        None => Err("Failed to get AppData directory".to_owned()),
    }
}

} // verus!
