//! Port validation and the search for the commands of the Node.js tool
//! chain.

use vstd::prelude::*;

use crate::text::{
    decimal_digits, opt_view, outcome_view, push_decimal, push_str, result_view, string_of,
    strings_view,
};

verus! {

/// Lowest port that can be bound without special privileges.
pub const MIN_PORT: u16 = 1024;

/// Port of the backend server where none is managed.
pub const DEFAULT_PORT: u16 = 8787;

/// The message that rejects a port below [`MIN_PORT`].
pub open spec fn low_port_text(port: u16) -> Seq<char> {
    "Port "@ + decimal_digits(port as nat) + " is below "@ + decimal_digits(MIN_PORT as nat)
        + ". Use a port between "@ + decimal_digits(MIN_PORT as nat) + " and 65535."@
}

/// Validates that a port can be used without special privileges: it must
/// be in the range from 1024 to 65535.
pub fn validate_port(port: u16) -> (r: Result<(), String>)
    ensures
        outcome_view(r) == if port >= MIN_PORT {
            Ok::<(), Seq<char>>(())
        } else {
            Err::<(), Seq<char>>(low_port_text(port))
        },
{
    if port < MIN_PORT {
        let mut msg: Vec<char> = Vec::new();
        push_str(&mut msg, "Port ");
        push_decimal(&mut msg, port);
        push_str(&mut msg, " is below ");
        push_decimal(&mut msg, MIN_PORT);
        push_str(&mut msg, ". Use a port between ");
        push_decimal(&mut msg, MIN_PORT);
        push_str(&mut msg, " and 65535.");
        return Err(string_of(msg.as_slice()));
    }
    Ok(())
}

/// What a finished run of an external tool left behind.
#[derive(Debug, Clone)]
pub struct ToolOutput {
    /// The tool exited with status zero.
    pub success: bool,
    /// What it wrote to standard output.
    pub stdout: Vec<u8>,
    /// What it wrote to standard error.
    pub stderr: Vec<u8>,
}

// ---------------------------------------------------------------------------
// Looking for commands
// ---------------------------------------------------------------------------

/// Asks `which::which` whether an executable named `name` is on the search
/// path. The answer depends on the machine, so nothing is stated of it.
#[verifier::external_body]
pub(crate) fn on_search_path(name: &str) -> bool {
    which::which(name).is_ok()
}

/// Asks `std::path::Path::exists` whether something exists at `path`. The
/// answer depends on the machine, so nothing is stated of it.
#[verifier::external_body]
pub(crate) fn path_exists(path: &str) -> bool {
    std::path::Path::new(path).exists()
}

/// The directory that `std::path::Path::parent` gives for `path`; `None`
/// where it gives none.
pub uninterp spec fn path_parent(path: Seq<char>) -> Option<Seq<char>>;

/// Asks `std::path::Path::parent` for the directory that holds `path`. The
/// contract only names the result.
#[verifier::external_body]
pub(crate) fn parent_directory(path: &str) -> (r: Option<String>)
    ensures
        opt_view(r) == path_parent(path@),
{
    match std::path::Path::new(path).parent() {
        Some(dir) => Some(dir.to_string_lossy().to_string()),
        None => None,
    }
}

/// The path that `std::path::Path::join` makes of `dir` and `name`.
pub uninterp spec fn path_join(dir: Seq<char>, name: Seq<char>) -> Seq<char>;

/// Joins `dir` and `name` with `std::path::Path::join`. The contract only
/// names the result.
#[verifier::external_body]
pub(crate) fn join_path(dir: &str, name: &str) -> (r: String)
    ensures
        r@ == path_join(dir@, name@),
{
    std::path::Path::new(dir).join(name).to_string_lossy().to_string()
}

/// The message for a machine without npm.
pub const NPM_MISSING: &'static str =
    "npm not found in PATH. Please install Node.js from https://nodejs.org/";

/// The message for a machine without npx.
pub const NPX_MISSING: &'static str =
    "npx not found in PATH. Please install Node.js from https://nodejs.org/";

/// The message for a machine without Node.js.
pub const NODE_MISSING: &'static str =
    "Node.js not found in PATH or common installation locations. Please install Node.js from https://nodejs.org/";

/// Where Node.js is usually installed, in the order in which the places
/// are tried.
pub const NODE_PATHS: [&'static str; 3] = [
    "/usr/local/bin/node",
    "/usr/bin/node",
    "/opt/homebrew/bin/node",
];

/// The npm command, given whether `npm` is on the search path.
pub open spec fn npm_choice(on_path: bool) -> Result<Seq<char>, Seq<char>> {
    if on_path {
        Ok("npm"@)
    } else {
        Err(NPM_MISSING@)
    }
}

/// The npm command, given whether `npm` is on the search path.
pub fn choose_npm(on_path: bool) -> (r: Result<String, String>)
    ensures
        result_view(r) == npm_choice(on_path),
{
    if on_path {
        Ok("npm".to_owned())
    } else {
        Err(NPM_MISSING.to_owned())
    }
}

/// Finds the npm command: `npm` where it is on the search path.
pub fn find_npm_command() -> (r: Result<String, String>)
    ensures
        result_view(r) == npm_choice(true) || result_view(r) == npm_choice(false),
{
    choose_npm(on_search_path("npm"))
}

/// The Node.js executable, given whether `node` is on the search path and
/// which of the usual places hold it: `node`, else the first of the places
/// that exists.
pub open spec fn node_choice(on_path: bool, present: Seq<bool>) -> Result<Seq<char>, Seq<char>> {
    if on_path {
        Ok("node"@)
    } else if present.len() > 0 && present[0] {
        Ok(NODE_PATHS@[0]@)
    } else if present.len() > 1 && present[1] {
        Ok(NODE_PATHS@[1]@)
    } else if present.len() > 2 && present[2] {
        Ok(NODE_PATHS@[2]@)
    } else {
        Err(NODE_MISSING@)
    }
}

/// The Node.js executable, given whether `node` is on the search path and
/// which of the usual places hold it.
pub fn choose_node(on_path: bool, present: &[bool]) -> (r: Result<String, String>)
    ensures
        result_view(r) == node_choice(on_path, present@),
{
    if on_path {
        return Ok("node".to_owned());
    }
    let mut i: usize = 0;
    while i < 3
        invariant
            i <= 3,
            !on_path,
            forall|k: int| 0 <= k < i ==> !(present@.len() > k && present@[k]),
        decreases 3 - i,
    {
        if i < present.len() && present[i] {
            return Ok(NODE_PATHS[i].to_owned());
        }
        i += 1;
    }
    Err(NODE_MISSING.to_owned())
}

/// Finds the Node.js executable: `node` where it is on the search path,
/// else the first of the usual places that exists.
pub fn find_node_executable() -> (r: Result<String, String>)
    ensures
        exists|on_path: bool, present: Seq<bool>|
            present.len() == 3 && result_view(r) == #[trigger] node_choice(on_path, present),
{
    if on_search_path("node") {
        let present: [bool; 3] = [false, false, false];
        return choose_node(true, present.as_slice());
    }
    let mut present: Vec<bool> = Vec::new();
    let mut i: usize = 0;
    while i < 3
        invariant
            i <= 3,
            present.len() == i,
        decreases 3 - i,
    {
        present.push(path_exists(NODE_PATHS[i]));
        i += 1;
    }
    choose_node(false, present.as_slice())
}

/// The npx command: `npx` where it is on the search path; else the sibling
/// `sibling` of the Node.js executable, where Node.js was found and that
/// sibling exists.
pub open spec fn npx_choice(
    on_path: bool,
    node: Result<Seq<char>, Seq<char>>,
    sibling: Seq<char>,
    sibling_exists: bool,
) -> Result<Seq<char>, Seq<char>> {
    if on_path {
        Ok("npx"@)
    } else if node is Ok && sibling_exists {
        Ok(sibling)
    } else {
        Err(NPX_MISSING@)
    }
}

/// The npx command, given what the search found.
pub fn choose_npx(
    on_path: bool,
    node: &Result<String, String>,
    sibling: String,
    sibling_exists: bool,
) -> (r: Result<String, String>)
    ensures
        result_view(r) == npx_choice(on_path, result_view(*node), sibling@, sibling_exists),
{
    if on_path {
        Ok("npx".to_owned())
    } else if node.is_ok() && sibling_exists {
        Ok(sibling)
    } else {
        Err(NPX_MISSING.to_owned())
    }
}

/// Finds the npx command: `npx` where it is on the search path, else the
/// `npx` beside the Node.js executable.
pub fn find_npx_command() -> (r: Result<String, String>)
    ensures
        exists|on_path: bool, node: Result<Seq<char>, Seq<char>>, sibling: Seq<char>, there: bool|
            result_view(r) == #[trigger] npx_choice(on_path, node, sibling, there),
{
    if on_search_path("npx") {
        let node: Result<String, String> = Err(String::new());
        return choose_npx(true, &node, String::new(), false);
    }
    let node = find_node_executable();
    match &node {
        Ok(path) => {
            let dir = match parent_directory(path.as_str()) {
                Some(d) => d,
                None => String::new(),
            };
            let sibling = join_path(dir.as_str(), "npx");
            let there = path_exists(sibling.as_str());
            choose_npx(false, &node, sibling, there)
        },
        Err(_) => choose_npx(false, &node, String::new(), false),
    }
}

// ---------------------------------------------------------------------------
// Looking for directories
// ---------------------------------------------------------------------------

/// Whether something called `name` exists in the directory `dir`.
pub fn holds_entry(dir: &str, name: &str) -> bool {
    let path = join_path(dir, name);
    path_exists(path.as_str())
}

/// The nearest of `start` and the directories above it in which something
/// called `marker` exists. At most `depth` directories are looked at: those
/// of `search_chain`, nearest first.
///
/// Where the marker exists is for the file system to say. Whatever it
/// says, the result is what `nearest_choice` picks from the chain for some
/// answers: `None` only if every answer was no, else the first directory
/// with a yes.
pub fn nearest_holding(start: &str, marker: &str, depth: usize) -> (r: Option<String>)
    ensures
        exists|present: Seq<bool>|
            opt_view(r) == #[trigger] nearest_choice(search_chain(start@, depth as nat), present),
{
    let chain = ancestors(start, depth);
    let ghost dirs = strings_view(chain@);
    let mut i: usize = 0;
    while i < chain.len()
        invariant
            i <= chain.len(),
            dirs == strings_view(chain@),
            dirs == search_chain(start@, depth as nat),
        decreases chain.len() - i,
    {
        if holds_entry(chain[i].as_str(), marker) {
            let found = chain[i].clone();
            proof {
                let present = Seq::new((i + 1) as nat, |k: int| k == i);
                lemma_nearest_skip(dirs, present, i as int);
                assert(opt_view(Some(found)) == nearest_choice(dirs, present));
            }
            return Some(found);
        }
        i += 1;
    }
    proof {
        let present = Seq::<bool>::empty();
        lemma_nearest_skip(dirs, present, chain.len() as int);
        assert(opt_view(None::<String>) == nearest_choice(dirs, present));
    }
    None
}

/// The directories that a search from `first` looks at: `first` and the
/// directories above it, nearest first, `depth` of them at most.
pub open spec fn chain_from(first: Option<Seq<char>>, depth: nat) -> Seq<Seq<char>>
    decreases depth,
{
    match first {
        Some(dir) => if depth == 0 {
            Seq::empty()
        } else {
            seq![dir] + chain_from(path_parent(dir), (depth - 1) as nat)
        },
        None => Seq::empty(),
    }
}

/// The directories that a search from `start` looks at: `start` and the
/// directories above it, nearest first, `depth` of them at most.
pub open spec fn search_chain(start: Seq<char>, depth: nat) -> Seq<Seq<char>> {
    chain_from(Some(start), depth)
}

/// `found` is what a search from `start` finds for some answers of the
/// file system: the first directory of the chain with a yes.
pub open spec fn found_by_search(found: Seq<char>, start: Seq<char>, depth: nat) -> bool {
    exists|present: Seq<bool>|
        Some(found) == #[trigger] nearest_choice(search_chain(start, depth), present)
}

/// The directories that a search from `start` looks at, nearest first.
pub fn ancestors(start: &str, depth: usize) -> (chain: Vec<String>)
    ensures
        strings_view(chain@) == search_chain(start@, depth as nat),
{
    let mut chain: Vec<String> = Vec::new();
    let mut next: Option<String> = Some(start.to_owned());
    let mut level: usize = 0;
    assert(strings_view(chain@) + search_chain(start@, depth as nat) =~= search_chain(
        start@,
        depth as nat,
    ));
    while level < depth && next.is_some()
        invariant
            level <= depth,
            search_chain(start@, depth as nat) == strings_view(chain@) + chain_from(
                opt_view(next),
                (depth - level) as nat,
            ),
        decreases depth - level,
    {
        let current = next.unwrap();
        let parent = parent_directory(current.as_str());
        proof {
            let rest = chain_from(path_parent(current@), (depth - level - 1) as nat);
            assert(strings_view(chain@.push(current)) =~= strings_view(chain@).push(current@));
            assert(strings_view(chain@) + (seq![current@] + rest) =~= strings_view(chain@).push(
                current@,
            ) + rest);
        }
        chain.push(current);
        next = parent;
        level += 1;
    }
    assert(strings_view(chain@) + Seq::<Seq<char>>::empty() =~= strings_view(chain@));
    chain
}

/// Whether the `i`-th directory was found to hold the marker. A directory
/// without an answer counts as one without the marker.
pub open spec fn marked(present: Seq<bool>, i: int) -> bool {
    0 <= i < present.len() && present[i]
}

/// The first of the directories of `chain`, from the `i`-th on, that holds
/// the marker.
pub open spec fn nearest_from(chain: Seq<Seq<char>>, present: Seq<bool>, i: int) -> Option<
    Seq<char>,
>
    decreases chain.len() - i,
{
    if i < 0 || i >= chain.len() {
        None
    } else if marked(present, i) {
        Some(chain[i])
    } else {
        nearest_from(chain, present, i + 1)
    }
}

/// The first of the directories of `chain` that holds the marker, where
/// `present` tells of each whether it does.
pub open spec fn nearest_choice(chain: Seq<Seq<char>>, present: Seq<bool>) -> Option<Seq<char>> {
    nearest_from(chain, present, 0)
}

/// Directories without the marker do not matter to the choice.
pub proof fn lemma_nearest_skip(chain: Seq<Seq<char>>, present: Seq<bool>, i: int)
    requires
        0 <= i <= chain.len(),
        forall|k: int| 0 <= k < i ==> !marked(present, k),
    ensures
        nearest_choice(chain, present) == nearest_from(chain, present, i),
    decreases i,
{
    if i > 0 {
        lemma_nearest_skip(chain, present, i - 1);
    }
}

/// The first of the directories `chain` that holds the marker, where
/// `present` tells of each whether it does.
pub fn choose_nearest(chain: &[String], present: &[bool]) -> (r: Option<String>)
    ensures
        opt_view(r) == nearest_choice(strings_view(chain@), present@),
{
    let mut i: usize = 0;
    while i < chain.len()
        invariant
            i <= chain.len(),
            nearest_choice(strings_view(chain@), present@) == nearest_from(
                strings_view(chain@),
                present@,
                i as int,
            ),
        decreases chain.len() - i,
    {
        if i < present.len() && present[i] {
            return Some(chain[i].clone());
        }
        i += 1;
    }
    None
}

/// `prefix`, then `reason`.
pub fn explain(prefix: &str, reason: &str) -> (msg: String)
    ensures
        msg@ == prefix@ + reason@,
{
    let mut out: Vec<char> = Vec::new();
    push_str(&mut out, prefix);
    push_str(&mut out, reason);
    string_of(out.as_slice())
}

} // verus!
