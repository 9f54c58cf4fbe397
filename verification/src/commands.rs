//! What the user-facing commands answer: status records, and the decisions
//! that the commands take around starting processes and probing servers.

use vstd::prelude::*;
use vstd::slice::slice_subrange;

use crate::common::{low_port_text, validate_port, DEFAULT_PORT, MIN_PORT};
use crate::text::{
    chars_of, decimal_digits, first_piece, first_piece_len, is_text, lossy_string, opt_view,
    outcome_view, push_chars, push_decimal, push_str, result_view, second_piece,
    second_piece_bounds, string_of, strings_view, trim, trim_end_of, trim_end_of_len, trim_slice,
    utf8_lossy,
};

verus! {

// ---------------------------------------------------------------------------
// Server
// ---------------------------------------------------------------------------

/// Status information for the server.
#[derive(Debug, Clone)]
pub struct ServerStatus {
    /// Whether the server is currently running.
    pub running: bool,
    /// The port the server is running on.
    pub port: u16,
}

/// The status of the server: that of the managed server where there is
/// one; else whether something else occupies the default port.
pub fn server_status(managed_port: Option<u16>, default_port_in_use: bool) -> (s: ServerStatus)
    ensures
        match managed_port {
            Some(port) => s.running && s.port == port,
            None => s.running == default_port_in_use && s.port == DEFAULT_PORT,
        },
{
    match managed_port {
        Some(port) => ServerStatus { running: true, port },
        None => ServerStatus { running: default_port_in_use, port: DEFAULT_PORT },
    }
}

/// The server's log lines.
pub fn get_server_logs() -> (r: Result<Vec<String>, String>)
    ensures
        r is Ok,
        strings_view(r->Ok_0@) == seq!["Server logging not yet implemented"@],
{
    let mut lines: Vec<String> = Vec::new();
    lines.push("Server logging not yet implemented".to_owned());
    Ok(lines)
}

/// What binding the server's port showed before the server is started.
#[derive(Debug)]
pub enum PortCheck {
    /// The port could be bound: nothing listens on it.
    Free,
    /// The address is in use.
    InUse,
    /// Binding failed for another reason, described by the text.
    Failed(String),
}

/// What to do about a server start once the port was checked.
#[derive(Debug)]
pub enum StartPlan {
    /// Spawn the server.
    Spawn,
    /// Spawn nothing and answer with this message: a server that is not
    /// ours already listens on the port.
    AlreadyServing(String),
    /// Spawn nothing and fail with this message.
    Fail(String),
}

/// Model of a [`StartPlan`].
pub enum StartPlanView {
    Spawn,
    AlreadyServing(Seq<char>),
    Fail(Seq<char>),
}

impl View for StartPlan {
    type V = StartPlanView;

    open spec fn view(&self) -> StartPlanView {
        match self {
            StartPlan::Spawn => StartPlanView::Spawn,
            StartPlan::AlreadyServing(m) => StartPlanView::AlreadyServing(m@),
            StartPlan::Fail(m) => StartPlanView::Fail(m@),
        }
    }
}

/// What to do about a start of the server on `port`: spawn it on a free
/// port; report a port in use as a server that already runs; fail where the
/// port could not be checked.
pub open spec fn start_plan(port: u16, check: PortCheck) -> StartPlanView {
    match check {
        PortCheck::Free => StartPlanView::Spawn,
        PortCheck::InUse => StartPlanView::AlreadyServing(
            "Server already running on port "@ + decimal_digits(port as nat),
        ),
        PortCheck::Failed(reason) => StartPlanView::Fail("Cannot check port: "@ + reason@),
    }
}

/// Decides what to do about a start of the server on `port`.
pub fn plan_server_start(port: u16, check: &PortCheck) -> (plan: StartPlan)
    ensures
        plan@ == start_plan(port, *check),
{
    match check {
        PortCheck::Free => StartPlan::Spawn,
        PortCheck::InUse => {
            let mut msg: Vec<char> = Vec::new();
            push_str(&mut msg, "Server already running on port ");
            push_decimal(&mut msg, port);
            StartPlan::AlreadyServing(string_of(msg.as_slice()))
        },
        PortCheck::Failed(reason) => {
            let mut msg: Vec<char> = Vec::new();
            push_str(&mut msg, "Cannot check port: ");
            push_str(&mut msg, reason.as_str());
            StartPlan::Fail(string_of(msg.as_slice()))
        },
    }
}

/// The answer to a start that spawned the server on `port`.
pub fn server_started_message(port: u16) -> (msg: String)
    ensures
        msg@ == "Server started on port "@ + decimal_digits(port as nat),
{
    let mut out: Vec<char> = Vec::new();
    push_str(&mut out, "Server started on port ");
    push_decimal(&mut out, port);
    string_of(out.as_slice())
}

// ---------------------------------------------------------------------------
// Tunnel
// ---------------------------------------------------------------------------

/// Status information for the tunnel.
#[derive(Debug, Clone)]
pub struct TunnelStatus {
    /// Whether the tunnel is currently running.
    pub running: bool,
    /// The public URL of the tunnel, if available.
    pub url: Option<String>,
    /// The password of the tunnel, if available.
    pub password: Option<String>,
}

/// The answer to a start of the tunnel, given the URL that the tunnel
/// showed so far: the URL, or a failure where none is known yet.
pub fn tunnel_start_reply(url: Option<String>) -> (r: Result<String, String>)
    ensures
        result_view(r) == match url {
            Some(u) => Ok::<Seq<char>, Seq<char>>(u@),
            None => Err::<Seq<char>, Seq<char>>("Tunnel started but URL not available"@),
        },
{
    match url {
        Some(u) => Ok(u),
        None => Err("Tunnel started but URL not available".to_owned()),
    }
}

// ---------------------------------------------------------------------------
// Environment
// ---------------------------------------------------------------------------

/// Information about a command-line tool.
#[derive(Debug, Clone)]
pub struct CommandInfo {
    /// Whether the command is available.
    pub available: bool,
    /// The version string, if available.
    pub version: Option<String>,
}

/// Information about the development environment.
#[derive(Debug, Clone)]
pub struct EnvironmentInfo {
    /// Node.js availability and version.
    pub node: CommandInfo,
    /// npm availability and version.
    pub npm: CommandInfo,
    /// pnpm availability and version.
    pub pnpm: CommandInfo,
}

/// The version that a tool printed: its trimmed output, if that is not
/// empty.
pub open spec fn printed_version(stdout: Seq<u8>) -> Option<Seq<char>> {
    let version = trim(utf8_lossy(stdout));
    if version.len() == 0 {
        None
    } else {
        Some(version)
    }
}

/// What a version query tells of a tool. `stdout` is what the tool printed,
/// or `None` where it could not be run.
pub fn command_info(stdout: Option<&[u8]>) -> (info: CommandInfo)
    ensures
        match stdout {
            Some(bytes) => info.available && opt_view(info.version) == printed_version(bytes@),
            None => !info.available && info.version is None,
        },
{
    match stdout {
        Some(bytes) => {
            let text = lossy_string(bytes);
            let chars = chars_of(text.as_str());
            let version = trim_slice(chars.as_slice());
            CommandInfo {
                available: true,
                version: if version.len() == 0 {
                    None
                } else {
                    Some(string_of(version))
                },
            }
        },
        None => CommandInfo { available: false, version: None },
    }
}

/// Status information for a specific port.
#[derive(Debug, Clone)]
pub struct PortStatus {
    /// The port number.
    pub port: u16,
    /// Whether the port is available.
    pub available: bool,
    /// Whether the port is in use.
    pub in_use: bool,
}

/// The status of `port`, given whether it could be bound. A port below
/// 1024 is rejected.
pub fn check_port(port: u16, available: bool) -> (r: Result<PortStatus, String>)
    ensures
        match r {
            Ok(s) => port >= MIN_PORT && s.port == port && s.available == available && s.in_use
                == !available,
            Err(e) => port < MIN_PORT && e@ == low_port_text(port),
        },
{
    match validate_port(port) {
        Ok(()) => Ok(PortStatus { port, available, in_use: !available }),
        Err(e) => Err(e),
    }
}

// ---------------------------------------------------------------------------
// Servers on the local host
// ---------------------------------------------------------------------------

/// Detected server information.
#[derive(Debug, Clone)]
pub struct DetectedServer {
    pub name: String,
    pub url: String,
    pub port: u16,
    pub status: String,
    pub type_: String,
}

/// The ports on which development servers are looked for, each with the
/// kind of server that is expected there.
pub const DEV_SERVER_PORTS: [(u16, &'static str); 8] = [
    (3000, "dev"),
    (3001, "dev"),
    (5173, "vite"),
    (5174, "vite"),
    (8000, "dev"),
    (8080, "dev"),
    (8787, "side-ide"),
    (9000, "dev"),
];

/// The address of the server on `port` of the local host.
pub open spec fn base_url(port: u16) -> Seq<char> {
    "http://127.0.0.1:"@ + decimal_digits(port as nat)
}

/// The address of the server on `port` of the local host.
pub fn server_base_url(port: u16) -> (url: String)
    ensures
        url@ == base_url(port),
{
    let mut out: Vec<char> = Vec::new();
    push_str(&mut out, "http://127.0.0.1:");
    push_decimal(&mut out, port);
    string_of(out.as_slice())
}

/// The record of a server that answered on `port`: named by the title of
/// its page, else by the kind of server expected there.
pub fn detected_server(port: u16, default_type: &str, title: Option<String>) -> (s: DetectedServer)
    ensures
        s.name@ == match title {
            Some(t) => t@,
            None => default_type@,
        },
        s.url@ == base_url(port),
        s.port == port,
        s.status@ == "running"@,
        s.type_@ == default_type@,
{
    DetectedServer {
        name: match title {
            Some(t) => t,
            None => default_type.to_owned(),
        },
        url: server_base_url(port),
        port,
        status: "running".to_owned(),
        type_: default_type.to_owned(),
    }
}

/// The title of an HTML page: the text between the first `<title>` and
/// what ends it (`</title>`, the next `<title>`, or the end of the page),
/// trimmed. `None` for a page without `<title>`.
pub open spec fn html_title(html: Seq<char>) -> Option<Seq<char>> {
    match second_piece(html, "<title>"@) {
        Some(piece) => Some(trim(first_piece(piece, "</title>"@))),
        None => None,
    }
}

/// Extracts the title from an HTML page.
pub fn extract_title_from_html(html: &str) -> (r: Option<String>)
    ensures
        opt_view(r) == html_title(html@),
{
    let text = chars_of(html);
    let open = chars_of("<title>");
    let close = chars_of("</title>");
    match second_piece_bounds(text.as_slice(), open.as_slice()) {
        Some((a, b)) => {
            let piece = slice_subrange(text.as_slice(), a, b);
            let n = first_piece_len(piece, close.as_slice());
            let title = trim_slice(slice_subrange(piece, 0, n));
            Some(string_of(title))
        },
        None => None,
    }
}

// ---------------------------------------------------------------------------
// MCP servers
// ---------------------------------------------------------------------------

/// MCP server status.
#[derive(Debug, Clone)]
pub struct MCPStatus {
    pub name: String,
    pub status: String,
    pub capabilities: Vec<String>,
}

/// The scheme and the host of a URL.
#[derive(Debug, Clone)]
pub struct UrlParts {
    /// The scheme, in lower case and without the colon.
    pub scheme: String,
    /// The host as the URL writes it; `None` for a URL without host.
    pub host: Option<String>,
}

/// View of what parsing a URL gave.
pub open spec fn parts_view(parts: Option<UrlParts>) -> Option<(Seq<char>, Option<Seq<char>>)> {
    match parts {
        Some(p) => Some((p.scheme@, opt_view(p.host))),
        None => None,
    }
}

/// The scheme and the host that `url::Url::parse` finds in `input`; `None`
/// where it rejects `input`.
pub uninterp spec fn url_parts(input: Seq<char>) -> Option<(Seq<char>, Option<Seq<char>>)>;

/// Parses `input` with `url::Url::parse` and takes the scheme
/// (`Url::scheme`) and the host (`Url::host_str`) of the result. The
/// contract only names what the crate returns.
#[verifier::external_body]
fn parse_url(input: &str) -> (r: Option<UrlParts>)
    ensures
        parts_view(r) == url_parts(input@),
{
    match url::Url::parse(input) {
        Ok(u) => Some(
            UrlParts { scheme: u.scheme().to_string(), host: u.host_str().map(|h| h.to_string()) },
        ),
        Err(_) => None,
    }
}

/// A host that stands for the local machine.
pub open spec fn is_local_host(host: Seq<char>) -> bool {
    host == "localhost"@ || host == "127.0.0.1"@ || host == "::1"@
}

/// Whether a server URL with these parts may be queried: it must parse,
/// its host, if it has one, must be the local machine, and its scheme must
/// be `http` or `https`. Each failure has its message.
pub open spec fn mcp_url_verdict(parts: Option<(Seq<char>, Option<Seq<char>>)>) -> Result<
    (),
    Seq<char>,
> {
    match parts {
        None => Err("Invalid URL format"@),
        Some((scheme, host)) => {
            if host is Some && !is_local_host(host->0) {
                Err("Only localhost URLs are allowed, got: "@ + host->0)
            } else if scheme != "http"@ && scheme != "https"@ {
                Err("Only http/https schemes are allowed"@)
            } else {
                Ok(())
            }
        },
    }
}

/// Decides whether a server URL with the given parts may be queried.
pub fn check_mcp_url(parts: &Option<UrlParts>) -> (r: Result<(), String>)
    ensures
        outcome_view(r) == mcp_url_verdict(parts_view(*parts)),
{
    match parts {
        None => Err("Invalid URL format".to_owned()),
        Some(p) => {
            match &p.host {
                Some(host) => {
                    let h = chars_of(host.as_str());
                    let local = is_text(h.as_slice(), "localhost") || is_text(
                        h.as_slice(),
                        "127.0.0.1",
                    ) || is_text(h.as_slice(), "::1");
                    if !local {
                        let mut msg: Vec<char> = Vec::new();
                        push_str(&mut msg, "Only localhost URLs are allowed, got: ");
                        push_chars(&mut msg, h.as_slice());
                        return Err(string_of(msg.as_slice()));
                    }
                },
                None => {},
            }
            let s = chars_of(p.scheme.as_str());
            if !is_text(s.as_slice(), "http") && !is_text(s.as_slice(), "https") {
                return Err("Only http/https schemes are allowed".to_owned());
            }
            Ok(())
        },
    }
}

/// Validates the URL of a server that is asked for its MCP servers: only
/// `http` and `https` URLs of the local machine pass.
pub fn validate_mcp_url(server_url: &str) -> (r: Result<(), String>)
    ensures
        outcome_view(r) == mcp_url_verdict(url_parts(server_url@)),
{
    let parts = parse_url(server_url);
    check_mcp_url(&parts)
}

/// The address at which a server tells of its MCP servers: the server's
/// URL without trailing slashes, then `/api/mcp-status`.
pub fn mcp_status_url(server_url: &str) -> (url: String)
    ensures
        url@ == trim_end_of(server_url@, seq!['/']) + "/api/mcp-status"@,
{
    let text = chars_of(server_url);
    let set: [char; 1] = ['/'];
    assert(set@ =~= seq!['/']);
    let n = trim_end_of_len(text.as_slice(), set.as_slice());
    let mut out: Vec<char> = Vec::new();
    push_chars(&mut out, slice_subrange(text.as_slice(), 0, n));
    push_str(&mut out, "/api/mcp-status");
    string_of(out.as_slice())
}

// ---------------------------------------------------------------------------
// Choosing the scanner
// ---------------------------------------------------------------------------

/// The two ways to scan.
#[derive(Debug, Clone, Copy, PartialEq, Eq, Structural)]
pub enum ScanBackend {
    /// The built-in scanner.
    Internal,
    /// The external scanning tool.
    External,
}

/// Chooses the way to scan: the external tool where the caller prefers it
/// and it is available, else the built-in scanner.
pub fn choose_backend(prefer_external: bool, tool_available: bool) -> (b: ScanBackend)
    ensures
        b == if prefer_external && tool_available {
            ScanBackend::External
        } else {
            ScanBackend::Internal
        },
{
    if prefer_external && tool_available {
        ScanBackend::External
    } else {
        ScanBackend::Internal
    }
}

} // verus!
