//! Remote access through `tailscale serve`: its command lines, and what
//! its output tells.

use vstd::prelude::*;
use vstd::slice::slice_subrange;

use crate::common::{join_path, path_join, ToolOutput};
use crate::json::{parse_json, parsed_json, Json};
use crate::tailscale::TailscaleStatusSummary;
use crate::text::{
    chars_of, contains, contains_in, decimal_digits, decimal_string, is_space, lemma_word_len_bound,
    lossy_string, lowercase, lowercase_string, matches_at, opt_view, outcome_view, push_chars,
    push_str, starts_with, string_of, strings_view, trim, trim_end_of, trim_end_of_len, trim_slice,
    utf8_lossy, word_len_at, words,
};

verus! {

// ---------------------------------------------------------------------------
// Settings and status
// ---------------------------------------------------------------------------

/// The user's settings for remote access.
#[derive(Debug, Clone)]
pub struct RemoteAccessSettings {
    /// Start remote access when the application starts.
    pub auto_start: bool,
}

impl Default for RemoteAccessSettings {
    fn default() -> (s: Self)
        ensures
            !s.auto_start,
    {
        RemoteAccessSettings { auto_start: false }
    }
}

/// The settings file of a user whose home directory is `home`:
/// `.side-ide/remote-access.json` below it.
pub fn settings_path(home: &str) -> (r: String)
    ensures
        r@ == path_join(path_join(home@, ".side-ide"@), "remote-access.json"@),
{
    let dir = join_path(home, ".side-ide");
    join_path(dir.as_str(), "remote-access.json")
}

/// What is known of remote access.
#[derive(Debug, Clone)]
pub struct RemoteAccessStatus {
    pub installed: bool,
    pub backend_state: Option<String>,
    pub auth_url: Option<String>,
    pub self_hostname: Option<String>,
    pub self_dns_name: Option<String>,
    pub tailscale_ips: Vec<String>,
    pub serve_enabled: bool,
    pub serve_url: Option<String>,
    pub settings: RemoteAccessSettings,
}

/// Whether serving is enabled and at which URL, as a model.
pub open spec fn serve_view(serve: (bool, Option<String>)) -> (bool, Option<Seq<char>>) {
    (serve.0, opt_view(serve.1))
}

/// What serving counts as in the status: what was found out where
/// Tailscale is installed and the query succeeded, else disabled.
pub open spec fn effective_serve(installed: bool, serve: Option<(bool, Option<String>)>) -> (
    bool,
    Option<Seq<char>>,
) {
    match serve {
        Some(found) => if installed {
            serve_view(found)
        } else {
            (false, None)
        },
        None => (false, None),
    }
}

/// Puts the status of remote access together from the settings, the
/// Tailscale summary, and what the serve query found out (`None` where it
/// failed or was not made).
pub fn get_status(
    settings: RemoteAccessSettings,
    ts: TailscaleStatusSummary,
    serve: Option<(bool, Option<String>)>,
) -> (status: RemoteAccessStatus)
    ensures
        status.installed == ts.installed,
        opt_view(status.backend_state) == ts@.backend_state,
        opt_view(status.auth_url) == ts@.auth_url,
        opt_view(status.self_hostname) == ts@.self_hostname,
        opt_view(status.self_dns_name) == ts@.self_dns_name,
        strings_view(status.tailscale_ips@) == ts@.tailscale_ips,
        (status.serve_enabled, opt_view(status.serve_url)) == effective_serve(ts.installed, serve),
        status.settings.auto_start == settings.auto_start,
{
    let (serve_enabled, serve_url) = match serve {
        Some(found) => if ts.installed {
            found
        } else {
            (false, None)
        },
        None => (false, None),
    };
    RemoteAccessStatus {
        installed: ts.installed,
        backend_state: ts.backend_state,
        auth_url: ts.auth_url,
        self_hostname: ts.self_hostname,
        self_dns_name: ts.self_dns_name,
        tailscale_ips: ts.tailscale_ips,
        serve_enabled,
        serve_url,
        settings,
    }
}

// ---------------------------------------------------------------------------
// Reading the serve status as text
// ---------------------------------------------------------------------------

/// Whether a status text shows that something is served: in lower case it
/// holds `https://` or `http://`.
pub open spec fn text_shows_serving(text: Seq<char>) -> bool {
    contains(lowercase(text), "https://"@) || contains(lowercase(text), "http://"@)
}

/// Whether a status text shows that something is served.
pub fn is_serve_enabled_from_text(text: &str) -> (b: bool)
    ensures
        b == text_shows_serving(text@),
{
    let lower = lowercase_string(text);
    let t = chars_of(lower.as_str());
    let https = chars_of("https://");
    let http = chars_of("http://");
    contains_in(t.as_slice(), https.as_slice()) || contains_in(t.as_slice(), http.as_slice())
}

/// The punctuation that is cut off the end of a URL found in running text.
pub open spec fn url_trailers() -> Seq<char> {
    seq!['.', ',', ';', ')', ']', '}']
}

/// The first of `ws` that starts with `https://`, without trailing
/// punctuation.
pub open spec fn first_https(ws: Seq<Seq<char>>) -> Option<Seq<char>>
    decreases ws.len(),
{
    if ws.len() == 0 {
        None
    } else if starts_with(ws[0], "https://"@) {
        Some(trim_end_of(ws[0], url_trailers()))
    } else {
        first_https(ws.drop_first())
    }
}

/// The URL that a status text shows: its first word that starts with
/// `https://`, without trailing punctuation.
pub open spec fn text_serve_url(text: Seq<char>) -> Option<Seq<char>> {
    first_https(words(text))
}

/// The first `https://` URL in a status text.
pub fn pick_serve_url_from_text(text: &str) -> (r: Option<String>)
    ensures
        opt_view(r) == text_serve_url(text@),
{
    let t = chars_of(text);
    let s = t.as_slice();
    let prefix = chars_of("https://");
    let trailers: [char; 6] = ['.', ',', ';', ')', ']', '}'];
    let mut pos: usize = 0;
    assert(s@.skip(0) =~= s@);
    while pos < s.len()
        invariant
            pos <= s.len(),
            s@ == text@,
            prefix@ == "https://"@,
            trailers@ == url_trailers(),
            text_serve_url(text@) == first_https(words(s@.skip(pos as int))),
        decreases s.len() - pos,
    {
        let ghost rest = s@.skip(pos as int);
        if is_space(s[pos]) {
            assert(rest.drop_first() =~= s@.skip(pos + 1));
            pos += 1;
        } else {
            let n = word_len_at(s, pos);
            proof {
                lemma_word_len_bound(rest);
                assert(rest.skip(n as int) =~= s@.skip(pos + n));
                assert(rest.take(n as int) =~= s@.subrange(pos as int, pos + n));
                let ws = words(rest);
                assert(ws.drop_first() =~= words(rest.skip(n as int)));
            }
            let word = slice_subrange(s, pos, pos + n);
            if matches_at(word, prefix.as_slice(), 0) {
                let keep = trim_end_of_len(word, trailers.as_slice());
                return Some(string_of(slice_subrange(word, 0, keep)));
            }
            pos += n;
        }
    }
    None
}

// ---------------------------------------------------------------------------
// Reading the serve status as JSON
// ---------------------------------------------------------------------------

/// The host and port under which the web configuration `v` serves: the
/// first key of its object `Web`.
pub open spec fn web_host(v: Json) -> Option<Seq<char>> {
    match v.field("Web"@) {
        Some(Json::Object(members)) => if members@.len() > 0 {
            Some(members@[0].0@)
        } else {
            None
        },
        _ => None,
    }
}

/// The host and port of the first of `configs` that serves.
pub open spec fn first_web_host(configs: Seq<(String, Json)>) -> Option<Seq<char>>
    decreases configs.len(),
{
    if configs.len() == 0 {
        None
    } else if web_host(configs[0].1) is Some {
        web_host(configs[0].1)
    } else {
        first_web_host(configs.drop_first())
    }
}

/// The host and port of the first configuration under the object `key` of
/// `v` that serves.
pub open spec fn nested_web_host(v: Json, key: Seq<char>) -> Option<Seq<char>> {
    match v.field(key) {
        Some(Json::Object(configs)) => first_web_host(configs@),
        _ => None,
    }
}

/// The host and port that a serve status names: that of its own `Web`
/// object, else of a configuration under `Foreground`, else of one under
/// `Background`.
pub open spec fn serve_host(v: Json) -> Option<Seq<char>> {
    if web_host(v) is Some {
        web_host(v)
    } else if nested_web_host(v, "Foreground"@) is Some {
        nested_web_host(v, "Foreground"@)
    } else {
        nested_web_host(v, "Background"@)
    }
}

/// The URL under which `host` is served.
pub open spec fn serve_url_of(host: Seq<char>) -> Seq<char> {
    "https://"@ + trim_end_of(host, seq!['/']) + "/"@
}

/// The host and port under which the web configuration `v` serves.
fn web_host_of(v: &Json) -> (r: Option<String>)
    ensures
        opt_view(r) == web_host(*v),
{
    match v.get("Web") {
        Some(web) => match web.as_object() {
            Some(members) => if members.len() > 0 {
                Some(members[0].0.clone())
            } else {
                None
            },
            None => None,
        },
        None => None,
    }
}

/// The host and port of the first configuration under `key` that serves.
fn nested_web_host_of(v: &Json, key: &str) -> (r: Option<String>)
    ensures
        opt_view(r) == nested_web_host(*v, key@),
{
    match v.get(key) {
        Some(group) => match group.as_object() {
            Some(configs) => {
                let mut i: usize = 0;
                assert(configs@.skip(0) =~= configs@);
                while i < configs.len()
                    invariant
                        i <= configs.len(),
                        nested_web_host(*v, key@) == first_web_host(configs@),
                        first_web_host(configs@) == first_web_host(configs@.skip(i as int)),
                    decreases configs.len() - i,
                {
                    assert(configs@.skip(i as int).drop_first() =~= configs@.skip(i + 1));
                    let found = web_host_of(&configs[i].1);
                    if found.is_some() {
                        return found;
                    }
                    i += 1;
                }
                None
            },
            None => None,
        },
        None => None,
    }
}

/// The URL under which `host` is served.
fn serve_url_for(host: &str) -> (url: String)
    ensures
        url@ == serve_url_of(host@),
{
    let h = chars_of(host);
    let slash: [char; 1] = ['/'];
    assert(slash@ =~= seq!['/']);
    let n = trim_end_of_len(h.as_slice(), slash.as_slice());
    let mut out: Vec<char> = Vec::new();
    push_str(&mut out, "https://");
    push_chars(&mut out, slice_subrange(h.as_slice(), 0, n));
    push_str(&mut out, "/");
    string_of(out.as_slice())
}

/// The URL that a parsed serve status names.
pub fn serve_url_from_json(v: &Json) -> (r: Option<String>)
    ensures
        opt_view(r) == match serve_host(*v) {
            Some(host) => Some(serve_url_of(host)),
            None => None,
        },
{
    let own = web_host_of(v);
    let host = if own.is_some() {
        own
    } else {
        let foreground = nested_web_host_of(v, "Foreground");
        if foreground.is_some() {
            foreground
        } else {
            nested_web_host_of(v, "Background")
        }
    };
    match host {
        Some(h) => Some(serve_url_for(h.as_str())),
        None => None,
    }
}

/// What a status text shows of serving.
pub open spec fn text_status(text: Seq<char>) -> (bool, Option<Seq<char>>) {
    (text_shows_serving(text), text_serve_url(text))
}

/// What a status text shows of serving.
fn status_from_text(text: &str) -> (r: (bool, Option<String>))
    ensures
        serve_view(r) == text_status(text@),
{
    (is_serve_enabled_from_text(text), pick_serve_url_from_text(text))
}

/// What the output of `tailscale serve status --json` shows: where it is
/// JSON that names a host, serving is enabled at that host's URL; else the
/// output is read as text.
pub open spec fn json_output_status(stdout: Seq<char>) -> (bool, Option<Seq<char>>) {
    match parsed_json(stdout) {
        Ok(v) => match serve_host(v) {
            Some(host) => (true, Some(serve_url_of(host))),
            None => text_status(stdout),
        },
        Err(_) => text_status(stdout),
    }
}

/// Reads the serve status from the run of `tailscale serve status --json`.
/// `None` where that run could not be started or failed: the plain status
/// is to be queried then.
pub fn serve_status_from_json_run(run: &Result<ToolOutput, String>) -> (r: Option<
    (bool, Option<String>),
>)
    ensures
        match *run {
            Ok(out) => if out.success {
                r is Some && serve_view(r->Some_0) == json_output_status(utf8_lossy(out.stdout@))
            } else {
                r is None
            },
            Err(_) => r is None,
        },
{
    match run {
        Ok(out) => {
            if !out.success {
                return None;
            }
            let stdout = lossy_string(out.stdout.as_slice());
            match parse_json(stdout.as_str()) {
                Ok(v) => {
                    match serve_url_from_json(&v) {
                        Some(url) => {
                            return Some((true, Some(url)));
                        },
                        None => {},
                    }
                },
                Err(_) => {},
            }
            Some(status_from_text(stdout.as_str()))
        },
        Err(_) => None,
    }
}

/// Reads the serve status from the run of `tailscale serve status`: from
/// what it printed to both streams, whatever its exit status. A run that
/// could not be started fails with its reason.
pub fn serve_status_from_plain_run(run: Result<ToolOutput, String>) -> (r: Result<
    (bool, Option<String>),
    String,
>)
    ensures
        match run {
            Ok(out) => r is Ok && serve_view(r->Ok_0) == text_status(
                utf8_lossy(out.stdout@) + "\n"@ + utf8_lossy(out.stderr@),
            ),
            Err(reason) => r is Err && r->Err_0@ == reason@,
        },
{
    match run {
        Ok(out) => {
            let stdout = lossy_string(out.stdout.as_slice());
            let stderr = lossy_string(out.stderr.as_slice());
            let mut combined: Vec<char> = Vec::new();
            push_str(&mut combined, stdout.as_str());
            push_str(&mut combined, "\n");
            push_str(&mut combined, stderr.as_str());
            let text = string_of(combined.as_slice());
            Ok(status_from_text(text.as_str()))
        },
        Err(reason) => Err(reason),
    }
}

// ---------------------------------------------------------------------------
// Starting and stopping
// ---------------------------------------------------------------------------

/// The ports on which serving is tried, in this order.
pub const SERVE_PORTS: [u16; 2] = [443, 8443];

/// The failure of a start for which no port was left to try.
pub const SERVE_PORTS_EXHAUSTED: &'static str =
    "tailscale serve failed: could not bind 443 or 8443";

/// The arguments of the Tailscale run that serves `local_port` over HTTPS
/// on `serve_port`.
pub fn serve_arguments(serve_port: u16, local_port: u16) -> (args: Vec<String>)
    ensures
        strings_view(args@) == seq![
            "serve"@,
            "--yes"@,
            "--bg"@,
            "--https"@,
            decimal_digits(serve_port as nat),
            decimal_digits(local_port as nat),
        ],
{
    let mut args: Vec<String> = Vec::new();
    args.push("serve".to_owned());
    args.push("--yes".to_owned());
    args.push("--bg".to_owned());
    args.push("--https".to_owned());
    args.push(decimal_string(serve_port));
    args.push(decimal_string(local_port));
    args
}

/// The message of a failed run: `prefix`, what the run printed to standard
/// output, a line feed, what it printed to standard error; trimmed.
pub open spec fn failure_text(prefix: Seq<char>, out: ToolOutput) -> Seq<char> {
    trim(prefix + utf8_lossy(out.stdout@) + "\n"@ + utf8_lossy(out.stderr@))
}

/// The message of a failed run.
fn failure_message(prefix: &str, stdout: &str, stderr: &str) -> (msg: String)
    ensures
        msg@ == trim(prefix@ + stdout@ + "\n"@ + stderr@),
{
    let mut out: Vec<char> = Vec::new();
    push_str(&mut out, prefix);
    push_str(&mut out, stdout);
    push_str(&mut out, "\n");
    push_str(&mut out, stderr);
    string_of(trim_slice(out.as_slice()))
}

/// What to do after an attempt to serve.
#[derive(Debug)]
pub enum ServeStep {
    /// Serving was started.
    Done,
    /// The port is taken: try the next one.
    TryNext,
    /// Give up with this message.
    Fail(String),
}

/// Model of a [`ServeStep`].
pub enum ServeStepView {
    Done,
    TryNext,
    Fail(Seq<char>),
}

impl View for ServeStep {
    type V = ServeStepView;

    open spec fn view(&self) -> ServeStepView {
        match self {
            ServeStep::Done => ServeStepView::Done,
            ServeStep::TryNext => ServeStepView::TryNext,
            ServeStep::Fail(m) => ServeStepView::Fail(m@),
        }
    }
}

/// The run reports that the port already has a listener.
pub open spec fn listener_exists(out: ToolOutput) -> bool {
    contains(utf8_lossy(out.stderr@), "listener already exists"@) || contains(
        utf8_lossy(out.stdout@),
        "listener already exists"@,
    )
}

/// What follows an attempt to serve on `serve_port`: a successful run ends
/// the start; a run that found port 443 taken asks for the next port; any
/// other run fails the start with what it printed.
pub open spec fn serve_step(serve_port: u16, out: ToolOutput) -> ServeStepView {
    if out.success {
        ServeStepView::Done
    } else if serve_port == 443 && listener_exists(out) {
        ServeStepView::TryNext
    } else {
        ServeStepView::Fail(failure_text("tailscale serve failed: "@, out))
    }
}

/// Decides what follows an attempt to serve on `serve_port`.
pub fn after_serve_attempt(serve_port: u16, out: &ToolOutput) -> (step: ServeStep)
    ensures
        step@ == serve_step(serve_port, *out),
{
    if out.success {
        return ServeStep::Done;
    }
    let stderr = lossy_string(out.stderr.as_slice());
    let stdout = lossy_string(out.stdout.as_slice());
    if serve_port == 443 {
        let marker = chars_of("listener already exists");
        let e = chars_of(stderr.as_str());
        let o = chars_of(stdout.as_str());
        if contains_in(e.as_slice(), marker.as_slice()) || contains_in(
            o.as_slice(),
            marker.as_slice(),
        ) {
            return ServeStep::TryNext;
        }
    }
    ServeStep::Fail(failure_message("tailscale serve failed: ", stdout.as_str(), stderr.as_str()))
}

/// The result of stopping remote access, given how `tailscale serve reset`
/// ended: a failed run fails with what it printed.
pub fn stop(out: &ToolOutput) -> (r: Result<(), String>)
    ensures
        outcome_view(r) == if out.success {
            Ok::<(), Seq<char>>(())
        } else {
            Err::<(), Seq<char>>(failure_text("tailscale serve reset failed: "@, *out))
        },
{
    if out.success {
        return Ok(());
    }
    let stdout = lossy_string(out.stdout.as_slice());
    let stderr = lossy_string(out.stderr.as_slice());
    Err(failure_message("tailscale serve reset failed: ", stdout.as_str(), stderr.as_str()))
}

} // verus!
