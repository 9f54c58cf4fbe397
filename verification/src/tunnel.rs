//! The tunnel client: its command line, and what its output tells.
//!
//! The client prints the public URL and an access password among its
//! output. Both are recognised by marker phrases; every line is read, and
//! whatever a later line tells replaces what an earlier one told.

use vstd::prelude::*;
use vstd::slice::slice_subrange;

use crate::common::validate_port;
use crate::common::{low_port_text, MIN_PORT};
use crate::text::{
    chars_of, decimal_digits, decimal_string, opt_view, second_piece, second_piece_bounds,
    string_of, strings_view, trim, trim_slice,
};

verus! {

/// Delay before the tunnel's URL is looked at, in seconds.
pub const TUNNEL_URL_DELAY_SECS: u64 = 2;

/// The text that follows the first `marker` in `line`, up to the next one,
/// trimmed.
pub open spec fn told_after(line: Seq<char>, marker: Seq<char>) -> Option<Seq<char>> {
    match second_piece(line, marker) {
        Some(piece) => Some(trim(piece)),
        None => None,
    }
}

/// The URL that a line of output tells: what follows `your url is:`.
pub open spec fn told_url(line: Seq<char>) -> Option<Seq<char>> {
    told_after(line, "your url is:"@)
}

/// The password that a line of output tells: what follows
/// `your password is:`, else what follows `your ip:`.
pub open spec fn told_password(line: Seq<char>) -> Option<Seq<char>> {
    if told_after(line, "your password is:"@) is Some {
        told_after(line, "your password is:"@)
    } else {
        told_after(line, "your ip:"@)
    }
}

/// The text that follows the first `marker` in `line`.
fn told_after_in(line: &[char], marker: &str) -> (r: Option<String>)
    ensures
        opt_view(r) == told_after(line@, marker@),
{
    let m = chars_of(marker);
    match second_piece_bounds(line, m.as_slice()) {
        Some((a, b)) => Some(string_of(trim_slice(slice_subrange(line, a, b)))),
        None => None,
    }
}

/// The URL that a line of the client's output tells.
pub fn capture_url(line: &str) -> (r: Option<String>)
    ensures
        opt_view(r) == told_url(line@),
{
    let text = chars_of(line);
    told_after_in(text.as_slice(), "your url is:")
}

/// The password that a line of the client's output tells.
pub fn capture_password(line: &str) -> (r: Option<String>)
    ensures
        opt_view(r) == told_password(line@),
{
    let text = chars_of(line);
    let first = told_after_in(text.as_slice(), "your password is:");
    if first.is_some() {
        first
    } else {
        told_after_in(text.as_slice(), "your ip:")
    }
}

/// What the tunnel client told so far.
#[derive(Debug, Clone)]
pub struct TunnelCapture {
    /// The public URL of the tunnel.
    pub url: Option<String>,
    /// The password for accessing the tunnel.
    pub password: Option<String>,
}

impl TunnelCapture {
    /// Nothing was told yet.
    pub fn new() -> (c: Self)
        ensures
            c.url is None,
            c.password is None,
    {
        TunnelCapture { url: None, password: None }
    }

    /// Reads one more line of the client's output. What the line tells
    /// replaces what was known; what it does not tell stays.
    pub fn observe_line(&mut self, line: &str)
        ensures
            opt_view(final(self).url) == match told_url(line@) {
                Some(u) => Some(u),
                None => opt_view(old(self).url),
            },
            opt_view(final(self).password) == match told_password(line@) {
                Some(p) => Some(p),
                None => opt_view(old(self).password),
            },
    {
        match capture_url(line) {
            Some(u) => {
                self.url = Some(u);
            },
            None => {},
        }
        match capture_password(line) {
            Some(p) => {
                self.password = Some(p);
            },
            None => {},
        }
    }
}

/// The URL of the tunnel, if the client told it.
pub fn get_url(capture: &TunnelCapture) -> (r: Option<String>)
    ensures
        opt_view(r) == opt_view(capture.url),
{
    match &capture.url {
        Some(u) => Some(u.clone()),
        None => None,
    }
}

/// The password of the tunnel, if the client told it.
pub fn get_password(capture: &TunnelCapture) -> (r: Option<String>)
    ensures
        opt_view(r) == opt_view(capture.password),
{
    match &capture.password {
        Some(p) => Some(p.clone()),
        None => None,
    }
}

/// The arguments that the package runner is started with for a tunnel to
/// `port`. A port below 1024 is rejected.
pub fn tunnel_arguments(port: u16) -> (r: Result<Vec<String>, String>)
    ensures
        match r {
            Ok(args) => port >= MIN_PORT && strings_view(args@) == seq![
                "localtunnel"@,
                "--port"@,
                decimal_digits(port as nat),
            ],
            Err(e) => port < MIN_PORT && e@ == low_port_text(port),
        },
{
    match validate_port(port) {
        Ok(()) => {
            let mut args: Vec<String> = Vec::new();
            args.push("localtunnel".to_owned());
            args.push("--port".to_owned());
            args.push(decimal_string(port));
            Ok(args)
        },
        Err(e) => Err(e),
    }
}

} // verus!
