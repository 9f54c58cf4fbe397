//! Tailscale's status: finding the command, and reading what
//! `tailscale status --json` prints.

use vstd::prelude::*;

use crate::common::on_search_path;
use crate::json::{parse_json, parsed_json, Json};
use crate::text::{lossy_string, opt_view, push_str, string_of, strings_view, utf8_lossy};

verus! {

/// What is known of the Tailscale installation and of this device.
#[derive(Debug, Clone, PartialEq, Eq)]
pub struct TailscaleStatusSummary {
    /// Whether the `tailscale` command appears to be installed.
    pub installed: bool,
    /// Backend state, such as `Running` or `NeedsLogin`.
    pub backend_state: Option<String>,
    /// Login URL to authorize this device.
    pub auth_url: Option<String>,
    /// Device hostname.
    pub self_hostname: Option<String>,
    /// Device MagicDNS name.
    pub self_dns_name: Option<String>,
    /// Device Tailscale addresses.
    pub tailscale_ips: Vec<String>,
}

/// Mathematical model of a [`TailscaleStatusSummary`].
pub struct StatusSummaryView {
    pub installed: bool,
    pub backend_state: Option<Seq<char>>,
    pub auth_url: Option<Seq<char>>,
    pub self_hostname: Option<Seq<char>>,
    pub self_dns_name: Option<Seq<char>>,
    pub tailscale_ips: Seq<Seq<char>>,
}

impl View for TailscaleStatusSummary {
    type V = StatusSummaryView;

    open spec fn view(&self) -> StatusSummaryView {
        StatusSummaryView {
            installed: self.installed,
            backend_state: opt_view(self.backend_state),
            auth_url: opt_view(self.auth_url),
            self_hostname: opt_view(self.self_hostname),
            self_dns_name: opt_view(self.self_dns_name),
            tailscale_ips: strings_view(self.tailscale_ips@),
        }
    }
}

/// The string member `key` of `v`.
pub open spec fn text_field(v: Json, key: Seq<char>) -> Option<Seq<char>> {
    match v.field(key) {
        Some(member) => member.text(),
        None => None,
    }
}

/// The string member `key` of the member `outer` of `v`.
pub open spec fn nested_text(v: Json, outer: Seq<char>, key: Seq<char>) -> Option<Seq<char>> {
    match v.field(outer) {
        Some(inner) => text_field(inner, key),
        None => None,
    }
}

/// The texts of the strings among `items`, in order.
pub open spec fn texts_of(items: Seq<Json>) -> Seq<Seq<char>>
    decreases items.len(),
{
    if items.len() == 0 {
        Seq::empty()
    } else {
        let before = texts_of(items.drop_last());
        match items.last().text() {
            Some(t) => before.push(t),
            None => before,
        }
    }
}

/// The device's addresses: the strings of the array `TailscaleIPs` of the
/// member `Self`; none where that array is missing.
pub open spec fn device_addresses(v: Json) -> Seq<Seq<char>> {
    match v.field("Self"@) {
        Some(device) => match device.field("TailscaleIPs"@) {
            Some(Json::Array(items)) => texts_of(items@),
            _ => Seq::empty(),
        },
        None => Seq::empty(),
    }
}

/// The summary of a parsed status: each field is taken where the status
/// holds it as a string, and left out otherwise.
pub open spec fn status_summary(v: Json) -> StatusSummaryView {
    StatusSummaryView {
        installed: true,
        backend_state: text_field(v, "BackendState"@),
        auth_url: text_field(v, "AuthURL"@),
        self_hostname: nested_text(v, "Self"@, "HostName"@),
        self_dns_name: nested_text(v, "Self"@, "DNSName"@),
        tailscale_ips: device_addresses(v),
    }
}

/// The summary of an installation of which nothing more is known.
pub open spec fn blank_summary(installed: bool) -> StatusSummaryView {
    StatusSummaryView {
        installed,
        backend_state: None,
        auth_url: None,
        self_hostname: None,
        self_dns_name: None,
        tailscale_ips: Seq::empty(),
    }
}

/// The string member `key` of `v`.
fn text_field_of(v: &Json, key: &str) -> (r: Option<String>)
    ensures
        opt_view(r) == text_field(*v, key@),
{
    match v.get(key) {
        Some(member) => match member.as_str() {
            Some(s) => Some(s.clone()),
            None => None,
        },
        None => None,
    }
}

/// The string member `key` of the member `outer` of `v`.
fn nested_text_of(v: &Json, outer: &str, key: &str) -> (r: Option<String>)
    ensures
        opt_view(r) == nested_text(*v, outer@, key@),
{
    match v.get(outer) {
        Some(inner) => text_field_of(inner, key),
        None => None,
    }
}

/// The device's addresses.
fn device_addresses_of(v: &Json) -> (r: Vec<String>)
    ensures
        strings_view(r@) == device_addresses(*v),
{
    let mut out: Vec<String> = Vec::new();
    match v.get("Self") {
        Some(device) => match device.get("TailscaleIPs") {
            Some(list) => match list.as_array() {
                Some(items) => {
                    let mut i: usize = 0;
                    while i < items.len()
                        invariant
                            i <= items.len(),
                            strings_view(out@) == texts_of(items@.take(i as int)),
                        decreases items.len() - i,
                    {
                        proof {
                            let t = items@.take(i + 1);
                            assert(t.drop_last() =~= items@.take(i as int));
                        }
                        match items[i].as_str() {
                            Some(s) => {
                                let copy = s.clone();
                                out.push(copy);
                            },
                            None => {},
                        }
                        i += 1;
                    }
                    assert(items@.take(items.len() as int) =~= items@);
                    out
                },
                None => out,
            },
            None => out,
        },
        None => out,
    }
}

/// The summary of a parsed status.
pub fn summarize_status(v: &Json) -> (s: TailscaleStatusSummary)
    ensures
        s@ == status_summary(*v),
{
    TailscaleStatusSummary {
        installed: true,
        backend_state: text_field_of(v, "BackendState"),
        auth_url: text_field_of(v, "AuthURL"),
        self_hostname: nested_text_of(v, "Self", "HostName"),
        self_dns_name: nested_text_of(v, "Self", "DNSName"),
        tailscale_ips: device_addresses_of(v),
    }
}

/// Parses the output of `tailscale status --json` into a summary.
///
/// A text that is no JSON is rejected with `Invalid JSON: ` and the
/// parser's message. Every JSON value gives a summary.
pub fn parse_status_json(json: &str) -> (r: Result<TailscaleStatusSummary, String>)
    ensures
        match parsed_json(json@) {
            Ok(v) => r is Ok && r->Ok_0@ == status_summary(v),
            Err(e) => r is Err && r->Err_0@ == "Invalid JSON: "@ + e,
        },
{
    match parse_json(json) {
        Ok(v) => Ok(summarize_status(&v)),
        Err(e) => {
            let mut msg: Vec<char> = Vec::new();
            push_str(&mut msg, "Invalid JSON: ");
            push_str(&mut msg, e.as_str());
            Err(string_of(msg.as_slice()))
        },
    }
}

/// The summary of an installation of which nothing more is known.
pub fn blank_status(installed: bool) -> (s: TailscaleStatusSummary)
    ensures
        s@ == blank_summary(installed),
{
    let ips: Vec<String> = Vec::new();
    assert(strings_view(ips@) =~= Seq::<Seq<char>>::empty());
    TailscaleStatusSummary {
        installed,
        backend_state: None,
        auth_url: None,
        self_hostname: None,
        self_dns_name: None,
        tailscale_ips: ips,
    }
}

/// The summary, given whether the command was found and what the status
/// query printed (`None` where it could not be run).
///
/// Without the command nothing is installed. A query that could not be
/// run, or whose output is no JSON, leaves all fields but `installed`
/// empty.
pub fn get_status_summary(command_found: bool, stdout: Option<&[u8]>) -> (s: TailscaleStatusSummary)
    ensures
        s@ == if !command_found {
            blank_summary(false)
        } else {
            match stdout {
                Some(bytes) => match parsed_json(utf8_lossy(bytes@)) {
                    Ok(v) => status_summary(v),
                    Err(_) => blank_summary(true),
                },
                None => blank_summary(true),
            }
        },
{
    if !command_found {
        return blank_status(false);
    }
    match stdout {
        Some(bytes) => {
            let text = lossy_string(bytes);
            match parse_status_json(text.as_str()) {
                Ok(s) => s,
                Err(_) => blank_status(true),
            }
        },
        None => blank_status(true),
    }
}

/// The Tailscale command, given whether `tailscale` is on the search path.
pub fn choose_tailscale(on_path: bool) -> (r: Option<String>)
    ensures
        opt_view(r) == if on_path {
            Some("tailscale"@)
        } else {
            None::<Seq<char>>
        },
{
    if on_path {
        Some("tailscale".to_owned())
    } else {
        None
    }
}

/// Finds a usable Tailscale command: `tailscale` where it is on the search
/// path.
pub fn find_tailscale_command() -> (r: Option<String>)
    ensures
        r is Some ==> r->Some_0@ == "tailscale"@,
{
    choose_tailscale(on_search_path("tailscale"))
}

} // verus!
