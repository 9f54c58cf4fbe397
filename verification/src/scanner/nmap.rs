//! Delegating a scan to nmap: its command line, and reading its XML output.
//!
//! The output is scanned as text, line by line. It is never rejected: what
//! cannot be read leaves the report's fields as they were.

use vstd::prelude::*;
use vstd::slice::slice_subrange;

use crate::common::ToolOutput;
use crate::scanner::types::{
    ports_view, services_view, PortInfo, PortInfoView, PortStatus, ScanResult, ScanResultView,
    ServiceInfo, ServiceInfoView,
};
use crate::text::{
    chars_of, contains, contains_in, decimal_digits, is_text, line_at, lines, lossy_string,
    opt_view, parse_u16, parse_u16_in, push_decimal, push_str, quoted_after, quoted_after_in,
    string_of, strings_view, utf8_lossy,
};

verus! {

// ---------------------------------------------------------------------------
// Reading the output
// ---------------------------------------------------------------------------

/// The value of the attribute `attr` in `line`: the text between the first
/// `attr="` and the next double quote.
pub open spec fn attr_value(line: Seq<char>, attr: Seq<char>) -> Option<Seq<char>> {
    quoted_after(line, attr + "=\""@)
}

/// The status that a port's `state` attribute stands for.
pub open spec fn status_of(state: Seq<char>) -> PortStatus {
    if state == "open"@ {
        PortStatus::Open
    } else if state == "closed"@ {
        PortStatus::Closed
    } else {
        PortStatus::Filtered
    }
}

/// `value`, or `default` where there is none.
pub open spec fn or_default(value: Option<Seq<char>>, default: Seq<char>) -> Seq<char> {
    match value {
        Some(v) => v,
        None => default,
    }
}

/// The host address after `line`. While the host is still `unknown`, a
/// line with an address element (`<address `) sets it to the value of its
/// `addr`. So the first address line that gives a value decides; the lines
/// behind it, such as the one with the host's hardware address, change
/// nothing.
pub open spec fn host_after(host: Seq<char>, line: Seq<char>) -> Seq<char> {
    if host == "unknown"@ && contains(line, "<address "@) {
        or_default(attr_value(line, "addr"@), host)
    } else {
        host
    }
}

/// The port that a line with `<port ` describes, if its `portid` is a port
/// number. The protocol defaults to `tcp`; a state other than `open` and
/// `closed`, or none, counts as filtered.
pub open spec fn port_record(line: Seq<char>) -> Option<PortInfoView> {
    if contains(line, "<port "@) {
        match attr_value(line, "portid"@) {
            Some(id) => match parse_u16(id) {
                Some(port) => Some(
                    PortInfoView {
                        port,
                        status: status_of(or_default(attr_value(line, "state"@), "unknown"@)),
                        protocol: or_default(attr_value(line, "protocol"@), "tcp"@),
                        service: None,
                        version: None,
                    },
                ),
                None => None,
            },
            None => None,
        }
    } else {
        None
    }
}

/// The service that a line with `<service ` describes: named by its
/// `product`, else by its `name`, else `unknown`.
pub open spec fn service_record(line: Seq<char>) -> Option<ServiceInfoView> {
    if contains(line, "<service "@) {
        let name = or_default(attr_value(line, "name"@), "unknown"@);
        Some(
            ServiceInfoView {
                name: or_default(attr_value(line, "product"@), name),
                version: attr_value(line, "version"@),
                info: Some(name),
            },
        )
    } else {
        None
    }
}

/// The operating system that a line with `<osmatch ` names.
pub open spec fn os_match(line: Seq<char>) -> Option<Seq<char>> {
    if contains(line, "<osmatch "@) {
        attr_value(line, "name"@)
    } else {
        None
    }
}

/// The report before any line was read.
pub open spec fn unknown_report() -> ScanResultView {
    ScanResultView {
        host: "unknown"@,
        ports: Seq::empty(),
        os_guess: None,
        services: Seq::empty(),
    }
}

/// The report `r` after one more line was read.
pub open spec fn report_after_line(r: ScanResultView, line: Seq<char>) -> ScanResultView {
    ScanResultView {
        host: host_after(r.host, line),
        ports: match port_record(line) {
            Some(p) => r.ports.push(p),
            None => r.ports,
        },
        os_guess: match os_match(line) {
            Some(name) => Some(name),
            None => r.os_guess,
        },
        services: match service_record(line) {
            Some(s) => r.services.push(s),
            None => r.services,
        },
    }
}

/// The report `r` after the lines `ls` were read in order.
pub open spec fn report_after_lines(r: ScanResultView, ls: Seq<Seq<char>>) -> ScanResultView
    decreases ls.len(),
{
    if ls.len() == 0 {
        r
    } else {
        report_after_lines(report_after_line(r, ls[0]), ls.drop_first())
    }
}

/// The report that nmap's XML output `xml` stands for.
pub open spec fn nmap_report(xml: Seq<char>) -> ScanResultView {
    report_after_lines(unknown_report(), lines(xml))
}

/// An empty output gives the report with no port, no service and no
/// operating system.
pub proof fn lemma_empty_output()
    ensures
        nmap_report(Seq::empty()) == unknown_report(),
{
}

/// The value of the attribute `attr` in `line`.
fn attr_value_in(line: &[char], attr: &str) -> (r: Option<String>)
    ensures
        opt_view(r) == attr_value(line@, attr@),
{
    let mut opening: Vec<char> = Vec::new();
    push_str(&mut opening, attr);
    push_str(&mut opening, "=\"");
    quoted_after_in(line, opening.as_slice())
}

/// Extracts the value of an attribute from an XML-like line: the text
/// between the first `attr="` and the next double quote.
pub fn extract_attr(line: &str, attr: &str) -> (r: Option<String>)
    ensures
        opt_view(r) == attr_value(line@, attr@),
{
    let text = chars_of(line);
    attr_value_in(text.as_slice(), attr)
}

/// `value`, or a copy of `default` where there is none.
fn or_default_in(value: Option<String>, default: &str) -> (r: String)
    ensures
        r@ == or_default(opt_view(value), default@),
{
    match value {
        Some(v) => v,
        None => default.to_owned(),
    }
}

/// Whether `line` holds the text `marker`.
fn holds(line: &[char], marker: &str) -> (b: bool)
    ensures
        b == contains(line@, marker@),
{
    let m = chars_of(marker);
    contains_in(line, m.as_slice())
}

/// The host address after `line`.
fn host_after_in(host: String, line: &[char]) -> (r: String)
    ensures
        r@ == host_after(host@, line@),
{
    let known = chars_of(host.as_str());
    if is_text(known.as_slice(), "unknown") && holds(line, "<address ") {
        match attr_value_in(line, "addr") {
            Some(v) => v,
            None => host,
        }
    } else {
        host
    }
}

/// The status that a port's `state` attribute stands for.
fn status_of_in(state: &String) -> (r: PortStatus)
    ensures
        r == status_of(state@),
{
    let s = chars_of(state.as_str());
    if is_text(s.as_slice(), "open") {
        PortStatus::Open
    } else if is_text(s.as_slice(), "closed") {
        PortStatus::Closed
    } else {
        PortStatus::Filtered
    }
}

/// The port that `line` describes.
fn port_record_in(line: &[char]) -> (r: Option<PortInfo>)
    ensures
        match r {
            Some(p) => port_record(line@) == Some(p@),
            None => port_record(line@) is None,
        },
{
    if !holds(line, "<port ") {
        return None;
    }
    match attr_value_in(line, "portid") {
        Some(id) => {
            let digits = chars_of(id.as_str());
            match parse_u16_in(digits.as_slice()) {
                Some(port) => {
                    let protocol = or_default_in(attr_value_in(line, "protocol"), "tcp");
                    let state = or_default_in(attr_value_in(line, "state"), "unknown");
                    let status = status_of_in(&state);
                    Some(PortInfo { port, status, protocol, service: None, version: None })
                },
                None => None,
            }
        },
        None => None,
    }
}

/// The service that `line` describes.
fn service_record_in(line: &[char]) -> (r: Option<ServiceInfo>)
    ensures
        match r {
            Some(s) => service_record(line@) == Some(s@),
            None => service_record(line@) is None,
        },
{
    if !holds(line, "<service ") {
        return None;
    }
    let name = or_default_in(attr_value_in(line, "name"), "unknown");
    let version = attr_value_in(line, "version");
    let product = attr_value_in(line, "product");
    let shown = match product {
        Some(p) => p,
        None => name.clone(),
    };
    Some(ServiceInfo { name: shown, version, info: Some(name) })
}

/// The operating system that `line` names.
fn os_match_in(line: &[char]) -> (r: Option<String>)
    ensures
        opt_view(r) == os_match(line@),
{
    if holds(line, "<osmatch ") {
        attr_value_in(line, "name")
    } else {
        None
    }
}

/// Parses nmap's XML output into a scan report.
///
/// Every input gives exactly one report. Per line: a host address, a port
/// with its state and protocol, a service with its name, product and
/// version, and the name of an operating-system match are taken where they
/// can be read; everything else is passed over.
pub fn parse_nmap_xml(xml: &str) -> (r: Result<Vec<ScanResult>, String>)
    ensures
        r is Ok,
        r->Ok_0@.len() == 1,
        r->Ok_0@[0]@ == nmap_report(xml@),
{
    let text = chars_of(xml);
    let s = text.as_slice();
    let mut host: String = "unknown".to_owned();
    let mut ports: Vec<PortInfo> = Vec::new();
    let mut os_guess: Option<String> = None;
    let mut services: Vec<ServiceInfo> = Vec::new();
    let mut pos: usize = 0;
    assert(s@.skip(0) =~= s@);
    assert(ports_view(ports@) =~= Seq::<PortInfoView>::empty());
    assert(services_view(services@) =~= Seq::<ServiceInfoView>::empty());
    while pos < s.len()
        invariant
            pos <= s.len(),
            s@ == xml@,
            nmap_report(xml@) == report_after_lines(
                ScanResultView {
                    host: host@,
                    ports: ports_view(ports@),
                    os_guess: opt_view(os_guess),
                    services: services_view(services@),
                },
                lines(s@.skip(pos as int)),
            ),
        decreases s.len() - pos,
    {
        let (end, next) = line_at(s, pos);
        let line = slice_subrange(s, pos, end);
        proof {
            let ls = lines(s@.skip(pos as int));
            assert(ls.drop_first() =~= lines(s@.skip(next as int)));
        }
        host = host_after_in(host, line);
        match port_record_in(line) {
            Some(p) => {
                assert(ports_view(ports@.push(p)) =~= ports_view(ports@).push(p@));
                ports.push(p);
            },
            None => {},
        }
        match service_record_in(line) {
            Some(sv) => {
                assert(services_view(services@.push(sv)) =~= services_view(services@).push(sv@));
                services.push(sv);
            },
            None => {},
        }
        match os_match_in(line) {
            Some(name) => {
                os_guess = Some(name);
            },
            None => {},
        }
        pos = next;
    }
    let report = ScanResult { host, ports, os_guess, services };
    Ok(vec![report])
}

// ---------------------------------------------------------------------------
// Running the tool
// ---------------------------------------------------------------------------

/// The decimal numbers of `ports`, separated by commas.
pub open spec fn port_list(ports: Seq<u16>) -> Seq<char>
    decreases ports.len(),
{
    if ports.len() == 0 {
        Seq::empty()
    } else if ports.len() == 1 {
        decimal_digits(ports[0] as nat)
    } else {
        port_list(ports.drop_last()) + seq![','] + decimal_digits(ports.last() as nat)
    }
}

/// The arguments that nmap is run with: the host, `-p` with the port list
/// where ports are given, `-O` for operating-system detection, `-sV` for
/// version detection, then XML output to standard output and fast timing.
pub open spec fn nmap_args(
    host: Seq<char>,
    ports: Option<Seq<u16>>,
    os_detection: bool,
    version_detection: bool,
) -> Seq<Seq<char>> {
    seq![host] + (match ports {
        Some(p) => seq!["-p"@, port_list(p)],
        None => Seq::empty(),
    }) + (if os_detection {
        seq!["-O"@]
    } else {
        Seq::empty()
    }) + (if version_detection {
        seq!["-sV"@]
    } else {
        Seq::empty()
    }) + seq!["-oX"@, "-"@, "-T4"@]
}

/// The decimal numbers of `ports`, separated by commas.
fn port_list_in(ports: &Vec<u16>) -> (r: String)
    ensures
        r@ == port_list(ports@),
{
    let mut out: Vec<char> = Vec::new();
    let mut i: usize = 0;
    while i < ports.len()
        invariant
            i <= ports.len(),
            out@ == port_list(ports@.take(i as int)),
        decreases ports.len() - i,
    {
        if i > 0 {
            out.push(',');
        }
        push_decimal(&mut out, ports[i]);
        proof {
            let t = ports@.take(i + 1);
            assert(t.drop_last() =~= ports@.take(i as int));
        }
        i += 1;
    }
    assert(ports@.take(ports.len() as int) =~= ports@);
    string_of(out.as_slice())
}

/// The arguments of the nmap run for a scan of `host`.
pub fn nmap_arguments(
    host: &str,
    ports: &Option<Vec<u16>>,
    os_detection: bool,
    version_detection: bool,
) -> (args: Vec<String>)
    ensures
        strings_view(args@) == nmap_args(
            host@,
            match *ports {
                Some(p) => Some(p@),
                None => None,
            },
            os_detection,
            version_detection,
        ),
{
    let mut args: Vec<String> = Vec::new();
    args.push(host.to_owned());
    match ports {
        Some(p) => {
            args.push("-p".to_owned());
            args.push(port_list_in(p));
        },
        None => {},
    }
    if os_detection {
        args.push("-O".to_owned());
    }
    if version_detection {
        args.push("-sV".to_owned());
    }
    args.push("-oX".to_owned());
    args.push("-".to_owned());
    args.push("-T4".to_owned());
    args
}

/// The result of a delegated scan, given how the nmap run ended.
///
/// A run that could not be started fails with `Failed to run nmap: ` and
/// the reason; a run that exited with another status than zero fails with
/// `nmap scan failed: ` and what it wrote to standard error. Otherwise the
/// report is read from standard output.
pub fn scan_with_nmap(run: Result<ToolOutput, String>) -> (r: Result<Vec<ScanResult>, String>)
    ensures
        match run {
            Err(reason) => r is Err && r->Err_0@ == "Failed to run nmap: "@ + reason@,
            Ok(out) => if out.success {
                r is Ok && r->Ok_0@.len() == 1 && r->Ok_0@[0]@ == nmap_report(
                    utf8_lossy(out.stdout@),
                )
            } else {
                r is Err && r->Err_0@ == "nmap scan failed: "@ + utf8_lossy(out.stderr@)
            },
        },
{
    match run {
        Err(reason) => {
            let mut msg: Vec<char> = Vec::new();
            push_str(&mut msg, "Failed to run nmap: ");
            push_str(&mut msg, reason.as_str());
            Err(string_of(msg.as_slice()))
        },
        Ok(out) => {
            if !out.success {
                let diagnostics = lossy_string(out.stderr.as_slice());
                let mut msg: Vec<char> = Vec::new();
                push_str(&mut msg, "nmap scan failed: ");
                push_str(&mut msg, diagnostics.as_str());
                Err(string_of(msg.as_slice()))
            } else {
                let xml = lossy_string(out.stdout.as_slice());
                parse_nmap_xml(xml.as_str())
            }
        },
    }
}

} // verus!
