//! The scan of one host: gathering the probes, guessing the operating
//! system, naming the services, and assembling the report.

use vstd::prelude::*;

use crate::scanner::banner::{banner_version, parse_version_from_banner};
use crate::scanner::nmap::or_default;
use crate::scanner::probe::{
    batches, batches_view, closed_count, joined, lemma_batches, lemma_joined_concat, open_ports,
    outcome_at, outcome_of, plan_batches, ports_to_scan, probe_info, probe_port, resolved_ports,
    ProbeOutcome,
};
use crate::scanner::tables::{fingerprint, service_fingerprint};
use crate::scanner::types::{
    ports_view, services_view, PortInfo, PortInfoView, PortStatus, ScanOptions, ScanResult,
    ScanResultView, ServiceInfo, ServiceInfoView,
};
use crate::text::{chars_of, lossy_string, opt_view, string_of, trim, trim_slice, utf8_lossy};

verus! {

// ---------------------------------------------------------------------------
// Gathering the probes
// ---------------------------------------------------------------------------

/// What the probes of a scan add up to.
#[derive(Debug)]
pub struct ProbeTally {
    /// The open ports, in the order in which they were probed.
    pub open: Vec<PortInfo>,
    /// How many ports were closed.
    pub closed: usize,
}

/// The first `j` batches join to a prefix of all the batches joined, and the
/// next batch follows it.
proof fn lemma_joined_take(bs: Seq<Seq<u16>>, j: int)
    requires
        0 <= j < bs.len(),
    ensures
        joined(bs.take(j + 1)) == joined(bs.take(j)) + bs[j],
        joined(bs) == joined(bs.take(j + 1)) + joined(bs.skip(j + 1)),
{
    assert(bs.take(j + 1).drop_last() =~= bs.take(j));
    lemma_joined_concat(bs.take(j + 1), bs.skip(j + 1));
    assert(bs.take(j + 1) + bs.skip(j + 1) =~= bs);
}

/// Gathers the probes of `ports`, batch by batch: each batch holds at most
/// `parallelism` ports, and a batch is gathered whole before the next.
///
/// What comes out does not depend on `parallelism`: the open ports are those
/// whose probe connected, in the order of `ports`.
pub fn collect_probes(ports: &[u16], parallelism: usize, outcomes: &[ProbeOutcome]) -> (t:
    ProbeTally)
    requires
        parallelism >= 1,
    ensures
        ports_view(t.open@) == open_ports(ports@, outcomes@),
        t.closed == closed_count(ports@, outcomes@),
{
    let plan = plan_batches(ports, parallelism);
    let n = ports.len();
    let mut open: Vec<PortInfo> = Vec::new();
    let mut closed: usize = 0;
    let mut offset: usize = 0;
    let mut j: usize = 0;
    proof {
        lemma_batches(ports@, parallelism as nat);
    }
    while j < plan.len()
        invariant
            j <= plan.len(),
            n == ports.len(),
            offset <= n,
            closed <= offset,
            joined(batches_view(plan@)) == ports@,
            joined(batches_view(plan@).take(j as int)) == ports@.take(offset as int),
            ports_view(open@) == open_ports(ports@.take(offset as int), outcomes@),
            closed == closed_count(ports@.take(offset as int), outcomes@),
        decreases plan.len() - j,
    {
        let batch = &plan[j];
        let size = batch.len();
        proof {
            let bs = batches_view(plan@);
            lemma_joined_take(bs, j as int);
        }
        let mut k: usize = 0;
        while k < size
            invariant
                k <= size,
                size == batch.len(),
                n == ports.len(),
                offset + size <= n,
                closed <= offset + k,
                ports@.subrange(offset as int, offset + size) == batch@,
                ports_view(open@) == open_ports(ports@.take(offset + k), outcomes@),
                closed == closed_count(ports@.take(offset + k), outcomes@),
            decreases size - k,
        {
            let port = batch[k];
            let outcome = outcome_of(outcomes, offset + k);
            proof {
                let t = ports@.take(offset + k + 1);
                assert(t.drop_last() =~= ports@.take(offset + k));
            }
            match probe_port(port, outcome) {
                Some(info) => match info.status {
                    PortStatus::Open => {
                        open.push(info);
                    },
                    PortStatus::Closed => {
                        closed += 1;
                    },
                    PortStatus::Filtered => {},
                },
                None => {},
            }
            k += 1;
        }
        offset += size;
        j += 1;
    }
    proof {
        assert(batches_view(plan@).take(plan.len() as int) =~= batches_view(plan@));
    }
    ProbeTally { open, closed }
}

// ---------------------------------------------------------------------------
// Guessing the operating system
// ---------------------------------------------------------------------------

/// `port` is among the open ports.
pub open spec fn has_port(open: Seq<PortInfoView>, port: u16) -> bool {
    exists|i: int| 0 <= i < open.len() && (#[trigger] open[i]).port == port
}

/// One of the ports that Windows hosts usually serve is open.
pub open spec fn has_windows_ports(open: Seq<PortInfoView>) -> bool {
    has_port(open, 135) || has_port(open, 445) || has_port(open, 3389)
}

/// One of the ports that Unix hosts usually serve is open.
pub open spec fn has_unix_ports(open: Seq<PortInfoView>) -> bool {
    has_port(open, 22) || has_port(open, 111)
}

/// The operating system that the open ports point to: none without an open
/// port; `Windows` or `Unix/Linux` where only that family's ports are open;
/// `Unknown` where both or neither are.
pub open spec fn os_guess(open: Seq<PortInfoView>) -> Option<Seq<char>> {
    if open.len() == 0 {
        None
    } else if has_windows_ports(open) && !has_unix_ports(open) {
        Some("Windows"@)
    } else if has_unix_ports(open) && !has_windows_ports(open) {
        Some("Unix/Linux"@)
    } else {
        Some("Unknown"@)
    }
}

/// Whether `port` is among `open`.
fn is_open(open: &[PortInfo], port: u16) -> (b: bool)
    ensures
        b == has_port(ports_view(open@), port),
{
    let mut i: usize = 0;
    while i < open.len()
        invariant
            i <= open.len(),
            forall|k: int| 0 <= k < i ==> (#[trigger] ports_view(open@)[k]).port != port,
        decreases open.len() - i,
    {
        if open[i].port == port {
            assert(ports_view(open@)[i as int].port == port);
            return true;
        }
        i += 1;
    }
    false
}

/// Guesses the operating system of a host from its open ports.
pub fn detect_os(_host: &str, open_ports: &[PortInfo]) -> (r: Option<String>)
    ensures
        opt_view(r) == os_guess(ports_view(open_ports@)),
{
    if open_ports.len() == 0 {
        return None;
    }
    let windows = is_open(open_ports, 135) || is_open(open_ports, 445) || is_open(open_ports, 3389);
    let unix = is_open(open_ports, 22) || is_open(open_ports, 111);
    if windows && !unix {
        Some("Windows".to_owned())
    } else if unix && !windows {
        Some("Unix/Linux".to_owned())
    } else {
        Some("Unknown".to_owned())
    }
}

// ---------------------------------------------------------------------------
// Naming the services
// ---------------------------------------------------------------------------

/// Time limit, in milliseconds, of the request that is sent to an HTTP port
/// before its banner is read.
pub const HTTP_PROBE_TIMEOUT_MS: u64 = 100;

/// Time limit, in milliseconds, of reading a banner.
pub const BANNER_TIMEOUT_MS: u64 = 200;

/// Number of bytes that are read of a banner at most.
pub const BANNER_BUFFER_SIZE: usize = 512;

/// The ports on which an HTTP server is expected.
pub open spec fn is_http_port(port: u16) -> bool {
    port == 80 || port == 8000 || port == 8080 || port == 3000 || port == 5173 || port == 8787
}

/// Whether a request is sent to `port` before its banner is read.
pub fn needs_http_probe(port: u16) -> (b: bool)
    ensures
        b == is_http_port(port),
{
    port == 80 || port == 8000 || port == 8080 || port == 3000 || port == 5173 || port == 8787
}

/// The service that the banner read from `port` shows: none where no byte
/// arrived; else the port's service name or `unknown`, the version that the
/// banner gives, and the trimmed banner.
pub open spec fn banner_service(port: PortInfoView, banner: Seq<u8>) -> Option<ServiceInfoView> {
    if banner.len() == 0 {
        None
    } else {
        let text = utf8_lossy(banner);
        Some(
            ServiceInfoView {
                name: or_default(port.service, "unknown"@),
                version: banner_version(text),
                info: Some(trim(text)),
            },
        )
    }
}

/// Names the service behind an open port from the banner that was read
/// from it. `banner` holds the bytes that arrived within the time limit.
pub fn detect_service_version(port: &PortInfo, banner: &[u8]) -> (r: Option<ServiceInfo>)
    ensures
        match r {
            Some(s) => banner_service(port@, banner@) == Some(s@),
            None => banner_service(port@, banner@) is None,
        },
{
    if banner.len() == 0 {
        return None;
    }
    let text = lossy_string(banner);
    let name = match &port.service {
        Some(s) => s.clone(),
        None => "unknown".to_owned(),
    };
    let version = parse_version_from_banner(text.as_str());
    let chars = chars_of(text.as_str());
    let info = string_of(trim_slice(chars.as_slice()));
    Some(ServiceInfo { name, version, info: Some(info) })
}

/// The banner that was read from the `i`-th open port; empty where none was
/// handed in.
pub open spec fn banner_at(banners: Seq<Vec<u8>>, i: int) -> Seq<u8> {
    if 0 <= i < banners.len() {
        banners[i]@
    } else {
        Seq::empty()
    }
}

/// The services that the banners of the open ports show, in the order of
/// the ports.
pub open spec fn detected_services(open: Seq<PortInfoView>, banners: Seq<Vec<u8>>) -> Seq<
    ServiceInfoView,
>
    decreases open.len(),
{
    if open.len() == 0 {
        Seq::empty()
    } else {
        let before = detected_services(open.drop_last(), banners);
        match banner_service(open.last(), banner_at(banners, open.len() - 1)) {
            Some(s) => before.push(s),
            None => before,
        }
    }
}

/// The services that the fingerprint table names for the open ports, in the
/// order of the ports.
pub open spec fn basic_services(open: Seq<PortInfoView>) -> Seq<ServiceInfoView>
    decreases open.len(),
{
    if open.len() == 0 {
        Seq::empty()
    } else {
        let before = basic_services(open.drop_last());
        match fingerprint(open.last().port) {
            Some(name) => before.push(ServiceInfoView { name, version: None, info: None }),
            None => before,
        }
    }
}

/// Names the services of the open ports from the banners read from them;
/// `banners` holds one banner per open port, in their order.
pub fn services_from_banners(open: &[PortInfo], banners: &[Vec<u8>]) -> (r: Vec<ServiceInfo>)
    ensures
        services_view(r@) == detected_services(ports_view(open@), banners@),
{
    let mut out: Vec<ServiceInfo> = Vec::new();
    let mut i: usize = 0;
    while i < open.len()
        invariant
            i <= open.len(),
            services_view(out@) == detected_services(ports_view(open@).take(i as int), banners@),
        decreases open.len() - i,
    {
        proof {
            let t = ports_view(open@).take(i + 1);
            assert(t.drop_last() =~= ports_view(open@).take(i as int));
        }
        let found = if i < banners.len() {
            detect_service_version(&open[i], banners[i].as_slice())
        } else {
            None
        };
        match found {
            Some(s) => {
                out.push(s);
            },
            None => {},
        }
        i += 1;
    }
    assert(ports_view(open@).take(open.len() as int) =~= ports_view(open@));
    out
}

/// Names the services of the open ports by the fingerprint table.
pub fn services_from_fingerprints(open: &[PortInfo]) -> (r: Vec<ServiceInfo>)
    ensures
        services_view(r@) == basic_services(ports_view(open@)),
{
    let mut out: Vec<ServiceInfo> = Vec::new();
    let mut i: usize = 0;
    while i < open.len()
        invariant
            i <= open.len(),
            services_view(out@) == basic_services(ports_view(open@).take(i as int)),
        decreases open.len() - i,
    {
        proof {
            let t = ports_view(open@).take(i + 1);
            assert(t.drop_last() =~= ports_view(open@).take(i as int));
        }
        match service_fingerprint(open[i].port) {
            Some(name) => {
                let s = ServiceInfo { name: name.to_owned(), version: None, info: None };
                out.push(s);
            },
            None => {},
        }
        i += 1;
    }
    assert(ports_view(open@).take(open.len() as int) =~= ports_view(open@));
    out
}

// ---------------------------------------------------------------------------
// The report
// ---------------------------------------------------------------------------

/// The report of a scan of `host`, given what the probes led to and which
/// banners were read from the open ports.
///
/// It lists the ports whose probe connected. The operating system is
/// guessed where the options ask for it. The services come from the banners
/// where the options ask for version detection, else from the fingerprint
/// table.
pub open spec fn scan_report(
    host: Seq<char>,
    options: ScanOptions,
    outcomes: Seq<ProbeOutcome>,
    banners: Seq<Vec<u8>>,
) -> ScanResultView {
    let open = open_ports(resolved_ports(options.ports), outcomes);
    ScanResultView {
        host,
        ports: open,
        os_guess: if options.os_detection {
            os_guess(open)
        } else {
            None
        },
        services: if options.version_detection {
            detected_services(open, banners)
        } else {
            basic_services(open)
        },
    }
}

/// Scans a host with the given options.
///
/// `outcomes` holds what the connection attempt to each port led to, in the
/// order of the port list; `banners` holds the banner read from each open
/// port, in the order of the open ports, and is only read for version
/// detection. The result is always one report.
pub fn scan_host(
    host: &str,
    options: &ScanOptions,
    outcomes: &[ProbeOutcome],
    banners: &[Vec<u8>],
) -> (r: Result<Vec<ScanResult>, String>)
    requires
        options.parallelism >= 1,
    ensures
        r is Ok,
        r->Ok_0@.len() == 1,
        r->Ok_0@[0]@ == scan_report(host@, *options, outcomes@, banners@),
{
    let ports = ports_to_scan(&options.ports);
    let tally = collect_probes(ports.as_slice(), options.parallelism, outcomes);
    let open = tally.open;
    let os = if options.os_detection {
        detect_os(host, open.as_slice())
    } else {
        None
    };
    let services = if options.version_detection {
        services_from_banners(open.as_slice(), banners)
    } else {
        services_from_fingerprints(open.as_slice())
    };
    let report = ScanResult { host: host.to_owned(), ports: open, os_guess: os, services };
    Ok(vec![report])
}

/// The options of a scan of the local host: the given choices, and the
/// defaults for the rest.
pub fn localhost_options(
    ports: Option<Vec<u16>>,
    os_detection: bool,
    version_detection: bool,
) -> (o: ScanOptions)
    ensures
        o.ports == ports,
        o.os_detection == os_detection,
        o.version_detection == version_detection,
        o.timeout_ms == 200,
        o.parallelism == 100,
        o.valid(),
{
    ScanOptions { ports, os_detection, version_detection, timeout_ms: 200, parallelism: 100 }
}

/// Scans the local host, `127.0.0.1`, with default timeout and parallelism.
pub fn scan_localhost(
    ports: Option<Vec<u16>>,
    os_detection: bool,
    version_detection: bool,
    outcomes: &[ProbeOutcome],
    banners: &[Vec<u8>],
) -> (r: Result<Vec<ScanResult>, String>)
    ensures
        r is Ok,
        r->Ok_0@.len() == 1,
        r->Ok_0@[0]@ == scan_report(
            "127.0.0.1"@,
            ScanOptions {
                ports,
                os_detection,
                version_detection,
                timeout_ms: 200,
                parallelism: 100,
            },
            outcomes@,
            banners@,
        ),
{
    let options = localhost_options(ports, os_detection, version_detection);
    scan_host("127.0.0.1", &options, outcomes, banners)
}

// ---------------------------------------------------------------------------
// What holds of every scan
// ---------------------------------------------------------------------------

/// No false positive: every port of a report is one of the probed ports,
/// and the connection attempt to it succeeded.
pub proof fn lemma_open_ports_connected(ports: Seq<u16>, outcomes: Seq<ProbeOutcome>)
    ensures
        forall|i: int|
            0 <= i < open_ports(ports, outcomes).len() ==> exists|k: int|
                0 <= k < ports.len() && #[trigger] outcome_at(outcomes, k)
                    == ProbeOutcome::Connected && (#[trigger] open_ports(ports, outcomes)[i])
                    == probe_info(ports[k], PortStatus::Open),
    decreases ports.len(),
{
    if ports.len() > 0 {
        let shorter = ports.drop_last();
        lemma_open_ports_connected(shorter, outcomes);
        let before = open_ports(shorter, outcomes);
        let all = open_ports(ports, outcomes);
        assert forall|i: int| 0 <= i < all.len() implies exists|k: int|
            0 <= k < ports.len() && #[trigger] outcome_at(outcomes, k) == ProbeOutcome::Connected
                && (#[trigger] all[i]) == probe_info(ports[k], PortStatus::Open) by {
            if i < before.len() {
                let k = choose|k: int|
                    0 <= k < shorter.len() && #[trigger] outcome_at(outcomes, k)
                        == ProbeOutcome::Connected && before[i] == probe_info(
                        shorter[k],
                        PortStatus::Open,
                    );
            } else {
                let k = ports.len() - 1;
            }
        }
    }
}

/// On a host without listeners, where no connection attempt succeeds, no
/// port is reported.
pub proof fn lemma_no_listener_no_open_port(ports: Seq<u16>, outcomes: Seq<ProbeOutcome>)
    requires
        forall|k: int|
            0 <= k < ports.len() ==> #[trigger] outcome_at(outcomes, k) != ProbeOutcome::Connected,
    ensures
        open_ports(ports, outcomes) == Seq::<PortInfoView>::empty(),
    decreases ports.len(),
{
    if ports.len() > 0 {
        let shorter = ports.drop_last();
        assert forall|k: int| 0 <= k < shorter.len() implies #[trigger] outcome_at(outcomes, k)
            != ProbeOutcome::Connected by {
        }
        lemma_no_listener_no_open_port(shorter, outcomes);
    }
}

/// The report of a scan of a host without listeners lists no port.
pub proof fn lemma_report_without_listeners(
    host: Seq<char>,
    options: ScanOptions,
    outcomes: Seq<ProbeOutcome>,
    banners: Seq<Vec<u8>>,
)
    requires
        forall|k: int|
            0 <= k < resolved_ports(options.ports).len() ==> #[trigger] outcome_at(outcomes, k)
                != ProbeOutcome::Connected,
    ensures
        scan_report(host, options, outcomes, banners).ports.len() == 0,
{
    lemma_no_listener_no_open_port(resolved_ports(options.ports), outcomes);
}

/// Parallelism changes how long a scan takes, not what it finds: two scans
/// of the same target that differ in nothing but their parallelism probe
/// the same ports in the same order, whatever the batches, and give the
/// same report, and so the same set of open ports.
pub proof fn lemma_parallelism_irrelevant(
    host: Seq<char>,
    a: ScanOptions,
    b: ScanOptions,
    outcomes: Seq<ProbeOutcome>,
    banners: Seq<Vec<u8>>,
)
    requires
        a.parallelism >= 1,
        b.parallelism >= 1,
        a.ports == b.ports,
        a.os_detection == b.os_detection,
        a.version_detection == b.version_detection,
    ensures
        joined(batches(resolved_ports(a.ports), a.parallelism as nat)) == joined(
            batches(resolved_ports(b.ports), b.parallelism as nat),
        ),
        scan_report(host, a, outcomes, banners) == scan_report(host, b, outcomes, banners),
        scan_report(host, a, outcomes, banners).ports.to_set() == scan_report(
            host,
            b,
            outcomes,
            banners,
        ).ports.to_set(),
{
    lemma_batches(resolved_ports(a.ports), a.parallelism as nat);
    lemma_batches(resolved_ports(b.ports), b.parallelism as nat);
}

} // verus!
