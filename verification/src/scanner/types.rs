//! The scan report and its parts.

use vstd::prelude::*;

use crate::text::opt_view;

verus! {

/// What a probe found out about a port.
#[derive(Debug, Clone, Copy, PartialEq, Eq, Structural)]
pub enum PortStatus {
    /// A connection was accepted.
    Open,
    /// The connection was refused.
    Closed,
    /// Neither accepted nor refused.
    Filtered,
}

/// Detailed information about a single port.
#[derive(Debug, Clone)]
pub struct PortInfo {
    /// Port number.
    pub port: u16,
    /// Port status.
    pub status: PortStatus,
    /// Protocol (`tcp` or `udp`).
    pub protocol: String,
    /// Service name, if identified.
    pub service: Option<String>,
    /// Service version, if detected.
    pub version: Option<String>,
}

/// Mathematical model of a [`PortInfo`].
pub struct PortInfoView {
    pub port: u16,
    pub status: PortStatus,
    pub protocol: Seq<char>,
    pub service: Option<Seq<char>>,
    pub version: Option<Seq<char>>,
}

impl View for PortInfo {
    type V = PortInfoView;

    open spec fn view(&self) -> PortInfoView {
        PortInfoView {
            port: self.port,
            status: self.status,
            protocol: self.protocol@,
            service: opt_view(self.service),
            version: opt_view(self.version),
        }
    }
}

/// A service found behind a port.
#[derive(Debug)]
pub struct ServiceInfo {
    /// Service name.
    pub name: String,
    /// Detected version.
    pub version: Option<String>,
    /// Additional information, such as the raw banner.
    pub info: Option<String>,
}

/// Mathematical model of a [`ServiceInfo`].
pub struct ServiceInfoView {
    pub name: Seq<char>,
    pub version: Option<Seq<char>>,
    pub info: Option<Seq<char>>,
}

impl View for ServiceInfo {
    type V = ServiceInfoView;

    open spec fn view(&self) -> ServiceInfoView {
        ServiceInfoView {
            name: self.name@,
            version: opt_view(self.version),
            info: opt_view(self.info),
        }
    }
}

/// Result of a network scan of a single host.
#[derive(Debug)]
pub struct ScanResult {
    /// Target host address.
    pub host: String,
    /// The ports that the report lists.
    pub ports: Vec<PortInfo>,
    /// Guessed operating system.
    pub os_guess: Option<String>,
    /// Detected services.
    pub services: Vec<ServiceInfo>,
}

/// Mathematical model of a [`ScanResult`].
pub struct ScanResultView {
    pub host: Seq<char>,
    pub ports: Seq<PortInfoView>,
    pub os_guess: Option<Seq<char>>,
    pub services: Seq<ServiceInfoView>,
}

/// Models of a sequence of port records.
pub open spec fn ports_view(ports: Seq<PortInfo>) -> Seq<PortInfoView> {
    ports.map_values(|p: PortInfo| p@)
}

/// Models of a sequence of service records.
pub open spec fn services_view(services: Seq<ServiceInfo>) -> Seq<ServiceInfoView> {
    services.map_values(|s: ServiceInfo| s@)
}

impl View for ScanResult {
    type V = ScanResultView;

    open spec fn view(&self) -> ScanResultView {
        ScanResultView {
            host: self.host@,
            ports: ports_view(self.ports@),
            os_guess: opt_view(self.os_guess),
            services: services_view(self.services@),
        }
    }
}

/// Options of a scan.
#[derive(Debug, Clone)]
pub struct ScanOptions {
    /// Ports to scan; `None` selects the common ports.
    pub ports: Option<Vec<u16>>,
    /// Enable operating-system detection.
    pub os_detection: bool,
    /// Enable service version detection.
    pub version_detection: bool,
    /// Connection timeout per port, in milliseconds.
    pub timeout_ms: u64,
    /// Maximum number of probes that run at the same time.
    pub parallelism: usize,
}

impl ScanOptions {
    /// The options allow a scan: at least one probe at a time, and a
    /// timeout that is not zero.
    pub open spec fn valid(&self) -> bool {
        self.parallelism >= 1 && self.timeout_ms > 0
    }

    /// Whether the options allow a scan.
    pub fn is_valid(&self) -> (b: bool)
        ensures
            b == self.valid(),
    {
        self.parallelism >= 1 && self.timeout_ms > 0
    }
}

impl Default for ScanOptions {
    fn default() -> (o: Self)
        ensures
            o.ports is None,
            !o.os_detection,
            !o.version_detection,
            o.timeout_ms == 200,
            o.parallelism == 100,
            o.valid(),
    {
        ScanOptions {
            ports: None,
            os_detection: false,
            version_detection: false,
            timeout_ms: 200,
            parallelism: 100,
        }
    }
}

} // verus!
