//! Network scanner: port probing, service fingerprinting, operating-system
//! guessing, and normalising the output of an external scanning tool.

pub mod banner;
pub mod nmap;
pub mod probe;
pub mod scan;
pub mod tables;
pub mod types;

pub use banner::parse_version_from_banner;
pub use crate::common::ToolOutput;
pub use nmap::{extract_attr, nmap_arguments, parse_nmap_xml, scan_with_nmap};
pub use probe::{plan_batches, ports_to_scan, probe_port, ProbeOutcome};
pub use scan::{
    collect_probes, detect_os, detect_service_version, localhost_options, needs_http_probe,
    scan_host, scan_localhost, ProbeTally, BANNER_BUFFER_SIZE, BANNER_TIMEOUT_MS,
    HTTP_PROBE_TIMEOUT_MS,
};
pub use tables::{COMMON_PORTS, SERVICE_FINGERPRINTS};
pub use types::{PortInfo, PortStatus, ScanOptions, ScanResult, ServiceInfo};
