//! The built-in port tables.

use vstd::prelude::*;

verus! {

/// The ports that are scanned where the caller names none: well-known
/// services and the usual ports of development servers.
pub const COMMON_PORTS: [u16; 20] = [
    21, 22, 23, 25, 53, 80, 110, 143, 443, 3306, 3389, 5432, 3000, 3001, 5173, 5174, 8000, 8080,
    8787, 9000,
];

/// The service that usually listens on a port.
pub const SERVICE_FINGERPRINTS: [(u16, &'static str); 17] = [
    (21, "ftp"),
    (22, "ssh"),
    (23, "telnet"),
    (25, "smtp"),
    (53, "dns"),
    (80, "http"),
    (110, "pop3"),
    (143, "imap"),
    (443, "https"),
    (3306, "mysql"),
    (3389, "rdp"),
    (5432, "postgresql"),
    (3000, "nodejs"),
    (5173, "vite"),
    (8000, "http-alt"),
    (8080, "http-proxy"),
    (8787, "side-ide"),
];

/// The name of the first entry of `table` for `port`.
pub open spec fn lookup(table: Seq<(u16, &'static str)>, port: u16) -> Option<Seq<char>>
    decreases table.len(),
{
    if table.len() == 0 {
        None
    } else if table[0].0 == port {
        Some(table[0].1@)
    } else {
        lookup(table.drop_first(), port)
    }
}

/// The service that usually listens on `port`.
pub open spec fn fingerprint(port: u16) -> Option<Seq<char>> {
    lookup(SERVICE_FINGERPRINTS@, port)
}

/// The service that usually listens on `port`, by the fingerprint table.
pub fn service_fingerprint(port: u16) -> (r: Option<&'static str>)
    ensures
        match r {
            Some(name) => fingerprint(port) == Some(name@),
            None => fingerprint(port) is None,
        },
{
    let mut i: usize = 0;
    assert(SERVICE_FINGERPRINTS@.skip(0) =~= SERVICE_FINGERPRINTS@);
    while i < 17
        invariant
            i <= 17,
            fingerprint(port) == lookup(SERVICE_FINGERPRINTS@.skip(i as int), port),
        decreases 17 - i,
    {
        let entry = SERVICE_FINGERPRINTS[i];
        assert(SERVICE_FINGERPRINTS@.skip(i as int).drop_first() =~= SERVICE_FINGERPRINTS@.skip(
            i + 1,
        ));
        if entry.0 == port {
            return Some(entry.1);
        }
        i += 1;
    }
    None
}

/// The common ports, as a vector.
pub fn common_ports() -> (v: Vec<u16>)
    ensures
        v@ == COMMON_PORTS@,
{
    let mut v: Vec<u16> = Vec::new();
    let mut i: usize = 0;
    while i < 20
        invariant
            i <= 20,
            v@ == COMMON_PORTS@.take(i as int),
        decreases 20 - i,
    {
        v.push(COMMON_PORTS[i]);
        i += 1;
    }
    v
}

} // verus!
