//! Classifying probes, and gathering them batch by batch.
//!
//! The connection attempts themselves are made by the caller. What each
//! attempt led to is handed in as a [`ProbeOutcome`], one per port, in the
//! order of the port list.

use vstd::prelude::*;

use crate::scanner::tables::{common_ports, COMMON_PORTS};
use crate::scanner::types::{PortInfo, PortInfoView, PortStatus};

verus! {

/// How a single connection attempt ended.
#[derive(Debug, Clone, Copy, PartialEq, Eq, Structural)]
pub enum ProbeOutcome {
    /// The connection was established within the time limit.
    Connected,
    /// The attempt failed within the time limit, as by a refusal.
    Refused,
    /// The attempt did not complete within the time limit.
    TimedOut,
    /// The task that made the attempt failed.
    Faulted,
}

/// The record of a probed port: protocol `tcp`, no service, no version.
pub open spec fn probe_info(port: u16, status: PortStatus) -> PortInfoView {
    PortInfoView { port, status, protocol: "tcp"@, service: None, version: None }
}

/// What a probe reports: a connection makes the port open, a refusal makes
/// it closed, and a probe that timed out or failed reports nothing.
pub open spec fn probe_result(port: u16, outcome: ProbeOutcome) -> Option<PortInfoView> {
    match outcome {
        ProbeOutcome::Connected => Some(probe_info(port, PortStatus::Open)),
        ProbeOutcome::Refused => Some(probe_info(port, PortStatus::Closed)),
        ProbeOutcome::TimedOut => None,
        ProbeOutcome::Faulted => None,
    }
}

/// Classifies one connection attempt to `port`.
pub fn probe_port(port: u16, outcome: ProbeOutcome) -> (r: Option<PortInfo>)
    ensures
        match r {
            Some(info) => probe_result(port, outcome) == Some(info@),
            None => probe_result(port, outcome) is None,
        },
{
    match outcome {
        ProbeOutcome::Connected => Some(
            PortInfo {
                port,
                status: PortStatus::Open,
                protocol: "tcp".to_owned(),
                service: None,
                version: None,
            },
        ),
        ProbeOutcome::Refused => Some(
            PortInfo {
                port,
                status: PortStatus::Closed,
                protocol: "tcp".to_owned(),
                service: None,
                version: None,
            },
        ),
        ProbeOutcome::TimedOut => None,
        ProbeOutcome::Faulted => None,
    }
}

/// The outcome of the probe of the `i`-th port. A port without an outcome
/// counts as one whose probe failed.
pub open spec fn outcome_at(outcomes: Seq<ProbeOutcome>, i: int) -> ProbeOutcome {
    if 0 <= i < outcomes.len() {
        outcomes[i]
    } else {
        ProbeOutcome::Faulted
    }
}

/// The outcome of the probe of the `i`-th port.
pub fn outcome_of(outcomes: &[ProbeOutcome], i: usize) -> (r: ProbeOutcome)
    ensures
        r == outcome_at(outcomes@, i as int),
{
    if i < outcomes.len() {
        outcomes[i]
    } else {
        ProbeOutcome::Faulted
    }
}

/// The records of the ports of `ports` whose probe connected, in the order
/// of `ports`.
pub open spec fn open_ports(ports: Seq<u16>, outcomes: Seq<ProbeOutcome>) -> Seq<PortInfoView>
    decreases ports.len(),
{
    if ports.len() == 0 {
        Seq::empty()
    } else {
        let before = open_ports(ports.drop_last(), outcomes);
        if outcome_at(outcomes, ports.len() - 1) == ProbeOutcome::Connected {
            before.push(probe_info(ports.last(), PortStatus::Open))
        } else {
            before
        }
    }
}

/// The number of ports of `ports` whose probe was refused.
pub open spec fn closed_count(ports: Seq<u16>, outcomes: Seq<ProbeOutcome>) -> nat
    decreases ports.len(),
{
    if ports.len() == 0 {
        0
    } else {
        closed_count(ports.drop_last(), outcomes) + if outcome_at(outcomes, ports.len() - 1)
            == ProbeOutcome::Refused {
            1nat
        } else {
            0nat
        }
    }
}

/// The ports that a scan probes: those that the caller named, else the
/// common ports.
pub open spec fn resolved_ports(explicit: Option<Vec<u16>>) -> Seq<u16> {
    match explicit {
        Some(p) => p@,
        None => COMMON_PORTS@,
    }
}

/// The ports that a scan with the port selection `explicit` probes.
pub fn ports_to_scan(explicit: &Option<Vec<u16>>) -> (v: Vec<u16>)
    ensures
        v@ == resolved_ports(*explicit),
{
    match explicit {
        Some(p) => p.clone(),
        None => common_ports(),
    }
}

// ---------------------------------------------------------------------------
// Batches
// ---------------------------------------------------------------------------

/// `ports` cut into consecutive batches of `size` ports; the last batch
/// holds what is left.
pub open spec fn batches(ports: Seq<u16>, size: nat) -> Seq<Seq<u16>>
    decreases ports.len(),
{
    if ports.len() == 0 || size == 0 {
        Seq::empty()
    } else if ports.len() <= size {
        seq![ports]
    } else {
        seq![ports.take(size as int)] + batches(ports.skip(size as int), size)
    }
}

/// The batches `bs` put together again.
pub open spec fn joined(bs: Seq<Seq<u16>>) -> Seq<u16>
    decreases bs.len(),
{
    if bs.len() == 0 {
        Seq::empty()
    } else {
        joined(bs.drop_last()) + bs.last()
    }
}

/// Views of a vector of batches.
pub open spec fn batches_view(bs: Seq<Vec<u16>>) -> Seq<Seq<u16>> {
    bs.map_values(|b: Vec<u16>| b@)
}

/// A single batch joins to itself.
pub proof fn lemma_joined_single(b: Seq<u16>)
    ensures
        joined(seq![b]) == b,
{
    let none = Seq::<Seq<u16>>::empty();
    assert(seq![b].drop_last() =~= none);
    assert(joined(none) =~= Seq::<u16>::empty());
}

/// Joining distributes over concatenation.
pub proof fn lemma_joined_concat(a: Seq<Seq<u16>>, b: Seq<Seq<u16>>)
    ensures
        joined(a + b) == joined(a) + joined(b),
    decreases b.len(),
{
    if b.len() > 0 {
        lemma_joined_concat(a, b.drop_last());
        assert((a + b).drop_last() =~= a + b.drop_last());
    }
}

/// Batching loses no port, adds none and keeps the order; no batch is empty
/// and none holds more than `size` ports.
pub proof fn lemma_batches(ports: Seq<u16>, size: nat)
    requires
        size >= 1,
    ensures
        joined(batches(ports, size)) == ports,
        forall|j: int|
            0 <= j < batches(ports, size).len() ==> 1 <= (#[trigger] batches(ports, size)[j]).len()
                <= size,
    decreases ports.len(),
{
    if ports.len() == 0 {
    } else if ports.len() <= size {
        lemma_joined_single(ports);
    } else {
        let head = ports.take(size as int);
        let tail = ports.skip(size as int);
        lemma_batches(tail, size);
        lemma_joined_concat(seq![head], batches(tail, size));
        lemma_joined_single(head);
    }
}

/// Cuts `ports` into the batches that are probed one after the other, each
/// of at most `parallelism` ports.
pub fn plan_batches(ports: &[u16], parallelism: usize) -> (out: Vec<Vec<u16>>)
    requires
        parallelism >= 1,
    ensures
        batches_view(out@) == batches(ports@, parallelism as nat),
{
    let mut out: Vec<Vec<u16>> = Vec::new();
    let mut start: usize = 0;
    let n = ports.len();
    assert(ports@.skip(0) =~= ports@);
    while start < n
        invariant
            start <= n,
            n == ports.len(),
            parallelism >= 1,
            batches(ports@, parallelism as nat) == batches_view(out@) + batches(
                ports@.skip(start as int),
                parallelism as nat,
            ),
        decreases n - start,
    {
        let end: usize = if n - start <= parallelism {
            n
        } else {
            start + parallelism
        };
        let mut batch: Vec<u16> = Vec::new();
        let mut i: usize = start;
        while i < end
            invariant
                start <= i <= end <= n,
                n == ports.len(),
                batch@ == ports@.subrange(start as int, i as int),
            decreases end - i,
        {
            batch.push(ports[i]);
            i += 1;
        }
        proof {
            let rest = ports@.skip(start as int);
            let size = parallelism as nat;
            if rest.len() > size {
                assert(batch@ =~= rest.take(size as int));
                assert(rest.skip(size as int) =~= ports@.skip(end as int));
            }
        }
        out.push(batch);
        start = end;
    }
    out
}

} // verus!
