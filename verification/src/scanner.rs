//! The scanner's matching rule: which advertisement resolves which configured
//! device. The scan itself — starting, stopping, timing out — is transport
//! work; what is decided here is, given what a bounded scan attempt observed,
//! which peripheral is the one searched for.

use vstd::prelude::*;

use crate::addr::MacAddr;
use crate::errors::DeviceError;

verus! {

/// The supported plug variants.
#[derive(Clone, Copy, Debug, PartialEq, Eq, Structural)]
pub enum DeviceKind {
    PlugMini,
    TypeCSwitch,
}

/// One configured device entry: its variant, its hardware address, and the
/// bound on one scan attempt for it, in seconds. Entries are held in an
/// ordered list; the first configured entry that is found wins.
#[derive(Clone, Copy, Debug, PartialEq, Eq, Structural)]
pub struct DeviceConfig {
    pub kind: DeviceKind,
    pub addr: MacAddr,
    pub search_timeout_secs: u64,
}

/// One event seen on the scanning transport: a discovered peripheral's
/// address, or anything else, which the scanner ignores.
#[derive(Clone, Copy, Debug, PartialEq, Eq, Structural)]
pub enum ScanEvent {
    DeviceDiscovered(MacAddr),
    Other,
}

/// A discovery event carrying exactly the searched address.
pub open spec fn spec_event_matches(target: MacAddr, ev: ScanEvent) -> bool {
    match ev {
        ScanEvent::DeviceDiscovered(a) => a == target,
        ScanEvent::Other => false,
    }
}

pub fn event_matches(target: &MacAddr, ev: &ScanEvent) -> (r: bool)
    ensures
        r == spec_event_matches(*target, *ev),
{
    match ev {
        ScanEvent::DeviceDiscovered(a) => a.bits == target.bits,
        ScanEvent::Other => false,
    }
}

/// Some observed event resolves the target.
pub open spec fn spec_has_match(target: MacAddr, events: Seq<ScanEvent>) -> bool {
    exists|i: int| 0 <= i < events.len() && spec_event_matches(target, #[trigger] events[i])
}

/// Index of the first observed event that resolves the target, scanning the
/// attempt's events in arrival order.
pub fn first_match(target: &MacAddr, events: &Vec<ScanEvent>) -> (r: Option<usize>)
    ensures
        r is Some <==> spec_has_match(*target, events@),
        r matches Some(i) ==> i < events@.len() && spec_event_matches(*target, events@[i as int])
            && forall|j: int| 0 <= j < i ==> !spec_event_matches(*target, #[trigger] events@[j]),
{
    let mut i: usize = 0;
    while i < events.len()
        invariant
            i <= events@.len(),
            forall|j: int| 0 <= j < i ==> !spec_event_matches(*target, #[trigger] events@[j]),
        decreases events@.len() - i,
    {
        if event_matches(target, &events[i]) {
            return Some(i);
        }
        i += 1;
    }
    None
}

/// Outcome of one bounded scan attempt for one configured device: the position
/// of the first resolving event, or `Timeout` when the attempt's events ran
/// out (the bounded scan elapsed) without a match.
pub fn attempt_outcome(config: &DeviceConfig, events: &Vec<ScanEvent>) -> (r: Result<
    usize,
    DeviceError,
>)
    ensures
        r is Ok <==> spec_has_match(config.addr, events@),
        r matches Ok(i) ==> i < events@.len() && spec_event_matches(config.addr, events@[i as int])
            && forall|j: int| 0 <= j < i ==> !spec_event_matches(config.addr, #[trigger] events@[j]),
        r is Err ==> r.unwrap_err() == DeviceError::Timeout,
{
    match first_match(&config.addr, events) {
        Some(i) => Ok(i),
        None => Err(DeviceError::Timeout),
    }
}

/// The search policy over the configured devices, attempted in list order,
/// where `observed[k]` holds what the bounded attempt for `configs[k]` saw
/// before its timeout: the first configured device whose attempt observed its
/// address wins, named by its position together with the resolving event's
/// position; a search that exhausts every entry without a match yields
/// `DeviceNotFound`.
pub fn search(configs: &Vec<DeviceConfig>, observed: &Vec<Vec<ScanEvent>>) -> (r: Result<
    (usize, usize),
    DeviceError,
>)
    requires
        observed@.len() == configs@.len(),
    ensures
        r is Err <==> forall|k: int|
            0 <= k < configs@.len() ==> !spec_has_match(configs@[k].addr, #[trigger] observed@[k]@),
        r is Err ==> r.unwrap_err() == DeviceError::DeviceNotFound,
        r matches Ok((config_index, event_index)) ==> {
            &&& config_index < configs@.len()
            &&& event_index < observed@[config_index as int]@.len()
            &&& spec_event_matches(
                configs@[config_index as int].addr,
                observed@[config_index as int]@[event_index as int],
            )
            &&& forall|j: int|
                0 <= j < event_index ==> !spec_event_matches(
                    configs@[config_index as int].addr,
                    #[trigger] observed@[config_index as int]@[j],
                )
            &&& forall|k: int|
                0 <= k < config_index ==> !spec_has_match(
                    configs@[k].addr,
                    #[trigger] observed@[k]@,
                )
        },
{
    let mut k: usize = 0;
    while k < configs.len()
        invariant
            observed@.len() == configs@.len(),
            k <= configs@.len(),
            forall|j: int| 0 <= j < k ==> !spec_has_match(configs@[j].addr, #[trigger] observed@[j]@),
        decreases configs@.len() - k,
    {
        match first_match(&configs[k].addr, &observed[k]) {
            Some(i) => {
                return Ok((k, i));
            },
            None => {},
        }
        k += 1;
    }
    Err(DeviceError::DeviceNotFound)
}

} // verus!
