//! The polymorphic device driver: one capability set — connect, switch on or
//! off, liveness, disconnect — shared by the plug variants. The transport
//! (opening the link, enumerating GATT services, writing characteristics,
//! subscribing to notifications) is performed by the surrounding loop; the
//! driver state here decides what those operations are given and what their
//! results mean.

use vstd::prelude::*;

use crate::errors::DeviceError;

pub mod plug_mini;
pub mod type_c_switch;

verus! {

/// A GATT service as service discovery reports it: its UUID and the UUIDs of
/// the characteristics it carries.
#[derive(Clone, Debug)]
pub struct GattService {
    pub uuid: u128,
    pub characteristics: Vec<u128>,
}

/// The service carries a characteristic with the given UUID.
pub open spec fn spec_service_has_char(s: GattService, c: u128) -> bool {
    exists|j: int| 0 <= j < s.characteristics@.len() && #[trigger] s.characteristics@[j] == c
}

/// Some discovered service has the given UUID.
pub open spec fn spec_has_service(services: Seq<GattService>, svc: u128) -> bool {
    exists|i: int| 0 <= i < services.len() && (#[trigger] services[i]).uuid == svc
}

/// `i` is the position of the first discovered service with the given UUID —
/// the one the driver binds to.
pub open spec fn spec_is_first_service(services: Seq<GattService>, svc: u128, i: int) -> bool {
    &&& 0 <= i < services.len()
    &&& services[i].uuid == svc
    &&& forall|j: int| 0 <= j < i ==> (#[trigger] services[j]).uuid != svc
}

/// At most one position is the first service with a given UUID.
pub proof fn lemma_first_service_unique(services: Seq<GattService>, svc: u128, i: int, j: int)
    requires
        spec_is_first_service(services, svc, i),
        spec_is_first_service(services, svc, j),
    ensures
        i == j,
{
}

/// Position of the first discovered service with the given UUID, if any.
pub fn find_service(services: &Vec<GattService>, svc: u128) -> (r: Option<usize>)
    ensures
        r is Some <==> spec_has_service(services@, svc),
        r matches Some(i) ==> spec_is_first_service(services@, svc, i as int),
{
    let mut i: usize = 0;
    while i < services.len()
        invariant
            i <= services@.len(),
            forall|j: int| 0 <= j < i ==> (#[trigger] services@[j]).uuid != svc,
        decreases services@.len() - i,
    {
        if services[i].uuid == svc {
            return Some(i);
        }
        i += 1;
    }
    None
}

/// Whether the service carries a characteristic with the given UUID.
pub fn service_has_char(s: &GattService, c: u128) -> (r: bool)
    ensures
        r == spec_service_has_char(*s, c),
{
    let mut j: usize = 0;
    while j < s.characteristics.len()
        invariant
            j <= s.characteristics@.len(),
            forall|k: int| 0 <= k < j ==> #[trigger] s.characteristics@[k] != c,
        decreases s.characteristics@.len() - j,
    {
        if s.characteristics[j] == c {
            return true;
        }
        j += 1;
    }
    false
}

/// The capability set every plug variant offers. The transport's results come
/// in as plain values (the discovered services, the link's liveness); what
/// goes back out are the exact bytes to write. A variant that acknowledges
/// requests does so through a response the surrounding loop must collect
/// before issuing the next request — the single in-flight request discipline,
/// stated here as `awaiting_response` and required by `set_on_off_request`.
pub trait SwitchDevice: Sized {
    /// Handles resolved, and notifications subscribed where the protocol
    /// requires them.
    spec fn initialized(&self) -> bool;

    /// A request has been issued whose response has not yet been consumed.
    spec fn awaiting_response(&self) -> bool;

    /// The protocol acknowledges each request with a response notification.
    spec fn expects_response(&self) -> bool;

    /// The exact bytes that ask this variant for the given on/off state.
    spec fn request_bytes(&self, state: bool) -> Seq<u8>;

    /// The exact condition on the discovered services under which connecting
    /// succeeds.
    spec fn connect_accepts(&self, services: Seq<GattService>) -> bool;

    /// The error reported when it does not: the missing piece.
    spec fn connect_error(&self, services: Seq<GattService>) -> DeviceError;

    /// Binds to the discovered services: resolves the variant's service and
    /// characteristics and marks the device initialized exactly when all of
    /// them are present.
    fn connect_with(&mut self, services: &Vec<GattService>) -> (r: Result<(), DeviceError>)
        ensures
            r is Ok <==> old(self).connect_accepts(services@),
            final(self).initialized() <==> r is Ok,
            !final(self).awaiting_response(),
            r is Err ==> r.unwrap_err() == old(self).connect_error(services@),
    ;

    /// The request that switches the device, owed exactly when the device is
    /// initialized; issuing it puts a response in flight where the protocol
    /// acknowledges. A second request must not be issued while one is in
    /// flight.
    fn set_on_off_request(&mut self, state: bool) -> (r: Result<Vec<u8>, DeviceError>)
        requires
            !old(self).awaiting_response(),
        ensures
            final(self).initialized() == old(self).initialized(),
            r is Ok <==> old(self).initialized(),
            r matches Ok(v) ==> v@ == old(self).request_bytes(state),
            final(self).awaiting_response() <==> (r is Ok && old(self).expects_response()),
            r is Err ==> r.unwrap_err() == DeviceError::DeviceNotConnected,
    ;

    /// Connected means both: the transport link is up and initialization
    /// completed. A link that is up but never initialized is not connected.
    fn is_connected(&self, link_up: bool) -> (r: bool)
        ensures
            r == (link_up && self.initialized()),
    ;

    /// Tears the binding down; the device must be connected anew before the
    /// next request.
    fn disconnect(&mut self)
        ensures
            !final(self).initialized(),
            !final(self).awaiting_response(),
    ;
}

} // verus!
