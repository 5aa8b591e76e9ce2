//! Driver state for the SwitchBot Plug Mini. The variant acknowledges every
//! request with a notification on its response characteristic, so connecting
//! also subscribes there, and a background listener forwards matching
//! notifications into a single-slot response conduit.

use vstd::prelude::*;

use crate::codec::{
    decode_response, plug_mini_request, spec_decode_response, spec_plug_mini_request,
    SetStateOperation, PLUG_MINI_CHR_RX_UUID, PLUG_MINI_CHR_TX_UUID, PLUG_MINI_SVC_UUID,
};
use crate::errors::DeviceError;
use crate::switch_device::{
    find_service, lemma_first_service_unique, service_has_char, spec_has_service,
    spec_is_first_service, spec_service_has_char, GattService, SwitchDevice,
};

verus! {

/// Connecting succeeds exactly when the first discovered Plug Mini service
/// carries both the command (RX) and the response (TX) characteristic.
pub open spec fn spec_plug_mini_connect_accepts(services: Seq<GattService>) -> bool {
    exists|i: int|
        #![trigger spec_is_first_service(services, PLUG_MINI_SVC_UUID, i)]
        spec_is_first_service(services, PLUG_MINI_SVC_UUID, i) && spec_service_has_char(
            services[i],
            PLUG_MINI_CHR_TX_UUID,
        ) && spec_service_has_char(services[i], PLUG_MINI_CHR_RX_UUID)
}

/// A SwitchBot Plug Mini binding: whether initialization completed and
/// whether a request is in flight, awaiting its response.
pub struct PlugMini {
    initialized: bool,
    in_flight: bool,
}

impl PlugMini {
    /// A fresh binding: nothing resolved, nothing in flight.
    pub fn new() -> (r: PlugMini)
        ensures
            !r.initialized(),
            !r.awaiting_response(),
    {
        PlugMini { initialized: false, in_flight: false }
    }

    /// The request that performs `operation`, owed exactly when the device is
    /// initialized; issuing it puts its response in flight. The single
    /// in-flight request discipline forbids issuing while one is outstanding.
    pub fn set_state_request(&mut self, operation: &SetStateOperation) -> (r: Result<
        Vec<u8>,
        DeviceError,
    >)
        requires
            !old(self).awaiting_response(),
        ensures
            final(self).initialized() == old(self).initialized(),
            r is Ok <==> old(self).initialized(),
            r matches Ok(v) ==> v@ == spec_plug_mini_request(*operation),
            final(self).awaiting_response() <==> r is Ok,
            r is Err ==> r.unwrap_err() == DeviceError::DeviceNotConnected,
    {
        if !self.initialized {
            return Err(DeviceError::DeviceNotConnected);
        }
        self.in_flight = true;
        Ok(plug_mini_request(operation))
    }

    /// Consumes the in-flight request's response: what the conduit handed
    /// over, or nothing where the listener ended first (the conduit closed),
    /// which is `ChannelClosed`. Decodes the reported state otherwise.
    pub fn set_state_response(&mut self, received: Option<Vec<u8>>) -> (r: Result<
        bool,
        DeviceError,
    >)
        requires
            old(self).awaiting_response(),
        ensures
            final(self).initialized() == old(self).initialized(),
            !final(self).awaiting_response(),
            r == (match received {
                Some(payload) => spec_decode_response(payload@),
                None => Err::<bool, DeviceError>(DeviceError::ChannelClosed),
            }),
    {
        self.in_flight = false;
        match received {
            Some(payload) => decode_response(&payload),
            None => Err(DeviceError::ChannelClosed),
        }
    }
}

/// The background listener's filter: a notification is forwarded into the
/// response conduit exactly when it arrives on the response characteristic;
/// every other notification is discarded.
pub fn filter_notification(chr_uuid: u128, value: Vec<u8>) -> (r: Option<Vec<u8>>)
    ensures
        chr_uuid == PLUG_MINI_CHR_TX_UUID ==> r == Some(value),
        chr_uuid != PLUG_MINI_CHR_TX_UUID ==> r is None,
{
    if chr_uuid == PLUG_MINI_CHR_TX_UUID {
        Some(value)
    } else {
        None
    }
}

impl SwitchDevice for PlugMini {
    closed spec fn initialized(&self) -> bool {
        self.initialized
    }

    closed spec fn awaiting_response(&self) -> bool {
        self.in_flight
    }

    open spec fn expects_response(&self) -> bool {
        true
    }

    open spec fn request_bytes(&self, state: bool) -> Seq<u8> {
        spec_plug_mini_request(
            if state {
                SetStateOperation::TurnOn
            } else {
                SetStateOperation::TurnOff
            },
        )
    }

    open spec fn connect_accepts(&self, services: Seq<GattService>) -> bool {
        spec_plug_mini_connect_accepts(services)
    }

    open spec fn connect_error(&self, services: Seq<GattService>) -> DeviceError {
        if !spec_has_service(services, PLUG_MINI_SVC_UUID) {
            DeviceError::ServiceNotFound
        } else {
            DeviceError::CharacteristicNotFound
        }
    }

    fn connect_with(&mut self, services: &Vec<GattService>) -> (r: Result<(), DeviceError>) {
        self.initialized = false;
        self.in_flight = false;
        let k = match find_service(services, PLUG_MINI_SVC_UUID) {
            Some(k) => k,
            None => {
                return Err(DeviceError::ServiceNotFound);
            },
        };
        let has_tx = service_has_char(&services[k], PLUG_MINI_CHR_TX_UUID);
        let has_rx = service_has_char(&services[k], PLUG_MINI_CHR_RX_UUID);
        if has_tx && has_rx {
            self.initialized = true;
            Ok(())
        } else {
            proof {
                assert forall|i: int|
                    spec_is_first_service(
                        services@,
                        PLUG_MINI_SVC_UUID,
                        i,
                    ) implies !(spec_service_has_char(services@[i], PLUG_MINI_CHR_TX_UUID)
                    && spec_service_has_char(services@[i], PLUG_MINI_CHR_RX_UUID)) by {
                    lemma_first_service_unique(services@, PLUG_MINI_SVC_UUID, i, k as int);
                }
            }
            Err(DeviceError::CharacteristicNotFound)
        }
    }

    fn set_on_off_request(&mut self, state: bool) -> (r: Result<Vec<u8>, DeviceError>) {
        let operation = if state {
            SetStateOperation::TurnOn
        } else {
            SetStateOperation::TurnOff
        };
        self.set_state_request(&operation)
    }

    fn is_connected(&self, link_up: bool) -> (r: bool) {
        link_up && self.initialized
    }

    fn disconnect(&mut self) {
        self.initialized = false;
        self.in_flight = false;
    }
}

} // verus!
