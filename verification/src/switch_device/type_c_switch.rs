//! Driver state for the DIY Type-C switch. The variant has no structured
//! response: success is inferred from the transport write completing, so
//! nothing is ever in flight.

use vstd::prelude::*;

use crate::codec::{spec_type_c_state_byte, type_c_request, TYPE_C_CHR_STATE_UUID, TYPE_C_SVC_UUID};
use crate::errors::DeviceError;
use crate::switch_device::{
    find_service, lemma_first_service_unique, service_has_char, spec_has_service,
    spec_is_first_service, spec_service_has_char, GattService, SwitchDevice,
};

verus! {

/// Connecting succeeds exactly when the first discovered Type-C switch
/// service carries the state characteristic.
pub open spec fn spec_type_c_connect_accepts(services: Seq<GattService>) -> bool {
    exists|i: int|
        #![trigger spec_is_first_service(services, TYPE_C_SVC_UUID, i)]
        spec_is_first_service(services, TYPE_C_SVC_UUID, i) && spec_service_has_char(
            services[i],
            TYPE_C_CHR_STATE_UUID,
        )
}

/// A Type-C switch binding: whether initialization completed.
pub struct TypeCSwitch {
    initialized: bool,
}

impl TypeCSwitch {
    /// A fresh binding: nothing resolved.
    pub fn new() -> (r: TypeCSwitch)
        ensures
            !r.initialized(),
            !r.awaiting_response(),
    {
        TypeCSwitch { initialized: false }
    }
}

impl SwitchDevice for TypeCSwitch {
    closed spec fn initialized(&self) -> bool {
        self.initialized
    }

    open spec fn awaiting_response(&self) -> bool {
        false
    }

    open spec fn expects_response(&self) -> bool {
        false
    }

    open spec fn request_bytes(&self, state: bool) -> Seq<u8> {
        seq![spec_type_c_state_byte(state)]
    }

    open spec fn connect_accepts(&self, services: Seq<GattService>) -> bool {
        spec_type_c_connect_accepts(services)
    }

    open spec fn connect_error(&self, services: Seq<GattService>) -> DeviceError {
        if !spec_has_service(services, TYPE_C_SVC_UUID) {
            DeviceError::ServiceNotFound
        } else {
            DeviceError::CharacteristicNotFound
        }
    }

    fn connect_with(&mut self, services: &Vec<GattService>) -> (r: Result<(), DeviceError>) {
        self.initialized = false;
        let k = match find_service(services, TYPE_C_SVC_UUID) {
            Some(k) => k,
            None => {
                return Err(DeviceError::ServiceNotFound);
            },
        };
        if service_has_char(&services[k], TYPE_C_CHR_STATE_UUID) {
            self.initialized = true;
            Ok(())
        } else {
            proof {
                assert forall|i: int|
                    spec_is_first_service(
                        services@,
                        TYPE_C_SVC_UUID,
                        i,
                    ) implies !spec_service_has_char(services@[i], TYPE_C_CHR_STATE_UUID) by {
                    lemma_first_service_unique(services@, TYPE_C_SVC_UUID, i, k as int);
                }
            }
            Err(DeviceError::CharacteristicNotFound)
        }
    }

    fn set_on_off_request(&mut self, state: bool) -> (r: Result<Vec<u8>, DeviceError>) {
        if !self.initialized {
            return Err(DeviceError::DeviceNotConnected);
        }
        Ok(type_c_request(state))
    }

    fn is_connected(&self, link_up: bool) -> (r: bool) {
        link_up && self.initialized
    }

    fn disconnect(&mut self) {
        self.initialized = false;
    }
}

} // verus!
