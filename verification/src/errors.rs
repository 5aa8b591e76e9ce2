use vstd::prelude::*;

verus! {

/// Failure taxonomy of the device-control subsystem.
#[derive(Clone, Copy, Debug, PartialEq, Eq, Structural)]
pub enum DeviceError {
    /// No configured device was discovered before the search ended.
    DeviceNotFound,
    /// A bounded operation (scan attempt, response wait) ran out of time.
    Timeout,
    /// The peripheral does not expose the variant's service UUID.
    ServiceNotFound,
    /// The service lacks a characteristic the variant requires.
    CharacteristicNotFound,
    /// A response payload was malformed or unexpected.
    ProtocolError,
    /// The notification listener ended before a response arrived.
    ChannelClosed,
    /// An operation was attempted before initialization completed.
    DeviceNotConnected,
    /// The underlying transport link failed.
    TransportError,
}

} // verus!
