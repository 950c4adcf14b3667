//! The policy applied to every outbound payload.
use vstd::prelude::*;
use crate::error::{Error, Result};

verus! {

/// Largest payload the broker accepts, in bytes.
pub const MAX_PAYLOAD_SIZE: usize = 256_000;

/// Delivery guarantee of a published or subscribed message.
#[derive(Debug, Clone, Copy, PartialEq, Eq, Structural)]
pub enum QoS {
    AtMostOnce,
    AtLeastOnce,
    ExactlyOnce,
}

/// The outcome `check_publish` owes for a payload of `len` bytes.
pub open spec fn publish_verdict(qos: QoS, len: nat) -> Result<()> {
    if qos == QoS::ExactlyOnce {
        Err(Error::UnsupportedQoS)
    } else if len > MAX_PAYLOAD_SIZE {
        Err(Error::PayloadTooLarge)
    } else {
        Ok(())
    }
}

/// Checks QoS and payload size before a message is published.
pub fn check_publish(qos: QoS, payload_len: usize) -> (r: Result<()>)
    ensures
        r == publish_verdict(qos, payload_len as nat),
        qos == QoS::ExactlyOnce ==> r == Err::<(), Error>(Error::UnsupportedQoS),
        qos != QoS::ExactlyOnce && payload_len > MAX_PAYLOAD_SIZE ==> r == Err::<(), Error>(
            Error::PayloadTooLarge,
        ),
        qos != QoS::ExactlyOnce && payload_len <= MAX_PAYLOAD_SIZE ==> r is Ok,
        payload_len > MAX_PAYLOAD_SIZE ==> r is Err,
{
    if qos == QoS::ExactlyOnce {
        return Err(Error::UnsupportedQoS);
    }
    if payload_len > MAX_PAYLOAD_SIZE {
        return Err(Error::PayloadTooLarge);
    }
    Ok(())
}

} // verus!
