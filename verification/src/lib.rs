//! IEC 61850-9-2 Sampled Values: a verified codec for the sampled-value
//! protocol stack (tag-length-value records, phase-measurement blocks,
//! application data units, the outer PDU and its Ethernet framing) together
//! with a drift-compensated publication scheduler.

pub mod be;
pub mod model;
pub mod asdu;
pub mod ethernet;
pub mod packet;
pub mod phases;
pub mod sampled_value;
pub mod scheduler;
pub mod tlv;
