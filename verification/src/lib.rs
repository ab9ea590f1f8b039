//! A sans-I/O client for a CoAP gateway that manages light bulbs.
//!
//! The crate decides what is sent to the gateway and what its answers mean;
//! running the transport and keeping the derived key on disk is left to the
//! caller.

pub mod json;
pub mod coap;
pub mod device;
pub mod endpoints;
pub mod gateway;
pub mod text;
