//! Verified core of a Linux raw-socket and bounded network-scanner library.
//!
//! The modules hold the checked validation, lifecycle, encoding and
//! accounting rules of the socket layer and of the scanner sessions; the
//! system calls themselves live outside this crate and hand plain values in.
use vstd::prelude::*;

pub mod advanced;
pub mod backend;
pub mod batch;
pub mod discovery;
pub mod discovery_run;
pub mod discovery_schedule;
pub mod discovery_order;
pub mod discovery_plan;
pub mod discovery_products;
pub mod discovery_replies;
pub mod discovery_rows;
pub mod error;
pub mod message;
pub mod harvest;
pub mod mdns;
pub mod names;
pub mod observation;
pub mod options;
pub mod path;
pub mod plan;
pub mod probe;
pub mod results;
pub mod router;
pub mod rpcbind;
pub mod scan_error;
pub mod scan_plan;
pub mod service;
pub mod session;
pub mod text;
pub mod udp_program;

verus! {

} // verus!
