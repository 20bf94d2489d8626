//! Decision logic of a small gateway to the CESS decentralized-storage
//! network: an upload service with a single route, and a one-shot setup of
//! the account that the service uploads as.
//!
//! The library touches neither the network nor the disk. Each of the two is
//! a flow of steps: a step tells the driver what to do next, the driver does
//! it and reports the outcome, and the flow answers with the step after it.
//! That keeps every decision here, where it is proved: which reply a
//! request gets, which failure ends a run and which is passed over, what is
//! written and what is called, with which arguments and in which order.
//!
//! - [`upload`] is the flow of the upload service, [`setup`] that of the
//!   account setup;
//! - [`response`] holds the bodies of the upload route, [`failure`] the
//!   failures and their messages, [`remote`] what passes between a flow and
//!   its driver, and [`settings`] the fixed values.

pub mod failure;
pub mod remote;
pub mod response;
pub mod settings;
pub mod setup;
pub mod upload;
