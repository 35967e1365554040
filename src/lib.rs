//! Dispatch core of a node: typed requests, single-use responders, a storage
//! binding, prioritised event queues and the reactor that routes events.

pub mod queue;
pub mod reactor;
pub mod requests;
pub mod responder;
pub mod rest;
pub mod storage;
