//! The client half of the protocol by which a plugin process drives a virtual machine monitor.
//!
//! A plugin opens a connection, creates objects and runs VCPUs through it. Every operation sends a
//! request and reads a response. What is sent, what a response means and which error the caller
//! gets is decided here. Sockets and the encoding of messages are the caller's: an operation is a
//! function that makes the request and one that takes what came of it, and [`transaction`] says,
//! step by step, how the one leads to the other.
//!
//! - [`protocol`]: the messages
//! - [`transaction`]: the exchange of a request for a response
//! - [`connection`]: the main connection
//! - [`objects`]: events and memory that a plugin creates
//! - [`vcpu`]: the connection of a VCPU
//! - [`ids`]: identifiers of objects
//! - [`api`]: results in the terms of the C API
//! - [`errno`]: error numbers
//! - [`rand_ish`]: random text
#![allow(non_camel_case_types)]

pub mod api;
pub mod connection;
pub mod errno;
pub mod ids;
pub mod objects;
pub mod protocol;
pub mod rand_ish;
pub mod transaction;
pub mod vcpu;
