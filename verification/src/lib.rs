//! Signing a command-line tool in to a remote control plane.
//!
//! The crate holds the decisions of the login command and none of its input
//! or output. [`flow`] is the command as a machine: it hands out what to
//! print and what to carry out, and takes what came of it. [`script`] runs
//! the machine against replies that are known beforehand, and [`laws`]
//! states what holds of every run. The other modules are what the machine
//! is made of: the options ([`command`]), the choice of the method
//! ([`selector`]), the values that pass ([`model`]), the credential file
//! ([`store`], [`json`]), the identity service's refusals ([`password`]),
//! the client identifier ([`client`]) and the errors ([`error`]). [`llm`]
//! holds the options of the inferencing engine.

pub mod client;
pub mod command;
pub mod error;
pub mod flow;
pub mod json;
pub mod laws;
pub mod llm;
pub mod model;
pub mod password;
pub mod script;
pub mod selector;
pub mod store;
pub mod text;
