//! A risk-based traffic redirector core.
//!
//! A gateway accepts TCP connections and UDP datagrams, scores each flow
//! against a set of trigger rules, and decides whether to relay the flow to
//! its original destination, redirect it to a deception destination, or drop
//! it.  The modules here hold the verified logic of that pipeline: trigger
//! evaluation, the policy decision, the tunnel relay state machine and its
//! registry, request generation and parsing, and the reporting data model.
//! All I/O (sockets, timers, the HTTP dashboard) lives outside the library
//! and hands plain values in.

pub mod analyzer;
pub mod decision_engine;
pub mod dispatcher;
pub mod models;
pub mod net;
pub mod policy;
pub mod render;
pub mod report;
pub mod requests;
pub mod rules;
pub mod scan;
pub mod tunnel;
