//! The redirect policy and its decision rule.
//!
//! A [`PolicyStore`] holds the inclusive redirect threshold, an optional
//! hard-drop threshold (never below the redirect threshold), and the
//! per-protocol redirect destination.  [`PolicyStore::decide`] turns a scored
//! flow into a [`Decision`]: drop first, then redirect, else pass through; a
//! redirect with no mapped destination degrades to pass-through and reports
//! the configuration problem instead of dropping traffic.

use vstd::prelude::*;

use crate::analyzer::AnalysisResult;
use crate::net::{Address, Protocol};

verus! {

/// What the gateway does with a scored flow.
#[derive(Clone, Copy, Debug, PartialEq, Eq, Structural)]
pub enum Decision {
    /// Forward the flow to its default destination, unmodified.
    PassThrough,
    /// Relay the flow to the given deception destination.
    Redirect(Address),
    /// Close the flow without contacting any destination.
    Drop,
}

/// A per-flow policy problem, reported but never fatal to the flow.
#[derive(Clone, Copy, Debug, PartialEq, Eq, Structural)]
pub enum PolicyError {
    /// A redirect was due but the protocol has no mapped destination.
    NoDestination,
}

/// A configuration rejected at startup.
#[derive(Clone, Copy, Debug, PartialEq, Eq, Structural)]
pub enum ConfigError {
    /// The drop threshold lies below the redirect threshold.
    DropBelowRedirect,
    /// The trigger weights sum beyond machine range.
    WeightOverflow,
}

/// The redirect policy, loaded once at startup and read-only thereafter.
#[derive(Clone, Copy, Debug)]
pub struct PolicyStore {
    pub redirect_threshold: u64,
    pub drop_threshold: Option<u64>,
    pub tcp_destination: Option<Address>,
    pub udp_destination: Option<Address>,
}

impl PolicyStore {
    /// The drop threshold, when present, is at least the redirect threshold.
    pub open spec fn wf(&self) -> bool {
        match self.drop_threshold {
            Some(d) => d >= self.redirect_threshold,
            None => true,
        }
    }

    /// The redirect destination mapped to the given protocol.
    pub open spec fn destination_for(&self, protocol: Protocol) -> Option<Address> {
        match protocol {
            Protocol::Tcp => self.tcp_destination,
            Protocol::Udp => self.udp_destination,
        }
    }

    /// What `decide` returns: the decision and, where a redirect was due but
    /// unmapped, the configuration warning.
    pub open spec fn spec_decide(&self, risk: u64, protocol: Protocol) -> (Decision, Option<
        PolicyError,
    >) {
        if (match self.drop_threshold {
            Some(d) => risk >= d,
            None => false,
        }) {
            (Decision::Drop, None)
        } else if risk >= self.redirect_threshold {
            match self.destination_for(protocol) {
                Some(dest) => (Decision::Redirect(dest), None),
                None => (Decision::PassThrough, Some(PolicyError::NoDestination)),
            }
        } else {
            (Decision::PassThrough, None)
        }
    }

    /// Build a policy, rejecting a drop threshold below the redirect
    /// threshold; such a configuration is a startup-fatal error.
    pub fn new(
        redirect_threshold: u64,
        drop_threshold: Option<u64>,
        tcp_destination: Option<Address>,
        udp_destination: Option<Address>,
    ) -> (r: Result<PolicyStore, ConfigError>)
        ensures
            match r {
                Ok(p) => p == (PolicyStore {
                    redirect_threshold,
                    drop_threshold,
                    tcp_destination,
                    udp_destination,
                }) && p.wf(),
                Err(e) => e == ConfigError::DropBelowRedirect && match drop_threshold {
                    Some(d) => d < redirect_threshold,
                    None => false,
                },
            },
    {
        match drop_threshold {
            Some(d) if d < redirect_threshold => Err(ConfigError::DropBelowRedirect),
            _ => Ok(
                PolicyStore { redirect_threshold, drop_threshold, tcp_destination, udp_destination },
            ),
        }
    }

    /// Decide a scored flow.  Thresholds are inclusive; the drop threshold is
    /// checked first; a redirect without a mapped destination degrades to
    /// pass-through with a [`PolicyError::NoDestination`] warning.
    pub fn decide(&self, result: &AnalysisResult, protocol: Protocol) -> (r: (Decision, Option<
        PolicyError,
    >))
        ensures
            r == self.spec_decide(result.risk_level, protocol),
    {
        let risk = result.risk_level;
        let dropping = match self.drop_threshold {
            Some(d) => risk >= d,
            None => false,
        };
        if dropping {
            (Decision::Drop, None)
        } else if risk >= self.redirect_threshold {
            let dest = match protocol {
                Protocol::Tcp => self.tcp_destination,
                Protocol::Udp => self.udp_destination,
            };
            match dest {
                Some(d) => (Decision::Redirect(d), None),
                None => (Decision::PassThrough, Some(PolicyError::NoDestination)),
            }
        } else {
            (Decision::PassThrough, None)
        }
    }
}

/// Threshold inclusivity: a flow scoring exactly the redirect threshold is
/// redirected, not passed through — provided the drop threshold (if any) lies
/// strictly above it and the protocol has a mapped destination.
pub proof fn lemma_threshold_inclusive(p: PolicyStore, protocol: Protocol)
    requires
        p.wf(),
        p.destination_for(protocol) is Some,
        match p.drop_threshold {
            Some(d) => d > p.redirect_threshold,
            None => true,
        },
    ensures
        p.spec_decide(p.redirect_threshold, protocol).0 is Redirect,
{
}

/// Drop precedence: when a drop threshold is configured and the risk reaches
/// it, the decision is `Drop`, even where the risk also reaches the redirect
/// threshold.
pub proof fn lemma_drop_precedence(p: PolicyStore, risk: u64, protocol: Protocol)
    requires
        p.drop_threshold is Some,
        risk >= p.drop_threshold->0,
    ensures
        p.spec_decide(risk, protocol).0 is Drop,
{
}

} // verus!
