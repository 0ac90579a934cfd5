//! Protocol version and negotiation.

use vstd::prelude::*;

verus! {

/// The protocol version this agent speaks.
pub const PROTOCOL_VERSION: u32 = 1;

/// The version both sides can speak: the lower of the two.
pub open spec fn spec_negotiated(agent: u32, backend: u32) -> u32 {
    if agent <= backend { agent } else { backend }
}

/// Negotiates the protocol version between an agent and the backend.
pub fn negotiate_version(agent: u32, backend: u32) -> (v: u32)
    ensures
        v == spec_negotiated(agent, backend),
        v <= agent && v <= backend,
        v == agent || v == backend,
{
    if agent <= backend { agent } else { backend }
}

/// Law: both sides reach the same version whichever asks, and a side
/// that already speaks the agreed version keeps it.
pub proof fn law_negotiation_agrees(agent: u32, backend: u32)
    ensures
        spec_negotiated(agent, backend) == spec_negotiated(backend, agent),
        spec_negotiated(spec_negotiated(agent, backend), backend) == spec_negotiated(agent, backend),
        spec_negotiated(agent, agent) == agent,
{
}

} // verus!
