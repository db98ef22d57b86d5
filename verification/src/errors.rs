use vstd::prelude::*;

verus! {

/// Error taxonomy of the protocol. Every operation either commits all of its
/// writes or returns one of these and leaves every record unchanged.
#[derive(Clone, Copy, Debug, PartialEq, Eq, Structural)]
pub enum DarwinError {
    /// The genome does not contain exactly twelve genes.
    InvalidGenome,
    /// A gene value exceeds 1000.
    GeneOutOfRange,
    /// The operation requires a living agent that is not alive.
    AgentNotAlive,
    /// The caller identity does not match the stored authority.
    Unauthorized,
    /// A checked arithmetic step would exceed its representable range.
    Overflow,
    /// A kill was attempted on an agent that has already been killed.
    AlreadyDead,
}

} // verus!
