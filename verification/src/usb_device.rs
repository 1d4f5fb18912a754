//! How a link endpoint fails, and what the transport makes of it.

use vstd::prelude::*;

verus! {

/// The ways a read or a write on the link endpoint can fail.
#[derive(Debug, Clone, Copy, PartialEq, Eq, Structural)]
pub enum LinkError {
    /// A packet did not fit the buffer that was offered for it.
    BufferOverflow,
    /// The endpoint is disabled: the host went away.
    Disabled,
}

/// The session is over because the link was torn down.
#[derive(Debug, Clone, Copy, PartialEq, Eq, Structural)]
pub struct Disconnected;

impl Disconnected {
    /// A disabled endpoint ends the session. An overflow is no state of the
    /// link but a frame that broke the packet bound, so it is not accepted
    /// here: no frame of this library is that long.
    pub fn from(val: LinkError) -> (out: Disconnected)
        requires
            val == LinkError::Disabled,
        ensures
            out == Disconnected,
    {
        match val {
            LinkError::Disabled => Disconnected,
            LinkError::BufferOverflow => Disconnected,
        }
    }
}

} // verus!
