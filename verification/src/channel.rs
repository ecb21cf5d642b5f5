//! The chat channels the bot posts to.

use vstd::prelude::*;

verus! {

/// One target channel. The numeric ids are the platform's channel
/// identifiers; the sends themselves happen outside the library.
#[derive(Clone, Copy, PartialEq, Eq, Structural, Debug)]
pub enum AppChannel {
    General,
    Poe,
    Poe2,
    LastEpoch,
    Dev,
}

impl AppChannel {
    /// The platform channel identifier this variant stands for.
    pub fn id(&self) -> (id: u64)
        ensures
            id == self.spec_id(),
    {
        match self {
            AppChannel::General => 356012941083934722,
            AppChannel::Poe => 356013349496029184,
            AppChannel::Poe2 => 1399352084515520654,
            AppChannel::LastEpoch => 1362313267879350363,
            AppChannel::Dev => 841929108829372460,
        }
    }

    /// The channel identifier, as a specification value.
    pub open spec fn spec_id(&self) -> u64 {
        match *self {
            AppChannel::General => 356012941083934722,
            AppChannel::Poe => 356013349496029184,
            AppChannel::Poe2 => 1399352084515520654,
            AppChannel::LastEpoch => 1362313267879350363,
            AppChannel::Dev => 841929108829372460,
        }
    }
}

} // verus!
