use vstd::prelude::*;

verus! {

/// Why an operation of the engine was refused.
#[derive(Clone, Copy, Debug, PartialEq, Eq, Structural)]
pub enum Error {
    /// The handle is dead or was never issued, or the singleton is absent.
    NotFound,
    /// A singleton or a clip of that identity is already registered.
    AlreadyPresent,
    /// No animation clip is registered under the name.
    UnknownClip,
    /// Every slot of the store is in use.
    CapacityExceeded,
    /// The handle does not name a live slot of the allocator.
    InvalidHandle,
}

impl Error {
    /// A short human-readable description of the error.
    pub fn describe(&self) -> (text: &'static str)
        ensures
            text@ == Self::description(*self),
    {
        match self {
            Error::NotFound => "not found",
            Error::AlreadyPresent => "already present",
            Error::UnknownClip => "unknown clip",
            Error::CapacityExceeded => "capacity exceeded",
            Error::InvalidHandle => "invalid handle",
        }
    }

    /// The text that `describe` returns for each error.
    pub open spec fn description(e: Error) -> Seq<char> {
        match e {
            Error::NotFound => "not found"@,
            Error::AlreadyPresent => "already present"@,
            Error::UnknownClip => "unknown clip"@,
            Error::CapacityExceeded => "capacity exceeded"@,
            Error::InvalidHandle => "invalid handle"@,
        }
    }
}

} // verus!
