//! The set of backing wheel files the block engine is built over.
//!
//! The facade only collects and validates the references; spinning up the
//! block engine workers over them is the unverified shell's business, and
//! the engine's own parameters are carried through opaquely.

use vstd::prelude::*;

use crate::EngineError;

verus! {

/// How assembling the wheel set fails: an empty set is refused, and the
/// block engine may refuse a wheel while workers are spun up over it.
#[derive(Clone, Copy, Debug, PartialEq, Eq, Structural)]
pub enum Error {
    NoWheelsParams,
    Wheels(EngineError),
    BlockwheelFsVersklaven(EngineError),
}

/// The name of one backing wheel file.
#[derive(Debug, PartialEq, Eq)]
pub struct WheelFilename {
    pub filename_bytes: Vec<u8>,
}

/// The block engine's configuration for one wheel, carried through opaquely:
/// this layer reads nothing of it.
#[derive(Clone, Copy, Debug, PartialEq, Eq, Structural)]
pub struct WheelParams;

/// One backing wheel: its file name and the block engine's parameters.
#[derive(Debug, PartialEq, Eq)]
pub struct WheelRef {
    pub blockwheel_filename: WheelFilename,
    pub blockwheel_fs_params: WheelParams,
}

/// Collects wheel references before the facade starts.
pub struct WheelsBuilder {
    wheels: Vec<WheelRef>,
}

/// A validated, non-empty set of wheel references.
pub struct Wheels {
    wheels: Vec<WheelRef>,
}

impl WheelsBuilder {
    /// The references collected so far.
    pub closed spec fn refs(self) -> Seq<WheelRef> {
        self.wheels@
    }

    /// An empty builder.
    pub fn new() -> (b: Self)
        ensures
            b.refs() == Seq::<WheelRef>::empty(),
    {
        Self { wheels: Vec::new() }
    }

    /// Add one wheel reference; the builder is returned for chaining.
    pub fn add_wheel_ref(&mut self, wheel_ref: WheelRef) -> (ret: &mut Self)
        ensures
            (*ret).refs() == old(self).refs().push(wheel_ref),
            *final(self) == *final(ret),
    {
        self.wheels.push(wheel_ref);
        self
    }

    /// Validate the collected set: at least one wheel is required, and the
    /// references are kept exactly as they were added.
    pub fn build(self) -> (r: Result<Wheels, Error>)
        ensures
            self.refs().len() == 0 <==> r == Err::<Wheels, Error>(Error::NoWheelsParams),
            self.refs().len() > 0 ==> (r matches Ok(w) && w.refs() == self.refs()),
    {
        if self.wheels.is_empty() {
            return Err(Error::NoWheelsParams);
        }
        Ok(Wheels { wheels: self.wheels })
    }
}

impl Default for WheelsBuilder {
    /// The default builder is empty.
    fn default() -> (b: Self)
        ensures
            b.refs() == Seq::<WheelRef>::empty(),
    {
        Self::new()
    }
}

impl Wheels {
    /// The validated references.
    pub closed spec fn refs(self) -> Seq<WheelRef> {
        self.wheels@
    }

    /// The references, for the shell that spins up one block engine worker
    /// set per wheel.
    pub fn wheel_refs(&self) -> (r: &Vec<WheelRef>)
        ensures
            r@ == self.refs(),
    {
        &self.wheels
    }
}

} // verus!
