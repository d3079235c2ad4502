use vstd::prelude::*;

verus! {

/// Vector Base Address Register value for exception level `EL`.
#[derive(Clone, Copy)]
pub struct VbarEl<const EL: usize>(pub u64);

impl<const EL: usize> VbarEl<EL> {
    pub fn new(value: u64) -> (r: Self)
        ensures
            r.0 == value,
    {
        Self(value)
    }

    pub fn value(&self) -> (r: u64)
        ensures
            r == self.0,
    {
        self.0
    }
}

/// Counter-timer Virtual Offset register value.
#[derive(Clone, Copy, PartialEq, Eq, Structural)]
pub struct CntVOffEl2(pub u64);

impl CntVOffEl2 {
    pub fn new(value: u64) -> (r: Self)
        ensures
            r.0 == value,
    {
        Self(value)
    }

    pub fn value(&self) -> (r: u64)
        ensures
            r == self.0,
    {
        self.0
    }
}

/// Exception Link Register value for exception level `EL`.
#[derive(Clone, Copy)]
pub struct ElrEl<const EL: usize>(pub u64);

impl<const EL: usize> ElrEl<EL> {
    pub fn new(value: u64) -> (r: Self)
        ensures
            r.0 == value,
    {
        Self(value)
    }

    pub fn value(&self) -> (r: u64)
        ensures
            r == self.0,
    {
        self.0
    }
}

/// Stack Pointer value for exception level `EL`.
#[derive(Clone, Copy)]
pub struct SpEl<const EL: usize>(pub u64);

impl<const EL: usize> SpEl<EL> {
    pub fn new(value: u64) -> (r: Self)
        ensures
            r.0 == value,
    {
        Self(value)
    }

    pub fn value(&self) -> (r: u64)
        ensures
            r == self.0,
    {
        self.0
    }
}

} // verus!
