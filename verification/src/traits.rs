//! Values that stand for addresses or lengths, and regions made of a base
//! and a length.
use vstd::prelude::*;

verus! {

/// A value that can be read as a 64-bit number.
pub trait AsU64 {
    /// The value as a number.
    spec fn spec_as_u64(&self) -> u64;

    /// The value as a number.
    fn as_u64(&self) -> (r: u64)
        ensures
            r == self.spec_as_u64(),
    ;
}

impl AsU64 for u8 {
    open spec fn spec_as_u64(&self) -> u64 {
        *self as u64
    }

    fn as_u64(&self) -> (r: u64) {
        *self as u64
    }
}

impl AsU64 for u16 {
    open spec fn spec_as_u64(&self) -> u64 {
        *self as u64
    }

    fn as_u64(&self) -> (r: u64) {
        *self as u64
    }
}

impl AsU64 for u32 {
    open spec fn spec_as_u64(&self) -> u64 {
        *self as u64
    }

    fn as_u64(&self) -> (r: u64) {
        *self as u64
    }
}

impl AsU64 for u64 {
    open spec fn spec_as_u64(&self) -> u64 {
        *self
    }

    fn as_u64(&self) -> (r: u64) {
        *self
    }
}

impl AsU64 for usize {
    open spec fn spec_as_u64(&self) -> u64 {
        *self as u64
    }

    fn as_u64(&self) -> (r: u64) {
        *self as u64
    }
}

impl AsU64 for isize {
    open spec fn spec_as_u64(&self) -> u64 {
        *self as u64
    }

    fn as_u64(&self) -> (r: u64) {
        *self as u64
    }
}

/// A type that can stand for the length of a region.
pub trait LengthLimit: AsU64 + Copy {
}

/// A type that can stand for the base of a region.
pub trait BaseLimit: AsU64 + Copy {
}

impl LengthLimit for u8 {
}

impl LengthLimit for u16 {
}

impl LengthLimit for u32 {
}

impl LengthLimit for u64 {
}

impl LengthLimit for usize {
}

impl BaseLimit for u8 {
}

impl BaseLimit for u16 {
}

impl BaseLimit for u32 {
}

impl BaseLimit for u64 {
}

impl BaseLimit for usize {
}

/// A region: a base and a length.
pub trait Region<LenT: LengthLimit, BaseT: BaseLimit>: Sized {
    /// Where the region starts.
    spec fn base_spec(&self) -> BaseT;

    /// How long the region is.
    spec fn length_spec(&self) -> LenT;

    /// The region of `length` from `base`.
    fn new(length: LenT, base: BaseT) -> (r: Self)
        ensures
            r.base_spec() == base,
            r.length_spec() == length,
    ;

    /// How long the region is.
    fn get_length(&self) -> (r: LenT)
        ensures
            r == self.length_spec(),
    ;

    /// Where the region starts.
    fn get_base(&self) -> (r: BaseT)
        ensures
            r == self.base_spec(),
    ;

    /// First address after the region.
    fn end(&self) -> (r: u64)
        requires
            self.base_spec().spec_as_u64() + self.length_spec().spec_as_u64() <= u64::MAX,
        ensures
            r == self.base_spec().spec_as_u64() + self.length_spec().spec_as_u64(),
    ;

    /// `other` lies inside this region.
    fn within(&self, other: &Self) -> (r: bool)
        requires
            self.base_spec().spec_as_u64() + self.length_spec().spec_as_u64() <= u64::MAX,
            other.base_spec().spec_as_u64() + other.length_spec().spec_as_u64() <= u64::MAX,
        ensures
            r == (other.base_spec().spec_as_u64() >= self.base_spec().spec_as_u64()
                && other.base_spec().spec_as_u64() + other.length_spec().spec_as_u64()
                <= self.base_spec().spec_as_u64() + self.length_spec().spec_as_u64()),
    ;

    /// The part of the region from `offset` on: always `None`, the
    /// operation is switched off.
    fn offset(&self, offset: LenT) -> (r: Option<BasicRegion<LenT, BaseT>>)
        ensures
            r is None,
    ;
}

/// The plain region.
#[derive(Clone, Copy)]
pub struct BasicRegion<LenT: LengthLimit, BaseT: BaseLimit> {
    pub base: BaseT,
    pub length: LenT,
}

impl<LenT: LengthLimit, BaseT: BaseLimit> Region<LenT, BaseT> for BasicRegion<LenT, BaseT> {
    open spec fn base_spec(&self) -> BaseT {
        self.base
    }

    open spec fn length_spec(&self) -> LenT {
        self.length
    }

    fn new(length: LenT, base: BaseT) -> (r: Self) {
        BasicRegion { base, length }
    }

    fn get_length(&self) -> (r: LenT) {
        self.length
    }

    fn get_base(&self) -> (r: BaseT) {
        self.base
    }

    fn end(&self) -> (r: u64) {
        self.base.as_u64() + self.length.as_u64()
    }

    fn within(&self, other: &Self) -> (r: bool) {
        other.base.as_u64() >= self.base.as_u64() && other.end() <= self.end()
    }

    fn offset(&self, offset: LenT) -> (r: Option<BasicRegion<LenT, BaseT>>) {
        None
    }
}

} // verus!
