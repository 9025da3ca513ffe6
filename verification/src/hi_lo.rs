//! Values that split into a high and a low half.

use crate::bits::{lemma_bytes, lemma_nibbles};
use vstd::prelude::*;

verus! {

/// A value made of a high and a low part of equal width.
pub trait HiLo: Sized {
    /// The type of one half.
    type T;

    /// The upper half of the value.
    spec fn hi_spec(&self) -> Self::T;

    /// The lower half of the value.
    spec fn lo_spec(&self) -> Self::T;

    /// The value with its upper half replaced and its lower half kept.
    spec fn with_hi(&self, val: Self::T) -> Self;

    /// The value with its lower half replaced and its upper half kept.
    spec fn with_lo(&self, val: Self::T) -> Self;

    /// Returns the upper half of this value.
    fn hi(&self) -> (half: Self::T)
        ensures
            half == self.hi_spec(),
    ;

    /// Replaces the upper half of this value.
    fn set_hi(&mut self, val: Self::T)
        ensures
            *final(self) == old(self).with_hi(val),
    ;

    /// Returns the lower half of this value.
    fn lo(&self) -> (half: Self::T)
        ensures
            half == self.lo_spec(),
    ;

    /// Replaces the lower half of this value.
    fn set_lo(&mut self, val: Self::T)
        ensures
            *final(self) == old(self).with_lo(val),
    ;
}

impl HiLo for u8 {
    type T = u8;

    open spec fn hi_spec(&self) -> u8 {
        *self / 16
    }

    open spec fn lo_spec(&self) -> u8 {
        *self % 16
    }

    open spec fn with_hi(&self, val: u8) -> u8 {
        ((val % 16) * 16 + *self % 16) as u8
    }

    open spec fn with_lo(&self, val: u8) -> u8 {
        ((*self / 16) * 16 + val % 16) as u8
    }

    #[inline(always)]
    fn hi(&self) -> (half: u8) {
        proof {
            lemma_nibbles(*self, 0);
        }
        (*self & 0xf0) >> 4
    }

    #[inline(always)]
    fn set_hi(&mut self, val: u8) {
        proof {
            lemma_nibbles(*self, val);
        }
        *self = (*self & 0x0f) | ((val & 0x0f) << 4);
    }

    #[inline(always)]
    fn lo(&self) -> (half: u8) {
        proof {
            lemma_nibbles(*self, 0);
        }
        *self & 0x0f
    }

    #[inline(always)]
    fn set_lo(&mut self, val: u8) {
        proof {
            lemma_nibbles(*self, val);
        }
        *self = (*self & 0xf0) | (val & 0x0f);
    }
}

impl HiLo for u16 {
    type T = u8;

    open spec fn hi_spec(&self) -> u8 {
        (*self / 256) as u8
    }

    open spec fn lo_spec(&self) -> u8 {
        (*self % 256) as u8
    }

    open spec fn with_hi(&self, val: u8) -> u16 {
        (val * 256 + *self % 256) as u16
    }

    open spec fn with_lo(&self, val: u8) -> u16 {
        ((*self / 256) * 256 + val) as u16
    }

    #[inline(always)]
    fn hi(&self) -> (half: u8) {
        proof {
            lemma_bytes(*self, 0);
        }
        ((*self & 0xff00) >> 8) as u8
    }

    #[inline(always)]
    fn set_hi(&mut self, val: u8) {
        proof {
            lemma_bytes(*self, val);
        }
        *self = (*self & 0x00ff) | ((val as u16) << 8);
    }

    #[inline(always)]
    fn lo(&self) -> (half: u8) {
        proof {
            lemma_bytes(*self, 0);
        }
        (*self & 0x00ff) as u8
    }

    #[inline(always)]
    fn set_lo(&mut self, val: u8) {
        proof {
            lemma_bytes(*self, val);
        }
        *self = (*self & 0xff00) | (val as u16);
    }
}

} // verus!
