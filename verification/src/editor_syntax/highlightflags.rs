//! The classifiers a syntax can switch on, one bit each.

use vstd::prelude::*;

verus! {

/// Digits (and a decimal point inside a number) are classified as numbers.
pub const NUMBERS: u32 = 1;

/// Quoted text is classified as a string.
pub const STRINGS: u32 = 2;

} // verus!
