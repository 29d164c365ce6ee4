use vstd::prelude::*;

verus! {

pub const SUCCESS: i32 = 0;

pub const NOT_SUPPORTED: i32 = -1;

pub const INVALID_PARAMETERS: i32 = -2;

pub const DEFINED: i32 = -3;

pub const ALREADY_ON: i32 = -4;

pub const ON_PENDING: i32 = -5;

pub const INTERNAL_FAILURE: i32 = -6;

pub const NOT_PRESENT: i32 = -7;

pub const DISABLED: i32 = -8;

pub const INVALID_ADDRESS: i32 = -9;

} // verus!
