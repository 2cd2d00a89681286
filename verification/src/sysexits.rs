//! Exit codes after `sysexits.h`, for a program that terminates deliberately
//! and wants its caller to learn the class of the failure.

use vstd::prelude::*;

verus! {

/// Successful termination
pub const OK: isize = 0;

/// Command line usage error
pub const USAGE: isize = 64;

/// Data format error
pub const DATA_ERR: isize = 65;

/// Cannot open input
pub const NO_INPUT: isize = 66;

/// Addressee unknown
pub const NO_USER: isize = 67;

/// Host name unknown
pub const NO_HOST: isize = 68;

/// Service unavailable
pub const UNAVAILABLE: isize = 69;

/// Internal software error
pub const SOFTWARE_ERR: isize = 70;

/// System error (e.g. can't fork)
pub const OS_ERR: isize = 71;

/// Critical OS file missing
pub const OS_FILE: isize = 72;

/// Can't create (user) output file
pub const CANT_CREAT: isize = 73;

/// Input/output error
pub const IO_ERR: isize = 74;

/// Temp failure; user is invited to retry
pub const TEMP_FAIL: isize = 75;

/// Remote error in protocol
pub const PROTOCOL: isize = 76;

/// Permission denied
pub const NO_PERM: isize = 77;

/// Configuration error
pub const CONFIG: isize = 78;

} // verus!
