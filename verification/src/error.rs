//! The single user-visible error of the library.

use vstd::prelude::*;

verus! {

/// A deliberately uninformative failure signal.
///
/// The status query never reveals which latch tripped, when, or why: a
/// caller learns only that the module can no longer vouch for compliance.
#[derive(Clone, Copy, Debug, PartialEq, Eq, Structural)]
pub struct Unspecified;

} // verus!
