//! Declarations of the outside types that the library carries through
//! unchanged.

use vstd::prelude::*;

verus! {

/// `nlink`'s netem qdisc configuration: opaque here, carried from the
/// sandbox builder to the child that applies it.
#[verifier::external_type_specification]
#[verifier::external_body]
pub struct ExNetemConfig(nlink::netlink::tc::NetemConfig);

} // verus!
