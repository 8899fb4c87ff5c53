//! Points in time, kept as `time::PrimitiveDateTime` and carried through.

use vstd::prelude::*;

verus! {

/// A date and time without an offset, opaque to the proofs.
#[verifier::external_type_specification]
#[verifier::external_body]
pub struct ExPrimitiveDateTime(time::PrimitiveDateTime);

/// `Clone::clone` of `time::PrimitiveDateTime`, a `Copy` type: the copy is
/// the same point in time.
pub assume_specification[ <time::PrimitiveDateTime as Clone>::clone ](
    t: &time::PrimitiveDateTime,
) -> (r: time::PrimitiveDateTime)
    ensures
        r == *t,
;

} // verus!
