//! The boundary to the remote object store: the store client type and the
//! one blocking whole-object read the materializer performs through it.

use vstd::prelude::*;

verus! {

/// `opendal::Operator` is the remote store client handed in at construction;
/// this declaration lets verified code hold and pass values of it. The value
/// is opaque: nothing inside it is read by verified code.
#[verifier::external_type_specification]
#[verifier::external_body]
pub struct ExOperator(opendal::Operator);

/// Relies on `opendal::BlockingOperator::read`, reached through
/// `opendal::Operator::blocking`: a blocking read of the whole object stored
/// under `path`. What comes back depends on the state of the remote store, so
/// nothing is promised of the result; every failure (missing object, bad
/// path, transport error) is folded into `None`, and callers handle both
/// outcomes.
#[verifier::external_body]
pub(crate) fn fetch_bytes(operator: &opendal::Operator, path: &str) -> Option<Vec<u8>> {
    match operator.blocking().read(path) {
        Ok(buffer) => Some(buffer.to_vec()),
        Err(_) => None,
    }
}

} // verus!
