use vstd::prelude::*;

verus! {

/// Relies on idgenerator's process-wide `IdInstance::next_id`, which draws
/// from the snowflake generator that start-up configured with this worker's
/// id; the value depends on the clock and on earlier calls, so nothing is
/// promised of it here.
#[verifier::external_body]
pub(crate) fn next_account_id() -> (r: i64) {
    idgenerator::IdInstance::next_id()
}

} // verus!
