use vstd::prelude::*;

verus! {

/// The 128-bit value of the name-based (SHA-1) UUID that `uuid::Uuid::new_v5`
/// derives from the OID namespace and the given name. It is a function of the
/// name alone, the same in every process and on every machine.
pub uninterp spec fn uuid_v5_in_oid(name: Seq<char>) -> u128;

/// Relies on `uuid::Uuid::new_v5` with namespace `uuid::Uuid::NAMESPACE_OID`:
/// the name-based (SHA-1) UUID of the given name, a deterministic function of
/// the namespace and name bytes alone, returned as its 128-bit value via
/// `uuid::Uuid::as_u128`.
#[verifier::external_body]
pub(crate) fn v5_in_oid(name: &str) -> (r: u128)
    ensures
        r == uuid_v5_in_oid(name@),
{
    uuid::Uuid::new_v5(&uuid::Uuid::NAMESPACE_OID, name.as_bytes()).as_u128()
}

} // verus!
