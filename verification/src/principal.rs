//! The text form of a principal, the identity that the host platform gives
//! to every caller.

use vstd::prelude::*;

verus! {

/// The greatest number of bytes that a principal can hold.
pub const MAX_PRINCIPAL_LEN: usize = 29;

/// The text that the `candid` crate prints for the principal made of `bytes`:
/// a checksum and the bytes themselves, in base 32, grouped by dashes.
/// The encoding is fixed by `candid`; nothing more is claimed of it here than
/// that equal bytes give equal text.
pub uninterp spec fn principal_text(bytes: Seq<u8>) -> Seq<char>;

/// Builds a `candid::Principal` from `bytes` with `Principal::from_slice` and
/// prints it with `Principal::to_text`.
///
/// Trusted: the result is the text form of the principal, a function of the
/// bytes alone. `from_slice` panics on more than `MAX_PRINCIPAL_LEN` bytes, so
/// longer inputs are excluded.
#[verifier::external_body]
pub(crate) fn principal_to_text(bytes: &[u8]) -> (text: String)
    requires
        bytes@.len() <= MAX_PRINCIPAL_LEN,
    ensures
        text@ == principal_text(bytes@),
{
    candid::Principal::from_slice(bytes).to_text()
}

} // verus!
