//! Random bytes from the operating system.

use vstd::prelude::*;
use crate::error::{sentence, CryptoError, ErrorView};

verus! {

/// The error of the `getrandom` crate, carried through unread.
#[verifier::external_type_specification]
#[verifier::external_body]
pub struct ExEntropyError(getrandom::Error);

/// Overwrites the buffer with bytes from the operating system's entropy source.
///
/// Calls `getrandom::getrandom`. What it writes is random, so nothing is
/// claimed of the bytes: only that the buffer keeps its length.
#[verifier::external_body]
fn fill_random(buf: &mut Vec<u8>) -> (res: Result<(), getrandom::Error>)
    ensures
        final(buf)@.len() == old(buf)@.len(),
{
    getrandom::getrandom(buf.as_mut_slice())
}

/// `len` cryptographically secure random bytes.
///
/// Fails with `RandomnessUnavailable`, and with nothing else, when the entropy
/// source reports an error.
pub fn random_bytes(len: usize) -> (res: Result<Vec<u8>, CryptoError>)
    ensures
        match res {
            Ok(bytes) => bytes@.len() == len,
            Err(e) => e@ == ErrorView::RandomnessUnavailable,
        },
{
    let mut buf: Vec<u8> = vec![0u8; len];
    match fill_random(&mut buf) {
        Ok(()) => Ok(buf),
        Err(e) => Err(CryptoError::RandomnessUnavailable(sentence("random error: ", e.to_string().as_str()))),
    }
}

} // verus!
