//! The named-secret conventions and the master-key bootstrap.
//!
//! The credential store itself is an operating-system service driven from
//! outside this crate; here stand the fixed names, the error texts, and the
//! generation of a fresh master key.

use vstd::prelude::*;
use crate::encoding::{base64_encode_standard, base64_std_of};

verus! {

/// The service name under which this application stores secrets.
pub fn keyring_service_name() -> (r: &'static str)
    ensures
        r@ == "grinta"@,
{
    "grinta"
}

/// The account name of the master key.
pub fn master_key_account_name() -> (r: &'static str)
    ensures
        r@ == "master-key"@,
{
    "master-key"
}

/// The error text around a failed store operation.
pub fn keyring_error_message(action: &str, detail: &str) -> (r: String)
    ensures
        r@ == "Keyring "@ + action@ + " error: "@ + detail@,
{
    String::from_str("Keyring ").concat(action).concat(" error: ").concat(detail)
}

/// The error text around a failed entry lookup.
pub fn keyring_entry_error_message(action: &str, detail: &str) -> (r: String)
    ensures
        r@ == "Keyring "@ + action@ + " error (entry): "@ + detail@,
{
    String::from_str("Keyring ").concat(action).concat(" error (entry): ").concat(detail)
}

/// The error text around a master key that could not be stored.
pub fn master_key_store_error_message(detail: &str) -> (r: String)
    ensures
        r@ == "Failed to set master key: "@ + detail@,
{
    String::from_str("Failed to set master key: ").concat(detail)
}

/// Relies on `rand::thread_rng` and `rand::RngCore::fill_bytes`: nothing
/// can be promised of the drawn bytes but their number.
#[verifier::external_body]
fn random_key_bytes() -> (r: Vec<u8>)
    ensures
        r@.len() == 32,
{
    let mut key_bytes = [0u8; 32];
    rand::RngCore::fill_bytes(&mut rand::thread_rng(), &mut key_bytes);
    key_bytes.to_vec()
}

/// A freshly generated master key: 32 random bytes in their base64
/// rendering, which is always 44 characters long.
pub fn generate_master_key() -> (r: String)
    ensures
        exists|b: Seq<u8>| b.len() == 32 && r@ == base64_std_of(b),
        r@.len() == 44,
{
    let bytes = random_key_bytes();
    let r = base64_encode_standard(&bytes);
    proof {
        assert(bytes@.len() == 32 && r@ == base64_std_of(bytes@));
    }
    r
}

/// The bootstrap decision: an already-stored master key is left alone, and
/// only a missing one has a fresh key generated for storing.
pub fn master_key_action(existing: Option<String>) -> (r: Option<String>)
    ensures
        existing is Some ==> r is None,
        existing is None ==> (r matches Some(k) && k@.len() == 44 && exists|b: Seq<u8>|
            b.len() == 32 && k@ == base64_std_of(b)),
{
    match existing {
        Some(_) => None,
        None => Some(generate_master_key()),
    }
}

} // verus!
