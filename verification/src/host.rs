//! The zero address, which the host decodes from its canonical encoding.
//! This is the one place where the library calls the host.

use crate::address::{Address, AddressKind};
use soroban_sdk::xdr::{AccountId, PublicKey, ScAddress, Uint256};
use soroban_sdk::Env;
use vstd::prelude::*;

verus! {

/// The handle to the host. Its contents are opaque here.
#[verifier::external_type_specification]
#[verifier::external_body]
pub struct ExEnv(soroban_sdk::Env);

/// Canonical textual encoding of the zero address, the null value that stands
/// for an address that was never set.
pub const ZERO_ADDRESS_STRKEY: &'static str =
    "GAAAAAAAAAAAAAAAAAAAAAAAAAAAAAAAAAAAAAAAAAAAAAAAAAAAAWHF";

/// Decodes the canonical encoding of the zero address.
///
/// Calls `soroban_sdk::Address::from_str` and spells the address it returns
/// out as kind and key. Trusted: the host decodes `ZERO_ADDRESS_STRKEY` without
/// failing, to the account whose key is 32 zero bytes. Other strings are left
/// out because the host aborts on the ones it cannot decode.
#[verifier::external_body]
fn decode_zero_address(env: &Env, strkey: &str) -> (address: Address)
    requires
        strkey@ == ZERO_ADDRESS_STRKEY@,
    ensures
        address.is_zero(),
{
    match ScAddress::from(&soroban_sdk::Address::from_str(env, strkey)) {
        ScAddress::Account(AccountId(PublicKey::PublicKeyTypeEd25519(Uint256(key)))) => Address {
            kind: AddressKind::Account,
            key,
        },
        ScAddress::Contract(soroban_sdk::xdr::Hash(key)) => Address {
            kind: AddressKind::Contract,
            key,
        },
    }
}

/// The zero address, decoded by the host from `ZERO_ADDRESS_STRKEY`.
pub fn zero_address(env: &Env) -> (zero: Address)
    ensures
        zero.is_zero(),
{
    decode_zero_address(env, ZERO_ADDRESS_STRKEY)
}

/// Whether `address` is the zero address.
///
/// The zero address is decoded from `ZERO_ADDRESS_STRKEY` by the host and
/// compared with `address` by value.
pub fn is_zero_address(env: &Env, address: &Address) -> (r: bool)
    ensures
        r == address.is_zero(),
{
    let zero = zero_address(env);
    proof {
        lemma_zero_address_is_unique(zero, *address);
    }
    *address == zero
}

/// There is one zero address: an address is zero exactly when it equals
/// an address that is.
pub proof fn lemma_zero_address_is_unique(zero: Address, address: Address)
    requires
        zero.is_zero(),
    ensures
        address.is_zero() <==> address == zero,
{
    if address.is_zero() {
        assert(address.key =~= zero.key);
    }
}

} // verus!
