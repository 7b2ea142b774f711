use pair::{sort_tokens, Address, AddressKind};
use soroban_sdk::xdr::{self, AccountId, PublicKey, ScAddress, Uint256};
use soroban_sdk::{Env, TryFromVal};

/// The host's own address for kind and key.
fn on_host(env: &Env, address: &Address) -> soroban_sdk::Address {
    let spelled = match address.kind {
        AddressKind::Account => {
            ScAddress::Account(AccountId(PublicKey::PublicKeyTypeEd25519(Uint256(address.key))))
        }
        AddressKind::Contract => ScAddress::Contract(xdr::Hash(address.key)),
    };
    soroban_sdk::Address::try_from_val(env, &spelled).unwrap()
}

fn key_with(index: usize, byte: u8) -> [u8; 32] {
    let mut key = [0u8; 32];
    key[index] = byte;
    key
}

fn samples() -> Vec<Address> {
    let mut mixed = [0x80u8; 32];
    mixed[0] = 0x7f;
    vec![
        Address::account([0u8; 32]),
        Address::account(key_with(31, 1)),
        Address::account(key_with(0, 1)),
        Address::account(key_with(15, 0xff)),
        Address::account([0xffu8; 32]),
        Address::account(mixed),
        Address::contract([0u8; 32]),
        Address::contract(key_with(31, 1)),
        Address::contract(key_with(31, 2)),
        Address::contract(key_with(0, 1)),
        Address::contract(key_with(16, 0x80)),
        Address::contract([0xffu8; 32]),
        Address::contract(mixed),
    ]
}

#[test]
fn constructors_set_kind_and_key() {
    let key = key_with(3, 9);
    assert_eq!(Address::account(key), Address { kind: AddressKind::Account, key });
    assert_eq!(Address::contract(key), Address { kind: AddressKind::Contract, key });
    assert_ne!(Address::account(key), Address::contract(key));
}

#[test]
fn equality_is_by_kind_and_key() {
    let all = samples();
    for (i, a) in all.iter().enumerate() {
        for (j, b) in all.iter().enumerate() {
            assert_eq!(a == b, i == j);
            assert_eq!(a.same_as(b), i == j);
        }
    }
}

#[test]
fn accounts_sort_before_contracts() {
    assert!(Address::account([0xffu8; 32]) < Address::contract([0u8; 32]));
    assert!(!(Address::contract([0u8; 32]) < Address::account([0xffu8; 32])));
    assert!(Address::account([0u8; 32]).sorts_before(&Address::contract([0u8; 32])));
}

#[test]
fn keys_sort_by_their_first_differing_byte() {
    // The earlier byte decides, whatever follows.
    let mut low = [0xffu8; 32];
    low[0] = 1;
    let high = key_with(0, 2);
    assert!(Address::contract(low) < Address::contract(high));
    assert!(Address::contract(high) > Address::contract(low));

    // Bytes compare unsigned.
    assert!(Address::account(key_with(5, 0x7f)) < Address::account(key_with(5, 0x80)));

    // The last byte decides when all before it agree.
    assert!(Address::contract(key_with(31, 1)).sorts_before(&Address::contract(key_with(31, 2))));
    assert!(!Address::contract(key_with(31, 2)).sorts_before(&Address::contract(key_with(31, 1))));

    // Nothing sorts before itself.
    assert!(!Address::contract(low).sorts_before(&Address::contract(low)));
    assert!(Address::contract(low) <= Address::contract(low));
}

#[test]
fn order_is_strict_and_total_on_samples() {
    let all = samples();
    for a in all.iter() {
        for b in all.iter() {
            let forth = a.sorts_before(b);
            let back = b.sorts_before(a);
            assert!(!(forth && back));
            assert_eq!(forth || back, a != b);
            for c in all.iter() {
                if forth && b.sorts_before(c) {
                    assert!(a.sorts_before(c));
                }
            }
        }
    }
}

#[test]
fn order_and_equality_agree_with_the_host() {
    let env = Env::default();
    let all = samples();
    for a in all.iter() {
        for b in all.iter() {
            let host_a = on_host(&env, a);
            let host_b = on_host(&env, b);
            assert_eq!(a == b, host_a == host_b);
            assert_eq!(a < b, host_a < host_b);
            assert_eq!(a.sorts_before(b), host_a < host_b);
            assert_eq!(a.partial_cmp(b), host_a.partial_cmp(&host_b));
        }
    }
}

#[test]
fn sort_tokens_puts_the_smaller_first() {
    let a = Address::contract(key_with(31, 1));
    let b = Address::contract(key_with(31, 2));
    assert_eq!(sort_tokens(a, b), (a, b));
    assert_eq!(sort_tokens(b, a), (a, b));
    assert_eq!(sort_tokens(a, a), (a, a));

    let account = Address::account([9u8; 32]);
    assert_eq!(sort_tokens(b, account), (account, b));
}

#[test]
fn sort_tokens_ignores_the_order_given() {
    let all = samples();
    for a in all.iter() {
        for b in all.iter() {
            let sorted = sort_tokens(*a, *b);
            assert_eq!(sorted, sort_tokens(*b, *a));
            assert!(sorted == (*a, *b) || sorted == (*b, *a));
            if a != b {
                assert!(sorted.0 < sorted.1);
            }
        }
    }
}
