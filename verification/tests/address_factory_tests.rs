use multisig_engine::address::Address;
use multisig_engine::address_factory::{sc_address_from, AddressFactory};

const FIRST: [u8; 32] = [
    102, 104, 122, 173, 248, 98, 189, 119, 108, 143, 193, 139, 142, 159, 142, 32, 8, 151, 20, 133,
    110, 226, 51, 179, 144, 42, 89, 29, 13, 95, 41, 37,
];

const SECOND: [u8; 32] = [
    43, 50, 219, 108, 44, 10, 98, 53, 251, 19, 151, 232, 34, 94, 168, 94, 15, 14, 110, 140, 123,
    18, 109, 0, 22, 204, 189, 224, 230, 103, 21, 30,
];

#[test]
fn first_address_is_the_digest_of_thirty_two_zero_bytes() {
    let mut factory = AddressFactory::new();
    assert_eq!(factory.new_address(), Address::new(FIRST));
}

#[test]
fn each_address_is_the_digest_of_the_one_before() {
    let mut factory = AddressFactory::new();
    let first = factory.new_address();
    let second = factory.new_address();
    assert_eq!(first.bytes, FIRST);
    assert_eq!(second.bytes, SECOND);
    assert_ne!(first, second);
}

#[test]
fn two_factories_hand_out_the_same_sequence() {
    let mut one = AddressFactory::new();
    let mut other = AddressFactory::new();
    for _ in 0..5 {
        assert_eq!(one.new_address(), other.new_address());
    }
}

#[test]
fn contract_address_starts_with_eight_zero_bytes() {
    let mut factory = AddressFactory::new();
    let sc = factory.new_sc_address();
    let mut expected = FIRST;
    for i in 0..8 {
        expected[i] = 0;
    }
    assert_eq!(sc.bytes, expected);
    assert_eq!(&sc.bytes[8..], &FIRST[8..]);
}

#[test]
fn factory_goes_on_from_the_digest_not_from_the_contract_address() {
    let mut factory = AddressFactory::new();
    let _ = factory.new_sc_address();
    assert_eq!(factory.new_address().bytes, SECOND);
}

#[test]
fn sc_address_from_zeroes_the_first_eight_bytes_only() {
    let raw = [0xabu8; 32];
    let sc = sc_address_from(raw);
    for i in 0..32 {
        if i < 8 {
            assert_eq!(sc.bytes[i], 0);
        } else {
            assert_eq!(sc.bytes[i], 0xab);
        }
    }
}
