use cep47::{ContractPackageHash, Key};

fn counting() -> [u8; 32] {
    let mut bytes = [0u8; 32];
    for (i, byte) in bytes.iter_mut().enumerate() {
        *byte = i as u8;
    }
    bytes
}

const COUNTING_HEX: &str = "000102030405060708090a0b0c0d0e0f101112131415161718191a1b1c1d1e1f";

#[test]
fn keys_are_equal_when_kind_and_bytes_are() {
    assert_eq!(Key::Account([1; 32]), Key::Account([1; 32]));
    assert_ne!(Key::Account([1; 32]), Key::Account([2; 32]));
    assert_ne!(Key::Account([1; 32]), Key::Hash([1; 32]));
    assert_eq!(Key::Hash(counting()), Key::Hash(counting()));
}

#[test]
fn keys_differ_in_the_last_byte() {
    let mut other = counting();
    other[31] = 0;
    assert_ne!(Key::Hash(counting()), Key::Hash(other));
    assert_ne!(Key::Account(counting()), Key::Account(other));
}

#[test]
fn account_key_is_formatted_with_its_prefix() {
    assert_eq!(
        Key::Account(counting()).to_formatted_string(),
        format!("account-hash-{}", COUNTING_HEX)
    );
    assert_eq!(
        Key::Account([0xab; 32]).to_formatted_string(),
        format!("account-hash-{}", "ab".repeat(32))
    );
}

#[test]
fn hash_key_is_formatted_with_its_prefix() {
    assert_eq!(Key::Hash(counting()).to_formatted_string(), format!("hash-{}", COUNTING_HEX));
    assert_eq!(Key::Hash([0xff; 32]).to_formatted_string(), format!("hash-{}", "ff".repeat(32)));
}

#[test]
fn package_hash_is_written_without_prefix() {
    assert_eq!(ContractPackageHash::new(counting()).to_string(), COUNTING_HEX);
    assert_eq!(ContractPackageHash::new([0; 32]).to_string(), "00".repeat(32));
}

#[test]
fn package_hash_key_is_a_hash_key() {
    let package = ContractPackageHash::new(counting());
    assert_eq!(package.key(), Key::Hash(counting()));
    assert_eq!(package.value, counting());
}

#[test]
fn package_hashes_are_equal_when_their_bytes_are() {
    assert_eq!(ContractPackageHash::new([3; 32]), ContractPackageHash::new([3; 32]));
    assert_ne!(ContractPackageHash::new([3; 32]), ContractPackageHash::new([4; 32]));
}
