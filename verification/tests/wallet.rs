use bitcoin::secp256k1::{Secp256k1, SecretKey};
use bitlab_core::error::CoreError;
use bitlab_core::hex::{bytes_to_hex, hex_to_bytes};
use bitlab_core::model::Network;
use bitlab_core::wallet::{derive_addresses, derive_addresses_from_key, derive_public_key, generate_private_key, private_key_from_draw};

const KEY_ONE: &str = "0000000000000000000000000000000000000000000000000000000000000001";
const ORDER: &str = "fffffffffffffffffffffffffffffffebaaedce6af48a03bbfd25e8cd0364141";
const ORDER_LESS_ONE: &str = "fffffffffffffffffffffffffffffffebaaedce6af48a03bbfd25e8cd0364140";

fn key(text: &str) -> Vec<u8> {
    hex_to_bytes(text).unwrap()
}

fn draw(text: &str) -> [u8; 32] {
    let mut bytes = [0u8; 32];
    bytes.copy_from_slice(&key(text));
    bytes
}

#[test]
fn public_key_of_one_is_the_generator() {
    let public = derive_public_key(&key(KEY_ONE)).unwrap();
    assert_eq!(bytes_to_hex(&public), "0279be667ef9dcbbac55a06295ce870b07029bfcdb2dce28d959f2815b16f81798");
}

#[test]
fn public_key_of_two() {
    let two = "0000000000000000000000000000000000000000000000000000000000000002";
    let public = derive_public_key(&key(two)).unwrap();
    assert_eq!(bytes_to_hex(&public), "02c6047f9441ed7d6d3045406e95c07cd85c778e4b8cef3ca7abac09b95c709ee5");
}

#[test]
fn key_of_31_bytes_is_refused() {
    let short = vec![1u8; 31];
    assert_eq!(derive_public_key(&short), Err(CoreError::InvalidKeyMaterial));
    assert_eq!(derive_addresses(&short, Network::Testnet), Err(CoreError::InvalidKeyMaterial));
    let text = bytes_to_hex(&short);
    assert_eq!(derive_addresses_from_key(&text), Err(CoreError::InvalidKeyMaterial));
}

#[test]
fn key_of_33_bytes_is_refused() {
    assert_eq!(derive_public_key(&[1u8; 33]), Err(CoreError::InvalidKeyMaterial));
    assert_eq!(derive_public_key(&[]), Err(CoreError::InvalidKeyMaterial));
}

#[test]
fn key_out_of_range_is_refused() {
    assert_eq!(derive_public_key(&[0u8; 32]), Err(CoreError::InvalidKeyMaterial));
    assert_eq!(derive_public_key(&key(ORDER)), Err(CoreError::InvalidKeyMaterial));
    assert_eq!(derive_public_key(&[0xff; 32]), Err(CoreError::InvalidKeyMaterial));
    assert!(derive_public_key(&key(ORDER_LESS_ONE)).is_ok());
}

#[test]
fn draw_is_accepted_exactly_when_in_range() {
    assert_eq!(private_key_from_draw(draw(KEY_ONE)), Ok(draw(KEY_ONE)));
    assert_eq!(private_key_from_draw(draw(ORDER_LESS_ONE)), Ok(draw(ORDER_LESS_ONE)));
    assert_eq!(private_key_from_draw([0u8; 32]), Err(CoreError::InvalidKeyMaterial));
    assert_eq!(private_key_from_draw(draw(ORDER)), Err(CoreError::InvalidKeyMaterial));
    assert_eq!(private_key_from_draw([0xff; 32]), Err(CoreError::InvalidKeyMaterial));
}

#[test]
fn generated_key_is_a_private_key_in_hex() {
    let first = generate_private_key().unwrap();
    let second = generate_private_key().unwrap();
    assert_eq!(first.len(), 64);
    assert_eq!(first, first.to_lowercase());
    let bytes = hex_to_bytes(&first).unwrap();
    assert_eq!(bytes.len(), 32);
    assert!(SecretKey::from_slice(&bytes).is_ok());
    assert!(derive_public_key(&bytes).is_ok());
    assert_ne!(first, second);
}

#[test]
fn addresses_of_key_one() {
    let main = derive_addresses(&key(KEY_ONE), Network::Mainnet).unwrap();
    assert_eq!(main.legacy, "1BgGZ9tcN4rm9KBzDn7KprQz87SZ26SAMH");
    assert_eq!(main.segwit, "bc1qw508d6qejxtdg4y5r3zarvary0c5xw7kv8f3t4");
    assert_eq!(main.taproot, "bc1pmfr3p9j00pfxjh0zmgp99y8zftmd3s5pmedqhyptwy6lm87hf5sspknck9");
    let test = derive_addresses(&key(KEY_ONE), Network::Testnet).unwrap();
    assert_eq!(test.legacy, "mrCDrCybB6J1vRfbwM5hemdJz73FwDBC8r");
    assert_eq!(test.segwit, "tb1qw508d6qejxtdg4y5r3zarvary0c5xw7kxpjzsx");
    assert!(test.taproot.starts_with("tb1p"));
}

#[test]
fn addresses_match_the_bitcoin_crate() {
    let secp = Secp256k1::new();
    let bytes = key("619c335025c7f4012e556c2a58b2506e30b8511b53ade95ea316fd8c3286feb9");
    let secret = SecretKey::from_slice(&bytes).unwrap();
    let public = bitcoin::PublicKey::new(secret.public_key(&secp));
    let compressed = bitcoin::CompressedPublicKey(secret.public_key(&secp));
    let (x_only, _) = secret.x_only_public_key(&secp);
    for (ours, theirs) in [
        (Network::Mainnet, bitcoin::Network::Bitcoin),
        (Network::Testnet, bitcoin::Network::Testnet),
        (Network::Testnet4, bitcoin::Network::Testnet4),
        (Network::Signet, bitcoin::Network::Signet),
        (Network::Regtest, bitcoin::Network::Regtest),
    ] {
        let got = derive_addresses(&bytes, ours).unwrap();
        assert_eq!(got.legacy, bitcoin::Address::p2pkh(public, theirs).to_string());
        assert_eq!(got.segwit, bitcoin::Address::p2wpkh(&compressed, theirs).to_string());
        assert_eq!(got.taproot, bitcoin::Address::p2tr(&secp, x_only, None, theirs).to_string());
    }
    assert_eq!(bytes_to_hex(&derive_public_key(&bytes).unwrap()), "025476c2e83188368da1ff3e292e7acafcdb3566bb0ad253f62fc70f07aeee6357");
}

#[test]
fn addresses_are_pairwise_distinct() {
    for text in [KEY_ONE, ORDER_LESS_ONE, "619c335025c7f4012e556c2a58b2506e30b8511b53ade95ea316fd8c3286feb9"] {
        for network in [Network::Mainnet, Network::Testnet, Network::Testnet4, Network::Signet, Network::Regtest] {
            let got = derive_addresses(&key(text), network).unwrap();
            assert_ne!(got.legacy, got.segwit);
            assert_ne!(got.legacy, got.taproot);
            assert_ne!(got.segwit, got.taproot);
        }
    }
}

#[test]
fn derivation_is_deterministic() {
    let bytes = key(ORDER_LESS_ONE);
    assert_eq!(derive_public_key(&bytes), derive_public_key(&bytes));
    assert_eq!(derive_addresses(&bytes, Network::Signet), derive_addresses(&bytes, Network::Signet));
    assert_eq!(derive_addresses_from_key(ORDER_LESS_ONE), derive_addresses_from_key(ORDER_LESS_ONE));
    assert_eq!(derive_public_key(&[0u8; 32]), derive_public_key(&[0u8; 32]));
}

#[test]
fn key_pair_echoes_the_key_and_uses_the_test_network() {
    let text = " 0000000000000000000000000000000000000000000000000000000000000001\n";
    let pair = derive_addresses_from_key(text).unwrap();
    assert_eq!(pair.private_key, text);
    assert_eq!(pair.public_key, "0279be667ef9dcbbac55a06295ce870b07029bfcdb2dce28d959f2815b16f81798");
    assert_eq!(pair.addresses, derive_addresses(&key(KEY_ONE), Network::Testnet).unwrap());
    assert_eq!(pair.addresses.legacy, "mrCDrCybB6J1vRfbwM5hemdJz73FwDBC8r");
}

#[test]
fn key_pair_refuses_bad_hex() {
    assert_eq!(derive_addresses_from_key("xyz"), Err(CoreError::MalformedHex));
    assert_eq!(derive_addresses_from_key("abc"), Err(CoreError::MalformedHex));
    assert_eq!(derive_addresses_from_key(""), Err(CoreError::InvalidKeyMaterial));
    assert_eq!(derive_addresses_from_key(ORDER), Err(CoreError::InvalidKeyMaterial));
}
