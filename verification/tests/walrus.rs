use sui_proxy::keys::Secp256r1PublicKey;
use sui_proxy::walrus::{WalrusPeer, WalrusProvider};

const X: [u8; 32] = [
    0x6b, 0x17, 0xd1, 0xf2, 0xe1, 0x2c, 0x42, 0x47, 0xf8, 0xbc, 0xe6, 0xe5, 0x63, 0xa4, 0x40, 0xf2,
    0x77, 0x03, 0x7d, 0x81, 0x2d, 0xeb, 0x33, 0xa0, 0xf4, 0xa1, 0x39, 0x45, 0xd8, 0x98, 0xc2, 0x96,
];
const Y: [u8; 32] = [
    0x4f, 0xe3, 0x42, 0xe2, 0xfe, 0x1a, 0x7f, 0x9b, 0x8e, 0xe7, 0xeb, 0x4a, 0x7c, 0x0f, 0x9e, 0x16,
    0x2b, 0xce, 0x33, 0x57, 0x6b, 0x31, 0x5e, 0xce, 0xcb, 0xb6, 0x40, 0x68, 0x37, 0xbf, 0x51, 0xf5,
];

fn compressed(tag: u8) -> Vec<u8> {
    let mut bytes = vec![tag];
    bytes.extend_from_slice(&X);
    bytes
}

fn peer(name: &str, tag: u8) -> WalrusPeer {
    WalrusPeer {
        name: name.to_string(),
        public_key: Secp256r1PublicKey::from_bytes(&compressed(tag)).unwrap(),
    }
}

#[test]
fn key_is_held_compressed() {
    let mut uncompressed = vec![4];
    uncompressed.extend_from_slice(&X);
    uncompressed.extend_from_slice(&Y);
    let key = Secp256r1PublicKey::from_bytes(&uncompressed).unwrap();
    assert_eq!(key.as_bytes(), compressed(3).as_slice());
    assert_eq!(key, Secp256r1PublicKey::from_bytes(&compressed(3)).unwrap());
}

#[test]
fn forms_of_one_point_are_one_key() {
    // The compact form, whose tag is five, stands for the point with the smaller of two ordinates.
    let key = Secp256r1PublicKey::from_bytes(&compressed(5)).unwrap();
    assert_eq!(key, Secp256r1PublicKey::from_bytes(&compressed(3)).unwrap());
    assert_ne!(key, Secp256r1PublicKey::from_bytes(&compressed(2)).unwrap());
}

#[test]
fn copy_knows_the_same_peers() {
    let provider = WalrusProvider::new(vec![peer("a", 2), peer("b", 3), peer("c", 2)]);
    let copy = provider.clone();
    assert_eq!(copy.peer(&peer("", 2).public_key).unwrap().name, "c");
    assert_eq!(copy.peer(&peer("", 3).public_key).unwrap().name, "b");
    assert!(WalrusProvider::default()
        .clone()
        .peer(&peer("", 2).public_key)
        .is_none());
}

#[test]
fn bytes_that_are_no_secp256r1_key() {
    assert!(Secp256r1PublicKey::from_bytes(&[]).is_none());
    assert!(Secp256r1PublicKey::from_bytes(&[3; 32]).is_none());
    assert!(Secp256r1PublicKey::from_bytes(&compressed(9)).is_none());
}

#[test]
fn peers_are_known_by_their_keys() {
    let provider = WalrusProvider::new(vec![peer("a", 2), peer("b", 3)]);
    assert_eq!(provider.peer(&peer("", 2).public_key).unwrap().name, "a");
    assert_eq!(provider.peer(&peer("", 3).public_key).unwrap(), &peer("b", 3));
}

#[test]
fn last_peer_of_a_key_is_known() {
    let provider = WalrusProvider::new(vec![peer("a", 2), peer("b", 3), peer("c", 2)]);
    assert_eq!(provider.peer(&peer("", 2).public_key).unwrap().name, "c");
    assert_eq!(provider.peer(&peer("", 3).public_key).unwrap().name, "b");
}

#[test]
fn no_peers_by_default() {
    let provider = WalrusProvider::default();
    assert!(provider.peer(&peer("a", 2).public_key).is_none());
    let provider = WalrusProvider::new(vec![peer("a", 3)]);
    assert!(provider.peer(&peer("a", 2).public_key).is_none());
}
