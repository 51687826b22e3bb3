use cipher::{BlockDecryptMut, KeyIvInit};
use open_ecc::contracts::AccessoryInfoGet;
use open_ecc::key::{derive_key, protocol_iv};
use open_ecc::payload::{add_padding, encrypt_with_prefix, encrypt_wifi_payload, random_prefix};

fn info() -> AccessoryInfoGet {
    AccessoryInfoGet {
        firmware_build_number: 198,
        hardware_board_type: 205,
        ..Default::default()
    }
}

fn decrypt(data: &[u8]) -> Vec<u8> {
    let key = derive_key(205, 198);
    let iv = protocol_iv();
    let mut buf = data.to_vec();
    let dec = cbc::Decryptor::<aes::Aes128>::new_from_slices(&key, &iv).unwrap();
    dec.decrypt_padded_mut::<cipher::block_padding::NoPadding>(&mut buf)
        .unwrap()
        .to_vec()
}

const JSON: &str = "{\n  \"SSID\": \"home\",\n  \"SecurityType\": 0\n}";

#[test]
fn padding_reaches_whole_blocks() {
    let mut empty: Vec<u8> = Vec::new();
    add_padding(&mut empty);
    assert!(empty.is_empty());
    let mut bytes = vec![1u8; 17];
    add_padding(&mut bytes);
    assert_eq!(bytes.len(), 32);
    assert_eq!(&bytes[..17], &[1u8; 17][..]);
    assert!(bytes[17..].iter().all(|b| *b == 0));
    let mut whole = vec![5u8; 32];
    add_padding(&mut whole);
    assert_eq!(whole, vec![5u8; 32]);
}

#[test]
fn prefix_has_sixteen_bytes() {
    assert_eq!(random_prefix().len(), 16);
}

#[test]
fn payload_decrypts_to_prefix_and_padded_json() {
    let prefix: Vec<u8> = (0u8..16).collect();
    let json = JSON.as_bytes().to_vec();
    let out = encrypt_with_prefix(&info(), json.clone(), prefix.clone()).unwrap();
    assert_eq!(out.len(), 16 + 48);
    assert_ne!(&out[..16], &prefix[..]);
    let plain = decrypt(&out);
    assert_eq!(&plain[..16], &prefix[..]);
    assert_eq!(&plain[16..16 + json.len()], &json[..]);
    assert!(plain[16 + json.len()..].iter().all(|b| *b == 0));
}

#[test]
fn payload_length_is_whole_blocks() {
    for n in [0usize, 1, 15, 16, 17, 100] {
        let out = encrypt_wifi_payload(&info(), vec![b'x'; n]).unwrap();
        assert_eq!(out.len() % 16, 0);
        assert_eq!(out.len(), 16 + n.div_ceil(16) * 16);
        assert!(out.len() >= 16 + n);
    }
}

#[test]
fn different_prefixes_give_different_payloads() {
    let json = JSON.as_bytes().to_vec();
    let a = encrypt_with_prefix(&info(), json.clone(), vec![0u8; 16]).unwrap();
    let b = encrypt_with_prefix(&info(), json.clone(), vec![1u8; 16]).unwrap();
    assert_eq!(a.len(), b.len());
    assert_ne!(a, b);
    let c = encrypt_wifi_payload(&info(), json.clone()).unwrap();
    let d = encrypt_wifi_payload(&info(), json).unwrap();
    assert_eq!(c.len(), d.len());
    assert_ne!(c, d);
}
