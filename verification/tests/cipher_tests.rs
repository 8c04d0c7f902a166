use eidetic::cipher::{decrypt, encrypt};

#[test]
fn cipher_round_trip_small() {
    let data: Vec<u8> = vec![0, 1, 2, 3, 0x60, 0xFF, 0xAA, 42];
    let enc = encrypt(&data);
    let dec = decrypt(&enc);
    assert_eq!(dec, data);
}

#[test]
fn cipher_round_trip_long() {
    let mut data: Vec<u8> = Vec::new();
    let mut i: u32 = 0;
    while i < 1000 {
        data.push((i % 251) as u8);
        i += 1;
    }
    let enc = encrypt(&data);
    assert_eq!(enc.len(), data.len());
    let dec = decrypt(&enc);
    assert_eq!(dec, data);
}

#[test]
fn cipher_obscures_plaintext() {
    let data: Vec<u8> = b"secret".to_vec();
    let enc = encrypt(&data);
    assert_ne!(enc, data);
}

#[test]
fn cipher_empty_input() {
    let data: Vec<u8> = Vec::new();
    assert_eq!(encrypt(&data).len(), 0);
    assert_eq!(decrypt(&data).len(), 0);
}

#[test]
fn cipher_exact_byte() {
    // 0x60 + 0xAA wraps to 0x0A; 0x0A ^ 0xAA is 0xA0.
    let enc = encrypt(&[0x60]);
    assert_eq!(enc, vec![0xA0]);
}
