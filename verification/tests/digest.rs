use rattler::digest::Sha256Hash;

fn sha256(content: &[u8]) -> Sha256Hash {
    Sha256Hash {
        bytes: rattler_digest::compute_bytes_digest::<rattler_digest::Sha256>(content).into(),
    }
}

#[test]
fn digest_is_written_in_lower_case_hex() {
    assert_eq!(
        sha256(b"").to_hex(),
        "e3b0c44298fc1c149afbf4c8996fb92427ae41e4649b934ca495991b7852b855"
    );
    assert_eq!(
        sha256(b"abc").to_hex(),
        "ba7816bf8f01cfea414140de5dae2223b00361a396177a9cb410ff61f20015ad"
    );
    assert_eq!(Sha256Hash { bytes: [0; 32] }.to_hex(), "0".repeat(64));
    assert_eq!(Sha256Hash { bytes: [255; 32] }.to_hex(), "f".repeat(64));
    let mut bytes = [0u8; 32];
    bytes[0] = 0x01;
    bytes[1] = 0x23;
    bytes[2] = 0x45;
    bytes[3] = 0x67;
    bytes[4] = 0x89;
    bytes[5] = 0xab;
    bytes[6] = 0xcd;
    bytes[7] = 0xef;
    bytes[31] = 0x10;
    assert_eq!(
        Sha256Hash { bytes }.to_hex(),
        format!("0123456789abcdef{}10", "0".repeat(46))
    );
}

#[test]
fn hex_is_what_the_digest_crate_reads() {
    for content in [&b""[..], b"a", b"conda", b"\x00\x01\x02"] {
        let hash = rattler_digest::compute_bytes_digest::<rattler_digest::Sha256>(content);
        let text = sha256(content).to_hex();
        assert_eq!(
            rattler_digest::parse_digest_from_hex::<rattler_digest::Sha256>(&text),
            Some(hash)
        );
    }
}

#[test]
fn digest_is_read_from_hex_in_either_case() {
    let text = "ba7816bf8f01cfea414140de5dae2223b00361a396177a9cb410ff61f20015ad";
    assert_eq!(Sha256Hash::from_hex(text), Some(sha256(b"abc")));
    assert_eq!(
        Sha256Hash::from_hex(&text.to_uppercase()),
        Some(sha256(b"abc"))
    );
    assert_eq!(
        Sha256Hash::from_hex(&"0".repeat(64)),
        Some(Sha256Hash { bytes: [0; 32] })
    );
    assert_eq!(
        Sha256Hash::from_hex(&"Ff".repeat(32)),
        Some(Sha256Hash { bytes: [255; 32] })
    );
    let mut expected = [0u8; 32];
    expected[0] = 0x1a;
    expected[31] = 0xb2;
    let text = format!("1A{}b2", "0".repeat(60));
    assert_eq!(
        Sha256Hash::from_hex(&text),
        Some(Sha256Hash { bytes: expected })
    );
}

#[test]
fn other_text_spells_no_digest() {
    assert_eq!(Sha256Hash::from_hex(""), None);
    assert_eq!(Sha256Hash::from_hex(&"0".repeat(63)), None);
    assert_eq!(Sha256Hash::from_hex(&"0".repeat(65)), None);
    assert_eq!(Sha256Hash::from_hex(&format!("{}g", "0".repeat(63))), None);
    assert_eq!(Sha256Hash::from_hex(&format!("g{}", "0".repeat(63))), None);
    assert_eq!(Sha256Hash::from_hex(&format!("{} ", "0".repeat(63))), None);
    assert_eq!(Sha256Hash::from_hex(&"é".repeat(64)), None);
    assert_eq!(Sha256Hash::from_hex(&format!("0x{}", "0".repeat(62))), None);
}

#[test]
fn hex_round_trips() {
    for content in [&b""[..], b"a", b"b", b"conda"] {
        let hash = sha256(content);
        assert_eq!(Sha256Hash::from_hex(&hash.to_hex()), Some(hash));
    }
}

#[test]
fn same_digests_are_the_same() {
    assert!(sha256(b"a").same(&sha256(b"a")));
    assert!(!sha256(b"a").same(&sha256(b"b")));
    let mut last = [0u8; 32];
    last[31] = 1;
    assert!(!Sha256Hash { bytes: [0; 32] }.same(&Sha256Hash { bytes: last }));
    let mut first = [0u8; 32];
    first[0] = 1;
    assert!(!Sha256Hash { bytes: [0; 32] }.same(&Sha256Hash { bytes: first }));
}
