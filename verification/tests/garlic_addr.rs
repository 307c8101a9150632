use p2p_zones::garlic_addr::{GarlicAddr, I2p};
use p2p_zones::text::{
    address_from_decoded, short_address_from_decoded, split_short_digest, split_spelling,
    write_full_spelling, write_short_spelling, AddrParseError,
};
use p2p_zones::zone::{NetZoneAddress, NetworkZone};

fn counting_digest() -> [u8; 32] {
    let mut digest = [0u8; 32];
    for (i, byte) in digest.iter_mut().enumerate() {
        *byte = i as u8;
    }
    digest
}

#[test]
fn new_keeps_destination_and_port() {
    let addr = GarlicAddr::new(counting_digest(), 18080);
    assert_eq!(addr.destination(), counting_digest());
    assert_eq!(addr.port(), 18080);
    assert_eq!(addr.port, 18080);
}

#[test]
fn set_port_changes_the_port_only() {
    let mut addr = GarlicAddr::new(counting_digest(), 18080);
    addr.set_port(7656);
    assert_eq!(addr.port(), 7656);
    assert_eq!(addr.destination(), counting_digest());
    addr.set_port(0);
    assert_eq!(addr, GarlicAddr::new(counting_digest(), 0));
}

#[test]
fn ban_id_is_the_destination() {
    let a = GarlicAddr::new(counting_digest(), 1);
    let b = GarlicAddr::new(counting_digest(), 1);
    assert_eq!(a.ban_id(), a.destination());
    assert_eq!(a.ban_id(), b.ban_id());
    let other_port = GarlicAddr::new(counting_digest(), 2);
    assert_eq!(a.ban_id(), other_port.ban_id());
    let other_digest = GarlicAddr::new([0xff; 32], 1);
    assert_ne!(a.ban_id(), other_digest.ban_id());
}

#[test]
fn make_canonical_changes_nothing_and_is_idempotent() {
    let fresh = GarlicAddr::new(counting_digest(), 18080);
    let mut once = fresh;
    once.make_canonical();
    assert_eq!(once, fresh);
    let mut twice = once;
    twice.make_canonical();
    assert_eq!(twice, once);
}

#[test]
fn every_garlic_address_is_eligible() {
    assert!(GarlicAddr::new(counting_digest(), 18080).should_add_to_peer_list());
    assert!(GarlicAddr::new([0; 32], 0).should_add_to_peer_list());
}

#[test]
fn i2p_zone_policy() {
    assert_eq!(I2p::NAME, "I2p");
    assert!(!I2p::CHECK_NODE_ID);
    assert!(I2p::BROADCAST_OWN_ADDR);
}

#[test]
fn display_string_shows_both_ends_of_the_digest() {
    let addr = GarlicAddr::new(counting_digest(), 18080);
    assert_eq!(addr.display_string(), "AAECAwQFBgc=...GBkaGxwdHh8=:18080");
    assert_eq!(GarlicAddr::new([0; 32], 0).display_string(), "AAAAAAAAAAA=...AAAAAAAAAAA=:0");
    assert_eq!(
        GarlicAddr::new([0xff; 32], 65535).display_string(),
        "//////////8=...//////////8=:65535"
    );
}

#[test]
fn display_string_hides_the_middle_of_the_digest() {
    let mut digest = counting_digest();
    let plain = GarlicAddr::new(digest, 80);
    digest[8] = 0xaa;
    digest[23] = 0xbb;
    let changed = GarlicAddr::new(digest, 80);
    assert_ne!(plain.ban_id(), changed.ban_id());
    assert_eq!(plain.display_string(), changed.display_string());
}

#[test]
fn address_string_shows_the_whole_digest() {
    let addr = GarlicAddr::new(counting_digest(), 18080);
    assert_eq!(addr.address_string(), "AAECAwQFBgcICQoLDA0ODxAREhMUFRYXGBkaGxwdHh8=:18080");
    assert_eq!(
        GarlicAddr::new([0; 32], 0).address_string(),
        "AAAAAAAAAAAAAAAAAAAAAAAAAAAAAAAAAAAAAAAAAAA=:0"
    );
    assert_eq!(
        GarlicAddr::new([0xff; 32], 65535).address_string(),
        "//////////////////////////////////////////8=:65535"
    );
}

#[test]
fn parse_reads_the_full_spelling() {
    let parsed = GarlicAddr::parse("AAECAwQFBgcICQoLDA0ODxAREhMUFRYXGBkaGxwdHh8=:18080");
    assert_eq!(parsed, Ok(GarlicAddr::new(counting_digest(), 18080)));
}

#[test]
fn parse_reads_back_what_address_string_writes() {
    let mut digests = vec![[0u8; 32], [0xffu8; 32], counting_digest()];
    let mut mixed = counting_digest();
    mixed[0] = 0xfb;
    mixed[31] = 0x3e;
    digests.push(mixed);
    for digest in digests {
        for port in [0u16, 1, 9, 10, 80, 999, 1000, 18080, 65535] {
            let addr = GarlicAddr::new(digest, port);
            let parsed = GarlicAddr::parse(&addr.address_string());
            assert_eq!(parsed, Ok(addr));
            assert_eq!(parsed.unwrap().ban_id(), addr.ban_id());
        }
    }
}

#[test]
fn from_str_reads_the_full_spelling() {
    let parsed: Result<GarlicAddr, AddrParseError> =
        "//////////////////////////////////////////8=:65535".parse();
    assert_eq!(parsed, Ok(GarlicAddr::new([0xff; 32], 65535)));
    let failed: Result<GarlicAddr, AddrParseError> = "no port here".parse();
    assert_eq!(failed, Err(AddrParseError::InvalidFormat));
}

#[test]
fn parse_wants_a_colon() {
    assert_eq!(GarlicAddr::parse(""), Err(AddrParseError::InvalidFormat));
    assert_eq!(
        GarlicAddr::parse("AAAAAAAAAAAAAAAAAAAAAAAAAAAAAAAAAAAAAAAAAAA="),
        Err(AddrParseError::InvalidFormat)
    );
}

#[test]
fn parse_wants_a_port_after_the_last_colon() {
    let digest = "AAAAAAAAAAAAAAAAAAAAAAAAAAAAAAAAAAAAAAAAAAA=";
    for port in ["", "+", "-1", "80 ", " 80", "8o", "65536", "99999999999999999999", "٣"] {
        let text = format!("{}:{}", digest, port);
        assert_eq!(GarlicAddr::parse(&text), Err(AddrParseError::InvalidPort), "{}", text);
    }
    assert_eq!(
        GarlicAddr::parse("AAAAAAAAAAAAAAAAAAAAAAAAAAAAAAAAAAAAAAAAAAA=:80:"),
        Err(AddrParseError::InvalidPort)
    );
}

#[test]
fn parse_takes_a_sign_and_leading_zeros_in_the_port() {
    let digest = "AAAAAAAAAAAAAAAAAAAAAAAAAAAAAAAAAAAAAAAAAAA=";
    for (port, value) in [("+80", 80u16), ("0080", 80), ("+0", 0), ("000000065535", 65535)] {
        let text = format!("{}:{}", digest, port);
        assert_eq!(GarlicAddr::parse(&text), Ok(GarlicAddr::new([0; 32], value)), "{}", text);
    }
}

#[test]
fn parse_wants_the_base64_of_32_bytes() {
    for digest in [
        "",
        "not base64",
        "AAAAAAAAAAAAAAAAAAAAAAAAAAAAAAAAAAAAAAAAAA==",
        "AAAAAAAAAAAAAAAAAAAAAAAAAAAAAAAAAAAAAAAAAAAA",
        "AAAAAAAAAAAAAAAAAAAAAAAAAAAAAAAAAAAAAAAAAAA=:",
        "ÄAAAAAAAAAAAAAAAAAAAAAAAAAAAAAAAAAAAAAAAAA=",
    ] {
        let text = format!("{}:80", digest);
        assert_eq!(GarlicAddr::parse(&text), Err(AddrParseError::InvalidDestination), "{}", text);
    }
}

#[test]
fn parse_checks_the_port_before_the_destination() {
    assert_eq!(GarlicAddr::parse("not base64:not a port"), Err(AddrParseError::InvalidPort));
}

#[test]
fn parse_reads_the_short_spelling_with_zeros_in_the_middle() {
    let addr = GarlicAddr::new(counting_digest(), 18080);
    let mut shown = counting_digest();
    for byte in shown[8..24].iter_mut() {
        *byte = 0;
    }
    assert_eq!(GarlicAddr::parse(&addr.display_string()), Ok(GarlicAddr::new(shown, 18080)));
}

#[test]
fn parse_reads_back_the_display_of_an_address_with_zeros_in_the_middle() {
    let mut digest = [0u8; 32];
    for i in 0..8 {
        digest[i] = 0xf0 + i as u8;
        digest[24 + i] = 0x80 + i as u8;
    }
    for port in [0u16, 80, 18080, 65535] {
        let addr = GarlicAddr::new(digest, port);
        let parsed = GarlicAddr::parse(&addr.display_string());
        assert_eq!(parsed, Ok(addr));
        assert_eq!(parsed.unwrap().ban_id(), addr.ban_id());
    }
}

#[test]
fn parse_keeps_the_port_and_the_ends_of_every_display() {
    let mut mixed = counting_digest();
    mixed[0] = 0xfb;
    mixed[31] = 0x3e;
    for digest in [[0u8; 32], [0xffu8; 32], counting_digest(), mixed] {
        for port in [0u16, 9, 18080, 65535] {
            let addr = GarlicAddr::new(digest, port);
            let parsed = GarlicAddr::parse(&addr.display_string()).unwrap();
            assert_eq!(parsed.port(), port);
            assert_eq!(parsed.destination()[..8], digest[..8]);
            assert_eq!(parsed.destination()[8..24], [0u8; 16]);
            assert_eq!(parsed.destination()[24..], digest[24..]);
        }
    }
}

#[test]
fn parse_reads_the_display_of_the_all_zero_address() {
    let parsed = GarlicAddr::parse("AAAAAAAAAAA=...AAAAAAAAAAA=:0");
    assert_eq!(parsed, Ok(GarlicAddr::new([0; 32], 0)));
    assert_eq!(parsed.unwrap().ban_id(), [0u8; 32]);
    let parsed: Result<GarlicAddr, AddrParseError> = "AAAAAAAAAAA=...AAAAAAAAAAA=:18080".parse();
    assert_eq!(parsed.unwrap().port(), 18080);
}

#[test]
fn parse_tells_the_displays_of_all_zero_and_all_ones_apart() {
    let zero = GarlicAddr::parse("AAAAAAAAAAA=...AAAAAAAAAAA=:0").unwrap();
    let ones = GarlicAddr::parse("//////////8=...//////////8=:0").unwrap();
    assert_ne!(zero.ban_id(), ones.ban_id());
    assert_eq!(GarlicAddr::new([0; 32], 0).display_string(), "AAAAAAAAAAA=...AAAAAAAAAAA=:0");
    assert_eq!(GarlicAddr::new([0xff; 32], 0).display_string(), "//////////8=...//////////8=:0");
}

#[test]
fn parse_wants_both_ends_of_a_short_spelling_to_be_8_bytes() {
    for digest in [
        "AAAAAAAAAAA=...AAAAAAAAAAA!",
        "!AAAAAAAAAA=...AAAAAAAAAAA=",
        "AAAAAAAAAA==...AAAAAAAAAAA=",
        "AAAAAAAAAAA=...AAAAAAAAAA==",
        "AAAAAAAAAAAA...AAAAAAAAAAA=",
        "AAAAAAAAAAA=.,.AAAAAAAAAAA=",
        "AAAAAAAAAAA=..AAAAAAAAAAA=",
        "AAAAAAAAAAA=....AAAAAAAAAAA=",
        "...",
    ] {
        let text = format!("{}:80", digest);
        assert_eq!(GarlicAddr::parse(&text), Err(AddrParseError::InvalidDestination), "{}", text);
    }
}

#[test]
fn a_short_digest_is_parted_into_its_ends() {
    assert_eq!(
        split_short_digest("AAECAwQFBgc=...GBkaGxwdHh8="),
        Some(("AAECAwQFBgc=", "GBkaGxwdHh8="))
    );
    assert_eq!(split_short_digest("abcdefghijkl...mnopqrstuvwx"), Some(("abcdefghijkl", "mnopqrstuvwx")));
    assert_eq!(split_short_digest("äbcdefghijkl...mnopqrstuvwx"), Some(("äbcdefghijkl", "mnopqrstuvwx")));
    assert_eq!(split_short_digest("..............."), None);
    assert_eq!(split_short_digest("..........................."), Some(("............", "............")));
    assert_eq!(split_short_digest("abcdefghijkl.,.mnopqrstuvwx"), None);
    assert_eq!(split_short_digest("abcdefghijk...mnopqrstuvwxy"), None);
    assert_eq!(split_short_digest("abcdefghijkl...mnopqrstuvwxy"), None);
    assert_eq!(split_short_digest("AAECAwQFBgcICQoLDA0ODxAREhMUFRYXGBkaGxwdHh8="), None);
    assert_eq!(split_short_digest(""), None);
}

#[test]
fn an_address_takes_two_decoded_ends_of_8_bytes() {
    let mut digest = [0u8; 32];
    for i in 0..8 {
        digest[i] = 1 + i as u8;
        digest[24 + i] = 101 + i as u8;
    }
    assert_eq!(
        short_address_from_decoded(
            Some(vec![1, 2, 3, 4, 5, 6, 7, 8]),
            Some(vec![101, 102, 103, 104, 105, 106, 107, 108]),
            80
        ),
        Ok(GarlicAddr::new(digest, 80))
    );
    for (head, tail) in [
        (None, Some(vec![0; 8])),
        (Some(vec![0; 8]), None),
        (None, None),
        (Some(vec![0; 7]), Some(vec![0; 8])),
        (Some(vec![0; 8]), Some(vec![0; 9])),
        (Some(vec![]), Some(vec![])),
    ] {
        assert_eq!(
            short_address_from_decoded(head, tail, 80),
            Err(AddrParseError::InvalidDestination)
        );
    }
}

#[test]
fn short_spelling_is_put_together_from_its_parts() {
    assert_eq!(write_short_spelling("head", "tail", 80), "head...tail:80");
    assert_eq!(write_short_spelling("", "", 0), "...:0");
}

#[test]
fn full_spelling_is_put_together_from_its_parts() {
    assert_eq!(write_full_spelling("digest", 18080), "digest:18080");
    assert_eq!(write_full_spelling("", 65535), ":65535");
}

#[test]
fn a_spelling_is_parted_at_its_last_colon() {
    assert_eq!(split_spelling("digest:80"), Ok(("digest", 80)));
    assert_eq!(split_spelling("a:b:c:7"), Ok(("a:b:c", 7)));
    assert_eq!(split_spelling(":0"), Ok(("", 0)));
    assert_eq!(split_spelling("ünï:+12"), Ok(("ünï", 12)));
    assert_eq!(split_spelling("digest"), Err(AddrParseError::InvalidFormat));
    assert_eq!(split_spelling("digest:"), Err(AddrParseError::InvalidPort));
    assert_eq!(split_spelling("digest:80:x"), Err(AddrParseError::InvalidPort));
}

#[test]
fn a_full_spelling_parts_into_what_it_was_made_of() {
    for digest in ["", "digest", "with:colons:inside", "AAAA="] {
        for port in [0u16, 7, 65535] {
            let text = write_full_spelling(digest, port);
            assert_eq!(split_spelling(&text), Ok((digest, port)));
        }
    }
}

#[test]
fn an_address_takes_a_decoded_digest_of_32_bytes() {
    assert_eq!(
        address_from_decoded(Some(counting_digest().to_vec()), 80),
        Ok(GarlicAddr::new(counting_digest(), 80))
    );
    assert_eq!(address_from_decoded(None, 80), Err(AddrParseError::InvalidDestination));
    for length in [0usize, 31, 33] {
        assert_eq!(
            address_from_decoded(Some(vec![0; length]), 80),
            Err(AddrParseError::InvalidDestination)
        );
    }
}
