use liana_gui::contacts_view::{contact_card, contacts_view};
use liana_gui::pubkey::parse_pubkey_to_xpub;
use liana_gui::settings::{ContactRegistration, ContactSetting};
use liana_gui::text::{can_elide_bytes, elide_middle_bytes, elide_middle_chars};

const G: &str = "0279be667ef9dcbbac55a06295ce870b07029bfcdb2dce28d959f2815b16f81798";

#[test]
fn valid_identity_key_parses_to_xpub() {
    let x = parse_pubkey_to_xpub(G).expect("valid key");
    assert!(x.mainnet);
    assert_eq!(x.depth, 0);
    assert_eq!(x.parent_fingerprint, 0);
    assert_eq!(x.child_number, 0);
    assert_eq!(x.chain_code, [0u8; 32]);
    let bytes = hex::decode(G).unwrap();
    assert_eq!(x.public_key_bytes, bytes);
    assert_eq!(x.public_key.serialize().to_vec(), bytes);
}

#[test]
fn uppercase_identity_key_parses() {
    let x = parse_pubkey_to_xpub(&G.to_uppercase()).expect("valid key");
    assert_eq!(x.public_key_bytes, hex::decode(G).unwrap());
}

#[test]
fn identity_key_of_wrong_length_is_rejected() {
    let e = parse_pubkey_to_xpub(&G[..64]).err().unwrap();
    assert_eq!(e, "Public key must be a 66-character hex string (compressed pubkey)");
    let e = parse_pubkey_to_xpub("").err().unwrap();
    assert_eq!(e, "Public key must be a 66-character hex string (compressed pubkey)");
}

#[test]
fn identity_key_with_bad_hex_is_rejected() {
    let mut s = String::from("zz");
    s.push_str(&G[2..]);
    let e = parse_pubkey_to_xpub(&s).err().unwrap();
    assert_eq!(e, "Invalid hex: Invalid character 'z' at position 0");
}

#[test]
fn identity_key_of_66_bytes_but_fewer_characters_is_bad_hex() {
    let s: String = std::iter::repeat('é').take(33).collect();
    assert_eq!(s.len(), 66);
    let e = parse_pubkey_to_xpub(&s).err().unwrap();
    assert!(e.starts_with("Invalid hex: "));
}

#[test]
fn identity_key_off_the_curve_is_rejected() {
    let mut s = String::from("05");
    s.push_str(&G[2..]);
    let e = parse_pubkey_to_xpub(&s).err().unwrap();
    assert_eq!(e, "Invalid public key: malformed public key");
}

#[test]
fn blank_inputs_cannot_be_added() {
    let can_add = |name: &str, key: &str| contacts_view(&[], &[], name, key, &[], None, false).can_add;
    assert!(can_add("a", "b"));
    assert!(!can_add("  \t\n", "b"));
    assert!(!can_add("a", "\u{3000}\u{2028}"));
    assert!(can_add("\u{3000}a\u{3000}", " b "));
    assert!(!can_add("", ""));
}

#[test]
fn registration_counts_are_written_in_decimal() {
    let mut c = ContactSetting { name: "n".to_string(), pubkey: "k".to_string(), registrations: Vec::new() };
    for i in 0..12u32 {
        c.registrations.push(ContactRegistration {
            device_fingerprint: i,
            registration_id: String::new(),
            proof: String::new(),
        });
    }
    assert_eq!(contact_card(0, &c, &[], None).status, "Registered on 12 devices");
}

#[test]
fn keys_are_shortened_by_bytes() {
    assert_eq!(elide_middle_bytes(G), "0279be667e...5b16f81798");
    let twenty = "01234567890123456789";
    assert_eq!(elide_middle_bytes(twenty), twenty);
    assert_eq!(elide_middle_bytes("012345678901234567890"), "0123456789...1234567890");
    // Two-byte characters: 11 of them are 22 bytes, cut after 5 characters.
    let s: String = std::iter::repeat('é').take(11).collect();
    assert_eq!(elide_middle_bytes(&s), "ééééé...ééééé");
}

#[test]
fn addresses_are_shortened_by_characters() {
    let a = "bc1qar0srrr7xfkvy5l643lydnw9re59gtzzwf5mdq";
    assert_eq!(elide_middle_chars(a, 16), "bc1qar0srrr7xfkv...w9re59gtzzwf5mdq");
    let short = "abcdefghijklmnopqrstuvwxyz012345";
    assert_eq!(short.len(), 32);
    assert_eq!(elide_middle_chars(short, 16), short);
    let s: String = std::iter::repeat('é').take(33).collect();
    let expect: String = std::iter::repeat('é').take(16).collect::<String>() + "..." + &std::iter::repeat('é').take(16).collect::<String>();
    assert_eq!(elide_middle_chars(&s, 16), expect);
}

#[test]
fn keys_that_can_be_cut_by_bytes() {
    assert!(can_elide_bytes(G));
    assert!(can_elide_bytes("short"));
    assert!(can_elide_bytes(""));
    // 'é' is two bytes: in "aé" repeated, the cut before the last 10 bytes
    // falls inside a character.
    let s: String = std::iter::repeat("aé").take(8).collect();
    assert_eq!(s.len(), 24);
    assert!(!can_elide_bytes(&s));
    let t: String = std::iter::repeat('é').take(11).collect();
    assert!(can_elide_bytes(&t));
}
