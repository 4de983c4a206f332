use std::collections::HashMap;

use liana_gui::descriptor::WalletDescriptor;
use liana_gui::identity::{
    build_identity_params, ordered_fingerprints, plan_wallet_registration, wallet_registered,
    RegistrationReply, WalletRegistration,
};
use liana_gui::settings::{ContactRegistration, ContactSetting};

fn desc(origins: Vec<Option<u32>>) -> WalletDescriptor {
    WalletDescriptor { text: "wsh(...)".to_string(), key_origins: origins }
}

fn contact(name: &str, pubkey: &str, proofs: &[&str]) -> ContactSetting {
    ContactSetting {
        name: name.to_string(),
        pubkey: pubkey.to_string(),
        registrations: proofs
            .iter()
            .enumerate()
            .map(|(i, p)| ContactRegistration {
                device_fingerprint: i as u32,
                registration_id: "id".to_string(),
                proof: p.to_string(),
            })
            .collect(),
    }
}

fn sigs(entries: &[(u32, &str, &str)]) -> HashMap<u32, (String, String)> {
    entries.iter().map(|(f, k, s)| (*f, (k.to_string(), s.to_string()))).collect()
}

#[test]
fn fingerprints_come_once_in_first_visit_order() {
    let o = vec![Some(3), None, Some(1), Some(3), Some(2), Some(1)];
    assert_eq!(ordered_fingerprints(&o), vec![3, 1, 2]);
    assert!(ordered_fingerprints(&vec![None, None]).is_empty());
}

#[test]
fn no_signed_key_gives_no_parameters() {
    let d = desc(vec![Some(1), Some(2)]);
    let contacts = vec![contact("Alice", "aa", &["01"])];
    let (ids, sigs_out) = build_identity_params(&d, &sigs(&[(1, "bb", "cc")]), &contacts);
    assert!(ids.is_none() && sigs_out.is_none());
    assert!(matches!(plan_wallet_registration(&d, &HashMap::new(), &contacts), WalletRegistration::Plain));
}

#[test]
fn signed_keys_of_registered_contacts_give_parameters() {
    // Keys 1 and 3 are signed by Alice, key 2 by an unknown identity, key 4 by nobody.
    let d = desc(vec![Some(1), Some(2), Some(1), Some(3), Some(4)]);
    let contacts = vec![contact("Alice", "aa11", &["f0", "0f"]), contact("Bob", "bb22", &[])];
    let s = sigs(&[(1, "aa11", "5151"), (2, "cc33", "5252"), (3, "aa11", "5353")]);
    let (ids, sigs_out) = build_identity_params(&d, &s, &contacts);
    let ids = ids.unwrap();
    let sigs_out = sigs_out.unwrap();
    assert_eq!(ids.len(), 1);
    assert_eq!(ids[0].pubkey, vec![0xaa, 0x11]);
    assert_eq!(ids[0].name, "Alice");
    assert_eq!(ids[0].por, vec![0xf0]);
    assert_eq!(sigs_out.len(), 4);
    let s0 = sigs_out[0].as_ref().unwrap();
    assert_eq!(s0.identity_pubkey, vec![0xaa, 0x11]);
    assert_eq!(s0.signature, vec![0x51, 0x51]);
    assert!(sigs_out[1].is_none());
    assert_eq!(sigs_out[2].as_ref().unwrap().signature, vec![0x53, 0x53]);
    assert!(sigs_out[3].is_none());
}

#[test]
fn contacts_without_registration_or_with_bad_hex_are_skipped() {
    let d = desc(vec![Some(1), Some(2), Some(3)]);
    let contacts = vec![
        contact("Bob", "bb22", &[]),
        contact("Bad", "cc33", &["zz"]),
        contact("Dan", "dd44", &["01"]),
    ];
    let s = sigs(&[(1, "bb22", "00"), (2, "cc33", "00"), (3, "dd44", "0")]);
    let (ids, sigs_out) = build_identity_params(&d, &s, &contacts);
    assert!(ids.is_none() && sigs_out.is_none());
}

#[test]
fn only_the_first_contact_with_a_key_counts() {
    let d = desc(vec![Some(1)]);
    let contacts = vec![contact("First", "aa", &[]), contact("Second", "aa", &["01"])];
    let (ids, _) = build_identity_params(&d, &sigs(&[(1, "aa", "00")]), &contacts);
    assert!(ids.is_none());
}

#[test]
fn each_identity_is_registered_once() {
    let d = desc(vec![Some(1), Some(2)]);
    let contacts = vec![contact("A", "aa", &["01"]), contact("B", "bb", &["02"])];
    let s = sigs(&[(1, "bb", "10"), (2, "aa", "20")]);
    match plan_wallet_registration(&d, &s, &contacts) {
        WalletRegistration::WithIdentities { identities, signatures } => {
            assert_eq!(identities.iter().map(|i| i.name.as_str()).collect::<Vec<_>>(), vec!["B", "A"]);
            assert_eq!(signatures.len(), 2);
            assert!(signatures.iter().all(|s| s.is_some()));
        }
        WalletRegistration::Plain => panic!("expected identities"),
    }
}

#[test]
fn the_token_kept_for_a_registration() {
    assert_eq!(wallet_registered(7, RegistrationReply::Identity([1u8; 32])), (7, Some([1u8; 32])));
    assert_eq!(wallet_registered(7, RegistrationReply::Plain(None)), (7, None));
    assert_eq!(wallet_registered(8, RegistrationReply::Plain(Some([2u8; 32]))), (8, Some([2u8; 32])));
}
