use async_hwi::DeviceKind;
use liana_gui::contacts_panel::{
    contact_registration, contact_registration_message, save_contacts_reply, ContactsAction, ContactsEvent, ContactsMessage, ContactsPanel, PanelWarning,
    SaveReply,
};
use liana_gui::hw::{HardwareWallet, UnsupportedReason};
use liana_gui::settings::{load_contacts, store_contacts, ContactRegistration, ContactSetting, WalletSetting};

const G: &str = "0279be667ef9dcbbac55a06295ce870b07029bfcdb2dce28d959f2815b16f81798";

fn contact(name: &str, pubkey: &str) -> ContactSetting {
    ContactSetting { name: name.to_string(), pubkey: pubkey.to_string(), registrations: Vec::new() }
}

fn reg(fp: u32, id: &str) -> ContactRegistration {
    ContactRegistration { device_fingerprint: fp, registration_id: id.to_string(), proof: "00".to_string() }
}

fn devices() -> Vec<HardwareWallet> {
    vec![
        HardwareWallet::Locked { kind: DeviceKind::Jade },
        HardwareWallet::Supported { kind: DeviceKind::Ledger, fingerprint: 0xaabbccdd },
        HardwareWallet::Unsupported { kind: DeviceKind::Coldcard, reason: UnsupportedReason::WrongNetwork },
    ]
}

fn msg(m: ContactsMessage) -> ContactsEvent {
    ContactsEvent::Contacts(m)
}

fn unexpected(p: &ContactsPanel) -> Option<String> {
    match &p.warning {
        Some(PanelWarning::Unexpected(s)) => Some(s.clone()),
        _ => None,
    }
}

#[test]
fn new_panel_is_empty_and_idle() {
    let p = ContactsPanel::new(vec![contact("a", G)]);
    assert_eq!(p.contacts.len(), 1);
    assert_eq!(p.name_input.value, "");
    assert!(p.name_input.valid && p.pubkey_input.valid);
    assert!(p.warning.is_none());
    assert!(p.registering_contact.is_none());
}

#[test]
fn adding_a_contact_trims_and_saves() {
    let mut p = ContactsPanel::new(Vec::new());
    p.update(&[], msg(ContactsMessage::NameEdited("\u{3000} Alice\t".to_string())));
    p.update(&[], msg(ContactsMessage::PubkeyEdited(format!(" {} ", G))));
    let a = p.update(&[], msg(ContactsMessage::AddContact));
    assert_eq!(p.contacts.len(), 1);
    assert_eq!(p.contacts[0].name, "Alice");
    assert_eq!(p.contacts[0].pubkey, G);
    assert!(p.contacts[0].registrations.is_empty());
    assert_eq!(p.name_input.value, "");
    assert_eq!(p.pubkey_input.value, "");
    assert!(p.warning.is_none());
    match a {
        ContactsAction::SaveContacts(c) => {
            assert_eq!(c.len(), 1);
            assert_eq!(c[0].name, "Alice");
        }
        _ => panic!("expected a save"),
    }
}

#[test]
fn adding_a_contact_without_name_warns() {
    let mut p = ContactsPanel::new(Vec::new());
    p.update(&[], msg(ContactsMessage::NameEdited(" \t ".to_string())));
    p.update(&[], msg(ContactsMessage::PubkeyEdited(G.to_string())));
    let a = p.update(&[], msg(ContactsMessage::AddContact));
    assert!(matches!(a, ContactsAction::Nothing));
    assert!(p.contacts.is_empty());
    assert_eq!(unexpected(&p).unwrap(), "Name cannot be empty");
    assert!(p.pubkey_input.valid);
}

#[test]
fn adding_a_contact_with_bad_key_marks_the_input() {
    let mut p = ContactsPanel::new(Vec::new());
    p.update(&[], msg(ContactsMessage::NameEdited("Bob".to_string())));
    p.update(&[], msg(ContactsMessage::PubkeyEdited("02abcd".to_string())));
    let a = p.update(&[], msg(ContactsMessage::AddContact));
    assert!(matches!(a, ContactsAction::Nothing));
    assert!(!p.pubkey_input.valid);
    assert_eq!(p.name_input.value, "Bob");
    assert_eq!(unexpected(&p).unwrap(), "Public key must be a 66-character hex string (compressed pubkey)");
    p.update(&[], msg(ContactsMessage::PubkeyEdited(G.to_string())));
    assert!(p.pubkey_input.valid);
}

#[test]
fn registering_a_contact_on_a_supported_device() {
    let mut p = ContactsPanel::new(vec![contact("Alice", G)]);
    let hws = devices();
    let a = p.update(&hws, msg(ContactsMessage::RegisterContact(0, 1)));
    match a {
        ContactsAction::RegisterIdentityKey { contact_index, hw_index, fingerprint, name, xpub } => {
            assert_eq!(contact_index, 0);
            assert_eq!(hw_index, 1);
            assert_eq!(fingerprint, 0xaabbccdd);
            assert_eq!(name, "Alice");
            assert_eq!(xpub.public_key_bytes, hex::decode(G).unwrap());
        }
        _ => panic!("expected a registration"),
    }
    assert_eq!(p.registering_contact, Some(0));
    // A second request while one runs is ignored.
    let a = p.update(&hws, msg(ContactsMessage::RegisterContact(0, 1)));
    assert!(matches!(a, ContactsAction::Nothing));
    assert_eq!(p.registering_contact, Some(0));
}

#[test]
fn registering_on_an_unusable_device_or_missing_contact_does_nothing() {
    let mut p = ContactsPanel::new(vec![contact("Alice", G)]);
    let hws = devices();
    assert!(matches!(p.update(&hws, msg(ContactsMessage::RegisterContact(0, 0))), ContactsAction::Nothing));
    assert!(matches!(p.update(&hws, msg(ContactsMessage::RegisterContact(0, 2))), ContactsAction::Nothing));
    assert!(matches!(p.update(&hws, msg(ContactsMessage::RegisterContact(0, 7))), ContactsAction::Nothing));
    assert!(matches!(p.update(&hws, msg(ContactsMessage::RegisterContact(3, 1))), ContactsAction::Nothing));
    assert!(p.registering_contact.is_none());
    assert!(p.warning.is_none());
}

#[test]
fn registering_a_contact_with_a_broken_key_warns() {
    let mut p = ContactsPanel::new(vec![contact("Carol", "not a key")]);
    let a = p.update(&devices(), msg(ContactsMessage::RegisterContact(0, 1)));
    assert!(matches!(a, ContactsAction::Nothing));
    assert!(p.registering_contact.is_none());
    assert_eq!(unexpected(&p).unwrap(), "Public key must be a 66-character hex string (compressed pubkey)");
}

#[test]
fn a_registration_replaces_the_one_on_the_same_device() {
    let mut c = contact("Alice", G);
    c.registrations = vec![reg(1, "old"), reg(2, "other")];
    let mut p = ContactsPanel::new(vec![c]);
    p.registering_contact = Some(0);
    let a = p.update(&[], msg(ContactsMessage::Registered(0, reg(1, "new"))));
    assert!(p.registering_contact.is_none());
    let regs = &p.contacts[0].registrations;
    assert_eq!(regs.len(), 2);
    assert_eq!(regs[0].registration_id, "new");
    assert_eq!(regs[1].registration_id, "other");
    assert!(matches!(a, ContactsAction::SaveContacts(ref v) if v[0].registrations[0].registration_id == "new"));
    let a = p.update(&[], msg(ContactsMessage::Registered(0, reg(3, "third"))));
    assert_eq!(p.contacts[0].registrations.len(), 3);
    assert_eq!(p.contacts[0].registrations[2].device_fingerprint, 3);
    assert!(matches!(a, ContactsAction::SaveContacts(_)));
}

#[test]
fn a_registration_for_a_missing_contact_only_ends_the_registration() {
    let mut p = ContactsPanel::new(vec![contact("Alice", G)]);
    p.registering_contact = Some(4);
    let a = p.update(&[], msg(ContactsMessage::Registered(4, reg(1, "x"))));
    assert!(matches!(a, ContactsAction::Nothing));
    assert!(p.registering_contact.is_none());
    assert!(p.contacts[0].registrations.is_empty());
}

#[test]
fn a_failed_registration_warns() {
    let mut p = ContactsPanel::new(vec![contact("Alice", G)]);
    p.registering_contact = Some(0);
    p.update(&[], msg(ContactsMessage::RegistrationFailed("device busy".to_string())));
    assert!(p.registering_contact.is_none());
    assert_eq!(unexpected(&p).unwrap(), "device busy");
}

#[test]
fn deleting_a_contact() {
    let mut p = ContactsPanel::new(vec![contact("A", G), contact("B", G), contact("C", G)]);
    let a = p.update(&[], msg(ContactsMessage::Delete(1)));
    assert_eq!(p.contacts.iter().map(|c| c.name.as_str()).collect::<Vec<_>>(), vec!["A", "C"]);
    assert!(matches!(a, ContactsAction::SaveContacts(ref v) if v.len() == 2));
    let a = p.update(&[], msg(ContactsMessage::Delete(5)));
    assert!(matches!(a, ContactsAction::Nothing));
    assert_eq!(p.contacts.len(), 2);
}

#[test]
fn device_manager_outcomes() {
    let mut p = ContactsPanel::new(Vec::new());
    assert!(matches!(p.update(&[], ContactsEvent::HardwareWallets(Ok(()))), ContactsAction::HardwareWallets));
    p.update(&[], ContactsEvent::HardwareWallets(Err("unplugged".to_string())));
    assert!(matches!(&p.warning, Some(PanelWarning::HardwareWallet(s)) if s == "unplugged"));
    assert!(matches!(p.update(&[], ContactsEvent::Other), ContactsAction::Nothing));
    assert!(matches!(p.update(&[], msg(ContactsMessage::ShareIdentityKey(0))), ContactsAction::Nothing));
}

#[test]
fn reload_clears_warning_and_registration() {
    let mut p = ContactsPanel::new(Vec::new());
    p.registering_contact = Some(0);
    p.warning = Some(PanelWarning::Unexpected("x".to_string()));
    p.name_input.value = "typed".to_string();
    p.reload(vec![contact("Z", G)]);
    assert!(p.warning.is_none());
    assert!(p.registering_contact.is_none());
    assert_eq!(p.contacts.len(), 1);
    assert_eq!(p.name_input.value, "typed");
}

#[test]
fn save_replies() {
    assert!(matches!(save_contacts_reply(Ok(())), SaveReply::Reload));
    match save_contacts_reply(Err("disk full".to_string())) {
        SaveReply::Contacts(ContactsMessage::RegistrationFailed(m)) => {
            assert_eq!(m, "Failed to save contacts: disk full")
        }
        _ => panic!("expected a failure"),
    }
}

#[test]
fn stored_contacts_are_loaded_back() {
    let mut wallets = vec![
        WalletSetting { wallet_id: "w1".to_string(), contacts: vec![contact("a", G)] },
        WalletSetting { wallet_id: "w2".to_string(), contacts: Vec::new() },
        WalletSetting { wallet_id: "w2".to_string(), contacts: vec![contact("dup", G)] },
    ];
    store_contacts(&mut wallets, &"w2".to_string(), vec![contact("b", G), contact("c", G)]);
    assert_eq!(wallets[1].contacts.len(), 2);
    assert_eq!(wallets[2].contacts[0].name, "dup");
    assert_eq!(wallets[0].contacts[0].name, "a");
    let loaded = load_contacts(Some(wallets), &"w2".to_string());
    assert_eq!(loaded.iter().map(|c| c.name.as_str()).collect::<Vec<_>>(), vec!["b", "c"]);
}

#[test]
fn loading_contacts_of_unknown_wallet_or_unreadable_settings_gives_none() {
    let wallets = vec![WalletSetting { wallet_id: "w1".to_string(), contacts: vec![contact("a", G)] }];
    assert!(load_contacts(Some(wallets), &"w9".to_string()).is_empty());
    assert!(load_contacts(None, &"w1".to_string()).is_empty());
    let mut none: Vec<WalletSetting> = Vec::new();
    store_contacts(&mut none, &"w1".to_string(), vec![contact("a", G)]);
    assert!(none.is_empty());
}

#[test]
fn device_replies_become_registrations() {
    let r = contact_registration(0xaabbccdd, &[0x00, 0x1f, 0xab], &[0xff]);
    assert_eq!(r.device_fingerprint, 0xaabbccdd);
    assert_eq!(r.registration_id, "001fab");
    assert_eq!(r.proof, "ff");
    let r = contact_registration(1, &[], &[]);
    assert_eq!(r.registration_id, "");
    match contact_registration_message(3, Ok(contact_registration(5, &[1], &[2]))) {
        ContactsMessage::Registered(i, reg) => {
            assert_eq!(i, 3);
            assert_eq!(reg.registration_id, "01");
            assert_eq!(reg.proof, "02");
        }
        _ => panic!("expected a registration"),
    }
    assert!(matches!(
        contact_registration_message(3, Err("User refused operation".to_string())),
        ContactsMessage::RegistrationFailed(m) if m == "User refused operation"
    ));
}

#[test]
fn registration_reply_then_update_records_the_hex_ids() {
    let mut p = ContactsPanel::new(vec![contact("Alice", G)]);
    p.registering_contact = Some(0);
    let m = contact_registration_message(0, Ok(contact_registration(9, &[0xde, 0xad], &[0xbe, 0xef])));
    p.update(&[], ContactsEvent::Contacts(m));
    assert_eq!(p.contacts[0].registrations[0].registration_id, "dead");
    assert_eq!(p.contacts[0].registrations[0].proof, "beef");
}
