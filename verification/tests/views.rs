use std::collections::HashSet;

use async_hwi::DeviceKind;
use liana_gui::contacts_view::{contact_card, contacts_view, my_identity_key_section, IdentityKeySetting};
use liana_gui::hw::{DeviceButton, DeviceLook, HardwareWallet, UnsupportedReason};
use liana_gui::contacts_panel::FormValue;
use liana_gui::receive_view::{receive, verify_address_modal, DerivationIndex, LabelShown, PreviousRow, SigningDeviceButton};
use liana_gui::settings::{ContactRegistration, ContactSetting};

const G: &str = "0279be667ef9dcbbac55a06295ce870b07029bfcdb2dce28d959f2815b16f81798";

fn hws() -> Vec<HardwareWallet> {
    vec![
        HardwareWallet::Supported { kind: DeviceKind::Ledger, fingerprint: 1 },
        HardwareWallet::Unsupported { kind: DeviceKind::Coldcard, reason: UnsupportedReason::NotPartOfWallet(77) },
        HardwareWallet::Supported { kind: DeviceKind::Jade, fingerprint: 2 },
        HardwareWallet::Unsupported { kind: DeviceKind::Specter, reason: UnsupportedReason::Version },
        HardwareWallet::Locked { kind: DeviceKind::BitBox02 },
        HardwareWallet::Unsupported { kind: DeviceKind::Ledger, reason: UnsupportedReason::WrongNetwork },
    ]
}

fn contact(regs: &[u32]) -> ContactSetting {
    ContactSetting {
        name: "Alice".to_string(),
        pubkey: G.to_string(),
        registrations: regs
            .iter()
            .map(|f| ContactRegistration { device_fingerprint: *f, registration_id: "r".to_string(), proof: "p".to_string() })
            .collect(),
    }
}

fn button(hw_index: usize, look: DeviceLook, pressable: bool) -> DeviceButton {
    DeviceButton { hw_index, look, pressable }
}

#[test]
fn contact_card_statuses() {
    let c = contact_card(0, &contact(&[]), &[], None);
    assert_eq!(c.status, "Unregistered");
    assert_eq!(c.shown_pubkey, "0279be667e...5b16f81798");
    assert_eq!(c.name, "Alice");
    assert_eq!(contact_card(0, &contact(&[1]), &[], None).status, "Registered on 1 device");
    assert_eq!(contact_card(0, &contact(&[1, 2]), &[], None).status, "Registered on 2 devices");
}

#[test]
fn contact_card_device_buttons() {
    let devices = hws();
    let c = contact_card(3, &contact(&[2]), &devices, None);
    assert_eq!(c.contact_index, 3);
    assert_eq!(
        c.devices,
        vec![
            button(0, DeviceLook::Supported, true),
            button(1, DeviceLook::Unrelated(77), false),
            button(2, DeviceLook::RegistrationSuccess, true),
            button(3, DeviceLook::Unsupported, false),
            button(4, DeviceLook::Locked, false),
            button(5, DeviceLook::WrongNetwork, false),
        ]
    );
    let busy = contact_card(3, &contact(&[2]), &devices, Some(3));
    assert_eq!(busy.devices[0], button(0, DeviceLook::Processing, false));
    assert_eq!(busy.devices[2], button(2, DeviceLook::Processing, false));
    let other = contact_card(3, &contact(&[2]), &devices, Some(0));
    assert_eq!(other.devices[0], button(0, DeviceLook::Supported, false));
    assert_eq!(other.devices[2], button(2, DeviceLook::RegistrationSuccess, false));
}

#[test]
fn identity_key_section_hides_devices_already_fetched() {
    let keys = vec![
        IdentityKeySetting { device_fingerprint: 2, pubkey: G.to_string() },
        IdentityKeySetting { device_fingerprint: 9, pubkey: "short".to_string() },
    ];
    let s = my_identity_key_section(&keys, &hws(), false);
    assert_eq!(s.keys.len(), 2);
    assert_eq!(s.keys[0].shown, "0279be667e...5b16f81798");
    assert_eq!(s.keys[0].pubkey, G);
    assert_eq!(s.keys[1].shown, "short");
    assert_eq!(s.devices.iter().map(|b| b.hw_index).collect::<Vec<_>>(), vec![0, 1, 3, 4, 5]);
    assert_eq!(s.devices[0], button(0, DeviceLook::Supported, true));
    assert_eq!(s.keys[0].label, "Device 00000002");
    let fetching = my_identity_key_section(&keys, &hws(), true);
    assert_eq!(fetching.devices[0], button(0, DeviceLook::Processing, false));
}

#[test]
fn identity_key_labels_name_the_device_in_hex() {
    let keys = vec![IdentityKeySetting { device_fingerprint: 0xaabbccdd, pubkey: "k".to_string() }];
    let s = my_identity_key_section(&keys, &[], false);
    assert_eq!(s.keys[0].label, "Device aabbccdd");
}

#[test]
fn contacts_screen() {
    let v = contacts_view(&[contact(&[]), contact(&[1])], &[], " a ", " b", &hws(), None, false);
    assert!(v.can_add);
    assert_eq!(v.cards.len(), 2);
    assert_eq!(v.cards[1].contact_index, 1);
    assert_eq!(v.cards[1].status, "Registered on 1 device");
    assert_eq!(v.identity.devices.len(), 6);
    let blank = contacts_view(&[], &[], "a", "   ", &[], None, false);
    assert!(!blank.can_add);
    assert!(blank.cards.is_empty());
}

fn pairs(v: &[(&str, &str)]) -> Vec<(String, String)> {
    v.iter().map(|(a, b)| (a.to_string(), b.to_string())).collect()
}

#[test]
fn receive_screen() {
    let addresses = vec!["addr0".to_string(), "addr1".to_string(), "addr2".to_string()];
    let prev = vec![
        "bc1qw508d6qejxtdg4y5r3zarvary0c5xw7kv8f3t4".to_string(),
        "prevB".to_string(),
        "prevC".to_string(),
    ];
    let selected = vec!["prevB".to_string()];
    let signed = pairs(&[("addr1", "signed-addr1")]);
    let labels = pairs(&[("addr0", "rent"), ("addr1", "gift")]);
    let prev_labels = pairs(&[("prevB", "old"), ("prevC", "coffee")]);
    let editing = vec![("addr1".to_string(), FormValue { value: "gif".to_string(), valid: true })];
    let devices = hws();
    let r = receive(
        &addresses, &labels, &prev, &prev_labels, true, &selected, &editing, false, true, true,
        Some(&devices[..3]), Some(2), &signed, true,
    );
    assert!(!r.generate_is_primary);
    assert!(r.sign_with_identity);
    assert!(r.signing_in_progress);
    let rows: Vec<(usize, &str, &str)> = r
        .address_cards
        .iter()
        .map(|c| (c.row_index, c.address.as_str(), c.shown.as_str()))
        .collect();
    assert_eq!(rows, vec![(2, "addr2", "addr2"), (1, "addr1", "signed-addr1"), (0, "addr0", "addr0")]);
    assert!(matches!(&r.address_cards[0].label, LabelShown::Editable(None)));
    assert!(matches!(&r.address_cards[1].label, LabelShown::Editing(f) if f.value == "gif"));
    assert!(matches!(&r.address_cards[2].label, LabelShown::Editable(Some(l)) if l == "rent"));
    let b = r.signing_devices.unwrap();
    assert_eq!(
        b,
        vec![
            SigningDeviceButton { hw_index: 0, look: DeviceLook::Supported, selected: false, pressable: true },
            SigningDeviceButton { hw_index: 1, look: DeviceLook::Unrelated(77), selected: false, pressable: false },
            SigningDeviceButton { hw_index: 2, look: DeviceLook::Supported, selected: true, pressable: true },
        ]
    );
    assert!(r.show_previous_toggle && r.previous_expanded);
    let p = r.previous_rows.unwrap();
    match &p[0] {
        PreviousRow::Collapsed { address, shown, label_text: label } => {
            assert_eq!(address, &prev[0]);
            assert_eq!(shown, "bc1qw508d6qejxtd...ary0c5xw7kv8f3t4");
            assert_eq!(label, "");
        }
        _ => panic!("expected a collapsed row"),
    }
    match &p[1] {
        PreviousRow::Card { row_index, address, label } => {
            assert_eq!(*row_index, 4);
            assert_eq!(address, "prevB");
            assert!(matches!(label, LabelShown::Editable(Some(l)) if l == "old"));
        }
        _ => panic!("expected a card"),
    }
    match &p[2] {
        PreviousRow::Collapsed { shown, label_text: label, .. } => {
            assert_eq!(shown, "prevC");
            assert_eq!(label, "coffee");
        }
        _ => panic!("expected a collapsed row"),
    }
    assert_eq!(r.see_more, Some(true));
}

#[test]
fn receive_screen_when_empty() {
    let r = receive(&[], &[], &[], &[], false, &[], &[], true, false, false, None, None, &[], false);
    assert!(r.generate_is_primary);
    assert!(!r.sign_with_identity);
    assert!(r.signing_devices.is_none());
    assert!(!r.show_previous_toggle);
    assert!(r.previous_rows.is_none());
    assert!(r.see_more.is_none());
    let r = receive(&[], &[], &["x".to_string()], &[], false, &[], &[], false, false, false, None, None, &[], false);
    assert!(r.show_previous_toggle && !r.previous_expanded && r.see_more.is_none());
}

#[test]
fn verify_address_choices() {
    let chosen: HashSet<u32> = [2u32, 77].into_iter().collect();
    let addr = "bc1qw508d6qejxtdg4y5r3zarvary0c5xw7kv8f3t4".to_string();
    let m = verify_address_modal(None, &hws(), &chosen, &addr, DerivationIndex::Normal(42));
    assert_eq!(m.chosen, vec![false, false, true, false, false, false]);
    assert!(m.warning.is_none());
    assert_eq!(m.address, addr);
    assert_eq!(m.derivation_index, "42");
    let w = "device disconnected".to_string();
    let m = verify_address_modal(Some(&w), &[], &chosen, &addr, DerivationIndex::Hardened(7));
    assert_eq!(m.warning.as_deref(), Some("device disconnected"));
    assert_eq!(m.derivation_index, "7'");
    assert!(m.chosen.is_empty());
}
