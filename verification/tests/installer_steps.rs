use std::collections::{HashMap, HashSet};

use async_hwi::DeviceKind;
use liana_gui::backup_descriptor::{
    descriptor_for_export, keys_by_fingerprint, BackupAction, BackupDescriptor, BackupMessage,
};
use liana_gui::descriptor::WalletDescriptor;
use liana_gui::hw::HardwareWallet;
use liana_gui::import_descriptor::{DescriptorParse, ImportAction, ImportDescriptor, ImportMessage, ImportModal};
use liana_gui::installer::{Backup, InstallContext, InstallerError, KeySetting};
use liana_gui::register_descriptor::{RegisterAction, RegisterDescriptor, RegisterMessage};
use liana_gui::settings::Network;

fn desc(text: &str) -> WalletDescriptor {
    WalletDescriptor { text: text.to_string(), key_origins: vec![Some(1), Some(2)] }
}

fn parsed(text: &str, mainnet: bool, testnet: bool) -> DescriptorParse {
    DescriptorParse::Parsed { descriptor: desc(text), mainnet_keys: mainnet, testnet_keys: testnet }
}

fn backup(network: Network, alias: Option<&str>, descs: &[&str]) -> Backup {
    Backup {
        network,
        alias: alias.map(|a| a.to_string()),
        account_descriptors: descs.iter().map(|d| d.to_string()).collect(),
    }
}

fn key(name: &str, fp: u32) -> KeySetting {
    KeySetting { name: name.to_string(), master_fingerprint: fp }
}

fn context() -> InstallContext {
    InstallContext {
        network: Network::Regtest,
        hw_is_used: false,
        descriptor: None,
        backup: None,
        keys: HashMap::new(),
        wallet_alias: "old".to_string(),
        key_identity_sigs: HashMap::new(),
        contacts: Vec::new(),
        hws: Vec::new(),
        remote_backend: false,
    }
}

#[test]
fn descriptor_check_flags() {
    let mut s = ImportDescriptor::new(Network::Bitcoin);
    assert!(s.check_descriptor(DescriptorParse::Invalid).is_none());
    assert!(s.descriptor_valid && !s.wrong_network);

    s.update(ImportMessage::DescriptorEdited("garbage".to_string(), DescriptorParse::Invalid));
    assert!(!s.descriptor_valid && !s.wrong_network);

    s.update(ImportMessage::DescriptorEdited("d1".to_string(), parsed("d1", false, true)));
    assert!(!s.descriptor_valid && s.wrong_network);

    s.update(ImportMessage::DescriptorEdited("d2".to_string(), parsed("d2", true, false)));
    assert!(s.descriptor_valid && !s.wrong_network);

    let mut t = ImportDescriptor::new(Network::Signet);
    t.update(ImportMessage::DescriptorEdited("d3".to_string(), parsed("d3", false, true)));
    assert!(t.descriptor_valid && !t.wrong_network);
    assert_eq!(t.check_descriptor(parsed("d3", false, true)).unwrap().text, "d3");
}

#[test]
fn editing_the_descriptor_by_hand_drops_the_backup() {
    let mut s = ImportDescriptor::new(Network::Testnet);
    s.update(ImportMessage::WalletFromBackup {
        descriptor: "d".to_string(),
        network: None,
        aliases: HashMap::new(),
        backup: backup(Network::Testnet, None, &["d"]),
    });
    assert!(s.imported_backup.is_some() && s.imported_aliases.is_some());
    assert_eq!(s.imported_descriptor, "d");
    // The same text keeps the backup.
    s.update(ImportMessage::DescriptorEdited("d".to_string(), parsed("d", false, true)));
    assert!(s.imported_backup.is_some());
    s.update(ImportMessage::DescriptorEdited("d!".to_string(), DescriptorParse::Invalid));
    assert!(s.imported_backup.is_none() && s.imported_aliases.is_none());
}

#[test]
fn backups_for_another_network_are_refused() {
    let mut s = ImportDescriptor::new(Network::Bitcoin);
    s.update(ImportMessage::WalletFromBackup {
        descriptor: "d".to_string(),
        network: None,
        aliases: HashMap::new(),
        backup: backup(Network::Bitcoin, None, &["d"]),
    });
    assert!(s.imported_backup.is_none());
    assert_eq!(s.error.as_deref(), Some("Backup network do not match the selected network!"));

    let mut s = ImportDescriptor::new(Network::Signet);
    s.update(ImportMessage::WalletFromBackup {
        descriptor: "d".to_string(),
        network: Some(Network::Testnet),
        aliases: HashMap::new(),
        backup: backup(Network::Testnet, None, &["d"]),
    });
    assert!(s.imported_backup.is_none() && s.error.is_some());
}

#[test]
fn decrypted_backups() {
    let mut s = ImportDescriptor::new(Network::Testnet);
    assert!(matches!(s.update(ImportMessage::EncryptedFile(vec![1, 2])), ImportAction::OpenDecrypt(ref b) if b == &vec![1u8, 2]));
    assert_eq!(s.modal, ImportModal::Decrypt);
    assert!(matches!(s.update(ImportMessage::HardwareWalletUpdate), ImportAction::UpdateDecryptDevices));
    s.update(ImportMessage::DecryptBackup(backup(Network::Signet, Some("w"), &["desc0", "desc1"])));
    assert_eq!(s.modal, ImportModal::Closed);
    assert_eq!(s.imported_descriptor, "desc0");
    let b = s.imported_backup.as_ref().unwrap();
    assert_eq!(b.network, Network::Testnet);
    assert!(s.error.is_none());

    let mut s = ImportDescriptor::new(Network::Bitcoin);
    s.modal = ImportModal::Decrypt;
    s.update(ImportMessage::DecryptBackup(backup(Network::Signet, None, &["x"])));
    assert_eq!(s.modal, ImportModal::Closed);
    assert_eq!(s.error.as_deref(), Some("Backup network do not match the selected network!"));

    let mut s = ImportDescriptor::new(Network::Bitcoin);
    s.update(ImportMessage::DecryptBackup(backup(Network::Bitcoin, None, &[])));
    assert_eq!(s.error.as_deref(), Some("Backup imported but descriptor missing!"));
}

#[test]
fn import_dialogs() {
    let mut s = ImportDescriptor::new(Network::Bitcoin);
    assert!(matches!(s.update(ImportMessage::ImportBackup), ImportAction::LaunchImport));
    assert_eq!(s.modal, ImportModal::Export);
    assert!(matches!(s.update(ImportMessage::HardwareWalletUpdate), ImportAction::Nothing));
    assert!(matches!(s.update(ImportMessage::DecryptClose), ImportAction::Nothing));
    assert_eq!(s.modal, ImportModal::Export);
    assert!(matches!(s.update(ImportMessage::ImportExport), ImportAction::ForwardToModal));
    s.update(ImportMessage::ImportExportClose);
    assert_eq!(s.modal, ImportModal::Closed);
}

#[test]
fn applying_and_reverting_the_import() {
    let mut s = ImportDescriptor::new(Network::Signet);
    let mut ctx = context();
    // Nothing typed: the step does not apply, but the network is set.
    assert!(!s.apply(&mut ctx, DescriptorParse::Invalid));
    assert_eq!(ctx.network, Network::Signet);
    assert!(ctx.hw_is_used);
    assert!(ctx.descriptor.is_none());

    let mut aliases = HashMap::new();
    aliases.insert(5u32, key("Alice", 5));
    s.update(ImportMessage::WalletFromBackup {
        descriptor: "d".to_string(),
        network: Some(Network::Signet),
        aliases,
        backup: backup(Network::Signet, Some("savings"), &["d"]),
    });
    assert!(s.apply(&mut ctx, parsed("d", false, true)));
    assert_eq!(ctx.descriptor.as_ref().unwrap().text, "d");
    assert_eq!(ctx.wallet_alias, "savings");
    assert_eq!(ctx.keys.get(&5).unwrap().name, "Alice");
    assert!(ctx.backup.is_some());

    s.revert(&mut ctx);
    assert!(ctx.descriptor.is_none() && ctx.backup.is_none() && ctx.keys.is_empty());
    assert_eq!(ctx.wallet_alias, "");
    assert_eq!(ctx.network, Network::Signet);
}

#[test]
fn import_step_is_skipped_with_a_remote_backend() {
    let s = ImportDescriptor::new(Network::Bitcoin);
    let mut ctx = context();
    assert!(!s.skip(&ctx));
    ctx.remote_backend = true;
    assert!(s.skip(&ctx));
}

fn hws() -> Vec<HardwareWallet> {
    vec![
        HardwareWallet::Locked { kind: DeviceKind::Jade },
        HardwareWallet::Supported { kind: DeviceKind::BitBox02, fingerprint: 11 },
        HardwareWallet::Supported { kind: DeviceKind::Ledger, fingerprint: 22 },
    ]
}

#[test]
fn registering_the_wallet_on_devices() {
    let mut s = RegisterDescriptor::new_create_wallet();
    assert!(s.created_desc);
    let mut ctx = context();
    ctx.descriptor = Some(desc("d"));
    s.load_context(&ctx);
    let devices = hws();
    match s.update(&devices, RegisterMessage::Select(1)) {
        RegisterAction::RegisterWallet { hw_index, fingerprint, descriptor, .. } => {
            assert_eq!(hw_index, 1);
            assert_eq!(fingerprint, 11);
            assert_eq!(descriptor.text, "d");
        }
        RegisterAction::Nothing => panic!("expected a registration"),
    }
    assert!(s.processing && s.chosen_hw == Some(1));
    s.update(&devices, RegisterMessage::WalletRegistered(Ok((11, Some([9u8; 32])))));
    assert!(!s.processing && s.chosen_hw.is_none());
    assert!(s.registered.contains(&11));
    assert_eq!(s.hmacs.len(), 1);
    assert_eq!(s.hmacs[0].0, 11);
    assert_eq!(s.hmacs[0].1, DeviceKind::BitBox02);
    // Already registered: selecting it again does nothing; a locked device neither.
    assert!(matches!(s.update(&devices, RegisterMessage::Select(1)), RegisterAction::Nothing));
    assert!(matches!(s.update(&devices, RegisterMessage::Select(0)), RegisterAction::Nothing));

    assert!(s.apply(&mut ctx));
    assert_eq!(ctx.hws, vec![(DeviceKind::BitBox02, 11u32, Some([9u8; 32]))]);
}

#[test]
fn registration_errors() {
    let mut s = RegisterDescriptor::new_import_wallet();
    assert!(!s.created_desc);
    s.update(&hws(), RegisterMessage::WalletRegistered(Err(InstallerError::UserRefused)));
    assert!(s.error.is_none());
    s.update(&hws(), RegisterMessage::WalletRegistered(Err(InstallerError::HardwareWallet("boom".to_string()))));
    assert!(matches!(&s.error, Some(InstallerError::HardwareWallet(m)) if m == "boom"));
    // A device that is gone is not recorded.
    s.update(&hws(), RegisterMessage::WalletRegistered(Ok((99, None))));
    assert!(s.registered.is_empty() && s.hmacs.is_empty());
    s.update(&hws(), RegisterMessage::UserActionDone(true));
    assert!(s.done);
}

#[test]
fn a_new_descriptor_resets_the_registered_devices() {
    let mut s = RegisterDescriptor::new_create_wallet();
    let mut ctx = context();
    ctx.descriptor = Some(desc("d"));
    s.load_context(&ctx);
    s.update(&hws(), RegisterMessage::WalletRegistered(Ok((22, None))));
    s.update(&hws(), RegisterMessage::UserActionDone(true));
    s.load_context(&ctx);
    assert!(s.registered.contains(&22) && s.done);
    ctx.descriptor = Some(desc("other"));
    s.load_context(&ctx);
    assert!(s.registered.is_empty() && !s.done);
    assert_eq!(s.hmacs.len(), 1);
    let mut used = context();
    assert!(s.skip(&used));
    used.hw_is_used = true;
    assert!(!s.skip(&used));
}

#[test]
fn backing_up_the_descriptor() {
    let mut s = BackupDescriptor::new();
    assert!(matches!(s.update(BackupMessage::BackupDescriptor), BackupAction::Nothing));
    let mut ctx = context();
    ctx.descriptor = Some(desc("d"));
    ctx.keys.insert(1, key("A", 7));
    s.load_context(&ctx);
    assert_eq!(s.descriptor.as_ref().unwrap().text, "d");
    assert_eq!(s.keys.get(&7).unwrap().name, "A");
    assert!(s.keys.get(&1).is_none());
    match s.update(BackupMessage::BackupDescriptor) {
        BackupAction::PrepareExport(Some(d)) => assert_eq!(d.text, "d"),
        _ => panic!("expected an export"),
    }
    match s.update(BackupMessage::ExportEncryptedDescriptor(Ok(desc("d")))) {
        BackupAction::LaunchExport(d) => assert_eq!(d.text, "d"),
        _ => panic!("expected a launch"),
    }
    assert!(s.modal_open);
    assert!(matches!(s.update(BackupMessage::ExportEncryptedDescriptor(Ok(desc("d")))), BackupAction::Nothing));
    assert!(matches!(s.update(BackupMessage::ImportExport), BackupAction::ForwardToModal));
    s.update(BackupMessage::ImportExportClose);
    assert!(!s.modal_open);
    s.update(BackupMessage::ExportEncryptedDescriptor(Err("Descriptor missing".to_string())));
    assert!(matches!(&s.error, Some(InstallerError::Backup(m)) if m == "Descriptor missing"));
}

#[test]
fn export_needs_a_descriptor() {
    assert_eq!(descriptor_for_export(None).err().unwrap(), "Descriptor missing");
    assert_eq!(descriptor_for_export(Some(desc("d"))).unwrap().text, "d");
}

#[test]
fn key_settings_are_keyed_by_master_fingerprint() {
    let mut keys = HashMap::new();
    keys.insert(1u32, key("A", 10));
    keys.insert(2u32, key("B", 20));
    let r = keys_by_fingerprint(&keys);
    assert_eq!(r.len(), 2);
    assert_eq!(r.get(&10).unwrap().name, "A");
    assert_eq!(r.get(&20).unwrap().name, "B");
    let seen: HashSet<u32> = r.keys().copied().collect();
    assert_eq!(seen, [10u32, 20].into_iter().collect());
}

#[test]
fn backup_step_forgets_confirmation_on_a_new_descriptor() {
    let mut s = BackupDescriptor::new();
    let mut ctx = context();
    ctx.descriptor = Some(desc("d"));
    s.load_context(&ctx);
    s.update(BackupMessage::UserActionDone(true));
    s.load_context(&ctx);
    assert!(s.done);
    ctx.descriptor = Some(desc("e"));
    s.load_context(&ctx);
    assert!(!s.done);
    assert_eq!(s.descriptor.as_ref().unwrap().text, "e");
}
