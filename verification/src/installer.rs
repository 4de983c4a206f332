use vstd::prelude::*;
use vstd::string::*;
use std::collections::HashMap;
use async_hwi::DeviceKind;
use crate::descriptor::{clone_descriptor_opt, descriptor_opt_view, DescriptorView, WalletDescriptor};
use crate::settings::{clone_contacts, contacts_view_of, ContactSetting, ContactView, Network};

verus! {

broadcast use vstd::std_specs::hash::group_hash_axioms;

/// A signing key of the wallet with the name the user gave it.
pub struct KeySetting {
    pub name: String,
    pub master_fingerprint: u32,
}

impl Clone for KeySetting {
    fn clone(&self) -> (r: Self)
        ensures
            r == *self,
    {
        KeySetting { name: self.name.clone(), master_fingerprint: self.master_fingerprint }
    }
}

/// A wallet backup, as far as the installer reads it: the network it was made
/// for, the wallet's alias, and the descriptor of each account.
pub struct Backup {
    pub network: Network,
    pub alias: Option<String>,
    pub account_descriptors: Vec<String>,
}

pub struct BackupView {
    pub network: Network,
    pub alias: Option<Seq<char>>,
    pub account_descriptors: Seq<Seq<char>>,
}

impl View for Backup {
    type V = BackupView;

    open spec fn view(&self) -> BackupView {
        BackupView {
            network: self.network,
            alias: match self.alias {
                Some(a) => Some(a@),
                None => None,
            },
            account_descriptors: self.account_descriptors@.map_values(|d: String| d@),
        }
    }
}

impl Clone for Backup {
    fn clone(&self) -> (r: Self)
        ensures
            r@ == self@,
    {
        let alias = match &self.alias {
            Some(a) => Some(a.clone()),
            None => None,
        };
        let mut descs: Vec<String> = Vec::new();
        for i in 0..self.account_descriptors.len()
            invariant
                descs@ == self.account_descriptors@.take(i as int),
        {
            descs.push(self.account_descriptors[i].clone());
            assert(descs@ =~= self.account_descriptors@.take(i + 1));
        }
        assert(self.account_descriptors@.take(self.account_descriptors.len() as int) =~= self.account_descriptors@);
        Backup { network: self.network, alias, account_descriptors: descs }
    }
}

pub open spec fn backup_opt_view(b: Option<Backup>) -> Option<BackupView> {
    match b {
        Some(x) => Some(x@),
        None => None,
    }
}

/// An error of the installer's steps that is shown to the user.
pub enum InstallerError {
    /// The user refused the operation on the signing device.
    UserRefused,
    /// Another error of a signing device, with its message.
    HardwareWallet(String),
    /// An error while making the encrypted backup, with its message.
    Backup(String),
}

/// The shared state of the installer's steps, as far as the descriptor steps
/// read and write it.
pub struct InstallContext {
    pub network: Network,
    pub hw_is_used: bool,
    pub descriptor: Option<WalletDescriptor>,
    pub backup: Option<Backup>,
    pub keys: HashMap<u32, KeySetting>,
    pub wallet_alias: String,
    /// Identity signatures of descriptor keys: fingerprint to (identity key, signature), in hex.
    pub key_identity_sigs: HashMap<u32, (String, String)>,
    pub contacts: Vec<ContactSetting>,
    /// The devices the wallet was registered on, with the token each returned.
    pub hws: Vec<(DeviceKind, u32, Option<[u8; 32]>)>,
    pub remote_backend: bool,
}

pub struct ContextView {
    pub network: Network,
    pub hw_is_used: bool,
    pub descriptor: Option<DescriptorView>,
    pub backup: Option<BackupView>,
    pub keys: Map<u32, KeySetting>,
    pub wallet_alias: Seq<char>,
    pub key_identity_sigs: Map<u32, (String, String)>,
    pub contacts: Seq<ContactView>,
    pub hws: Seq<(DeviceKind, u32, Option<[u8; 32]>)>,
    pub remote_backend: bool,
}

impl View for InstallContext {
    type V = ContextView;

    open spec fn view(&self) -> ContextView {
        ContextView {
            network: self.network,
            hw_is_used: self.hw_is_used,
            descriptor: descriptor_opt_view(self.descriptor),
            backup: backup_opt_view(self.backup),
            keys: self.keys@,
            wallet_alias: self.wallet_alias@,
            key_identity_sigs: self.key_identity_sigs@,
            contacts: contacts_view_of(self.contacts@),
            hws: self.hws@,
            remote_backend: self.remote_backend,
        }
    }
}

impl Clone for InstallContext {
    fn clone(&self) -> (r: Self)
        ensures
            r@ == self@,
    {
        let backup = match &self.backup {
            Some(b) => Some(b.clone()),
            None => None,
        };
        let mut hws: Vec<(DeviceKind, u32, Option<[u8; 32]>)> = Vec::new();
        for i in 0..self.hws.len()
            invariant
                hws@ == self.hws@.take(i as int),
        {
            let (k, f, t) = self.hws[i];
            hws.push((k, f, t));
            assert(hws@ =~= self.hws@.take(i + 1));
        }
        assert(self.hws@.take(self.hws.len() as int) =~= self.hws@);
        InstallContext {
            network: self.network,
            hw_is_used: self.hw_is_used,
            descriptor: clone_descriptor_opt(&self.descriptor),
            backup,
            keys: self.keys.clone(),
            wallet_alias: self.wallet_alias.clone(),
            key_identity_sigs: self.key_identity_sigs.clone(),
            contacts: clone_contacts(&self.contacts),
            hws,
            remote_backend: self.remote_backend,
        }
    }
}

} // verus!
