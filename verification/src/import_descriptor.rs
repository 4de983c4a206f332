use vstd::prelude::*;
use vstd::string::*;
use std::collections::HashMap;
use crate::descriptor::{descriptor_opt_view, DescriptorView, WalletDescriptor};
use crate::installer::{backup_opt_view, Backup, BackupView, ContextView, InstallContext, KeySetting};
use crate::settings::Network;

verus! {

broadcast use vstd::std_specs::hash::group_hash_axioms;

/// The message given when a backup was made for another network.
pub open spec fn backup_network_not_match() -> Seq<char> {
    "Backup network do not match the selected network!"@
}

/// The message given when a decrypted backup holds no descriptor.
pub open spec fn descriptor_missing() -> Seq<char> {
    "Backup imported but descriptor missing!"@
}

/// Which dialog is shown over the descriptor import step.
#[derive(Clone, Copy, Debug, PartialEq, Eq, Structural)]
pub enum ImportModal {
    Closed,
    /// Importing a backup file.
    Export,
    /// Decrypting an encrypted backup with a device.
    Decrypt,
}

/// What parsing the descriptor text gave: nothing valid, or a descriptor and
/// whether all its extended keys are for the main network, and whether all are
/// for a test network.
pub enum DescriptorParse {
    Invalid,
    Parsed { descriptor: WalletDescriptor, mainnet_keys: bool, testnet_keys: bool },
}

pub enum ParseView {
    Invalid,
    Parsed { descriptor: DescriptorView, mainnet_keys: bool, testnet_keys: bool },
}

impl View for DescriptorParse {
    type V = ParseView;

    open spec fn view(&self) -> ParseView {
        match self {
            DescriptorParse::Invalid => ParseView::Invalid,
            DescriptorParse::Parsed { descriptor, mainnet_keys, testnet_keys } => ParseView::Parsed {
                descriptor: descriptor@,
                mainnet_keys: *mainnet_keys,
                testnet_keys: *testnet_keys,
            },
        }
    }
}

/// The step where the user imports an existing wallet's descriptor, typed or
/// from a backup.
pub struct ImportDescriptor {
    pub network: Network,
    pub wrong_network: bool,
    pub error: Option<String>,
    pub modal: ImportModal,
    pub imported_descriptor: String,
    pub descriptor_valid: bool,
    pub imported_backup: Option<Backup>,
    pub imported_aliases: Option<HashMap<u32, KeySetting>>,
}

pub struct ImportView {
    pub network: Network,
    pub wrong_network: bool,
    pub error: Option<Seq<char>>,
    pub modal: ImportModal,
    pub imported_descriptor: Seq<char>,
    pub descriptor_valid: bool,
    pub imported_backup: Option<BackupView>,
    pub imported_aliases: Option<Map<u32, KeySetting>>,
}

impl View for ImportDescriptor {
    type V = ImportView;

    open spec fn view(&self) -> ImportView {
        ImportView {
            network: self.network,
            wrong_network: self.wrong_network,
            error: match self.error {
                Some(e) => Some(e@),
                None => None,
            },
            modal: self.modal,
            imported_descriptor: self.imported_descriptor@,
            descriptor_valid: self.descriptor_valid,
            imported_backup: backup_opt_view(self.imported_backup),
            imported_aliases: match self.imported_aliases {
                Some(a) => Some(a@),
                None => None,
            },
        }
    }
}

/// The checked descriptor, and the step's state after the check: an empty text
/// is shown as valid and yields nothing; text that does not parse is shown as
/// invalid; a parsed descriptor is valid when all its keys are for the main
/// network on mainnet, or all for a test network elsewhere, and otherwise it is
/// flagged as being for the wrong network.
pub open spec fn check_descriptor_spec(s: ImportView, parse: ParseView) -> (ImportView, Option<DescriptorView>) {
    if s.imported_descriptor.len() == 0 {
        (ImportView { wrong_network: false, descriptor_valid: true, ..s }, None)
    } else {
        match parse {
            ParseView::Invalid => (ImportView { wrong_network: false, descriptor_valid: false, ..s }, None),
            ParseView::Parsed { descriptor, mainnet_keys, testnet_keys } => {
                let valid = if s.network == Network::Bitcoin {
                    mainnet_keys
                } else {
                    testnet_keys
                };
                if valid {
                    (ImportView { wrong_network: false, descriptor_valid: true, ..s }, Some(descriptor))
                } else {
                    (ImportView { wrong_network: true, descriptor_valid: false, ..s }, None)
                }
            },
        }
    }
}

/// What reaches the descriptor import step.
pub enum ImportMessage {
    /// The user typed a descriptor; the second field is what parsing it gave.
    DescriptorEdited(String, DescriptorParse),
    ImportBackup,
    ImportExportClose,
    /// A wallet read from a backup file: the descriptor's text, the network the
    /// backup names if any, the key aliases and the backup.
    WalletFromBackup {
        descriptor: String,
        network: Option<Network>,
        aliases: HashMap<u32, KeySetting>,
        backup: Backup,
    },
    /// An encrypted backup file was read.
    EncryptedFile(Vec<u8>),
    /// Any other message of the import dialog.
    ImportExport,
    HardwareWalletUpdate,
    DecryptClose,
    /// A backup decrypted with a device.
    DecryptBackup(Backup),
    /// Any other message of the decryption dialog.
    Decrypt,
    Other,
}

pub enum ImportMessageView {
    DescriptorEdited(Seq<char>, ParseView),
    ImportBackup,
    ImportExportClose,
    WalletFromBackup {
        descriptor: Seq<char>,
        network: Option<Network>,
        aliases: Map<u32, KeySetting>,
        backup: BackupView,
    },
    EncryptedFile(Seq<u8>),
    ImportExport,
    HardwareWalletUpdate,
    DecryptClose,
    DecryptBackup(BackupView),
    Decrypt,
    Other,
}

impl View for ImportMessage {
    type V = ImportMessageView;

    open spec fn view(&self) -> ImportMessageView {
        match self {
            ImportMessage::DescriptorEdited(d, p) => ImportMessageView::DescriptorEdited(d@, p@),
            ImportMessage::ImportBackup => ImportMessageView::ImportBackup,
            ImportMessage::ImportExportClose => ImportMessageView::ImportExportClose,
            ImportMessage::WalletFromBackup { descriptor, network, aliases, backup } =>
                ImportMessageView::WalletFromBackup {
                    descriptor: descriptor@,
                    network: *network,
                    aliases: aliases@,
                    backup: backup@,
                },
            ImportMessage::EncryptedFile(b) => ImportMessageView::EncryptedFile(b@),
            ImportMessage::ImportExport => ImportMessageView::ImportExport,
            ImportMessage::HardwareWalletUpdate => ImportMessageView::HardwareWalletUpdate,
            ImportMessage::DecryptClose => ImportMessageView::DecryptClose,
            ImportMessage::DecryptBackup(b) => ImportMessageView::DecryptBackup(b@),
            ImportMessage::Decrypt => ImportMessageView::Decrypt,
            ImportMessage::Other => ImportMessageView::Other,
        }
    }
}

/// What the step asks of the installer after a message.
pub enum ImportAction {
    Nothing,
    /// Open the dialog that imports a backup file, and start it.
    LaunchImport,
    /// Open the dialog that decrypts these bytes with a device.
    OpenDecrypt(Vec<u8>),
    /// Hand the message to the open dialog.
    ForwardToModal,
    /// Tell the decryption dialog that the devices changed.
    UpdateDecryptDevices,
}

pub enum ImportActionView {
    Nothing,
    LaunchImport,
    OpenDecrypt(Seq<u8>),
    ForwardToModal,
    UpdateDecryptDevices,
}

impl View for ImportAction {
    type V = ImportActionView;

    open spec fn view(&self) -> ImportActionView {
        match self {
            ImportAction::Nothing => ImportActionView::Nothing,
            ImportAction::LaunchImport => ImportActionView::LaunchImport,
            ImportAction::OpenDecrypt(b) => ImportActionView::OpenDecrypt(b@),
            ImportAction::ForwardToModal => ImportActionView::ForwardToModal,
            ImportAction::UpdateDecryptDevices => ImportActionView::UpdateDecryptDevices,
        }
    }
}

/// A backup's network fits the step's: mainnet with mainnet, any test network
/// with any test network.
pub open spec fn networks_match(step: Network, backup: Network) -> bool {
    if step == Network::Bitcoin {
        backup == Network::Bitcoin
    } else {
        backup != Network::Bitcoin
    }
}

/// What a message does to the descriptor import step.
pub open spec fn import_update_spec(s: ImportView, m: ImportMessageView) -> (ImportView, ImportActionView) {
    match m {
        ImportMessageView::DescriptorEdited(d, parse) => {
            let cleared = if d != s.imported_descriptor {
                ImportView { imported_backup: None, imported_aliases: None, ..s }
            } else {
                s
            };
            (check_descriptor_spec(ImportView { imported_descriptor: d, ..cleared }, parse).0, ImportActionView::Nothing)
        },
        ImportMessageView::ImportBackup => (
            ImportView { imported_backup: None, modal: ImportModal::Export, ..s },
            ImportActionView::LaunchImport,
        ),
        ImportMessageView::ImportExportClose => (ImportView { modal: ImportModal::Closed, ..s }, ImportActionView::Nothing),
        ImportMessageView::WalletFromBackup { descriptor, network, aliases, backup } => {
            let accepted = match network {
                Some(n) => s.network == n,
                None => s.network != Network::Bitcoin,
            };
            if accepted {
                (
                    ImportView {
                        imported_backup: Some(backup),
                        imported_descriptor: descriptor,
                        imported_aliases: Some(aliases),
                        ..s
                    },
                    ImportActionView::Nothing,
                )
            } else {
                (ImportView { error: Some(backup_network_not_match()), ..s }, ImportActionView::Nothing)
            }
        },
        ImportMessageView::EncryptedFile(b) => (
            ImportView { modal: ImportModal::Decrypt, ..s },
            ImportActionView::OpenDecrypt(b),
        ),
        ImportMessageView::ImportExport => (s, ImportActionView::ForwardToModal),
        ImportMessageView::HardwareWalletUpdate => (
            s,
            if s.modal == ImportModal::Decrypt {
                ImportActionView::UpdateDecryptDevices
            } else {
                ImportActionView::Nothing
            },
        ),
        ImportMessageView::DecryptClose => (
            if s.modal == ImportModal::Decrypt {
                ImportView { modal: ImportModal::Closed, ..s }
            } else {
                s
            },
            ImportActionView::Nothing,
        ),
        ImportMessageView::DecryptBackup(backup) => {
            if backup.account_descriptors.len() > 0 {
                if networks_match(s.network, backup.network) {
                    (
                        ImportView {
                            imported_descriptor: backup.account_descriptors[0],
                            imported_backup: Some(BackupView { network: s.network, ..backup }),
                            imported_aliases: None,
                            modal: ImportModal::Closed,
                            ..s
                        },
                        ImportActionView::Nothing,
                    )
                } else {
                    (
                        ImportView { modal: ImportModal::Closed, error: Some(backup_network_not_match()), ..s },
                        ImportActionView::Nothing,
                    )
                }
            } else {
                (
                    ImportView { modal: ImportModal::Closed, error: Some(descriptor_missing()), ..s },
                    ImportActionView::Nothing,
                )
            }
        },
        ImportMessageView::Decrypt => (s, ImportActionView::ForwardToModal),
        ImportMessageView::Other => (s, ImportActionView::Nothing),
    }
}

/// The context after the import step is applied, and whether it was: the
/// network is set and a device is marked as used in any case; then the checked
/// descriptor, the backup, the aliases and the backup's alias are stored when
/// there is a valid descriptor.
pub open spec fn import_apply_spec(s: ImportView, ctx: ContextView, parse: ParseView) -> (ImportView, ContextView, bool) {
    let ctx1 = ContextView { network: s.network, hw_is_used: true, ..ctx };
    let (s1, desc) = check_descriptor_spec(s, parse);
    match desc {
        None => (s1, ctx1, false),
        Some(d) => {
            let ctx2 = ContextView {
                descriptor: Some(d),
                backup: if s.imported_backup is Some {
                    s.imported_backup
                } else {
                    ctx1.backup
                },
                keys: match s.imported_aliases {
                    Some(a) => a,
                    None => ctx1.keys,
                },
                wallet_alias: match s.imported_backup {
                    Some(b) => match b.alias {
                        Some(a) => a,
                        None => ctx1.wallet_alias,
                    },
                    None => ctx1.wallet_alias,
                },
                ..ctx1
            };
            (s1, ctx2, true)
        },
    }
}

impl ImportDescriptor {
    pub fn new(network: Network) -> (r: ImportDescriptor)
        ensures
            r@ == (ImportView {
                network,
                wrong_network: false,
                error: None,
                modal: ImportModal::Closed,
                imported_descriptor: Seq::empty(),
                descriptor_valid: true,
                imported_backup: None,
                imported_aliases: None,
            }),
    {
        ImportDescriptor {
            network,
            imported_descriptor: String::new(),
            descriptor_valid: true,
            wrong_network: false,
            error: None,
            modal: ImportModal::Closed,
            imported_backup: None,
            imported_aliases: None,
        }
    }

    /// Checks the descriptor text against what parsing it gave (`parse` must be
    /// the parse of the current text) and updates the validity flags.
    pub fn check_descriptor(&mut self, parse: DescriptorParse) -> (r: Option<WalletDescriptor>)
        ensures
            (final(self)@, descriptor_opt_view(r)) == check_descriptor_spec(old(self)@, parse@),
    {
        if !self.imported_descriptor.as_str().is_empty() {
            match parse {
                DescriptorParse::Parsed { descriptor, mainnet_keys, testnet_keys } => {
                    self.descriptor_valid = if self.network == Network::Bitcoin {
                        mainnet_keys
                    } else {
                        testnet_keys
                    };
                    if self.descriptor_valid {
                        self.wrong_network = false;
                        Some(descriptor)
                    } else {
                        self.wrong_network = true;
                        None
                    }
                },
                DescriptorParse::Invalid => {
                    self.descriptor_valid = false;
                    self.wrong_network = false;
                    None
                },
            }
        } else {
            self.wrong_network = false;
            self.descriptor_valid = true;
            None
        }
    }

    /// The step is skipped when the wallet is imported from a remote backend.
    pub fn skip(&self, ctx: &InstallContext) -> (r: bool)
        ensures
            r == ctx.remote_backend,
    {
        ctx.remote_backend
    }

    /// Reacts to a message.
    pub fn update(&mut self, message: ImportMessage) -> (action: ImportAction)
        ensures
            (final(self)@, action@) == import_update_spec(old(self)@, message@),
    {
        match message {
            ImportMessage::DescriptorEdited(desc, parse) => {
                // A descriptor changed by hand no longer comes from the imported backup.
                if desc != self.imported_descriptor {
                    self.imported_backup = None;
                    self.imported_aliases = None;
                }
                self.imported_descriptor = desc;
                self.check_descriptor(parse);
                ImportAction::Nothing
            },
            ImportMessage::ImportBackup => {
                self.imported_backup = None;
                self.modal = ImportModal::Export;
                ImportAction::LaunchImport
            },
            ImportMessage::ImportExportClose => {
                self.modal = ImportModal::Closed;
                ImportAction::Nothing
            },
            ImportMessage::WalletFromBackup { descriptor, network, aliases, backup } => {
                let accepted = match network {
                    Some(n) => self.network == n,
                    // A backup inferred from a bare descriptor fits any test network.
                    None => self.network != Network::Bitcoin,
                };
                if accepted {
                    self.imported_backup = Some(backup);
                    self.imported_descriptor = descriptor;
                    self.imported_aliases = Some(aliases);
                } else {
                    self.error = Some(String::from_str("Backup network do not match the selected network!"));
                }
                ImportAction::Nothing
            },
            ImportMessage::EncryptedFile(bytes) => {
                self.modal = ImportModal::Decrypt;
                ImportAction::OpenDecrypt(bytes)
            },
            ImportMessage::ImportExport => ImportAction::ForwardToModal,
            ImportMessage::HardwareWalletUpdate => {
                if self.modal == ImportModal::Decrypt {
                    ImportAction::UpdateDecryptDevices
                } else {
                    ImportAction::Nothing
                }
            },
            ImportMessage::DecryptClose => {
                if self.modal == ImportModal::Decrypt {
                    self.modal = ImportModal::Closed;
                }
                ImportAction::Nothing
            },
            ImportMessage::DecryptBackup(backup) => {
                self.decrypted_backup(backup);
                ImportAction::Nothing
            },
            ImportMessage::Decrypt => ImportAction::ForwardToModal,
            ImportMessage::Other => ImportAction::Nothing,
        }
    }

    fn decrypted_backup(&mut self, backup: Backup)
        ensures
            final(self)@ == import_update_spec(old(self)@, ImportMessageView::DecryptBackup(backup@)).0,
    {
        let mut backup = backup;
        if backup.account_descriptors.len() > 0 {
            let network_matches = if self.network == Network::Bitcoin {
                backup.network == Network::Bitcoin
            } else {
                backup.network != Network::Bitcoin
            };
            if network_matches {
                let desc = backup.account_descriptors[0].clone();
                // Keys of test networks parse as signet keys: keep the step's network.
                backup.network = self.network;
                self.imported_descriptor = desc;
                self.imported_backup = Some(backup);
                self.imported_aliases = None;
                self.modal = ImportModal::Closed;
            } else {
                self.modal = ImportModal::Closed;
                self.error = Some(String::from_str("Backup network do not match the selected network!"));
            }
        } else {
            self.modal = ImportModal::Closed;
            self.error = Some(String::from_str("Backup imported but descriptor missing!"));
        }
    }

    /// Stores the checked descriptor and what came with it into the context;
    /// `parse` must be the parse of the current descriptor text.
    pub fn apply(&mut self, ctx: &mut InstallContext, parse: DescriptorParse) -> (r: bool)
        ensures
            (final(self)@, final(ctx)@, r) == import_apply_spec(old(self)@, old(ctx)@, parse@),
    {
        ctx.network = self.network;
        // The registration step is always shown.
        ctx.hw_is_used = true;
        match self.check_descriptor(parse) {
            Some(desc) => {
                ctx.descriptor = Some(desc);
            },
            None => {
                return false;
            },
        }
        if let Some(backup) = &self.imported_backup {
            ctx.backup = Some(backup.clone());
        }
        if let Some(aliases) = &self.imported_aliases {
            ctx.keys = aliases.clone();
        }
        if let Some(backup) = &self.imported_backup {
            if let Some(alias) = &backup.alias {
                ctx.wallet_alias = alias.clone();
            }
        }
        true
    }

    /// Forgets what the step put into the context.
    pub fn revert(&self, ctx: &mut InstallContext)
        ensures
            final(ctx)@ == import_revert_spec(old(ctx)@),
    {
        ctx.keys = HashMap::new();
        ctx.backup = None;
        ctx.descriptor = None;
        ctx.wallet_alias = String::new();
    }
}

/// The context after the import step's contributions are forgotten.
pub open spec fn import_revert_spec(ctx: ContextView) -> ContextView {
    ContextView { keys: Map::empty(), backup: None, descriptor: None, wallet_alias: Seq::empty(), ..ctx }
}

/// A descriptor flagged as being for the wrong network is never shown as valid.
pub open spec fn import_flags_consistent(s: ImportView) -> bool {
    s.wrong_network ==> !s.descriptor_valid
}

/// The import step never shows a descriptor both as valid and as being for
/// the wrong network, whatever message it gets; and a descriptor is only
/// handed on after a check that shows it as valid for the step's network.
pub proof fn law_import_flags(s: ImportView, m: ImportMessageView, p: ParseView)
    requires
        import_flags_consistent(s),
    ensures
        import_flags_consistent(import_update_spec(s, m).0),
        import_flags_consistent(check_descriptor_spec(s, p).0),
        check_descriptor_spec(s, p).1 is Some ==> {
            let t = check_descriptor_spec(s, p).0;
            &&& t.descriptor_valid
            &&& !t.wrong_network
            &&& p matches ParseView::Parsed { mainnet_keys, testnet_keys, .. }
                && (if s.network == Network::Bitcoin { mainnet_keys } else { testnet_keys })
        },
{
}

/// Editing the descriptor by hand detaches it from an imported backup: the
/// backup and the key aliases that came with it are dropped.
pub proof fn law_hand_edit_drops_backup(s: ImportView, d: Seq<char>, p: ParseView)
    requires
        d != s.imported_descriptor,
    ensures
        import_update_spec(s, ImportMessageView::DescriptorEdited(d, p)).0.imported_backup is None,
        import_update_spec(s, ImportMessageView::DescriptorEdited(d, p)).0.imported_aliases is None,
        import_update_spec(s, ImportMessageView::DescriptorEdited(d, p)).0.imported_descriptor == d,
{
}

/// A backup is only taken in when its network fits the step's, and a
/// decrypted backup then carries the step's network; a backup that does not
/// fit leaves the imported one as it was.
pub proof fn law_imported_backup_network(s: ImportView, m: ImportMessageView)
    ensures
        ({
            let t = import_update_spec(s, m).0;
            &&& (m matches ImportMessageView::DecryptBackup(b) ==> (t.imported_backup != s.imported_backup ==> {
                &&& networks_match(s.network, b.network)
                &&& t.imported_backup->0.network == s.network
            }))
            &&& (m matches ImportMessageView::WalletFromBackup { network: Some(n), .. } ==> (t.imported_backup
                != s.imported_backup ==> n == s.network))
        }),
{
}

/// Reverting the import step after applying it leaves the context with no
/// descriptor, backup, key aliases or wallet alias; only the network and the
/// use of a device set by applying remain.
pub proof fn law_revert_undoes_apply(s: ImportView, ctx: ContextView, p: ParseView)
    ensures
        import_revert_spec(import_apply_spec(s, ctx, p).1) == import_revert_spec(
            ContextView { network: s.network, hw_is_used: true, ..ctx },
        ),
{
}


/// Applying the import step succeeds exactly when a descriptor was typed or
/// imported, it parses, and all its keys are for the step's network kind
/// (main network on mainnet, a test network elsewhere), whether or not it came
/// with a backup. On success the context holds that parsed descriptor, and
/// the backup, the key aliases and the backup's wallet alias when the step
/// has them (keeping the context's otherwise); on failure only the network
/// and the use of a device are set. Either way nothing else changes.
pub proof fn law_apply_hands_on_descriptor(s: ImportView, ctx: ContextView, p: ParseView)
    ensures
        ({
            let (t, c, ok) = import_apply_spec(s, ctx, p);
            &&& ok <==> {
                &&& s.imported_descriptor.len() > 0
                &&& p matches ParseView::Parsed { mainnet_keys, testnet_keys, .. }
                &&& if s.network == Network::Bitcoin { mainnet_keys } else { testnet_keys }
            }
            &&& c.network == s.network
            &&& c.hw_is_used
            &&& ok ==> (p matches ParseView::Parsed { descriptor, .. } && c.descriptor == Some(descriptor))
            &&& ok ==> c.backup == (if s.imported_backup is Some { s.imported_backup } else { ctx.backup })
            &&& ok ==> c.keys == (match s.imported_aliases { Some(a) => a, None => ctx.keys })
            &&& ok ==> c.wallet_alias == (match s.imported_backup {
                Some(b) => match b.alias { Some(a) => a, None => ctx.wallet_alias },
                None => ctx.wallet_alias,
            })
            &&& !ok ==> c == (ContextView { network: s.network, hw_is_used: true, ..ctx })
            &&& c.key_identity_sigs == ctx.key_identity_sigs
            &&& c.contacts == ctx.contacts
            &&& c.hws == ctx.hws
            &&& c.remote_backend == ctx.remote_backend
            &&& t.imported_descriptor == s.imported_descriptor
            &&& t.imported_backup == s.imported_backup
        }),
{
}


/// A typed descriptor is kept as typed and shown as valid exactly when it is
/// empty or parses with all its keys for the step's network kind; it is
/// flagged as being for the wrong network exactly when it parses with keys
/// that are not.
pub proof fn law_edited_descriptor_checked(s: ImportView, d: Seq<char>, p: ParseView)
    ensures
        ({
            let t = import_update_spec(s, ImportMessageView::DescriptorEdited(d, p)).0;
            let right_keys = p matches ParseView::Parsed { mainnet_keys, testnet_keys, .. }
                && (if s.network == Network::Bitcoin { mainnet_keys } else { testnet_keys });
            &&& t.imported_descriptor == d
            &&& t.descriptor_valid <==> (d.len() == 0 || right_keys)
            &&& t.wrong_network <==> (d.len() > 0 && p is Parsed && !right_keys)
            &&& t.network == s.network
        }),
{
}

/// A backup decrypted with a device that holds a descriptor and names a
/// network of the step's kind is always taken in: its first descriptor
/// becomes the step's, the backup is kept under the step's network, earlier
/// aliases are dropped and the dialog closes. A backup without a descriptor
/// or of the other kind only closes the dialog and reports why.
pub proof fn law_decrypted_backup_taken_in(s: ImportView, b: BackupView)
    ensures
        ({
            let (t, a) = import_update_spec(s, ImportMessageView::DecryptBackup(b));
            &&& a == ImportActionView::Nothing
            &&& t.modal == ImportModal::Closed
            &&& b.account_descriptors.len() > 0 && networks_match(s.network, b.network) ==> {
                &&& t.imported_descriptor == b.account_descriptors[0]
                &&& t.imported_backup == Some(BackupView { network: s.network, ..b })
                &&& t.imported_aliases is None
                &&& t.error == s.error
            }
            &&& b.account_descriptors.len() == 0 ==> t == ImportView {
                modal: ImportModal::Closed,
                error: Some(descriptor_missing()),
                ..s
            }
            &&& b.account_descriptors.len() > 0 && !networks_match(s.network, b.network) ==> t == ImportView {
                modal: ImportModal::Closed,
                error: Some(backup_network_not_match()),
                ..s
            }
        }),
{
}

/// A wallet read from a backup file is taken in, with its descriptor, aliases
/// and backup, exactly when the network it names is the step's (a backup
/// naming none is taken for a test network); otherwise only the error is
/// shown.
pub proof fn law_wallet_from_backup(s: ImportView, d: Seq<char>, n: Option<Network>, al: Map<u32, KeySetting>, b: BackupView)
    ensures
        ({
            let t = import_update_spec(s, ImportMessageView::WalletFromBackup {
                descriptor: d,
                network: n,
                aliases: al,
                backup: b,
            }).0;
            let accepted = match n {
                Some(n) => n == s.network,
                None => s.network != Network::Bitcoin,
            };
            &&& accepted ==> t == ImportView {
                imported_backup: Some(b),
                imported_descriptor: d,
                imported_aliases: Some(al),
                ..s
            }
            &&& !accepted ==> t == ImportView { error: Some(backup_network_not_match()), ..s }
        }),
{
}

} // verus!
