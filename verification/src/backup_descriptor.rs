use vstd::prelude::*;
use vstd::string::*;
use std::collections::HashMap;
use crate::descriptor::{
    clone_descriptor_opt, descriptor_opt_view, is_same_descriptor, same_descriptor, DescriptorView,
    WalletDescriptor,
};
use crate::installer::{ContextView, InstallContext, InstallerError, KeySetting};
use crate::register_descriptor::{error_view, ErrorView};

verus! {

broadcast use vstd::std_specs::hash::group_hash_axioms;

/// `dst` holds the key settings of `src` keyed by their master fingerprints:
/// a fingerprint is a key of `dst` exactly when some setting of `src` has it,
/// and it maps to such a setting.
pub open spec fn keyed_by_fingerprint(src: Map<u32, KeySetting>, dst: Map<u32, KeySetting>) -> bool {
    &&& forall|f: u32| #[trigger] dst.contains_key(f) <==> exists|k: KeySetting|
        #[trigger] src.values().contains(k) && k.master_fingerprint == f
    &&& forall|f: u32| #[trigger] dst.contains_key(f) ==> src.values().contains(dst[f]) && dst[f].master_fingerprint == f
}

proof fn lemma_keyed_complete(vals: Seq<KeySetting>, src: Map<u32, KeySetting>, dst: Map<u32, KeySetting>, n: int)
    requires
        vals.to_set() == src.values(),
        forall|f: u32| #[trigger] dst.contains_key(f) <==> exists|j: int|
            0 <= j < n && #[trigger] vals[j].master_fingerprint == f,
        forall|f: u32| #[trigger] dst.contains_key(f) ==> exists|j: int|
            0 <= j < n && #[trigger] vals[j] == dst[f] && dst[f].master_fingerprint == f,
    ensures
        n == vals.len() ==> keyed_by_fingerprint(src, dst),
{
    if n == vals.len() {
        assert forall|f: u32| #[trigger] dst.contains_key(f) <==> exists|k: KeySetting|
            #[trigger] src.values().contains(k) && k.master_fingerprint == f by {
            if dst.contains_key(f) {
                let j = choose|j: int| 0 <= j < n && #[trigger] vals[j].master_fingerprint == f;
                assert(vals.to_set().contains(vals[j]));
            }
            if exists|k: KeySetting| #[trigger] src.values().contains(k) && k.master_fingerprint == f {
                let k = choose|k: KeySetting| #[trigger] src.values().contains(k) && k.master_fingerprint == f;
                assert(vals.to_set().contains(k));
                let j = choose|j: int| 0 <= j < vals.len() && vals[j] == k;
                assert(vals[j].master_fingerprint == f);
            }
        }
        assert forall|f: u32| #[trigger] dst.contains_key(f) implies src.values().contains(dst[f])
            && dst[f].master_fingerprint == f by {
            let j = choose|j: int| 0 <= j < n && #[trigger] vals[j] == dst[f] && dst[f].master_fingerprint == f;
            assert(vals.to_set().contains(vals[j]));
        }
    }
}

/// The key settings of `keys` keyed by their master fingerprints.
pub fn keys_by_fingerprint(keys: &HashMap<u32, KeySetting>) -> (r: HashMap<u32, KeySetting>)
    ensures
        keyed_by_fingerprint(keys@, r@),
{
    let mut r: HashMap<u32, KeySetting> = HashMap::new();
    for k in it: keys.values()
        invariant
            it.seq().unref().to_set() == keys@.values(),
            forall|f: u32| #[trigger] r@.contains_key(f) <==> exists|j: int|
                0 <= j < it.index() && #[trigger] it.seq().unref()[j].master_fingerprint == f,
            forall|f: u32| #[trigger] r@.contains_key(f) ==> exists|j: int|
                0 <= j < it.index() && #[trigger] it.seq().unref()[j] == r@[f] && r@[f].master_fingerprint == f,
            it.index() == it.seq().len() ==> keyed_by_fingerprint(keys@, r@),
    {
        let ghost vals = it.seq().unref();
        let ghost i = it.index();
        assert(*k == vals[i]);
        let ghost old_r = r@;
        r.insert(k.master_fingerprint, k.clone());
        assert forall|f: u32| #[trigger] r@.contains_key(f) <==> exists|j: int|
            0 <= j < i + 1 && #[trigger] vals[j].master_fingerprint == f by {
            if f != k.master_fingerprint && r@.contains_key(f) {
                let j = choose|j: int| 0 <= j < i && #[trigger] vals[j].master_fingerprint == f;
            }
            if exists|j: int| 0 <= j < i + 1 && #[trigger] vals[j].master_fingerprint == f {
                let j = choose|j: int| 0 <= j < i + 1 && #[trigger] vals[j].master_fingerprint == f;
                if j < i {
                    assert(old_r.contains_key(f));
                }
            }
        }
        assert forall|f: u32| #[trigger] r@.contains_key(f) implies exists|j: int|
            0 <= j < i + 1 && #[trigger] vals[j] == r@[f] && r@[f].master_fingerprint == f by {
            if f == k.master_fingerprint {
                assert(vals[i] == r@[f]);
            } else {
                assert(old_r.contains_key(f));
                let j = choose|j: int| 0 <= j < i && #[trigger] vals[j] == old_r[f] && old_r[f].master_fingerprint == f;
                assert(vals[j] == r@[f]);
            }
        }
        proof {
            lemma_keyed_complete(vals, keys@, r@, i + 1);
        }
    }
    r
}

/// The step where the user backs up the descriptor.
pub struct BackupDescriptor {
    pub done: bool,
    pub descriptor: Option<WalletDescriptor>,
    pub keys: HashMap<u32, KeySetting>,
    /// Whether the export dialog is open.
    pub modal_open: bool,
    pub error: Option<InstallerError>,
    pub context: Option<InstallContext>,
}

pub struct BackupStepView {
    pub done: bool,
    pub descriptor: Option<DescriptorView>,
    pub keys: Map<u32, KeySetting>,
    pub modal_open: bool,
    pub error: Option<ErrorView>,
    pub context: Option<ContextView>,
}

impl View for BackupDescriptor {
    type V = BackupStepView;

    open spec fn view(&self) -> BackupStepView {
        BackupStepView {
            done: self.done,
            descriptor: descriptor_opt_view(self.descriptor),
            keys: self.keys@,
            modal_open: self.modal_open,
            error: error_view(self.error),
            context: match self.context {
                Some(c) => Some(c@),
                None => None,
            },
        }
    }
}

/// What reaches the backup step.
pub enum BackupMessage {
    ImportExportClose,
    /// Any other message of the export dialog.
    ImportExport,
    /// The user asked for an encrypted backup of the descriptor.
    BackupDescriptor,
    /// The descriptor to export, or why there is none.
    ExportEncryptedDescriptor(Result<WalletDescriptor, String>),
    UserActionDone(bool),
    Other,
}

pub enum BackupMessageView {
    ImportExportClose,
    ImportExport,
    BackupDescriptor,
    ExportDescriptor(DescriptorView),
    ExportFailed(Seq<char>),
    UserActionDone(bool),
    Other,
}

impl View for BackupMessage {
    type V = BackupMessageView;

    open spec fn view(&self) -> BackupMessageView {
        match self {
            BackupMessage::ImportExportClose => BackupMessageView::ImportExportClose,
            BackupMessage::ImportExport => BackupMessageView::ImportExport,
            BackupMessage::BackupDescriptor => BackupMessageView::BackupDescriptor,
            BackupMessage::ExportEncryptedDescriptor(Ok(d)) => BackupMessageView::ExportDescriptor(d@),
            BackupMessage::ExportEncryptedDescriptor(Err(e)) => BackupMessageView::ExportFailed(e@),
            BackupMessage::UserActionDone(d) => BackupMessageView::UserActionDone(*d),
            BackupMessage::Other => BackupMessageView::Other,
        }
    }
}

/// What the backup step asks of the installer.
pub enum BackupAction {
    Nothing,
    /// Hand the message to the export dialog.
    ForwardToModal,
    /// Prepare the encrypted export of the context's descriptor, if any.
    PrepareExport(Option<WalletDescriptor>),
    /// Open the export dialog for this descriptor and start it.
    LaunchExport(WalletDescriptor),
}

pub enum BackupActionView {
    Nothing,
    ForwardToModal,
    PrepareExport(Option<DescriptorView>),
    LaunchExport(DescriptorView),
}

impl View for BackupAction {
    type V = BackupActionView;

    open spec fn view(&self) -> BackupActionView {
        match self {
            BackupAction::Nothing => BackupActionView::Nothing,
            BackupAction::ForwardToModal => BackupActionView::ForwardToModal,
            BackupAction::PrepareExport(d) => BackupActionView::PrepareExport(descriptor_opt_view(*d)),
            BackupAction::LaunchExport(d) => BackupActionView::LaunchExport(d@),
        }
    }
}

/// What a message does to the backup step.
pub open spec fn backup_update_spec(s: BackupStepView, m: BackupMessageView) -> (BackupStepView, BackupActionView) {
    match m {
        BackupMessageView::ImportExportClose => (BackupStepView { modal_open: false, ..s }, BackupActionView::Nothing),
        BackupMessageView::ImportExport => (
            s,
            if s.modal_open {
                BackupActionView::ForwardToModal
            } else {
                BackupActionView::Nothing
            },
        ),
        BackupMessageView::BackupDescriptor => (
            s,
            if !s.modal_open && s.context is Some {
                BackupActionView::PrepareExport(s.context->0.descriptor)
            } else {
                BackupActionView::Nothing
            },
        ),
        BackupMessageView::ExportDescriptor(d) => if !s.modal_open {
            (BackupStepView { modal_open: true, ..s }, BackupActionView::LaunchExport(d))
        } else {
            (s, BackupActionView::Nothing)
        },
        BackupMessageView::ExportFailed(e) => if !s.modal_open {
            (BackupStepView { error: Some(ErrorView::Backup(e)), ..s }, BackupActionView::Nothing)
        } else {
            (s, BackupActionView::Nothing)
        },
        BackupMessageView::UserActionDone(d) => (BackupStepView { done: d, ..s }, BackupActionView::Nothing),
        BackupMessageView::Other => (s, BackupActionView::Nothing),
    }
}

/// The descriptor to export, or the error `Descriptor missing` when the
/// context has none.
pub fn descriptor_for_export(descriptor: Option<WalletDescriptor>) -> (r: Result<WalletDescriptor, String>)
    ensures
        match descriptor {
            Some(d) => r matches Ok(x) && x@ == d@,
            None => r matches Err(e) && e@ == "Descriptor missing"@,
        },
{
    match descriptor {
        Some(d) => Ok(d),
        None => Err(String::from_str("Descriptor missing")),
    }
}

impl BackupDescriptor {
    /// The step before it has read a context.
    pub fn new() -> (r: BackupDescriptor)
        ensures
            r@ == (BackupStepView {
                done: false,
                descriptor: None,
                keys: Map::empty(),
                modal_open: false,
                error: None,
                context: None,
            }),
    {
        BackupDescriptor {
            done: false,
            descriptor: None,
            keys: HashMap::new(),
            modal_open: false,
            error: None,
            context: None,
        }
    }

    /// Reacts to a message.
    pub fn update(&mut self, message: BackupMessage) -> (action: BackupAction)
        ensures
            (final(self)@, action@) == backup_update_spec(old(self)@, message@),
    {
        match message {
            BackupMessage::ImportExportClose => {
                self.modal_open = false;
                BackupAction::Nothing
            },
            BackupMessage::ImportExport => {
                if self.modal_open {
                    BackupAction::ForwardToModal
                } else {
                    BackupAction::Nothing
                }
            },
            BackupMessage::BackupDescriptor => {
                if !self.modal_open {
                    if let Some(ctx) = &self.context {
                        return BackupAction::PrepareExport(clone_descriptor_opt(&ctx.descriptor));
                    }
                }
                BackupAction::Nothing
            },
            BackupMessage::ExportEncryptedDescriptor(res) => {
                if !self.modal_open {
                    match res {
                        Ok(descriptor) => {
                            self.modal_open = true;
                            BackupAction::LaunchExport(descriptor)
                        },
                        Err(e) => {
                            self.error = Some(InstallerError::Backup(e));
                            BackupAction::Nothing
                        },
                    }
                } else {
                    BackupAction::Nothing
                }
            },
            BackupMessage::UserActionDone(done) => {
                self.done = done;
                BackupAction::Nothing
            },
            BackupMessage::Other => BackupAction::Nothing,
        }
    }

    /// Reads the context: keeps a copy of it, takes its descriptor (forgetting
    /// the user's confirmation when it is a different one), and keys its key settings by
    /// master fingerprint.
    pub fn load_context(&mut self, ctx: &InstallContext)
        ensures
            final(self).context matches Some(c) && c@ == ctx@,
            descriptor_opt_view(final(self).descriptor) == ctx@.descriptor,
            final(self).done == (old(self).done && same_descriptor(old(self)@.descriptor, ctx@.descriptor)),
            keyed_by_fingerprint(ctx@.keys, final(self)@.keys),
            final(self).modal_open == old(self).modal_open,
            error_view(final(self).error) == error_view(old(self).error),
    {
        self.context = Some(ctx.clone());
        if !is_same_descriptor(&self.descriptor, &ctx.descriptor) {
            self.descriptor = clone_descriptor_opt(&ctx.descriptor);
            self.done = false;
        }
        self.keys = keys_by_fingerprint(&ctx.keys);
    }
}

/// The backup step opens at most one export dialog: an export is only
/// launched while no dialog is open, and the dialog is then open; a result
/// that arrives while a dialog is open changes nothing.
pub proof fn law_single_export_dialog(s: BackupStepView, m: BackupMessageView)
    ensures
        ({
            let (t, a) = backup_update_spec(s, m);
            &&& (a is LaunchExport ==> !s.modal_open && t.modal_open)
            &&& s.modal_open && (m is ExportDescriptor || m is ExportFailed) ==> t == s && a is Nothing
            &&& (a matches BackupActionView::PrepareExport(d) ==> (!s.modal_open && s.context is Some
                && d == s.context->0.descriptor))
        }),
{
}


/// While no export dialog is open, asking to back up the descriptor always
/// prepares the export of the context's descriptor (once a context is
/// loaded), and a prepared descriptor always opens the dialog and launches
/// its export; a failed preparation shows its error.
pub proof fn law_export_starts_when_idle(s: BackupStepView, d: DescriptorView, e: Seq<char>)
    requires
        !s.modal_open,
    ensures
        s.context is Some ==> backup_update_spec(s, BackupMessageView::BackupDescriptor) == (
            s,
            BackupActionView::PrepareExport(s.context->0.descriptor),
        ),
        backup_update_spec(s, BackupMessageView::ExportDescriptor(d)) == (
            BackupStepView { modal_open: true, ..s },
            BackupActionView::LaunchExport(d),
        ),
        backup_update_spec(s, BackupMessageView::ExportFailed(e)).0.error == Some(ErrorView::Backup(e)),
{
}

} // verus!
