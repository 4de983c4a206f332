use vstd::prelude::*;
use std::collections::{HashMap, HashSet};
use async_hwi::DeviceKind;
use crate::descriptor::{
    clone_descriptor_opt, descriptor_opt_view, is_same_descriptor, same_descriptor, DescriptorView,
    WalletDescriptor,
};
use crate::hw::{hw_fingerprint, hw_kind, HardwareWallet};
use crate::installer::{ContextView, InstallContext, InstallerError};
use crate::settings::{clone_contacts, contacts_view_of, ContactSetting, ContactView};

verus! {

broadcast use vstd::std_specs::hash::group_hash_axioms;

/// The step where the wallet is registered on the user's signing devices.
pub struct RegisterDescriptor {
    pub descriptor: Option<WalletDescriptor>,
    pub processing: bool,
    pub chosen_hw: Option<usize>,
    /// The devices registered on: fingerprint, kind and the token returned.
    pub hmacs: Vec<(u32, DeviceKind, Option<[u8; 32]>)>,
    pub registered: HashSet<u32>,
    pub error: Option<InstallerError>,
    pub done: bool,
    /// Whether the step belongs to creating a descriptor rather than importing one.
    pub created_desc: bool,
    /// Identity signatures of descriptor keys: fingerprint to (identity key, signature), in hex.
    pub key_identity_sigs: HashMap<u32, (String, String)>,
    /// Contacts with registered identity keys for the wallet.
    pub contacts: Vec<ContactSetting>,
}

pub enum ErrorView {
    UserRefused,
    HardwareWallet(Seq<char>),
    Backup(Seq<char>),
}

pub open spec fn error_view(e: Option<InstallerError>) -> Option<ErrorView> {
    match e {
        Some(InstallerError::UserRefused) => Some(ErrorView::UserRefused),
        Some(InstallerError::HardwareWallet(s)) => Some(ErrorView::HardwareWallet(s@)),
        Some(InstallerError::Backup(s)) => Some(ErrorView::Backup(s@)),
        None => None,
    }
}

pub struct RegisterView {
    pub descriptor: Option<DescriptorView>,
    pub processing: bool,
    pub chosen_hw: Option<usize>,
    pub hmacs: Seq<(u32, DeviceKind, Option<[u8; 32]>)>,
    pub registered: Set<u32>,
    pub error: Option<ErrorView>,
    pub done: bool,
    pub created_desc: bool,
    pub key_identity_sigs: Map<u32, (String, String)>,
    pub contacts: Seq<ContactView>,
}

impl View for RegisterDescriptor {
    type V = RegisterView;

    open spec fn view(&self) -> RegisterView {
        RegisterView {
            descriptor: descriptor_opt_view(self.descriptor),
            processing: self.processing,
            chosen_hw: self.chosen_hw,
            hmacs: self.hmacs@,
            registered: self.registered@,
            error: error_view(self.error),
            done: self.done,
            created_desc: self.created_desc,
            key_identity_sigs: self.key_identity_sigs@,
            contacts: contacts_view_of(self.contacts@),
        }
    }
}

/// What reaches the registration step.
pub enum RegisterMessage {
    /// The user chose the device at this index of the device list.
    Select(usize),
    /// A registration finished: the device's fingerprint and token, or the error.
    WalletRegistered(Result<(u32, Option<[u8; 32]>), InstallerError>),
    Reload,
    UserActionDone(bool),
    Other,
}

pub enum RegisterMessageView {
    Select(usize),
    Registered(u32, Option<[u8; 32]>),
    Failed(ErrorView),
    Reload,
    UserActionDone(bool),
    Other,
}

impl View for RegisterMessage {
    type V = RegisterMessageView;

    open spec fn view(&self) -> RegisterMessageView {
        match self {
            RegisterMessage::Select(i) => RegisterMessageView::Select(*i),
            RegisterMessage::WalletRegistered(Ok((f, t))) => RegisterMessageView::Registered(*f, *t),
            RegisterMessage::WalletRegistered(Err(e)) => RegisterMessageView::Failed(error_view(Some(*e))->0),
            RegisterMessage::Reload => RegisterMessageView::Reload,
            RegisterMessage::UserActionDone(d) => RegisterMessageView::UserActionDone(*d),
            RegisterMessage::Other => RegisterMessageView::Other,
        }
    }
}

/// What the step asks of the installer after a message.
pub enum RegisterAction {
    Nothing,
    /// Register the wallet on the device at `hw_index`, whose fingerprint is
    /// `fingerprint`, with the identity signatures and contacts known.
    RegisterWallet {
        hw_index: usize,
        fingerprint: u32,
        descriptor: WalletDescriptor,
        key_identity_sigs: HashMap<u32, (String, String)>,
        contacts: Vec<ContactSetting>,
    },
}

pub enum RegisterActionView {
    Nothing,
    RegisterWallet {
        hw_index: usize,
        fingerprint: u32,
        descriptor: DescriptorView,
        key_identity_sigs: Map<u32, (String, String)>,
        contacts: Seq<ContactView>,
    },
}

impl View for RegisterAction {
    type V = RegisterActionView;

    open spec fn view(&self) -> RegisterActionView {
        match self {
            RegisterAction::Nothing => RegisterActionView::Nothing,
            RegisterAction::RegisterWallet { hw_index, fingerprint, descriptor, key_identity_sigs, contacts } =>
                RegisterActionView::RegisterWallet {
                    hw_index: *hw_index,
                    fingerprint: *fingerprint,
                    descriptor: descriptor@,
                    key_identity_sigs: key_identity_sigs@,
                    contacts: contacts_view_of(contacts@),
                },
        }
    }
}

/// The position of the first device with fingerprint `fp`.
pub open spec fn device_with_fingerprint(hws: Seq<HardwareWallet>, fp: u32) -> Option<int> {
    if exists|j: int| 0 <= j < hws.len() && hw_fingerprint(hws[j]) == Some(fp) {
        Some(choose|j: int|
            0 <= j < hws.len() && hw_fingerprint(hws[j]) == Some(fp)
                && forall|k: int| 0 <= k < j ==> hw_fingerprint(hws[k]) != Some(fp))
    } else {
        None
    }
}

proof fn first_device_from(hws: Seq<HardwareWallet>, fp: u32, j0: int) -> (j: int)
    requires
        0 <= j0 < hws.len(),
        hw_fingerprint(hws[j0]) == Some(fp),
    ensures
        0 <= j <= j0,
        hw_fingerprint(hws[j]) == Some(fp),
        forall|k: int| 0 <= k < j ==> hw_fingerprint(hws[k]) != Some(fp),
    decreases j0,
{
    if exists|k: int| 0 <= k < j0 && hw_fingerprint(hws[k]) == Some(fp) {
        let k = choose|k: int| 0 <= k < j0 && hw_fingerprint(hws[k]) == Some(fp);
        first_device_from(hws, fp, k)
    } else {
        j0
    }
}

/// The first device with fingerprint `fp` exists exactly when some device has
/// it; it is then in range, has that fingerprint, and no earlier one has.
pub proof fn lemma_device_with_fingerprint(hws: Seq<HardwareWallet>, fp: u32)
    ensures
        match device_with_fingerprint(hws, fp) {
            Some(j) => 0 <= j < hws.len() && hw_fingerprint(hws[j]) == Some(fp)
                && forall|k: int| 0 <= k < j ==> hw_fingerprint(hws[k]) != Some(fp),
            None => forall|j: int| 0 <= j < hws.len() ==> hw_fingerprint(hws[j]) != Some(fp),
        },
{
    if exists|j: int| 0 <= j < hws.len() && hw_fingerprint(hws[j]) == Some(fp) {
        let j0 = choose|j: int| 0 <= j < hws.len() && hw_fingerprint(hws[j]) == Some(fp);
        let j = first_device_from(hws, fp, j0);
        assert(0 <= j < hws.len() && hw_fingerprint(hws[j]) == Some(fp)
            && forall|k: int| 0 <= k < j ==> hw_fingerprint(hws[k]) != Some(fp));
    }
}

/// The device choice needs the descriptor: selecting a supported device on
/// which the wallet is not registered yet is only possible once it is known.
pub open spec fn register_update_defined(s: RegisterView, hws: Seq<HardwareWallet>, m: RegisterMessageView) -> bool {
    m matches RegisterMessageView::Select(i) && i < hws.len() && hws[i as int] is Supported
        && !s.registered.contains(hws[i as int]->Supported_fingerprint) ==> s.descriptor is Some
}

/// What a message does to the registration step.
pub open spec fn register_update_spec(s: RegisterView, hws: Seq<HardwareWallet>, m: RegisterMessageView) -> (RegisterView, RegisterActionView) {
    match m {
        RegisterMessageView::Select(i) => {
            if i < hws.len() && hws[i as int] is Supported
                && !s.registered.contains(hws[i as int]->Supported_fingerprint) {
                (
                    RegisterView { chosen_hw: Some(i), processing: true, error: None, ..s },
                    RegisterActionView::RegisterWallet {
                        hw_index: i,
                        fingerprint: hws[i as int]->Supported_fingerprint,
                        descriptor: s.descriptor->0,
                        key_identity_sigs: s.key_identity_sigs,
                        contacts: s.contacts,
                    },
                )
            } else {
                (s, RegisterActionView::Nothing)
            }
        },
        RegisterMessageView::Registered(fp, token) => {
            let s1 = RegisterView { processing: false, chosen_hw: None, ..s };
            match device_with_fingerprint(hws, fp) {
                Some(j) => (
                    RegisterView {
                        registered: s1.registered.insert(fp),
                        hmacs: s1.hmacs.push((fp, hw_kind(hws[j]), token)),
                        ..s1
                    },
                    RegisterActionView::Nothing,
                ),
                None => (s1, RegisterActionView::Nothing),
            }
        },
        RegisterMessageView::Failed(e) => {
            let s1 = RegisterView { processing: false, chosen_hw: None, ..s };
            (
                if e is UserRefused {
                    s1
                } else {
                    RegisterView { error: Some(e), ..s1 }
                },
                RegisterActionView::Nothing,
            )
        },
        RegisterMessageView::Reload => (s, RegisterActionView::Nothing),
        RegisterMessageView::UserActionDone(d) => (RegisterView { done: d, ..s }, RegisterActionView::Nothing),
        RegisterMessageView::Other => (s, RegisterActionView::Nothing),
    }
}

/// The step after reading the context: a different descriptor forgets the
/// devices registered so far and the user's confirmation; the descriptor,
/// identity signatures and contacts are taken from the context.
pub open spec fn register_load_spec(s: RegisterView, ctx: ContextView) -> RegisterView {
    let s1 = if !same_descriptor(s.descriptor, ctx.descriptor) {
        RegisterView { registered: Set::empty(), done: false, ..s }
    } else {
        s
    };
    RegisterView {
        descriptor: ctx.descriptor,
        key_identity_sigs: ctx.key_identity_sigs,
        contacts: ctx.contacts,
        ..s1
    }
}

/// The registered devices as the context lists them: kind, fingerprint, token.
pub open spec fn hmacs_as_context(h: Seq<(u32, DeviceKind, Option<[u8; 32]>)>) -> Seq<(DeviceKind, u32, Option<[u8; 32]>)> {
    h.map_values(|e: (u32, DeviceKind, Option<[u8; 32]>)| (e.1, e.0, e.2))
}

/// The position of the first device with fingerprint `fp`.
fn find_device(hws: &[HardwareWallet], fp: u32) -> (r: Option<usize>)
    ensures
        match device_with_fingerprint(hws@, fp) {
            Some(j) => r matches Some(k) && k as int == j,
            None => r is None,
        },
        r matches Some(k) ==> k < hws@.len(),
{
    let mut j: usize = 0;
    while j < hws.len()
        invariant
            j <= hws@.len(),
            forall|k: int| 0 <= k < j ==> hw_fingerprint(hws@[k]) != Some(fp),
        decreases hws@.len() - j,
    {
        if hws[j].fingerprint() == Some(fp) {
            proof {
                let w = choose|w: int|
                    0 <= w < hws@.len() && hw_fingerprint(hws@[w]) == Some(fp)
                        && forall|k: int| 0 <= k < w ==> hw_fingerprint(hws@[k]) != Some(fp);
                assert(hw_fingerprint(hws@[j as int]) == Some(fp));
                if w < j {
                    assert(hw_fingerprint(hws@[w]) != Some(fp));
                } else if w > j {
                    assert(hw_fingerprint(hws@[j as int]) != Some(fp));
                }
            }
            return Some(j);
        }
        j = j + 1;
    }
    assert(device_with_fingerprint(hws@, fp) is None);
    None
}

impl RegisterDescriptor {
    fn new(created_desc: bool) -> (r: RegisterDescriptor)
        ensures
            r@ == (RegisterView {
                descriptor: None,
                processing: false,
                chosen_hw: None,
                hmacs: Seq::empty(),
                registered: Set::empty(),
                error: None,
                done: false,
                created_desc,
                key_identity_sigs: Map::empty(),
                contacts: Seq::empty(),
            }),
    {
        let contacts: Vec<ContactSetting> = Vec::new();
        assert(contacts_view_of(contacts@) =~= Seq::<ContactView>::empty());
        RegisterDescriptor {
            created_desc,
            descriptor: None,
            processing: false,
            chosen_hw: None,
            hmacs: Vec::new(),
            registered: HashSet::new(),
            error: None,
            done: false,
            key_identity_sigs: HashMap::new(),
            contacts,
        }
    }

    /// The step as part of creating a new descriptor.
    pub fn new_create_wallet() -> (r: RegisterDescriptor)
        ensures
            r@ == RegisterDescriptor::new_spec(true),
    {
        Self::new(true)
    }

    /// The step as part of importing a descriptor.
    pub fn new_import_wallet() -> (r: RegisterDescriptor)
        ensures
            r@ == RegisterDescriptor::new_spec(false),
    {
        Self::new(false)
    }

    pub open spec fn new_spec(created_desc: bool) -> RegisterView {
        RegisterView {
            descriptor: None,
            processing: false,
            chosen_hw: None,
            hmacs: Seq::empty(),
            registered: Set::empty(),
            error: None,
            done: false,
            created_desc,
            key_identity_sigs: Map::empty(),
            contacts: Seq::empty(),
        }
    }

    /// Reads the descriptor, identity signatures and contacts of the context.
    pub fn load_context(&mut self, ctx: &InstallContext)
        ensures
            final(self)@ == register_load_spec(old(self)@, ctx@),
    {
        // The devices registered so far are forgotten when the descriptor changed.
        if !is_same_descriptor(&self.descriptor, &ctx.descriptor) {
            self.registered = HashSet::new();
            self.done = false;
        }
        self.descriptor = clone_descriptor_opt(&ctx.descriptor);
        self.key_identity_sigs = ctx.key_identity_sigs.clone();
        self.contacts = clone_contacts(&ctx.contacts);
    }

    /// Reacts to a message; `hws` is the current list of connected devices.
    pub fn update(&mut self, hws: &[HardwareWallet], message: RegisterMessage) -> (action: RegisterAction)
        requires
            register_update_defined(old(self)@, hws@, message@),
        ensures
            (final(self)@, action@) == register_update_spec(old(self)@, hws@, message@),
    {
        match message {
            RegisterMessage::Select(i) => {
                if i < hws.len() {
                    if let HardwareWallet::Supported { fingerprint, .. } = hws[i] {
                        if !self.registered.contains(&fingerprint) {
                            let descriptor = match &self.descriptor {
                                Some(d) => d.clone(),
                                None => return RegisterAction::Nothing,
                            };
                            self.chosen_hw = Some(i);
                            self.processing = true;
                            self.error = None;
                            return RegisterAction::RegisterWallet {
                                hw_index: i,
                                fingerprint,
                                descriptor,
                                key_identity_sigs: self.key_identity_sigs.clone(),
                                contacts: clone_contacts(&self.contacts),
                            };
                        }
                    }
                }
                RegisterAction::Nothing
            },
            RegisterMessage::WalletRegistered(res) => {
                self.processing = false;
                self.chosen_hw = None;
                match res {
                    Ok((fingerprint, hmac)) => {
                        if let Some(j) = find_device(hws, fingerprint) {
                            self.registered.insert(fingerprint);
                            self.hmacs.push((fingerprint, hws[j].kind(), hmac));
                        }
                    },
                    Err(e) => {
                        if !matches!(e, InstallerError::UserRefused) {
                            self.error = Some(e);
                        }
                    },
                }
                RegisterAction::Nothing
            },
            RegisterMessage::Reload => RegisterAction::Nothing,
            RegisterMessage::UserActionDone(done) => {
                self.done = done;
                RegisterAction::Nothing
            },
            RegisterMessage::Other => RegisterAction::Nothing,
        }
    }

    /// The step is skipped when no signing device is used.
    pub fn skip(&self, ctx: &InstallContext) -> (r: bool)
        ensures
            r == !ctx.hw_is_used,
    {
        !ctx.hw_is_used
    }

    /// Adds the registered devices to the context.
    pub fn apply(&mut self, ctx: &mut InstallContext) -> (r: bool)
        ensures
            r,
            final(ctx)@ == (ContextView { hws: old(ctx)@.hws + hmacs_as_context(old(self)@.hmacs), ..old(ctx)@ }),
            final(self)@ == old(self)@,
    {
        let ghost h0 = ctx.hws@;
        for i in 0..self.hmacs.len()
            invariant
                ctx@ == (ContextView { hws: h0 + hmacs_as_context(self.hmacs@.take(i as int)), ..old(ctx)@ }),
        {
            let (fingerprint, kind, token) = self.hmacs[i];
            ctx.hws.push((kind, fingerprint, token));
            assert(h0 + hmacs_as_context(self.hmacs@.take(i + 1)) =~= h0 + hmacs_as_context(self.hmacs@.take(i as int)).push((kind, fingerprint, token)));
        }
        assert(self.hmacs@.take(self.hmacs.len() as int) =~= self.hmacs@);
        true
    }
}

/// A registration is in progress exactly when a device is chosen.
pub open spec fn processing_matches_choice(s: RegisterView) -> bool {
    s.processing <==> s.chosen_hw is Some
}

/// Every device counted as registered has its token recorded.
pub open spec fn registered_recorded(s: RegisterView) -> bool {
    forall|f: u32| #[trigger] s.registered.contains(f) ==> exists|i: int|
        0 <= i < s.hmacs.len() && #[trigger] s.hmacs[i].0 == f
}

/// The registration step keeps its bookkeeping consistent under every message
/// and every context it reads: a device is chosen exactly while a registration
/// runs, and each device counted as registered has its token recorded. This
/// holds of the step's transition for every state and message, including a
/// device choice made before the descriptor is known (on which the step
/// itself cannot run).
pub proof fn law_register_invariants(s: RegisterView, hws: Seq<HardwareWallet>, m: RegisterMessageView, ctx: ContextView)
    requires
        processing_matches_choice(s),
        registered_recorded(s),
    ensures
        processing_matches_choice(register_update_spec(s, hws, m).0),
        registered_recorded(register_update_spec(s, hws, m).0),
        processing_matches_choice(register_load_spec(s, ctx)),
        registered_recorded(register_load_spec(s, ctx)),
{
    let t = register_update_spec(s, hws, m).0;
    let l = register_load_spec(s, ctx);
    assert forall|f: u32| #[trigger] l.registered.contains(f) implies exists|i: int|
        0 <= i < l.hmacs.len() && #[trigger] l.hmacs[i].0 == f by {
        let i = choose|i: int| 0 <= i < s.hmacs.len() && #[trigger] s.hmacs[i].0 == f;
        assert(l.hmacs[i] == s.hmacs[i]);
    }
    if t.registered == s.registered && t.hmacs == s.hmacs {
        assert forall|f: u32| #[trigger] t.registered.contains(f) implies exists|i: int|
            0 <= i < t.hmacs.len() && #[trigger] t.hmacs[i].0 == f by {
            let i = choose|i: int| 0 <= i < s.hmacs.len() && #[trigger] s.hmacs[i].0 == f;
            assert(t.hmacs[i] == s.hmacs[i]);
        }
    }
    if let RegisterMessageView::Registered(fp, token) = m {
        if device_with_fingerprint(hws, fp) is Some {
            assert forall|f: u32| #[trigger] t.registered.contains(f) implies exists|i: int|
                0 <= i < t.hmacs.len() && #[trigger] t.hmacs[i].0 == f by {
                if f == fp {
                    assert(t.hmacs[s.hmacs.len() as int].0 == fp);
                } else {
                    let i = choose|i: int| 0 <= i < s.hmacs.len() && #[trigger] s.hmacs[i].0 == f;
                    assert(t.hmacs[i] == s.hmacs[i]);
                }
            }
        }
    }
}

/// A new registration step, for creating or importing a wallet, starts with
/// no device chosen, no registration running and no device registered; with
/// the law above, a device is chosen exactly while a registration runs, in
/// every state the step reaches.
pub proof fn law_register_starts_consistent(created_desc: bool)
    ensures
        processing_matches_choice(RegisterDescriptor::new_spec(created_desc)),
        registered_recorded(RegisterDescriptor::new_spec(created_desc)),
{
}

/// A registration is only started on a supported device on which the wallet
/// is not registered yet, with the step's descriptor; the step then records
/// that device as chosen and the registration as running.
pub proof fn law_register_only_new_devices(s: RegisterView, hws: Seq<HardwareWallet>, m: RegisterMessageView)
    requires
        register_update_defined(s, hws, m),
    ensures
        ({
            let (t, a) = register_update_spec(s, hws, m);
            a matches RegisterActionView::RegisterWallet { hw_index, fingerprint, descriptor, .. } ==> {
                &&& hw_index < hws.len()
                &&& hw_fingerprint(hws[hw_index as int]) == Some(fingerprint)
                &&& !s.registered.contains(fingerprint)
                &&& s.descriptor == Some(descriptor)
                &&& t.processing
                &&& t.chosen_hw == Some(hw_index)
            }
        }),
{
}

/// A refusal on the device ends the registration without showing an error.
pub proof fn law_refusal_is_silent(s: RegisterView, hws: Seq<HardwareWallet>)
    ensures
        register_update_spec(s, hws, RegisterMessageView::Failed(ErrorView::UserRefused)).0 == (RegisterView {
            processing: false,
            chosen_hw: None,
            ..s
        }),
{
}


/// Choosing a supported device on which the wallet is not registered yet,
/// once the descriptor is known, always starts the registration on it,
/// whichever device of the list it is: the device is asked to register the
/// step's descriptor with the step's identity signatures and contacts, and
/// the step shows it as chosen and busy, with no error.
pub proof fn law_register_starts_on_new_device(s: RegisterView, hws: Seq<HardwareWallet>, i: usize)
    requires
        i < hws.len(),
        hws[i as int] is Supported,
        !s.registered.contains(hws[i as int]->Supported_fingerprint),
        s.descriptor is Some,
    ensures
        ({
            let (t, a) = register_update_spec(s, hws, RegisterMessageView::Select(i));
            &&& a == (RegisterActionView::RegisterWallet {
                hw_index: i,
                fingerprint: hws[i as int]->Supported_fingerprint,
                descriptor: s.descriptor->0,
                key_identity_sigs: s.key_identity_sigs,
                contacts: s.contacts,
            })
            &&& t.chosen_hw == Some(i)
            &&& t.processing
            &&& t.error is None
            &&& t.registered == s.registered
            &&& t.hmacs == s.hmacs
        }),
{
}

/// Choosing a device that is not supported, or on which the wallet is already
/// registered, or out of the list, changes nothing and asks for nothing.
pub proof fn law_register_ignores_other_choices(s: RegisterView, hws: Seq<HardwareWallet>, i: usize)
    requires
        !(i < hws.len() && hws[i as int] is Supported && !s.registered.contains(hws[i as int]->Supported_fingerprint)),
    ensures
        register_update_spec(s, hws, RegisterMessageView::Select(i)) == (s, RegisterActionView::Nothing),
{
}

/// When a device reports the wallet registered, the registration ends; if a
/// connected supported device has that fingerprint, the fingerprint is added
/// to the registered ones and its token is recorded after the earlier ones
/// with the kind of the first such device; otherwise nothing is recorded.
pub proof fn law_register_records_success(s: RegisterView, hws: Seq<HardwareWallet>, fp: u32, token: Option<[u8; 32]>)
    ensures
        ({
            let (t, a) = register_update_spec(s, hws, RegisterMessageView::Registered(fp, token));
            &&& a == RegisterActionView::Nothing
            &&& !t.processing
            &&& t.chosen_hw is None
            &&& t.error == s.error
            &&& forall|j: int| 0 <= j < hws.len() && #[trigger] hw_fingerprint(hws[j]) == Some(fp)
                && (forall|k: int| 0 <= k < j ==> hw_fingerprint(hws[k]) != Some(fp)) ==> {
                &&& t.registered == s.registered.insert(fp)
                &&& t.hmacs == s.hmacs.push((fp, hw_kind(hws[j]), token))
            }
            &&& (forall|j: int| 0 <= j < hws.len() ==> #[trigger] hw_fingerprint(hws[j]) != Some(fp)) ==> {
                &&& t.registered == s.registered
                &&& t.hmacs == s.hmacs
            }
        }),
{
    lemma_device_with_fingerprint(hws, fp);
    assert forall|j: int| 0 <= j < hws.len() && #[trigger] hw_fingerprint(hws[j]) == Some(fp)
        && (forall|k: int| 0 <= k < j ==> hw_fingerprint(hws[k]) != Some(fp))
        implies device_with_fingerprint(hws, fp) == Some(j) by {
        let w = device_with_fingerprint(hws, fp)->0;
        if w < j {
            assert(hw_fingerprint(hws[w]) != Some(fp));
        } else if j < w {
            assert(hw_fingerprint(hws[j]) != Some(fp));
        }
    }
}

} // verus!
