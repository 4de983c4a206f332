use vstd::prelude::*;
use vstd::string::*;
use crate::hw::HardwareWallet;
use crate::pubkey::{law_valid_keys_parse, parse_pubkey_to_xpub, pubkey_parse_spec, identity_xpub_spec, IdentityXpub};
use crate::settings::{
    clone_contacts, contacts_view_of, registrations_view, ContactRegistration, ContactSetting,
    ContactView, RegistrationView,
};
use crate::text::{trim_spec, trimmed};
use crate::hexcode::{hex_decode_spec, hex_encode, hex_lower_spec};

verus! {

/// A text input of a form: what was typed and whether it is shown as valid.
pub struct FormValue {
    pub value: String,
    pub valid: bool,
}

pub struct FormView {
    pub value: Seq<char>,
    pub valid: bool,
}

impl View for FormValue {
    type V = FormView;

    open spec fn view(&self) -> FormView {
        FormView { value: self.value@, valid: self.valid }
    }
}

/// An empty input, shown as valid.
pub open spec fn empty_form() -> FormView {
    FormView { value: Seq::empty(), valid: true }
}

impl Clone for FormValue {
    fn clone(&self) -> (r: Self)
        ensures
            r@ == self@,
    {
        FormValue { value: self.value.clone(), valid: self.valid }
    }
}

impl FormValue {
    pub fn empty() -> (r: FormValue)
        ensures
            r@ == empty_form(),
    {
        FormValue { value: String::new(), valid: true }
    }
}

/// The warning shown above the contacts.
pub enum PanelWarning {
    Unexpected(String),
    HardwareWallet(String),
}

pub enum WarningView {
    Unexpected(Seq<char>),
    HardwareWallet(Seq<char>),
}

impl View for PanelWarning {
    type V = WarningView;

    open spec fn view(&self) -> WarningView {
        match self {
            PanelWarning::Unexpected(s) => WarningView::Unexpected(s@),
            PanelWarning::HardwareWallet(s) => WarningView::HardwareWallet(s@),
        }
    }
}

pub open spec fn warning_view(w: Option<PanelWarning>) -> Option<WarningView> {
    match w {
        Some(x) => Some(x@),
        None => None,
    }
}

/// What the user or a device asks of the contacts screen.
pub enum ContactsMessage {
    NameEdited(String),
    PubkeyEdited(String),
    AddContact,
    /// Register a contact (by index) on a device (by index in the device list).
    RegisterContact(usize, usize),
    /// A registration finished for the contact with this index.
    Registered(usize, ContactRegistration),
    RegistrationFailed(String),
    Delete(usize),
    /// Share the user's own identity key from a device; the contacts panel does
    /// not act on it.
    ShareIdentityKey(usize),
}

/// An event handed to the contacts panel.
pub enum ContactsEvent {
    Contacts(ContactsMessage),
    /// The outcome of handing a device-list message to the device manager.
    HardwareWallets(Result<(), String>),
    Other,
}

pub enum EventView {
    NameEdited(Seq<char>),
    PubkeyEdited(Seq<char>),
    AddContact,
    RegisterContact(usize, usize),
    Registered(usize, RegistrationView),
    RegistrationFailed(Seq<char>),
    Delete(usize),
    ShareIdentityKey(usize),
    HardwareWalletsOk,
    HardwareWalletsErr(Seq<char>),
    Other,
}

impl View for ContactsEvent {
    type V = EventView;

    open spec fn view(&self) -> EventView {
        match self {
            ContactsEvent::Contacts(m) => match m {
                ContactsMessage::NameEdited(s) => EventView::NameEdited(s@),
                ContactsMessage::PubkeyEdited(s) => EventView::PubkeyEdited(s@),
                ContactsMessage::AddContact => EventView::AddContact,
                ContactsMessage::RegisterContact(c, h) => EventView::RegisterContact(*c, *h),
                ContactsMessage::Registered(c, r) => EventView::Registered(*c, r@),
                ContactsMessage::RegistrationFailed(s) => EventView::RegistrationFailed(s@),
                ContactsMessage::Delete(i) => EventView::Delete(*i),
                ContactsMessage::ShareIdentityKey(i) => EventView::ShareIdentityKey(*i),
            },
            ContactsEvent::HardwareWallets(Ok(())) => EventView::HardwareWalletsOk,
            ContactsEvent::HardwareWallets(Err(e)) => EventView::HardwareWalletsErr(e@),
            ContactsEvent::Other => EventView::Other,
        }
    }
}

/// What the screen asks its host to do after an event.
pub enum ContactsAction {
    Nothing,
    /// Write this contact list to the wallet's settings.
    SaveContacts(Vec<ContactSetting>),
    /// Register the contact's identity key on the device at `hw_index`.
    RegisterIdentityKey {
        contact_index: usize,
        hw_index: usize,
        fingerprint: u32,
        name: String,
        xpub: IdentityXpub,
    },
    /// Run the command that the device manager returned.
    HardwareWallets,
}

pub enum ActionView {
    Nothing,
    SaveContacts(Seq<ContactView>),
    RegisterIdentityKey {
        contact_index: usize,
        hw_index: usize,
        fingerprint: u32,
        name: Seq<char>,
        key: Seq<u8>,
    },
    HardwareWallets,
}

/// The view of an action; for a registration, `key` is the identity key's
/// bytes, the one field of the xpub that varies.
pub open spec fn action_view(a: ContactsAction) -> ActionView {
    match a {
        ContactsAction::Nothing => ActionView::Nothing,
        ContactsAction::SaveContacts(c) => ActionView::SaveContacts(contacts_view_of(c@)),
        ContactsAction::RegisterIdentityKey { contact_index, hw_index, fingerprint, name, xpub } =>
            ActionView::RegisterIdentityKey {
                contact_index,
                hw_index,
                fingerprint,
                name: name@,
                key: xpub@.public_key_bytes,
            },
        ContactsAction::HardwareWallets => ActionView::HardwareWallets,
    }
}

/// A registration action carries a well-formed identity xpub.
pub open spec fn action_xpub_ok(a: ContactsAction) -> bool {
    match a {
        ContactsAction::RegisterIdentityKey { xpub, .. } => xpub@ == identity_xpub_spec(xpub@.public_key_bytes),
        _ => true,
    }
}

/// The state of the contacts screen.
pub struct ContactsPanel {
    pub contacts: Vec<ContactSetting>,
    pub name_input: FormValue,
    pub pubkey_input: FormValue,
    pub warning: Option<PanelWarning>,
    /// Index of the contact currently being registered, if any.
    pub registering_contact: Option<usize>,
}

pub struct PanelView {
    pub contacts: Seq<ContactView>,
    pub name_input: FormView,
    pub pubkey_input: FormView,
    pub warning: Option<WarningView>,
    pub registering_contact: Option<usize>,
}

impl View for ContactsPanel {
    type V = PanelView;

    open spec fn view(&self) -> PanelView {
        PanelView {
            contacts: contacts_view_of(self.contacts@),
            name_input: self.name_input@,
            pubkey_input: self.pubkey_input@,
            warning: warning_view(self.warning),
            registering_contact: self.registering_contact,
        }
    }
}

/// The first position in `regs` of a registration on the device `fp`.
pub open spec fn registration_index(regs: Seq<RegistrationView>, fp: u32) -> Option<int> {
    if exists|j: int| 0 <= j < regs.len() && regs[j].device_fingerprint == fp {
        Some(choose|j: int|
            0 <= j < regs.len() && regs[j].device_fingerprint == fp
                && forall|k: int| 0 <= k < j ==> regs[k].device_fingerprint != fp)
    } else {
        None
    }
}

proof fn first_registration_from(regs: Seq<RegistrationView>, fp: u32, j0: int) -> (j: int)
    requires
        0 <= j0 < regs.len(),
        regs[j0].device_fingerprint == fp,
    ensures
        0 <= j <= j0,
        regs[j].device_fingerprint == fp,
        forall|k: int| 0 <= k < j ==> regs[k].device_fingerprint != fp,
    decreases j0,
{
    if exists|k: int| 0 <= k < j0 && regs[k].device_fingerprint == fp {
        let k = choose|k: int| 0 <= k < j0 && regs[k].device_fingerprint == fp;
        first_registration_from(regs, fp, k)
    } else {
        j0
    }
}

/// The first registration on device `fp` exists exactly when some
/// registration is on that device; it is then in range, on that device, and
/// no earlier one is.
pub proof fn lemma_registration_index(regs: Seq<RegistrationView>, fp: u32)
    ensures
        match registration_index(regs, fp) {
            Some(j) => 0 <= j < regs.len() && regs[j].device_fingerprint == fp
                && forall|k: int| 0 <= k < j ==> regs[k].device_fingerprint != fp,
            None => forall|j: int| 0 <= j < regs.len() ==> regs[j].device_fingerprint != fp,
        },
{
    if exists|j: int| 0 <= j < regs.len() && regs[j].device_fingerprint == fp {
        let j0 = choose|j: int| 0 <= j < regs.len() && regs[j].device_fingerprint == fp;
        let j = first_registration_from(regs, fp, j0);
        assert(0 <= j < regs.len() && regs[j].device_fingerprint == fp
            && forall|k: int| 0 <= k < j ==> regs[k].device_fingerprint != fp);
    }
}

/// `regs` with `reg` in place of the registration on the same device, or with
/// `reg` added at the end when there is none.
pub open spec fn record_registration(regs: Seq<RegistrationView>, reg: RegistrationView) -> Seq<RegistrationView> {
    match registration_index(regs, reg.device_fingerprint) {
        Some(j) => regs.update(j, reg),
        None => regs.push(reg),
    }
}

/// What an event does to the contacts screen, and what it asks of the host.
pub open spec fn contacts_update_spec(
    s: PanelView,
    hws: Seq<HardwareWallet>,
    ev: EventView,
) -> (PanelView, ActionView) {
    match ev {
        EventView::NameEdited(n) => (
            PanelView { name_input: FormView { value: n, ..s.name_input }, ..s },
            ActionView::Nothing,
        ),
        EventView::PubkeyEdited(p) => (
            PanelView { pubkey_input: FormView { value: p, valid: true }, ..s },
            ActionView::Nothing,
        ),
        EventView::AddContact => {
            let name = trim_spec(s.name_input.value);
            let key = trim_spec(s.pubkey_input.value);
            if name.len() == 0 {
                (
                    PanelView {
                        warning: Some(WarningView::Unexpected("Name cannot be empty"@)),
                        ..s
                    },
                    ActionView::Nothing,
                )
            } else {
                match pubkey_parse_spec(key) {
                    Err(e) => (
                        PanelView {
                            pubkey_input: FormView { valid: false, ..s.pubkey_input },
                            warning: Some(WarningView::Unexpected(e)),
                            ..s
                        },
                        ActionView::Nothing,
                    ),
                    Ok(_) => {
                        let contacts = s.contacts.push(
                            ContactView { name, pubkey: key, registrations: Seq::empty() },
                        );
                        (
                            PanelView {
                                contacts,
                                name_input: empty_form(),
                                pubkey_input: empty_form(),
                                warning: None,
                                ..s
                            },
                            ActionView::SaveContacts(contacts),
                        )
                    },
                }
            }
        },
        EventView::RegisterContact(ci, hi) => {
            if s.registering_contact is Some || ci >= s.contacts.len() || hi >= hws.len()
                || !(hws[hi as int] is Supported) {
                (s, ActionView::Nothing)
            } else {
                let contact = s.contacts[ci as int];
                match pubkey_parse_spec(contact.pubkey) {
                    Err(e) => (
                        PanelView { warning: Some(WarningView::Unexpected(e)), ..s },
                        ActionView::Nothing,
                    ),
                    Ok(key) => (
                        PanelView { registering_contact: Some(ci), warning: None, ..s },
                        ActionView::RegisterIdentityKey {
                            contact_index: ci,
                            hw_index: hi,
                            fingerprint: hws[hi as int]->Supported_fingerprint,
                            name: contact.name,
                            key,
                        },
                    ),
                }
            }
        },
        EventView::Registered(ci, reg) => {
            if ci < s.contacts.len() {
                let c = s.contacts[ci as int];
                let contacts = s.contacts.update(
                    ci as int,
                    ContactView { registrations: record_registration(c.registrations, reg), ..c },
                );
                (
                    PanelView { contacts, registering_contact: None, warning: None, ..s },
                    ActionView::SaveContacts(contacts),
                )
            } else {
                (PanelView { registering_contact: None, ..s }, ActionView::Nothing)
            }
        },
        EventView::RegistrationFailed(e) => (
            PanelView {
                registering_contact: None,
                warning: Some(WarningView::Unexpected(e)),
                ..s
            },
            ActionView::Nothing,
        ),
        EventView::Delete(i) => {
            if i < s.contacts.len() {
                let contacts = s.contacts.remove(i as int);
                (PanelView { contacts, ..s }, ActionView::SaveContacts(contacts))
            } else {
                (s, ActionView::Nothing)
            }
        },
        EventView::ShareIdentityKey(_) => (s, ActionView::Nothing),
        EventView::HardwareWalletsOk => (s, ActionView::HardwareWallets),
        EventView::HardwareWalletsErr(e) => (
            PanelView { warning: Some(WarningView::HardwareWallet(e)), ..s },
            ActionView::Nothing,
        ),
        EventView::Other => (s, ActionView::Nothing),
    }
}

proof fn lemma_registration_index_at(regs: Seq<RegistrationView>, fp: u32, j: int)
    requires
        0 <= j < regs.len(),
        regs[j].device_fingerprint == fp,
        forall|k: int| 0 <= k < j ==> regs[k].device_fingerprint != fp,
    ensures
        registration_index(regs, fp) == Some(j),
{
    let w = choose|w: int|
        0 <= w < regs.len() && regs[w].device_fingerprint == fp
            && forall|k: int| 0 <= k < w ==> regs[k].device_fingerprint != fp;
    assert(0 <= w < regs.len() && regs[w].device_fingerprint == fp);
    if w < j {
        assert(regs[w].device_fingerprint != fp);
    } else if w > j {
        assert(regs[j].device_fingerprint != fp);
    }
}

/// The position of the first registration on the device `fp`.
fn find_registration(regs: &Vec<ContactRegistration>, fp: u32) -> (r: Option<usize>)
    ensures
        match registration_index(registrations_view(regs@), fp) {
            Some(j) => r matches Some(k) && k as int == j,
            None => r is None,
        },
        r matches Some(j) ==> j < regs.len(),
{
    let ghost rv = registrations_view(regs@);
    let mut j: usize = 0;
    while j < regs.len()
        invariant
            j <= regs.len(),
            rv == registrations_view(regs@),
            forall|k: int| 0 <= k < j ==> rv[k].device_fingerprint != fp,
        decreases regs.len() - j,
    {
        if regs[j].device_fingerprint == fp {
            proof {
                lemma_registration_index_at(rv, fp, j as int);
            }
            return Some(j);
        }
        j = j + 1;
    }
    assert(registration_index(rv, fp) is None);
    None
}

/// Puts `reg` in place of the registration on the same device, or appends it.
fn record_registration_in(regs: &mut Vec<ContactRegistration>, reg: ContactRegistration)
    ensures
        registrations_view(final(regs)@) == record_registration(registrations_view(old(regs)@), reg@),
{
    let ghost rv = registrations_view(regs@);
    match find_registration(regs, reg.device_fingerprint) {
        Some(j) => {
            regs.set(j, reg);
            assert(registrations_view(regs@) =~= rv.update(j as int, reg@));
        },
        None => {
            regs.push(reg);
            assert(registrations_view(regs@) =~= rv.push(reg@));
        },
    }
}

impl ContactsPanel {
    /// A screen showing `contacts`, with empty inputs, no warning and no
    /// registration in progress.
    pub fn new(contacts: Vec<ContactSetting>) -> (r: ContactsPanel)
        ensures
            r@ == (PanelView {
                contacts: contacts_view_of(contacts@),
                name_input: empty_form(),
                pubkey_input: empty_form(),
                warning: None,
                registering_contact: None,
            }),
    {
        ContactsPanel {
            contacts,
            name_input: FormValue::empty(),
            pubkey_input: FormValue::empty(),
            warning: None,
            registering_contact: None,
        }
    }

    /// Shows the contacts read again from the settings, clearing the warning
    /// and any registration in progress.
    pub fn reload(&mut self, contacts: Vec<ContactSetting>)
        ensures
            final(self)@ == (PanelView {
                contacts: contacts_view_of(contacts@),
                warning: None,
                registering_contact: None,
                ..old(self)@
            }),
    {
        self.contacts = contacts;
        self.warning = None;
        self.registering_contact = None;
    }

    /// Reacts to an event; `hws` is the current list of connected devices.
    pub fn update(&mut self, hws: &[HardwareWallet], event: ContactsEvent) -> (action: ContactsAction)
        ensures
            (final(self)@, action_view(action)) == contacts_update_spec(old(self)@, hws@, event@),
            action_xpub_ok(action),
    {
        match event {
            ContactsEvent::Contacts(msg) => match msg {
                ContactsMessage::NameEdited(name) => {
                    self.name_input.value = name;
                    ContactsAction::Nothing
                },
                ContactsMessage::PubkeyEdited(pubkey) => {
                    self.pubkey_input.value = pubkey;
                    self.pubkey_input.valid = true;
                    ContactsAction::Nothing
                },
                ContactsMessage::AddContact => self.add_contact(),
                ContactsMessage::RegisterContact(contact_idx, hw_idx) => {
                    self.register_contact(hws, contact_idx, hw_idx)
                },
                ContactsMessage::Registered(contact_idx, registration) => {
                    self.registering_contact = None;
                    if contact_idx < self.contacts.len() {
                        let ghost old_contacts = contacts_view_of(self.contacts@);
                        let mut contact = self.contacts.remove(contact_idx);
                        let ghost c = contact@;
                        record_registration_in(&mut contact.registrations, registration);
                        self.contacts.insert(contact_idx, contact);
                        assert(contacts_view_of(self.contacts@) =~= old_contacts.update(
                            contact_idx as int,
                            ContactView { registrations: contact@.registrations, ..c },
                        ));
                        self.warning = None;
                        ContactsAction::SaveContacts(clone_contacts(&self.contacts))
                    } else {
                        ContactsAction::Nothing
                    }
                },
                ContactsMessage::RegistrationFailed(e) => {
                    self.registering_contact = None;
                    self.warning = Some(PanelWarning::Unexpected(e));
                    ContactsAction::Nothing
                },
                ContactsMessage::Delete(i) => {
                    if i < self.contacts.len() {
                        let ghost old_contacts = contacts_view_of(self.contacts@);
                        self.contacts.remove(i);
                        assert(contacts_view_of(self.contacts@) =~= old_contacts.remove(i as int));
                        ContactsAction::SaveContacts(clone_contacts(&self.contacts))
                    } else {
                        ContactsAction::Nothing
                    }
                },
                ContactsMessage::ShareIdentityKey(_) => ContactsAction::Nothing,
            },
            ContactsEvent::HardwareWallets(res) => match res {
                Ok(()) => ContactsAction::HardwareWallets,
                Err(e) => {
                    self.warning = Some(PanelWarning::HardwareWallet(e));
                    ContactsAction::Nothing
                },
            },
            ContactsEvent::Other => ContactsAction::Nothing,
        }
    }

    fn add_contact(&mut self) -> (action: ContactsAction)
        ensures
            (final(self)@, action_view(action)) == contacts_update_spec(old(self)@, Seq::empty(), EventView::AddContact),
            action_xpub_ok(action),
    {
        let name = trimmed(self.name_input.value.as_str());
        if name.as_str().is_empty() {
            self.warning = Some(PanelWarning::Unexpected(String::from_str("Name cannot be empty")));
            return ContactsAction::Nothing;
        }
        let pubkey_hex = trimmed(self.pubkey_input.value.as_str());
        if let Err(e) = parse_pubkey_to_xpub(pubkey_hex.as_str()) {
            self.pubkey_input.valid = false;
            self.warning = Some(PanelWarning::Unexpected(e));
            return ContactsAction::Nothing;
        }
        let ghost old_contacts = contacts_view_of(self.contacts@);
        let contact = ContactSetting { name, pubkey: pubkey_hex, registrations: Vec::new() };
        assert(registrations_view(contact.registrations@) =~= Seq::<RegistrationView>::empty());
        self.contacts.push(contact);
        assert(contacts_view_of(self.contacts@) =~= old_contacts.push(contact@));
        self.name_input = FormValue::empty();
        self.pubkey_input = FormValue::empty();
        self.warning = None;
        ContactsAction::SaveContacts(clone_contacts(&self.contacts))
    }

    fn register_contact(&mut self, hws: &[HardwareWallet], contact_idx: usize, hw_idx: usize) -> (action: ContactsAction)
        ensures
            (final(self)@, action_view(action)) == contacts_update_spec(
                old(self)@,
                hws@,
                EventView::RegisterContact(contact_idx, hw_idx),
            ),
            action_xpub_ok(action),
    {
        if self.registering_contact.is_some() {
            return ContactsAction::Nothing;
        }
        if contact_idx >= self.contacts.len() {
            return ContactsAction::Nothing;
        }
        let fingerprint = if hw_idx < hws.len() {
            match &hws[hw_idx] {
                HardwareWallet::Supported { fingerprint, .. } => *fingerprint,
                _ => return ContactsAction::Nothing,
            }
        } else {
            return ContactsAction::Nothing;
        };
        let contact = &self.contacts[contact_idx];
        let xpub = match parse_pubkey_to_xpub(contact.pubkey.as_str()) {
            Ok(x) => x,
            Err(e) => {
                self.warning = Some(PanelWarning::Unexpected(e));
                return ContactsAction::Nothing;
            },
        };
        let name = contact.name.clone();
        self.registering_contact = Some(contact_idx);
        self.warning = None;
        ContactsAction::RegisterIdentityKey {
            contact_index: contact_idx,
            hw_index: hw_idx,
            fingerprint,
            name,
            xpub,
        }
    }
}

/// What the host is told once the contacts were written.
pub enum SaveReply {
    /// Read the settings again.
    Reload,
    Contacts(ContactsMessage),
}

/// The reply to a save: reload the screen, or report the failure as a failed
/// registration with the message `Failed to save contacts: <error>`.
pub fn save_contacts_reply(res: Result<(), String>) -> (r: SaveReply)
    ensures
        match res {
            Ok(()) => r is Reload,
            Err(e) => r matches SaveReply::Contacts(ContactsMessage::RegistrationFailed(m))
                && m@ == "Failed to save contacts: "@ + e@,
        },
{
    match res {
        Ok(()) => SaveReply::Reload,
        Err(e) => SaveReply::Contacts(ContactsMessage::RegistrationFailed(
            String::from_str("Failed to save contacts: ").concat(e.as_str()),
        )),
    }
}

/// The registration of a contact on a device as it is stored: the device's
/// fingerprint, and the identifier and proof that the device returned, in
/// lowercase hex.
pub fn contact_registration(device_fingerprint: u32, registration_id: &[u8], proof: &[u8]) -> (r: ContactRegistration)
    ensures
        r.device_fingerprint == device_fingerprint,
        r.registration_id@ == hex_lower_spec(registration_id@),
        r.proof@ == hex_lower_spec(proof@),
{
    ContactRegistration {
        device_fingerprint,
        registration_id: hex_encode(registration_id),
        proof: hex_encode(proof),
    }
}

/// The message that reports how the registration of contact `contact_index`
/// ended: the registration, or the device's error text.
pub fn contact_registration_message(contact_index: usize, res: Result<ContactRegistration, String>) -> (r: ContactsMessage)
    ensures
        match res {
            Ok(reg) => r matches ContactsMessage::Registered(i, x) && i == contact_index && x@ == reg@,
            Err(e) => r matches ContactsMessage::RegistrationFailed(m) && m@ == e@,
        },
{
    match res {
        Ok(reg) => ContactsMessage::Registered(contact_index, reg),
        Err(e) => ContactsMessage::RegistrationFailed(e),
    }
}

/// No two registrations of one contact are on the same device.
pub open spec fn registrations_unique(regs: Seq<RegistrationView>) -> bool {
    forall|i: int, j: int|
        0 <= i < j < regs.len() ==> #[trigger] regs[i].device_fingerprint != #[trigger] regs[j].device_fingerprint
}

/// Every contact has at most one registration per device.
pub open spec fn contacts_registrations_unique(contacts: Seq<ContactView>) -> bool {
    forall|i: int| 0 <= i < contacts.len() ==> registrations_unique(#[trigger] contacts[i].registrations)
}

proof fn lemma_record_registration(regs: Seq<RegistrationView>, reg: RegistrationView)
    requires
        registrations_unique(regs),
    ensures
        registrations_unique(record_registration(regs, reg)),
        record_registration(regs, reg).contains(reg),
        forall|k: int| 0 <= k < record_registration(regs, reg).len()
            && #[trigger] record_registration(regs, reg)[k].device_fingerprint == reg.device_fingerprint
            ==> record_registration(regs, reg)[k] == reg,
{
    let r = record_registration(regs, reg);
    match registration_index(regs, reg.device_fingerprint) {
        Some(j) => {
            let w = choose|w: int|
                0 <= w < regs.len() && regs[w].device_fingerprint == reg.device_fingerprint
                    && forall|k: int| 0 <= k < w ==> regs[k].device_fingerprint != reg.device_fingerprint;
            assert(j == w);
            assert(r[j] == reg);
        },
        None => {
            assert(r[regs.len() as int] == reg);
        },
    }
}

/// Whatever happens on the contacts screen, a contact never gets two
/// registrations on the same device: a new registration replaces the one on
/// its device.
pub proof fn law_registrations_stay_unique(s: PanelView, hws: Seq<HardwareWallet>, ev: EventView)
    requires
        contacts_registrations_unique(s.contacts),
    ensures
        contacts_registrations_unique(contacts_update_spec(s, hws, ev).0.contacts),
{
    let t = contacts_update_spec(s, hws, ev).0;
    match ev {
        EventView::Registered(ci, reg) => {
            if ci < s.contacts.len() {
                lemma_record_registration(s.contacts[ci as int].registrations, reg);
                assert forall|i: int| 0 <= i < t.contacts.len() implies registrations_unique(
                    #[trigger] t.contacts[i].registrations,
                ) by {
                    if i != ci {
                        assert(t.contacts[i] == s.contacts[i]);
                    }
                }
            }
        },
        EventView::Delete(i) => {
            if i < s.contacts.len() {
                assert forall|k: int| 0 <= k < t.contacts.len() implies registrations_unique(
                    #[trigger] t.contacts[k].registrations,
                ) by {
                    if k < i {
                        assert(t.contacts[k] == s.contacts[k]);
                    } else {
                        assert(t.contacts[k] == s.contacts[k + 1]);
                    }
                }
            }
        },
        EventView::AddContact => {
            assert forall|k: int| 0 <= k < t.contacts.len() implies registrations_unique(
                #[trigger] t.contacts[k].registrations,
            ) by {
                if k < s.contacts.len() {
                    assert(t.contacts[k] == s.contacts[k]);
                }
            }
        },
        _ => {},
    }
}

/// A finished registration is recorded on its contact: afterwards the
/// contact's registration on that device is exactly the one reported, and the
/// new contact list is saved.
pub proof fn law_registration_recorded(s: PanelView, hws: Seq<HardwareWallet>, ci: usize, reg: RegistrationView)
    requires
        ci < s.contacts.len(),
        registrations_unique(s.contacts[ci as int].registrations),
    ensures
        ({
            let (t, a) = contacts_update_spec(s, hws, EventView::Registered(ci, reg));
            &&& t.contacts[ci as int].registrations.contains(reg)
            &&& forall|k: int| 0 <= k < t.contacts[ci as int].registrations.len()
                && #[trigger] t.contacts[ci as int].registrations[k].device_fingerprint == reg.device_fingerprint
                ==> t.contacts[ci as int].registrations[k] == reg
            &&& t.contacts.len() == s.contacts.len()
            &&& t.registering_contact is None
            &&& a == ActionView::SaveContacts(t.contacts)
        }),
{
    lemma_record_registration(s.contacts[ci as int].registrations, reg);
}

/// Whenever the screen asks for the contacts to be saved, it hands over
/// exactly the contact list it now shows.
pub proof fn law_saved_contacts_are_shown(s: PanelView, hws: Seq<HardwareWallet>, ev: EventView)
    ensures
        ({
            let (t, a) = contacts_update_spec(s, hws, ev);
            a matches ActionView::SaveContacts(saved) ==> saved == t.contacts
        }),
{
}

/// While one registration is in progress, a request to register a contact is
/// ignored: nothing changes and nothing is asked of the host.
pub proof fn law_one_registration_at_a_time(s: PanelView, hws: Seq<HardwareWallet>, ci: usize, hi: usize)
    requires
        s.registering_contact is Some,
    ensures
        contacts_update_spec(s, hws, EventView::RegisterContact(ci, hi)) == (s, ActionView::Nothing),
{
}

/// A registration is only started on a supported device and for an existing
/// contact whose key parses, and the screen then remembers which contact is
/// being registered.
pub proof fn law_registration_requests_are_valid(s: PanelView, hws: Seq<HardwareWallet>, ev: EventView)
    ensures
        ({
            let (t, a) = contacts_update_spec(s, hws, ev);
            a matches ActionView::RegisterIdentityKey { contact_index, hw_index, fingerprint, name, key } ==> {
                &&& s.registering_contact is None
                &&& contact_index < s.contacts.len()
                &&& hw_index < hws.len()
                &&& hws[hw_index as int] == (HardwareWallet::Supported {
                    kind: crate::hw::hw_kind(hws[hw_index as int]),
                    fingerprint,
                })
                &&& name == s.contacts[contact_index as int].name
                &&& pubkey_parse_spec(s.contacts[contact_index as int].pubkey) == Ok::<Seq<u8>, Seq<char>>(key)
                &&& t.registering_contact == Some(contact_index)
            }
        }),
{
}

/// A contact is only added with a non-empty trimmed name and a trimmed key
/// that parses as a compressed public key; the inputs are then cleared.
pub proof fn law_added_contacts_are_valid(s: PanelView, hws: Seq<HardwareWallet>)
    ensures
        ({
            let (t, a) = contacts_update_spec(s, hws, EventView::AddContact);
            t.contacts.len() == s.contacts.len() + 1 ==> {
                let c = t.contacts.last();
                &&& c.name == trim_spec(s.name_input.value)
                &&& c.name.len() > 0
                &&& c.pubkey == trim_spec(s.pubkey_input.value)
                &&& pubkey_parse_spec(c.pubkey) is Ok
                &&& c.registrations.len() == 0
                &&& t.name_input == empty_form()
                &&& t.pubkey_input == empty_form()
            }
        }),
{
}


/// A request to register a saved contact on a connected, supported device is
/// honoured whenever no other registration runs and the contact's key parses,
/// whichever device of the list it is: the host is asked to register that
/// contact's name and decoded key on that device, the screen remembers the
/// contact as being registered and clears its warning, and the contacts stay
/// as they are.
pub proof fn law_registration_starts(s: PanelView, hws: Seq<HardwareWallet>, ci: usize, hi: usize)
    requires
        s.registering_contact is None,
        ci < s.contacts.len(),
        hi < hws.len(),
        hws[hi as int] is Supported,
        pubkey_parse_spec(s.contacts[ci as int].pubkey) is Ok,
    ensures
        ({
            let (t, a) = contacts_update_spec(s, hws, EventView::RegisterContact(ci, hi));
            &&& a == (ActionView::RegisterIdentityKey {
                contact_index: ci,
                hw_index: hi,
                fingerprint: hws[hi as int]->Supported_fingerprint,
                name: s.contacts[ci as int].name,
                key: hex_decode_spec(s.contacts[ci as int].pubkey),
            })
            &&& t.registering_contact == Some(ci)
            &&& t.warning is None
            &&& t.contacts == s.contacts
        }),
{
    law_valid_keys_parse(s.contacts[ci as int].pubkey);
}

/// A contact with a non-blank name and a key that parses is always added: it
/// is appended after the existing contacts, with the trimmed name and key and
/// no registration, and the new list is saved.
pub proof fn law_valid_contacts_are_added(s: PanelView, hws: Seq<HardwareWallet>)
    requires
        trim_spec(s.name_input.value).len() > 0,
        pubkey_parse_spec(trim_spec(s.pubkey_input.value)) is Ok,
    ensures
        ({
            let (t, a) = contacts_update_spec(s, hws, EventView::AddContact);
            &&& t.contacts.len() == s.contacts.len() + 1
            &&& t.contacts.take(s.contacts.len() as int) == s.contacts
            &&& t.contacts.last() == (ContactView {
                name: trim_spec(s.name_input.value),
                pubkey: trim_spec(s.pubkey_input.value),
                registrations: Seq::empty(),
            })
            &&& t.warning is None
            &&& a == ActionView::SaveContacts(t.contacts)
        }),
{
    let t = contacts_update_spec(s, hws, EventView::AddContact).0;
    assert(t.contacts.take(s.contacts.len() as int) =~= s.contacts);
}

/// Deleting an existing contact removes exactly that contact, keeping the
/// others in order, and saves the new list; any other index changes nothing.
pub proof fn law_delete_removes_one(s: PanelView, hws: Seq<HardwareWallet>, i: usize)
    ensures
        ({
            let (t, a) = contacts_update_spec(s, hws, EventView::Delete(i));
            if i < s.contacts.len() {
                &&& t.contacts.len() + 1 == s.contacts.len()
                &&& forall|k: int| 0 <= k < i ==> #[trigger] t.contacts[k] == s.contacts[k]
                &&& forall|k: int| i <= k < t.contacts.len() ==> #[trigger] t.contacts[k] == s.contacts[k + 1]
                &&& a == ActionView::SaveContacts(t.contacts)
            } else {
                t == s && a == ActionView::Nothing
            }
        }),
{
}


/// A contact is refused, with the contacts left as they are and nothing
/// saved, when its trimmed name is empty (saying so) or when its trimmed key
/// does not parse (marking the key input invalid and showing why).
pub proof fn law_invalid_contacts_refused(s: PanelView, hws: Seq<HardwareWallet>)
    requires
        trim_spec(s.name_input.value).len() == 0 || pubkey_parse_spec(trim_spec(s.pubkey_input.value)) is Err,
    ensures
        ({
            let (t, a) = contacts_update_spec(s, hws, EventView::AddContact);
            &&& t.contacts == s.contacts
            &&& a == ActionView::Nothing
            &&& trim_spec(s.name_input.value).len() == 0 ==> t.warning == Some(WarningView::Unexpected("Name cannot be empty"@))
            &&& trim_spec(s.name_input.value).len() > 0 ==> (pubkey_parse_spec(trim_spec(s.pubkey_input.value)) matches Err(e)
                && t.warning == Some(WarningView::Unexpected(e)) && !t.pubkey_input.valid)
        }),
{
}

/// A failed registration ends the registration in progress and shows why,
/// leaving the contacts as they are.
pub proof fn law_failed_registration_ends(s: PanelView, hws: Seq<HardwareWallet>, e: Seq<char>)
    ensures
        ({
            let (t, a) = contacts_update_spec(s, hws, EventView::RegistrationFailed(e));
            &&& t.registering_contact is None
            &&& t.warning == Some(WarningView::Unexpected(e))
            &&& t.contacts == s.contacts
            &&& a == ActionView::Nothing
        }),
{
}

} // verus!
