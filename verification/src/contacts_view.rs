use vstd::prelude::*;
use vstd::string::*;
use crate::hexcode::{hex_decode_spec, hex_encode, hex_lower_spec, is_hex_string, law_hex_round_trip};
use crate::hw::{device_look, device_look_spec, DeviceButton, DeviceLook, HardwareWallet, UnsupportedReason};
use crate::settings::{registrations_view, ContactRegistration, ContactSetting, RegistrationView};
use crate::text::{
    byte_elided_spec, byte_elision_defined, decimal_spec, elide_middle_bytes, trim_spec, trimmed,
    usize_to_decimal,
};

verus! {

/// The user's own identity key as exported from one signing device.
pub struct IdentityKeySetting {
    pub device_fingerprint: u32,
    pub pubkey: String,
}

/// An identity key as listed: the device and its label, the full key (what is
/// copied) and the key as shown.
pub struct IdentityKeyRow {
    pub device_fingerprint: u32,
    pub label: String,
    pub pubkey: String,
    pub shown: String,
}

/// The section where the user shares their own identity key.
pub struct IdentitySection {
    pub keys: Vec<IdentityKeyRow>,
    /// The devices whose identity key is not known yet.
    pub devices: Vec<DeviceButton>,
}

/// A saved contact's card.
pub struct ContactCard {
    pub contact_index: usize,
    pub name: String,
    pub shown_pubkey: String,
    pub status: String,
    /// One button per connected device, to register the contact on it.
    pub devices: Vec<DeviceButton>,
}

/// What the contacts screen shows.
pub struct ContactsViewModel {
    pub identity: IdentitySection,
    /// Whether the "Add contact" button can be pressed.
    pub can_add: bool,
    pub cards: Vec<ContactCard>,
}

/// The four bytes of a fingerprint, most significant first.
pub open spec fn fingerprint_bytes(fp: u32) -> Seq<u8> {
    seq![
        (fp / 0x100_0000) as u8,
        ((fp / 0x1_0000) % 0x100) as u8,
        ((fp / 0x100) % 0x100) as u8,
        (fp % 0x100) as u8,
    ]
}

/// How a device is named next to its identity key: `Device ` and its
/// fingerprint in lowercase hex.
pub open spec fn device_label_spec(fp: u32) -> Seq<char> {
    "Device "@ + hex_lower_spec(fingerprint_bytes(fp))
}

fn device_label(fp: u32) -> (r: String)
    ensures
        r@ == device_label_spec(fp),
{
    let bytes: Vec<u8> = vec![
        (fp / 0x100_0000) as u8,
        ((fp / 0x1_0000) % 0x100) as u8,
        ((fp / 0x100) % 0x100) as u8,
        (fp % 0x100) as u8,
    ];
    assert(bytes@ =~= fingerprint_bytes(fp));
    String::from_str("Device ").concat(hex_encode(bytes.as_slice()).as_str())
}

/// The identity key of the device `h` is known already.
pub open spec fn key_fetched(keys: Seq<IdentityKeySetting>, h: HardwareWallet) -> bool {
    h matches HardwareWallet::Supported { fingerprint, .. } && exists|i: int|
        0 <= i < keys.len() && #[trigger] keys[i].device_fingerprint == fingerprint
}

/// The buttons to share the identity key from each device whose key is not
/// known yet, in device order.
pub open spec fn share_buttons_spec(keys: Seq<IdentityKeySetting>, hws: Seq<HardwareWallet>, fetching: bool) -> Seq<DeviceButton>
    decreases hws.len(),
{
    if hws.len() == 0 {
        Seq::empty()
    } else {
        let prev = share_buttons_spec(keys, hws.drop_last(), fetching);
        let h = hws.last();
        if key_fetched(keys, h) {
            prev
        } else {
            prev.push(DeviceButton {
                hw_index: (hws.len() - 1) as usize,
                look: device_look_spec(h, if fetching { DeviceLook::Processing } else { DeviceLook::Supported }),
                pressable: !fetching && h is Supported,
            })
        }
    }
}

/// How many devices a contact is registered on, in words.
pub open spec fn registration_status_spec(n: nat) -> Seq<char> {
    if n == 0 {
        "Unregistered"@
    } else {
        "Registered on "@ + decimal_spec(n) + " device"@ + if n == 1 {
            ""@
        } else {
            "s"@
        }
    }
}

/// The contact is registered on the device `h`.
pub open spec fn registered_on(regs: Seq<RegistrationView>, h: HardwareWallet) -> bool {
    h matches HardwareWallet::Supported { fingerprint, .. } && exists|i: int|
        0 <= i < regs.len() && #[trigger] regs[i].device_fingerprint == fingerprint
}

/// The button of the device at `i` on the card of contact `ci`.
pub open spec fn card_button_spec(
    ci: usize,
    regs: Seq<RegistrationView>,
    hws: Seq<HardwareWallet>,
    registering: Option<usize>,
    i: int,
) -> DeviceButton {
    let h = hws[i];
    let look = if registering == Some(ci) {
        DeviceLook::Processing
    } else if registered_on(regs, h) {
        DeviceLook::RegistrationSuccess
    } else {
        DeviceLook::Supported
    };
    DeviceButton {
        hw_index: i as usize,
        look: device_look_spec(h, look),
        pressable: registering is None && h is Supported,
    }
}

/// Whether a contact can be added: both the name and the key are non-blank.
pub open spec fn can_add_spec(name: Seq<char>, pubkey: Seq<char>) -> bool {
    trim_spec(name).len() > 0 && trim_spec(pubkey).len() > 0
}

#[verifier::loop_isolation(false)]
fn is_key_fetched(keys: &[IdentityKeySetting], h: &HardwareWallet) -> (r: bool)
    ensures
        r == key_fetched(keys@, *h),
{
    match h {
        HardwareWallet::Supported { fingerprint, .. } => {
            for i in 0..keys.len()
                invariant
                    forall|k: int| 0 <= k < i ==> keys@[k].device_fingerprint != *fingerprint,
            {
                if keys[i].device_fingerprint == *fingerprint {
                    assert(h->Supported_fingerprint == *fingerprint);
                    assert(keys@[i as int].device_fingerprint == h->Supported_fingerprint);
                    return true;
                }
            }
            false
        },
        _ => false,
    }
}

/// The section to share the user's own identity key: the known keys, each
/// shown shortened, and a button for each device whose key is not known,
/// pressable when no key is being fetched and the device is supported.
pub fn my_identity_key_section(
    identity_keys: &[IdentityKeySetting],
    hws: &[HardwareWallet],
    fetching_identity_key: bool,
) -> (r: IdentitySection)
    requires
        forall|i: int| 0 <= i < identity_keys@.len() ==> byte_elision_defined(#[trigger] identity_keys@[i].pubkey@),
    ensures
        r.keys@.len() == identity_keys@.len(),
        forall|i: int| 0 <= i < identity_keys@.len() ==> {
            &&& (#[trigger] r.keys@[i]).device_fingerprint == identity_keys@[i].device_fingerprint
            &&& r.keys@[i].label@ == device_label_spec(identity_keys@[i].device_fingerprint)
            &&& r.keys@[i].pubkey@ == identity_keys@[i].pubkey@
            &&& r.keys@[i].shown@ == byte_elided_spec(identity_keys@[i].pubkey@)
        },
        r.devices@ == share_buttons_spec(identity_keys@, hws@, fetching_identity_key),
{
    let mut keys: Vec<IdentityKeyRow> = Vec::new();
    for i in 0..identity_keys.len()
        invariant
            keys@.len() == i,
            forall|k: int| 0 <= k < identity_keys@.len() ==> byte_elision_defined(#[trigger] identity_keys@[k].pubkey@),
            forall|k: int| 0 <= k < i ==> {
                &&& (#[trigger] keys@[k]).device_fingerprint == identity_keys@[k].device_fingerprint
                &&& keys@[k].label@ == device_label_spec(identity_keys@[k].device_fingerprint)
                &&& keys@[k].pubkey@ == identity_keys@[k].pubkey@
                &&& keys@[k].shown@ == byte_elided_spec(identity_keys@[k].pubkey@)
            },
    {
        let ik = &identity_keys[i];
        assert(byte_elision_defined(identity_keys@[i as int].pubkey@));
        keys.push(IdentityKeyRow {
            device_fingerprint: ik.device_fingerprint,
            label: device_label(ik.device_fingerprint),
            pubkey: ik.pubkey.clone(),
            shown: elide_middle_bytes(ik.pubkey.as_str()),
        });
    }
    let mut devices: Vec<DeviceButton> = Vec::new();
    for i in 0..hws.len()
        invariant
            devices@ == share_buttons_spec(identity_keys@, hws@.take(i as int), fetching_identity_key),
    {
        proof {
            assert(hws@.take(i + 1).drop_last() =~= hws@.take(i as int));
        }
        let h = &hws[i];
        if !is_key_fetched(identity_keys, h) {
            let supported_look = if fetching_identity_key {
                DeviceLook::Processing
            } else {
                DeviceLook::Supported
            };
            devices.push(DeviceButton {
                hw_index: i,
                look: device_look(h, supported_look),
                pressable: !fetching_identity_key && h.is_supported(),
            });
        }
    }
    assert(hws@.take(hws@.len() as int) =~= hws@);
    IdentitySection { keys, devices }
}

/// How many devices a contact is registered on, in words.
fn registration_status(n: usize) -> (r: String)
    ensures
        r@ == registration_status_spec(n as nat),
{
    if n == 0 {
        String::from_str("Unregistered")
    } else {
        let plural = if n == 1 {
            ""
        } else {
            "s"
        };
        String::from_str("Registered on ").concat(usize_to_decimal(n).as_str()).concat(" device").concat(plural)
    }
}

#[verifier::loop_isolation(false)]
fn is_registered_on(regs: &Vec<ContactRegistration>, h: &HardwareWallet) -> (r: bool)
    ensures
        r == registered_on(registrations_view(regs@), *h),
{
    match h {
        HardwareWallet::Supported { fingerprint, .. } => {
            for i in 0..regs.len()
                invariant
                    forall|k: int| 0 <= k < i ==> regs@[k].device_fingerprint != *fingerprint,
            {
                if regs[i].device_fingerprint == *fingerprint {
                    assert(h->Supported_fingerprint == *fingerprint);
                    assert(registrations_view(regs@)[i as int].device_fingerprint == h->Supported_fingerprint);
                    return true;
                }
            }
            assert forall|k: int| 0 <= k < regs@.len() implies #[trigger] registrations_view(regs@)[k].device_fingerprint != *fingerprint by {
                assert(regs@[k].device_fingerprint != *fingerprint);
            }
            false
        },
        _ => false,
    }
}

/// The card of contact `contact_idx`: its name, its key shortened, how many
/// devices it is registered on, and a button per device that shows whether the
/// registration runs or succeeded there; the buttons can be pressed when no
/// registration runs and the device is supported.
pub fn contact_card(
    contact_idx: usize,
    contact: &ContactSetting,
    hws: &[HardwareWallet],
    registering_contact: Option<usize>,
) -> (r: ContactCard)
    requires
        byte_elision_defined(contact.pubkey@),
    ensures
        r.contact_index == contact_idx,
        r.name@ == contact.name@,
        r.shown_pubkey@ == byte_elided_spec(contact.pubkey@),
        r.status@ == registration_status_spec(contact.registrations@.len()),
        r.devices@.len() == hws@.len(),
        forall|i: int| 0 <= i < hws@.len() ==> #[trigger] r.devices@[i] == card_button_spec(
            contact_idx,
            registrations_view(contact.registrations@),
            hws@,
            registering_contact,
            i,
        ),
{
    let is_registering = registering_contact == Some(contact_idx);
    let mut devices: Vec<DeviceButton> = Vec::new();
    for i in 0..hws.len()
        invariant
            devices@.len() == i,
            is_registering == (registering_contact == Some(contact_idx)),
            forall|k: int| 0 <= k < i ==> #[trigger] devices@[k] == card_button_spec(
                contact_idx,
                registrations_view(contact.registrations@),
                hws@,
                registering_contact,
                k,
            ),
    {
        let h = &hws[i];
        let supported_look = if is_registering {
            DeviceLook::Processing
        } else if is_registered_on(&contact.registrations, h) {
            DeviceLook::RegistrationSuccess
        } else {
            DeviceLook::Supported
        };
        devices.push(DeviceButton {
            hw_index: i,
            look: device_look(h, supported_look),
            pressable: !is_registering && registering_contact.is_none() && h.is_supported(),
        });
    }
    ContactCard {
        contact_index: contact_idx,
        name: contact.name.clone(),
        shown_pubkey: elide_middle_bytes(contact.pubkey.as_str()),
        status: registration_status(contact.registrations.len()),
        devices,
    }
}

/// What the contacts screen shows: the identity-key section, whether a contact
/// can be added with the inputs as typed, and a card per contact.
pub fn contacts_view(
    contacts: &[ContactSetting],
    identity_keys: &[IdentityKeySetting],
    name_input: &str,
    pubkey_input: &str,
    hws: &[HardwareWallet],
    registering_contact: Option<usize>,
    fetching_identity_key: bool,
) -> (r: ContactsViewModel)
    requires
        forall|i: int| 0 <= i < identity_keys@.len() ==> byte_elision_defined(#[trigger] identity_keys@[i].pubkey@),
        forall|i: int| 0 <= i < contacts@.len() ==> byte_elision_defined(#[trigger] contacts@[i].pubkey@),
    ensures
        r.identity.keys@.len() == identity_keys@.len(),
        forall|i: int| 0 <= i < identity_keys@.len() ==> {
            &&& (#[trigger] r.identity.keys@[i]).device_fingerprint == identity_keys@[i].device_fingerprint
            &&& r.identity.keys@[i].label@ == device_label_spec(identity_keys@[i].device_fingerprint)
            &&& r.identity.keys@[i].pubkey@ == identity_keys@[i].pubkey@
            &&& r.identity.keys@[i].shown@ == byte_elided_spec(identity_keys@[i].pubkey@)
        },
        r.identity.devices@ == share_buttons_spec(identity_keys@, hws@, fetching_identity_key),
        r.can_add == can_add_spec(name_input@, pubkey_input@),
        r.cards@.len() == contacts@.len(),
        forall|i: int| 0 <= i < contacts@.len() ==> {
            let card = #[trigger] r.cards@[i];
            let c = contacts@[i];
            &&& card.contact_index == i
            &&& card.name@ == c.name@
            &&& card.shown_pubkey@ == byte_elided_spec(c.pubkey@)
            &&& card.status@ == registration_status_spec(c.registrations@.len())
            &&& card.devices@.len() == hws@.len()
            &&& forall|k: int| 0 <= k < hws@.len() ==> #[trigger] card.devices@[k] == card_button_spec(
                i as usize,
                registrations_view(c.registrations@),
                hws@,
                registering_contact,
                k,
            )
        },
{
    let identity = my_identity_key_section(identity_keys, hws, fetching_identity_key);
    let can_add = !trimmed(name_input).as_str().is_empty() && !trimmed(pubkey_input).as_str().is_empty();
    let mut cards: Vec<ContactCard> = Vec::new();
    for i in 0..contacts.len()
        invariant
            cards@.len() == i,
            forall|k: int| 0 <= k < contacts@.len() ==> byte_elision_defined(#[trigger] contacts@[k].pubkey@),
            forall|k: int| 0 <= k < i ==> {
                let card = #[trigger] cards@[k];
                let c = contacts@[k];
                &&& card.contact_index == k
                &&& card.name@ == c.name@
                &&& card.shown_pubkey@ == byte_elided_spec(c.pubkey@)
                &&& card.status@ == registration_status_spec(c.registrations@.len())
                &&& card.devices@.len() == hws@.len()
                &&& forall|j: int| 0 <= j < hws@.len() ==> #[trigger] card.devices@[j] == card_button_spec(
                    k as usize,
                    registrations_view(c.registrations@),
                    hws@,
                    registering_contact,
                    j,
                )
            },
    {
        assert(byte_elision_defined(contacts@[i as int].pubkey@));
        cards.push(contact_card(i, &contacts[i], hws, registering_contact));
    }
    ContactsViewModel { identity, can_add, cards }
}


/// On a contact's card, the button of a supported device shows a running
/// registration while this contact is being registered; otherwise it shows
/// success exactly when any of the contact's registrations is on that device
/// (whichever position the registration has), and a plain device when none
/// is. A device that is not supported shows why: locked, of the wrong
/// network, unrelated to the wallet (with its fingerprint) or unsupported.
/// A button can be pressed exactly when no registration runs and the device
/// is supported.
pub proof fn law_card_buttons(
    ci: usize,
    regs: Seq<RegistrationView>,
    hws: Seq<HardwareWallet>,
    registering: Option<usize>,
    i: int,
)
    requires
        0 <= i < hws.len(),
        i <= usize::MAX,
    ensures
        ({
            let b = card_button_spec(ci, regs, hws, registering, i);
            &&& b.hw_index as int == i
            &&& b.pressable == (registering is None && hws[i] is Supported)
            &&& hws[i] matches HardwareWallet::Supported { fingerprint, .. } ==> {
                &&& registering == Some(ci) ==> b.look == DeviceLook::Processing
                &&& registering != Some(ci) && (exists|j: int|
                    0 <= j < regs.len() && #[trigger] regs[j].device_fingerprint == fingerprint)
                    ==> b.look == DeviceLook::RegistrationSuccess
                &&& registering != Some(ci) && (forall|j: int|
                    0 <= j < regs.len() ==> #[trigger] regs[j].device_fingerprint != fingerprint)
                    ==> b.look == DeviceLook::Supported
            }
            &&& hws[i] is Locked ==> b.look == DeviceLook::Locked
            &&& hws[i] matches HardwareWallet::Unsupported { reason, .. } ==> b.look == match reason {
                UnsupportedReason::NotPartOfWallet(fg) => DeviceLook::Unrelated(fg),
                UnsupportedReason::WrongNetwork => DeviceLook::WrongNetwork,
                _ => DeviceLook::Unsupported,
            }
        }),
{
}


/// The identity-key section offers one button per connected device whose
/// identity key is not listed yet, in the devices' order, and none for a
/// supported device whose fingerprint some listed key has. A supported
/// device's button shows it busy while a key is being fetched, and can then
/// not be pressed; otherwise it can be pressed exactly when the device is
/// supported.
pub proof fn law_share_buttons(keys: Seq<IdentityKeySetting>, hws: Seq<HardwareWallet>, fetching: bool)
    requires
        hws.len() <= usize::MAX + 1,
    ensures
        ({
            let bs = share_buttons_spec(keys, hws, fetching);
            &&& forall|k: int| 0 <= k < bs.len() ==> {
                let i = (#[trigger] bs[k]).hw_index as int;
                &&& 0 <= i < hws.len()
                &&& !(hws[i] matches HardwareWallet::Supported { fingerprint, .. } && exists|j: int|
                    0 <= j < keys.len() && #[trigger] keys[j].device_fingerprint == fingerprint)
                &&& bs[k].pressable == (!fetching && hws[i] is Supported)
                &&& hws[i] is Supported ==> bs[k].look == (if fetching {
                    DeviceLook::Processing
                } else {
                    DeviceLook::Supported
                })
            }
            &&& forall|k1: int, k2: int| 0 <= k1 < k2 < bs.len() ==> #[trigger] bs[k1].hw_index < #[trigger] bs[k2].hw_index
            &&& forall|i: int| 0 <= i < hws.len() && !(#[trigger] hws[i] matches HardwareWallet::Supported { fingerprint, .. }
                && exists|j: int| 0 <= j < keys.len() && #[trigger] keys[j].device_fingerprint == fingerprint)
                ==> exists|k: int| 0 <= k < bs.len() && #[trigger] bs[k].hw_index as int == i
        }),
    decreases hws.len(),
{
    if hws.len() > 0 {
        let pre = hws.drop_last();
        law_share_buttons(keys, pre, fetching);
        let prev = share_buttons_spec(keys, pre, fetching);
        let bs = share_buttons_spec(keys, hws, fetching);
        let n = hws.len() - 1;
        assert forall|k: int| 0 <= k < prev.len() implies (#[trigger] prev[k]).hw_index < n by {
        }
        assert forall|i: int| 0 <= i < n implies #[trigger] hws[i] == pre[i] by {}
        assert forall|i: int| 0 <= i < hws.len() && !(#[trigger] hws[i] matches HardwareWallet::Supported { fingerprint, .. }
            && exists|j: int| 0 <= j < keys.len() && #[trigger] keys[j].device_fingerprint == fingerprint)
            implies exists|k: int| 0 <= k < bs.len() && #[trigger] bs[k].hw_index as int == i by {
            if i < n {
                assert(pre[i] == hws[i]);
                let k = choose|k: int| 0 <= k < prev.len() && #[trigger] prev[k].hw_index as int == i;
                assert(bs[k] == prev[k]);
            } else {
                assert(!key_fetched(keys, hws.last()));
                assert(bs[prev.len() as int].hw_index as int == i);
            }
        }
        assert forall|k: int| 0 <= k < bs.len() implies {
            let i = (#[trigger] bs[k]).hw_index as int;
            &&& 0 <= i < hws.len()
            &&& !(hws[i] matches HardwareWallet::Supported { fingerprint, .. } && exists|j: int|
                0 <= j < keys.len() && #[trigger] keys[j].device_fingerprint == fingerprint)
            &&& bs[k].pressable == (!fetching && hws[i] is Supported)
            &&& hws[i] is Supported ==> bs[k].look == (if fetching {
                DeviceLook::Processing
            } else {
                DeviceLook::Supported
            })
        } by {
            if k < prev.len() {
                assert(bs[k] == prev[k]);
                assert(hws[prev[k].hw_index as int] == pre[prev[k].hw_index as int]);
            } else {
                assert(bs[k].hw_index as int == n);
            }
        }
        assert forall|k1: int, k2: int| 0 <= k1 < k2 < bs.len() implies #[trigger] bs[k1].hw_index < #[trigger] bs[k2].hw_index by {
            assert(bs[k1] == prev[k1]);
            if k2 < prev.len() {
                assert(bs[k2] == prev[k2]);
            }
        }
    }
}


/// A device's label is `Device ` followed by eight lowercase hexadecimal
/// digits that read back, most significant byte first, as the device's
/// fingerprint.
pub proof fn law_device_label(fp: u32)
    ensures
        ({
            let l = device_label_spec(fp);
            let digits = l.subrange(7, l.len() as int);
            let b = hex_decode_spec(digits);
            &&& l.len() == 15
            &&& l.subrange(0, 7) == "Device "@
            &&& is_hex_string(digits)
            &&& b.len() == 4
            &&& b[0] as int * 0x100_0000 + b[1] as int * 0x1_0000 + b[2] as int * 0x100 + b[3] as int == fp as int
        }),
{
    reveal_strlit("Device ");
    let l = device_label_spec(fp);
    law_hex_round_trip(fingerprint_bytes(fp));
    assert(l.subrange(7, l.len() as int) =~= hex_lower_spec(fingerprint_bytes(fp)));
    assert(l.subrange(0, 7) =~= "Device "@);
    let x = fp as int;
    assert(x == (x / 0x100_0000) * 0x100_0000 + ((x / 0x1_0000) % 0x100) * 0x1_0000 + ((x / 0x100) % 0x100) * 0x100 + x % 0x100)
        by (nonlinear_arith)
        requires
            0 <= x < 0x1_0000_0000,
    ;
}

} // verus!
