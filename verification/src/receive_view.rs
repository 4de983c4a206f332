use vstd::prelude::*;
use vstd::string::*;
use std::collections::HashSet;
use crate::hw::{device_look, device_look_spec, DeviceLook, HardwareWallet, UnsupportedReason};
use crate::contacts_panel::{FormValue, FormView};
use crate::text::{char_elided_spec, decimal_spec, elide_middle_chars, usize_to_decimal};

verus! {

broadcast use vstd::std_specs::hash::group_hash_axioms;

/// How many characters are kept at each end of a collapsed address.
pub const NUM_ADDR_CHARS: usize = 16;

/// The label of an address on its card: the label editor while the label is
/// being edited, else the editable label, which may be absent.
pub enum LabelShown {
    Editing(FormValue),
    Editable(Option<String>),
}

pub enum LabelView {
    Editing(FormView),
    Editable(Option<Seq<char>>),
}

impl View for LabelShown {
    type V = LabelView;

    open spec fn view(&self) -> LabelView {
        match self {
            LabelShown::Editing(f) => LabelView::Editing(f@),
            LabelShown::Editable(Some(l)) => LabelView::Editable(Some(l@)),
            LabelShown::Editable(None) => LabelView::Editable(None),
        }
    }
}

/// A card of a receive address: its row (which its "verify" and "QR code"
/// buttons report), the address, the text shown and copied (the signed address
/// when it was signed with an identity key, else the address), and its label.
pub struct AddressCard {
    pub row_index: usize,
    pub address: String,
    pub shown: String,
    pub label: LabelShown,
}

/// A previously generated address: a full card (showing and copying the
/// address itself) when the user selected it, else a collapsed row with its
/// shortened text and its label (empty when it has none).
pub enum PreviousRow {
    Card { row_index: usize, address: String, label: LabelShown },
    Collapsed { address: String, shown: String, label_text: String },
}

/// A device that can sign an address with its identity key.
#[derive(Clone, Copy, Debug, PartialEq, Eq, Structural)]
pub struct SigningDeviceButton {
    pub hw_index: usize,
    pub look: DeviceLook,
    pub selected: bool,
    pub pressable: bool,
}

/// What the receive screen shows.
pub struct ReceiveModel {
    /// Whether the "sign address with your identity key" box is ticked.
    pub sign_with_identity: bool,
    /// The "Generate address" button is the primary one while no address was generated.
    pub generate_is_primary: bool,
    /// The devices to sign addresses with, when the user chose to sign.
    pub signing_devices: Option<Vec<SigningDeviceButton>>,
    pub signing_in_progress: bool,
    /// The generated addresses, the most recent first.
    pub address_cards: Vec<AddressCard>,
    /// The toggle of the previous addresses is shown when there are some.
    pub show_previous_toggle: bool,
    pub previous_expanded: bool,
    pub previous_rows: Option<Vec<PreviousRow>>,
    /// The "See more" button, with whether it shows a fetch in progress.
    pub see_more: Option<bool>,
}

/// The text stored for `key`: that of the first pair listed for it.
pub open spec fn text_for(pairs: Seq<(String, String)>, key: Seq<char>) -> Option<Seq<char>> {
    if exists|j: int| 0 <= j < pairs.len() && pairs[j].0@ == key {
        let j = choose|j: int|
            0 <= j < pairs.len() && pairs[j].0@ == key && forall|k: int| 0 <= k < j ==> pairs[k].0@ != key;
        Some(pairs[j].1@)
    } else {
        None
    }
}

/// The label being edited for `key`: that of the first pair listed for it.
pub open spec fn editor_for(pairs: Seq<(String, FormValue)>, key: Seq<char>) -> Option<FormView> {
    if exists|j: int| 0 <= j < pairs.len() && pairs[j].0@ == key {
        let j = choose|j: int|
            0 <= j < pairs.len() && pairs[j].0@ == key && forall|k: int| 0 <= k < j ==> pairs[k].0@ != key;
        Some(pairs[j].1@)
    } else {
        None
    }
}

proof fn first_text_from(pairs: Seq<(String, String)>, key: Seq<char>, j0: int) -> (j: int)
    requires
        0 <= j0 < pairs.len(),
        pairs[j0].0@ == key,
    ensures
        0 <= j <= j0,
        pairs[j].0@ == key,
        forall|k: int| 0 <= k < j ==> pairs[k].0@ != key,
    decreases j0,
{
    if exists|k: int| 0 <= k < j0 && pairs[k].0@ == key {
        let k = choose|k: int| 0 <= k < j0 && pairs[k].0@ == key;
        first_text_from(pairs, key, k)
    } else {
        j0
    }
}

proof fn first_editor_from(pairs: Seq<(String, FormValue)>, key: Seq<char>, j0: int) -> (j: int)
    requires
        0 <= j0 < pairs.len(),
        pairs[j0].0@ == key,
    ensures
        0 <= j <= j0,
        pairs[j].0@ == key,
        forall|k: int| 0 <= k < j ==> pairs[k].0@ != key,
    decreases j0,
{
    if exists|k: int| 0 <= k < j0 && pairs[k].0@ == key {
        let k = choose|k: int| 0 <= k < j0 && pairs[k].0@ == key;
        first_editor_from(pairs, key, k)
    } else {
        j0
    }
}

/// A stored text for `key` exists exactly when some pair is for `key`; it is
/// then the text of a pair for `key` with no earlier pair for it.
pub proof fn lemma_text_for(pairs: Seq<(String, String)>, key: Seq<char>)
    ensures
        match text_for(pairs, key) {
            Some(t) => exists|j: int| 0 <= j < pairs.len() && pairs[j].0@ == key && #[trigger] pairs[j].1@ == t
                && forall|k: int| 0 <= k < j ==> pairs[k].0@ != key,
            None => forall|j: int| 0 <= j < pairs.len() ==> pairs[j].0@ != key,
        },
{
    if exists|j: int| 0 <= j < pairs.len() && pairs[j].0@ == key {
        let j0 = choose|j: int| 0 <= j < pairs.len() && pairs[j].0@ == key;
        let j = first_text_from(pairs, key, j0);
        assert(0 <= j < pairs.len() && pairs[j].0@ == key && forall|k: int| 0 <= k < j ==> pairs[k].0@ != key);
        let w = choose|w: int|
            0 <= w < pairs.len() && pairs[w].0@ == key && forall|k: int| 0 <= k < w ==> pairs[k].0@ != key;
        assert(0 <= w < pairs.len() && pairs[w].0@ == key && forall|k: int| 0 <= k < w ==> pairs[k].0@ != key);
        assert(pairs[w].1@ == pairs[w].1@);
    }
}

/// A label being edited for `key` exists exactly when some pair is for `key`;
/// it is then the editor of a pair for `key` with no earlier pair for it.
pub proof fn lemma_editor_for(pairs: Seq<(String, FormValue)>, key: Seq<char>)
    ensures
        match editor_for(pairs, key) {
            Some(f) => exists|j: int| 0 <= j < pairs.len() && pairs[j].0@ == key && #[trigger] pairs[j].1@ == f
                && forall|k: int| 0 <= k < j ==> pairs[k].0@ != key,
            None => forall|j: int| 0 <= j < pairs.len() ==> pairs[j].0@ != key,
        },
{
    if exists|j: int| 0 <= j < pairs.len() && pairs[j].0@ == key {
        let j0 = choose|j: int| 0 <= j < pairs.len() && pairs[j].0@ == key;
        let j = first_editor_from(pairs, key, j0);
        assert(0 <= j < pairs.len() && pairs[j].0@ == key && forall|k: int| 0 <= k < j ==> pairs[k].0@ != key);
        let w = choose|w: int|
            0 <= w < pairs.len() && pairs[w].0@ == key && forall|k: int| 0 <= k < w ==> pairs[k].0@ != key;
        assert(0 <= w < pairs.len() && pairs[w].0@ == key && forall|k: int| 0 <= k < w ==> pairs[k].0@ != key);
        assert(pairs[w].1@ == pairs[w].1@);
    }
}

/// The text shown for `address`.
pub open spec fn shown_address(signed: Seq<(String, String)>, address: Seq<char>) -> Seq<char> {
    match text_for(signed, address) {
        Some(s) => s,
        None => address,
    }
}

/// The label of an address card: the editor when the label is being edited,
/// else the stored label if any.
pub open spec fn card_label_spec(labels: Seq<(String, String)>, editing: Seq<(String, FormValue)>, address: Seq<char>) -> LabelView {
    match editor_for(editing, address) {
        Some(f) => LabelView::Editing(f),
        None => LabelView::Editable(text_for(labels, address)),
    }
}

/// The label beside a collapsed address: the stored label, or empty text.
pub open spec fn row_label_spec(labels: Seq<(String, String)>, address: Seq<char>) -> Seq<char> {
    match text_for(labels, address) {
        Some(l) => l,
        None => Seq::empty(),
    }
}

/// `address` is among the selected ones.
pub open spec fn is_selected(selected: Seq<String>, address: Seq<char>) -> bool {
    exists|j: int| 0 <= j < selected.len() && #[trigger] selected[j]@ == address
}

/// The button of signing device `i`.
pub open spec fn signing_button_spec(hws: Seq<HardwareWallet>, chosen: Option<usize>, i: int) -> SigningDeviceButton {
    SigningDeviceButton {
        hw_index: i as usize,
        look: device_look_spec(hws[i], DeviceLook::Supported),
        selected: chosen == Some(i as usize),
        pressable: hws[i] is Supported,
    }
}

/// The row of a previous address: a card numbered `row` when selected, else
/// collapsed.
pub open spec fn previous_row_spec(
    r: PreviousRow,
    selected: Seq<String>,
    labels: Seq<(String, String)>,
    editing: Seq<(String, FormValue)>,
    address: Seq<char>,
    row: int,
) -> bool {
    if is_selected(selected, address) {
        r matches PreviousRow::Card { row_index, address: a, label } && row_index == row && a@ == address
            && label@ == card_label_spec(labels, editing, address)
    } else {
        r matches PreviousRow::Collapsed { address: a, shown, label_text } && a@ == address
            && shown@ == char_elided_spec(address, NUM_ADDR_CHARS as nat) && label_text@ == row_label_spec(labels, address)
    }
}

/// A previous address is drawn as a full card, numbered `row`, whenever it is
/// among the selected addresses, at whatever position of the selection; it is
/// drawn collapsed, with its text shortened and its stored label (or nothing),
/// exactly when no selected address is it. Either way the row holds that
/// address.
pub proof fn law_selected_previous_are_cards(
    r: PreviousRow,
    selected: Seq<String>,
    labels: Seq<(String, String)>,
    editing: Seq<(String, FormValue)>,
    address: Seq<char>,
    row: int,
)
    requires
        previous_row_spec(r, selected, labels, editing, address, row),
    ensures
        (exists|j: int| 0 <= j < selected.len() && #[trigger] selected[j]@ == address) ==> (r matches PreviousRow::Card {
            row_index,
            address: a,
            ..
        } && row_index as int == row && a@ == address),
        (forall|j: int| 0 <= j < selected.len() ==> #[trigger] selected[j]@ != address) ==> (r matches PreviousRow::Collapsed {
            address: a,
            shown,
            label_text,
        } && a@ == address && shown@ == char_elided_spec(address, NUM_ADDR_CHARS as nat) && ((forall|j: int|
            0 <= j < labels.len() ==> #[trigger] labels[j].0@ != address) ==> label_text@.len() == 0)),
{
}

/// The label on an address card: while a label is being edited for the
/// address, its editor (the first one listed for it); otherwise the stored
/// label of the address (the first one listed for it), or none when no label
/// is stored. The text shown for an address is the signed address recorded for
/// it, or the address itself when none is.
pub proof fn law_card_labels(
    signed: Seq<(String, String)>,
    labels: Seq<(String, String)>,
    editing: Seq<(String, FormValue)>,
    address: Seq<char>,
)
    ensures
        forall|j: int| 0 <= j < editing.len() && #[trigger] editing[j].0@ == address
            && (forall|k: int| 0 <= k < j ==> editing[k].0@ != address)
            ==> card_label_spec(labels, editing, address) == LabelView::Editing(editing[j].1@),
        (forall|j: int| 0 <= j < editing.len() ==> #[trigger] editing[j].0@ != address) ==> {
            &&& forall|j: int| 0 <= j < labels.len() && #[trigger] labels[j].0@ == address
                && (forall|k: int| 0 <= k < j ==> labels[k].0@ != address)
                ==> card_label_spec(labels, editing, address) == LabelView::Editable(Some(labels[j].1@))
            &&& (forall|j: int| 0 <= j < labels.len() ==> #[trigger] labels[j].0@ != address)
                ==> card_label_spec(labels, editing, address) == LabelView::Editable(None)
        },
        forall|j: int| 0 <= j < signed.len() && #[trigger] signed[j].0@ == address
            && (forall|k: int| 0 <= k < j ==> signed[k].0@ != address)
            ==> shown_address(signed, address) == signed[j].1@,
        (forall|j: int| 0 <= j < signed.len() ==> #[trigger] signed[j].0@ != address) ==> shown_address(signed, address)
            == address,
{
    lemma_text_for(labels, address);
    lemma_text_for(signed, address);
    lemma_editor_for(editing, address);
    assert forall|j: int| 0 <= j < editing.len() && #[trigger] editing[j].0@ == address
        && (forall|k: int| 0 <= k < j ==> editing[k].0@ != address)
        implies card_label_spec(labels, editing, address) == LabelView::Editing(editing[j].1@) by {
        let w = choose|w: int| 0 <= w < editing.len() && editing[w].0@ == address && #[trigger] editing[w].1@
            == editor_for(editing, address)->0 && forall|k: int| 0 <= k < w ==> editing[k].0@ != address;
        if w < j {
            assert(editing[w].0@ != address);
        } else if j < w {
            assert(editing[j].0@ != address);
        }
    }
    assert forall|j: int| 0 <= j < labels.len() && #[trigger] labels[j].0@ == address
        && (forall|k: int| 0 <= k < j ==> labels[k].0@ != address)
        implies text_for(labels, address) == Some(labels[j].1@) by {
        let w = choose|w: int| 0 <= w < labels.len() && labels[w].0@ == address && #[trigger] labels[w].1@
            == text_for(labels, address)->0 && forall|k: int| 0 <= k < w ==> labels[k].0@ != address;
        if w < j {
            assert(labels[w].0@ != address);
        } else if j < w {
            assert(labels[j].0@ != address);
        }
    }
    assert forall|j: int| 0 <= j < signed.len() && #[trigger] signed[j].0@ == address
        && (forall|k: int| 0 <= k < j ==> signed[k].0@ != address)
        implies text_for(signed, address) == Some(signed[j].1@) by {
        let w = choose|w: int| 0 <= w < signed.len() && signed[w].0@ == address && #[trigger] signed[w].1@
            == text_for(signed, address)->0 && forall|k: int| 0 <= k < w ==> signed[k].0@ != address;
        if w < j {
            assert(signed[w].0@ != address);
        } else if j < w {
            assert(signed[j].0@ != address);
        }
    }
}

/// Among the devices that can sign an address with their identity key, the
/// button of device `i` is marked exactly when `i` is the chosen device, can
/// be pressed exactly when the device is supported, and shows a supported
/// device plainly and any other with the reason it cannot be used.
pub proof fn law_signing_buttons(hws: Seq<HardwareWallet>, chosen: Option<usize>, i: int)
    requires
        0 <= i < hws.len(),
        i <= usize::MAX,
    ensures
        ({
            let b = signing_button_spec(hws, chosen, i);
            &&& b.hw_index as int == i
            &&& b.selected <==> (chosen matches Some(c) && c as int == i)
            &&& b.pressable <==> hws[i] is Supported
            &&& hws[i] is Supported ==> b.look == DeviceLook::Supported
            &&& hws[i] is Locked ==> b.look == DeviceLook::Locked
            &&& hws[i] matches HardwareWallet::Unsupported { reason, .. } ==> b.look == match reason {
                UnsupportedReason::NotPartOfWallet(fg) => DeviceLook::Unrelated(fg),
                UnsupportedReason::WrongNetwork => DeviceLook::WrongNetwork,
                _ => DeviceLook::Unsupported,
            }
        }),
{
}

/// The position of the first pair listed for `key`.
fn find_text(pairs: &[(String, String)], key: &String) -> (r: Option<usize>)
    ensures
        match r {
            Some(j) => j < pairs@.len() && text_for(pairs@, key@) == Some(pairs@[j as int].1@),
            None => text_for(pairs@, key@) is None,
        },
{
    let mut j: usize = 0;
    while j < pairs.len()
        invariant
            j <= pairs@.len(),
            forall|k: int| 0 <= k < j ==> pairs@[k].0@ != key@,
        decreases pairs@.len() - j,
    {
        if pairs[j].0 == *key {
            proof {
                let w = choose|w: int|
                    0 <= w < pairs@.len() && pairs@[w].0@ == key@ && forall|k: int| 0 <= k < w ==> pairs@[k].0@ != key@;
                assert(pairs@[j as int].0@ == key@);
                if w < j {
                    assert(pairs@[w].0@ != key@);
                } else if w > j {
                    assert(pairs@[j as int].0@ != key@);
                }
            }
            return Some(j);
        }
        j = j + 1;
    }
    None
}

/// The position of the first label editor listed for `key`.
fn find_editor(pairs: &[(String, FormValue)], key: &String) -> (r: Option<usize>)
    ensures
        match r {
            Some(j) => j < pairs@.len() && editor_for(pairs@, key@) == Some(pairs@[j as int].1@),
            None => editor_for(pairs@, key@) is None,
        },
{
    let mut j: usize = 0;
    while j < pairs.len()
        invariant
            j <= pairs@.len(),
            forall|k: int| 0 <= k < j ==> pairs@[k].0@ != key@,
        decreases pairs@.len() - j,
    {
        if pairs[j].0 == *key {
            proof {
                let w = choose|w: int|
                    0 <= w < pairs@.len() && pairs@[w].0@ == key@ && forall|k: int| 0 <= k < w ==> pairs@[k].0@ != key@;
                assert(pairs@[j as int].0@ == key@);
                if w < j {
                    assert(pairs@[w].0@ != key@);
                } else if w > j {
                    assert(pairs@[j as int].0@ != key@);
                }
            }
            return Some(j);
        }
        j = j + 1;
    }
    None
}

/// The label of the card of `address`.
fn card_label(labels: &[(String, String)], editing: &[(String, FormValue)], address: &String) -> (r: LabelShown)
    ensures
        r@ == card_label_spec(labels@, editing@, address@),
{
    match find_editor(editing, address) {
        Some(j) => LabelShown::Editing(editing[j].1.clone()),
        None => match find_text(labels, address) {
            Some(j) => LabelShown::Editable(Some(labels[j].1.clone())),
            None => LabelShown::Editable(None),
        },
    }
}

/// The label beside the collapsed row of `address`.
fn row_label(labels: &[(String, String)], address: &String) -> (r: String)
    ensures
        r@ == row_label_spec(labels@, address@),
{
    match find_text(labels, address) {
        Some(j) => labels[j].1.clone(),
        None => String::new(),
    }
}

fn signed_lookup(signed: &[(String, String)], address: &String) -> (r: String)
    ensures
        r@ == shown_address(signed@, address@),
{
    match find_text(signed, address) {
        Some(j) => signed[j].1.clone(),
        None => address.clone(),
    }
}

fn selected_contains(selected: &[String], address: &String) -> (r: bool)
    ensures
        r == is_selected(selected@, address@),
{
    for j in 0..selected.len()
        invariant
            forall|k: int| 0 <= k < j ==> selected@[k]@ != address@,
    {
        if selected[j] == *address {
            assert(selected@[j as int]@ == address@);
            return true;
        }
    }
    false
}

/// What the receive screen shows. The generated addresses are listed most
/// recent first, each with its own row and its label from `labels`; the
/// previous addresses, when expanded, follow with rows numbered after the
/// generated ones, selected ones as cards and the others collapsed to their
/// first and last 16 characters, with their labels from `prev_labels`.
/// Labels being edited are listed in `labels_editing`. Each list of pairs is
/// read by its first pair for an address.
pub fn receive(
    addresses: &[String],
    labels: &[(String, String)],
    prev_addresses: &[String],
    prev_labels: &[(String, String)],
    show_prev_addresses: bool,
    selected: &[String],
    labels_editing: &[(String, FormValue)],
    is_last_page: bool,
    processing: bool,
    sign_with_identity: bool,
    identity_hws: Option<&[HardwareWallet]>,
    selected_identity_hw: Option<usize>,
    signed_addresses: &[(String, String)],
    signing_address: bool,
) -> (r: ReceiveModel)
    requires
        addresses@.len() + prev_addresses@.len() <= usize::MAX,
    ensures
        r.generate_is_primary == (addresses@.len() == 0),
        r.sign_with_identity == sign_with_identity,
        match identity_hws {
            Some(hws) => r.signing_devices matches Some(b) && b@.len() == hws@.len()
                && forall|i: int| 0 <= i < hws@.len() ==> #[trigger] b@[i] == signing_button_spec(
                    hws@,
                    selected_identity_hw,
                    i,
                ),
            None => r.signing_devices is None,
        },
        r.signing_in_progress == signing_address,
        r.address_cards@.len() == addresses@.len(),
        forall|k: int| 0 <= k < addresses@.len() ==> {
            let i = addresses@.len() - 1 - k;
            &&& (#[trigger] r.address_cards@[k]).row_index == i
            &&& r.address_cards@[k].address@ == addresses@[i]@
            &&& r.address_cards@[k].shown@ == shown_address(signed_addresses@, addresses@[i]@)
            &&& r.address_cards@[k].label@ == card_label_spec(labels@, labels_editing@, addresses@[i]@)
        },
        r.show_previous_toggle == (prev_addresses@.len() > 0),
        r.previous_expanded == show_prev_addresses,
        match r.previous_rows {
            Some(rows) => {
                &&& show_prev_addresses
                &&& rows@.len() == prev_addresses@.len()
                &&& forall|i: int| 0 <= i < prev_addresses@.len() ==> previous_row_spec(
                    #[trigger] rows@[i],
                    selected@,
                    prev_labels@,
                    labels_editing@,
                    prev_addresses@[i]@,
                    addresses@.len() + i,
                )
            },
            None => !show_prev_addresses,
        },
        r.see_more == if !is_last_page && show_prev_addresses {
            Some(processing)
        } else {
            None
        },
{
    let signing_devices = match identity_hws {
        Some(hws) => {
            let mut b: Vec<SigningDeviceButton> = Vec::new();
            for i in 0..hws.len()
                invariant
                    b@.len() == i,
                    forall|k: int| 0 <= k < i ==> #[trigger] b@[k] == signing_button_spec(hws@, selected_identity_hw, k),
            {
                b.push(SigningDeviceButton {
                    hw_index: i,
                    look: device_look(&hws[i], DeviceLook::Supported),
                    selected: selected_identity_hw == Some(i),
                    pressable: hws[i].is_supported(),
                });
            }
            Some(b)
        },
        None => None,
    };
    let n = addresses.len();
    let mut address_cards: Vec<AddressCard> = Vec::new();
    for k in 0..n
        invariant
            n == addresses@.len(),
            address_cards@.len() == k,
            forall|q: int| 0 <= q < k ==> {
                let i = n - 1 - q;
                &&& (#[trigger] address_cards@[q]).row_index == i
                &&& address_cards@[q].address@ == addresses@[i]@
                &&& address_cards@[q].shown@ == shown_address(signed_addresses@, addresses@[i]@)
                &&& address_cards@[q].label@ == card_label_spec(labels@, labels_editing@, addresses@[i]@)
            },
    {
        let i = n - 1 - k;
        let address = &addresses[i];
        address_cards.push(AddressCard {
            row_index: i,
            address: address.clone(),
            shown: signed_lookup(signed_addresses, address),
            label: card_label(labels, labels_editing, address),
        });
    }
    let previous_rows = if show_prev_addresses {
        let mut rows: Vec<PreviousRow> = Vec::new();
        for i in 0..prev_addresses.len()
            invariant
                n == addresses@.len(),
                n + prev_addresses@.len() <= usize::MAX,
                rows@.len() == i,
                forall|q: int| 0 <= q < i ==> previous_row_spec(
                    #[trigger] rows@[q],
                    selected@,
                    prev_labels@,
                    labels_editing@,
                    prev_addresses@[q]@,
                    n + q,
                ),
        {
            let address = &prev_addresses[i];
            if selected_contains(selected, address) {
                rows.push(PreviousRow::Card {
                    row_index: n + i,
                    address: address.clone(),
                    label: card_label(prev_labels, labels_editing, address),
                });
            } else {
                rows.push(PreviousRow::Collapsed {
                    address: address.clone(),
                    shown: elide_middle_chars(address.as_str(), NUM_ADDR_CHARS),
                    label_text: row_label(prev_labels, address),
                });
            }
        }
        Some(rows)
    } else {
        None
    };
    ReceiveModel {
        sign_with_identity,
        generate_is_primary: addresses.len() == 0,
        signing_devices,
        signing_in_progress: signing_address,
        address_cards,
        show_previous_toggle: prev_addresses.len() > 0,
        previous_expanded: show_prev_addresses,
        previous_rows,
        see_more: if !is_last_page && show_prev_addresses {
            Some(processing)
        } else {
            None
        },
    }
}

/// A derivation step: a normal or a hardened child index.
#[derive(Clone, Copy, Debug, PartialEq, Eq, Structural)]
pub enum DerivationIndex {
    Normal(u32),
    Hardened(u32),
}

/// How a derivation index is written: its decimal index, followed by `'`
/// when hardened.
pub open spec fn derivation_index_text(d: DerivationIndex) -> Seq<char> {
    match d {
        DerivationIndex::Normal(i) => decimal_spec(i as nat),
        DerivationIndex::Hardened(i) => decimal_spec(i as nat) + "'"@,
    }
}

/// What the dialog to verify an address on a device shows.
pub struct VerifyAddressModel {
    /// The warning shown above the dialog, if any.
    pub warning: Option<String>,
    /// The address, which is also what its copy button copies.
    pub address: String,
    pub derivation_index: String,
    /// For each device, whether it is among those chosen to verify on.
    pub chosen: Vec<bool>,
}

/// What the dialog to verify an address shows: the warning if any, the
/// address, its derivation index, and for each device whether it is chosen:
/// a supported device whose fingerprint was chosen.
pub fn verify_address_modal(
    warning: Option<&String>,
    hws: &[HardwareWallet],
    chosen_hws: &HashSet<u32>,
    address: &String,
    derivation_index: DerivationIndex,
) -> (r: VerifyAddressModel)
    ensures
        match warning {
            Some(w) => r.warning matches Some(x) && x@ == w@,
            None => r.warning is None,
        },
        r.address@ == address@,
        r.derivation_index@ == derivation_index_text(derivation_index),
        r.chosen@.len() == hws@.len(),
        forall|i: int| 0 <= i < hws@.len() ==> #[trigger] r.chosen@[i] == (hws@[i] matches HardwareWallet::Supported { fingerprint, .. }
            && chosen_hws@.contains(fingerprint)),
{
    let mut chosen: Vec<bool> = Vec::new();
    for i in 0..hws.len()
        invariant
            chosen@.len() == i,
            forall|k: int| 0 <= k < i ==> #[trigger] chosen@[k] == (hws@[k] matches HardwareWallet::Supported { fingerprint, .. }
                && chosen_hws@.contains(fingerprint)),
    {
        let c = match &hws[i] {
            HardwareWallet::Supported { fingerprint, .. } => chosen_hws.contains(fingerprint),
            _ => false,
        };
        chosen.push(c);
    }
    let index_text = match derivation_index {
        DerivationIndex::Normal(i) => usize_to_decimal(i as usize),
        DerivationIndex::Hardened(i) => usize_to_decimal(i as usize).concat("'"),
    };
    VerifyAddressModel {
        warning: match warning {
            Some(w) => Some(w.clone()),
            None => None,
        },
        address: address.clone(),
        derivation_index: index_text,
        chosen,
    }
}

} // verus!
