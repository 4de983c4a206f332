use vstd::prelude::*;

verus! {

/// A bitcoin network.
#[derive(Clone, Copy, Debug, PartialEq, Eq, Structural)]
pub enum Network {
    Bitcoin,
    Testnet,
    Testnet4,
    Signet,
    Regtest,
}

/// A contact's identity key registered on one signing device.
#[derive(Debug)]
pub struct ContactRegistration {
    pub device_fingerprint: u32,
    pub registration_id: String,
    pub proof: String,
}

pub struct RegistrationView {
    pub device_fingerprint: u32,
    pub registration_id: Seq<char>,
    pub proof: Seq<char>,
}

impl View for ContactRegistration {
    type V = RegistrationView;

    open spec fn view(&self) -> RegistrationView {
        RegistrationView {
            device_fingerprint: self.device_fingerprint,
            registration_id: self.registration_id@,
            proof: self.proof@,
        }
    }
}

impl Clone for ContactRegistration {
    fn clone(&self) -> (r: Self)
        ensures
            r@ == self@,
    {
        ContactRegistration {
            device_fingerprint: self.device_fingerprint,
            registration_id: self.registration_id.clone(),
            proof: self.proof.clone(),
        }
    }
}

/// The views of a sequence of registrations.
pub open spec fn registrations_view(v: Seq<ContactRegistration>) -> Seq<RegistrationView> {
    v.map_values(|r: ContactRegistration| r@)
}

/// A saved contact: a name, a hex identity public key and the devices it is
/// registered on.
#[derive(Debug)]
pub struct ContactSetting {
    pub name: String,
    pub pubkey: String,
    pub registrations: Vec<ContactRegistration>,
}

pub struct ContactView {
    pub name: Seq<char>,
    pub pubkey: Seq<char>,
    pub registrations: Seq<RegistrationView>,
}

impl View for ContactSetting {
    type V = ContactView;

    open spec fn view(&self) -> ContactView {
        ContactView {
            name: self.name@,
            pubkey: self.pubkey@,
            registrations: registrations_view(self.registrations@),
        }
    }
}

/// Copies a list of registrations.
pub fn clone_registrations(v: &Vec<ContactRegistration>) -> (r: Vec<ContactRegistration>)
    ensures
        registrations_view(r@) == registrations_view(v@),
{
    let mut r: Vec<ContactRegistration> = Vec::new();
    for i in 0..v.len()
        invariant
            r.len() == i,
            forall|j: int| 0 <= j < i ==> #[trigger] r@[j]@ == v@[j]@,
    {
        let c = v[i].clone();
        assert(c@ == v@[i as int]@);
        r.push(c);
    }
    assert(registrations_view(r@) =~= registrations_view(v@));
    r
}

impl Clone for ContactSetting {
    fn clone(&self) -> (r: Self)
        ensures
            r@ == self@,
    {
        ContactSetting {
            name: self.name.clone(),
            pubkey: self.pubkey.clone(),
            registrations: clone_registrations(&self.registrations),
        }
    }
}

/// The views of a sequence of contacts.
pub open spec fn contacts_view_of(v: Seq<ContactSetting>) -> Seq<ContactView> {
    v.map_values(|c: ContactSetting| c@)
}

/// Copies a list of contacts.
pub fn clone_contacts(v: &Vec<ContactSetting>) -> (r: Vec<ContactSetting>)
    ensures
        contacts_view_of(r@) == contacts_view_of(v@),
{
    let mut r: Vec<ContactSetting> = Vec::new();
    for i in 0..v.len()
        invariant
            r.len() == i,
            forall|j: int| 0 <= j < i ==> #[trigger] r@[j]@ == v@[j]@,
    {
        let c = v[i].clone();
        assert(c@ == v@[i as int]@);
        r.push(c);
    }
    assert(contacts_view_of(r@) =~= contacts_view_of(v@));
    r
}

/// The settings of one wallet, as far as contacts go.
pub struct WalletSetting {
    pub wallet_id: String,
    pub contacts: Vec<ContactSetting>,
}

pub struct WalletSettingView {
    pub wallet_id: Seq<char>,
    pub contacts: Seq<ContactView>,
}

impl View for WalletSetting {
    type V = WalletSettingView;

    open spec fn view(&self) -> WalletSettingView {
        WalletSettingView { wallet_id: self.wallet_id@, contacts: contacts_view_of(self.contacts@) }
    }
}

pub open spec fn wallets_view_of(v: Seq<WalletSetting>) -> Seq<WalletSettingView> {
    v.map_values(|w: WalletSetting| w@)
}

/// The position of the first wallet with identifier `id`.
pub open spec fn wallet_index(ws: Seq<WalletSettingView>, id: Seq<char>) -> Option<int> {
    if exists|j: int| 0 <= j < ws.len() && ws[j].wallet_id == id {
        Some(choose|j: int|
            0 <= j < ws.len() && ws[j].wallet_id == id
                && forall|k: int| 0 <= k < j ==> ws[k].wallet_id != id)
    } else {
        None
    }
}

proof fn lemma_wallet_index(ws: Seq<WalletSettingView>, id: Seq<char>, j: int)
    requires
        0 <= j < ws.len(),
        ws[j].wallet_id == id,
        forall|k: int| 0 <= k < j ==> ws[k].wallet_id != id,
    ensures
        wallet_index(ws, id) == Some(j),
{
    let w = choose|w: int|
        0 <= w < ws.len() && ws[w].wallet_id == id
            && forall|k: int| 0 <= k < w ==> ws[k].wallet_id != id;
    assert(0 <= w < ws.len() && ws[w].wallet_id == id);
    if w < j {
        assert(ws[w].wallet_id != id);
    } else if w > j {
        assert(ws[j].wallet_id != id);
    }
}

/// The position of the first wallet with identifier `id`.
fn find_wallet(ws: &Vec<WalletSetting>, id: &String) -> (r: Option<usize>)
    ensures
        match wallet_index(wallets_view_of(ws@), id@) {
            Some(j) => r matches Some(k) && k as int == j,
            None => r is None,
        },
        r matches Some(k) ==> k < ws.len(),
{
    let ghost wv = wallets_view_of(ws@);
    let mut j: usize = 0;
    while j < ws.len()
        invariant
            j <= ws.len(),
            wv == wallets_view_of(ws@),
            forall|k: int| 0 <= k < j ==> wv[k].wallet_id != id@,
        decreases ws.len() - j,
    {
        if ws[j].wallet_id == *id {
            proof {
                lemma_wallet_index(wv, id@, j as int);
            }
            return Some(j);
        }
        j = j + 1;
    }
    assert(wallet_index(wv, id@) is None);
    None
}

/// The contacts kept for wallet `id` in the settings that were read, if any.
pub open spec fn stored_contacts_spec(settings: Option<Seq<WalletSettingView>>, id: Seq<char>) -> Seq<ContactView> {
    match settings {
        Some(ws) => match wallet_index(ws, id) {
            Some(j) => ws[j].contacts,
            None => Seq::empty(),
        },
        None => Seq::empty(),
    }
}

/// Picks the contacts of wallet `wallet_id` from the wallets of a settings
/// file (`None` when the file could not be read): those of the first wallet
/// with that identifier, or none.
pub fn load_contacts(settings: Option<Vec<WalletSetting>>, wallet_id: &String) -> (r: Vec<ContactSetting>)
    ensures
        contacts_view_of(r@) == stored_contacts_spec(
            match settings {
                Some(ws) => Some(wallets_view_of(ws@)),
                None => None,
            },
            wallet_id@,
        ),
{
    match settings {
        Some(mut ws) => match find_wallet(&ws, wallet_id) {
            Some(j) => {
                let ghost wv = wallets_view_of(ws@);
                let w = ws.remove(j);
                assert(w@ == wv[j as int]);
                w.contacts
            },
            None => {
                let r: Vec<ContactSetting> = Vec::new();
                assert(contacts_view_of(r@) =~= Seq::<ContactView>::empty());
                r
            },
        },
        None => {
            let r: Vec<ContactSetting> = Vec::new();
            assert(contacts_view_of(r@) =~= Seq::<ContactView>::empty());
            r
        },
    }
}

/// The wallets with the contacts of the first wallet `id` replaced.
pub open spec fn store_contacts_spec(ws: Seq<WalletSettingView>, id: Seq<char>, contacts: Seq<ContactView>) -> Seq<WalletSettingView> {
    match wallet_index(ws, id) {
        Some(j) => ws.update(j, WalletSettingView { contacts, ..ws[j] }),
        None => ws,
    }
}

/// Writes `contacts` into the settings of the first wallet with identifier
/// `wallet_id`; the other wallets, and every wallet when none matches, are
/// left as they are.
pub fn store_contacts(wallets: &mut Vec<WalletSetting>, wallet_id: &String, contacts: Vec<ContactSetting>)
    ensures
        wallets_view_of(final(wallets)@) == store_contacts_spec(
            wallets_view_of(old(wallets)@),
            wallet_id@,
            contacts_view_of(contacts@),
        ),
{
    let ghost wv = wallets_view_of(wallets@);
    match find_wallet(wallets, wallet_id) {
        Some(j) => {
            let mut w = wallets.remove(j);
            w.contacts = contacts;
            wallets.insert(j, w);
            assert(wallets_view_of(wallets@) =~= wv.update(
                j as int,
                WalletSettingView { contacts: contacts_view_of(contacts@), ..wv[j as int] },
            ));
        },
        None => {},
    }
}

/// The first wallet with identifier `id` exists exactly when some wallet has
/// it; it is then in range, has that identifier, and no earlier one has.
pub proof fn lemma_wallet_index_bounds(ws: Seq<WalletSettingView>, id: Seq<char>)
    ensures
        wallet_index(ws, id) matches Some(j) ==> {
            &&& 0 <= j < ws.len()
            &&& ws[j].wallet_id == id
            &&& forall|k: int| 0 <= k < j ==> ws[k].wallet_id != id
        },
        wallet_index(ws, id) is None ==> forall|k: int| 0 <= k < ws.len() ==> ws[k].wallet_id != id,
{
    if exists|j: int| 0 <= j < ws.len() && ws[j].wallet_id == id {
        let j0 = choose|j: int| 0 <= j < ws.len() && ws[j].wallet_id == id;
        lemma_first_wallet_exists(ws, id, j0);
    }
}

proof fn lemma_first_wallet_exists(ws: Seq<WalletSettingView>, id: Seq<char>, j0: int)
    requires
        0 <= j0 < ws.len(),
        ws[j0].wallet_id == id,
    ensures
        exists|j: int|
            0 <= j < ws.len() && ws[j].wallet_id == id
                && forall|k: int| 0 <= k < j ==> ws[k].wallet_id != id,
    decreases j0,
{
    if exists|k: int| 0 <= k < j0 && ws[k].wallet_id == id {
        let k = choose|k: int| 0 <= k < j0 && ws[k].wallet_id == id;
        lemma_first_wallet_exists(ws, id, k);
    }
}

/// Two wallet lists that agree on every identifier find the same wallet.
proof fn lemma_wallet_index_same_ids(ws: Seq<WalletSettingView>, ws2: Seq<WalletSettingView>, id: Seq<char>)
    requires
        ws.len() == ws2.len(),
        forall|k: int| 0 <= k < ws.len() ==> #[trigger] ws2[k].wallet_id == ws[k].wallet_id,
    ensures
        wallet_index(ws2, id) == wallet_index(ws, id),
{
    lemma_wallet_index_bounds(ws, id);
    lemma_wallet_index_bounds(ws2, id);
    if wallet_index(ws, id) is Some {
        let j = wallet_index(ws, id)->0;
        assert(ws2[j].wallet_id == ws[j].wallet_id);
        assert forall|k: int| 0 <= k < j implies ws2[k].wallet_id != id by {
            assert(ws2[k].wallet_id == ws[k].wallet_id);
        }
        lemma_wallet_index(ws2, id, j);
    } else {
        if wallet_index(ws2, id) is Some {
            let j = wallet_index(ws2, id)->0;
            assert(ws2[j].wallet_id == ws[j].wallet_id);
        }
    }
}

/// Contacts stored for a wallet are the ones read back for it: after storing
/// `contacts` for wallet `id`, loading the contacts of `id` gives `contacts`
/// when the settings have such a wallet, and no contact otherwise; every other
/// wallet keeps its contacts.
pub proof fn law_load_after_store(ws: Seq<WalletSettingView>, id: Seq<char>, contacts: Seq<ContactView>, other: Seq<char>)
    ensures
        stored_contacts_spec(Some(store_contacts_spec(ws, id, contacts)), id) == (if wallet_index(ws, id) is Some {
            contacts
        } else {
            Seq::<ContactView>::empty()
        }),
        other != id ==> stored_contacts_spec(Some(store_contacts_spec(ws, id, contacts)), other)
            == stored_contacts_spec(Some(ws), other),
{
    let ws2 = store_contacts_spec(ws, id, contacts);
    lemma_wallet_index_bounds(ws, id);
    assert forall|k: int| 0 <= k < ws.len() implies #[trigger] ws2[k].wallet_id == ws[k].wallet_id by {}
    lemma_wallet_index_same_ids(ws, ws2, id);
    lemma_wallet_index_same_ids(ws, ws2, other);
    if other != id {
        lemma_wallet_index_bounds(ws, other);
        if wallet_index(ws, other) is Some && wallet_index(ws, id) is Some {
            assert(wallet_index(ws, other)->0 != wallet_index(ws, id)->0);
        }
    }
}

} // verus!
