use vstd::prelude::*;
use std::collections::{HashMap, HashSet};
use crate::descriptor::WalletDescriptor;
use crate::hexcode::{hex_decode, hex_decode_spec, is_hex_string};
use crate::settings::{contacts_view_of, ContactSetting, ContactView};

verus! {

broadcast use vstd::std_specs::hash::group_hash_axioms;

/// A contact whose identity key the device is told about, with the proof of
/// registration that the device issued for it.
pub struct RegisteredIdentityEntry {
    pub pubkey: Vec<u8>,
    pub name: String,
    pub por: Vec<u8>,
}

pub struct EntryView {
    pub pubkey: Seq<u8>,
    pub name: Seq<char>,
    pub por: Seq<u8>,
}

impl View for RegisteredIdentityEntry {
    type V = EntryView;

    open spec fn view(&self) -> EntryView {
        EntryView { pubkey: self.pubkey@, name: self.name@, por: self.por@ }
    }
}

/// An identity key's signature over a descriptor key.
pub struct IdentitySignature {
    pub identity_pubkey: Vec<u8>,
    pub signature: Vec<u8>,
}

pub struct SignatureView {
    pub identity_pubkey: Seq<u8>,
    pub signature: Seq<u8>,
}

impl View for IdentitySignature {
    type V = SignatureView;

    open spec fn view(&self) -> SignatureView {
        SignatureView { identity_pubkey: self.identity_pubkey@, signature: self.signature@ }
    }
}

pub open spec fn entries_view(v: Seq<RegisteredIdentityEntry>) -> Seq<EntryView> {
    v.map_values(|e: RegisteredIdentityEntry| e@)
}

pub open spec fn signatures_view(v: Seq<Option<IdentitySignature>>) -> Seq<Option<SignatureView>> {
    v.map_values(|s: Option<IdentitySignature>| match s {
        Some(x) => Some(x@),
        None => None,
    })
}

/// The fingerprints of the key origins, each once, in the order of their
/// first visit; keys without an origin are skipped.
pub open spec fn ordered_fingerprints_spec(origins: Seq<Option<u32>>) -> Seq<u32>
    decreases origins.len(),
{
    if origins.len() == 0 {
        Seq::empty()
    } else {
        let prev = ordered_fingerprints_spec(origins.drop_last());
        match origins.last() {
            Some(fg) => if prev.contains(fg) {
                prev
            } else {
                prev.push(fg)
            },
            None => prev,
        }
    }
}

/// The position of the first contact whose key is `key`.
pub open spec fn contact_with_key(contacts: Seq<ContactView>, key: Seq<char>) -> Option<int> {
    if exists|j: int| 0 <= j < contacts.len() && contacts[j].pubkey == key {
        Some(choose|j: int|
            0 <= j < contacts.len() && contacts[j].pubkey == key
                && forall|k: int| 0 <= k < j ==> contacts[k].pubkey != key)
    } else {
        None
    }
}

proof fn first_contact_from(contacts: Seq<ContactView>, key: Seq<char>, j0: int) -> (j: int)
    requires
        0 <= j0 < contacts.len(),
        contacts[j0].pubkey == key,
    ensures
        0 <= j <= j0,
        contacts[j].pubkey == key,
        forall|k: int| 0 <= k < j ==> contacts[k].pubkey != key,
    decreases j0,
{
    if exists|k: int| 0 <= k < j0 && contacts[k].pubkey == key {
        let k = choose|k: int| 0 <= k < j0 && contacts[k].pubkey == key;
        first_contact_from(contacts, key, k)
    } else {
        j0
    }
}

/// The first contact with key `key` exists exactly when some contact has that
/// key; it is then in range, has the key, and no earlier contact has it.
pub proof fn lemma_contact_with_key(contacts: Seq<ContactView>, key: Seq<char>)
    ensures
        match contact_with_key(contacts, key) {
            Some(j) => 0 <= j < contacts.len() && contacts[j].pubkey == key
                && forall|k: int| 0 <= k < j ==> contacts[k].pubkey != key,
            None => forall|j: int| 0 <= j < contacts.len() ==> contacts[j].pubkey != key,
        },
{
    if exists|j: int| 0 <= j < contacts.len() && contacts[j].pubkey == key {
        let j0 = choose|j: int| 0 <= j < contacts.len() && contacts[j].pubkey == key;
        let j = first_contact_from(contacts, key, j0);
        assert(0 <= j < contacts.len() && contacts[j].pubkey == key && forall|k: int| 0 <= k < j ==> contacts[k].pubkey != key);
    }
}

/// What is known of a descriptor key that is signed by a registered contact:
/// the identity key, the signature, the contact's name and the proof of its
/// first registration, all decoded from hex.
pub struct KeyIdentity {
    pub pubkey: Seq<u8>,
    pub signature: Seq<u8>,
    pub name: Seq<char>,
    pub por: Seq<u8>,
}

/// The identity behind the key with fingerprint `fg`: the key must have an
/// identity signature whose key is that of a saved contact (the first with
/// that key), the contact must have a registration, and the identity key, the
/// signature and the first registration's proof must all be valid hex.
#[verifier::opaque]
pub open spec fn key_identity(
    fg: u32,
    sigs: Map<u32, (String, String)>,
    contacts: Seq<ContactView>,
) -> Option<KeyIdentity> {
    if sigs.contains_key(fg) {
        let pk_hex = sigs[fg].0@;
        let sig_hex = sigs[fg].1@;
        match contact_with_key(contacts, pk_hex) {
            Some(ci) => {
                let c = contacts[ci];
                if c.registrations.len() > 0 && is_hex_string(pk_hex) && is_hex_string(sig_hex)
                    && is_hex_string(c.registrations[0].proof) {
                    Some(KeyIdentity {
                        pubkey: hex_decode_spec(pk_hex),
                        signature: hex_decode_spec(sig_hex),
                        name: c.name,
                        por: hex_decode_spec(c.registrations[0].proof),
                    })
                } else {
                    None
                }
            },
            None => None,
        }
    } else {
        None
    }
}

/// For each key, the identity signature that goes with it, if any.
pub open spec fn key_signatures_spec(
    fgs: Seq<u32>,
    sigs: Map<u32, (String, String)>,
    contacts: Seq<ContactView>,
) -> Seq<Option<SignatureView>> {
    fgs.map_values(|fg: u32| match key_identity(fg, sigs, contacts) {
        Some(i) => Some(SignatureView { identity_pubkey: i.pubkey, signature: i.signature }),
        None => None,
    })
}

/// `entries` has an entry for the identity key `pk`.
pub open spec fn has_identity(entries: Seq<EntryView>, pk: Seq<u8>) -> bool {
    exists|i: int| 0 <= i < entries.len() && #[trigger] entries[i].pubkey == pk
}

/// The registered identities, once per identity key, in the order in which
/// the keys they sign first come.
pub open spec fn registered_identities_spec(
    fgs: Seq<u32>,
    sigs: Map<u32, (String, String)>,
    contacts: Seq<ContactView>,
) -> Seq<EntryView>
    decreases fgs.len(),
{
    if fgs.len() == 0 {
        Seq::empty()
    } else {
        let prev = registered_identities_spec(fgs.drop_last(), sigs, contacts);
        match key_identity(fgs.last(), sigs, contacts) {
            Some(i) => if has_identity(prev, i.pubkey) {
                prev
            } else {
                prev.push(EntryView { pubkey: i.pubkey, name: i.name, por: i.por })
            },
            None => prev,
        }
    }
}

/// Some key of `fgs` is signed by a registered contact.
pub open spec fn any_key_identity(
    fgs: Seq<u32>,
    sigs: Map<u32, (String, String)>,
    contacts: Seq<ContactView>,
) -> bool {
    exists|i: int| 0 <= i < fgs.len() && #[trigger] key_identity(fgs[i], sigs, contacts) is Some
}

/// The identity parameters of a wallet registration, if any key is signed by
/// a registered contact.
pub open spec fn identity_params_spec(
    origins: Seq<Option<u32>>,
    sigs: Map<u32, (String, String)>,
    contacts: Seq<ContactView>,
) -> Option<(Seq<EntryView>, Seq<Option<SignatureView>>)> {
    let fgs = ordered_fingerprints_spec(origins);
    if any_key_identity(fgs, sigs, contacts) {
        Some((registered_identities_spec(fgs, sigs, contacts), key_signatures_spec(fgs, sigs, contacts)))
    } else {
        None
    }
}

/// The fingerprints of the descriptor's keys, each once, in wallet-policy order.
pub fn ordered_fingerprints(origins: &Vec<Option<u32>>) -> (r: Vec<u32>)
    ensures
        r@ == ordered_fingerprints_spec(origins@),
{
    let mut seen: HashSet<u32> = HashSet::new();
    let mut out: Vec<u32> = Vec::new();
    for i in 0..origins.len()
        invariant
            out@ == ordered_fingerprints_spec(origins@.take(i as int)),
            forall|x: u32| #[trigger] seen@.contains(x) <==> out@.contains(x),
    {
        proof {
            assert(origins@.take(i + 1).drop_last() =~= origins@.take(i as int));
        }
        let ghost old_out = out@;
        let ghost old_seen = seen@;
        if let Some(fg) = origins[i] {
            if seen.insert(fg) {
                out.push(fg);
                proof {
                    assert forall|x: u32| #[trigger] seen@.contains(x) <==> out@.contains(x) by {
                        if x == fg {
                            assert(out@[out@.len() - 1] == fg);
                        } else if old_out.contains(x) {
                            let k = choose|k: int| 0 <= k < old_out.len() && old_out[k] == x;
                            assert(out@[k] == x);
                        } else if out@.contains(x) {
                            let k = choose|k: int| 0 <= k < out@.len() && out@[k] == x;
                            assert(old_out[k] == x);
                        }
                    }
                }
            }
        }
    }
    assert(origins@.take(origins.len() as int) =~= origins@);
    out
}

/// Byte strings are equal.
fn same_bytes(a: &Vec<u8>, b: &Vec<u8>) -> (r: bool)
    ensures
        r == (a@ == b@),
{
    if a.len() != b.len() {
        return false;
    }
    for i in 0..a.len()
        invariant
            a.len() == b.len(),
            forall|k: int| 0 <= k < i ==> a@[k] == b@[k],
    {
        if a[i] != b[i] {
            return false;
        }
    }
    assert(a@ =~= b@);
    true
}

/// Copies a byte string.
fn copy_bytes(a: &Vec<u8>) -> (r: Vec<u8>)
    ensures
        r@ == a@,
{
    let mut r: Vec<u8> = Vec::new();
    for i in 0..a.len()
        invariant
            r@ == a@.take(i as int),
    {
        r.push(a[i]);
        assert(r@ =~= a@.take(i + 1));
    }
    assert(a@.take(a.len() as int) =~= a@);
    r
}

/// The position of the first contact with identity key `key`.
fn find_contact(contacts: &[ContactSetting], key: &String) -> (r: Option<usize>)
    ensures
        match contact_with_key(contacts_view_of(contacts@), key@) {
            Some(j) => r matches Some(k) && k as int == j,
            None => r is None,
        },
        r matches Some(k) ==> k < contacts@.len(),
{
    let ghost cv = contacts_view_of(contacts@);
    let mut j: usize = 0;
    while j < contacts.len()
        invariant
            j <= contacts@.len(),
            cv == contacts_view_of(contacts@),
            forall|k: int| 0 <= k < j ==> cv[k].pubkey != key@,
        decreases contacts@.len() - j,
    {
        if contacts[j].pubkey == *key {
            proof {
                let w = choose|w: int|
                    0 <= w < cv.len() && cv[w].pubkey == key@
                        && forall|k: int| 0 <= k < w ==> cv[k].pubkey != key@;
                assert(cv[j as int].pubkey == key@);
                if w < j {
                    assert(cv[w].pubkey != key@);
                } else if w > j {
                    assert(cv[j as int].pubkey != key@);
                }
            }
            return Some(j);
        }
        j = j + 1;
    }
    assert(contact_with_key(cv, key@) is None);
    None
}

/// The identity behind the key with fingerprint `fg`, decoded.
fn lookup_key_identity(
    fg: u32,
    sigs: &HashMap<u32, (String, String)>,
    contacts: &[ContactSetting],
) -> (r: Option<(Vec<u8>, Vec<u8>, String, Vec<u8>)>)
    ensures
        match key_identity(fg, sigs@, contacts_view_of(contacts@)) {
            Some(i) => r matches Some((pk, sig, name, por)) && pk@ == i.pubkey && sig@ == i.signature
                && name@ == i.name && por@ == i.por,
            None => r is None,
        },
{
    let ghost cv = contacts_view_of(contacts@);
    reveal(key_identity);
    let (pk_hex, sig_hex) = match sigs.get(&fg) {
        Some(p) => p,
        None => return None,
    };
    let ci = match find_contact(contacts, pk_hex) {
        Some(ci) => ci,
        None => return None,
    };
    let contact = &contacts[ci];
    assert(contact@ == cv[ci as int]);
    if contact.registrations.len() == 0 {
        return None;
    }
    let reg = &contact.registrations[0];
    assert(reg@ == cv[ci as int].registrations[0]);
    match (hex_decode(pk_hex.as_str()), hex_decode(sig_hex.as_str()), hex_decode(reg.proof.as_str())) {
        (Ok(pk), Ok(sig), Ok(por)) => Some((pk, sig, contact.name.clone(), por)),
        _ => None,
    }
}

proof fn lemma_params_step(fgs: Seq<u32>, i: int, m: Map<u32, (String, String)>, cv: Seq<ContactView>)
    requires
        0 <= i < fgs.len(),
    ensures
        ({
            let pre = fgs.take(i);
            let cur = fgs.take(i + 1);
            let prev = registered_identities_spec(pre, m, cv);
            &&& key_signatures_spec(cur, m, cv) == key_signatures_spec(pre, m, cv).push(
                match key_identity(fgs[i], m, cv) {
                    Some(k) => Some(SignatureView { identity_pubkey: k.pubkey, signature: k.signature }),
                    None => None,
                },
            )
            &&& registered_identities_spec(cur, m, cv) == match key_identity(fgs[i], m, cv) {
                Some(k) => if has_identity(prev, k.pubkey) {
                    prev
                } else {
                    prev.push(EntryView { pubkey: k.pubkey, name: k.name, por: k.por })
                },
                None => prev,
            }
            &&& any_key_identity(cur, m, cv) == (any_key_identity(pre, m, cv) || key_identity(fgs[i], m, cv) is Some)
        }),
{
    let pre = fgs.take(i);
    let cur = fgs.take(i + 1);
    assert(cur.drop_last() =~= pre);
    assert(cur.last() == fgs[i]);
    assert(key_signatures_spec(cur, m, cv) =~= key_signatures_spec(pre, m, cv).push(
        match key_identity(fgs[i], m, cv) {
            Some(k) => Some(SignatureView { identity_pubkey: k.pubkey, signature: k.signature }),
            None => None,
        },
    ));
    if any_key_identity(cur, m, cv) {
        let q = choose|q: int| 0 <= q < cur.len() && #[trigger] key_identity(cur[q], m, cv) is Some;
        if q < i {
            assert(pre[q] == cur[q]);
        }
    }
    if any_key_identity(pre, m, cv) {
        let q = choose|q: int| 0 <= q < pre.len() && #[trigger] key_identity(pre[q], m, cv) is Some;
        assert(cur[q] == pre[q]);
    }
    if key_identity(fgs[i], m, cv) is Some {
        assert(key_identity(cur[i], m, cv) is Some);
    }
}

/// Adds the entry of an identity key unless there is one already.
fn add_identity(identities: &mut Vec<RegisteredIdentityEntry>, pubkey: Vec<u8>, name: String, por: Vec<u8>)
    ensures
        entries_view(final(identities)@) == if has_identity(entries_view(old(identities)@), pubkey@) {
            entries_view(old(identities)@)
        } else {
            entries_view(old(identities)@).push(EntryView { pubkey: pubkey@, name: name@, por: por@ })
        },
{
    let ghost prev = entries_view(identities@);
    let mut known = false;
    let mut k: usize = 0;
    while k < identities.len()
        invariant
            k <= identities@.len(),
            prev == entries_view(identities@),
            known == exists|q: int| 0 <= q < k && #[trigger] prev[q].pubkey == pubkey@,
        decreases identities@.len() - k,
    {
        let same = same_bytes(&identities[k].pubkey, &pubkey);
        assert(prev[k as int] == identities@[k as int]@);
        if same {
            known = true;
        }
        proof {
            if same {
                assert(prev[k as int].pubkey == pubkey@);
            }
            if !same && !known {
                assert forall|q: int| 0 <= q < k + 1 implies #[trigger] prev[q].pubkey != pubkey@ by {
                    if q < k {
                        assert(!(0 <= q < k && prev[q].pubkey == pubkey@));
                    }
                }
            }
        }
        k = k + 1;
    }
    if !known {
        identities.push(RegisteredIdentityEntry { pubkey, name, por });
        assert(entries_view(identities@) =~= prev.push(EntryView { pubkey: pubkey@, name: name@, por: por@ }));
    }
}

/// Builds the registered identities and the per-key identity signatures to
/// register a wallet with: for each descriptor key, in wallet-policy order and
/// once per fingerprint, the signature of its identity key when that key is a
/// saved contact's with a registration (`None` otherwise); and each such
/// contact once, with the proof of its first registration. Both are `None`
/// when no key has such a signature.
pub fn build_identity_params(
    descriptor: &WalletDescriptor,
    key_identity_sigs: &HashMap<u32, (String, String)>,
    contacts: &[ContactSetting],
) -> (r: (Option<Vec<RegisteredIdentityEntry>>, Option<Vec<Option<IdentitySignature>>>))
    ensures
        match identity_params_spec(descriptor.key_origins@, key_identity_sigs@, contacts_view_of(contacts@)) {
            Some((ids, sigs)) => {
                &&& r.0 matches Some(i) && entries_view(i@) == ids
                &&& r.1 matches Some(s) && signatures_view(s@) == sigs
            },
            None => r.0 is None && r.1 is None,
        },
{
    let ghost cv = contacts_view_of(contacts@);
    let ghost m = key_identity_sigs@;
    let ordered = ordered_fingerprints(&descriptor.key_origins);
    let ghost fgs = ordered@;
    let mut identities: Vec<RegisteredIdentityEntry> = Vec::new();
    let mut signatures: Vec<Option<IdentitySignature>> = Vec::new();
    let mut has_any = false;
    proof {
        assert(entries_view(identities@) =~= registered_identities_spec(fgs.take(0), m, cv));
        assert(signatures_view(signatures@) =~= key_signatures_spec(fgs.take(0), m, cv));
    }
    for i in 0..ordered.len()
        invariant
            fgs == ordered@,
            entries_view(identities@) == registered_identities_spec(fgs.take(i as int), m, cv),
            signatures_view(signatures@) == key_signatures_spec(fgs.take(i as int), m, cv),
            has_any == any_key_identity(fgs.take(i as int), m, cv),
            m == key_identity_sigs@,
            cv == contacts_view_of(contacts@),
    {
        proof {
            lemma_params_step(fgs, i as int, m, cv);
        }
        let ghost prev_sigs = signatures_view(signatures@);
        match lookup_key_identity(ordered[i], key_identity_sigs, contacts) {
            Some((pk, sig, name, por)) => {
                add_identity(&mut identities, copy_bytes(&pk), name, por);
                signatures.push(Some(IdentitySignature { identity_pubkey: pk, signature: sig }));
                has_any = true;
            },
            None => {
                signatures.push(None);
            },
        }
        proof {
            assert(signatures_view(signatures@) =~= key_signatures_spec(fgs.take(i + 1), m, cv));
        }
    }
    proof {
        assert(fgs.take(fgs.len() as int) =~= fgs);
    }
    if has_any {
        (Some(identities), Some(signatures))
    } else {
        (None, None)
    }
}

/// How a wallet is registered on a device.
pub enum WalletRegistration {
    /// With the registered identities and the per-key identity signatures.
    WithIdentities {
        identities: Vec<RegisteredIdentityEntry>,
        signatures: Vec<Option<IdentitySignature>>,
    },
    /// Without identities.
    Plain,
}

/// Chooses how to register the wallet: with identities when some descriptor
/// key is signed by a registered contact, plainly otherwise.
pub fn plan_wallet_registration(
    descriptor: &WalletDescriptor,
    key_identity_sigs: &HashMap<u32, (String, String)>,
    contacts: &[ContactSetting],
) -> (r: WalletRegistration)
    ensures
        match identity_params_spec(descriptor.key_origins@, key_identity_sigs@, contacts_view_of(contacts@)) {
            Some((ids, sigs)) => r matches WalletRegistration::WithIdentities { identities, signatures }
                && entries_view(identities@) == ids && signatures_view(signatures@) == sigs,
            None => r is Plain,
        },
{
    let (registered_identities, key_signatures) = build_identity_params(descriptor, key_identity_sigs, contacts);
    match (registered_identities, key_signatures) {
        (Some(identities), Some(signatures)) => WalletRegistration::WithIdentities { identities, signatures },
        _ => WalletRegistration::Plain,
    }
}

/// What a device answered to a registration: the identity registration's
/// 32-byte identifier, or the token of a plain registration, if any.
pub enum RegistrationReply {
    Identity([u8; 32]),
    Plain(Option<[u8; 32]>),
}

/// The registered device and the token kept for it: the identity
/// registration's identifier, or the plain registration's token.
pub fn wallet_registered(fingerprint: u32, reply: RegistrationReply) -> (r: (u32, Option<[u8; 32]>))
    ensures
        r.0 == fingerprint,
        r.1 == match reply {
            RegistrationReply::Identity(id) => Some(id),
            RegistrationReply::Plain(token) => token,
        },
{
    match reply {
        RegistrationReply::Identity(id) => (fingerprint, Some(id)),
        RegistrationReply::Plain(token) => (fingerprint, token),
    }
}

/// The identity keys of `entries` are pairwise different.
pub open spec fn identities_distinct(entries: Seq<EntryView>) -> bool {
    forall|i: int, j: int| 0 <= i < j < entries.len() ==> #[trigger] entries[i].pubkey != #[trigger] entries[j].pubkey
}

proof fn lemma_registered_identities(fgs: Seq<u32>, m: Map<u32, (String, String)>, cv: Seq<ContactView>)
    ensures
        identities_distinct(registered_identities_spec(fgs, m, cv)),
        forall|i: int| 0 <= i < fgs.len() && #[trigger] key_identity(fgs[i], m, cv) is Some ==> has_identity(
            registered_identities_spec(fgs, m, cv),
            key_identity(fgs[i], m, cv)->0.pubkey,
        ),
        forall|j: int| 0 <= j < registered_identities_spec(fgs, m, cv).len() ==> exists|i: int|
            0 <= i < fgs.len() && #[trigger] key_identity(fgs[i], m, cv) is Some
                && key_identity(fgs[i], m, cv)->0.pubkey == #[trigger] registered_identities_spec(fgs, m, cv)[j].pubkey,
    decreases fgs.len(),
{
    if fgs.len() > 0 {
        let pre = fgs.drop_last();
        lemma_registered_identities(pre, m, cv);
        let prev = registered_identities_spec(pre, m, cv);
        let ids = registered_identities_spec(fgs, m, cv);
        let n = fgs.len() - 1;
        assert forall|i: int| 0 <= i < fgs.len() && #[trigger] key_identity(fgs[i], m, cv) is Some implies has_identity(
            ids,
            key_identity(fgs[i], m, cv)->0.pubkey,
        ) by {
            if i < n {
                assert(pre[i] == fgs[i]);
                let q = choose|q: int| 0 <= q < prev.len() && #[trigger] prev[q].pubkey == key_identity(pre[i], m, cv)->0.pubkey;
                assert(ids[q] == prev[q]);
            } else {
                let k = key_identity(fgs.last(), m, cv)->0;
                if !has_identity(prev, k.pubkey) {
                    assert(ids[prev.len() as int].pubkey == k.pubkey);
                }
            }
        }
        assert forall|j: int| 0 <= j < ids.len() implies exists|i: int|
            0 <= i < fgs.len() && #[trigger] key_identity(fgs[i], m, cv) is Some
                && key_identity(fgs[i], m, cv)->0.pubkey == #[trigger] ids[j].pubkey by {
            if j < prev.len() {
                assert(ids[j] == prev[j]);
                let i = choose|i: int|
                    0 <= i < pre.len() && #[trigger] key_identity(pre[i], m, cv) is Some
                        && key_identity(pre[i], m, cv)->0.pubkey == prev[j].pubkey;
                assert(fgs[i] == pre[i]);
            } else {
                assert(key_identity(fgs[n], m, cv) is Some);
            }
        }
        assert forall|i: int, j: int| 0 <= i < j < ids.len() implies #[trigger] ids[i].pubkey != #[trigger] ids[j].pubkey by {
            if j >= prev.len() {
                assert(ids[i] == prev[i]);
            } else {
                assert(ids[i] == prev[i]);
                assert(ids[j] == prev[j]);
            }
        }
    }
}

/// What the identity parameters hold together: one signature slot per
/// descriptor key (each distinct fingerprint once, in order), filled exactly
/// for the keys signed by a registered contact; one registered identity per
/// distinct identity key; each signing identity among the registered ones and
/// each registered one signing some key. No parameters at all when no key has
/// a usable identity: an identity signature whose key is that of the first
/// saved contact with that key, the contact having a registration, and the
/// key, the signature and the first registration's proof all being valid hex.
pub proof fn law_identity_params_consistent(origins: Seq<Option<u32>>, m: Map<u32, (String, String)>, cv: Seq<ContactView>)
    ensures
        ({
            let fgs = ordered_fingerprints_spec(origins);
            match identity_params_spec(origins, m, cv) {
                Some((ids, sigs)) => {
                    &&& sigs.len() == fgs.len()
                    &&& forall|i: int| 0 <= i < fgs.len() ==> (#[trigger] sigs[i] is Some <==> key_identity(fgs[i], m, cv) is Some)
                    &&& identities_distinct(ids)
                    &&& forall|i: int| 0 <= i < sigs.len() && #[trigger] sigs[i] is Some ==> has_identity(ids, sigs[i]->0.identity_pubkey)
                    &&& forall|j: int| 0 <= j < ids.len() ==> exists|i: int|
                        0 <= i < sigs.len() && #[trigger] sigs[i] is Some && sigs[i]->0.identity_pubkey == #[trigger] ids[j].pubkey
                },
                None => forall|i: int| 0 <= i < fgs.len() ==> #[trigger] key_identity(fgs[i], m, cv) is None,
            }
        }),
{
    let fgs = ordered_fingerprints_spec(origins);
    lemma_registered_identities(fgs, m, cv);
    if identity_params_spec(origins, m, cv) is None {
        assert forall|i: int| 0 <= i < fgs.len() implies #[trigger] key_identity(fgs[i], m, cv) is None by {
            if key_identity(fgs[i], m, cv) is Some {
                assert(any_key_identity(fgs, m, cv));
            }
        }
    } else {
        let ids = registered_identities_spec(fgs, m, cv);
        let sigs = key_signatures_spec(fgs, m, cv);
        assert forall|j: int| 0 <= j < ids.len() implies exists|i: int|
            0 <= i < sigs.len() && #[trigger] sigs[i] is Some && sigs[i]->0.identity_pubkey == #[trigger] ids[j].pubkey by {
            let i = choose|i: int|
                0 <= i < fgs.len() && #[trigger] key_identity(fgs[i], m, cv) is Some
                    && key_identity(fgs[i], m, cv)->0.pubkey == ids[j].pubkey;
            assert(sigs[i] is Some);
        }
    }
}

/// The descriptor's key fingerprints are listed once each: every origin
/// fingerprint appears in the list, and nothing else does.
pub proof fn law_ordered_fingerprints_distinct(origins: Seq<Option<u32>>)
    ensures
        ordered_fingerprints_spec(origins).no_duplicates(),
        forall|fg: u32| ordered_fingerprints_spec(origins).contains(fg) <==> origins.contains(Some(fg)),
    decreases origins.len(),
{
    if origins.len() > 0 {
        let pre = origins.drop_last();
        law_ordered_fingerprints_distinct(pre);
        let prev = ordered_fingerprints_spec(pre);
        let cur = ordered_fingerprints_spec(origins);
        assert(prev.len() <= cur.len());
        assert(forall|q: int| 0 <= q < prev.len() ==> cur[q] == prev[q]);
        assert forall|fg: u32| cur.contains(fg) <==> origins.contains(Some(fg)) by {
            if origins.contains(Some(fg)) {
                let k = choose|k: int| 0 <= k < origins.len() && origins[k] == Some(fg);
                if k < pre.len() {
                    assert(pre[k] == Some(fg));
                    assert(pre.contains(Some(fg)));
                    assert(prev.contains(fg));
                    let q = choose|q: int| 0 <= q < prev.len() && prev[q] == fg;
                    assert(cur[q] == fg);
                } else if prev.contains(fg) {
                    let q = choose|q: int| 0 <= q < prev.len() && prev[q] == fg;
                    assert(cur[q] == fg);
                } else {
                    assert(cur[prev.len() as int] == fg);
                }
            }
            if cur.contains(fg) {
                let q = choose|q: int| 0 <= q < cur.len() && cur[q] == fg;
                if q < prev.len() {
                    assert(prev[q] == fg);
                    assert(prev.contains(fg));
                    assert(pre.contains(Some(fg)));
                    let k = choose|k: int| 0 <= k < pre.len() && pre[k] == Some(fg);
                    assert(origins[k] == Some(fg));
                } else {
                    assert(origins[origins.len() - 1] == Some(fg));
                }
            }
        }
    }
}


/// A descriptor key has an identity exactly when its identity signature names
/// the key of a saved contact that has a registration, and the identity key,
/// the signature and that contact's first registration's proof are all valid
/// hex; the contact is the first one saved with that key. The identity is
/// then made of the decoded key and signature, that contact's name and the
/// decoded proof. A key without a signature, or whose signing key no saved
/// contact has, has none.
pub proof fn law_key_identity(fg: u32, sigs: Map<u32, (String, String)>, contacts: Seq<ContactView>)
    ensures
        !sigs.contains_key(fg) ==> key_identity(fg, sigs, contacts) is None,
        sigs.contains_key(fg) && (forall|j: int| 0 <= j < contacts.len() ==> #[trigger] contacts[j].pubkey != sigs[fg].0@)
            ==> key_identity(fg, sigs, contacts) is None,
        forall|ci: int| #![trigger contacts[ci]]
            sigs.contains_key(fg) && 0 <= ci < contacts.len() && contacts[ci].pubkey == sigs[fg].0@
            && (forall|k: int| 0 <= k < ci ==> contacts[k].pubkey != sigs[fg].0@) ==> {
                let c = contacts[ci];
                let pk = sigs[fg].0@;
                let sig = sigs[fg].1@;
                key_identity(fg, sigs, contacts) == if c.registrations.len() > 0 && is_hex_string(pk) && is_hex_string(sig)
                    && is_hex_string(c.registrations[0].proof) {
                    Some(KeyIdentity {
                        pubkey: hex_decode_spec(pk),
                        signature: hex_decode_spec(sig),
                        name: c.name,
                        por: hex_decode_spec(c.registrations[0].proof),
                    })
                } else {
                    None
                }
            },
{
    reveal(key_identity);
    if sigs.contains_key(fg) {
        let pk = sigs[fg].0@;
        lemma_contact_with_key(contacts, pk);
        assert forall|ci: int| #![trigger contacts[ci]]
            0 <= ci < contacts.len() && contacts[ci].pubkey == pk
            && (forall|k: int| 0 <= k < ci ==> contacts[k].pubkey != pk)
            implies contact_with_key(contacts, pk) == Some(ci) by {
            let w = contact_with_key(contacts, pk)->0;
            if w < ci {
                assert(contacts[w].pubkey != pk);
            } else if ci < w {
                assert(contacts[ci].pubkey != pk);
            }
        }
    }
}

} // verus!
