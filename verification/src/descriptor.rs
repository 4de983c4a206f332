use vstd::prelude::*;

verus! {

/// A wallet descriptor, as far as the installer's decisions read it: its
/// canonical text and, for each key it visits in wallet-policy order (the
/// Taproot internal key first), the master fingerprint of the key's origin
/// when the key is a multi-path extended key (`MultiXPub`) with an origin, and
/// `None` for any other key.
pub struct WalletDescriptor {
    pub text: String,
    pub key_origins: Vec<Option<u32>>,
}

pub struct DescriptorView {
    pub text: Seq<char>,
    pub key_origins: Seq<Option<u32>>,
}

impl View for WalletDescriptor {
    type V = DescriptorView;

    open spec fn view(&self) -> DescriptorView {
        DescriptorView { text: self.text@, key_origins: self.key_origins@ }
    }
}

impl Clone for WalletDescriptor {
    fn clone(&self) -> (r: Self)
        ensures
            r@ == self@,
    {
        WalletDescriptor { text: self.text.clone(), key_origins: self.key_origins.clone() }
    }
}

pub open spec fn descriptor_opt_view(d: Option<WalletDescriptor>) -> Option<DescriptorView> {
    match d {
        Some(x) => Some(x@),
        None => None,
    }
}

/// Copies an optional descriptor.
pub fn clone_descriptor_opt(d: &Option<WalletDescriptor>) -> (r: Option<WalletDescriptor>)
    ensures
        descriptor_opt_view(r) == descriptor_opt_view(*d),
{
    match d {
        Some(x) => Some(x.clone()),
        None => None,
    }
}

/// Two optional descriptors are the same descriptor: both absent, or both
/// present with the same canonical text and the same key origins.
pub open spec fn same_descriptor(a: Option<DescriptorView>, b: Option<DescriptorView>) -> bool {
    match (a, b) {
        (None, None) => true,
        (Some(x), Some(y)) => x == y,
        _ => false,
    }
}

fn same_origins(a: &Vec<Option<u32>>, b: &Vec<Option<u32>>) -> (r: bool)
    ensures
        r == (a@ == b@),
{
    if a.len() != b.len() {
        return false;
    }
    for i in 0..a.len()
        invariant
            a.len() == b.len(),
            forall|k: int| 0 <= k < i ==> a@[k] == b@[k],
    {
        if a[i] != b[i] {
            return false;
        }
    }
    assert(a@ =~= b@);
    true
}

pub fn is_same_descriptor(a: &Option<WalletDescriptor>, b: &Option<WalletDescriptor>) -> (r: bool)
    ensures
        r == same_descriptor(descriptor_opt_view(*a), descriptor_opt_view(*b)),
{
    match (a, b) {
        (None, None) => true,
        (Some(x), Some(y)) => {
            let same = x.text == y.text && same_origins(&x.key_origins, &y.key_origins);
            proof {
                if same {
                    assert(x@ =~= y@);
                }
            }
            same
        },
        _ => false,
    }
}

} // verus!
