use vstd::prelude::*;
use vstd::string::*;
use bitcoin::secp256k1::PublicKey;
use crate::hexcode::{hex_decode, hex_decode_error_text, hex_decode_spec, is_hex_string};
use crate::text::utf8_bytes;

verus! {

#[verifier::external_type_specification]
#[verifier::external_body]
pub struct ExPublicKey(bitcoin::secp256k1::PublicKey);

/// Whether libsecp256k1 accepts `bytes` as the encoding of a point of the curve.
pub uninterp spec fn is_valid_public_key_encoding(bytes: Seq<u8>) -> bool;

/// The key that libsecp256k1 parses from an accepted encoding.
pub uninterp spec fn secp_public_key(bytes: Seq<u8>) -> PublicKey;

/// Calls `secp256k1::PublicKey::from_slice`, which succeeds exactly on the
/// encodings that libsecp256k1 parses as a curve point (left to a name),
/// returns the key parsed from those bytes (left to a name: it depends on the
/// bytes alone), and whose one error displays as `malformed public key`.
#[verifier::external_body]
fn public_key_from_slice(bytes: &[u8]) -> (r: Result<PublicKey, String>)
    ensures
        r is Ok <==> is_valid_public_key_encoding(bytes@),
        r matches Ok(pk) ==> pk == secp_public_key(bytes@),
        r matches Err(msg) ==> msg@ == "malformed public key"@,
{
    PublicKey::from_slice(bytes).map_err(|e| e.to_string())
}

/// An extended public key made from a bare identity key: main network, depth
/// 0, zero parent fingerprint, normal child number 0 and a zero chain code.
pub struct IdentityXpub {
    pub mainnet: bool,
    pub depth: u8,
    pub parent_fingerprint: u32,
    pub child_number: u32,
    pub chain_code: [u8; 32],
    pub public_key: PublicKey,
    /// The compressed encoding that `public_key` was parsed from.
    pub public_key_bytes: Vec<u8>,
}

/// The fields of an [`IdentityXpub`].
pub struct IdentityXpubView {
    pub public_key: PublicKey,
    pub mainnet: bool,
    pub depth: u8,
    pub parent_fingerprint: u32,
    pub child_number: u32,
    pub chain_code: Seq<u8>,
    pub public_key_bytes: Seq<u8>,
}

impl View for IdentityXpub {
    type V = IdentityXpubView;

    open spec fn view(&self) -> IdentityXpubView {
        IdentityXpubView {
            public_key: self.public_key,
            mainnet: self.mainnet,
            depth: self.depth,
            parent_fingerprint: self.parent_fingerprint,
            child_number: self.child_number,
            chain_code: self.chain_code@,
            public_key_bytes: self.public_key_bytes@,
        }
    }
}

/// The identity xpub of a compressed key given by its bytes.
pub open spec fn identity_xpub_spec(key: Seq<u8>) -> IdentityXpubView {
    IdentityXpubView {
        public_key: secp_public_key(key),
        mainnet: true,
        depth: 0,
        parent_fingerprint: 0,
        child_number: 0,
        chain_code: Seq::new(32, |i: int| 0u8),
        public_key_bytes: key,
    }
}

/// The message given for a key that is not 66 bytes long.
pub open spec fn bad_length_message() -> Seq<char> {
    "Public key must be a 66-character hex string (compressed pubkey)"@
}

/// What parsing a hex-encoded identity key gives: the decoded key bytes, or
/// the message that explains the rejection.
pub open spec fn pubkey_parse_spec(s: Seq<char>) -> Result<Seq<u8>, Seq<char>> {
    if utf8_bytes(s).len() != 66 {
        Err(bad_length_message())
    } else if !is_hex_string(s) {
        Err("Invalid hex: "@ + hex_decode_error_text(s))
    } else if !is_valid_public_key_encoding(hex_decode_spec(s)) {
        Err("Invalid public key: "@ + "malformed public key"@)
    } else {
        Ok(hex_decode_spec(s))
    }
}

/// A contact key is accepted exactly when it is 66 bytes of hexadecimal text
/// whose decoded bytes libsecp256k1 accepts as a point, whatever those bytes
/// are (either compressed prefix); the key then stands for exactly the decoded
/// bytes. A key of another length is refused for its length, before anything
/// else is looked at.
pub proof fn law_valid_keys_parse(s: Seq<char>)
    ensures
        pubkey_parse_spec(s) is Ok <==> {
            &&& utf8_bytes(s).len() == 66
            &&& is_hex_string(s)
            &&& is_valid_public_key_encoding(hex_decode_spec(s))
        },
        pubkey_parse_spec(s) matches Ok(key) ==> key == hex_decode_spec(s),
        utf8_bytes(s).len() != 66 ==> pubkey_parse_spec(s) == Err::<Seq<u8>, Seq<char>>(bad_length_message()),
        utf8_bytes(s).len() == 66 && !is_hex_string(s) ==> pubkey_parse_spec(s) == Err::<Seq<u8>, Seq<char>>(
            "Invalid hex: "@ + hex_decode_error_text(s),
        ),
{
}

/// Parses a 66-character hex compressed public key into an identity xpub.
pub fn parse_pubkey_to_xpub(hex_str: &str) -> (r: Result<IdentityXpub, String>)
    ensures
        match pubkey_parse_spec(hex_str@) {
            Ok(key) => r matches Ok(x) && x@ == identity_xpub_spec(key),
            Err(msg) => r matches Err(e) && e@ == msg,
        },
{
    if hex_str.as_bytes().len() != 66 {
        assert(hex_str.spec_bytes() == utf8_bytes(hex_str@));
        return Err(String::from_str("Public key must be a 66-character hex string (compressed pubkey)"));
    }
    assert(hex_str.spec_bytes() == utf8_bytes(hex_str@));
    let bytes = match hex_decode(hex_str) {
        Ok(b) => b,
        Err(e) => {
            return Err(String::from_str("Invalid hex: ").concat(e.as_str()));
        },
    };
    let public_key = match public_key_from_slice(bytes.as_slice()) {
        Ok(pk) => pk,
        Err(e) => {
            return Err(String::from_str("Invalid public key: ").concat(e.as_str()));
        },
    };
    let x = IdentityXpub {
        mainnet: true,
        depth: 0,
        parent_fingerprint: 0,
        child_number: 0,
        chain_code: [0u8; 32],
        public_key,
        public_key_bytes: bytes,
    };
    assert(x.chain_code@ =~= Seq::new(32, |i: int| 0u8));
    Ok(x)
}

} // verus!
