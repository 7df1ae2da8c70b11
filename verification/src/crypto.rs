//! The two primitives the controller takes from the KERI libraries: the
//! self-addressing identifier of a byte string and the check of an Ed25519
//! signature. Both are functions of their arguments alone; their results are
//! given names here, and everything else in the crate is stated over those
//! names.

use keri_core::keys::PublicKey;
use keri_core::prefix::{BasicPrefix, SelfSigningPrefix};
use said::derivation::{HashFunction, HashFunctionCode};
use vstd::prelude::*;

verus! {

/// The text of the Blake3-256 self-addressing identifier of `data`.
pub uninterp spec fn blake3_256_identifier(data: Seq<u8>) -> Seq<char>;

/// Whether the Ed25519 public key `key` accepts `signature` as a signature of
/// `message`.
pub uninterp spec fn ed25519_accepts(key: Seq<u8>, message: Seq<u8>, signature: Seq<u8>) -> bool;

/// Whether `signature` can be handed to the signature check: one of the full
/// length of an Ed25519 signature has the three highest bits of its last byte
/// unset.
pub open spec fn admissible(signature: Seq<u8>) -> bool {
    signature.len() == 64 ==> signature[63] < 32
}

/// Calls `said::derivation::HashFunction::derive` with the Blake3-256 code and
/// renders the identifier as text. Trusted: the result is the identifier that
/// the `said` crate derives from exactly these bytes.
#[verifier::external_body]
fn derive_blake3_256(data: &[u8]) -> (id: String)
    ensures
        id@ == blake3_256_identifier(data@),
{
    HashFunction::from(HashFunctionCode::Blake3_256).derive(data).to_string()
}

/// Calls `keri_core::prefix::BasicPrefix::verify` on an Ed25519 key prefix and
/// an Ed25519 signature prefix made of the given bytes. Trusted: the result is
/// the verdict of that check; the error the call can give for other kinds of
/// key or signature counts as a refusal. The call does not return for a
/// signature of full length whose last byte has one of its three highest bits
/// set, so such a signature is not admitted.
#[verifier::external_body]
fn verify_ed25519(key: &[u8], message: &[u8], signature: &[u8]) -> (ok: bool)
    requires
        admissible(signature@),
    ensures
        ok == ed25519_accepts(key@, message@, signature@),
{
    let key = BasicPrefix::Ed25519(PublicKey::new(key.to_vec()));
    let signature = SelfSigningPrefix::Ed25519Sha512(signature.to_vec());
    key.verify(message, &signature).unwrap_or(false)
}

/// The kinds of public key that a key state can hold.
#[derive(Clone, Copy, Debug, PartialEq, Eq, Structural)]
pub enum KeyKind {
    EcdsaSecp256k1NonTransferable,
    EcdsaSecp256k1,
    Ed25519NonTransferable,
    Ed25519,
    Ed448NonTransferable,
    Ed448,
    X25519,
    X448,
}

impl KeyKind {
    /// Whether keys of this kind check Ed25519 signatures.
    pub open spec fn is_ed25519(self) -> bool {
        self == KeyKind::Ed25519 || self == KeyKind::Ed25519NonTransferable
    }

    /// Whether keys of this kind check Ed25519 signatures.
    pub fn ed25519(&self) -> (yes: bool)
        ensures
            yes == self.is_ed25519(),
    {
        match self {
            KeyKind::Ed25519 | KeyKind::Ed25519NonTransferable => true,
            _ => false,
        }
    }
}

/// A public key of the issuer: its kind and its bytes.
#[derive(Debug, PartialEq, Eq)]
pub struct Key {
    pub kind: KeyKind,
    pub bytes: Vec<u8>,
}

pub struct KeyView {
    pub kind: KeyKind,
    pub bytes: Seq<u8>,
}

impl View for Key {
    type V = KeyView;

    open spec fn view(&self) -> KeyView {
        KeyView { kind: self.kind, bytes: self.bytes@ }
    }
}

impl DeepView for Key {
    type V = KeyView;

    open spec fn deep_view(&self) -> KeyView {
        self@
    }
}

impl Clone for Key {
    fn clone(&self) -> (copy: Self)
        ensures
            copy@ == self@,
    {
        Key { kind: self.kind, bytes: self.bytes.clone() }
    }
}

/// The identifier under which a credential with the text `message` is kept.
pub open spec fn credential_id(message: Seq<char>) -> Seq<char> {
    blake3_256_identifier(vstd::utf8::encode_utf8(message))
}

/// The self-addressing identifier of `data`.
pub fn identifier(data: &[u8]) -> (id: String)
    ensures
        id@ == blake3_256_identifier(data@),
{
    derive_blake3_256(data)
}

/// The identifier of the credential whose text is `message`.
pub fn digest(message: &str) -> (id: String)
    ensures
        id@ == credential_id(message@),
{
    derive_blake3_256(message.as_bytes())
}

/// What `key` says of `signature` over `message`. Only an Ed25519 key can
/// accept, and only a signature that is admissible.
pub open spec fn verdict(key: KeyView, message: Seq<u8>, signature: Seq<u8>) -> bool {
    key.kind.is_ed25519() && admissible(signature) && ed25519_accepts(
        key.bytes,
        message,
        signature,
    )
}

/// What `key` says of `signature` over `message`.
pub fn check_key(key: &Key, message: &[u8], signature: &[u8]) -> (ok: bool)
    ensures
        ok == verdict(key@, message@, signature@),
{
    if !key.kind.ed25519() {
        return false;
    }
    if signature.len() == 64 && signature[63] >= 32 {
        return false;
    }
    verify_ed25519(key.bytes.as_slice(), message, signature)
}

/// What each key of `keys` says of `signature` over `message`, in the order
/// of the keys.
pub fn check_keys(keys: &Vec<Key>, message: &[u8], signature: &[u8]) -> (verdicts: Vec<bool>)
    ensures
        verdicts@ == key_verdicts(keys.deep_view(), message@, signature@),
{
    let mut verdicts: Vec<bool> = Vec::new();
    let mut i: usize = 0;
    while i < keys.len()
        invariant
            i <= keys.len(),
            verdicts@ == key_verdicts(keys.deep_view().take(i as int), message@, signature@),
        decreases keys.len() - i,
    {
        let ok = check_key(&keys[i], message, signature);
        proof {
            let all = keys.deep_view();
            assert(all.take(i + 1).drop_last() =~= all.take(i as int));
            assert(all.take(i + 1).last() == keys[i as int]@);
        }
        verdicts.push(ok);
        i += 1;
    }
    proof {
        assert(keys.deep_view().take(keys.len() as int) =~= keys.deep_view());
    }
    verdicts
}

/// The verdict of each key in turn.
pub open spec fn key_verdicts(keys: Seq<KeyView>, message: Seq<u8>, signature: Seq<u8>) -> Seq<
    bool,
>
    decreases keys.len(),
{
    if keys.len() == 0 {
        Seq::empty()
    } else {
        key_verdicts(keys.drop_last(), message, signature).push(
            verdict(keys.last(), message, signature),
        )
    }
}

/// Whether every verdict is an acceptance. An empty list accepts.
pub open spec fn unanimous(verdicts: Seq<bool>) -> bool {
    forall|i: int| 0 <= i < verdicts.len() ==> verdicts[i]
}

/// Whether every key accepted: the conjunctive policy of a multi-key state.
pub fn all_accept(verdicts: &Vec<bool>) -> (ok: bool)
    ensures
        ok == unanimous(verdicts@),
{
    let mut i: usize = 0;
    while i < verdicts.len()
        invariant
            i <= verdicts.len(),
            forall|j: int| 0 <= j < i ==> verdicts@[j],
        decreases verdicts.len() - i,
    {
        if !verdicts[i] {
            return false;
        }
        i += 1;
    }
    true
}

/// Whether every key of `keys` accepts `signature` over `message`.
pub open spec fn keys_accept(keys: Seq<KeyView>, message: Seq<u8>, signature: Seq<u8>) -> bool {
    unanimous(key_verdicts(keys, message, signature))
}

} // verus!
