//! The signature check: the message a backend attestation is signed over,
//! the backend signer's key, and the check of a signature against both.
use vstd::prelude::*;
use vstd::string::StringSliceAdditionalSpecFns;
use anchor_lang::solana_program::pubkey::{Pubkey, PubkeyError};
use crate::types::{Address, StreamError, ViewerData};

verus! {

/// The error of solana_program's key derivation, carried through opaque.
#[verifier::external_type_specification]
#[verifier::external_body]
pub struct ExPubkeyError(PubkeyError);

/// Label from which the backend signer's key is derived.
pub const BACKEND_SIGNER_SEED: &'static str = "backend_signer";

/// Little-endian bytes of a 32-bit integer.
pub open spec fn le_bytes_u32(x: u32) -> Seq<u8> {
    seq![
        (x % 256) as u8,
        ((x / 256) % 256) as u8,
        ((x / 65536) % 256) as u8,
        (x / 16777216) as u8,
    ]
}

/// Encoding of one attestation entry: identity, watch time, watch percentage.
pub open spec fn viewer_bytes(v: ViewerData) -> Seq<u8> {
    v.address.bytes@ + le_bytes_u32(v.watch_time) + seq![v.watch_percentage]
}

/// The signed message: the stream id followed by every entry, in order.
pub open spec fn attestation_message(id: Seq<u8>, data: Seq<ViewerData>) -> Seq<u8>
    decreases data.len(),
{
    if data.len() == 0 {
        id
    } else {
        attestation_message(id, data.drop_last()) + viewer_bytes(data.last())
    }
}

/// The bytes "ProgramDerivedAddress", which no seed-derived key's owner may end with.
pub open spec fn pda_marker() -> Seq<u8> {
    seq![
        80u8, 114, 111, 103, 114, 97, 109, 68, 101, 114, 105, 118, 101, 100,
        65, 100, 100, 114, 101, 115, 115,
    ]
}

/// Whether a key may own a seed-derived key.
pub open spec fn may_own_seeded(owner: Address) -> bool {
    owner.bytes@.subrange(11, 32) != pda_marker()
}

/// The key that `Pubkey::create_with_seed` derives from a base key, a seed and an owner.
pub uninterp spec fn seeded_key(base: Seq<u8>, seed: Seq<u8>, owner: Seq<u8>) -> Seq<u8>;

/// Relies on `Pubkey::create_with_seed` of solana_program: it refuses a seed
/// of more than 32 bytes and an owner that ends with "ProgramDerivedAddress",
/// and otherwise returns a hash of base, seed and owner, which depends on
/// those bytes alone.
#[verifier::external_body]
fn create_with_seed(base: &Address, seed: &str, owner: &Address) -> (r: Result<
    Address,
    PubkeyError,
>)
    ensures
        r is Ok ==> seed.spec_bytes().len() <= 32 && may_own_seeded(*owner),
        seed.spec_bytes().len() <= 32 && may_own_seeded(*owner) ==> r is Ok,
        r is Ok ==> r->Ok_0.bytes@ == seeded_key(base.bytes@, seed.spec_bytes(), owner.bytes@),
{
    let base = Pubkey::new_from_array(base.bytes);
    let owner = Pubkey::new_from_array(owner.bytes);
    Pubkey::create_with_seed(&base, seed, &owner).map(|k| Address::new(k.to_bytes()))
}

pub open spec fn backend_seed_bytes() -> Seq<u8> {
    BACKEND_SIGNER_SEED.spec_bytes()
}

/// The backend signer's key bytes for a platform operator, where one exists.
pub open spec fn backend_key(authority: Address) -> Seq<u8> {
    seeded_key(authority.bytes@, backend_seed_bytes(), authority.bytes@)
}

/// Derives the backend signer's key from the operator's key, with the
/// operator as both base and owner.
pub fn backend_signer(authority: &Address) -> (r: Result<Address, StreamError>)
    ensures
        r is Ok <==> may_own_seeded(*authority),
        r is Ok ==> r->Ok_0.bytes@ == backend_key(*authority),
        r is Err ==> r->Err_0 == StreamError::InvalidBackendSignature,
{
    proof {
        reveal_strlit("backend_signer");
        assert(vstd::string::is_ascii(BACKEND_SIGNER_SEED));
        assert(BACKEND_SIGNER_SEED.spec_bytes().len() == 14);
    }
    match create_with_seed(authority, BACKEND_SIGNER_SEED, authority) {
        Ok(k) => Ok(k),
        Err(_) => Err(StreamError::InvalidBackendSignature),
    }
}

/// Builds the message a backend attestation is signed over.
pub fn create_signature_message(stream_id: &str, viewer_data: &[ViewerData]) -> (r: Vec<u8>)
    ensures
        r@ == attestation_message(stream_id.spec_bytes(), viewer_data@),
{
    let id = stream_id.as_bytes();
    let mut message: Vec<u8> = Vec::new();
    let mut i: usize = 0;
    while i < id.len()
        invariant
            0 <= i <= id@.len(),
            message@ == id@.subrange(0, i as int),
        decreases id@.len() - i,
    {
        message.push(id[i]);
        i = i + 1;
    }
    proof {
        assert(id@.subrange(0, id@.len() as int) =~= id@);
    }
    let mut j: usize = 0;
    while j < viewer_data.len()
        invariant
            0 <= j <= viewer_data@.len(),
            message@ == attestation_message(id@, viewer_data@.subrange(0, j as int)),
        decreases viewer_data@.len() - j,
    {
        let v = viewer_data[j];
        let ghost before = message@;
        let mut k: usize = 0;
        while k < 32
            invariant
                0 <= k <= 32,
                message@ == before + v.address.bytes@.subrange(0, k as int),
            decreases 32 - k,
        {
            message.push(v.address.bytes[k]);
            k = k + 1;
        }
        let w = v.watch_time;
        message.push((w % 256) as u8);
        message.push(((w / 256) % 256) as u8);
        message.push(((w / 65536) % 256) as u8);
        message.push((w / 16777216) as u8);
        message.push(v.watch_percentage);
        proof {
            let next = viewer_data@.subrange(0, j + 1);
            assert(next.drop_last() =~= viewer_data@.subrange(0, j as int));
            assert(v.address.bytes@.subrange(0, 32) =~= v.address.bytes@);
            assert(message@ =~= before + viewer_bytes(v));
        }
        j = j + 1;
    }
    proof {
        assert(viewer_data@.subrange(0, viewer_data@.len() as int) =~= viewer_data@);
    }
    message
}

/// What a signature verifier said of an attestation: the verifier's
/// postcondition holds of the backend signer's key, the message built from
/// the stream id and entries, and the signature, with the verdict `accepted`.
pub open spec fn verifier_said<F: Fn(&Address, &Vec<u8>, &[u8; 64]) -> bool>(
    verify: F,
    authority: Address,
    stream_id: Seq<u8>,
    data: Seq<ViewerData>,
    signature: [u8; 64],
    accepted: bool,
) -> bool {
    exists|k: Address, m: Vec<u8>|
        k.bytes@ == backend_key(authority) && m@ == attestation_message(stream_id, data)
            && #[trigger] verify.ensures((&k, &m, &signature), accepted)
}

/// Checks a backend signature over an attestation list. The verifier is
/// consulted only when the backend signer's key can be derived.
pub fn check_attestation<F: Fn(&Address, &Vec<u8>, &[u8; 64]) -> bool>(
    authority: &Address,
    stream_id: &str,
    viewer_data: &[ViewerData],
    signature: &[u8; 64],
    verify: &F,
) -> (r: Result<(), StreamError>)
    requires
        forall|k: &Address, m: &Vec<u8>, s: &[u8; 64]| verify.requires((k, m, s)),
    ensures
        r is Err ==> r->Err_0 == StreamError::InvalidBackendSignature,
        r is Ok ==> may_own_seeded(*authority) && verifier_said(
            *verify,
            *authority,
            stream_id.spec_bytes(),
            viewer_data@,
            *signature,
            true,
        ),
        r is Err ==> !may_own_seeded(*authority) || verifier_said(
            *verify,
            *authority,
            stream_id.spec_bytes(),
            viewer_data@,
            *signature,
            false,
        ),
{
    let signer = backend_signer(authority)?;
    let message = create_signature_message(stream_id, viewer_data);
    let accepted = verify(&signer, &message, signature);
    if accepted {
        Ok(())
    } else {
        Err(StreamError::InvalidBackendSignature)
    }
}

} // verus!
