//! Inputs the bitcoin vaults benchmarks are built from.

use crate::bench_util::spec_vector;
use crate::common::AccountId;
use vstd::prelude::*;

pub use crate::bench_util::generate_vector;

verus! {

/// The extended public key of benchmark `id`: `size` bytes with prefix 0.
pub fn generate_xpub_sized(id: u8, size: u32) -> (r: Vec<u8>)
    requires
        size > 0,
    ensures
        r@ == spec_vector(0, id, size as nat),
{
    generate_vector(0, id, size)
}

/// The description of benchmark `id`: `size` bytes with prefix 1.
pub fn generate_description_sized(id: u8, size: u32) -> (r: Vec<u8>)
    requires
        size > 0,
    ensures
        r@ == spec_vector(1, id, size as nat),
{
    generate_vector(1, id, size)
}

/// The output descriptor of benchmark `id`: `size` bytes with prefix 2.
pub fn generate_output_descriptor_sized(id: u8, size: u32) -> (r: Vec<u8>)
    requires
        size > 0,
    ensures
        r@ == spec_vector(2, id, size as nat),
{
    generate_vector(2, id, size)
}

/// The URL of benchmark `id`: `size` bytes with prefix 3.
pub fn generate_url_sized(id: u8, size: u32) -> (r: Vec<u8>)
    requires
        size > 0,
    ensures
        r@ == spec_vector(3, id, size as nat),
{
    generate_vector(3, id, size)
}

/// The PSBT of benchmark `id`: `size` bytes with prefix 4.
pub fn generate_psbt_sized(id: u8, size: u32) -> (r: Vec<u8>)
    requires
        size > 0,
    ensures
        r@ == spec_vector(4, id, size as nat),
{
    generate_vector(4, id, size)
}

/// The proposal of benchmark `id`: recipient address, amount in satoshis
/// (`id + 1000`) and description.
pub fn get_proposal_sized(id: u8, xpub_size: u32, desc_size: u32) -> (r: (Vec<u8>, u64, Vec<u8>))
    requires
        xpub_size > 0,
        desc_size > 0,
    ensures
        r.0@ == spec_vector(0, id, xpub_size as nat),
        r.1 == id + 1000,
        r.2@ == spec_vector(1, id, desc_size as nat),
{
    let recipient_address = generate_xpub_sized(id, xpub_size);
    let desc = generate_description_sized(id, desc_size);
    let amount_in_sats = id as u64 + 1000;
    (recipient_address, amount_in_sats, desc)
}

/// What signing a proposal or a proof of a vault does: the cosigners that save
/// a PSBT, in order, the PSBT each saves, the cosigner who then finalizes and
/// the PSBT that finalizing stores, and the cosigner left out.
#[derive(Debug)]
pub struct SigningPlan {
    pub signers: Vec<AccountId>,
    pub psbt: Vec<u8>,
    pub finalizer: Option<AccountId>,
    pub final_psbt: Option<Vec<u8>>,
    pub last_cosigner: Option<AccountId>,
}

/// The cosigners that sign: all of them, or all but the last when `skip_last`.
pub open spec fn signing_cosigners(cosigners: Seq<AccountId>, skip_last: bool) -> Seq<AccountId> {
    if skip_last && cosigners.len() > 0 {
        cosigners.drop_last()
    } else {
        cosigners
    }
}

/// The cosigner left out: the last one when `skip_last`.
pub open spec fn left_out(cosigners: Seq<AccountId>, skip_last: bool) -> Option<AccountId> {
    if skip_last && cosigners.len() > 0 {
        Some(cosigners.last())
    } else {
        None
    }
}

/// The signing of a vault's proposal or proof by `cosigners`, the vault's
/// cosigners in order: each signer saves the PSBT of prefix 4 and id 1; when
/// `finalize`, the first signer finalizes with the PSBT of id 2. Returns the
/// plan; the cosigner left out is what the signing hands back.
fn signing_plan(cosigners: Vec<AccountId>, psbt_size: u32, skip_last: bool, finalize: bool) -> (r: SigningPlan)
    requires
        psbt_size > 0,
        finalize ==> signing_cosigners(cosigners@, skip_last).len() > 0,
    ensures
        r.signers@ == signing_cosigners(cosigners@, skip_last),
        r.last_cosigner == left_out(cosigners@, skip_last),
        r.psbt@ == spec_vector(4, 1, psbt_size as nat),
        finalize ==> r.finalizer == Some(signing_cosigners(cosigners@, skip_last)[0]),
        finalize ==> (r.final_psbt matches Some(f) && f@ == spec_vector(4, 2, psbt_size as nat)),
        !finalize ==> r.finalizer is None && r.final_psbt is None,
{
    let mut signers = cosigners;
    let mut last_cosigner = None;
    if skip_last {
        last_cosigner = signers.pop();
    }
    let psbt = generate_psbt_sized(1, psbt_size);
    let (finalizer, final_psbt) = if finalize {
        (Some(signers[0]), Some(generate_psbt_sized(2, psbt_size)))
    } else {
        (None, None)
    };
    SigningPlan { signers, psbt, finalizer, final_psbt, last_cosigner }
}

/// Signing a proposal: see `signing_plan`.
pub fn sign_proposal_sized(cosigners: Vec<AccountId>, psbt_size: u32, skip_last: bool, finalize: bool) -> (r:
    SigningPlan)
    requires
        psbt_size > 0,
        finalize ==> signing_cosigners(cosigners@, skip_last).len() > 0,
    ensures
        r.signers@ == signing_cosigners(cosigners@, skip_last),
        r.last_cosigner == left_out(cosigners@, skip_last),
        r.psbt@ == spec_vector(4, 1, psbt_size as nat),
        finalize ==> r.finalizer == Some(signing_cosigners(cosigners@, skip_last)[0]),
        finalize ==> (r.final_psbt matches Some(f) && f@ == spec_vector(4, 2, psbt_size as nat)),
        !finalize ==> r.finalizer is None && r.final_psbt is None,
{
    signing_plan(cosigners, psbt_size, skip_last, finalize)
}

/// Signing a vault's proof: see `signing_plan`.
pub fn sign_proof_sized(cosigners: Vec<AccountId>, psbt_size: u32, skip_last: bool, finalize: bool) -> (r: SigningPlan)
    requires
        psbt_size > 0,
        finalize ==> signing_cosigners(cosigners@, skip_last).len() > 0,
    ensures
        r.signers@ == signing_cosigners(cosigners@, skip_last),
        r.last_cosigner == left_out(cosigners@, skip_last),
        r.psbt@ == spec_vector(4, 1, psbt_size as nat),
        finalize ==> r.finalizer == Some(signing_cosigners(cosigners@, skip_last)[0]),
        finalize ==> (r.final_psbt matches Some(f) && f@ == spec_vector(4, 2, psbt_size as nat)),
        !finalize ==> r.finalizer is None && r.final_psbt is None,
{
    signing_plan(cosigners, psbt_size, skip_last, finalize)
}

} // verus!
