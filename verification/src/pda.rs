//! Deterministic address derivation, delegated to the host chain's routines.
//!
//! Every function here is a trusted wrapper around an outside derivation
//! routine. Each result is a pure function of the wrapper's arguments, so it
//! is given a name that the entry points' contracts speak of.

use vstd::prelude::*;
use crate::address::Address;
use anchor_lang::prelude::Pubkey;

verus! {

/// The metadata-record address derived from a mint address; `None` only when
/// the host's bump-seed search finds no off-curve address.
pub uninterp spec fn metadata_address_of(mint: Seq<u8>) -> Option<Seq<u8>>;

/// The master-edition-record address derived from a mint address; `None` only
/// when the host's bump-seed search finds no off-curve address.
pub uninterp spec fn edition_address_of(mint: Seq<u8>) -> Option<Seq<u8>>;

/// The holding-account address derived from a wallet and a mint; `None` only
/// when the host's bump-seed search finds no off-curve address.
pub uninterp spec fn associated_token_address_of(wallet: Seq<u8>, mint: Seq<u8>) -> Option<
    Seq<u8>,
>;

/// The base58 rendering of 32 address bytes.
pub uninterp spec fn base58_of(bytes: Seq<u8>) -> Seq<char>;

/// Relies on `Pubkey::try_find_program_address` of solana-pubkey and on
/// `mpl_token_metadata::ID`: the derived address is a function of the seeds
/// `["metadata", program id, mint]` alone, and the search returns `None` only
/// when no bump seed yields an off-curve address.
#[verifier::external_body]
pub(crate) fn derive_metadata_address(mint: &Address) -> (r: Option<Address>)
    ensures
        (r is Some) == (metadata_address_of(mint@) is Some),
        r matches Some(a) ==> Some(a@) == metadata_address_of(mint@),
{
    let mpl = Pubkey::new_from_array(mpl_token_metadata::ID.to_bytes());
    Pubkey::try_find_program_address(&[b"metadata", mpl.as_ref(), &mint.bytes], &mpl).map(
        |found: (Pubkey, u8)| Address { bytes: found.0.to_bytes() },
    )
}

/// Relies on `Pubkey::try_find_program_address` of solana-pubkey and on
/// `mpl_token_metadata::ID`: the derived address is a function of the seeds
/// `["metadata", program id, mint, "edition"]` alone, and the search returns
/// `None` only when no bump seed yields an off-curve address.
#[verifier::external_body]
pub(crate) fn derive_edition_address(mint: &Address) -> (r: Option<Address>)
    ensures
        (r is Some) == (edition_address_of(mint@) is Some),
        r matches Some(a) ==> Some(a@) == edition_address_of(mint@),
{
    let mpl = Pubkey::new_from_array(mpl_token_metadata::ID.to_bytes());
    Pubkey::try_find_program_address(
        &[b"metadata", mpl.as_ref(), &mint.bytes, b"edition"],
        &mpl,
    ).map(|found: (Pubkey, u8)| Address { bytes: found.0.to_bytes() })
}

/// Relies on `Pubkey::try_find_program_address`, `anchor_spl::token::ID` and
/// `anchor_spl::associated_token::ID`, with the seed layout of
/// `spl_associated_token_account_interface::address` (wallet, token program,
/// mint): the derived holding address is a function of wallet and mint alone.
#[verifier::external_body]
pub(crate) fn derive_associated_token_address(wallet: &Address, mint: &Address) -> (r: Option<
    Address,
>)
    ensures
        (r is Some) == (associated_token_address_of(wallet@, mint@) is Some),
        r matches Some(a) ==> Some(a@) == associated_token_address_of(wallet@, mint@),
{
    let token = anchor_spl::token::ID.to_bytes();
    let ata = Pubkey::new_from_array(anchor_spl::associated_token::ID.to_bytes());
    Pubkey::try_find_program_address(&[&wallet.bytes, &token, &mint.bytes], &ata).map(
        |found: (Pubkey, u8)| Address { bytes: found.0.to_bytes() },
    )
}

/// Relies on the `Display` impl of solana-pubkey's `Pubkey`, which renders
/// the 32 address bytes in base58; the text is a function of the bytes alone.
#[verifier::external_body]
pub(crate) fn base58(addr: &Address) -> (r: String)
    ensures
        r@ == base58_of(addr@),
{
    Pubkey::new_from_array(addr.bytes).to_string()
}

} // verus!
