//! The issuer's two entry points: initialization and minting.
//!
//! Both take the ledger they act on by reference, run every guard before any
//! write, and either commit the whole effect or leave the ledger exactly as
//! it was.

use vstd::prelude::*;
use crate::accounts::{Account, AccountData, CreatorEntry, NFTMintSettings};
use crate::address::Address;
use crate::errors::ErrorCode;
use crate::ledger::Ledger;
use crate::pda::{
    associated_token_address_of, base58, base58_of, derive_associated_token_address,
    derive_edition_address, derive_metadata_address, edition_address_of, metadata_address_of,
};
use crate::text::{dec_str_of, u64_to_dec_string};

verus! {

/// The accounts an initialization request addresses.
#[derive(Clone, Copy, Debug)]
pub struct Initialize {
    /// The initializer: signs the request and funds the vault.
    pub signer: Address,
    /// The vault that will pay for every record a mint creates.
    pub payer_vault: Address,
    /// Where the configuration record is created.
    pub nft_mint_settings: Address,
}

/// The accounts a mint request addresses.
#[derive(Clone, Copy, Debug)]
pub struct MintingNFT {
    /// The caller; must be the configured authority.
    pub signer: Address,
    /// Who receives the minted unit.
    pub recipient: Address,
    /// The claimed holding account of the recipient for this mint.
    pub recipient_token: Address,
    /// The claimed vault; must match the configuration.
    pub payer_vault: Address,
    /// The configuration record.
    pub nft_mint_settings: Address,
    /// The fresh address of the new supply record.
    pub mint: Address,
}

/// Rent-exemption price of each record a mint creates, supplied by the
/// caller from the host's rent schedule.
#[derive(Clone, Copy, Debug)]
pub struct CostSchedule {
    pub mint_account: u64,
    pub token_account: u64,
    pub metadata: u64,
    pub edition: u64,
}

/// The notification emitted after a successful mint.
#[derive(Debug, PartialEq, Eq)]
pub struct MintEvent {
    /// The new mint's address, in base58.
    pub mint: String,
    /// The recipient's address, in base58.
    pub recipient: String,
    /// A success marker; always `"ok"`.
    pub status: String,
    /// The updated counter, in decimal.
    pub nft_count: String,
}

/// The balance at `k`; an absent account holds nothing.
pub open spec fn balance_at(l: Ledger, k: Seq<u8>) -> u64 {
    match l.spec_get(k) {
        Some(acc) => acc.lamports,
        None => 0,
    }
}

/// Whether the account at `k` is absent or a plain balance-only account.
pub open spec fn is_plain(l: Ledger, k: Seq<u8>) -> bool {
    match l.spec_get(k) {
        Some(acc) => acc.data is Empty,
        None => true,
    }
}

/// The configuration stored at `k`, if the account there is one.
pub open spec fn config_of(l: Ledger, k: Seq<u8>) -> Option<NFTMintSettings> {
    match l.spec_get(k) {
        Some(acc) => match acc.data {
            AccountData::Configuration(c) => Some(c),
            _ => None,
        },
        None => None,
    }
}

/// Whether `o` is a configuration record with exactly these fields.
pub open spec fn is_configuration(
    o: Option<Account>,
    config_nonce: u8,
    vault_nonce: u8,
    authority: Seq<u8>,
    payer_vault: Seq<u8>,
    nft_count: u64,
) -> bool {
    o matches Some(acc) && acc.data matches AccountData::Configuration(c)
        && c.config_nonce == config_nonce && c.vault_nonce == vault_nonce && c.authority@
        == authority && c.payer_vault@ == payer_vault && c.nft_count == nft_count
}

/// Why an initialization request fails, if it does. The guards run in this
/// order, before any write, and the first failure is reported.
pub open spec fn initialize_error(l: Ledger, a: Initialize, amount: u64) -> Option<ErrorCode> {
    if l.spec_get(a.nft_mint_settings@) is Some {
        Some(ErrorCode::AccountAlreadyExists)
    } else if a.payer_vault@ == a.nft_mint_settings@ {
        Some(ErrorCode::InvalidOwner)
    } else if amount != 0 && !(is_plain(l, a.signer@) && is_plain(l, a.payer_vault@)) {
        Some(ErrorCode::InvalidOwner)
    } else if amount != 0 && balance_at(l, a.signer@) < amount {
        Some(ErrorCode::InsufficientFunds)
    } else if amount != 0 && a.signer@ != a.payer_vault@ && balance_at(l, a.payer_vault@) + amount
        > u64::MAX {
        Some(ErrorCode::InsufficientFunds)
    } else {
        None
    }
}

/// The ledger after a successful initialization, relative to the ledger
/// before: a fresh configuration with a zero counter, the funding transfer,
/// and nothing else.
pub open spec fn initialized_state(
    pre: Ledger,
    post: Ledger,
    a: Initialize,
    config_nonce: u8,
    vault_nonce: u8,
    authority: Address,
    amount: u64,
) -> bool {
    let cfg = a.nft_mint_settings@;
    &&& is_configuration(
        post.spec_get(cfg),
        config_nonce,
        vault_nonce,
        authority@,
        a.payer_vault@,
        0,
    )
    &&& if amount == 0 || a.signer@ == a.payer_vault@ {
        forall|k: Seq<u8>| k != cfg ==> post.spec_get(k) == pre.spec_get(k)
    } else {
        &&& balance_at(post, a.signer@) == balance_at(pre, a.signer@) - amount
        &&& balance_at(post, a.payer_vault@) == balance_at(pre, a.payer_vault@) + amount
        &&& is_plain(post, a.signer@)
        &&& is_plain(post, a.payer_vault@)
        &&& forall|k: Seq<u8>|
            k != cfg && k != a.signer@ && k != a.payer_vault@ ==> post.spec_get(k)
                == pre.spec_get(k)
    }
}

/// Creates the configuration record with a zero counter, binds the authority
/// and the vault once and for all, and — when `amount` is not zero — moves
/// `amount` from the signer to the vault in the same atomic step. At most one
/// initialization can ever succeed per configuration address.
pub fn initialize(
    ledger: &mut Ledger,
    accounts: Initialize,
    config_nonce: u8,
    vault_nonce: u8,
    authority: Address,
    amount: u64,
) -> (r: Result<(), ErrorCode>)
    ensures
        r matches Err(e) ==> initialize_error(*old(ledger), accounts, amount) == Some(e)
            && *final(ledger) == *old(ledger),
        r is Ok ==> initialize_error(*old(ledger), accounts, amount) is None && initialized_state(
            *old(ledger),
            *final(ledger),
            accounts,
            config_nonce,
            vault_nonce,
            authority,
            amount,
        ),
{
    match ledger.get(&accounts.nft_mint_settings) {
        Some(_) => {
            return Err(ErrorCode::AccountAlreadyExists);
        },
        None => {},
    }
    if accounts.payer_vault.same_as(&accounts.nft_mint_settings) {
        return Err(ErrorCode::InvalidOwner);
    }
    if amount != 0 {
        let signer_balance: u64 = match ledger.get(&accounts.signer) {
            Some(acc) => match &acc.data {
                AccountData::Empty => acc.lamports,
                _ => {
                    return Err(ErrorCode::InvalidOwner);
                },
            },
            None => 0,
        };
        let vault_balance: u64 = match ledger.get(&accounts.payer_vault) {
            Some(acc) => match &acc.data {
                AccountData::Empty => acc.lamports,
                _ => {
                    return Err(ErrorCode::InvalidOwner);
                },
            },
            None => 0,
        };
        if signer_balance < amount {
            return Err(ErrorCode::InsufficientFunds);
        }
        if !accounts.signer.same_as(&accounts.payer_vault) {
            let credited: u64 = match vault_balance.checked_add(amount) {
                Some(v) => v,
                None => {
                    return Err(ErrorCode::InsufficientFunds);
                },
            };
            ledger.upsert(
                accounts.signer,
                Account { lamports: signer_balance - amount, data: AccountData::Empty },
            );
            ledger.upsert(
                accounts.payer_vault,
                Account { lamports: credited, data: AccountData::Empty },
            );
        }
    }
    ledger.upsert(
        accounts.nft_mint_settings,
        Account {
            lamports: 0,
            data: AccountData::Configuration(
                NFTMintSettings {
                    config_nonce,
                    vault_nonce,
                    authority,
                    payer_vault: accounts.payer_vault,
                    nft_count: 0,
                },
            ),
        },
    );
    Ok(())
}

/// The rent of all records one mint creates.
pub open spec fn total_cost(costs: CostSchedule) -> int {
    costs.mint_account + costs.token_account + costs.metadata + costs.edition
}

/// Whether every address the mint would create is free and the written
/// addresses are mutually distinct (a collision would make one write clobber
/// another; on the host it surfaces as a duplicate creation).
pub open spec fn mint_addresses_free(l: Ledger, a: MintingNFT, md: Seq<u8>, ed: Seq<u8>) -> bool {
    &&& l.spec_get(a.mint@) is None
    &&& l.spec_get(md) is None
    &&& l.spec_get(ed) is None
    &&& a.mint@ != md && a.mint@ != ed && md != ed
    &&& a.recipient_token@ != a.mint@ && a.recipient_token@ != md && a.recipient_token@ != ed
    &&& a.payer_vault@ != a.mint@ && a.payer_vault@ != md && a.payer_vault@ != ed
    &&& a.payer_vault@ != a.recipient_token@
}

/// Why a mint request fails, if it does. The guards run in this order,
/// before any record is written, and the first failure is reported.
pub open spec fn minting_error(l: Ledger, a: MintingNFT, costs: CostSchedule) -> Option<
    ErrorCode,
> {
    let md_opt = metadata_address_of(a.mint@);
    let ed_opt = edition_address_of(a.mint@);
    let ata_opt = associated_token_address_of(a.recipient@, a.mint@);
    if config_of(l, a.nft_mint_settings@) is None {
        Some(ErrorCode::InvalidOwner)
    } else {
        let c = config_of(l, a.nft_mint_settings@).unwrap();
        if c.payer_vault@ != a.payer_vault@ {
            Some(ErrorCode::PayerVaultMismatch)
        } else if c.authority@ != a.signer@ {
            Some(ErrorCode::Unauthorized)
        } else if ata_opt is None || md_opt is None || ed_opt is None {
            Some(ErrorCode::AddressDerivationFailed)
        } else if a.recipient_token@ != ata_opt.unwrap() {
            Some(ErrorCode::InvalidAssociatedTokenAddress)
        } else if !mint_addresses_free(l, a, md_opt.unwrap(), ed_opt.unwrap()) {
            Some(ErrorCode::AccountAlreadyExists)
        } else if !(is_plain(l, a.recipient_token@) && is_plain(l, a.payer_vault@)) {
            Some(ErrorCode::InvalidOwner)
        } else if balance_at(l, a.payer_vault@) < total_cost(costs) || balance_at(
            l,
            a.recipient_token@,
        ) + costs.token_account > u64::MAX {
            Some(ErrorCode::InsufficientFunds)
        } else {
            None
        }
    }
}

/// Whether `o` is the supply record of a freshly minted unique token: zero
/// decimal places, exactly one unit in circulation, both authorities `vault`.
pub open spec fn is_unit_mint(o: Option<Account>, vault: Seq<u8>, lamports: u64) -> bool {
    o matches Some(acc) && acc.lamports == lamports && (acc.data matches AccountData::MintAccount {
        decimals,
        supply,
        mint_authority,
        freeze_authority,
    } && decimals == 0 && supply == 1 && mint_authority@ == vault && freeze_authority@ == vault)
}

/// Whether `o` is a holding account owned by `owner` holding exactly the one
/// minted unit of `mint`.
pub open spec fn is_unit_holding(
    o: Option<Account>,
    owner: Seq<u8>,
    mint: Seq<u8>,
    lamports: u64,
) -> bool {
    o matches Some(acc) && acc.lamports == lamports && (acc.data
        matches AccountData::TokenAccount { owner: holder, mint: minted, amount } && holder@
        == owner && minted@ == mint && amount == 1)
}

/// Whether `o` is the metadata record of one mint: the supplied texts and
/// royalty, mutability the negation of the immutability flag, and a creator
/// list of the vault (share 0) and the recipient (share 100), both
/// unverified — a derived authority cannot co-sign as a creator.
pub open spec fn is_metadata_record(
    o: Option<Account>,
    mint: Seq<u8>,
    vault: Seq<u8>,
    recipient: Seq<u8>,
    name: Seq<char>,
    symbol: Seq<char>,
    uri: Seq<char>,
    seller_fee_basis_points: u16,
    immutable: bool,
    lamports: u64,
) -> bool {
    o matches Some(acc) && acc.lamports == lamports && (acc.data matches AccountData::Metadata {
        mint: minted,
        update_authority,
        name: n,
        symbol: s,
        uri: u,
        seller_fee_basis_points: fee,
        creators,
        is_mutable,
    } && minted@ == mint && update_authority@ == vault && n@ == name && s@ == symbol && u@ == uri
        && fee == seller_fee_basis_points && is_mutable == !immutable && creators@.len() == 2
        && creators@[0].address@ == vault && creators@[0].verified == false && creators@[0].share
        == 0 && creators@[1].address@ == recipient && creators@[1].verified == false
        && creators@[1].share == 100)
}

/// Whether `o` is a master-edition record capped at zero printable copies.
pub open spec fn is_master_edition(o: Option<Account>, lamports: u64) -> bool {
    o matches Some(acc) && acc.lamports == lamports && (acc.data
        matches AccountData::MasterEdition { max_supply } && max_supply == 0)
}

/// The ledger after a successful mint, relative to the ledger before: the
/// six touched addresses, and nothing else.
pub open spec fn minted_state(
    pre: Ledger,
    post: Ledger,
    a: MintingNFT,
    name: Seq<char>,
    symbol: Seq<char>,
    uri: Seq<char>,
    seller_fee_basis_points: u16,
    immutable: bool,
    costs: CostSchedule,
) -> bool {
    let cfg = a.nft_mint_settings@;
    let vault = a.payer_vault@;
    let rt = a.recipient_token@;
    let md = metadata_address_of(a.mint@).unwrap();
    let ed = edition_address_of(a.mint@).unwrap();
    let c = config_of(pre, cfg).unwrap();
    &&& is_configuration(
        post.spec_get(cfg),
        c.config_nonce,
        c.vault_nonce,
        c.authority@,
        c.payer_vault@,
        (c.nft_count + 1) as u64,
    )
    &&& balance_at(post, cfg) == balance_at(pre, cfg)
    &&& is_unit_mint(post.spec_get(a.mint@), vault, costs.mint_account)
    &&& is_unit_holding(
        post.spec_get(rt),
        a.recipient@,
        a.mint@,
        (balance_at(pre, rt) + costs.token_account) as u64,
    )
    &&& is_metadata_record(
        post.spec_get(md),
        a.mint@,
        vault,
        a.recipient@,
        name,
        symbol,
        uri,
        seller_fee_basis_points,
        immutable,
        costs.metadata,
    )
    &&& is_master_edition(post.spec_get(ed), costs.edition)
    &&& is_plain(post, vault)
    &&& balance_at(post, vault) == balance_at(pre, vault) - total_cost(costs)
    &&& forall|k: Seq<u8>|
        k != cfg && k != vault && k != rt && k != a.mint@ && k != md && k != ed ==> post.spec_get(
            k,
        ) == pre.spec_get(k)
}

/// The notification a successful mint emits.
pub open spec fn event_ok(ev: MintEvent, a: MintingNFT, new_count: u64) -> bool {
    &&& ev.mint@ == base58_of(a.mint@)
    &&& ev.recipient@ == base58_of(a.recipient@)
    &&& ev.nft_count@ == dec_str_of(new_count as nat)
    &&& ev.status@ == "ok"@
}

/// Mints exactly one indivisible unit for the recipient: checks the vault
/// binding, the signer's authority and the claimed holding address, then
/// creates the supply record, the holding account, the metadata record and
/// the master-edition record (maximum supply 0), all rent-funded by the
/// vault, raises the counter by one, and reports the notification to emit.
/// Any failure leaves the ledger exactly as it was.
pub fn minting_nft(
    ledger: &mut Ledger,
    accounts: MintingNFT,
    name: String,
    symbol: String,
    uri: String,
    seller_fee_basis_points: u16,
    immutable: bool,
    costs: CostSchedule,
) -> (r: Result<MintEvent, ErrorCode>)
    requires
        config_of(*old(ledger), accounts.nft_mint_settings@) matches Some(c) ==> c.nft_count
            < u64::MAX,
    ensures
        r matches Err(e) ==> minting_error(*old(ledger), accounts, costs) == Some(e)
            && *final(ledger) == *old(ledger),
        r matches Ok(ev) ==> minting_error(*old(ledger), accounts, costs) is None && minted_state(
            *old(ledger),
            *final(ledger),
            accounts,
            name@,
            symbol@,
            uri@,
            seller_fee_basis_points,
            immutable,
            costs,
        ) && event_ok(
            ev,
            accounts,
            (config_of(*old(ledger), accounts.nft_mint_settings@).unwrap().nft_count + 1) as u64,
        ),
{
    let (config, cfg_lamports): (NFTMintSettings, u64) = match ledger.get(
        &accounts.nft_mint_settings,
    ) {
        Some(acc) => match &acc.data {
            AccountData::Configuration(c) => (*c, acc.lamports),
            _ => {
                return Err(ErrorCode::InvalidOwner);
            },
        },
        None => {
            return Err(ErrorCode::InvalidOwner);
        },
    };
    if !config.payer_vault.same_as(&accounts.payer_vault) {
        return Err(ErrorCode::PayerVaultMismatch);
    }
    if !config.authority.same_as(&accounts.signer) {
        return Err(ErrorCode::Unauthorized);
    }
    let ata = match derive_associated_token_address(&accounts.recipient, &accounts.mint) {
        Some(x) => x,
        None => {
            return Err(ErrorCode::AddressDerivationFailed);
        },
    };
    let md = match derive_metadata_address(&accounts.mint) {
        Some(x) => x,
        None => {
            return Err(ErrorCode::AddressDerivationFailed);
        },
    };
    let ed = match derive_edition_address(&accounts.mint) {
        Some(x) => x,
        None => {
            return Err(ErrorCode::AddressDerivationFailed);
        },
    };
    if !accounts.recipient_token.same_as(&ata) {
        return Err(ErrorCode::InvalidAssociatedTokenAddress);
    }
    if ledger.get(&accounts.mint).is_some() {
        return Err(ErrorCode::AccountAlreadyExists);
    }
    if ledger.get(&md).is_some() {
        return Err(ErrorCode::AccountAlreadyExists);
    }
    if ledger.get(&ed).is_some() {
        return Err(ErrorCode::AccountAlreadyExists);
    }
    if accounts.mint.same_as(&md) || accounts.mint.same_as(&ed) || md.same_as(&ed)
        || accounts.recipient_token.same_as(&accounts.mint) || accounts.recipient_token.same_as(
        &md,
    ) || accounts.recipient_token.same_as(&ed) || accounts.payer_vault.same_as(&accounts.mint)
        || accounts.payer_vault.same_as(&md) || accounts.payer_vault.same_as(&ed)
        || accounts.payer_vault.same_as(&accounts.recipient_token) {
        return Err(ErrorCode::AccountAlreadyExists);
    }
    let rt_lamports: u64 = match ledger.get(&accounts.recipient_token) {
        Some(acc) => match &acc.data {
            AccountData::Empty => acc.lamports,
            _ => {
                return Err(ErrorCode::InvalidOwner);
            },
        },
        None => 0,
    };
    let vault_lamports: u64 = match ledger.get(&accounts.payer_vault) {
        Some(acc) => match &acc.data {
            AccountData::Empty => acc.lamports,
            _ => {
                return Err(ErrorCode::InvalidOwner);
            },
        },
        None => 0,
    };
    let mut remaining = vault_lamports;
    if remaining < costs.mint_account {
        return Err(ErrorCode::InsufficientFunds);
    }
    remaining -= costs.mint_account;
    if remaining < costs.token_account {
        return Err(ErrorCode::InsufficientFunds);
    }
    remaining -= costs.token_account;
    if remaining < costs.metadata {
        return Err(ErrorCode::InsufficientFunds);
    }
    remaining -= costs.metadata;
    if remaining < costs.edition {
        return Err(ErrorCode::InsufficientFunds);
    }
    remaining -= costs.edition;
    let rt_credited: u64 = match rt_lamports.checked_add(costs.token_account) {
        Some(v) => v,
        None => {
            return Err(ErrorCode::InsufficientFunds);
        },
    };
    let new_count = config.nft_count + 1;
    ledger.upsert(
        accounts.mint,
        Account {
            lamports: costs.mint_account,
            data: AccountData::MintAccount {
                decimals: 0,
                supply: 1,
                mint_authority: accounts.payer_vault,
                freeze_authority: accounts.payer_vault,
            },
        },
    );
    ledger.upsert(
        accounts.recipient_token,
        Account {
            lamports: rt_credited,
            data: AccountData::TokenAccount {
                owner: accounts.recipient,
                mint: accounts.mint,
                amount: 1,
            },
        },
    );
    let mut creators: Vec<CreatorEntry> = Vec::new();
    creators.push(CreatorEntry { address: accounts.payer_vault, verified: false, share: 0 });
    creators.push(CreatorEntry { address: accounts.recipient, verified: false, share: 100 });
    ledger.upsert(
        md,
        Account {
            lamports: costs.metadata,
            data: AccountData::Metadata {
                mint: accounts.mint,
                update_authority: accounts.payer_vault,
                name,
                symbol,
                uri,
                seller_fee_basis_points,
                creators,
                is_mutable: !immutable,
            },
        },
    );
    ledger.upsert(
        ed,
        Account { lamports: costs.edition, data: AccountData::MasterEdition { max_supply: 0 } },
    );
    ledger.upsert(accounts.payer_vault, Account { lamports: remaining, data: AccountData::Empty });
    ledger.upsert(
        accounts.nft_mint_settings,
        Account {
            lamports: cfg_lamports,
            data: AccountData::Configuration(
                NFTMintSettings {
                    config_nonce: config.config_nonce,
                    vault_nonce: config.vault_nonce,
                    authority: config.authority,
                    payer_vault: config.payer_vault,
                    nft_count: new_count,
                },
            ),
        },
    );
    let event = MintEvent {
        mint: base58(&accounts.mint),
        recipient: base58(&accounts.recipient),
        status: "ok".to_owned(),
        nft_count: u64_to_dec_string(new_count),
    };
    Ok(event)
}

/// Law: initializing an already-occupied configuration address fails as
/// already existing, whatever the request's parameters — it can never reset
/// the counter or rebind the authority.
pub proof fn lemma_reinitialize_rejected(l: Ledger, a: Initialize, amount: u64)
    requires
        l.spec_get(a.nft_mint_settings@) is Some,
    ensures
        initialize_error(l, a, amount) == Some(ErrorCode::AccountAlreadyExists),
{
}

/// Law: the counter never decreases. A successful mint raises it by exactly
/// one; every rejected request leaves the ledger — counter included —
/// unchanged, as the entry points' contracts state.
pub proof fn lemma_mint_count_monotonic(
    pre: Ledger,
    post: Ledger,
    a: MintingNFT,
    name: Seq<char>,
    symbol: Seq<char>,
    uri: Seq<char>,
    seller_fee_basis_points: u16,
    immutable: bool,
    costs: CostSchedule,
)
    requires
        config_of(pre, a.nft_mint_settings@) is Some,
        config_of(pre, a.nft_mint_settings@).unwrap().nft_count < u64::MAX,
        minted_state(pre, post, a, name, symbol, uri, seller_fee_basis_points, immutable, costs),
    ensures
        config_of(post, a.nft_mint_settings@) is Some,
        config_of(post, a.nft_mint_settings@).unwrap().nft_count == config_of(
            pre,
            a.nft_mint_settings@,
        ).unwrap().nft_count + 1,
{
}

/// Law: a mint never rebinds the configuration: the authority, the vault
/// reference and the derivation nonces survive every successful mint
/// unchanged; only the counter moves.
pub proof fn lemma_mint_preserves_binding(
    pre: Ledger,
    post: Ledger,
    a: MintingNFT,
    name: Seq<char>,
    symbol: Seq<char>,
    uri: Seq<char>,
    seller_fee_basis_points: u16,
    immutable: bool,
    costs: CostSchedule,
)
    requires
        config_of(pre, a.nft_mint_settings@) is Some,
        minted_state(pre, post, a, name, symbol, uri, seller_fee_basis_points, immutable, costs),
    ensures
        config_of(post, a.nft_mint_settings@) is Some,
        config_of(post, a.nft_mint_settings@).unwrap().authority@ == config_of(
            pre,
            a.nft_mint_settings@,
        ).unwrap().authority@,
        config_of(post, a.nft_mint_settings@).unwrap().payer_vault@ == config_of(
            pre,
            a.nft_mint_settings@,
        ).unwrap().payer_vault@,
        config_of(post, a.nft_mint_settings@).unwrap().config_nonce == config_of(
            pre,
            a.nft_mint_settings@,
        ).unwrap().config_nonce,
        config_of(post, a.nft_mint_settings@).unwrap().vault_nonce == config_of(
            pre,
            a.nft_mint_settings@,
        ).unwrap().vault_nonce,
{
}

} // verus!
