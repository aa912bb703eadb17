//! End-to-end scenarios against the modelled ledger, with the real host
//! derivation routines linked in.

use anchor_lang::prelude::Pubkey;
use anchor_spl::associated_token::get_associated_token_address;
use nft_maker::accounts::{Account, AccountData, NFTMintSettings};
use nft_maker::address::Address;
use nft_maker::errors::ErrorCode;
use nft_maker::ledger::Ledger;
use nft_maker::program::{initialize, minting_nft, CostSchedule, Initialize, MintingNFT};

fn addr(n: u8) -> Address {
    Address::new([n; 32])
}

fn ata_of(wallet: u8, mint: u8) -> Address {
    let w = Pubkey::new_from_array([wallet; 32]);
    let m = Pubkey::new_from_array([mint; 32]);
    Address::new(get_associated_token_address(&w, &m).to_bytes())
}

fn metadata_pda_of(mint: u8) -> Address {
    let mpl = Pubkey::new_from_array(mpl_token_metadata::ID.to_bytes());
    let m = Pubkey::new_from_array([mint; 32]);
    let (pk, _bump) =
        Pubkey::try_find_program_address(&[b"metadata", mpl.as_ref(), m.as_ref()], &mpl).unwrap();
    Address::new(pk.to_bytes())
}

fn edition_pda_of(mint: u8) -> Address {
    let mpl = Pubkey::new_from_array(mpl_token_metadata::ID.to_bytes());
    let m = Pubkey::new_from_array([mint; 32]);
    let (pk, _bump) = Pubkey::try_find_program_address(
        &[b"metadata", mpl.as_ref(), m.as_ref(), b"edition"],
        &mpl,
    )
    .unwrap();
    Address::new(pk.to_bytes())
}

const SIGNER: u8 = 1;
const VAULT: u8 = 2;
const CONFIG: u8 = 3;
const RECIPIENT: u8 = 5;
const MINT: u8 = 6;

fn init_accounts() -> Initialize {
    Initialize { signer: addr(SIGNER), payer_vault: addr(VAULT), nft_mint_settings: addr(CONFIG) }
}

fn mint_accounts(mint: u8) -> MintingNFT {
    MintingNFT {
        signer: addr(SIGNER),
        recipient: addr(RECIPIENT),
        recipient_token: ata_of(RECIPIENT, mint),
        payer_vault: addr(VAULT),
        nft_mint_settings: addr(CONFIG),
        mint: addr(mint),
    }
}

fn costs() -> CostSchedule {
    CostSchedule { mint_account: 100, token_account: 200, metadata: 300, edition: 400 }
}

/// A ledger with an initialized configuration and a funded vault.
fn ready_ledger() -> Ledger {
    let mut l = Ledger::new();
    initialize(&mut l, init_accounts(), 7, 8, addr(SIGNER), 0).unwrap();
    l.upsert(addr(VAULT), Account { lamports: 10_000_000, data: AccountData::Empty });
    l
}

fn do_mint(l: &mut Ledger, mint: u8) -> Result<nft_maker::program::MintEvent, ErrorCode> {
    minting_nft(
        l,
        mint_accounts(mint),
        "A Token".to_string(),
        "TOK".to_string(),
        "https://example.invalid/meta.json".to_string(),
        500,
        false,
        costs(),
    )
}

#[test]
fn initialize_zero_funding() {
    let mut l = Ledger::new();
    let r = initialize(&mut l, init_accounts(), 7, 8, addr(SIGNER), 0);
    assert_eq!(r, Ok(()));
    match l.get(&addr(CONFIG)) {
        Some(acc) => match &acc.data {
            AccountData::Configuration(c) => {
                assert_eq!(c.config_nonce, 7);
                assert_eq!(c.vault_nonce, 8);
                assert_eq!(c.authority, addr(SIGNER));
                assert_eq!(c.payer_vault, addr(VAULT));
                assert_eq!(c.nft_count, 0);
            }
            _ => panic!("expected a configuration record"),
        },
        None => panic!("configuration missing"),
    }
    // No funding: the vault's balance stays at its baseline (absent here).
    assert!(l.get(&addr(VAULT)).is_none());
}

#[test]
fn initialize_with_funding_moves_exactly_the_amount() {
    let mut l = Ledger::new();
    l.upsert(addr(SIGNER), Account { lamports: 9_000_000, data: AccountData::Empty });
    let r = initialize(&mut l, init_accounts(), 7, 8, addr(SIGNER), 5_000_000);
    assert_eq!(r, Ok(()));
    assert_eq!(l.get(&addr(VAULT)).unwrap().lamports, 5_000_000);
    assert_eq!(l.get(&addr(SIGNER)).unwrap().lamports, 4_000_000);
}

#[test]
fn initialize_insufficient_balance_changes_nothing() {
    let mut l = Ledger::new();
    l.upsert(addr(SIGNER), Account { lamports: 10, data: AccountData::Empty });
    let r = initialize(&mut l, init_accounts(), 7, 8, addr(SIGNER), 5_000_000);
    assert_eq!(r, Err(ErrorCode::InsufficientFunds));
    assert!(l.get(&addr(CONFIG)).is_none());
    assert!(l.get(&addr(VAULT)).is_none());
    assert_eq!(l.get(&addr(SIGNER)).unwrap().lamports, 10);
}

#[test]
fn reinitialize_fails_and_keeps_the_record() {
    let mut l = Ledger::new();
    initialize(&mut l, init_accounts(), 7, 8, addr(SIGNER), 0).unwrap();
    let r = initialize(&mut l, init_accounts(), 9, 9, addr(9), 0);
    assert_eq!(r, Err(ErrorCode::AccountAlreadyExists));
    match &l.get(&addr(CONFIG)).unwrap().data {
        AccountData::Configuration(c) => {
            assert_eq!(c.authority, addr(SIGNER));
            assert_eq!(c.config_nonce, 7);
            assert_eq!(c.nft_count, 0);
        }
        _ => panic!("expected a configuration record"),
    }
}

#[test]
fn initialize_vault_may_not_be_the_configuration() {
    let mut l = Ledger::new();
    let a = Initialize {
        signer: addr(SIGNER),
        payer_vault: addr(CONFIG),
        nft_mint_settings: addr(CONFIG),
    };
    assert_eq!(initialize(&mut l, a, 7, 8, addr(SIGNER), 0), Err(ErrorCode::InvalidOwner));
}

#[test]
fn mint_creates_every_record() {
    let mut l = ready_ledger();
    let ev = do_mint(&mut l, MINT).unwrap();
    assert_eq!(ev.status, "ok");
    assert_eq!(ev.nft_count, "1");
    assert_eq!(ev.mint, Pubkey::new_from_array([MINT; 32]).to_string());
    assert_eq!(ev.recipient, Pubkey::new_from_array([RECIPIENT; 32]).to_string());

    // The supply record: zero decimals, exactly one unit, vault as authority.
    let mint_acc = l.get(&addr(MINT)).unwrap();
    assert_eq!(mint_acc.lamports, 100);
    match &mint_acc.data {
        AccountData::MintAccount { decimals, supply, mint_authority, freeze_authority } => {
            assert_eq!(*decimals, 0);
            assert_eq!(*supply, 1);
            assert_eq!(*mint_authority, addr(VAULT));
            assert_eq!(*freeze_authority, addr(VAULT));
        }
        _ => panic!("expected a mint record"),
    }

    // The holding account at the derived address holds the unit.
    let holding = l.get(&ata_of(RECIPIENT, MINT)).unwrap();
    assert_eq!(holding.lamports, 200);
    match &holding.data {
        AccountData::TokenAccount { owner, mint, amount } => {
            assert_eq!(*owner, addr(RECIPIENT));
            assert_eq!(*mint, addr(MINT));
            assert_eq!(*amount, 1);
        }
        _ => panic!("expected a token account"),
    }

    // The metadata record at the derived address.
    let md = l.get(&metadata_pda_of(MINT)).unwrap();
    assert_eq!(md.lamports, 300);
    match &md.data {
        AccountData::Metadata {
            mint,
            update_authority,
            name,
            symbol,
            uri,
            seller_fee_basis_points,
            creators,
            is_mutable,
        } => {
            assert_eq!(*mint, addr(MINT));
            assert_eq!(*update_authority, addr(VAULT));
            assert_eq!(name, "A Token");
            assert_eq!(symbol, "TOK");
            assert_eq!(uri, "https://example.invalid/meta.json");
            assert_eq!(*seller_fee_basis_points, 500);
            assert!(*is_mutable);
            assert_eq!(creators.len(), 2);
            assert_eq!(creators[0].address, addr(VAULT));
            assert!(!creators[0].verified);
            assert_eq!(creators[0].share, 0);
            assert_eq!(creators[1].address, addr(RECIPIENT));
            assert!(!creators[1].verified);
            assert_eq!(creators[1].share, 100);
        }
        _ => panic!("expected a metadata record"),
    }

    // The master edition at the derived address caps copies at zero.
    let ed = l.get(&edition_pda_of(MINT)).unwrap();
    assert_eq!(ed.lamports, 400);
    match &ed.data {
        AccountData::MasterEdition { max_supply } => assert_eq!(*max_supply, 0),
        _ => panic!("expected a master edition record"),
    }

    // The vault paid all four rents; the counter moved 0 -> 1.
    assert_eq!(l.get(&addr(VAULT)).unwrap().lamports, 10_000_000 - 1000);
    match &l.get(&addr(CONFIG)).unwrap().data {
        AccountData::Configuration(c) => assert_eq!(c.nft_count, 1),
        _ => panic!("expected a configuration record"),
    }
}

#[test]
fn second_mint_is_independent_and_counts_up() {
    let mut l = ready_ledger();
    do_mint(&mut l, MINT).unwrap();
    let ev = do_mint(&mut l, 16).unwrap();
    assert_eq!(ev.nft_count, "2");
    assert_ne!(metadata_pda_of(MINT), metadata_pda_of(16));
    // The first mint's records are untouched.
    match &l.get(&addr(MINT)).unwrap().data {
        AccountData::MintAccount { supply, .. } => assert_eq!(*supply, 1),
        _ => panic!("expected a mint record"),
    }
    assert_eq!(l.get(&metadata_pda_of(MINT)).unwrap().lamports, 300);
    assert_eq!(l.get(&edition_pda_of(MINT)).unwrap().lamports, 400);
    // Both new records exist.
    assert!(l.get(&addr(16)).is_some());
    assert!(l.get(&metadata_pda_of(16)).is_some());
    assert!(l.get(&edition_pda_of(16)).is_some());
    match &l.get(&addr(CONFIG)).unwrap().data {
        AccountData::Configuration(c) => assert_eq!(c.nft_count, 2),
        _ => panic!("expected a configuration record"),
    }
}

#[test]
fn mint_by_non_authority_changes_nothing() {
    let mut l = ready_ledger();
    let mut a = mint_accounts(MINT);
    a.signer = addr(9);
    let r = minting_nft(
        &mut l,
        a,
        "A Token".to_string(),
        "TOK".to_string(),
        "u".to_string(),
        0,
        false,
        costs(),
    );
    assert_eq!(r.unwrap_err(), ErrorCode::Unauthorized);
    assert!(l.get(&addr(MINT)).is_none());
    assert!(l.get(&metadata_pda_of(MINT)).is_none());
    assert!(l.get(&edition_pda_of(MINT)).is_none());
    match &l.get(&addr(CONFIG)).unwrap().data {
        AccountData::Configuration(c) => assert_eq!(c.nft_count, 0),
        _ => panic!("expected a configuration record"),
    }
}

#[test]
fn mint_with_wrong_holding_address_changes_nothing() {
    let mut l = ready_ledger();
    let mut a = mint_accounts(MINT);
    a.recipient_token = addr(8);
    let r = minting_nft(
        &mut l,
        a,
        "A Token".to_string(),
        "TOK".to_string(),
        "u".to_string(),
        0,
        false,
        costs(),
    );
    assert_eq!(r.unwrap_err(), ErrorCode::InvalidAssociatedTokenAddress);
    assert!(l.get(&addr(MINT)).is_none());
    assert!(l.get(&addr(8)).is_none());
    match &l.get(&addr(CONFIG)).unwrap().data {
        AccountData::Configuration(c) => assert_eq!(c.nft_count, 0),
        _ => panic!("expected a configuration record"),
    }
}

#[test]
fn mint_with_wrong_vault_is_rejected() {
    let mut l = ready_ledger();
    let mut a = mint_accounts(MINT);
    a.payer_vault = addr(9);
    let r = minting_nft(
        &mut l,
        a,
        "A Token".to_string(),
        "TOK".to_string(),
        "u".to_string(),
        0,
        false,
        costs(),
    );
    assert_eq!(r.unwrap_err(), ErrorCode::PayerVaultMismatch);
    assert!(l.get(&addr(MINT)).is_none());
}

#[test]
fn vault_check_precedes_authority_check() {
    let mut l = ready_ledger();
    let mut a = mint_accounts(MINT);
    a.payer_vault = addr(9);
    a.signer = addr(10);
    let r = minting_nft(
        &mut l,
        a,
        "A Token".to_string(),
        "TOK".to_string(),
        "u".to_string(),
        0,
        false,
        costs(),
    );
    assert_eq!(r.unwrap_err(), ErrorCode::PayerVaultMismatch);
}

#[test]
fn authority_check_precedes_holding_address_check() {
    let mut l = ready_ledger();
    let mut a = mint_accounts(MINT);
    a.signer = addr(10);
    a.recipient_token = addr(8);
    let r = minting_nft(
        &mut l,
        a,
        "A Token".to_string(),
        "TOK".to_string(),
        "u".to_string(),
        0,
        false,
        costs(),
    );
    assert_eq!(r.unwrap_err(), ErrorCode::Unauthorized);
}

#[test]
fn mint_against_a_plain_account_is_rejected() {
    let mut l = ready_ledger();
    let mut a = mint_accounts(MINT);
    a.nft_mint_settings = addr(VAULT);
    let r = minting_nft(
        &mut l,
        a,
        "A Token".to_string(),
        "TOK".to_string(),
        "u".to_string(),
        0,
        false,
        costs(),
    );
    assert_eq!(r.unwrap_err(), ErrorCode::InvalidOwner);
}

#[test]
fn mint_with_underfunded_vault_changes_nothing() {
    let mut l = ready_ledger();
    l.upsert(addr(VAULT), Account { lamports: 999, data: AccountData::Empty });
    let r = do_mint(&mut l, MINT);
    assert_eq!(r.unwrap_err(), ErrorCode::InsufficientFunds);
    assert!(l.get(&addr(MINT)).is_none());
    assert_eq!(l.get(&addr(VAULT)).unwrap().lamports, 999);
}

#[test]
fn mint_over_an_existing_mint_account_is_rejected() {
    let mut l = ready_ledger();
    do_mint(&mut l, MINT).unwrap();
    let r = do_mint(&mut l, MINT);
    assert_eq!(r.unwrap_err(), ErrorCode::AccountAlreadyExists);
}

#[test]
fn mint_keeps_lamports_already_at_the_holding_address() {
    let mut l = ready_ledger();
    // Someone transferred plain lamports to the derived address beforehand.
    l.upsert(ata_of(RECIPIENT, MINT), Account { lamports: 50, data: AccountData::Empty });
    do_mint(&mut l, MINT).unwrap();
    let holding = l.get(&ata_of(RECIPIENT, MINT)).unwrap();
    assert_eq!(holding.lamports, 250);
    match &holding.data {
        AccountData::TokenAccount { amount, .. } => assert_eq!(*amount, 1),
        _ => panic!("expected a token account"),
    }
}

#[test]
fn mint_rejects_a_squatted_holding_address() {
    let mut l = ready_ledger();
    // The derived address is occupied by data of the wrong kind.
    l.upsert(
        ata_of(RECIPIENT, MINT),
        Account { lamports: 1, data: AccountData::MasterEdition { max_supply: 9 } },
    );
    let r = do_mint(&mut l, MINT);
    assert_eq!(r.unwrap_err(), ErrorCode::InvalidOwner);
    assert!(l.get(&addr(MINT)).is_none());
}

#[test]
fn initialize_where_signer_is_the_vault_moves_nothing() {
    let mut l = Ledger::new();
    l.upsert(addr(SIGNER), Account { lamports: 7_000_000, data: AccountData::Empty });
    let a = Initialize {
        signer: addr(SIGNER),
        payer_vault: addr(SIGNER),
        nft_mint_settings: addr(CONFIG),
    };
    assert_eq!(initialize(&mut l, a, 7, 8, addr(SIGNER), 5_000_000), Ok(()));
    assert_eq!(l.get(&addr(SIGNER)).unwrap().lamports, 7_000_000);
}

#[test]
fn event_count_renders_in_decimal() {
    let mut l = ready_ledger();
    // A configuration that has already counted 41 mints.
    l.upsert(
        addr(CONFIG),
        Account {
            lamports: 0,
            data: AccountData::Configuration(NFTMintSettings {
                config_nonce: 7,
                vault_nonce: 8,
                authority: addr(SIGNER),
                payer_vault: addr(VAULT),
                nft_count: 41,
            }),
        },
    );
    let ev = do_mint(&mut l, MINT).unwrap();
    assert_eq!(ev.nft_count, "42");
}

#[test]
fn addresses_render_in_base58() {
    let mut l = ready_ledger();
    let ev = do_mint(&mut l, MINT).unwrap();
    // base58 of [6; 32], as the host renders it — not the raw bytes.
    let expected = Pubkey::new_from_array([MINT; 32]).to_string();
    assert_eq!(ev.mint, expected);
    assert_ne!(ev.mint.as_bytes(), &[MINT; 32][..]);
}
