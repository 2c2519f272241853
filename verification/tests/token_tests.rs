//! The mint controller: create-once, the authority gate, cross-reference
//! integrity, atomic abort on a forged metadata program, and agreement of
//! the staged metadata call with the real token-metadata builder.

use anchor_lang::solana_program::pubkey::Pubkey;
use derived_authority::token::{
    metadata_instruction, InitializeMint, MetadataArgs, MintError, MintTokens, TokenAccountRef,
    TokenError, TokenProgram, METADATA_PROGRAM_ID, SYSTEM_PROGRAM_ID,
};

const PROGRAM_ID: [u8; 32] = [9u8; 32];
const PAYER: [u8; 32] = [4u8; 32];
const AUTHORITY_X: [u8; 32] = [5u8; 32];
const AUTHORITY_Y: [u8; 32] = [6u8; 32];
const MINT: [u8; 32] = [7u8; 32];
const OTHER_MINT: [u8; 32] = [8u8; 32];

fn metadata_address_for(mint: &[u8; 32]) -> [u8; 32] {
    mpl_token_metadata::accounts::Metadata::find_pda(&Pubkey::new_from_array(*mint))
        .0
        .to_bytes()
}

fn accounts_for(mint: [u8; 32], prog: &TokenProgram) -> InitializeMint {
    let (state, _) = prog.state_address(&mint).expect("derivation must exist");
    InitializeMint {
        payer: PAYER,
        authority: AUTHORITY_X,
        state,
        mint,
        metadata: metadata_address_for(&mint),
        token_metadata_program: METADATA_PROGRAM_ID,
    }
}

fn sample_args() -> MetadataArgs {
    MetadataArgs {
        name: "Example".to_string(),
        symbol: "EXM".to_string(),
        uri: "https://example.org/token.json".to_string(),
    }
}

#[test]
fn state_space_is_exact() {
    assert_eq!(derived_authority::token::TokenState::SPACE, 74);
}

#[test]
fn metadata_program_id_matches_real_crate() {
    assert_eq!(METADATA_PROGRAM_ID, mpl_token_metadata::ID.to_bytes());
}

#[test]
fn system_program_id_matches_real_crate() {
    assert_eq!(
        SYSTEM_PROGRAM_ID,
        anchor_lang::solana_program::system_program::ID.to_bytes()
    );
}

#[test]
fn metadata_derivation_matches_real_crate() {
    let prog = TokenProgram::new(PROGRAM_ID);
    let acc = accounts_for(MINT, &prog);
    // the library accepts exactly the address the metadata crate derives
    let mut p = TokenProgram::new(PROGRAM_ID);
    let r = p.initialize_mint(&acc, 9, Some(sample_args()));
    assert!(r.is_ok());
}

#[test]
fn initialize_mint_persists_record_and_stages_effects() {
    let mut prog = TokenProgram::new(PROGRAM_ID);
    let acc = accounts_for(MINT, &prog);
    let (state, bump) = prog.state_address(&MINT).expect("derivation must exist");
    let eff = prog.initialize_mint(&acc, 9, Some(sample_args())).expect("must succeed");

    assert_eq!(eff.setup.mint, MINT);
    assert_eq!(eff.setup.decimals, 9);
    assert_eq!(eff.setup.mint_authority, state);
    assert_eq!(eff.setup.freeze_authority, state);

    let me = eff.metadata.expect("metadata was requested");
    assert_eq!(me.request.metadata, acc.metadata);
    assert_eq!(me.request.mint, MINT);
    assert_eq!(me.request.mint_authority, state);
    assert_eq!(me.request.payer, PAYER);
    assert_eq!(me.request.update_authority, AUTHORITY_X);
    assert_eq!(me.request.system_program, SYSTEM_PROGRAM_ID);
    assert_eq!(me.request.name, "Example");
    assert_eq!(me.request.symbol, "EXM");
    assert_eq!(me.request.seller_fee_basis_points, 0);
    assert!(me.request.is_mutable);
    assert_eq!(me.proof.seeds, vec![b"token-state".to_vec(), MINT.to_vec()]);
    assert_eq!(me.proof.bump, bump);

    let rec = prog.records.iter().find(|e| e.0 == state).expect("record must exist").1;
    assert_eq!(rec.mint, MINT);
    assert_eq!(rec.authority, AUTHORITY_X);
    assert_eq!(rec.bump, bump);
    assert_eq!(rec.decimals, 9);
}

#[test]
fn staged_instruction_matches_real_builder() {
    let mut prog = TokenProgram::new(PROGRAM_ID);
    let acc = accounts_for(MINT, &prog);
    let eff = prog.initialize_mint(&acc, 9, Some(sample_args())).expect("must succeed");
    let me = eff.metadata.expect("metadata was requested");
    let staged = metadata_instruction(&me.request);

    let expected = mpl_token_metadata::instructions::CreateMetadataAccountV3 {
        metadata: Pubkey::new_from_array(acc.metadata),
        mint: Pubkey::new_from_array(MINT),
        mint_authority: Pubkey::new_from_array(acc.state),
        payer: Pubkey::new_from_array(PAYER),
        update_authority: (Pubkey::new_from_array(AUTHORITY_X), true),
        system_program: Pubkey::new_from_array([0u8; 32]),
        rent: None,
    }
    .instruction(mpl_token_metadata::instructions::CreateMetadataAccountV3InstructionArgs {
        data: mpl_token_metadata::types::DataV2 {
            name: "Example".to_string(),
            symbol: "EXM".to_string(),
            uri: "https://example.org/token.json".to_string(),
            seller_fee_basis_points: 0,
            creators: None,
            collection: None,
            uses: None,
        },
        is_mutable: true,
        collection_details: None,
    });
    assert_eq!(staged, expected);
}

#[test]
fn initialize_mint_rejects_wrong_state_address() {
    let mut prog = TokenProgram::new(PROGRAM_ID);
    let mut acc = accounts_for(MINT, &prog);
    acc.state = [30u8; 32];
    let r = prog.initialize_mint(&acc, 9, None);
    assert!(matches!(r, Err(MintError::AddressMismatch)));
    assert!(prog.records.is_empty());
}

#[test]
fn initialize_mint_twice_fails_already_exists() {
    let mut prog = TokenProgram::new(PROGRAM_ID);
    let acc = accounts_for(MINT, &prog);
    assert!(prog.initialize_mint(&acc, 9, None).is_ok());
    let before = prog.records.clone();
    let r = prog.initialize_mint(&acc, 9, None);
    assert!(matches!(r, Err(MintError::AlreadyExists)));
    assert_eq!(prog.records, before);
}

#[test]
fn forged_metadata_program_aborts_without_record() {
    let mut prog = TokenProgram::new(PROGRAM_ID);
    let mut acc = accounts_for(MINT, &prog);
    acc.token_metadata_program = [13u8; 32];
    let r = prog.initialize_mint(&acc, 9, Some(sample_args()));
    assert!(matches!(r, Err(MintError::Token(TokenError::InvalidMetadataProgram))));
    assert!(prog.records.is_empty());
}

#[test]
fn wrong_metadata_address_aborts_without_record() {
    let mut prog = TokenProgram::new(PROGRAM_ID);
    let mut acc = accounts_for(MINT, &prog);
    acc.metadata = [13u8; 32];
    let r = prog.initialize_mint(&acc, 9, Some(sample_args()));
    assert!(matches!(r, Err(MintError::Token(TokenError::InvalidMetadataAccount))));
    assert!(prog.records.is_empty());
}

#[test]
fn mint_tokens_stages_issue_for_the_authority() {
    let mut prog = TokenProgram::new(PROGRAM_ID);
    let acc = accounts_for(MINT, &prog);
    prog.initialize_mint(&acc, 9, None).expect("must succeed");
    let recipient = TokenAccountRef { address: [21u8; 32], mint: MINT };
    let iss = prog
        .mint_tokens(
            &MintTokens { authority: AUTHORITY_X, state: acc.state, mint: MINT, recipient },
            1_000,
        )
        .expect("must succeed");
    assert_eq!(iss.mint, MINT);
    assert_eq!(iss.recipient, [21u8; 32]);
    assert_eq!(iss.amount, 1_000);
    assert_eq!(iss.proof.seeds, vec![b"token-state".to_vec(), MINT.to_vec()]);
}

#[test]
fn mint_tokens_rejects_other_authority() {
    let mut prog = TokenProgram::new(PROGRAM_ID);
    let acc = accounts_for(MINT, &prog);
    prog.initialize_mint(&acc, 9, None).expect("must succeed");
    let before = prog.records.clone();
    let recipient = TokenAccountRef { address: [21u8; 32], mint: MINT };
    let r = prog.mint_tokens(
        &MintTokens { authority: AUTHORITY_Y, state: acc.state, mint: MINT, recipient },
        1_000,
    );
    assert!(matches!(r, Err(MintError::Token(TokenError::Unauthorized))));
    assert_eq!(prog.records, before);
}

#[test]
fn mint_tokens_rejects_recipient_of_other_mint() {
    let mut prog = TokenProgram::new(PROGRAM_ID);
    let acc = accounts_for(MINT, &prog);
    prog.initialize_mint(&acc, 9, None).expect("must succeed");
    let recipient = TokenAccountRef { address: [21u8; 32], mint: OTHER_MINT };
    let r = prog.mint_tokens(
        &MintTokens { authority: AUTHORITY_X, state: acc.state, mint: MINT, recipient },
        1_000,
    );
    assert!(matches!(r, Err(MintError::Token(TokenError::InvalidRecipient))));
}

#[test]
fn mint_tokens_requires_existing_record() {
    let prog = TokenProgram::new(PROGRAM_ID);
    let recipient = TokenAccountRef { address: [21u8; 32], mint: MINT };
    let r = prog.mint_tokens(
        &MintTokens { authority: AUTHORITY_X, state: [30u8; 32], mint: MINT, recipient },
        5,
    );
    assert!(matches!(r, Err(MintError::RecordNotFound)));
}

#[test]
fn mint_tokens_rejects_mismatched_mint_account() {
    let mut prog = TokenProgram::new(PROGRAM_ID);
    let acc = accounts_for(MINT, &prog);
    prog.initialize_mint(&acc, 9, None).expect("must succeed");
    let recipient = TokenAccountRef { address: [21u8; 32], mint: MINT };
    let r = prog.mint_tokens(
        &MintTokens { authority: AUTHORITY_X, state: acc.state, mint: OTHER_MINT, recipient },
        5,
    );
    assert!(matches!(r, Err(MintError::MintMismatch)));
}
