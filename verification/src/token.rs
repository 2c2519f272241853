//! The mint-controller service: one persisted controller record per mint,
//! stored at an address derived from a fixed domain tag and the mint
//! identity. The record itself acts as the mint's minting and freeze
//! authority; issuance is gated on the stored authority and performed through
//! a delegated-signature proof (the seed tuple plus the stored
//! disambiguation byte) instead of a private key.

use vstd::prelude::*;

use crate::Id;
use crate::id_eq;
use crate::outcome;
use crate::pda::{derive_address, exact_pda, found_pda, verify_address};
use crate::records::{find_index, find_rec, lemma_find_rec_push, unique_addrs};

use anchor_lang::solana_program::instruction::Instruction;

verus! {

/// The token-metadata program's well-known identity (the bytes of the
/// base58 address `metaqbxxUerdq28cj1RbAWkYQm3ybzjb6a8bt518x1s`).
pub const METADATA_PROGRAM_ID: Id = [
    11u8, 112u8, 101u8, 177u8, 227u8, 209u8, 124u8, 69u8, 56u8, 157u8, 82u8, 127u8, 107u8, 4u8,
    195u8, 205u8, 88u8, 184u8, 108u8, 115u8, 26u8, 160u8, 253u8, 181u8, 73u8, 182u8, 209u8, 188u8,
    3u8, 248u8, 41u8, 70u8,
];

/// The token-metadata program's identity as a byte sequence.
pub open spec fn metadata_program_id() -> Seq<u8> {
    METADATA_PROGRAM_ID@
}

/// The platform's system program: the all-zero identity.
pub const SYSTEM_PROGRAM_ID: Id = [
    0u8, 0u8, 0u8, 0u8, 0u8, 0u8, 0u8, 0u8, 0u8, 0u8, 0u8, 0u8, 0u8, 0u8, 0u8, 0u8, 0u8, 0u8, 0u8,
    0u8, 0u8, 0u8, 0u8, 0u8, 0u8, 0u8, 0u8, 0u8, 0u8, 0u8, 0u8, 0u8,
];

/// The most characters a metadata string may hold. The wire format prefixes
/// each string with its byte length as a 32-bit number, and a character
/// encodes to at most four bytes, so this cap keeps every encoded string
/// below the format's limit; the encoder fails beyond it.
pub const MAX_METADATA_STR_CHARS: usize = 0x3FFFFFFF;

#[verifier::external_type_specification]
#[verifier::external_body]
pub struct ExInstruction(Instruction);

/// A persisted mint-controller record: the controlled mint, the sole
/// identity allowed to issue, the canonical disambiguation byte of the
/// record's own address, and the mint's decimal configuration.
#[derive(Clone, Copy, Debug, PartialEq, Eq)]
pub struct TokenState {
    pub mint: Id,
    pub authority: Id,
    pub bump: u8,
    pub decimals: u8,
}

/// The mint-controller program's own errors.
#[derive(Clone, Copy, Debug, PartialEq, Eq)]
pub enum TokenError {
    /// The caller is not the stored authority.
    Unauthorized,
    /// The recipient account's mint reference differs from the stored mint.
    InvalidRecipient,
    /// The supplied metadata address is not the derivation for the mint.
    InvalidMetadataAccount,
    /// The supplied metadata program is not the expected fixed identity.
    InvalidMetadataProgram,
}

/// Everything a mint-controller operation can fail with: validation failures
/// detected before any mutation, and the program's own gate errors.
#[derive(Clone, Copy, Debug, PartialEq, Eq)]
pub enum MintError {
    /// The supplied address disagrees with the recomputed derivation.
    AddressMismatch,
    /// A record is already bound to the derived address.
    AlreadyExists,
    /// No record is bound to the supplied address.
    RecordNotFound,
    /// The supplied mint differs from the one the record controls.
    MintMismatch,
    /// One of the program's own gates failed.
    Token(TokenError),
}

/// The recipient token account as the operation reads it: its address and
/// the mint it belongs to.
#[derive(Clone, Copy, Debug, PartialEq, Eq)]
pub struct TokenAccountRef {
    pub address: Id,
    pub mint: Id,
}

/// The accounts a caller presents to initialize a mint controller.
#[derive(Clone, Copy, Debug, PartialEq, Eq)]
pub struct InitializeMint {
    /// The identity funding the creation.
    pub payer: Id,
    /// The identity that becomes the stored issuance authority.
    pub authority: Id,
    /// The address the caller claims the controller record lives at.
    pub state: Id,
    /// The mint the controller will own.
    pub mint: Id,
    /// The address the caller claims the descriptive-metadata record lives at.
    pub metadata: Id,
    /// The identity the caller claims is the token-metadata program.
    pub token_metadata_program: Id,
}

/// The accounts a caller presents to issue tokens.
#[derive(Clone, Copy, Debug, PartialEq, Eq)]
pub struct MintTokens {
    /// The calling identity; must equal the stored authority.
    pub authority: Id,
    /// The address of the controller record.
    pub state: Id,
    /// The mint to issue from.
    pub mint: Id,
    /// The account that receives the issued tokens.
    pub recipient: TokenAccountRef,
}

/// The descriptive metadata a caller may request at initialization.
#[derive(Clone, Debug, PartialEq, Eq)]
pub struct MetadataArgs {
    pub name: String,
    pub symbol: String,
    pub uri: String,
}

/// The delegated-signature proof: the seed tuple and disambiguation byte
/// that external systems accept in lieu of a private-key signature, scoped
/// to a single call.
#[derive(Clone, Debug)]
pub struct AuthorityProof {
    pub seeds: Vec<Vec<u8>>,
    pub bump: u8,
}

/// How the external mint must be configured at creation: the controller
/// record is both minting and freeze authority.
#[derive(Clone, Copy, Debug, PartialEq, Eq)]
pub struct MintSetup {
    pub mint: Id,
    pub decimals: u8,
    pub mint_authority: Id,
    pub freeze_authority: Id,
}

/// The staged call that creates the descriptive-metadata record: every
/// account and data field the external system receives, as plain values.
pub struct MetadataRequest {
    pub metadata: Id,
    pub mint: Id,
    pub mint_authority: Id,
    pub payer: Id,
    pub update_authority: Id,
    pub system_program: Id,
    pub name: String,
    pub symbol: String,
    pub uri: String,
    /// The royalty, in basis points; the service always stages zero.
    pub seller_fee_basis_points: u16,
    pub is_mutable: bool,
}

/// The staged metadata call with its authority proof. Its wire form comes
/// from `metadata_instruction`.
pub struct MetadataEffect {
    pub request: MetadataRequest,
    pub proof: AuthorityProof,
}

/// Everything a successful initialization stages for the external systems.
pub struct MintInitEffect {
    pub setup: MintSetup,
    pub metadata: Option<MetadataEffect>,
}

/// The staged call that issues tokens, with its authority proof.
pub struct IssueRequest {
    pub mint: Id,
    pub recipient: Id,
    pub amount: u64,
    pub proof: AuthorityProof,
}

/// Relies on mpl-token-metadata's `CreateMetadataAccountV3` builder: it packs
/// exactly the request's accounts and data fields — and no creators,
/// collection, uses or rent account — into one instruction addressed to the
/// token-metadata program. Its encoder fails on a string whose byte length
/// needs more than 32 bits, so the `requires` keeps every string below that;
/// nothing further is claimed of the encoding, since the request's own
/// fields carry the meaning.
#[verifier::external_body]
fn build_metadata_instruction(req: &MetadataRequest) -> Instruction
    requires
        req.name@.len() <= MAX_METADATA_STR_CHARS,
        req.symbol@.len() <= MAX_METADATA_STR_CHARS,
        req.uri@.len() <= MAX_METADATA_STR_CHARS,
{
    let a = |b: &Id| anchor_lang::solana_program::pubkey::Pubkey::new_from_array(*b);
    let accounts = mpl_token_metadata::instructions::CreateMetadataAccountV3 {
        metadata: a(&req.metadata), mint: a(&req.mint), mint_authority: a(&req.mint_authority),
        payer: a(&req.payer), update_authority: (a(&req.update_authority), true),
        system_program: a(&req.system_program), rent: None,
    };
    let data = mpl_token_metadata::types::DataV2 {
        name: req.name.clone(), symbol: req.symbol.clone(), uri: req.uri.clone(),
        seller_fee_basis_points: req.seller_fee_basis_points,
        creators: None, collection: None, uses: None,
    };
    accounts.instruction(mpl_token_metadata::instructions::CreateMetadataAccountV3InstructionArgs {
        data, is_mutable: req.is_mutable, collection_details: None,
    })
}

/// The staged metadata call in the platform's wire form, built by the
/// token-metadata crate from the request's fields.
pub fn metadata_instruction(req: &MetadataRequest) -> (r: Instruction)
    requires
        req.name@.len() <= MAX_METADATA_STR_CHARS,
        req.symbol@.len() <= MAX_METADATA_STR_CHARS,
        req.uri@.len() <= MAX_METADATA_STR_CHARS,
{
    build_metadata_instruction(req)
}

/// The domain tag of controller addresses: the bytes of "token-state".
pub open spec fn token_tag() -> Seq<u8> {
    seq![116u8, 111u8, 107u8, 101u8, 110u8, 45u8, 115u8, 116u8, 97u8, 116u8, 101u8]
}

/// The full seed sequence of a controller address: the domain tag, then the
/// mint identity.
pub open spec fn token_seeds(mint: Id) -> Seq<Seq<u8>> {
    seq![token_tag(), mint@]
}

/// The domain tag the token-metadata program derives its records under: the
/// bytes of "metadata".
pub open spec fn metadata_tag() -> Seq<u8> {
    seq![109u8, 101u8, 116u8, 97u8, 100u8, 97u8, 116u8, 97u8]
}

/// The seed sequence of a mint's descriptive-metadata record, under the
/// token-metadata program's own scheme: its tag, its identity, the mint.
pub open spec fn metadata_seeds(mint: Id) -> Seq<Seq<u8>> {
    seq![metadata_tag(), metadata_program_id(), mint@]
}

/// Builds the controller domain tag as a byte vector.
fn token_tag_vec() -> (r: Vec<u8>)
    ensures
        r@ == token_tag(),
{
    let mut v: Vec<u8> = Vec::new();
    v.push(116);
    v.push(111);
    v.push(107);
    v.push(101);
    v.push(110);
    v.push(45);
    v.push(115);
    v.push(116);
    v.push(97);
    v.push(116);
    v.push(101);
    proof {
        assert(v@ =~= token_tag());
    }
    v
}

/// Builds the metadata domain tag as a byte vector.
fn metadata_tag_vec() -> (r: Vec<u8>)
    ensures
        r@ == metadata_tag(),
{
    let mut v: Vec<u8> = Vec::new();
    v.push(109);
    v.push(101);
    v.push(116);
    v.push(97);
    v.push(100);
    v.push(97);
    v.push(116);
    v.push(97);
    proof {
        assert(v@ =~= metadata_tag());
    }
    v
}

/// Builds the seed sequence of the controller address for `mint`.
pub fn token_seed_vec(mint: &Id) -> (r: Vec<Vec<u8>>)
    ensures
        r.deep_view() == token_seeds(*mint),
{
    let mut r: Vec<Vec<u8>> = Vec::new();
    r.push(token_tag_vec());
    r.push(vstd::slice::slice_to_vec(mint.as_slice()));
    proof {
        assert(r.deep_view() =~~= token_seeds(*mint));
    }
    r
}

/// Builds the seed sequence of the metadata record for `mint`.
pub fn metadata_seed_vec(mint: &Id) -> (r: Vec<Vec<u8>>)
    ensures
        r.deep_view() == metadata_seeds(*mint),
{
    let mut r: Vec<Vec<u8>> = Vec::new();
    r.push(metadata_tag_vec());
    r.push(vstd::slice::slice_to_vec(METADATA_PROGRAM_ID.as_slice()));
    r.push(vstd::slice::slice_to_vec(mint.as_slice()));
    proof {
        assert(r.deep_view() =~~= metadata_seeds(*mint));
    }
    r
}

/// Relies on `Metadata::find_pda` (mpl-token-metadata): it derives the
/// metadata address for `mint` under the token-metadata program's fixed
/// scheme — the "metadata" tag, the program's own identity, then the mint —
/// by the same downward scan as the platform primitive. It panics where no
/// disambiguation byte exists, so callers must first establish that the
/// derivation succeeds.
#[verifier::external_body]
fn metadata_find_pda(mint: &Id) -> (r: (Id, u8))
    requires
        found_pda(metadata_seeds(*mint), metadata_program_id()) is Some,
    ensures
        found_pda(metadata_seeds(*mint), metadata_program_id()) == Some((r.0@, r.1)),
{
    let (pk, bump) = mpl_token_metadata::accounts::Metadata::find_pda(
        &anchor_lang::solana_program::pubkey::Pubkey::new_from_array(*mint),
    );
    (pk.to_bytes(), bump)
}

/// The supplied metadata address equals the derivation for the mint under
/// the token-metadata program's own seed scheme.
pub open spec fn metadata_account_ok(acc: InitializeMint) -> bool {
    found_pda(metadata_seeds(acc.mint), metadata_program_id()) matches Some(m) && m.0
        == acc.metadata@
}

/// The mint-controller program: its own program identity and the records
/// persisted under it, keyed by derived address.
pub struct TokenProgram {
    pub program_id: Id,
    pub records: Vec<(Id, TokenState)>,
}

/// What `initialize_mint` does to the records: derive the controller address
/// for the mint's seeds, demand that the supplied address equals it, create
/// the record exactly once, and — when metadata is requested — validate the
/// metadata program identity and metadata address first. Every precondition
/// is checked before any mutation: a failure anywhere leaves the records
/// exactly as they were.
pub open spec fn init_mint_step(
    rs: Seq<(Id, TokenState)>,
    program_id: Id,
    acc: InitializeMint,
    decimals: u8,
    with_metadata: bool,
) -> (Seq<(Id, TokenState)>, Result<(), MintError>) {
    match found_pda(token_seeds(acc.mint), program_id@) {
        Option::None => (rs, Result::Err(MintError::AddressMismatch)),
        Option::Some(p) => if acc.state@ != p.0 {
            (rs, Result::Err(MintError::AddressMismatch))
        } else if find_rec(rs, acc.state@) is Some {
            (rs, Result::Err(MintError::AlreadyExists))
        } else if with_metadata && acc.token_metadata_program@ != metadata_program_id() {
            (rs, Result::Err(MintError::Token(TokenError::InvalidMetadataProgram)))
        } else if with_metadata && !metadata_account_ok(acc) {
            (rs, Result::Err(MintError::Token(TokenError::InvalidMetadataAccount)))
        } else {
            (
                rs.push(
                    (
                        acc.state,
                        TokenState {
                            mint: acc.mint,
                            authority: acc.authority,
                            bump: p.1,
                            decimals,
                        },
                    ),
                ),
                Result::Ok(()),
            )
        },
    }
}

/// What a successful initialization stages: the mint configured with the
/// controller record as minting and freeze authority, and — when requested —
/// the metadata call carrying exactly the caller's fields and the
/// controller's delegated-signature proof.
pub open spec fn init_mint_effect_ok(
    eff: MintInitEffect,
    acc: InitializeMint,
    decimals: u8,
    meta: Option<MetadataArgs>,
    bump: u8,
) -> bool {
    &&& eff.setup == (MintSetup {
        mint: acc.mint,
        decimals,
        mint_authority: acc.state,
        freeze_authority: acc.state,
    })
    &&& match meta {
        Option::None => eff.metadata is None,
        Option::Some(args) => {
            &&& eff.metadata is Some
            &&& eff.metadata->Some_0.request == (MetadataRequest {
                metadata: acc.metadata,
                mint: acc.mint,
                mint_authority: acc.state,
                payer: acc.payer,
                update_authority: acc.authority,
                system_program: SYSTEM_PROGRAM_ID,
                name: args.name,
                symbol: args.symbol,
                uri: args.uri,
                seller_fee_basis_points: 0u16,
                is_mutable: true,
            })
            &&& eff.metadata->Some_0.proof.seeds.deep_view() == token_seeds(acc.mint)
            &&& eff.metadata->Some_0.proof.bump == bump
        },
    }
}

/// What `mint_tokens` decides: load the controller record, check the stored
/// disambiguation byte still reproduces the record's address, demand the
/// supplied mint equals the stored one, gate on the stored authority, and
/// demand the recipient belongs to that mint. The records are never mutated.
pub open spec fn mint_step(rs: Seq<(Id, TokenState)>, program_id: Id, acc: MintTokens) -> Result<
    (),
    MintError,
> {
    match find_rec(rs, acc.state@) {
        Option::None => Result::Err(MintError::RecordNotFound),
        Option::Some(st) => if exact_pda(token_seeds(st.mint).push(seq![st.bump]), program_id@)
            != Some(acc.state@) {
            Result::Err(MintError::AddressMismatch)
        } else if st.mint@ != acc.mint@ {
            Result::Err(MintError::MintMismatch)
        } else if st.authority@ != acc.authority@ {
            Result::Err(MintError::Token(TokenError::Unauthorized))
        } else if acc.recipient.mint@ != st.mint@ {
            Result::Err(MintError::Token(TokenError::InvalidRecipient))
        } else {
            Result::Ok(())
        },
    }
}

impl TokenState {
    /// The exact persisted size of a controller record: the platform's
    /// bookkeeping header, then mint, authority, disambiguation byte and
    /// decimals. Allocated exactly at creation; a field addition requires a
    /// new versioned record.
    pub const SPACE: usize = 8 + 32 + 32 + 1 + 1;
}

impl TokenProgram {
    /// Each derived address holds at most one record.
    pub open spec fn wf(self) -> bool {
        unique_addrs(self.records@)
    }

    /// A fresh program with no records.
    pub fn new(program_id: Id) -> (r: TokenProgram)
        ensures
            r.program_id == program_id,
            r.records@ =~= Seq::<(Id, TokenState)>::empty(),
            r.wf(),
    {
        TokenProgram { program_id, records: Vec::new() }
    }

    /// The derived address and canonical disambiguation byte of the
    /// controller record for `mint`.
    pub fn state_address(&self, mint: &Id) -> (r: Option<(Id, u8)>)
        ensures
            r matches Some(p) ==> found_pda(token_seeds(*mint), self.program_id@) == Some(
                (p.0@, p.1),
            ),
            r is None ==> found_pda(token_seeds(*mint), self.program_id@) is None,
    {
        let seeds = token_seed_vec(mint);
        derive_address(&seeds, &self.program_id)
    }

    /// Creates the controller record for `acc.mint` exactly once and stages
    /// the external effects: the mint configured with the record as its
    /// minting and freeze authority, and — when `meta` is given — the
    /// metadata call under the controller's delegated-signature proof. All
    /// preconditions are validated before the record is persisted, so a
    /// failure anywhere leaves no partial state.
    pub fn initialize_mint(
        &mut self,
        acc: &InitializeMint,
        decimals: u8,
        meta: Option<MetadataArgs>,
    ) -> (r: Result<MintInitEffect, MintError>)
        requires
            old(self).wf(),
            meta matches Some(args) ==> args.name@.len() <= MAX_METADATA_STR_CHARS
                && args.symbol@.len() <= MAX_METADATA_STR_CHARS && args.uri@.len()
                <= MAX_METADATA_STR_CHARS,
        ensures
            final(self).wf(),
            final(self).program_id == old(self).program_id,
            (final(self).records@, outcome(r)) == init_mint_step(
                old(self).records@,
                old(self).program_id,
                *acc,
                decimals,
                meta is Some,
            ),
            r matches Ok(eff) ==> init_mint_effect_ok(
                eff,
                *acc,
                decimals,
                meta,
                found_pda(token_seeds(acc.mint), old(self).program_id@)->Some_0.1,
            ),
    {
        let seeds = token_seed_vec(&acc.mint);
        match derive_address(&seeds, &self.program_id) {
            None => Err(MintError::AddressMismatch),
            Some((addr, bump)) => {
                if !id_eq(&addr, &acc.state) {
                    Err(MintError::AddressMismatch)
                } else {
                    match find_index(&self.records, &acc.state) {
                        Some(_) => Err(MintError::AlreadyExists),
                        None => {
                            let setup = MintSetup {
                                mint: acc.mint,
                                decimals,
                                mint_authority: acc.state,
                                freeze_authority: acc.state,
                            };
                            let rec = TokenState {
                                mint: acc.mint,
                                authority: acc.authority,
                                bump,
                                decimals,
                            };
                            match meta {
                                None => {
                                    self.records.push((acc.state, rec));
                                    proof {
                                        assert(final(self).wf()) by {
                                            assert(forall|k: int|
                                                0 <= k < old(self).records@.len()
                                                    ==> old(self).records@[k].0@ != acc.state@);
                                        }
                                    }
                                    Ok(MintInitEffect { setup, metadata: None })
                                },
                                Some(args) => {
                                    if !id_eq(&acc.token_metadata_program, &METADATA_PROGRAM_ID) {
                                        Err(MintError::Token(TokenError::InvalidMetadataProgram))
                                    } else {
                                        let mseeds = metadata_seed_vec(&acc.mint);
                                        let meta_ok = match derive_address(
                                            &mseeds,
                                            &METADATA_PROGRAM_ID,
                                        ) {
                                            Some(_) => {
                                                let (ma, _) = metadata_find_pda(&acc.mint);
                                                id_eq(&ma, &acc.metadata)
                                            },
                                            None => false,
                                        };
                                        if !meta_ok {
                                            Err(MintError::Token(TokenError::InvalidMetadataAccount))
                                        } else {
                                            self.records.push((acc.state, rec));
                                            proof {
                                                assert(final(self).wf()) by {
                                                    assert(forall|k: int|
                                                        0 <= k < old(self).records@.len()
                                                            ==> old(self).records@[k].0@
                                                            != acc.state@);
                                                }
                                            }
                                            let request = MetadataRequest {
                                                metadata: acc.metadata,
                                                mint: acc.mint,
                                                mint_authority: acc.state,
                                                payer: acc.payer,
                                                update_authority: acc.authority,
                                                system_program: SYSTEM_PROGRAM_ID,
                                                name: args.name,
                                                symbol: args.symbol,
                                                uri: args.uri,
                                                seller_fee_basis_points: 0,
                                                is_mutable: true,
                                            };
                                            Ok(MintInitEffect {
                                                setup,
                                                metadata: Some(MetadataEffect {
                                                    request,
                                                    proof: AuthorityProof { seeds, bump },
                                                }),
                                            })
                                        }
                                    }
                                },
                            }
                        },
                    }
                }
            },
        }
    }

    /// Decides whether `amount` may be issued to the recipient and, when
    /// every gate passes, stages the issue call under the controller's
    /// delegated-signature proof. The records are never mutated; a failure
    /// stages nothing.
    pub fn mint_tokens(&self, acc: &MintTokens, amount: u64) -> (r: Result<IssueRequest, MintError>)
        ensures
            outcome(r) == mint_step(self.records@, self.program_id, *acc),
            r matches Ok(iss) ==> {
                &&& iss.mint == acc.mint
                &&& iss.recipient == acc.recipient.address
                &&& iss.amount == amount
                &&& iss.proof.seeds.deep_view() == token_seeds(acc.mint)
                &&& iss.proof.bump == find_rec(self.records@, acc.state@)->Some_0.bump
            },
    {
        match find_index(&self.records, &acc.state) {
            None => Err(MintError::RecordNotFound),
            Some(i) => {
                let st = self.records[i].1;
                let vseeds = token_seed_vec(&st.mint);
                if !verify_address(&acc.state, vseeds, st.bump, &self.program_id) {
                    Err(MintError::AddressMismatch)
                } else if !id_eq(&st.mint, &acc.mint) {
                    Err(MintError::MintMismatch)
                } else if !id_eq(&st.authority, &acc.authority) {
                    Err(MintError::Token(TokenError::Unauthorized))
                } else if !id_eq(&acc.recipient.mint, &st.mint) {
                    Err(MintError::Token(TokenError::InvalidRecipient))
                } else {
                    Ok(IssueRequest {
                        mint: acc.mint,
                        recipient: acc.recipient.address,
                        amount,
                        proof: AuthorityProof { seeds: token_seed_vec(&acc.mint), bump: st.bump },
                    })
                }
            },
        }
    }
}

/// Law: creation happens exactly once. If `initialize_mint` succeeds from
/// some state, running it again with the same accounts from the resulting
/// state fails with `AlreadyExists` and leaves that state exactly as it was.
pub proof fn lemma_initialize_mint_once(
    rs0: Seq<(Id, TokenState)>,
    program_id: Id,
    acc: InitializeMint,
    decimals: u8,
    with_metadata: bool,
)
    ensures
        init_mint_step(rs0, program_id, acc, decimals, with_metadata).1 is Ok ==> {
            let rs1 = init_mint_step(rs0, program_id, acc, decimals, with_metadata).0;
            init_mint_step(rs1, program_id, acc, decimals, with_metadata) == (
                rs1,
                Result::<(), MintError>::Err(MintError::AlreadyExists),
            )
        },
{
    if init_mint_step(rs0, program_id, acc, decimals, with_metadata).1 is Ok {
        match found_pda(token_seeds(acc.mint), program_id@) {
            Option::None => {},
            Option::Some(p) => {
                let rec = TokenState {
                    mint: acc.mint,
                    authority: acc.authority,
                    bump: p.1,
                    decimals,
                };
                lemma_find_rec_push(rs0, acc.state@, (acc.state, rec));
            },
        }
    }
}

/// Law: a successful initialization binds exactly the requested record —
/// the mint, the immutable authority, the canonical byte, the decimals —
/// and touches no other address.
pub proof fn lemma_initialize_mint_effect(
    rs: Seq<(Id, TokenState)>,
    program_id: Id,
    acc: InitializeMint,
    decimals: u8,
    with_metadata: bool,
    b: Seq<u8>,
)
    ensures
        init_mint_step(rs, program_id, acc, decimals, with_metadata).1 is Ok ==> {
            let rs2 = init_mint_step(rs, program_id, acc, decimals, with_metadata).0;
            &&& find_rec(rs2, acc.state@) matches Some(st) && st.mint == acc.mint && st.authority
                == acc.authority && st.decimals == decimals
            &&& b != acc.state@ ==> find_rec(rs2, b) == find_rec(rs, b)
        },
{
    if init_mint_step(rs, program_id, acc, decimals, with_metadata).1 is Ok {
        match found_pda(token_seeds(acc.mint), program_id@) {
            Option::None => {},
            Option::Some(p) => {
                let rec = TokenState {
                    mint: acc.mint,
                    authority: acc.authority,
                    bump: p.1,
                    decimals,
                };
                lemma_find_rec_push(rs, acc.state@, (acc.state, rec));
                lemma_find_rec_push(rs, b, (acc.state, rec));
            },
        }
    }
}

/// Law: the authority gate. If the controller record exists and is
/// well-bound to its address and mint, a caller other than the stored
/// authority fails with `Unauthorized`, and nothing is staged or mutated.
pub proof fn lemma_mint_tokens_authority_gate(
    rs: Seq<(Id, TokenState)>,
    program_id: Id,
    acc: MintTokens,
)
    ensures
        (find_rec(rs, acc.state@) matches Some(st) && exact_pda(
            token_seeds(st.mint).push(seq![st.bump]),
            program_id@,
        ) == Some(acc.state@) && st.mint@ == acc.mint@ && st.authority@ != acc.authority@)
            ==> mint_step(rs, program_id, acc) == Result::<(), MintError>::Err(
            MintError::Token(TokenError::Unauthorized),
        ),
{
}

/// Law: cross-reference integrity. If every other gate passes but the
/// recipient's mint reference differs from the stored mint, `mint_tokens`
/// fails with `InvalidRecipient`; no issue call is staged.
pub proof fn lemma_mint_tokens_recipient_gate(
    rs: Seq<(Id, TokenState)>,
    program_id: Id,
    acc: MintTokens,
)
    ensures
        (find_rec(rs, acc.state@) matches Some(st) && exact_pda(
            token_seeds(st.mint).push(seq![st.bump]),
            program_id@,
        ) == Some(acc.state@) && st.mint@ == acc.mint@ && st.authority@ == acc.authority@
            && acc.recipient.mint@ != st.mint@) ==> mint_step(rs, program_id, acc) == Result::<
            (),
            MintError,
        >::Err(MintError::Token(TokenError::InvalidRecipient)),
{
}

/// Law: a forged metadata program aborts atomically. If metadata is
/// requested and the supplied program identity is not the fixed
/// token-metadata identity, initialization fails with
/// `InvalidMetadataProgram` and no controller record persists.
pub proof fn lemma_initialize_mint_program_gate(
    rs: Seq<(Id, TokenState)>,
    program_id: Id,
    acc: InitializeMint,
    decimals: u8,
)
    ensures
        (found_pda(token_seeds(acc.mint), program_id@) matches Some(p) && acc.state@ == p.0
            && find_rec(rs, acc.state@) is None && acc.token_metadata_program@
            != metadata_program_id()) ==> init_mint_step(rs, program_id, acc, decimals, true) == (
            rs,
            Result::<(), MintError>::Err(MintError::Token(TokenError::InvalidMetadataProgram)),
        ),
{
}

/// Law: atomicity. Whenever initialization fails, it has mutated nothing:
/// the records after the step equal the records before it.
pub proof fn lemma_mint_atomic(
    rs: Seq<(Id, TokenState)>,
    program_id: Id,
    acc: InitializeMint,
    decimals: u8,
    with_metadata: bool,
)
    ensures
        init_mint_step(rs, program_id, acc, decimals, with_metadata).1 is Err ==> init_mint_step(
            rs,
            program_id,
            acc,
            decimals,
            with_metadata,
        ).0 == rs,
{
}

} // verus!
