//! Token-program account decoding: the fixed 165-byte token-account record
//! and 82-byte mint record shared by both token-program generations, and the
//! extension-aware decoding of token-2022 accounts.

use vstd::prelude::*;

use crate::Address;

verus! {

/// The little-endian 64-bit integer at offset `i` of `d`.
pub open spec fn le64_at(d: Seq<u8>, i: int) -> int {
    d[i] + d[i + 1] * 0x100 + d[i + 2] * 0x1_0000 + d[i + 3] * 0x100_0000 + d[i + 4]
        * 0x1_0000_0000 + d[i + 5] * 0x100_0000_0000 + d[i + 6] * 0x1_0000_0000_0000 + d[i + 7]
        * 0x100_0000_0000_0000
}

/// A serialized optional field's 4-byte tag at offset `off` is valid: zero
/// or one in the first byte, zeros after it.
pub open spec fn coption_tag_ok(d: Seq<u8>, off: int) -> bool {
    (d[off] == 0 || d[off] == 1) && d[off + 1] == 0 && d[off + 2] == 0 && d[off + 3] == 0
}

/// An optional 32-byte key field decoded from offset `off`: present exactly
/// when the tag byte is one, and then equal to the 32 bytes after the tag.
pub open spec fn opt_key_matches(d: Seq<u8>, off: int, v: Option<Address>) -> bool {
    &&& (v is Some <==> d[off] == 1)
    &&& (v matches Some(a) ==> a@ == d.subrange(off + 4, off + 36))
}

/// An optional 64-bit field decoded from offset `off`.
pub open spec fn opt_u64_matches(d: Seq<u8>, off: int, v: Option<u64>) -> bool {
    &&& (v is Some <==> d[off] == 1)
    &&& (v matches Some(x) ==> x == le64_at(d, off + 4))
}

/// The decoded fields of a fixed-layout token-account record.
pub struct TokenRecord {
    /// The mint whose units this account holds.
    pub mint: Address,
    /// The wallet that owns this token account.
    pub owner: Address,
    /// Raw amount, in the mint's base units.
    pub amount: u64,
    /// Optional delegate authority.
    pub delegate: Option<Address>,
    /// Account state byte: one for initialized, two for frozen.
    pub state: u8,
    /// For wrapped-native accounts, the rent-exempt reserve.
    pub is_native: Option<u64>,
    /// Raw amount delegated to the delegate authority.
    pub delegated_amount: u64,
    /// Optional close authority.
    pub close_authority: Option<Address>,
}

/// The decoded fields of a fixed-layout mint record.
pub struct MintRecord {
    /// Optional authority allowed to mint new supply.
    pub mint_authority: Option<Address>,
    /// Total supply, in base units.
    pub supply: u64,
    /// Number of base-ten digits after the decimal point.
    pub decimals: u8,
    /// Whether the mint has been initialized.
    pub is_initialized: bool,
    /// Optional authority allowed to freeze token accounts.
    pub freeze_authority: Option<Address>,
}

/// The 165-byte token-account layout accepts `d`: exact length, valid
/// optional-field tags, and an initialized state byte (one or two).
pub open spec fn token_account_wf(d: Seq<u8>) -> bool {
    &&& d.len() == 165
    &&& coption_tag_ok(d, 72)
    &&& (d[108] == 1 || d[108] == 2)
    &&& coption_tag_ok(d, 109)
    &&& coption_tag_ok(d, 129)
}

/// `t` holds exactly the fields the 165-byte layout assigns from `d`.
pub open spec fn token_record_matches(d: Seq<u8>, t: TokenRecord) -> bool {
    &&& t.mint@ == d.subrange(0, 32)
    &&& t.owner@ == d.subrange(32, 64)
    &&& t.amount == le64_at(d, 64)
    &&& opt_key_matches(d, 72, t.delegate)
    &&& t.state == d[108]
    &&& opt_u64_matches(d, 109, t.is_native)
    &&& t.delegated_amount == le64_at(d, 121)
    &&& opt_key_matches(d, 129, t.close_authority)
}

/// The 82-byte mint layout accepts `d`: exact length, valid optional-field
/// tags, and an initialized flag byte equal to one.
pub open spec fn mint_wf(d: Seq<u8>) -> bool {
    &&& d.len() == 82
    &&& coption_tag_ok(d, 0)
    &&& d[45] == 1
    &&& coption_tag_ok(d, 46)
}

/// `m` holds exactly the fields the 82-byte layout assigns from `d`.
pub open spec fn mint_record_matches(d: Seq<u8>, m: MintRecord) -> bool {
    &&& opt_key_matches(d, 0, m.mint_authority)
    &&& m.supply == le64_at(d, 36)
    &&& m.decimals == d[44]
    &&& m.is_initialized == (d[45] == 1)
    &&& opt_key_matches(d, 46, m.freeze_authority)
}

/// Relies on `spl_token::state::Account::unpack`: decodes the 165-byte
/// fixed token-account layout, succeeding exactly on an initialized record
/// with valid optional-field tags and state byte.
#[verifier::external_body]
pub(crate) fn unpack_tokenkeg_account(data: &Vec<u8>) -> (r: Option<TokenRecord>)
    ensures
        r is Some <==> token_account_wf(data@),
        r matches Some(t) ==> token_record_matches(data@, t),
{
    let a: spl_token::state::Account = solana_sdk::program_pack::Pack::unpack(data).ok()?;
    Some(TokenRecord {
        mint: a.mint.to_bytes(),
        owner: a.owner.to_bytes(),
        amount: a.amount,
        delegate: Option::from(a.delegate).map(|p: solana_sdk::pubkey::Pubkey| p.to_bytes()),
        state: a.state as u8,
        is_native: Option::from(a.is_native),
        delegated_amount: a.delegated_amount,
        close_authority: Option::from(a.close_authority).map(|p: solana_sdk::pubkey::Pubkey| p.to_bytes()),
    })
}

/// Relies on `spl_token::state::Mint::unpack`: decodes the 82-byte fixed
/// mint layout, succeeding exactly on an initialized record with valid
/// optional-field tags.
#[verifier::external_body]
pub(crate) fn unpack_tokenkeg_mint(data: &Vec<u8>) -> (r: Option<MintRecord>)
    ensures
        r is Some <==> mint_wf(data@),
        r matches Some(m) ==> mint_record_matches(data@, m),
{
    let m: spl_token::state::Mint = solana_sdk::program_pack::Pack::unpack(data).ok()?;
    Some(MintRecord {
        mint_authority: Option::from(m.mint_authority).map(|p: solana_sdk::pubkey::Pubkey| p.to_bytes()),
        supply: m.supply,
        decimals: m.decimals,
        is_initialized: m.is_initialized,
        freeze_authority: Option::from(m.freeze_authority).map(|p: solana_sdk::pubkey::Pubkey| p.to_bytes()),
    })
}

/// A name for the inputs `StateWithExtensions::<Account>::unpack` accepts:
/// a well-formed base record plus well-formed trailing extension data.
pub uninterp spec fn token22_account_accepts(data: Seq<u8>) -> bool;

/// Relies on `spl_token_2022::extension::StateWithExtensions::<Account>::unpack`:
/// decodes the leading 165-byte base record and validates any trailing
/// extension data. The base fields come from the leading bytes by the same
/// fixed layout; a bare well-formed 165-byte record always succeeds.
#[verifier::external_body]
pub(crate) fn unpack_token22_account(data: &Vec<u8>) -> (r: Option<TokenRecord>)
    ensures
        r is Some <==> token22_account_accepts(data@),
        r matches Some(t) ==> data@.len() >= 165 && token_account_wf(data@.subrange(0, 165))
            && token_record_matches(data@.subrange(0, 165), t),
        data@.len() == 165 && token_account_wf(data@) ==> r is Some,
{
    let s = spl_token_2022::extension::StateWithExtensions::<spl_token_2022::state::Account>::unpack(data).ok()?;
    let a = s.base;
    Some(TokenRecord {
        mint: a.mint.to_bytes(),
        owner: a.owner.to_bytes(),
        amount: a.amount,
        delegate: Option::from(a.delegate).map(|p: solana_sdk::pubkey::Pubkey| p.to_bytes()),
        state: a.state as u8,
        is_native: Option::from(a.is_native),
        delegated_amount: a.delegated_amount,
        close_authority: Option::from(a.close_authority).map(|p: solana_sdk::pubkey::Pubkey| p.to_bytes()),
    })
}

/// A name for the inputs `StateWithExtensions::<Mint>::unpack` accepts.
pub uninterp spec fn token22_mint_accepts(data: Seq<u8>) -> bool;

/// Relies on `spl_token_2022::extension::StateWithExtensions::<Mint>::unpack`:
/// decodes the leading 82-byte base mint record and validates any trailing
/// extension data; a bare well-formed 82-byte record always succeeds.
#[verifier::external_body]
pub(crate) fn unpack_token22_mint(data: &Vec<u8>) -> (r: Option<MintRecord>)
    ensures
        r is Some <==> token22_mint_accepts(data@),
        r matches Some(m) ==> data@.len() >= 82 && mint_wf(data@.subrange(0, 82))
            && mint_record_matches(data@.subrange(0, 82), m),
        data@.len() == 82 && mint_wf(data@) ==> r is Some,
{
    let s = spl_token_2022::extension::StateWithExtensions::<spl_token_2022::state::Mint>::unpack(data).ok()?;
    let m = s.base;
    Some(MintRecord {
        mint_authority: Option::from(m.mint_authority).map(|p: solana_sdk::pubkey::Pubkey| p.to_bytes()),
        supply: m.supply,
        decimals: m.decimals,
        is_initialized: m.is_initialized,
        freeze_authority: Option::from(m.freeze_authority).map(|p: solana_sdk::pubkey::Pubkey| p.to_bytes()),
    })
}

/// A name for whether a token-2022 mint's extension list enumerates cleanly.
pub uninterp spec fn token22_mint_tags_accept(data: Seq<u8>) -> bool;

/// A name for the declared extension tags of a token-2022 mint, in TLV
/// order, as raw `u16` discriminants.
pub uninterp spec fn token22_mint_extension_tags(data: Seq<u8>) -> Seq<u16>;

/// Relies on `StateWithExtensions::<Mint>::unpack` followed by
/// `get_extension_types`: walks the mint's trailing type-length-value
/// entries and returns each declared extension's raw tag, in order. Both
/// steps depend on the bytes alone.
#[verifier::external_body]
pub(crate) fn mint_extension_tags(data: &Vec<u8>) -> (r: Option<Vec<u16>>)
    ensures
        r is Some <==> token22_mint_tags_accept(data@),
        r matches Some(v) ==> v@ == token22_mint_extension_tags(data@),
{
    let s = spl_token_2022::extension::StateWithExtensions::<spl_token_2022::state::Mint>::unpack(data).ok()?;
    let e = spl_token_2022::extension::BaseStateWithExtensions::get_extension_types(&s).ok()?;
    Some(e.into_iter().map(u16::from).collect())
}

/// A name for the symbol embedded in a token-2022 mint's own metadata
/// extension, when the mint carries a readable one.
pub uninterp spec fn token22_inline_symbol(data: Seq<u8>) -> Option<Seq<char>>;

/// Relies on `StateWithExtensions::<Mint>::unpack`, `get_extension_bytes`
/// and `TokenMetadata::unpack_from_slice`: reads the metadata extension
/// embedded in a token-2022 mint and returns its symbol field; absent when
/// the mint carries no readable metadata extension. All three steps depend
/// on the bytes alone.
#[verifier::external_body]
pub(crate) fn mint_inline_metadata_symbol(data: &Vec<u8>) -> (r: Option<String>)
    ensures
        r is Some <==> token22_inline_symbol(data@) is Some,
        r matches Some(s) ==> token22_inline_symbol(data@) == Some(s@),
{
    let s = spl_token_2022::extension::StateWithExtensions::<spl_token_2022::state::Mint>::unpack(data).ok()?;
    let bytes = spl_token_2022::extension::BaseStateWithExtensions::get_extension_bytes::<
        spl_token_metadata_interface::state::TokenMetadata,
    >(&s).ok()?;
    let md = <spl_token_metadata_interface::state::TokenMetadata as spl_type_length_value::variable_len_pack::VariableLenPack>::unpack_from_slice(bytes).ok()?;
    Some(md.symbol)
}

/// A first-generation token-program account: a token account joined with
/// its mint and optional symbol, or a bare mint.
pub enum TokenkegAccount {
    TokenAccount { token_account: TokenRecord, mint_account: MintRecord, symbol: Option<String> },
    MintAccount(MintRecord),
}

/// A token-2022 account: a token account joined with its mint and optional
/// symbol, or a mint with its declared extension tags.
pub enum Token22Account {
    TokenAccount { token_account: TokenRecord, mint_account: MintRecord, symbol: Option<String> },
    MintAccount { mint_account: MintRecord, extensions: Vec<u16> },
}

/// A decoded account of either token-program generation.
pub enum TokenProgramAccount {
    Tokenkeg(TokenkegAccount),
    Token22(Token22Account),
}

/// The aggregator's summary of one listed token account. Equality is
/// structural, field by field.
#[derive(Clone, Debug, PartialEq, Eq)]
pub struct TokenAccountBalance {
    /// The token account's own address, base58.
    pub key: String,
    /// Human-readable balance string as the node pre-decoded it.
    pub balance: String,
    /// The mint's address, base58.
    pub mint: String,
    /// The owning program's tag.
    pub program: String,
    /// The resolved symbol, when one of the metadata sources yields one.
    pub symbol: Option<String>,
}

impl TokenAccountBalance {
    /// Builds a balance summary from the node's pre-decoded listing fields.
    /// Both token-program generations are reported under the `spl-token`
    /// tag; any other program tag is unsupported and yields nothing.
    pub fn from_parsed_fields(key: String, program: &str, ui_amount: String, mint: String) -> (r:
        Option<TokenAccountBalance>)
        ensures
            r is Some <==> (program@ == "spl-token"@ || program@ == "spl-token-2022"@),
            r matches Some(b) ==> b.key@ == key@ && b.balance@ == ui_amount@ && b.mint@ == mint@
                && b.program@ == "spl-token"@ && b.symbol is None,
    {
        if crate::utils::str_eq(program, "spl-token") || crate::utils::str_eq(
            program,
            "spl-token-2022",
        ) {
            Some(TokenAccountBalance {
                key,
                balance: ui_amount,
                mint,
                program: "spl-token".to_owned(),
                symbol: None,
            })
        } else {
            None
        }
    }
}

} // verus!
