//! Account classification: deciding which of the known account shapes a
//! fetched blob is, and completing token-account classifications once the
//! referenced mint and metadata record have been fetched.

use vstd::prelude::*;

use crate::address_eq;
use crate::metadata::mpl_metadata_accepts;
use crate::metadata::mpl_symbol_of;
use crate::metadata::symbol_view;
use crate::system::SystemAccount;
use crate::token::mint_record_matches;
use crate::token::mint_wf;
use crate::token::token22_account_accepts;
use crate::token::token22_inline_symbol;
use crate::token::token22_mint_accepts;
use crate::token::token22_mint_extension_tags;
use crate::token::token22_mint_tags_accept;
use crate::token::token_account_wf;
use crate::token::token_record_matches;
use crate::token::MintRecord;
use crate::token::Token22Account;
use crate::token::TokenProgramAccount;
use crate::token::TokenRecord;
use crate::token::TokenkegAccount;
use crate::Address;
use crate::InspectError;
use crate::ProgramIds;

verus! {

/// An immutable snapshot of a fetched account.
pub struct RawAccount {
    pub lamports: u64,
    pub data: Vec<u8>,
    pub owner: Address,
    pub executable: bool,
}

/// A fully classified account.
pub enum ParsedAccount {
    /// A wallet-like account with its aggregated token accounts.
    System(SystemAccount),
    /// A decoded account of either token-program generation.
    TokenProgram(TokenProgramAccount),
    /// Anything else: an opaque blob kept for generic display.
    Other(RawAccount),
}

impl ParsedAccount {
    /// A first-generation token account joined with its mint and symbol.
    pub fn tokenkeg_token(
        token_account: TokenRecord,
        mint_account: MintRecord,
        symbol: Option<String>,
    ) -> (r: ParsedAccount)
        ensures
            r == (ParsedAccount::TokenProgram(
                TokenProgramAccount::Tokenkeg(
                    TokenkegAccount::TokenAccount { token_account, mint_account, symbol },
                ),
            )),
    {
        ParsedAccount::TokenProgram(
            TokenProgramAccount::Tokenkeg(
                TokenkegAccount::TokenAccount { token_account, mint_account, symbol },
            ),
        )
    }

    /// A first-generation mint.
    pub fn tokenkeg_mint(mint: MintRecord) -> (r: ParsedAccount)
        ensures
            r == (ParsedAccount::TokenProgram(
                TokenProgramAccount::Tokenkeg(TokenkegAccount::MintAccount(mint)),
            )),
    {
        ParsedAccount::TokenProgram(
            TokenProgramAccount::Tokenkeg(TokenkegAccount::MintAccount(mint)),
        )
    }

    /// A token-2022 token account joined with its mint and symbol.
    pub fn token22_token(
        token_account: TokenRecord,
        mint_account: MintRecord,
        symbol: Option<String>,
    ) -> (r: ParsedAccount)
        ensures
            r == (ParsedAccount::TokenProgram(
                TokenProgramAccount::Token22(
                    Token22Account::TokenAccount { token_account, mint_account, symbol },
                ),
            )),
    {
        ParsedAccount::TokenProgram(
            TokenProgramAccount::Token22(
                Token22Account::TokenAccount { token_account, mint_account, symbol },
            ),
        )
    }

    /// A token-2022 mint with its declared extension tags.
    pub fn token22_mint(mint_account: MintRecord, extensions: Vec<u16>) -> (r: ParsedAccount)
        ensures
            r == (ParsedAccount::TokenProgram(
                TokenProgramAccount::Token22(
                    Token22Account::MintAccount { mint_account, extensions },
                ),
            )),
    {
        ParsedAccount::TokenProgram(
            TokenProgramAccount::Token22(Token22Account::MintAccount { mint_account, extensions }),
        )
    }
}

/// What the classifier decides from the owner and data alone, before any
/// further fetch: which shape the account has, with the decoded record.
pub enum AccountProbe {
    /// Owned by the system program: a wallet-like account, to be enriched
    /// by the aggregator.
    System,
    /// A first-generation token account; its mint must be fetched next.
    TokenkegToken(TokenRecord),
    /// A first-generation mint.
    TokenkegMint(MintRecord),
    /// A token-2022 token account; its mint must be fetched next.
    Token22Token(TokenRecord),
    /// A token-2022 mint with its declared extension tags.
    Token22Mint(MintRecord, Vec<u16>),
    /// No known shape: kept opaque.
    Other,
}

/// Exactly which probe the pair of owner and data yields. Each variant's
/// condition is a function of the injected ids, the owner and the bytes
/// alone, so classification is total and deterministic, with `Other` as the
/// catch-all.
pub open spec fn probe_matches(
    ids: ProgramIds,
    owner: Address,
    data: Seq<u8>,
    r: AccountProbe,
) -> bool {
    let sys = owner == ids.system;
    let keg = !sys && owner == ids.tokenkeg;
    let t22 = !sys && !keg && owner == ids.token22;
    &&& (r is System <==> sys)
    &&& (r is TokenkegToken <==> keg && token_account_wf(data))
    &&& (r matches AccountProbe::TokenkegToken(t) ==> token_record_matches(data, t))
    &&& (r is TokenkegMint <==> keg && !token_account_wf(data) && mint_wf(data))
    &&& (r matches AccountProbe::TokenkegMint(m) ==> mint_record_matches(data, m))
    &&& (r is Token22Token <==> t22 && token22_account_accepts(data))
    &&& (r matches AccountProbe::Token22Token(t) ==> data.len() >= 165 && token_record_matches(
        data.subrange(0, 165),
        t,
    ))
    &&& (r is Token22Mint <==> t22 && !token22_account_accepts(data) && token22_mint_accepts(data)
        && token22_mint_tags_accept(data))
    &&& (r matches AccountProbe::Token22Mint(m, e) ==> data.len() >= 82 && mint_record_matches(
        data.subrange(0, 82),
        m,
    ) && e@ == token22_mint_extension_tags(data))
    &&& (r is Other <==> !sys && !(keg && (token_account_wf(data) || mint_wf(data))) && !(t22 && (
    token22_account_accepts(data) || (token22_mint_accepts(data) && token22_mint_tags_accept(
        data,
    )))))
}

/// Classifies an account from its owner and data: system accounts by owner,
/// token-program accounts by attempting the token-account decode first and
/// the mint decode second, and `Other` as the catch-all. Total: every input
/// classifies, nothing fails.
pub fn classify_probe(ids: &ProgramIds, owner: &Address, data: &Vec<u8>) -> (r: AccountProbe)
    ensures
        probe_matches(*ids, *owner, data@, r),
{
    if address_eq(owner, &ids.system) {
        return AccountProbe::System;
    }
    if address_eq(owner, &ids.tokenkeg) {
        if let Option::Some(t) = crate::token::unpack_tokenkeg_account(data) {
            return AccountProbe::TokenkegToken(t);
        }
        if let Option::Some(m) = crate::token::unpack_tokenkeg_mint(data) {
            return AccountProbe::TokenkegMint(m);
        }
        return AccountProbe::Other;
    }
    if address_eq(owner, &ids.token22) {
        if let Option::Some(t) = crate::token::unpack_token22_account(data) {
            return AccountProbe::Token22Token(t);
        }
        if let Option::Some(m) = crate::token::unpack_token22_mint(data) {
            if let Option::Some(e) = crate::token::mint_extension_tags(data) {
                return AccountProbe::Token22Mint(m, e);
            }
        }
        return AccountProbe::Other;
    }
    AccountProbe::Other
}

/// Two probes agree: the same variant, the same decoded record, and the
/// same extension tags.
pub open spec fn probe_agrees(r1: AccountProbe, r2: AccountProbe) -> bool {
    match (r1, r2) {
        (AccountProbe::System, AccountProbe::System) => true,
        (AccountProbe::TokenkegToken(a), AccountProbe::TokenkegToken(b)) => a == b,
        (AccountProbe::TokenkegMint(a), AccountProbe::TokenkegMint(b)) => a == b,
        (AccountProbe::Token22Token(a), AccountProbe::Token22Token(b)) => a == b,
        (AccountProbe::Token22Mint(a, e1), AccountProbe::Token22Mint(b, e2)) => a == b && e1@
            == e2@,
        (AccountProbe::Other, AccountProbe::Other) => true,
        _ => false,
    }
}

/// Law: classification is deterministic. Any two probes that the contract
/// admits for the same ids, owner and data agree, down to the decoded
/// fields and extension tags.
pub proof fn lemma_classification_deterministic(
    ids: ProgramIds,
    owner: Address,
    data: Seq<u8>,
    r1: AccountProbe,
    r2: AccountProbe,
)
    requires
        probe_matches(ids, owner, data, r1),
        probe_matches(ids, owner, data, r2),
    ensures
        probe_agrees(r1, r2),
{
    broadcast use vstd::array::group_array_axioms;

    match (r1, r2) {
        (AccountProbe::TokenkegToken(a), AccountProbe::TokenkegToken(b)) => {
            lemma_token_record_unique(data, a, b);
        },
        (AccountProbe::TokenkegMint(a), AccountProbe::TokenkegMint(b)) => {
            lemma_mint_record_unique(data, a, b);
        },
        (AccountProbe::Token22Token(a), AccountProbe::Token22Token(b)) => {
            lemma_token_record_unique(data.subrange(0, 165), a, b);
        },
        (AccountProbe::Token22Mint(a, e1), AccountProbe::Token22Mint(b, e2)) => {
            lemma_mint_record_unique(data.subrange(0, 82), a, b);
        },
        _ => (),
    }
}

/// Two records decoded from the same bytes are equal field by field.
proof fn lemma_token_record_unique(d: Seq<u8>, a: TokenRecord, b: TokenRecord)
    requires
        token_record_matches(d, a),
        token_record_matches(d, b),
    ensures
        a == b,
{
    broadcast use vstd::array::group_array_axioms;

    assert(a.mint =~= b.mint);
    assert(a.owner =~= b.owner);
    if a.delegate is Some {
        assert(a.delegate.unwrap() =~= b.delegate.unwrap());
    }
    if a.close_authority is Some {
        assert(a.close_authority.unwrap() =~= b.close_authority.unwrap());
    }
}

/// Two mint records decoded from the same bytes are equal field by field.
proof fn lemma_mint_record_unique(d: Seq<u8>, a: MintRecord, b: MintRecord)
    requires
        mint_record_matches(d, a),
        mint_record_matches(d, b),
    ensures
        a == b,
{
    broadcast use vstd::array::group_array_axioms;

    if a.mint_authority is Some {
        assert(a.mint_authority.unwrap() =~= b.mint_authority.unwrap());
    }
    if a.freeze_authority is Some {
        assert(a.freeze_authority.unwrap() =~= b.freeze_authority.unwrap());
    }
}

/// Completes a first-generation token-account classification once the
/// referenced mint's data and the metadata record (absent when the fetch
/// found none) are at hand. The balance is denominated by the fetched
/// mint's decimals, never an assumed constant. A missing mint is a fetch
/// failure; a mint or metadata record that does not decode is malformed.
pub fn complete_tokenkeg_token(
    token_account: TokenRecord,
    mint_data: &Option<Vec<u8>>,
    metadata: &Option<Vec<u8>>,
) -> (r: Result<ParsedAccount, InspectError>)
    ensures
        mint_data is None ==> r == Result::<ParsedAccount, InspectError>::Err(
            InspectError::TransientFetch,
        ),
        r is Ok <==> (mint_data matches Some(d) && mint_wf(d@) && !(metadata matches Some(md)
            && !mpl_metadata_accepts(md@))),
        r matches Err(e) ==> e == InspectError::TransientFetch || e == InspectError::Malformed,
        r matches Ok(p) ==> (p matches ParsedAccount::TokenProgram(
            TokenProgramAccount::Tokenkeg(
                TokenkegAccount::TokenAccount { token_account: t, mint_account: m, symbol: s },
            ),
        ) && t == token_account && (mint_data matches Some(d) && mint_record_matches(d@, m)) && (
        match metadata {
            Option::Some(md) => symbol_view(s) == Option::Some(mpl_symbol_of(md@)),
            Option::None => s is None,
        })),
{
    let d = match mint_data {
        Option::Some(d) => d,
        Option::None => {
            return Err(InspectError::TransientFetch);
        },
    };
    let mint_account = match crate::token::unpack_tokenkeg_mint(d) {
        Option::Some(m) => m,
        Option::None => {
            return Err(InspectError::Malformed);
        },
    };
    let symbol = match metadata {
        Option::Some(md) => {
            match crate::metadata::mpl_metadata_symbol(md) {
                Option::Some(s) => Option::Some(s),
                Option::None => {
                    return Err(InspectError::Malformed);
                },
            }
        },
        Option::None => Option::None,
    };
    Ok(ParsedAccount::tokenkeg_token(token_account, mint_account, symbol))
}

/// Completes a token-2022 token-account classification. The mint decodes
/// under the extension-aware layout; the symbol comes from the metadata
/// record when one was fetched, else from the mint's own embedded metadata.
pub fn complete_token22_token(
    token_account: TokenRecord,
    mint_data: &Option<Vec<u8>>,
    metadata: &Option<Vec<u8>>,
) -> (r: Result<ParsedAccount, InspectError>)
    ensures
        mint_data is None ==> r == Result::<ParsedAccount, InspectError>::Err(
            InspectError::TransientFetch,
        ),
        r is Ok <==> (mint_data matches Some(d) && token22_mint_accepts(d@) && !(
        metadata matches Some(md) && !mpl_metadata_accepts(md@))),
        r matches Err(e) ==> e == InspectError::TransientFetch || e == InspectError::Malformed,
        r matches Ok(p) ==> (p matches ParsedAccount::TokenProgram(
            TokenProgramAccount::Token22(
                Token22Account::TokenAccount { token_account: t, mint_account: m, symbol: s },
            ),
        ) && t == token_account && (mint_data matches Some(d) && d@.len() >= 82
            && mint_record_matches(d@.subrange(0, 82), m)) && (match metadata {
            Option::Some(md) => symbol_view(s) == Option::Some(mpl_symbol_of(md@)),
            Option::None => (mint_data matches Some(d) && symbol_view(s)
                == token22_inline_symbol(d@)),
        })),
{
    let d = match mint_data {
        Option::Some(d) => d,
        Option::None => {
            return Err(InspectError::TransientFetch);
        },
    };
    let mint_account = match crate::token::unpack_token22_mint(d) {
        Option::Some(m) => m,
        Option::None => {
            return Err(InspectError::Malformed);
        },
    };
    let symbol = match metadata {
        Option::Some(md) => {
            match crate::metadata::mpl_metadata_symbol(md) {
                Option::Some(s) => Option::Some(s),
                Option::None => {
                    return Err(InspectError::Malformed);
                },
            }
        },
        Option::None => crate::token::mint_inline_metadata_symbol(d),
    };
    Ok(ParsedAccount::token22_token(token_account, mint_account, symbol))
}

} // verus!
