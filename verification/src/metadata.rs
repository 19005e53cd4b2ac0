//! Token symbol resolution: the on-chain metadata-program record, located
//! through its program-derived address, and the fallback to a token-2022
//! mint's own embedded metadata.

use vstd::prelude::*;

use crate::token::mint_inline_metadata_symbol;
use crate::token::token22_inline_symbol;
use crate::Address;
use crate::InspectError;

verus! {

/// A name for the metadata-program record address derived from a mint: a
/// deterministic function of the mint address alone.
pub uninterp spec fn metadata_pda_of(mint: Seq<u8>) -> Seq<u8>;

/// Relies on `mpl_token_metadata::accounts::Metadata::find_pda`: derives
/// the metadata record's program-derived address for a mint; the result
/// depends on the mint address alone.
#[verifier::external_body]
fn find_metadata_pda(mint: &Address) -> (r: Address)
    ensures
        r@ == metadata_pda_of(mint@),
{
    mpl_token_metadata::accounts::Metadata::find_pda(
        &solana_sdk::pubkey::Pubkey::new_from_array(*mint),
    ).0.to_bytes()
}

/// The address at which a mint's metadata record lives, to be fetched by
/// the caller.
pub fn metadata_account_for(mint: &Address) -> (r: Address)
    ensures
        r@ == metadata_pda_of(mint@),
{
    find_metadata_pda(mint)
}

/// Law: re-deriving the metadata address for the same mint always yields
/// the same address; the derivation is a pure function of the mint.
pub proof fn lemma_metadata_pda_deterministic(a: Address, b: Address)
    requires
        a@ == b@,
    ensures
        metadata_pda_of(a@) == metadata_pda_of(b@),
{
}

/// A name for the metadata records that `Metadata::from_bytes` accepts.
pub uninterp spec fn mpl_metadata_accepts(data: Seq<u8>) -> bool;

/// A name for the symbol field of a metadata record.
pub uninterp spec fn mpl_symbol_of(data: Seq<u8>) -> Seq<char>;

/// Relies on `mpl_token_metadata::accounts::Metadata::from_bytes`: borsh
/// deserialization of the metadata record; acceptance and the symbol field
/// depend on the bytes alone.
#[verifier::external_body]
pub(crate) fn mpl_metadata_symbol(data: &Vec<u8>) -> (r: Option<String>)
    ensures
        r is Some <==> mpl_metadata_accepts(data@),
        r matches Some(s) ==> s@ == mpl_symbol_of(data@),
{
    match mpl_token_metadata::accounts::Metadata::from_bytes(data) {
        Ok(m) => Some(m.symbol),
        Err(_) => None,
    }
}

/// The view of an optional symbol.
pub open spec fn symbol_view(s: Option<String>) -> Option<Seq<char>> {
    match s {
        Option::Some(x) => Option::Some(x@),
        Option::None => Option::<Seq<char>>::None,
    }
}

/// The symbol precedence policy: the metadata-program record wins, the
/// embedded metadata is consulted only when the first source yields
/// nothing.
pub fn choose_symbol(mpl: Option<String>, inline: Option<String>) -> (r: Option<String>)
    ensures
        r == if mpl is Some {
            mpl
        } else {
            inline
        },
{
    match mpl {
        Option::Some(s) => Option::Some(s),
        Option::None => inline,
    }
}

/// The symbol owed for a mint given the fetched metadata record (absent
/// when the fetch found none) and the mint's own data: the record's symbol
/// first, else whatever the mint's embedded metadata holds.
pub open spec fn spec_resolved_symbol(metadata: Option<Vec<u8>>, mint_data: Seq<u8>) -> Option<
    Seq<char>,
> {
    match metadata {
        Option::Some(d) => Option::Some(mpl_symbol_of(d@)),
        Option::None => token22_inline_symbol(mint_data),
    }
}

/// Resolves a mint's symbol from both sources, the metadata-program record
/// first and the mint's embedded metadata second. A fetch that found no
/// record falls through to the second source; a fetched record that does
/// not decode is malformed and fatal.
pub fn resolve_symbol(metadata: &Option<Vec<u8>>, mint_data: &Vec<u8>) -> (r: Result<
    Option<String>,
    InspectError,
>)
    ensures
        r is Err <==> (metadata matches Some(d) && !mpl_metadata_accepts(d@)),
        r matches Err(e) ==> e == InspectError::Malformed,
        r matches Ok(s) ==> symbol_view(s) == spec_resolved_symbol(*metadata, mint_data@),
{
    match metadata {
        Option::Some(d) => {
            match mpl_metadata_symbol(d) {
                Option::Some(s) => Ok(Option::Some(s)),
                Option::None => Err(InspectError::Malformed),
            }
        },
        Option::None => Ok(mint_inline_metadata_symbol(mint_data)),
    }
}

} // verus!
