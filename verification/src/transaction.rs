//! Versioned-transaction resolution: reconstructing the full ordered account
//! list of a fetched transaction, including expansion of address-table
//! lookups for v0 messages, and assembly of the typed transaction summary.

use vstd::prelude::*;

use crate::message::AddressTableLookup;
use crate::message::MessageHeader;
use crate::message::V0Message;
use crate::message::LegacyMessage;
use crate::message::ParsedMessage;
use crate::Address;
use crate::InspectError;

verus! {

/// One entry of the resolved account list.
#[derive(Clone, Copy, Debug, PartialEq, Eq)]
pub struct ResolvedAccountMeta {
    pub pubkey: Address,
    pub is_signer: bool,
    pub is_writable: bool,
}

/// An account is a signer exactly when it sits in the leading
/// `num_required_signatures` range of the static list.
pub open spec fn signer_flag(h: MessageHeader, i: int) -> bool {
    i < h.num_required_signatures
}

/// An account is writable when it sits in the writable part of the signer
/// range or in the writable part of the non-signer static range, as the
/// header's read-only counts declare them.
pub open spec fn writable_flag(h: MessageHeader, n_keys: int, i: int) -> bool {
    i < h.num_required_signatures - h.num_readonly_signed_accounts || (
    h.num_required_signatures <= i && i < n_keys - h.num_readonly_unsigned_accounts)
}

/// The resolved metas of the static account list: keys in message order with
/// flags taken from the header ranges.
pub open spec fn spec_static_metas(h: MessageHeader, keys: Seq<Address>) -> Seq<
    ResolvedAccountMeta,
> {
    Seq::new(
        keys.len(),
        |i: int|
            ResolvedAccountMeta {
                pubkey: keys[i],
                is_signer: signer_flag(h, i),
                is_writable: writable_flag(h, keys.len() as int, i),
            },
    )
}

/// Every index of the lookup stays inside the table's address array.
pub open spec fn lookup_indexes_ok(l: AddressTableLookup, t: Seq<Address>) -> bool {
    (forall|j: int|
        0 <= j < l.writable_indexes@.len() ==> (#[trigger] l.writable_indexes@[j]) < t.len())
        && (forall|j: int|
        0 <= j < l.readonly_indexes@.len() ==> (#[trigger] l.readonly_indexes@[j]) < t.len())
}

/// A lookup contributes entries exactly when its table was fetched and
/// decoded and all of its indexes are in bounds.
pub open spec fn lookup_resolves(l: AddressTableLookup, t: Option<Seq<Address>>) -> bool {
    t matches Some(tv) && lookup_indexes_ok(l, tv)
}

/// The entries one resolved lookup appends: the addresses at its writable
/// indexes (writable, never signer), then those at its read-only indexes
/// (read-only, never signer), in declared order.
pub open spec fn lookup_expansion(l: AddressTableLookup, t: Seq<Address>) -> Seq<
    ResolvedAccountMeta,
> {
    l.writable_indexes@.map_values(
        |idx: u8|
            ResolvedAccountMeta { pubkey: t[idx as int], is_signer: false, is_writable: true },
    ) + l.readonly_indexes@.map_values(
        |idx: u8|
            ResolvedAccountMeta { pubkey: t[idx as int], is_signer: false, is_writable: false },
    )
}

/// The concatenated expansions of lookups `i..`, skipping every lookup that
/// does not resolve; one failed table never disturbs its siblings' entries.
pub open spec fn spec_expansions(
    lookups: Seq<AddressTableLookup>,
    tables: Seq<Option<Seq<Address>>>,
    i: int,
) -> Seq<ResolvedAccountMeta>
    decreases lookups.len() - i,
{
    if i < 0 || i >= lookups.len() {
        Seq::<ResolvedAccountMeta>::empty()
    } else {
        (if lookup_resolves(lookups[i], tables[i]) {
            lookup_expansion(lookups[i], tables[i].unwrap())
        } else {
            Seq::<ResolvedAccountMeta>::empty()
        }) + spec_expansions(lookups, tables, i + 1)
    }
}

/// The views of a fetched-and-decoded table list.
pub open spec fn table_views(ts: Seq<Option<Vec<Address>>>) -> Seq<Option<Seq<Address>>> {
    ts.map_values(
        |t: Option<Vec<Address>>|
            match t {
                Option::Some(v) => Option::Some(v@),
                Option::None => Option::<Seq<Address>>::None,
            },
    )
}

/// The full resolved account list of a message: static entries first, then,
/// for a v0 message, the expansions of its resolving lookups in lookup order.
pub open spec fn spec_resolved_accounts(
    message: ParsedMessage,
    tables: Seq<Option<Seq<Address>>>,
) -> Seq<ResolvedAccountMeta> {
    match message {
        ParsedMessage::Legacy(m) => spec_static_metas(m.header, m.account_keys@),
        ParsedMessage::V0(m) => spec_static_metas(m.header, m.account_keys@)
            + spec_expansions(m.address_table_lookups@, tables, 0),
    }
}

/// Builds the static portion of the resolved list.
fn build_static_metas(h: &MessageHeader, keys: &Vec<Address>) -> (r: Vec<ResolvedAccountMeta>)
    ensures
        r@ == spec_static_metas(*h, keys@),
{
    let n_keys = keys.len();
    let writable_signers: usize = if h.num_readonly_signed_accounts <= h.num_required_signatures {
        (h.num_required_signatures - h.num_readonly_signed_accounts) as usize
    } else {
        0
    };
    let writable_static_end: usize = if (h.num_readonly_unsigned_accounts as usize) <= n_keys {
        n_keys - h.num_readonly_unsigned_accounts as usize
    } else {
        0
    };
    let mut r: Vec<ResolvedAccountMeta> = Vec::new();
    let mut i: usize = 0;
    while i < n_keys
        invariant
            i <= n_keys,
            n_keys == keys@.len(),
            writable_signers == if h.num_readonly_signed_accounts
                <= h.num_required_signatures {
                (h.num_required_signatures - h.num_readonly_signed_accounts) as int
            } else {
                0
            },
            writable_static_end == if h.num_readonly_unsigned_accounts <= n_keys {
                n_keys - h.num_readonly_unsigned_accounts as int
            } else {
                0
            },
            r@.len() == i,
            forall|j: int| 0 <= j < i ==> r@[j] == spec_static_metas(*h, keys@)[j],
        decreases n_keys - i,
    {
        let is_signer = i < h.num_required_signatures as usize;
        let is_writable = i < writable_signers || (i >= h.num_required_signatures as usize && i
            < writable_static_end);
        r.push(ResolvedAccountMeta { pubkey: keys[i], is_signer, is_writable });
        i += 1;
    }
    assert(r@ =~= spec_static_metas(*h, keys@));
    r
}

/// Resolves a legacy message: exactly the static account list, with flags
/// from the header ranges.
pub fn resolve_legacy_accounts(msg: &LegacyMessage) -> (r: Vec<ResolvedAccountMeta>)
    ensures
        r@ == spec_static_metas(msg.header, msg.account_keys@),
        r@.len() == msg.account_keys@.len(),
{
    build_static_metas(&msg.header, &msg.account_keys)
}

/// Checks that every index of the lookup is within the table.
fn check_lookup_indexes(l: &AddressTableLookup, t: &Vec<Address>) -> (r: bool)
    ensures
        r == lookup_indexes_ok(*l, t@),
{
    let mut j: usize = 0;
    while j < l.writable_indexes.len()
        invariant
            j <= l.writable_indexes@.len(),
            forall|k: int|
                0 <= k < j ==> (#[trigger] l.writable_indexes@[k]) < t@.len(),
        decreases l.writable_indexes@.len() - j,
    {
        if l.writable_indexes[j] as usize >= t.len() {
            return false;
        }
        j += 1;
    }
    let mut j: usize = 0;
    while j < l.readonly_indexes.len()
        invariant
            j <= l.readonly_indexes@.len(),
            forall|k: int|
                0 <= k < l.writable_indexes@.len() ==> (#[trigger] l.writable_indexes@[k])
                    < t@.len(),
            forall|k: int|
                0 <= k < j ==> (#[trigger] l.readonly_indexes@[k]) < t@.len(),
        decreases l.readonly_indexes@.len() - j,
    {
        if l.readonly_indexes[j] as usize >= t.len() {
            return false;
        }
        j += 1;
    }
    true
}

/// Appends one resolved lookup's entries to `out`.
fn append_lookup_expansion(l: &AddressTableLookup, t: &Vec<Address>, out: &mut Vec<
    ResolvedAccountMeta,
>)
    requires
        lookup_indexes_ok(*l, t@),
    ensures
        final(out)@ == old(out)@ + lookup_expansion(*l, t@),
{
    let ghost wr_part = l.writable_indexes@.map_values(
        |idx: u8|
            ResolvedAccountMeta { pubkey: t@[idx as int], is_signer: false, is_writable: true },
    );
    let ghost ro_part = l.readonly_indexes@.map_values(
        |idx: u8|
            ResolvedAccountMeta { pubkey: t@[idx as int], is_signer: false, is_writable: false },
    );
    let mut j: usize = 0;
    while j < l.writable_indexes.len()
        invariant
            j <= l.writable_indexes@.len(),
            lookup_indexes_ok(*l, t@),
            wr_part == l.writable_indexes@.map_values(
                |idx: u8|
                    ResolvedAccountMeta {
                        pubkey: t@[idx as int],
                        is_signer: false,
                        is_writable: true,
                    },
            ),
            out@ == old(out)@ + wr_part.take(j as int),
        decreases l.writable_indexes@.len() - j,
    {
        let idx = l.writable_indexes[j];
        out.push(ResolvedAccountMeta { pubkey: t[idx as usize], is_signer: false, is_writable: true });
        assert(wr_part.take(j + 1) =~= wr_part.take(j as int) + seq![wr_part[j as int]]);
        j += 1;
    }
    assert(wr_part.take(l.writable_indexes@.len() as int) =~= wr_part);
    let mut j: usize = 0;
    while j < l.readonly_indexes.len()
        invariant
            j <= l.readonly_indexes@.len(),
            lookup_indexes_ok(*l, t@),
            ro_part == l.readonly_indexes@.map_values(
                |idx: u8|
                    ResolvedAccountMeta {
                        pubkey: t@[idx as int],
                        is_signer: false,
                        is_writable: false,
                    },
            ),
            out@ == old(out)@ + wr_part + ro_part.take(j as int),
        decreases l.readonly_indexes@.len() - j,
    {
        let idx = l.readonly_indexes[j];
        out.push(ResolvedAccountMeta { pubkey: t[idx as usize], is_signer: false, is_writable: false });
        assert(ro_part.take(j + 1) =~= ro_part.take(j as int) + seq![ro_part[j as int]]);
        j += 1;
    }
    assert(ro_part.take(l.readonly_indexes@.len() as int) =~= ro_part);
    assert(old(out)@ + wr_part + ro_part =~= old(out)@ + lookup_expansion(*l, t@));
}

/// Resolves a v0 message against its fetched lookup tables: the static list
/// first, then each resolving lookup's writable and read-only expansions in
/// order. A table that failed to fetch or decode, or whose address array is
/// too short for the lookup's indexes, contributes nothing and leaves the
/// other lookups' entries untouched.
pub fn resolve_v0_accounts(msg: &V0Message, tables: &Vec<Option<Vec<Address>>>) -> (r: Vec<
    ResolvedAccountMeta,
>)
    requires
        tables@.len() == msg.address_table_lookups@.len(),
    ensures
        r@ == spec_static_metas(msg.header, msg.account_keys@) + spec_expansions(
            msg.address_table_lookups@,
            table_views(tables@),
            0,
        ),
        r@.len() >= msg.account_keys@.len(),
{
    let ghost full = spec_static_metas(msg.header, msg.account_keys@) + spec_expansions(
        msg.address_table_lookups@,
        table_views(tables@),
        0,
    );
    let mut r = build_static_metas(&msg.header, &msg.account_keys);
    assert(r@ + spec_expansions(msg.address_table_lookups@, table_views(tables@), 0) =~= full);
    let mut i: usize = 0;
    while i < tables.len()
        invariant
            i <= tables@.len(),
            tables@.len() == msg.address_table_lookups@.len(),
            full == spec_static_metas(msg.header, msg.account_keys@) + spec_expansions(
                msg.address_table_lookups@,
                table_views(tables@),
                0,
            ),
            r@.len() >= msg.account_keys@.len(),
            r@ + spec_expansions(msg.address_table_lookups@, table_views(tables@), i as int)
                =~= full,
        decreases tables@.len() - i,
    {
        let ghost tviews = table_views(tables@);
        assert(tviews[i as int] == (match tables@[i as int] {
            Option::Some(v) => Option::Some(v@),
            Option::None => Option::<Seq<Address>>::None,
        }));
        match &tables[i] {
            Option::Some(t) => {
                let l = &msg.address_table_lookups[i];
                if check_lookup_indexes(l, t) {
                    append_lookup_expansion(l, t, &mut r);
                } else {
                    assert(!lookup_resolves(msg.address_table_lookups@[i as int],
                        tviews[i as int]));
                }
            },
            Option::None => {
                assert(!lookup_resolves(msg.address_table_lookups@[i as int], tviews[i as int]));
            },
        }
        i += 1;
    }
    assert(spec_expansions(msg.address_table_lookups@, table_views(tables@), tables@.len() as int)
        =~= Seq::<ResolvedAccountMeta>::empty());
    assert(r@ =~= full);
    r
}

/// The entry count that lookups `i..` contribute: the writable plus
/// read-only index counts of every resolving lookup, nothing for the rest.
pub open spec fn spec_expansion_len_sum(
    lookups: Seq<AddressTableLookup>,
    tables: Seq<Option<Seq<Address>>>,
    i: int,
) -> int
    decreases lookups.len() - i,
{
    if i < 0 || i >= lookups.len() {
        0
    } else {
        (if lookup_resolves(lookups[i], tables[i]) {
            lookups[i].writable_indexes@.len() + lookups[i].readonly_indexes@.len()
        } else {
            0
        }) + spec_expansion_len_sum(lookups, tables, i + 1)
    }
}

/// Law: a legacy message resolves to exactly its static account list, one
/// entry per key, with the signer and writable flags given by the header's
/// declared ranges.
pub proof fn lemma_legacy_resolution(h: MessageHeader, keys: Seq<Address>)
    ensures
        spec_static_metas(h, keys).len() == keys.len(),
        forall|i: int|
            0 <= i < keys.len() ==> (#[trigger] spec_static_metas(h, keys)[i])
                == (ResolvedAccountMeta {
                pubkey: keys[i],
                is_signer: signer_flag(h, i),
                is_writable: writable_flag(h, keys.len() as int, i),
            }),
{
}

/// Law: the expansions of lookups `i..` contribute exactly the index counts
/// of the lookups that resolve; a failing table adds nothing and does not
/// disturb the other lookups' contributions.
pub proof fn lemma_expansions_len(
    lookups: Seq<AddressTableLookup>,
    tables: Seq<Option<Seq<Address>>>,
    i: int,
)
    ensures
        spec_expansions(lookups, tables, i).len() == spec_expansion_len_sum(lookups, tables, i),
    decreases lookups.len() - i,
{
    if i < 0 || i >= lookups.len() {
    } else {
        lemma_expansions_len(lookups, tables, i + 1);
    }
}

/// Law: a v0 message's resolved list has the static count plus the summed
/// index counts of the lookups that resolve.
pub proof fn lemma_v0_resolved_len(m: V0Message, tables: Seq<Option<Seq<Address>>>)
    ensures
        spec_resolved_accounts(ParsedMessage::V0(m), tables).len() == m.account_keys@.len()
            + spec_expansion_len_sum(m.address_table_lookups@, tables, 0),
{
    lemma_expansions_len(m.address_table_lookups@, tables, 0);
}

/// Law: no lookup-expanded entry is ever a signer.
pub proof fn lemma_expansions_not_signer(
    lookups: Seq<AddressTableLookup>,
    tables: Seq<Option<Seq<Address>>>,
    i: int,
)
    ensures
        forall|j: int|
            0 <= j < spec_expansions(lookups, tables, i).len() ==> !(#[trigger] spec_expansions(
                lookups,
                tables,
                i,
            )[j]).is_signer,
    decreases lookups.len() - i,
{
    if i < 0 || i >= lookups.len() {
    } else {
        lemma_expansions_not_signer(lookups, tables, i + 1);
        let seg = if lookup_resolves(lookups[i], tables[i]) {
            lookup_expansion(lookups[i], tables[i].unwrap())
        } else {
            Seq::<ResolvedAccountMeta>::empty()
        };
        let tail = spec_expansions(lookups, tables, i + 1);
        assert forall|j: int| 0 <= j < (seg + tail).len() implies !(#[trigger] (seg + tail)[j])
            .is_signer by {
            if j < seg.len() {
                assert(!seg[j].is_signer);
            } else {
                assert((seg + tail)[j] == tail[j - seg.len()]);
            }
        }
    }
}

/// Law: in a v0 message's resolved list, every entry past the static count
/// comes from a lookup table and is not a signer.
pub proof fn lemma_v0_lookup_entries_not_signer(m: V0Message, tables: Seq<Option<Seq<Address>>>)
    ensures
        forall|j: int|
            m.account_keys@.len() <= j < spec_resolved_accounts(
                ParsedMessage::V0(m),
                tables,
            ).len() ==> !(#[trigger] spec_resolved_accounts(ParsedMessage::V0(m), tables)[j])
                .is_signer,
{
    lemma_expansions_not_signer(m.address_table_lookups@, tables, 0);
    let stat = spec_static_metas(m.header, m.account_keys@);
    let exp = spec_expansions(m.address_table_lookups@, tables, 0);
    assert forall|j: int|
        stat.len() <= j < (stat + exp).len() implies !(#[trigger] (stat + exp)[j]).is_signer by {
        assert((stat + exp)[j] == exp[j - stat.len()]);
    }
}

/// Law: a lookup's contribution depends on its own table alone. Replacing
/// table `k` with a failed fetch removes exactly lookup `k`'s entries and
/// leaves every other lookup's expansion as it was.
pub proof fn lemma_failed_table_is_local(
    lookups: Seq<AddressTableLookup>,
    tables: Seq<Option<Seq<Address>>>,
    k: int,
    i: int,
)
    requires
        0 <= k < lookups.len(),
        lookups.len() <= tables.len(),
    ensures
        0 <= i <= k ==> spec_expansions(lookups, tables.update(k, Option::None), i)
            == spec_expansions_without(lookups, tables, k, i),
        k < i ==> spec_expansions(lookups, tables.update(k, Option::None), i)
            == spec_expansions(lookups, tables, i),
        k < i ==> spec_expansions_without(lookups, tables, k, i) == spec_expansions(
            lookups,
            tables,
            i,
        ),
    decreases lookups.len() - i,
{
    if i < 0 || i >= lookups.len() {
    } else {
        lemma_failed_table_is_local(lookups, tables, k, i + 1);
        if i != k {
            assert(tables.update(k, Option::None)[i] == tables[i]);
        }
    }
}

/// The expansions of lookups `i..` with lookup `k`'s own entries left out.
pub open spec fn spec_expansions_without(
    lookups: Seq<AddressTableLookup>,
    tables: Seq<Option<Seq<Address>>>,
    k: int,
    i: int,
) -> Seq<ResolvedAccountMeta>
    decreases lookups.len() - i,
{
    if i < 0 || i >= lookups.len() {
        Seq::<ResolvedAccountMeta>::empty()
    } else {
        (if i != k && lookup_resolves(lookups[i], tables[i]) {
            lookup_expansion(lookups[i], tables[i].unwrap())
        } else {
            Seq::<ResolvedAccountMeta>::empty()
        }) + spec_expansions_without(lookups, tables, k, i + 1)
    }
}

/// A name for the inputs that `AddressLookupTable::deserialize` accepts: an
/// initialized bincode metadata header followed by whole 32-byte addresses.
pub uninterp spec fn lookup_table_accepts(data: Seq<u8>) -> bool;

/// Relies on `AddressLookupTable::deserialize`: on success the input splits
/// into a 56-byte metadata header that bincode-decodes as an initialized
/// table, and a remainder of whole 32-byte addresses; the address at
/// position `k` is exactly the 32 bytes starting at `56 + 32 k`.
#[verifier::external_body]
fn decode_lookup_table(data: &Vec<u8>) -> (r: Option<Vec<Address>>)
    ensures
        r is Some <==> lookup_table_accepts(data@),
        r is Some ==> data@.len() >= 56 && (data@.len() - 56) % 32 == 0,
        r matches Some(v) ==> v@.len() == (data@.len() - 56) / 32 && (forall|k: int|
            0 <= k < v@.len() ==> (#[trigger] v@[k])@ == data@.subrange(
                56 + 32 * k,
                56 + 32 * k + 32,
            )),
{
    match solana_sdk::address_lookup_table::state::AddressLookupTable::deserialize(data) {
        Ok(alt) => Some(alt.addresses.iter().map(|p| p.to_bytes()).collect()),
        Err(_) => None,
    }
}

/// How one fetched lookup-table blob relates to its decoded address array:
/// a failed fetch decodes to nothing, a fetched blob decodes exactly when
/// the table layout accepts it, and then to its 32-byte address chunks.
pub open spec fn decoded_table_matches(src: Option<Vec<u8>>, dst: Option<Vec<Address>>) -> bool {
    match src {
        Option::None => dst is None,
        Option::Some(d) => {
            &&& dst is Some <==> lookup_table_accepts(d@)
            &&& (dst matches Some(v) ==> v@.len() == (d@.len() - 56) / 32 && (forall|k: int|
                0 <= k < v@.len() ==> (#[trigger] v@[k])@ == d@.subrange(
                    56 + 32 * k,
                    56 + 32 * k + 32,
                )))
        },
    }
}

/// Decodes each fetched lookup-table blob; a failed fetch (`None`) or a blob
/// the table layout rejects yields `None` in its place, so one bad table
/// cannot disturb the others.
pub fn decode_lookup_tables(fetched: &Vec<Option<Vec<u8>>>) -> (r: Vec<Option<Vec<Address>>>)
    ensures
        r@.len() == fetched@.len(),
        forall|i: int|
            0 <= i < fetched@.len() ==> decoded_table_matches(fetched@[i], #[trigger] r@[i]),
{
    let mut r: Vec<Option<Vec<Address>>> = Vec::new();
    let mut i: usize = 0;
    while i < fetched.len()
        invariant
            i <= fetched@.len(),
            r@.len() == i,
            forall|j: int|
                0 <= j < i ==> decoded_table_matches(fetched@[j], #[trigger] r@[j]),
        decreases fetched@.len() - i,
    {
        match &fetched[i] {
            Option::Some(d) => {
                r.push(decode_lookup_table(d));
            },
            Option::None => {
                r.push(Option::None);
            },
        }
        i += 1;
    }
    r
}

/// The status-and-fee metadata of a fetched transaction, as plain values.
pub struct TxStatusMeta {
    /// Whether the transaction executed successfully.
    pub status_ok: bool,
    /// The fee paid, in lamports.
    pub fee: u64,
    /// Compute units consumed, when the node reported them.
    pub compute_units_consumed: Option<u64>,
    /// Lamport balances of the resolved accounts before execution.
    pub pre_balances: Vec<u64>,
    /// Lamport balances of the resolved accounts after execution.
    pub post_balances: Vec<u64>,
    /// The program log lines, when the node reported them.
    pub log_messages: Option<Vec<String>>,
}

/// The version tag of a fetched transaction.
#[derive(Clone, Copy, Debug, PartialEq, Eq, Structural)]
pub enum VersionTag {
    Legacy,
    Number(u8),
}

/// A fully resolved transaction summary.
pub struct ParsedTransaction {
    pub meta: TxStatusMeta,
    pub accounts: Vec<ResolvedAccountMeta>,
    pub blockhash: Address,
    pub slot: u64,
    pub version: VersionTag,
    pub time: i64,
}

/// Assembles a transaction summary from the envelope's parts and the decoded
/// message. Fails exactly when the envelope lacks its metadata, block time
/// or version tag, which a well-formed finalized response always carries;
/// lookup tables that failed to resolve only shorten the account list.
pub fn parse_transaction(
    slot: u64,
    block_time: Option<i64>,
    meta: Option<TxStatusMeta>,
    version: Option<VersionTag>,
    message: ParsedMessage,
    tables: &Vec<Option<Vec<Address>>>,
) -> (r: Result<ParsedTransaction, InspectError>)
    requires
        tables@.len() == message.spec_lookups().len(),
    ensures
        r is Ok <==> (meta is Some && block_time is Some && version is Some),
        r matches Err(e) ==> e == InspectError::Malformed,
        r matches Ok(t) ==> {
            &&& t.slot == slot
            &&& t.time == block_time->0
            &&& t.version == version->0
            &&& t.meta == meta->0
            &&& t.blockhash == message.spec_blockhash()
            &&& t.accounts@ == spec_resolved_accounts(message, table_views(tables@))
        },
{
    let meta = match meta {
        Option::Some(m) => m,
        Option::None => {
            return Err(InspectError::Malformed);
        },
    };
    let time = match block_time {
        Option::Some(t) => t,
        Option::None => {
            return Err(InspectError::Malformed);
        },
    };
    let version = match version {
        Option::Some(v) => v,
        Option::None => {
            return Err(InspectError::Malformed);
        },
    };
    let (accounts, blockhash) = match &message {
        ParsedMessage::Legacy(m) => (resolve_legacy_accounts(m), m.recent_blockhash),
        ParsedMessage::V0(m) => (resolve_v0_accounts(m, tables), m.recent_blockhash),
    };
    Ok(ParsedTransaction { meta, accounts, blockhash, slot, version, time })
}

} // verus!
