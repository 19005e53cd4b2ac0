//! The wallet-account aggregator: combining the token-account listings of
//! both token-program generations, resolving each symbol under a bounded
//! fan-out, and sorting the result symbol-first.

use vstd::prelude::*;
use vstd::string::StrSliceExecFns;

use crate::metadata::mpl_metadata_accepts;
use crate::metadata::mpl_symbol_of;
use crate::metadata::symbol_view;
use crate::token::token22_inline_symbol;
use crate::token::TokenAccountBalance;
use crate::Address;
use crate::InspectError;

verus! {

/// Code-point lexicographic order on character sequences; this is the order
/// in which symbol strings compare.
pub open spec fn chars_le(a: Seq<char>, b: Seq<char>) -> bool
    decreases a.len(),
{
    if a.len() == 0 {
        true
    } else if b.len() == 0 {
        false
    } else if (a[0] as u32) < (b[0] as u32) {
        true
    } else if (b[0] as u32) < (a[0] as u32) {
        false
    } else {
        chars_le(a.skip(1), b.skip(1))
    }
}

/// The aggregator's display order: symbol-bearing entries first, those
/// compared case-sensitively by symbol; symbol-less entries last and
/// mutually unordered.
pub open spec fn balance_le(a: TokenAccountBalance, b: TokenAccountBalance) -> bool {
    match (a.symbol, b.symbol) {
        (Option::Some(x), Option::Some(y)) => chars_le(x@, y@),
        (Option::Some(_), Option::None) => true,
        (Option::None, Option::Some(_)) => false,
        (Option::None, Option::None) => true,
    }
}

/// Law: the order is total.
pub proof fn lemma_chars_le_total(a: Seq<char>, b: Seq<char>)
    ensures
        chars_le(a, b) || chars_le(b, a),
    decreases a.len(),
{
    if a.len() == 0 || b.len() == 0 {
    } else if (a[0] as u32) < (b[0] as u32) || (b[0] as u32) < (a[0] as u32) {
    } else {
        lemma_chars_le_total(a.skip(1), b.skip(1));
    }
}

/// Law: the order is transitive.
pub proof fn lemma_chars_le_trans(a: Seq<char>, b: Seq<char>, c: Seq<char>)
    requires
        chars_le(a, b),
        chars_le(b, c),
    ensures
        chars_le(a, c),
    decreases a.len(),
{
    if a.len() == 0 {
    } else {
        if (a[0] as u32) < (c[0] as u32) {
        } else {
            lemma_chars_le_trans(a.skip(1), b.skip(1), c.skip(1));
        }
    }
}

/// Law: the display order on balances is total.
pub proof fn lemma_balance_le_total(a: TokenAccountBalance, b: TokenAccountBalance)
    ensures
        balance_le(a, b) || balance_le(b, a),
{
    match (a.symbol, b.symbol) {
        (Option::Some(x), Option::Some(y)) => lemma_chars_le_total(x@, y@),
        _ => (),
    }
}

/// Law: the display order on balances is transitive.
pub proof fn lemma_balance_le_trans(
    a: TokenAccountBalance,
    b: TokenAccountBalance,
    c: TokenAccountBalance,
)
    requires
        balance_le(a, b),
        balance_le(b, c),
    ensures
        balance_le(a, c),
{
    match (a.symbol, b.symbol, c.symbol) {
        (Option::Some(x), Option::Some(y), Option::Some(z)) => lemma_chars_le_trans(x@, y@, z@),
        _ => (),
    }
}

/// `x` placed into the sorted sequence `s`, after every entry it does not
/// strictly precede; entries that compare equal keep their earlier place,
/// which makes the sort stable.
pub open spec fn insert_sorted(x: TokenAccountBalance, s: Seq<TokenAccountBalance>) -> Seq<
    TokenAccountBalance,
>
    decreases s.len(),
{
    if s.len() == 0 {
        seq![x]
    } else if !balance_le(s[0], x) {
        seq![x] + s
    } else {
        seq![s[0]] + insert_sorted(x, s.skip(1))
    }
}

/// The stable insertion sort of `s` under the display order: entries are
/// taken left to right and each is placed after its equals.
pub open spec fn sort_balances(s: Seq<TokenAccountBalance>) -> Seq<TokenAccountBalance>
    decreases s.len(),
{
    if s.len() == 0 {
        Seq::<TokenAccountBalance>::empty()
    } else {
        insert_sorted(s.last(), sort_balances(s.drop_last()))
    }
}

/// The sequence is ordered under the display order.
pub open spec fn sorted_balances(s: Seq<TokenAccountBalance>) -> bool {
    forall|i: int, j: int| 0 <= i < j < s.len() ==> balance_le(s[i], s[j])
}

/// Every entry of the inserted sequence is the new entry or one of the old.
proof fn lemma_insert_sorted_elems(x: TokenAccountBalance, s: Seq<TokenAccountBalance>, k: int)
    requires
        0 <= k < insert_sorted(x, s).len(),
    ensures
        insert_sorted(x, s)[k] == x || s.contains(insert_sorted(x, s)[k]),
    decreases s.len(),
{
    if s.len() == 0 {
    } else if !balance_le(s[0], x) {
        if k > 0 {
            assert(insert_sorted(x, s)[k] == s[k - 1]);
        }
    } else {
        if k > 0 {
            lemma_insert_sorted_elems(x, s.skip(1), k - 1);
            if s.skip(1).contains(insert_sorted(x, s.skip(1))[k - 1]) {
                let w = choose|w: int|
                    0 <= w < s.skip(1).len() && s.skip(1)[w] == insert_sorted(x, s.skip(1))[k
                        - 1];
                assert(s[w + 1] == insert_sorted(x, s)[k]);
            }
        }
    }
}

/// Law: inserting into an ordered sequence keeps it ordered.
proof fn lemma_insert_sorted_sorted(x: TokenAccountBalance, s: Seq<TokenAccountBalance>)
    requires
        sorted_balances(s),
    ensures
        sorted_balances(insert_sorted(x, s)),
    decreases s.len(),
{
    if s.len() == 0 {
    } else if !balance_le(s[0], x) {
        lemma_balance_le_total(s[0], x);
        let r = seq![x] + s;
        assert forall|i: int, j: int| 0 <= i < j < r.len() implies balance_le(r[i], r[j]) by {
            if i == 0 {
                if j > 1 {
                    lemma_balance_le_trans(x, s[0], s[j - 1]);
                }
            }
        }
    } else {
        assert(sorted_balances(s.skip(1)));
        lemma_insert_sorted_sorted(x, s.skip(1));
        let t = insert_sorted(x, s.skip(1));
        let r = seq![s[0]] + t;
        assert forall|i: int, j: int| 0 <= i < j < r.len() implies balance_le(r[i], r[j]) by {
            if i == 0 {
                lemma_insert_sorted_elems(x, s.skip(1), j - 1);
                if t[j - 1] == x {
                    assert(balance_le(s[0], x));
                } else {
                    let w = choose|w: int| 0 <= w < s.skip(1).len() && s.skip(1)[w] == t[j - 1];
                    assert(balance_le(s[0], s[w + 1]));
                }
            }
        }
    }
}

/// Law: the sort of any sequence is ordered under the display order.
pub proof fn lemma_sort_balances_sorted(s: Seq<TokenAccountBalance>)
    ensures
        sorted_balances(sort_balances(s)),
    decreases s.len(),
{
    if s.len() == 0 {
    } else {
        lemma_sort_balances_sorted(s.drop_last());
        lemma_insert_sorted_sorted(s.last(), sort_balances(s.drop_last()));
    }
}

/// Insertion adds exactly the new entry to the sequence's contents.
proof fn lemma_insert_sorted_multiset(x: TokenAccountBalance, s: Seq<TokenAccountBalance>)
    ensures
        insert_sorted(x, s).to_multiset() == s.to_multiset().insert(x),
    decreases s.len(),
{
    broadcast use vstd::seq_lib::group_to_multiset_ensures;

    if s.len() == 0 {
        assert(seq![x] =~= Seq::<TokenAccountBalance>::empty().push(x));
        assert(seq![x].to_multiset() =~= s.to_multiset().insert(x));
    } else if !balance_le(s[0], x) {
        vstd::seq_lib::lemma_multiset_commutative(seq![x], s);
        assert(seq![x] =~= Seq::<TokenAccountBalance>::empty().push(x));
        assert((seq![x] + s).to_multiset() =~= s.to_multiset().insert(x));
    } else {
        lemma_insert_sorted_multiset(x, s.skip(1));
        vstd::seq_lib::lemma_multiset_commutative(seq![s[0]], insert_sorted(x, s.skip(1)));
        vstd::seq_lib::lemma_multiset_commutative(seq![s[0]], s.skip(1));
        assert(seq![s[0]] + s.skip(1) =~= s);
        assert((seq![s[0]] + insert_sorted(x, s.skip(1))).to_multiset() =~= s.to_multiset()
            .insert(x));
    }
}

/// Law: sorting permutes the entries and loses none.
pub proof fn lemma_sort_balances_multiset(s: Seq<TokenAccountBalance>)
    ensures
        sort_balances(s).to_multiset() == s.to_multiset(),
    decreases s.len(),
{
    broadcast use vstd::seq_lib::group_to_multiset_ensures;

    if s.len() == 0 {
        assert(sort_balances(s).to_multiset() =~= s.to_multiset());
    } else {
        lemma_sort_balances_multiset(s.drop_last());
        lemma_insert_sorted_multiset(s.last(), sort_balances(s.drop_last()));
        assert(s =~= s.drop_last().push(s.last()));
        assert(s.to_multiset() =~= s.drop_last().to_multiset().insert(s.last()));
    }
}

/// Compares two symbol strings in code-point order.
fn chars_le_exec(a: &str, b: &str) -> (r: bool)
    ensures
        r == chars_le(a@, b@),
{
    let la = a.unicode_len();
    let lb = b.unicode_len();
    let mut i: usize = 0;
    assert(a@.skip(0) =~= a@);
    assert(b@.skip(0) =~= b@);
    while i < la && i < lb
        invariant
            i <= la,
            i <= lb,
            la == a@.len(),
            lb == b@.len(),
            chars_le(a@, b@) == chars_le(a@.skip(i as int), b@.skip(i as int)),
        decreases la - i,
    {
        let ca = a.get_char(i);
        let cb = b.get_char(i);
        assert(a@.skip(i as int)[0] == a@[i as int]);
        assert(b@.skip(i as int)[0] == b@[i as int]);
        if (ca as u32) < (cb as u32) {
            return true;
        }
        if (cb as u32) < (ca as u32) {
            return false;
        }
        assert(a@.skip(i as int).skip(1) =~= a@.skip(i + 1));
        assert(b@.skip(i as int).skip(1) =~= b@.skip(i + 1));
        i += 1;
    }
    if i >= la {
        assert(a@.skip(i as int).len() == 0);
        true
    } else {
        assert(b@.skip(i as int).len() == 0);
        assert(a@.skip(i as int).len() > 0);
        false
    }
}

/// Compares two balances in the display order.
fn balance_le_exec(a: &TokenAccountBalance, b: &TokenAccountBalance) -> (r: bool)
    ensures
        r == balance_le(*a, *b),
{
    match (&a.symbol, &b.symbol) {
        (Option::Some(x), Option::Some(y)) => chars_le_exec(x.as_str(), y.as_str()),
        (Option::Some(_), Option::None) => true,
        (Option::None, Option::Some(_)) => false,
        (Option::None, Option::None) => true,
    }
}

/// The first position of `r` whose entry does not precede `x`.
fn find_insert_pos(r: &Vec<TokenAccountBalance>, x: &TokenAccountBalance) -> (j: usize)
    ensures
        j <= r@.len(),
        forall|k: int| 0 <= k < j ==> balance_le(#[trigger] r@[k], *x),
        j < r@.len() ==> !balance_le(r@[j as int], *x),
{
    let mut j: usize = 0;
    while j < r.len() && balance_le_exec(&r[j], x)
        invariant
            j <= r@.len(),
            forall|k: int| 0 <= k < j ==> balance_le(#[trigger] r@[k], *x),
        decreases r@.len() - j,
    {
        j += 1;
    }
    j
}

/// The recursive placement equals positional insertion at the first
/// position whose entry does not precede `x`.
proof fn lemma_insert_sorted_at(x: TokenAccountBalance, s: Seq<TokenAccountBalance>, j: int)
    requires
        0 <= j <= s.len(),
        forall|k: int| 0 <= k < j ==> balance_le(#[trigger] s[k], x),
        j < s.len() ==> !balance_le(s[j], x),
    ensures
        insert_sorted(x, s) == s.take(j) + seq![x] + s.skip(j),
    decreases j,
{
    if j == 0 {
        if s.len() == 0 {
            assert(insert_sorted(x, s) =~= s.take(0) + seq![x] + s.skip(0));
        } else {
            assert(insert_sorted(x, s) =~= s.take(0) + seq![x] + s.skip(0));
        }
    } else {
        lemma_insert_sorted_at(x, s.skip(1), j - 1);
        assert(s.take(j) =~= seq![s[0]] + s.skip(1).take(j - 1));
        assert(s.skip(j) =~= s.skip(1).skip(j - 1));
        assert(seq![s[0]] + (s.skip(1).take(j - 1) + seq![x] + s.skip(1).skip(j - 1)) =~= s.take(
            j,
        ) + seq![x] + s.skip(j));
    }
}

/// Places `x` into the ordered vector, after its equals.
fn insert_balance(r: &mut Vec<TokenAccountBalance>, x: TokenAccountBalance)
    ensures
        final(r)@ == insert_sorted(x, old(r)@),
{
    let j = find_insert_pos(r, &x);
    proof {
        lemma_insert_sorted_at(x, r@, j as int);
    }
    r.insert(j, x);
    assert(r@ =~= old(r)@.take(j as int) + seq![x] + old(r)@.skip(j as int));
}

/// Sorts the aggregated balances for display: symbol-bearing entries first
/// in case-sensitive symbol order, symbol-less entries last in their
/// original relative order.
pub fn sort_token_accounts(v: Vec<TokenAccountBalance>) -> (r: Vec<TokenAccountBalance>)
    ensures
        r@ == sort_balances(v@),
        sorted_balances(r@),
        r@.to_multiset() == v@.to_multiset(),
{
    let ghost orig = v@;
    let mut v = v;
    let mut r: Vec<TokenAccountBalance> = Vec::new();
    while v.len() > 0
        invariant
            v@.len() <= orig.len(),
            v@ =~= orig.skip(orig.len() - v@.len()),
            r@ == sort_balances(orig.take(orig.len() - v@.len())),
        decreases v@.len(),
    {
        let ghost i = orig.len() - v@.len();
        let x = v.remove(0);
        proof {
            assert(x == orig[i]);
            assert(v@ =~= orig.skip(i + 1));
            assert(orig.take(i + 1).drop_last() =~= orig.take(i as int));
            assert(orig.take(i + 1).last() == orig[i]);
        }
        insert_balance(&mut r, x);
    }
    proof {
        assert(orig.take(orig.len() as int) =~= orig);
        lemma_sort_balances_sorted(orig);
        lemma_sort_balances_multiset(orig);
    }
    r
}

/// The aggregated view of a wallet-like account: its native balance and the
/// sorted summaries of every token account it owns.
pub struct SystemAccount {
    /// The wallet's own lamport balance.
    pub lamports: u64,
    /// The wallet's address.
    pub key: Address,
    /// The owned token accounts, sorted for display.
    pub token_accounts: Vec<TokenAccountBalance>,
}

impl SystemAccount {
    /// Assembles the aggregated view from the combined listings of both
    /// token-program generations, already symbol-resolved.
    pub fn aggregate(lamports: u64, key: Address, balances: Vec<TokenAccountBalance>) -> (r:
        SystemAccount)
        ensures
            r.lamports == lamports,
            r.key == key,
            r.token_accounts@ == sort_balances(balances@),
            sorted_balances(r.token_accounts@),
            r.token_accounts@.to_multiset() == balances@.to_multiset(),
    {
        SystemAccount { lamports, key, token_accounts: sort_token_accounts(balances) }
    }
}

/// The symbol owed to one listed token account in the aggregator: the
/// metadata-program record's symbol when one was fetched, else whatever the
/// mint's embedded metadata holds; a failed fetch of either degrades to an
/// absent symbol.
pub open spec fn spec_aggregated_symbol(
    metadata: Option<Vec<u8>>,
    mint_data: Option<Vec<u8>>,
) -> Option<Seq<char>> {
    match metadata {
        Option::Some(d) => Option::Some(mpl_symbol_of(d@)),
        Option::None => match mint_data {
            Option::Some(md) => token22_inline_symbol(md@),
            Option::None => Option::<Seq<char>>::None,
        },
    }
}

/// Attaches the resolved symbol to one listed token account. A fetch that
/// found no metadata record, or no mint, degrades to an absent symbol; a
/// fetched record that does not decode is malformed and fatal.
pub fn with_symbol(
    balance: TokenAccountBalance,
    metadata: &Option<Vec<u8>>,
    mint_data: &Option<Vec<u8>>,
) -> (r: Result<TokenAccountBalance, InspectError>)
    ensures
        r is Err <==> (metadata matches Some(d) && !mpl_metadata_accepts(d@)),
        r matches Err(e) ==> e == InspectError::Malformed,
        r matches Ok(b) ==> b.key == balance.key && b.balance == balance.balance && b.mint
            == balance.mint && b.program == balance.program && symbol_view(b.symbol)
            == spec_aggregated_symbol(*metadata, *mint_data),
{
    let symbol: Option<String> = match metadata {
        Option::Some(d) => {
            match crate::metadata::mpl_metadata_symbol(d) {
                Option::Some(s) => Option::Some(s),
                Option::None => {
                    return Err(InspectError::Malformed);
                },
            }
        },
        Option::None => {
            match mint_data {
                Option::Some(md) => crate::token::mint_inline_metadata_symbol(md),
                Option::None => Option::None,
            }
        },
    };
    Ok(TokenAccountBalance { symbol, ..balance })
}

/// The bounded fan-out of concurrent metadata fetches: at most ten may be
/// in flight at once. The surrounding runtime performs the fetches; this
/// state records launches and completions and says when one more may start.
pub struct FetchPool {
    /// Fetches handed out so far.
    pub started: usize,
    /// Fetches that have completed.
    pub finished: usize,
    /// Fetches to perform in all.
    pub total: usize,
}

impl FetchPool {
    /// The pool counts stay consistent and the in-flight count bounded.
    pub open spec fn wf(&self) -> bool {
        self.finished <= self.started <= self.total && self.started - self.finished <= 10
    }

    /// How many fetches are in flight.
    pub open spec fn spec_in_flight(&self) -> int {
        self.started - self.finished
    }

    /// A pool for `total` fetches, none launched yet.
    pub fn new(total: usize) -> (r: FetchPool)
        ensures
            r.wf(),
            r.total == total,
            r.started == 0,
            r.finished == 0,
    {
        FetchPool { started: 0, finished: 0, total }
    }

    /// Whether one more fetch may be launched now: work remains and fewer
    /// than ten are in flight.
    pub fn may_start(&self) -> (r: bool)
        requires
            self.wf(),
        ensures
            r == (self.started < self.total && self.spec_in_flight() < 10),
    {
        self.started < self.total && self.started - self.finished < 10
    }

    /// Records one launched fetch.
    pub fn start_fetch(&mut self)
        requires
            old(self).wf(),
            old(self).started < old(self).total,
            old(self).spec_in_flight() < 10,
        ensures
            final(self).wf(),
            final(self).started == old(self).started + 1,
            final(self).finished == old(self).finished,
            final(self).total == old(self).total,
    {
        self.started = self.started + 1;
    }

    /// Records one completed fetch.
    pub fn finish_fetch(&mut self)
        requires
            old(self).wf(),
            old(self).finished < old(self).started,
        ensures
            final(self).wf(),
            final(self).finished == old(self).finished + 1,
            final(self).started == old(self).started,
            final(self).total == old(self).total,
    {
        self.finished = self.finished + 1;
    }

    /// Whether every fetch has completed.
    pub fn all_done(&self) -> (r: bool)
        requires
            self.wf(),
        ensures
            r == (self.finished == self.total),
    {
        self.finished == self.total
    }
}

/// Law: a well-formed pool never has more than ten fetches in flight, so
/// the aggregator's fan-out is bounded throughout.
pub proof fn lemma_fetch_pool_bounded(p: FetchPool)
    requires
        p.wf(),
    ensures
        p.spec_in_flight() <= 10,
{
}

} // verus!
