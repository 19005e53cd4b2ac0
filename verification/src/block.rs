//! Block aggregation: the fee-reward summary, vote/non-vote tallies,
//! compute-unit totals, per-program invocation counts, and the bounded
//! retry scan over a slot range.

use vstd::prelude::*;

use crate::message::ParsedMessage;
use crate::Address;
use crate::InspectError;

verus! {

/// The type tag of one reward entry of a fetched block.
#[derive(Clone, Copy, Debug, PartialEq, Eq, Structural)]
pub enum RewardKind {
    Fee,
    Rent,
    Staking,
    Voting,
    /// The node reported no type for the entry.
    Unknown,
}

/// One reward entry of a fetched block, as plain values.
pub struct RewardInfo {
    /// The recipient's address, base58.
    pub pubkey: String,
    /// The reward amount, in lamports.
    pub lamports: i64,
    /// What the reward was paid for.
    pub kind: RewardKind,
}

/// The first fee-type entry of the reward list, which names the slot leader
/// and the fee income.
pub open spec fn first_fee(s: Seq<RewardInfo>) -> Option<RewardInfo>
    decreases s.len(),
{
    if s.len() == 0 {
        Option::<RewardInfo>::None
    } else if s[0].kind == RewardKind::Fee {
        Option::Some(s[0])
    } else {
        first_fee(s.skip(1))
    }
}

/// The leader and fee summary of a block.
pub struct ParsedBlock {
    /// The slot leader: the fee reward's recipient.
    pub leader: String,
    /// The fee reward's whole-unit part.
    pub rewards: i64,
    /// The fee reward's fractional part, in lamports.
    pub rewards_sub: i64,
}

impl ParsedBlock {
    /// Summarizes a block's reward list: the first fee-type entry names the
    /// leader, and its lamports split into whole and fractional units.
    /// Yields nothing when the list holds no fee entry, which a well-formed
    /// block always does.
    pub fn new(rewards: &Vec<RewardInfo>) -> (r: Option<ParsedBlock>)
        ensures
            r is Some <==> first_fee(rewards@) is Some,
            r matches Some(p) ==> (first_fee(rewards@) matches Some(w) && p.leader == w.pubkey
                && p.rewards * 1_000_000_000 + p.rewards_sub == w.lamports && (w.lamports >= 0
                ==> p.rewards >= 0 && 0 <= p.rewards_sub < 1_000_000_000) && (w.lamports < 0
                ==> p.rewards <= 0 && -1_000_000_000 < p.rewards_sub <= 0)),
    {
        let mut i: usize = 0;
        assert(rewards@.skip(0) =~= rewards@);
        while i < rewards.len()
            invariant
                i <= rewards@.len(),
                first_fee(rewards@) == first_fee(rewards@.skip(i as int)),
                forall|j: int| 0 <= j < i ==> rewards@[j].kind != RewardKind::Fee,
            decreases rewards@.len() - i,
        {
            assert(rewards@.skip(i as int)[0] == rewards@[i as int]);
            if rewards[i].kind == RewardKind::Fee {
                let w = &rewards[i];
                let lam = w.lamports;
                let whole: i64;
                let sub: i64;
                if lam >= 0 {
                    let a = lam as u64;
                    whole = (a / 1_000_000_000) as i64;
                    sub = (a % 1_000_000_000) as i64;
                } else {
                    let a = (-(lam as i128)) as u64;
                    assert(a == -(lam as int));
                    whole = -((a / 1_000_000_000) as i64);
                    sub = -((a % 1_000_000_000) as i64);
                }
                return Option::Some(
                    ParsedBlock { leader: w.pubkey.clone(), rewards: whole, rewards_sub: sub },
                );
            }
            assert(rewards@.skip(i as int).skip(1) =~= rewards@.skip(i + 1));
            i += 1;
        }
        assert(rewards@.skip(rewards@.len() as int).len() == 0);
        Option::None
    }
}

/// A transaction is a vote exactly when it carries a single instruction
/// whose target program is the vote program.
pub open spec fn is_vote_tx(m: ParsedMessage, vote_program: Address) -> bool {
    m.spec_instructions().len() == 1 && m.spec_static_keys()[m.spec_instructions()[0].program_id_index as int]
        == vote_program
}

/// How many of the messages are vote transactions.
pub open spec fn vote_count(msgs: Seq<ParsedMessage>, vote_program: Address) -> int
    decreases msgs.len(),
{
    if msgs.len() == 0 {
        0
    } else {
        vote_count(msgs.drop_last(), vote_program) + if is_vote_tx(msgs.last(), vote_program) {
            1int
        } else {
            0int
        }
    }
}

/// The summed compute units of the transactions whose meta reported them.
pub open spec fn cu_sum(cus: Seq<Option<u64>>) -> int
    decreases cus.len(),
{
    if cus.len() == 0 {
        0
    } else {
        cu_sum(cus.drop_last()) + (match cus.last() {
            Option::Some(c) => c as int,
            Option::None => 0int,
        })
    }
}

/// The instruction targets of one message, in instruction order.
pub open spec fn targets_of(m: ParsedMessage) -> Seq<Address> {
    m.spec_instructions().map_values(
        |ix: crate::message::CompiledIx| m.spec_static_keys()[ix.program_id_index as int],
    )
}

/// The instruction targets of all messages, in block order.
pub open spec fn all_targets(msgs: Seq<ParsedMessage>) -> Seq<Address>
    decreases msgs.len(),
{
    if msgs.len() == 0 {
        Seq::<Address>::empty()
    } else {
        all_targets(msgs.drop_last()) + targets_of(msgs.last())
    }
}

/// How often `p` occurs in `s`.
pub open spec fn occurrences(s: Seq<Address>, p: Address) -> int
    decreases s.len(),
{
    if s.len() == 0 {
        0
    } else {
        occurrences(s.drop_last(), p) + if s.last() == p {
            1int
        } else {
            0int
        }
    }
}

/// The count recorded for `p` in the association list, at its first entry.
pub open spec fn count_of(s: Seq<(Address, u64)>, p: Address) -> Option<u64>
    decreases s.len(),
{
    if s.len() == 0 {
        Option::<u64>::None
    } else if s[0].0 == p {
        Option::Some(s[0].1)
    } else {
        count_of(s.skip(1), p)
    }
}

/// The association list holds each program at most once.
pub open spec fn distinct_keys(s: Seq<(Address, u64)>) -> bool {
    forall|i: int, j: int| 0 <= i < j < s.len() ==> s[i].0 != s[j].0
}

/// Law: occurrences never exceed the stream's length.
proof fn lemma_occurrences_le_len(s: Seq<Address>, p: Address)
    ensures
        0 <= occurrences(s, p) <= s.len(),
    decreases s.len(),
{
    if s.len() > 0 {
        lemma_occurrences_le_len(s.drop_last(), p);
    }
}

/// Appending one target raises its own count by one and no other.
proof fn lemma_occurrences_push(s: Seq<Address>, x: Address, p: Address)
    ensures
        occurrences(s.push(x), p) == occurrences(s, p) + if x == p {
            1int
        } else {
            0int
        },
{
    assert(s.push(x).drop_last() =~= s);
    assert(s.push(x).last() == x);
}

/// Looks up a program's entry position in the tally.
fn find_program(counts: &Vec<(Address, u64)>, p: &Address) -> (r: Option<usize>)
    ensures
        r matches Some(j) ==> j < counts@.len() && counts@[j as int].0 == *p && (forall|k: int|
            0 <= k < j ==> counts@[k].0 != *p),
        r is None ==> forall|k: int| 0 <= k < counts@.len() ==> counts@[k].0 != *p,
{
    let mut j: usize = 0;
    while j < counts.len()
        invariant
            j <= counts@.len(),
            forall|k: int| 0 <= k < j ==> counts@[k].0 != *p,
        decreases counts@.len() - j,
    {
        if crate::address_eq(&counts[j].0, p) {
            return Option::Some(j);
        }
        j += 1;
    }
    Option::None
}

/// `count_of` reads exactly the first matching entry.
proof fn lemma_count_of_at(s: Seq<(Address, u64)>, p: Address, j: int)
    requires
        0 <= j < s.len(),
        s[j].0 == p,
        forall|k: int| 0 <= k < j ==> s[k].0 != p,
    ensures
        count_of(s, p) == Option::Some(s[j].1),
    decreases j,
{
    if j > 0 {
        lemma_count_of_at(s.skip(1), p, j - 1);
    }
}

/// `count_of` finds nothing when no entry matches.
proof fn lemma_count_of_absent(s: Seq<(Address, u64)>, p: Address)
    requires
        forall|k: int| 0 <= k < s.len() ==> s[k].0 != p,
    ensures
        count_of(s, p) is None,
    decreases s.len(),
{
    if s.len() > 0 {
        lemma_count_of_absent(s.skip(1), p);
    }
}

/// An update at position `j` changes only that key's reading.
proof fn lemma_count_of_update(s: Seq<(Address, u64)>, j: int, c: u64, p: Address)
    requires
        0 <= j < s.len(),
    ensures
        s[j].0 == p && (forall|k: int| 0 <= k < j ==> s[k].0 != p) ==> count_of(
            s.update(j, (s[j].0, c)),
            p,
        ) == Option::Some(c),
        p != s[j].0 ==> count_of(s.update(j, (s[j].0, c)), p) == count_of(s, p),
    decreases s.len(),
{
    let t = s.update(j, (s[j].0, c));
    if s[j].0 == p && (forall|k: int| 0 <= k < j ==> s[k].0 != p) {
        assert(t[j].0 == p);
        assert(forall|k: int| 0 <= k < j ==> t[k] == s[k]);
        lemma_count_of_at(t, p, j);
    }
    if p != s[j].0 {
        if s.len() > 0 {
            if j == 0 {
                assert(t.skip(1) =~= s.skip(1));
            } else {
                assert(t[0] == s[0]);
                if s[0].0 != p {
                    assert(t.skip(1) =~= s.skip(1).update(j - 1, (s.skip(1)[j - 1].0, c)));
                    lemma_count_of_update(s.skip(1), j - 1, c, p);
                }
            }
        }
    }
}

/// A pushed entry is read only for its own key.
proof fn lemma_count_of_push(s: Seq<(Address, u64)>, x: (Address, u64), p: Address)
    ensures
        (forall|k: int| 0 <= k < s.len() ==> s[k].0 != x.0) && p == x.0 ==> count_of(
            s.push(x),
            p,
        ) == Option::Some(x.1),
        p != x.0 ==> count_of(s.push(x), p) == count_of(s, p),
    decreases s.len(),
{
    let t = s.push(x);
    if (forall|k: int| 0 <= k < s.len() ==> s[k].0 != x.0) && p == x.0 {
        lemma_count_of_at(t, p, s.len() as int);
    }
    if p != x.0 {
        if s.len() == 0 {
            assert(t[0] == x);
            assert(t.skip(1) =~= Seq::<(Address, u64)>::empty());
        } else {
            assert(t[0] == s[0]);
            assert(t.skip(1) =~= s.skip(1).push(x));
            lemma_count_of_push(s.skip(1), x, p);
        }
    }
}

/// The tally agrees with the occurrence counts of the target stream.
pub open spec fn tally_matches(counts: Seq<(Address, u64)>, stream: Seq<Address>) -> bool {
    &&& distinct_keys(counts)
    &&& forall|p: Address|
        #[trigger] count_of(counts, p) == (if occurrences(stream, p) > 0 {
            Option::Some(occurrences(stream, p) as u64)
        } else {
            Option::<u64>::None
        })
}

/// Tallies how often each program is the target of a top-level instruction
/// across the stream, each program listed once with its count.
fn tally_stream(stream: &Vec<Address>) -> (r: Vec<(Address, u64)>)
    ensures
        tally_matches(r@, stream@),
{
    let mut counts: Vec<(Address, u64)> = Vec::new();
    let mut i: usize = 0;
    assert(stream@.take(0) =~= Seq::<Address>::empty());
    while i < stream.len()
        invariant
            i <= stream@.len(),
            tally_matches(counts@, stream@.take(i as int)),
        decreases stream@.len() - i,
    {
        let p = stream[i];
        let ghost pre = counts@;
        let ghost prefix = stream@.take(i as int);
        proof {
            lemma_occurrences_le_len(prefix, p);
        }
        match find_program(&counts, &p) {
            Option::Some(j) => {
                proof {
                    lemma_count_of_at(pre, p, j as int);
                }
                let c = counts[j].1;
                assert(c == occurrences(prefix, p));
                assert(c < u64::MAX) by {
                    lemma_occurrences_le_len(prefix, p);
                }
                counts[j] = (p, c + 1);
                proof {
                    assert(counts@ =~= pre.update(j as int, (pre[j as int].0, (c + 1) as u64)));
                    assert forall|q: Address| #[trigger] count_of(counts@, q) == (if occurrences(
                        prefix.push(p),
                        q,
                    ) > 0 {
                        Option::Some(occurrences(prefix.push(p), q) as u64)
                    } else {
                        Option::<u64>::None
                    }) by {
                        lemma_occurrences_push(prefix, p, q);
                        lemma_count_of_update(pre, j as int, (c + 1) as u64, q);
                    }
                }
            },
            Option::None => {
                proof {
                    lemma_count_of_absent(pre, p);
                }
                counts.push((p, 1));
                proof {
                    assert(counts@ =~= pre.push((p, 1)));
                    assert forall|q: Address| #[trigger] count_of(counts@, q) == (if occurrences(
                        prefix.push(p),
                        q,
                    ) > 0 {
                        Option::Some(occurrences(prefix.push(p), q) as u64)
                    } else {
                        Option::<u64>::None
                    }) by {
                        lemma_occurrences_push(prefix, p, q);
                        lemma_count_of_push(pre, (p, 1), q);
                    }
                    assert(distinct_keys(counts@)) by {
                        assert(forall|k: int|
                            0 <= k < pre.len() ==> #[trigger] pre[k].0 != p);
                    }
                }
            },
        }
        proof {
            assert(stream@.take(i + 1) =~= prefix.push(stream@[i as int]));
        }
        i += 1;
    }
    assert(stream@.take(stream@.len() as int) =~= stream@);
    counts
}

/// Flattens the instruction targets of every message, in block order.
fn collect_targets(msgs: &Vec<ParsedMessage>) -> (r: Vec<Address>)
    requires
        forall|i: int| 0 <= i < msgs@.len() ==> (#[trigger] msgs@[i]).spec_instructions_wf(),
    ensures
        r@ == all_targets(msgs@),
{
    let mut r: Vec<Address> = Vec::new();
    let mut i: usize = 0;
    assert(all_targets(msgs@.take(0)) =~= Seq::<Address>::empty());
    while i < msgs.len()
        invariant
            i <= msgs@.len(),
            forall|k: int| 0 <= k < msgs@.len() ==> (#[trigger] msgs@[k]).spec_instructions_wf(),
            r@ == all_targets(msgs@.take(i as int)),
        decreases msgs@.len() - i,
    {
        let m = &msgs[i];
        let ghost base = r@;
        let (keys, ixs): (&Vec<Address>, &Vec<crate::message::CompiledIx>) = match m {
            ParsedMessage::Legacy(d) => (&d.account_keys, &d.instructions),
            ParsedMessage::V0(d) => (&d.account_keys, &d.instructions),
        };
        let mut j: usize = 0;
        while j < ixs.len()
            invariant
                j <= ixs@.len(),
                ixs@ == m.spec_instructions(),
                keys@ == m.spec_static_keys(),
                m.spec_instructions_wf(),
                m == msgs@[i as int],
                i < msgs@.len(),
                r@ == base + targets_of(*m).take(j as int),
            decreases ixs@.len() - j,
        {
            assert(ixs@[j as int].program_id_index < keys@.len());
            r.push(keys[ixs[j].program_id_index as usize]);
            assert(targets_of(*m).take(j + 1) =~= targets_of(*m).take(j as int) + seq![
                targets_of(*m)[j as int],
            ]);
            j += 1;
        }
        proof {
            assert(targets_of(*m).take(ixs@.len() as int) =~= targets_of(*m));
            assert(msgs@.take(i + 1).drop_last() =~= msgs@.take(i as int));
            assert(msgs@.take(i + 1).last() == msgs@[i as int]);
        }
        i += 1;
    }
    assert(msgs@.take(msgs@.len() as int) =~= msgs@);
    r
}

/// The aggregated statistics of one block's transactions.
pub struct BlockStats {
    /// Transactions classified as consensus votes.
    pub vote: u64,
    /// All other transactions.
    pub nonvote: u64,
    /// Total compute units consumed.
    pub compute_units: u128,
    /// Per-program top-level invocation counts; empty unless requested.
    pub program_invocations: Vec<(Address, u64)>,
}

/// Law: the compute-unit total of any block fits the accumulator.
proof fn lemma_cu_sum_bound(cus: Seq<Option<u64>>)
    ensures
        0 <= cu_sum(cus) <= cus.len() * (u64::MAX as int),
    decreases cus.len(),
{
    if cus.len() > 0 {
        lemma_cu_sum_bound(cus.drop_last());
        assert((cus.len() - 1) * (u64::MAX as int) + (u64::MAX as int) == cus.len() * (
        u64::MAX as int)) by (nonlinear_arith);
    }
}

/// Aggregates one block's transactions: a transaction is a vote exactly
/// when its single instruction targets the vote program; compute units are
/// summed over every transaction's meta, whose absence is a hard failure;
/// per-program invocation counts are tallied only when requested.
pub fn aggregate_block(
    msgs: &Vec<ParsedMessage>,
    cus: &Vec<Option<u64>>,
    vote_program: &Address,
    verbose: bool,
) -> (r: Result<BlockStats, InspectError>)
    requires
        msgs@.len() == cus@.len(),
        forall|i: int| 0 <= i < msgs@.len() ==> (#[trigger] msgs@[i]).spec_instructions_wf(),
    ensures
        r is Ok <==> (forall|i: int| 0 <= i < cus@.len() ==> (#[trigger] cus@[i]) is Some),
        r matches Err(e) ==> e == InspectError::Malformed,
        r matches Ok(s) ==> {
            &&& s.vote == vote_count(msgs@, *vote_program)
            &&& s.nonvote == msgs@.len() - vote_count(msgs@, *vote_program)
            &&& s.compute_units == cu_sum(cus@)
            &&& (verbose ==> tally_matches(s.program_invocations@, all_targets(msgs@)))
            &&& (!verbose ==> s.program_invocations@.len() == 0)
        },
{
    let n = msgs.len();
    let mut vote: u64 = 0;
    let mut compute_units: u128 = 0;
    let mut i: usize = 0;
    while i < n
        invariant
            i <= n,
            n == msgs@.len() == cus@.len(),
            forall|k: int| 0 <= k < msgs@.len() ==> (#[trigger] msgs@[k]).spec_instructions_wf(),
            vote == vote_count(msgs@.take(i as int), *vote_program),
            vote <= i,
            compute_units == cu_sum(cus@.take(i as int)),
            forall|k: int| 0 <= k < i ==> (#[trigger] cus@[k]) is Some,
        decreases n - i,
    {
        let m = &msgs[i];
        let (keys, ixs): (&Vec<Address>, &Vec<crate::message::CompiledIx>) = match m {
            ParsedMessage::Legacy(d) => (&d.account_keys, &d.instructions),
            ParsedMessage::V0(d) => (&d.account_keys, &d.instructions),
        };
        let is_vote: bool;
        if ixs.len() == 1 {
            proof {
                assert(msgs@[i as int].spec_instructions_wf());
                assert(m.spec_instructions()[0].program_id_index
                    < m.spec_static_keys().len());
            }
            is_vote = crate::address_eq(&keys[ixs[0].program_id_index as usize], vote_program);
        } else {
            is_vote = false;
        }
        assert(is_vote == is_vote_tx(msgs@[i as int], *vote_program));
        if is_vote {
            vote = vote + 1;
        }
        let c = match &cus[i] {
            Option::Some(c) => *c,
            Option::None => {
                return Err(InspectError::Malformed);
            },
        };
        proof {
            lemma_cu_sum_bound(cus@.take(i as int));
            assert(cus@.take(i as int).len() * (u64::MAX as int) <= (n - 1) * (u64::MAX as int))
                by (nonlinear_arith)
                requires
                    cus@.take(i as int).len() <= n - 1,
                    n >= 1,
            ;
            assert((n - 1) * (u64::MAX as int) + (u64::MAX as int) <= u128::MAX as int)
                by (nonlinear_arith)
                requires
                    n <= usize::MAX,
            ;
        }
        compute_units = compute_units + c as u128;
        proof {
            assert(msgs@.take(i + 1).drop_last() =~= msgs@.take(i as int));
            assert(msgs@.take(i + 1).last() == msgs@[i as int]);
            assert(cus@.take(i + 1).drop_last() =~= cus@.take(i as int));
            assert(cus@.take(i + 1).last() == cus@[i as int]);
        }
        i += 1;
    }
    proof {
        assert(msgs@.take(n as int) =~= msgs@);
        assert(cus@.take(n as int) =~= cus@);
    }
    let program_invocations: Vec<(Address, u64)> = if verbose {
        let stream = collect_targets(msgs);
        tally_stream(&stream)
    } else {
        Vec::new()
    };
    assert(vote_count(msgs@, *vote_program) <= msgs@.len()) by {
        lemma_vote_count_le_len(msgs@, *vote_program);
    }
    Ok(
        BlockStats {
            vote,
            nonvote: (n as u64) - vote,
            compute_units,
            program_invocations,
        },
    )
}

/// Law: vote transactions never outnumber the transactions.
proof fn lemma_vote_count_le_len(msgs: Seq<ParsedMessage>, vp: Address)
    ensures
        0 <= vote_count(msgs, vp) <= msgs.len(),
    decreases msgs.len(),
{
    if msgs.len() > 0 {
        lemma_vote_count_le_len(msgs.drop_last(), vp);
    }
}

/// A requested block inspection: the slot range to scan and whether the
/// per-program invocation table is wanted.
pub struct Block {
    /// The first slot of the range.
    pub start: u64,
    /// The last slot, when a range was requested; the single slot otherwise.
    pub end: Option<u64>,
    /// Whether to tally per-program invocation counts.
    pub verbose: bool,
}

impl Block {
    /// The scan over the requested range; a missing end means the single
    /// starting slot.
    pub fn scan(&self) -> (r: BlockScan)
        ensures
            r.wf(),
            r.end == (match self.end {
                Option::Some(e) => e,
                Option::None => self.start,
            }),
            r.finished == (self.start > r.end),
            !r.finished ==> r.slot == self.start && r.attempt == 1,
    {
        let end = match self.end {
            Option::Some(e) => e,
            Option::None => self.start,
        };
        BlockScan::new(self.start, end)
    }
}

/// The scan over a requested slot range: each slot is fetched with up to
/// five attempts; after the fifth consecutive failure the slot is skipped
/// and the scan moves on, so one bad slot never ends the range.
pub struct BlockScan {
    /// The slot currently being fetched.
    pub slot: u64,
    /// The last slot of the requested range.
    pub end: u64,
    /// Which attempt at the current slot comes next, starting at one.
    pub attempt: u8,
    /// Whether the range is exhausted.
    pub finished: bool,
}

impl BlockScan {
    /// Attempts stay within one to five and the slot within range.
    pub open spec fn wf(&self) -> bool {
        1 <= self.attempt <= 5 && (!self.finished ==> self.slot <= self.end)
    }

    /// A scan over `start..=end`; an empty range is finished at once.
    pub fn new(start: u64, end: u64) -> (r: BlockScan)
        ensures
            r.wf(),
            r.finished == (start > end),
            !r.finished ==> r.slot == start && r.attempt == 1,
            r.end == end,
    {
        BlockScan { slot: start, end, attempt: 1, finished: start > end }
    }

    /// The slot to fetch next, while any remains.
    pub fn current_slot(&self) -> (r: Option<u64>)
        requires
            self.wf(),
        ensures
            r == if self.finished {
                Option::<u64>::None
            } else {
                Option::Some(self.slot)
            },
    {
        if self.finished {
            Option::None
        } else {
            Option::Some(self.slot)
        }
    }

    /// Moves to the next slot after the current one was fetched and shown.
    pub fn on_fetch_success(&mut self)
        requires
            old(self).wf(),
            !old(self).finished,
        ensures
            final(self).wf(),
            final(self).end == old(self).end,
            old(self).slot == old(self).end ==> final(self).finished,
            old(self).slot < old(self).end ==> !final(self).finished && final(self).slot == old(
                self,
            ).slot + 1 && final(self).attempt == 1,
    {
        if self.slot == self.end {
            self.finished = true;
        } else {
            self.slot = self.slot + 1;
            self.attempt = 1;
        }
    }

    /// Records one failed fetch of the current slot: the first four
    /// failures retry the same slot; the fifth gives the slot up and moves
    /// to the next in range. Returns whether the slot was skipped.
    pub fn on_fetch_failure(&mut self) -> (skipped: bool)
        requires
            old(self).wf(),
            !old(self).finished,
        ensures
            final(self).wf(),
            final(self).end == old(self).end,
            old(self).attempt < 5 ==> !skipped && !final(self).finished && final(self).slot
                == old(self).slot && final(self).attempt == old(self).attempt + 1,
            old(self).attempt == 5 ==> skipped && (if old(self).slot == old(self).end {
                final(self).finished
            } else {
                !final(self).finished && final(self).slot == old(self).slot + 1
                    && final(self).attempt == 1
            }),
    {
        if self.attempt < 5 {
            self.attempt = self.attempt + 1;
            false
        } else {
            if self.slot == self.end {
                self.finished = true;
            } else {
                self.slot = self.slot + 1;
                self.attempt = 1;
            }
            true
        }
    }
}

} // verus!
