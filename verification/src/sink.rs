//! The batch sink: accumulates parent rows with first-write-wins key
//! deduplication and child rows in arrival order, and models how commits
//! and flushes move rows towards the bulk writer.
//!
//! The executable part is [`DedupRows`].  The ghost part is a transition
//! system over [`SinkOp`]: every parser proves that its sink fields follow
//! [`sink_run`] over the operations its state machine emitted, and the
//! lemmas here state the batching laws once, for all four entity families.

use vstd::prelude::*;
use vstd::hash_set::HashSetWithView;

verus! {

broadcast use vstd::std_specs::hash::group_hash_axioms;

/// Parent rows of one accumulating batch, deduplicated by primary key:
/// a row whose key was already committed in this batch is dropped.
pub struct DedupRows<R> {
    rows: Vec<R>,
    seen: HashSetWithView<i32>,
}

impl<R: View> DedupRows<R> {
    /// The accepted rows of the current batch, in first-seen order.
    pub closed spec fn rows_view(&self) -> Seq<R::V> {
        self.rows@.map_values(|r: R| r@)
    }

    /// The primary keys committed in the current batch.
    pub closed spec fn keys(&self) -> Set<i32> {
        self.seen@
    }

    /// An empty batch.
    pub fn new() -> (r: Self)
        ensures
            r.rows_view() == Seq::<R::V>::empty(),
            r.keys() == Set::<i32>::empty(),
    {
        let r = DedupRows { rows: Vec::new(), seen: HashSetWithView::new() };
        proof {
            assert(r.rows_view() =~= Seq::<R::V>::empty());
        }
        r
    }

    /// How many rows the current batch holds.
    pub fn len(&self) -> (n: usize)
        ensures
            n == self.rows_view().len(),
    {
        self.rows.len()
    }

    /// Commits a row under its primary key: kept only if the key is new.
    pub fn commit(&mut self, k: i32, r: R) -> (added: bool)
        ensures
            added == !old(self).keys().contains(k),
            added ==> final(self).rows_view() == old(self).rows_view().push(r@),
            added ==> final(self).keys() == old(self).keys().insert(k),
            !added ==> final(self).rows_view() == old(self).rows_view(),
            !added ==> final(self).keys() == old(self).keys(),
    {
        if self.seen.contains(&k) {
            false
        } else {
            self.seen.insert(k);
            self.rows.push(r);
            proof {
                assert(self.rows_view() =~= old(self).rows_view().push(r@));
            }
            true
        }
    }

    /// Hands out the accepted rows of the batch, in order, and resets.
    pub fn take(&mut self) -> (out: Vec<R>)
        ensures
            out@.map_values(|r: R| r@) == old(self).rows_view(),
            final(self).rows_view() == Seq::<R::V>::empty(),
            final(self).keys() == Set::<i32>::empty(),
    {
        let mut out: Vec<R> = Vec::new();
        core::mem::swap(&mut out, &mut self.rows);
        self.seen.clear();
        proof {
            assert(self.rows_view() =~= Seq::<R::V>::empty());
        }
        out
    }
}

/// One sink operation that a parser's state machine emits: a parent record
/// commit, a child row commit, or the family-end flush.
pub ghost enum SinkOp<P, C> {
    Parent(P),
    Child(C),
    Close,
}

/// The sink's ghost state: what was committed, what the current batch
/// holds, and what already went out to the bulk writer.
pub ghost struct SinkState<P, C> {
    /// Every parent record ever committed, accepted or not.
    pub committed: Seq<P>,
    /// The parent records committed since the last flush.
    pub batch: Seq<P>,
    /// The accepted, not yet flushed parent rows, in first-seen order.
    pub pending: Seq<P>,
    /// Every parent row handed to the bulk writer, in flush order.
    pub flushed: Seq<P>,
    /// Every parent row the sink accepted, over all batches.
    pub accepted: Seq<P>,
    /// The child rows committed since the last flush.
    pub kids_pending: Seq<C>,
    /// Every child row handed to the bulk writer.
    pub kids_flushed: Seq<C>,
    /// Every child row ever committed.
    pub kids_committed: Seq<C>,
}

/// The sink state before anything was committed.
pub open spec fn sink_init<P, C>() -> SinkState<P, C> {
    SinkState {
        committed: Seq::empty(),
        batch: Seq::empty(),
        pending: Seq::empty(),
        flushed: Seq::empty(),
        accepted: Seq::empty(),
        kids_pending: Seq::empty(),
        kids_flushed: Seq::empty(),
        kids_committed: Seq::empty(),
    }
}

/// Whether some record of `s` has primary key `k`.
pub open spec fn has_key<P>(s: Seq<P>, key: spec_fn(P) -> i32, k: i32) -> bool {
    exists|i: int| 0 <= i < s.len() && key(#[trigger] s[i]) == k
}

/// First-write-wins deduplication: of the records sharing a key, only the
/// first stays, and first-seen order is kept.
pub open spec fn dedup_first<P>(s: Seq<P>, key: spec_fn(P) -> i32) -> Seq<P>
    decreases s.len(),
{
    if s.len() == 0 {
        Seq::empty()
    } else {
        let d = dedup_first(s.drop_last(), key);
        if has_key(s.drop_last(), key, key(s.last())) {
            d
        } else {
            d.push(s.last())
        }
    }
}

/// A flush: every pending row moves out to the writer and the batch resets.
pub open spec fn sink_flush<P, C>(s: SinkState<P, C>) -> SinkState<P, C> {
    SinkState {
        committed: s.committed,
        batch: Seq::empty(),
        pending: Seq::empty(),
        flushed: s.flushed + s.pending,
        accepted: s.accepted,
        kids_pending: Seq::empty(),
        kids_flushed: s.kids_flushed + s.kids_pending,
        kids_committed: s.kids_committed,
    }
}

/// A parent commit: kept only if its key is new in the current batch.
pub open spec fn sink_parent<P, C>(s: SinkState<P, C>, key: spec_fn(P) -> i32, p: P) -> SinkState<
    P,
    C,
> {
    if has_key(s.batch, key, key(p)) {
        SinkState { committed: s.committed.push(p), batch: s.batch.push(p), ..s }
    } else {
        SinkState {
            committed: s.committed.push(p),
            batch: s.batch.push(p),
            pending: s.pending.push(p),
            accepted: s.accepted.push(p),
            ..s
        }
    }
}

/// A child commit: child rows are never deduplicated.
pub open spec fn sink_child<P, C>(s: SinkState<P, C>, c: C) -> SinkState<P, C> {
    SinkState { kids_pending: s.kids_pending.push(c), kids_committed: s.kids_committed.push(c), ..s }
}

/// One sink operation under batch threshold `b`: a parent commit flushes as
/// soon as the pending count reaches `b`; the family end always flushes.
pub open spec fn sink_step<P, C>(
    s: SinkState<P, C>,
    op: SinkOp<P, C>,
    key: spec_fn(P) -> i32,
    b: nat,
) -> SinkState<P, C> {
    match op {
        SinkOp::Parent(p) => {
            let s1 = sink_parent(s, key, p);
            if s1.pending.len() >= b {
                sink_flush(s1)
            } else {
                s1
            }
        },
        SinkOp::Child(c) => sink_child(s, c),
        SinkOp::Close => sink_flush(s),
    }
}

/// The sink state after a sequence of operations.
pub open spec fn sink_run<P, C>(
    ops: Seq<SinkOp<P, C>>,
    key: spec_fn(P) -> i32,
    b: nat,
) -> SinkState<P, C>
    decreases ops.len(),
{
    if ops.len() == 0 {
        sink_init()
    } else {
        sink_step(sink_run(ops.drop_last(), key, b), ops.last(), key, b)
    }
}

/// Appending one operation advances the sink by one step.
pub proof fn lemma_sink_run_snoc<P, C>(
    ops: Seq<SinkOp<P, C>>,
    op: SinkOp<P, C>,
    key: spec_fn(P) -> i32,
    b: nat,
)
    ensures
        sink_run(ops.push(op), key, b) == sink_step(sink_run(ops, key, b), op, key, b),
{
    assert(ops.push(op).drop_last() =~= ops);
}

/// The primary keys of a batch's commits.
pub open spec fn batch_keys<P>(s: Seq<P>, key: spec_fn(P) -> i32) -> Set<i32> {
    Set::new(|k: i32| has_key(s, key, k))
}

/// No batch commits, no keys.
pub proof fn lemma_batch_keys_empty<P>(key: spec_fn(P) -> i32)
    ensures
        batch_keys(Seq::<P>::empty(), key) == Set::<i32>::empty(),
{
    assert(batch_keys(Seq::<P>::empty(), key) =~= Set::<i32>::empty());
}

/// Committing one more record adds exactly its key.
pub proof fn lemma_batch_keys_push<P>(s: Seq<P>, key: spec_fn(P) -> i32, p: P)
    ensures
        batch_keys(s.push(p), key) == batch_keys(s, key).insert(key(p)),
{
    assert forall|k: i32|
        batch_keys(s.push(p), key).contains(k) == batch_keys(s, key).insert(key(p)).contains(
            k,
        ) by {
        if has_key(s.push(p), key, k) {
            let i = choose|i: int| 0 <= i < s.push(p).len() && key(s.push(p)[i]) == k;
            if i < s.len() {
                assert(key(s[i]) == k);
            }
        }
        if has_key(s, key, k) {
            let i = choose|i: int| 0 <= i < s.len() && key(s[i]) == k;
            assert(key(s.push(p)[i]) == k);
        }
        if key(p) == k {
            assert(key(s.push(p)[s.len() as int]) == k);
        }
    }
    assert(batch_keys(s.push(p), key) =~= batch_keys(s, key).insert(key(p)));
}

/// Every parent record an operation sequence commits, in commit order.
pub open spec fn committed_of<P, C>(ops: Seq<SinkOp<P, C>>) -> Seq<P>
    decreases ops.len(),
{
    if ops.len() == 0 {
        Seq::empty()
    } else {
        match ops.last() {
            SinkOp::Parent(p) => committed_of(ops.drop_last()).push(p),
            _ => committed_of(ops.drop_last()),
        }
    }
}

/// Every child row an operation sequence commits, in commit order.
pub open spec fn children_of<P, C>(ops: Seq<SinkOp<P, C>>) -> Seq<C>
    decreases ops.len(),
{
    if ops.len() == 0 {
        Seq::empty()
    } else {
        match ops.last() {
            SinkOp::Child(c) => children_of(ops.drop_last()).push(c),
            _ => children_of(ops.drop_last()),
        }
    }
}

/// What a run commits is read off the operations alone; the batch
/// threshold plays no part in it.
pub proof fn lemma_sink_run_committed<P, C>(ops: Seq<SinkOp<P, C>>, key: spec_fn(P) -> i32, b: nat)
    ensures
        sink_run(ops, key, b).committed == committed_of(ops),
        sink_run(ops, key, b).kids_committed == children_of(ops),
    decreases ops.len(),
{
    if ops.len() > 0 {
        lemma_sink_run_committed(ops.drop_last(), key, b);
    }
}

/// Parser purity, sink side: whatever two batch thresholds are used, a run
/// over the same operations commits the same parent records and the same
/// child rows.
pub proof fn lemma_purity<P, C>(ops: Seq<SinkOp<P, C>>, key: spec_fn(P) -> i32, b1: nat, b2: nat)
    ensures
        sink_run(ops, key, b1).committed == sink_run(ops, key, b2).committed,
        sink_run(ops, key, b1).kids_committed == sink_run(ops, key, b2).kids_committed,
{
    lemma_sink_run_committed(ops, key, b1);
    lemma_sink_run_committed(ops, key, b2);
}

/// Batching faithfulness: however the run is cut into batches, the rows
/// that went out plus the rows still pending are exactly the rows the sink
/// accepted, in order, for parents and children alike; and the current
/// batch's pending rows are its commits after first-write-wins
/// deduplication.
pub proof fn lemma_sink_run_faithful<P, C>(ops: Seq<SinkOp<P, C>>, key: spec_fn(P) -> i32, b: nat)
    ensures
        sink_run(ops, key, b).accepted == sink_run(ops, key, b).flushed + sink_run(
            ops,
            key,
            b,
        ).pending,
        sink_run(ops, key, b).kids_committed == sink_run(ops, key, b).kids_flushed + sink_run(
            ops,
            key,
            b,
        ).kids_pending,
        sink_run(ops, key, b).pending == dedup_first(sink_run(ops, key, b).batch, key),
    decreases ops.len(),
{
    let s = sink_run(ops, key, b);
    if ops.len() == 0 {
        assert(s.accepted =~= s.flushed + s.pending);
        assert(s.kids_committed =~= s.kids_flushed + s.kids_pending);
        assert(s.pending =~= dedup_first(s.batch, key));
    } else {
        let prev = sink_run(ops.drop_last(), key, b);
        lemma_sink_run_faithful(ops.drop_last(), key, b);
        match ops.last() {
            SinkOp::Parent(p) => {
                let s1 = sink_parent(prev, key, p);
                assert(s1.batch.drop_last() =~= prev.batch);
                if has_key(prev.batch, key, key(p)) {
                    assert(s1.pending =~= dedup_first(s1.batch, key));
                } else {
                    assert(s1.pending =~= dedup_first(s1.batch, key));
                    assert(s1.accepted =~= s1.flushed + s1.pending);
                }
                if s1.pending.len() >= b {
                    assert(s.flushed =~= s1.flushed + s1.pending);
                    assert(s.accepted =~= s.flushed + s.pending);
                    assert(s.kids_committed =~= s.kids_flushed + s.kids_pending);
                    assert(s.pending =~= dedup_first(s.batch, key));
                }
            },
            SinkOp::Child(c) => {
                assert(s.kids_committed =~= s.kids_flushed + s.kids_pending);
            },
            SinkOp::Close => {
                assert(s.flushed =~= prev.flushed + prev.pending);
                assert(s.accepted =~= s.flushed + s.pending);
                assert(s.kids_committed =~= s.kids_flushed + s.kids_pending);
                assert(s.pending =~= dedup_first(s.batch, key));
            },
        }
    }
}

/// Whether a child committed at position `i` of `ops` is properly scoped:
/// a parent commit with its key follows before any other parent commit or
/// family end.  This is how a record-scoped document commits: children
/// arrive between their record's opening tag and its closing tag, and the
/// closing tag commits the parent.
pub open spec fn child_scope_ok<P, C>(
    ops: Seq<SinkOp<P, C>>,
    key: spec_fn(P) -> i32,
    ckey: spec_fn(C) -> i32,
    i: int,
) -> bool {
    exists|j: int|
        i < j < ops.len() && (#[trigger] ops[j]) is Parent && key(ops[j]->Parent_0) == ckey(
            ops[i]->Child_0,
        ) && (forall|m: int| i < m < j ==> !((#[trigger] ops[m]) is Parent) && !(ops[m] is Close))
}

/// Whether every child commit of `ops` is properly scoped.
pub open spec fn scoped<P, C>(
    ops: Seq<SinkOp<P, C>>,
    key: spec_fn(P) -> i32,
    ckey: spec_fn(C) -> i32,
) -> bool {
    forall|i: int| 0 <= i < ops.len() && (#[trigger] ops[i]) is Child ==> child_scope_ok(
        ops,
        key,
        ckey,
        i,
    )
}

/// Whether child row `c` was committed after the last parent commit or
/// flush among the first `n` operations: its record is still open.
pub open spec fn tail_child<P, C>(ops: Seq<SinkOp<P, C>>, n: int, c: C) -> bool {
    exists|i: int|
        0 <= i < n && (#[trigger] ops[i]) is Child && ops[i]->Child_0 == c && (forall|m: int|
            i < m < n ==> !((#[trigger] ops[m]) is Parent) && !(ops[m] is Close))
}

proof fn lemma_locality_upto<P, C>(
    ops: Seq<SinkOp<P, C>>,
    key: spec_fn(P) -> i32,
    ckey: spec_fn(C) -> i32,
    b: nat,
    n: int,
)
    requires
        scoped(ops, key, ckey),
        0 <= n <= ops.len(),
    ensures
        ({
            let s = sink_run(ops.take(n), key, b);
            &&& forall|idx: int|
                0 <= idx < s.kids_flushed.len() ==> has_key(
                    s.committed,
                    key,
                    ckey(#[trigger] s.kids_flushed[idx]),
                )
            &&& forall|idx: int|
                0 <= idx < s.kids_pending.len() ==> has_key(
                    s.committed,
                    key,
                    ckey(#[trigger] s.kids_pending[idx]),
                ) || tail_child(ops, n, s.kids_pending[idx])
        }),
    decreases n,
{
    if n == 0 {
        assert(ops.take(0) =~= Seq::<SinkOp<P, C>>::empty());
    } else {
        lemma_locality_upto(ops, key, ckey, b, n - 1);
        let pre = ops.take(n - 1);
        let cur = ops.take(n);
        assert(cur.drop_last() =~= pre);
        assert(cur.last() == ops[n - 1]);
        let sp = sink_run(pre, key, b);
        let s = sink_run(cur, key, b);
        match ops[n - 1] {
            SinkOp::Child(c) => {
                // The new child's record is still open at position n.
                assert(tail_child(ops, n, c)) by {
                    assert(ops[n - 1] is Child && ops[n - 1]->Child_0 == c);
                }
                assert forall|idx: int| 0 <= idx < s.kids_pending.len() implies has_key(
                    s.committed,
                    key,
                    ckey(#[trigger] s.kids_pending[idx]),
                ) || tail_child(ops, n, s.kids_pending[idx]) by {
                    if idx < sp.kids_pending.len() {
                        assert(s.kids_pending[idx] == sp.kids_pending[idx]);
                        if tail_child(ops, n - 1, sp.kids_pending[idx]) {
                            let i = choose|i: int|
                                0 <= i < n - 1 && (#[trigger] ops[i]) is Child
                                    && ops[i]->Child_0 == sp.kids_pending[idx] && (forall|m: int|
                                    i < m < n - 1 ==> !((#[trigger] ops[m]) is Parent) && !(
                                    ops[m] is Close));
                            assert(tail_child(ops, n, sp.kids_pending[idx])) by {
                                assert(forall|m: int|
                                    i < m < n ==> !((#[trigger] ops[m]) is Parent) && !(
                                    ops[m] is Close));
                            }
                        }
                    } else {
                        assert(s.kids_pending[idx] == c);
                    }
                }
            },
            SinkOp::Parent(p) => {
                let s1 = sink_parent(sp, key, p);
                // Every open child's scope window closes exactly here, so
                // its parent key is committed now.
                assert forall|idx: int| 0 <= idx < s1.kids_pending.len() implies has_key(
                    s1.committed,
                    key,
                    ckey(#[trigger] s1.kids_pending[idx]),
                ) by {
                    let kid = s1.kids_pending[idx];
                    assert(kid == sp.kids_pending[idx]);
                    if has_key(sp.committed, key, ckey(kid)) {
                        let w = choose|w: int|
                            0 <= w < sp.committed.len() && key(#[trigger] sp.committed[w])
                                == ckey(kid);
                        assert(key(s1.committed[w]) == ckey(kid));
                    } else {
                        assert(tail_child(ops, n - 1, kid));
                        let i = choose|i: int|
                            0 <= i < n - 1 && (#[trigger] ops[i]) is Child && ops[i]->Child_0
                                == kid && (forall|m: int|
                                i < m < n - 1 ==> !((#[trigger] ops[m]) is Parent) && !(
                                ops[m] is Close));
                        assert(child_scope_ok(ops, key, ckey, i));
                        let j = choose|j: int|
                            i < j < ops.len() && (#[trigger] ops[j]) is Parent && key(
                                ops[j]->Parent_0,
                            ) == ckey(ops[i]->Child_0) && (forall|m: int|
                                i < m < j ==> !((#[trigger] ops[m]) is Parent) && !(
                                ops[m] is Close));
                        assert(j == n - 1) by {
                            if j < n - 1 {
                                assert((ops[j]) is Parent);
                            } else if j > n - 1 {
                                assert(!((ops[n - 1]) is Parent));
                            }
                        }
                        assert(key(p) == ckey(kid));
                        assert(key(s1.committed[s1.committed.len() - 1]) == ckey(kid));
                    }
                }
                assert forall|idx: int| 0 <= idx < s1.kids_flushed.len() implies has_key(
                    s1.committed,
                    key,
                    ckey(#[trigger] s1.kids_flushed[idx]),
                ) by {
                    assert(s1.kids_flushed[idx] == sp.kids_flushed[idx]);
                    let w = choose|w: int|
                        0 <= w < sp.committed.len() && key(#[trigger] sp.committed[w]) == ckey(
                            sp.kids_flushed[idx],
                        );
                    assert(key(s1.committed[w]) == ckey(sp.kids_flushed[idx]));
                }
                if s1.pending.len() >= b {
                    // The flush moves fully covered children out.
                    assert forall|idx: int| 0 <= idx < s.kids_flushed.len() implies has_key(
                        s.committed,
                        key,
                        ckey(#[trigger] s.kids_flushed[idx]),
                    ) by {
                        if idx < s1.kids_flushed.len() {
                            assert(s.kids_flushed[idx] == s1.kids_flushed[idx]);
                        } else {
                            assert(s.kids_flushed[idx] == s1.kids_pending[idx
                                - s1.kids_flushed.len()]);
                        }
                    }
                }
            },
            SinkOp::Close => {
                // No child scope can still be open at a family end.
                assert forall|idx: int| 0 <= idx < sp.kids_pending.len() implies has_key(
                    sp.committed,
                    key,
                    ckey(#[trigger] sp.kids_pending[idx]),
                ) by {
                    let kid = sp.kids_pending[idx];
                    if !has_key(sp.committed, key, ckey(kid)) {
                        assert(tail_child(ops, n - 1, kid));
                        let i = choose|i: int|
                            0 <= i < n - 1 && (#[trigger] ops[i]) is Child && ops[i]->Child_0
                                == kid && (forall|m: int|
                                i < m < n - 1 ==> !((#[trigger] ops[m]) is Parent) && !(
                                ops[m] is Close));
                        assert(child_scope_ok(ops, key, ckey, i));
                        let j = choose|j: int|
                            i < j < ops.len() && (#[trigger] ops[j]) is Parent && key(
                                ops[j]->Parent_0,
                            ) == ckey(ops[i]->Child_0) && (forall|m: int|
                                i < m < j ==> !((#[trigger] ops[m]) is Parent) && !(
                                ops[m] is Close));
                        if j < n - 1 {
                            assert((ops[j]) is Parent);
                        } else if j == n - 1 {
                            assert((ops[j]) is Parent && ops[n - 1] is Close);
                        } else {
                            assert(ops[n - 1] is Close);
                        }
                        assert(false);
                    }
                }
                assert forall|idx: int| 0 <= idx < s.kids_flushed.len() implies has_key(
                    s.committed,
                    key,
                    ckey(#[trigger] s.kids_flushed[idx]),
                ) by {
                    if idx < sp.kids_flushed.len() {
                        assert(s.kids_flushed[idx] == sp.kids_flushed[idx]);
                    } else {
                        assert(s.kids_flushed[idx] == sp.kids_pending[idx
                            - sp.kids_flushed.len()]);
                    }
                }
            },
        }
    }
}

/// Child–parent locality: when every child commit is scoped inside its
/// record — as it is for a document whose child elements sit inside record
/// elements that close before the family ends — every child row that went
/// out to the bulk writer carries the key of a parent record committed no
/// later than that child's flush.
pub proof fn lemma_child_parent_locality<P, C>(
    ops: Seq<SinkOp<P, C>>,
    key: spec_fn(P) -> i32,
    ckey: spec_fn(C) -> i32,
    b: nat,
)
    requires
        scoped(ops, key, ckey),
    ensures
        forall|idx: int|
            0 <= idx < sink_run(ops, key, b).kids_flushed.len() ==> has_key(
                sink_run(ops, key, b).committed,
                key,
                ckey(#[trigger] sink_run(ops, key, b).kids_flushed[idx]),
            ),
{
    lemma_locality_upto(ops, key, ckey, b, ops.len() as int);
    assert(ops.take(ops.len() as int) =~= ops);
}

/// The first record of `s` whose key is `k`.
pub open spec fn first_with_key<P>(s: Seq<P>, key: spec_fn(P) -> i32, k: i32) -> P
    decreases s.len(),
{
    if s.len() == 0 {
        arbitrary()
    } else if has_key(s.drop_last(), key, k) {
        first_with_key(s.drop_last(), key, k)
    } else {
        s.last()
    }
}

/// Deduplication keeps exactly the first record of each committed key.
pub proof fn lemma_dedup_first_characterisation<P>(s: Seq<P>, key: spec_fn(P) -> i32)
    ensures
        forall|p: P|
            dedup_first(s, key).contains(p) ==> has_key(s, key, key(p)) && p == first_with_key(
                s,
                key,
                key(p),
            ),
        forall|k: i32|
            has_key(s, key, k) ==> #[trigger] dedup_first(s, key).contains(
                first_with_key(s, key, k),
            ),
    decreases s.len(),
{
    if s.len() == 0 {
    } else {
        let pre = s.drop_last();
        let last = s.last();
        lemma_dedup_first_characterisation(pre, key);
        assert forall|i: int| 0 <= i < pre.len() implies pre[i] == s[i] by {}
        assert forall|p: P| dedup_first(s, key).contains(p) implies has_key(s, key, key(p)) && p
            == first_with_key(s, key, key(p)) by {
            if has_key(pre, key, key(last)) {
                assert(dedup_first(s, key) == dedup_first(pre, key));
                assert(has_key(pre, key, key(p)));
                assert(first_with_key(s, key, key(p)) == first_with_key(pre, key, key(p)));
            } else {
                if dedup_first(pre, key).contains(p) {
                    assert(has_key(pre, key, key(p)));
                    assert(first_with_key(s, key, key(p)) == first_with_key(pre, key, key(p)));
                } else {
                    // p is the freshly pushed last record.
                    assert(dedup_first(s, key) == dedup_first(pre, key).push(last));
                    assert(p == last);
                    assert(!has_key(pre, key, key(p)));
                    assert(first_with_key(s, key, key(p)) == last);
                    assert(has_key(s, key, key(p))) by {
                        assert(key(s[s.len() - 1]) == key(p));
                    }
                }
            }
        }
        assert forall|k: i32| has_key(s, key, k) implies #[trigger] dedup_first(s, key).contains(
            first_with_key(s, key, k),
        ) by {
            if has_key(pre, key, k) {
                assert(first_with_key(s, key, k) == first_with_key(pre, key, k));
                if has_key(pre, key, key(last)) {
                    assert(dedup_first(s, key) == dedup_first(pre, key));
                } else {
                    let d = dedup_first(pre, key);
                    assert(d.contains(first_with_key(pre, key, k)));
                    let i = choose|i: int| 0 <= i < d.len() && d[i] == first_with_key(pre, key, k);
                    assert(d.push(last)[i] == first_with_key(pre, key, k));
                }
            } else {
                // k can only be the last record's key.
                assert(key(last) == k) by {
                    let i = choose|i: int| 0 <= i < s.len() && key(s[i]) == k;
                    if i < s.len() - 1 {
                        assert(key(pre[i]) == k);
                    }
                }
                assert(first_with_key(s, key, k) == last);
                assert(!has_key(pre, key, key(last)));
                let d = dedup_first(s, key);
                assert(d == dedup_first(pre, key).push(last));
                assert(d[d.len() - 1] == last);
            }
        }
    }
}

/// If no record before position `i` shares `s[i]`'s key, `s[i]` is the
/// first record with that key.
pub proof fn lemma_first_with_key_at<P>(s: Seq<P>, key: spec_fn(P) -> i32, i: int)
    requires
        0 <= i < s.len(),
        forall|m: int| 0 <= m < i ==> key(#[trigger] s[m]) != key(s[i]),
    ensures
        has_key(s, key, key(s[i])),
        first_with_key(s, key, key(s[i])) == s[i],
    decreases s.len(),
{
    let pre = s.drop_last();
    if i == s.len() - 1 {
        assert(!has_key(pre, key, key(s[i]))) by {
            if has_key(pre, key, key(s[i])) {
                let m = choose|m: int| 0 <= m < pre.len() && key(pre[m]) == key(s[i]);
                assert(key(s[m]) == key(s[i]));
            }
        }
    } else {
        assert(pre[i] == s[i]);
        lemma_first_with_key_at(pre, key, i);
        assert(first_with_key(s, key, key(s[i])) == first_with_key(pre, key, key(s[i])));
    }
}

/// First write wins: when two commits of one batch share a primary key,
/// the deduplicated batch holds the first of them and no other record with
/// that key; later duplicates are dropped.
pub proof fn lemma_first_write_wins<P>(s: Seq<P>, key: spec_fn(P) -> i32, i: int, j: int)
    requires
        0 <= i < j < s.len(),
        key(s[j]) == key(s[i]),
        forall|m: int| 0 <= m < i ==> key(#[trigger] s[m]) != key(s[i]),
    ensures
        dedup_first(s, key).contains(s[i]),
        forall|p: P|
            dedup_first(s, key).contains(p) && key(p) == key(s[i]) ==> p == s[i],
{
    lemma_dedup_first_characterisation(s, key);
    lemma_first_with_key_at(s, key, i);
}

} // verus!
