//! What holds of the repository, whatever the calls and whatever the store
//! answers.
//!
//! Most laws speak of calls that come one after another, each carried out
//! from start to end ([`Call`]); the last but one speaks of callers that
//! overlap.

use vstd::prelude::*;
use crate::book::BookView;
use crate::error::{surfaced, StoreFailure};
use crate::history::{catalog_queries, replay, snapshot_before, Call, Reply};
use crate::order::ordered;
use crate::snapshot::Snapshot;

verus! {

/// The snapshot that a call starts from is the one that the call before it
/// left behind.
proof fn lemma_before_unfolds(start: Snapshot, calls: Seq<Call>, at: int)
    requires
        0 <= at < calls.len(),
    ensures
        snapshot_before(start, calls, at + 1) == calls[at].next(snapshot_before(start, calls, at)),
{
    let upto = calls.take(at + 1);
    assert(upto.last() == calls[at]);
    assert(upto.drop_last() =~= calls.take(at));
}

/// A call that fails leaves the snapshot exactly as it found it.
pub proof fn lemma_failure_changes_nothing(snapshot: Snapshot, call: Call)
    requires
        call.reply(snapshot).is_failure(),
    ensures
        call.next(snapshot) == snapshot,
{
}

/// Whatever was cached, a create, an update or a delete that the store
/// carried out leaves nothing cached.
pub proof fn lemma_write_discards_snapshot(snapshot: Snapshot, call: Call)
    requires
        call.is_successful_write(),
    ensures
        call.next(snapshot) == Snapshot::Empty,
        !call.reply(snapshot).is_failure(),
{
}

/// In every sequence of calls, from every snapshot: a listing that follows a
/// successful create, update or delete finds nothing cached, sends the query
/// to the store, returns what the store answers to that query, and caches the
/// rows if there are any.
pub proof fn lemma_write_forces_fresh_listing(start: Snapshot, calls: Seq<Call>, at: int)
    requires
        0 <= at,
        at + 1 < calls.len(),
        calls[at].is_successful_write(),
        calls[at + 1] is ListAll,
    ensures
        snapshot_before(start, calls, at + 1) == Snapshot::Empty,
        calls[at + 1].queries_catalog(snapshot_before(start, calls, at + 1)),
        calls[at + 1].reply(snapshot_before(start, calls, at + 1)) == Reply::Listed(
            surfaced(calls[at + 1]->fetched),
        ),
        snapshot_before(start, calls, at + 2) == Snapshot::Empty.populated_by(calls[at + 1]->fetched),
{
    lemma_before_unfolds(start, calls, at);
    lemma_before_unfolds(start, calls, at + 1);
}

/// One call keeps the cache truthful. Let `catalog` be what the store would
/// list before the call and `later` what it would list after it, where only a
/// successful create, update or delete can make the two differ, and let the
/// store answer a query for the catalog with `catalog`. If nothing stale was
/// cached before the call, nothing stale is cached after it, and a listing
/// returns `catalog`.
pub proof fn lemma_call_keeps_cache_current(
    snapshot: Snapshot,
    call: Call,
    catalog: Seq<BookView>,
    later: Seq<BookView>,
)
    requires
        snapshot.agrees_with(catalog),
        call matches Call::ListAll { fetched: Ok(rows) } ==> rows == catalog,
        !call.is_successful_write() ==> later == catalog,
    ensures
        call.next(snapshot).agrees_with(later),
        call.reply(snapshot) matches Reply::Listed(Ok(rows)) ==> rows == catalog,
{
}

/// The cache is never stale when calls come one after another. Let
/// `catalogs[i]` be what the store would list before the call at `i`, the last
/// of them what it would list after all calls; let only a successful create,
/// update or delete change it, and let the store answer every query for the
/// catalog with it. Then, from a cache that holds nothing stale, every listing
/// that succeeds returns the catalog of its moment, and nothing stale is
/// cached at the end.
pub proof fn lemma_listings_are_current(
    start: Snapshot,
    calls: Seq<Call>,
    catalogs: Seq<Seq<BookView>>,
    at: int,
)
    requires
        catalogs.len() == calls.len() + 1,
        start.agrees_with(catalogs[0]),
        forall|i: int|
            0 <= i < calls.len() ==> (#[trigger] calls[i] matches Call::ListAll { fetched: Ok(rows) }
                ==> rows == catalogs[i]),
        forall|i: int|
            0 <= i < calls.len() && !(#[trigger] calls[i]).is_successful_write() ==> catalogs[i + 1]
                == catalogs[i],
        0 <= at < calls.len(),
    ensures
        snapshot_before(start, calls, at).agrees_with(catalogs[at]),
        calls[at].reply(snapshot_before(start, calls, at)) matches Reply::Listed(Ok(rows)) ==> rows
            == catalogs[at],
        replay(start, calls).agrees_with(catalogs.last()),
{
    lemma_replay_stays_current(start, calls.take(at), catalogs.take(at + 1));
    lemma_replay_stays_current(start, calls, catalogs);
}

/// Calls that come one after another leave nothing stale in the cache.
proof fn lemma_replay_stays_current(start: Snapshot, calls: Seq<Call>, catalogs: Seq<Seq<BookView>>)
    requires
        catalogs.len() == calls.len() + 1,
        start.agrees_with(catalogs[0]),
        forall|i: int|
            0 <= i < calls.len() ==> (#[trigger] calls[i] matches Call::ListAll { fetched: Ok(rows) }
                ==> rows == catalogs[i]),
        forall|i: int|
            0 <= i < calls.len() && !(#[trigger] calls[i]).is_successful_write() ==> catalogs[i + 1]
                == catalogs[i],
    ensures
        replay(start, calls).agrees_with(catalogs.last()),
    decreases calls.len(),
{
    if calls.len() > 0 {
        let earlier = calls.drop_last();
        let upto = catalogs.drop_last();
        lemma_replay_stays_current(start, earlier, catalogs.drop_last());
        let last = calls.len() - 1;
        lemma_call_keeps_cache_current(
            replay(start, earlier),
            calls[last],
            catalogs[last],
            catalogs[last + 1],
        );
    }
}

/// Calls that are no successful write leave a populated snapshot as it is and
/// send no query for the catalog.
proof fn lemma_populated_stays(rows: Seq<BookView>, calls: Seq<Call>)
    requires
        forall|i: int| 0 <= i < calls.len() ==> !(#[trigger] calls[i]).is_successful_write(),
    ensures
        replay(Snapshot::Populated(rows), calls) == Snapshot::Populated(rows),
        catalog_queries(Snapshot::Populated(rows), calls) == 0,
    decreases calls.len(),
{
    if calls.len() > 0 {
        lemma_populated_stays(rows, calls.drop_last());
    }
}

/// A sequence of calls from the snapshot `start` is its first call, followed
/// by the others from the snapshot that the first call left.
proof fn lemma_replay_from_first(start: Snapshot, calls: Seq<Call>)
    requires
        calls.len() > 0,
    ensures
        replay(start, calls) == replay(calls[0].next(start), calls.drop_first()),
        catalog_queries(start, calls) == catalog_queries(calls[0].next(start), calls.drop_first())
            + if calls[0].queries_catalog(start) {
            1nat
        } else {
            0nat
        },
    decreases calls.len(),
{
    let rest = calls.drop_first();
    let earlier = calls.drop_last();
    if calls.len() == 1 {
        assert(earlier =~= Seq::<Call>::empty());
        assert(rest =~= Seq::<Call>::empty());
        assert(replay(start, earlier) == start);
        assert(catalog_queries(calls[0].next(start), rest) == 0);
    } else {
        lemma_replay_from_first(start, earlier);
        assert(earlier.drop_first() =~= rest.drop_last());
        assert(rest.last() == calls.last());
        assert(earlier[0] == calls[0]);
        assert(replay(start, earlier) == replay(calls[0].next(start), rest.drop_last()));
    }
}

/// Read-through population. On a cache that holds nothing, let a listing be
/// answered with `rows`, and let any calls follow but a successful create,
/// update or delete. Then the store receives exactly one query for the
/// catalog, the first; every listing among the calls returns `rows`; and
/// `rows` stay cached.
pub proof fn lemma_read_through(rows: Seq<BookView>, calls: Seq<Call>)
    requires
        calls.len() > 0,
        calls[0] == (Call::ListAll { fetched: Ok(rows) }),
        forall|i: int| 0 < i < calls.len() ==> !(#[trigger] calls[i]).is_successful_write(),
    ensures
        catalog_queries(Snapshot::Empty, calls) == 1,
        replay(Snapshot::Empty, calls) == Snapshot::Populated(rows),
        forall|i: int|
            0 <= i < calls.len() && calls[i] is ListAll ==> (#[trigger] calls[i]).reply(
                snapshot_before(Snapshot::Empty, calls, i),
            ) == Reply::Listed(Ok(rows)),
        forall|i: int|
            0 < i < calls.len() ==> !(#[trigger] calls[i]).queries_catalog(
                snapshot_before(Snapshot::Empty, calls, i),
            ),
{
    lemma_replay_from_first(Snapshot::Empty, calls);
    lemma_populated_stays(rows, calls.drop_first());
    assert(snapshot_before(Snapshot::Empty, calls, 0) == Snapshot::Empty) by {
        assert(calls.take(0) =~= Seq::<Call>::empty());
    }
    assert forall|i: int| 0 < i < calls.len() implies snapshot_before(Snapshot::Empty, calls, i)
        == Snapshot::Populated(rows) by {
        let upto = calls.take(i);
        lemma_replay_from_first(Snapshot::Empty, upto);
        lemma_populated_stays(rows, upto.drop_first());
    }
}

/// Calls keep the order of what is cached, as long as the store lists in
/// order.
proof fn lemma_replay_keeps_order(start: Snapshot, calls: Seq<Call>)
    requires
        start matches Snapshot::Populated(rows) ==> ordered(rows),
        forall|i: int|
            0 <= i < calls.len() ==> (#[trigger] calls[i] matches Call::ListAll { fetched: Ok(rows) }
                ==> ordered(rows)),
    ensures
        replay(start, calls) matches Snapshot::Populated(rows) ==> ordered(rows),
    decreases calls.len(),
{
    if calls.len() > 0 {
        lemma_replay_keeps_order(start, calls.drop_last());
    }
}

/// The ordering invariant. Where every listing of the store is ordered by id,
/// title and author, and so is what was cached at the start, every listing of
/// the repository is ordered so too, from the cache or not.
pub proof fn lemma_listings_ordered(start: Snapshot, calls: Seq<Call>, at: int)
    requires
        start matches Snapshot::Populated(rows) ==> ordered(rows),
        forall|i: int|
            0 <= i < calls.len() ==> (#[trigger] calls[i] matches Call::ListAll { fetched: Ok(rows) }
                ==> ordered(rows)),
        0 <= at < calls.len(),
    ensures
        calls[at].reply(snapshot_before(start, calls, at)) matches Reply::Listed(Ok(rows)) ==> ordered(rows),
{
    lemma_replay_keeps_order(start, calls.take(at));
}

/// Copy isolation. What a listing returns is decided by the snapshot and,
/// on a miss, by the store; nothing that a caller does to the rows it was
/// given has a way back. So a listing that directly follows a successful
/// listing returns the same rows.
pub proof fn lemma_copy_isolation(snapshot: Snapshot, first: Call, second: Call)
    requires
        first is ListAll,
        second is ListAll,
        !first.reply(snapshot).is_failure(),
    ensures
        second.reply(first.next(snapshot)) == first.reply(snapshot),
        second.next(first.next(snapshot)) == first.next(snapshot),
        !second.queries_catalog(first.next(snapshot)),
{
}

/// Callers that overlap. Commits take effect in the order in which they reach
/// the cache, whatever the order of the queries behind them: once a listing
/// answered with `rows` has been committed, `rows` are cached, whatever was
/// committed or discarded just before. So of two listings that both missed,
/// the later commit stays; and a listing that commits after a write leaves
/// its rows cached, though they may be older than the write.
pub proof fn lemma_last_commit_wins<T>(
    snapshot: Snapshot,
    earlier: Result<Seq<BookView>, StoreFailure>,
    write: Result<T, StoreFailure>,
    rows: Seq<BookView>,
)
    ensures
        snapshot.populated_by(earlier).populated_by(Ok(rows)) == Snapshot::Populated(rows),
        snapshot.written(write).populated_by(Ok(rows)) == Snapshot::Populated(rows),
{
}

/// An update or a delete that matched no row is a success like any other:
/// whatever the number of rows that the store reports, zero included, the
/// caller gets `Ok` and nothing stays cached.
pub proof fn lemma_unmatched_write_tolerated(snapshot: Snapshot, count: u64)
    ensures
        (Call::Update { changed: Ok(count) }).reply(snapshot) == Reply::Updated(Ok(())),
        (Call::Update { changed: Ok(count) }).next(snapshot) == Snapshot::Empty,
        (Call::Delete { removed: Ok(count) }).reply(snapshot) == Reply::Deleted(Ok(())),
        (Call::Delete { removed: Ok(count) }).next(snapshot) == Snapshot::Empty,
{
}

/// Where rows are cached after a sequence of calls on a cache that held
/// nothing, they are the store's answer to a query for the catalog that one
/// of the calls sent, and no create, update or delete has succeeded since.
pub proof fn lemma_snapshot_is_fresh(calls: Seq<Call>, rows: Seq<BookView>) -> (at: int)
    requires
        replay(Snapshot::Empty, calls) == Snapshot::Populated(rows),
    ensures
        0 <= at < calls.len(),
        calls[at] == (Call::ListAll { fetched: Ok(rows) }),
        calls[at].queries_catalog(snapshot_before(Snapshot::Empty, calls, at)),
        forall|i: int| at < i < calls.len() ==> !(#[trigger] calls[i]).is_successful_write(),
    decreases calls.len(),
{
    let earlier = calls.drop_last();
    if replay(Snapshot::Empty, earlier) == Snapshot::Populated(rows) {
        let at = lemma_snapshot_is_fresh(earlier, rows);
        assert(calls.take(at) =~= earlier.take(at));
        assert forall|i: int| at < i < calls.len() implies !(#[trigger] calls[i]).is_successful_write() by {
            if i < earlier.len() {
                assert(calls[i] == earlier[i]);
            }
        }
        at
    } else {
        assert(calls.take(calls.len() - 1) =~= earlier);
        calls.len() - 1
    }
}

} // verus!
