//! What holds of a session cache over all the calls that it has answered.
use crate::path::PathView;
use crate::session_cache::{
    law_get_keeps_consistent, law_insert_keeps_consistent, CacheView, SessionId,
};
use vstd::prelude::*;

verus! {

/// A call that a cache answers.
pub enum CacheCall {
    Get(PathView),
    Insert(PathView, SessionId),
}

/// The cache after `call`.
pub open spec fn after_call(cache: CacheView, call: CacheCall) -> CacheView {
    match call {
        CacheCall::Get(path) => cache.after_get(path),
        CacheCall::Insert(path, session) => cache.after_insert(path, session),
    }
}

/// The path that `call` uses: one that is asked for and cached, one that is cached anew, or one
/// that is offered again at capacity. A cache without capacity caches nothing anew.
pub open spec fn used_by(cache: CacheView, call: CacheCall) -> Option<PathView> {
    match call {
        CacheCall::Get(path) => if cache.sessions.contains_key(path) {
            Some(path)
        } else {
            None
        },
        CacheCall::Insert(path, _) => if cache.sessions.contains_key(path) {
            if cache.at_capacity() {
                Some(path)
            } else {
                None
            }
        } else if cache.capacity > 0 {
            Some(path)
        } else {
            None
        },
    }
}

/// The cache after all of `calls`, in their order.
pub open spec fn after_calls(cache: CacheView, calls: Seq<CacheCall>) -> CacheView
    decreases calls.len(),
{
    if calls.len() == 0 {
        cache
    } else {
        after_call(after_calls(cache, calls.drop_last()), calls.last())
    }
}

/// The paths that `calls` use, one after the other, on a cache that starts empty.
pub open spec fn usage_log(capacity: nat, calls: Seq<CacheCall>) -> Seq<PathView>
    decreases calls.len(),
{
    if calls.len() == 0 {
        Seq::empty()
    } else {
        let earlier = usage_log(capacity, calls.drop_last());
        let cache = after_calls(CacheView::empty(capacity), calls.drop_last());
        match used_by(cache, calls.last()) {
            Some(path) => earlier.push(path),
            None => earlier,
        }
    }
}

/// When `path` was used last: its last place in `log`, or -1 where it was never used.
pub open spec fn last_use(log: Seq<PathView>, path: PathView) -> int
    decreases log.len(),
{
    if log.len() == 0 {
        -1
    } else if log.last() == path {
        log.len() - 1
    } else {
        last_use(log.drop_last(), path)
    }
}

proof fn lemma_last_use_bounds(log: Seq<PathView>, path: PathView)
    ensures
        -1 <= last_use(log, path) < log.len(),
    decreases log.len(),
{
    if log.len() > 0 {
        lemma_last_use_bounds(log.drop_last(), path);
    }
}

proof fn lemma_last_use_push(log: Seq<PathView>, used: PathView, path: PathView)
    ensures
        last_use(log.push(used), path) == if used == path {
            log.len() as int
        } else {
            last_use(log, path)
        },
        last_use(log, path) < log.len(),
{
    lemma_last_use_bounds(log, path);
    assert(log.push(used).drop_last() =~= log);
}

/// `order` lists paths by when they were used last, the most recently used one first.
pub open spec fn by_recency(order: Seq<PathView>, log: Seq<PathView>) -> bool {
    &&& forall|i: int, j: int|
        0 <= i < j < order.len() ==> last_use(log, #[trigger] order[i]) > last_use(
            log,
            #[trigger] order[j],
        )
    &&& forall|i: int| 0 <= i < order.len() ==> last_use(log, #[trigger] order[i]) >= 0
}

/// A path that moves to the front as it is used leaves the others in their order.
proof fn lemma_use_of_cached(order: Seq<PathView>, log: Seq<PathView>, path: PathView)
    requires
        by_recency(order, log),
        order.no_duplicates(),
        order.contains(path),
    ensures
        by_recency(seq![path] + order.remove_value(path), log.push(path)),
{
    order.index_of_first_ensures(path);
    let at = order.index_of_first(path).unwrap();
    let moved = seq![path] + order.remove(at);
    let longer = log.push(path);
    assert forall|i: int| 0 < i < moved.len() implies last_use(longer, #[trigger] moved[i])
        == last_use(log, order[if i <= at { i - 1 } else { i }]) && last_use(longer, moved[i])
        < log.len() by {
        let k = if i <= at { i - 1 } else { i };
        assert(moved[i] == order[k]);
        lemma_last_use_push(log, path, order[k]);
    }
    lemma_last_use_push(log, path, path);
    assert forall|i: int, j: int| 0 <= i < j < moved.len() implies last_use(
        longer,
        #[trigger] moved[i],
    ) > last_use(longer, #[trigger] moved[j]) by {
        if i == 0 {
            assert(moved[0] == path);
        }
    }
    assert forall|i: int| 0 <= i < moved.len() implies last_use(longer, #[trigger] moved[i])
        >= 0 by {
        if i == 0 {
            assert(moved[0] == path);
        }
    }
}

/// A new path in front leaves the others in their order.
proof fn lemma_use_of_new(order: Seq<PathView>, log: Seq<PathView>, path: PathView)
    requires
        by_recency(order, log),
        !order.contains(path),
    ensures
        by_recency(seq![path] + order, log.push(path)),
{
    let grown = seq![path] + order;
    let longer = log.push(path);
    assert forall|i: int| 0 < i < grown.len() implies last_use(longer, #[trigger] grown[i])
        == last_use(log, order[i - 1]) && last_use(longer, grown[i]) < log.len() by {
        assert(grown[i] == order[i - 1]);
        assert(order.contains(order[i - 1]));
        lemma_last_use_push(log, path, order[i - 1]);
    }
    lemma_last_use_push(log, path, path);
    assert(grown[0] == path);
    assert forall|i: int, j: int| 0 <= i < j < grown.len() implies last_use(
        longer,
        #[trigger] grown[i],
    ) > last_use(longer, #[trigger] grown[j]) by {}
}

/// Whatever a cache has been asked for and offered, it is consistent, it keeps its capacity, and
/// its usage order lists the cached paths by when they were used last.
pub proof fn law_usage_order_is_recency(capacity: nat, calls: Seq<CacheCall>)
    ensures
        after_calls(CacheView::empty(capacity), calls).consistent(),
        after_calls(CacheView::empty(capacity), calls).capacity == capacity,
        by_recency(
            after_calls(CacheView::empty(capacity), calls).usage_order,
            usage_log(capacity, calls),
        ),
    decreases calls.len(),
{
    if calls.len() > 0 {
        let earlier = calls.drop_last();
        law_usage_order_is_recency(capacity, earlier);
        let cache = after_calls(CacheView::empty(capacity), earlier);
        let log = usage_log(capacity, earlier);
        match calls.last() {
            CacheCall::Get(path) => {
                law_get_keeps_consistent(cache, path);
                if cache.sessions.contains_key(path) {
                    lemma_use_of_cached(cache.usage_order, log, path);
                }
            },
            CacheCall::Insert(path, session) => {
                law_insert_keeps_consistent(cache, path, session);
                if cache.sessions.contains_key(path) {
                    if cache.at_capacity() {
                        lemma_use_of_cached(cache.usage_order, log, path);
                    }
                } else if capacity > 0 {
                    let room = if cache.at_capacity() {
                        cache.without_oldest()
                    } else {
                        cache
                    };
                    assert(!room.usage_order.contains(path)) by {
                        if room.usage_order.contains(path) {
                            let i = room.usage_order.index_of(path);
                            assert(room.usage_order[i] == cache.usage_order[i]);
                            assert(cache.usage_order.contains(path));
                        }
                    }
                    lemma_use_of_new(room.usage_order, log, path);
                }
            },
        }
    } else {
        assert(CacheView::empty(capacity).consistent());
    }
}

/// A session leaves the cache only to make room for a new path in a cache at capacity, it is the
/// least recently used one, and it leaves alone.
pub proof fn law_evicts_least_recently_used(
    capacity: nat,
    calls: Seq<CacheCall>,
    call: CacheCall,
    gone: PathView,
)
    requires
        ({
            let cache = after_calls(CacheView::empty(capacity), calls);
            &&& cache.sessions.contains_key(gone)
            &&& !after_call(cache, call).sessions.contains_key(gone)
        }),
    ensures
        ({
            let cache = after_calls(CacheView::empty(capacity), calls);
            let log = usage_log(capacity, calls);
            &&& call matches CacheCall::Insert(path, _) && !cache.sessions.contains_key(path)
            &&& cache.at_capacity()
            &&& forall|other: PathView|
                cache.sessions.contains_key(other) && other != gone ==> {
                    &&& last_use(log, gone) < #[trigger] last_use(log, other)
                    &&& after_call(cache, call).sessions.contains_key(other)
                }
        }),
{
    law_usage_order_is_recency(capacity, calls);
    let cache = after_calls(CacheView::empty(capacity), calls);
    let log = usage_log(capacity, calls);
    let order = cache.usage_order;
    assert(order.contains(gone));
    assert forall|other: PathView|
        cache.sessions.contains_key(other) && other != gone implies last_use(log, gone)
        < #[trigger] last_use(log, other) && after_call(cache, call).sessions.contains_key(
        other,
    ) by {
        assert(order.contains(other));
        let i = order.index_of(other);
        assert(order[i] == other);
        assert(gone == order.last());
    }
}

/// No call gives a cached path another session.
pub proof fn law_cached_session_stays(cache: CacheView, call: CacheCall, path: PathView)
    requires
        cache.sessions.contains_key(path),
        after_call(cache, call).sessions.contains_key(path),
    ensures
        after_call(cache, call).sessions[path] == cache.sessions[path],
{
}

/// What was offered to a cache with capacity can be retrieved: a new path gives the session that
/// it was offered with. A path that was cached before gives the session that it had.
pub proof fn law_get_after_insert(cache: CacheView, path: PathView, session: SessionId)
    requires
        cache.capacity >= 1 || cache.sessions.contains_key(path),
    ensures
        cache.after_insert(path, session).sessions.get(path) == Some(
            match cache.sessions.get(path) {
                Some(cached) => cached,
                None => session,
            },
        ),
{
}

/// How far `path` is from the front of the usage order.
pub open spec fn age(cache: CacheView, path: PathView) -> int {
    cache.usage_order.index_of(path)
}

/// One call makes no path older by more than one place, and evicts none that is not the oldest.
proof fn lemma_call_ages_by_one(cache: CacheView, call: CacheCall, path: PathView)
    requires
        cache.consistent(),
        cache.sessions.contains_key(path),
        age(cache, path) + 1 < cache.capacity,
    ensures
        after_call(cache, call).consistent(),
        after_call(cache, call).capacity == cache.capacity,
        after_call(cache, call).sessions.contains_key(path),
        age(after_call(cache, call), path) <= age(cache, path) + 1,
{
    let next = after_call(cache, call);
    let order = cache.usage_order;
    assert(order.contains(path));
    let i = order.index_of(path);
    assert(order[i] == path);
    let moved = match call {
        CacheCall::Get(other) => other,
        CacheCall::Insert(other, _) => other,
    };
    match call {
        CacheCall::Get(other) => law_get_keeps_consistent(cache, other),
        CacheCall::Insert(other, session) => law_insert_keeps_consistent(cache, other, session),
    }
    if next.usage_order != order {
        order.index_of_first_ensures(moved);
        if moved == path {
            assert(next.usage_order[0] == path);
        } else if cache.sessions.contains_key(moved) {
            let at = order.index_of_first(moved).unwrap();
            assert(next.usage_order[if i < at { i + 1 } else { i }] == path);
        } else {
            assert(next.usage_order[i + 1] == path);
        }
    }
    let k = age(next, path);
    assert(next.usage_order.contains(path));
    assert(next.usage_order[k] == path);
}

/// A session is not evicted while fewer calls have come since its path was at the front of the
/// usage order than the cache has capacity.
pub proof fn law_recent_session_survives(cache: CacheView, calls: Seq<CacheCall>, path: PathView)
    requires
        cache.consistent(),
        cache.usage_order.len() > 0,
        cache.usage_order[0] == path,
        calls.len() < cache.capacity,
    ensures
        after_calls(cache, calls).sessions.contains_key(path),
        after_calls(cache, calls).sessions[path] == cache.sessions[path],
{
    assert(cache.usage_order.contains(path));
    let k = cache.usage_order.index_of(path);
    assert(cache.usage_order[k] == path);
    lemma_survival(cache, calls, path);
}

proof fn lemma_survival(cache: CacheView, calls: Seq<CacheCall>, path: PathView)
    requires
        cache.consistent(),
        cache.sessions.contains_key(path),
        age(cache, path) + calls.len() < cache.capacity,
    ensures
        after_calls(cache, calls).consistent(),
        after_calls(cache, calls).capacity == cache.capacity,
        after_calls(cache, calls).sessions.contains_key(path),
        after_calls(cache, calls).sessions[path] == cache.sessions[path],
        age(after_calls(cache, calls), path) <= age(cache, path) + calls.len(),
    decreases calls.len(),
{
    if calls.len() > 0 {
        lemma_survival(cache, calls.drop_last(), path);
        lemma_call_ages_by_one(after_calls(cache, calls.drop_last()), calls.last(), path);
    }
}

} // verus!
