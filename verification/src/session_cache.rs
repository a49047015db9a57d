//! A least recently used cache of sessions.
use crate::path::{texts, PathView, ProjectPath};
use crate::session_map::{
    all_guards_dropped, held_sessions, map_entries, map_get, map_insert, map_len, map_new,
    map_remove, map_try_get,
};
use dashmap::DashMap;
use std::collections::VecDeque;
use vstd::prelude::*;

verus! {

/// What tells one session from another.
pub type SessionId = u64;

/// What a cache holds.
#[verifier::ext_equal]
pub struct CacheView {
    /// The session of each cached path.
    pub sessions: Map<PathView, SessionId>,
    /// The cached paths, the most recently used one first.
    pub usage_order: Seq<PathView>,
    /// The maximum number of sessions.
    pub capacity: nat,
}

impl CacheView {
    /// The cache that holds nothing.
    pub open spec fn empty(capacity: nat) -> CacheView {
        CacheView { sessions: Map::empty(), usage_order: Seq::empty(), capacity }
    }

    /// The usage order names every cached path once, and nothing else. There are no more sessions
    /// than the capacity.
    pub open spec fn consistent(self) -> bool {
        &&& self.usage_order.no_duplicates()
        &&& forall|path: PathView|
            self.sessions.contains_key(path) <==> self.usage_order.contains(path)
        &&& self.sessions.dom().finite()
        &&& self.sessions.len() == self.usage_order.len()
        &&& self.sessions.len() <= self.capacity
    }

    pub open spec fn at_capacity(self) -> bool {
        self.sessions.len() >= self.capacity
    }

    /// `path` is the most recently used one, whether it was listed or not; the others keep their
    /// order.
    pub open spec fn touched(self, path: PathView) -> CacheView {
        CacheView { usage_order: seq![path] + self.usage_order.remove_value(path), ..self }
    }

    /// The least recently used path is gone, with its session.
    pub open spec fn without_oldest(self) -> CacheView {
        if self.usage_order.len() == 0 {
            self
        } else {
            CacheView {
                sessions: self.sessions.remove(self.usage_order.last()),
                usage_order: self.usage_order.drop_last(),
                ..self
            }
        }
    }

    /// `path` is cached with `session`, as the most recently used one.
    pub open spec fn with_new(self, path: PathView, session: SessionId) -> CacheView {
        CacheView {
            sessions: self.sessions.insert(path, session),
            usage_order: seq![path] + self.usage_order,
            ..self
        }
    }

    /// The cache after a session was asked for.
    pub open spec fn after_get(self, path: PathView) -> CacheView {
        if self.sessions.contains_key(path) {
            self.touched(path)
        } else {
            self
        }
    }

    /// The cache after a session was offered: one that is cached already stays, and counts as
    /// used where the cache is at capacity. A new one is cached; at capacity it takes the place
    /// of the least recently used one. A cache without capacity takes none.
    pub open spec fn after_insert(self, path: PathView, session: SessionId) -> CacheView {
        if self.sessions.contains_key(path) {
            if self.at_capacity() {
                self.touched(path)
            } else {
                self
            }
        } else if self.capacity == 0 {
            self
        } else if self.at_capacity() {
            self.without_oldest().with_new(path, session)
        } else {
            self.with_new(path, session)
        }
    }
}

proof fn lemma_touched(cache: CacheView, path: PathView)
    requires
        cache.consistent(),
        cache.sessions.contains_key(path),
    ensures
        cache.touched(path).consistent(),
{
    let order = cache.usage_order;
    let moved = cache.touched(path).usage_order;
    order.index_of_first_ensures(path);
    let at = order.index_of_first(path).unwrap();
    assert(moved =~= seq![path] + order.remove(at));
    assert forall|other: PathView| moved.contains(other) <==> order.contains(other) by {
        if order.contains(other) && other != path {
            let i = order.index_of(other);
            assert(order[i] == other);
            assert(moved[if i < at { i + 1 } else { i }] == other);
        }
        if moved.contains(other) {
            let i = moved.index_of(other);
            assert(moved[i] == other);
            if i > 0 {
                assert(order[if i <= at { i - 1 } else { i }] == other);
            }
        }
        assert(moved[0] == path);
    }
}

proof fn lemma_without_oldest(cache: CacheView)
    requires
        cache.consistent(),
    ensures
        cache.without_oldest().consistent(),
        cache.usage_order.len() > 0 ==> cache.without_oldest().usage_order.len()
            == cache.usage_order.len() - 1,
{
    let order = cache.usage_order;
    if order.len() > 0 {
        let rest = order.drop_last();
        assert(order.contains(order.last()));
        assert forall|other: PathView|
            rest.contains(other) <==> (order.contains(other) && other != order.last()) by {
            if order.contains(other) && other != order.last() {
                let i = order.index_of(other);
                assert(order[i] == other);
                assert(rest[i] == other);
            }
            if rest.contains(other) {
                let i = rest.index_of(other);
                assert(order[i] == other);
            }
        }
    }
}

proof fn lemma_with_new(cache: CacheView, path: PathView, session: SessionId)
    requires
        cache.consistent(),
        !cache.sessions.contains_key(path),
        !cache.at_capacity(),
    ensures
        cache.with_new(path, session).consistent(),
{
    let order = cache.usage_order;
    let longer = cache.with_new(path, session).usage_order;
    assert(!order.contains(path));
    assert forall|other: PathView| longer.contains(other) <==> (order.contains(other) || other
        == path) by {
        if order.contains(other) {
            let i = order.index_of(other);
            assert(longer[i + 1] == other);
        }
        assert(longer[0] == path);
        if longer.contains(other) && other != path {
            let i = longer.index_of(other);
            assert(order[i - 1] == other);
        }
    }
    assert forall|i: int, j: int|
        0 <= i < longer.len() && 0 <= j < longer.len() && i != j implies longer[i] != longer[j] by {
        if i == 0 {
            assert(order.contains(order[j - 1]));
        } else if j == 0 {
            assert(order.contains(order[i - 1]));
        }
    }
}

/// A consistent cache stays consistent, whatever it is asked for.
pub proof fn law_get_keeps_consistent(cache: CacheView, path: PathView)
    requires
        cache.consistent(),
    ensures
        cache.after_get(path).consistent(),
{
    if cache.sessions.contains_key(path) {
        lemma_touched(cache, path);
    }
}

/// A consistent cache stays consistent, whatever it is offered.
pub proof fn law_insert_keeps_consistent(cache: CacheView, path: PathView, session: SessionId)
    requires
        cache.consistent(),
    ensures
        cache.after_insert(path, session).consistent(),
{
    if cache.sessions.contains_key(path) {
        lemma_touched(cache, path);
    } else if cache.capacity > 0 {
        lemma_without_oldest(cache);
        lemma_with_new(
            if cache.at_capacity() {
                cache.without_oldest()
            } else {
                cache
            },
            path,
            session,
        );
    }
}

/// A sequence that does not hold `path` stays as it is when `path` is taken out of it.
proof fn lemma_nothing_to_take_out(order: Seq<PathView>, path: PathView)
    requires
        !order.contains(path),
    ensures
        order.filter(|other: PathView| other != path) == order,
    decreases order.len(),
{
    reveal(Seq::filter);
    if order.len() > 0 {
        let rest = order.drop_last();
        assert(order.contains(order.last()));
        assert(!rest.contains(path)) by {
            if rest.contains(path) {
                assert(order[rest.index_of(path)] == path);
            }
        }
        lemma_nothing_to_take_out(rest, path);
        assert(rest.push(order.last()) =~= order);
    }
}

/// A path that moves to the front stands there and nowhere else, and the others keep their order.
/// The order grows by one where the path was not listed. The sessions stay as they are.
pub proof fn law_moved_to_front(cache: CacheView, path: PathView)
    requires
        cache.usage_order.no_duplicates(),
    ensures
        cache.touched(path).usage_order == seq![path] + cache.usage_order.filter(
            |other: PathView| other != path,
        ),
        cache.touched(path).usage_order.no_duplicates(),
        cache.touched(path).usage_order.len() == if cache.usage_order.contains(path) {
            cache.usage_order.len()
        } else {
            cache.usage_order.len() + 1
        },
        cache.touched(path).sessions == cache.sessions,
        cache.touched(path).capacity == cache.capacity,
{
    let order = cache.usage_order;
    let others = |other: PathView| other != path;
    let moved = cache.touched(path).usage_order;
    order.index_of_first_ensures(path);
    if order.contains(path) {
        let at = order.index_of_first(path).unwrap();
        let before = order.take(at);
        let behind = order.skip(at + 1);
        assert(!before.contains(path));
        assert(!behind.contains(path));
        lemma_nothing_to_take_out(before, path);
        lemma_nothing_to_take_out(behind, path);
        assert(seq![path].filter(others) =~= Seq::empty()) by {
            reveal(Seq::filter);
            assert(seq![path].drop_last() =~= Seq::empty());
        }
        Seq::filter_distributes_over_add(before, seq![path], others);
        Seq::filter_distributes_over_add(before + seq![path], behind, others);
        assert(order =~= before + seq![path] + behind);
        assert(order.filter(others) =~= before + behind);
        assert(moved =~= seq![path] + (before + behind));
    } else {
        lemma_nothing_to_take_out(order, path);
        assert(moved =~= seq![path] + order);
    }
    assert forall|i: int| 0 < i < moved.len() implies #[trigger] moved[i] != path by {
        if order.contains(path) {
            let at = order.index_of_first(path).unwrap();
            assert(moved[i] == order[if i <= at { i - 1 } else { i }]);
        } else {
            assert(order.contains(order[i - 1]));
        }
    }
}

/// To move a path to the front twice changes no more than to move it there once.
pub proof fn law_moved_to_front_twice(cache: CacheView, path: PathView)
    ensures
        cache.touched(path).touched(path) == cache.touched(path),
{
    let moved = cache.touched(path).usage_order;
    moved.index_of_first_ensures(path);
    assert(moved[0] == path);
    assert(moved.contains(path));
    assert(seq![path] + moved.remove(0) =~= moved);
}

/// To ask for a session changes no session. A cached path comes to the front of the usage order,
/// whether the cache is at capacity or not, and the others keep their order; a path that is not
/// cached changes nothing.
pub proof fn law_what_get_changes(cache: CacheView, path: PathView)
    requires
        cache.usage_order.no_duplicates(),
    ensures
        cache.after_get(path).sessions == cache.sessions,
        cache.after_get(path).capacity == cache.capacity,
        cache.after_get(path).usage_order == if cache.sessions.contains_key(path) {
            seq![path] + cache.usage_order.filter(|other: PathView| other != path)
        } else {
            cache.usage_order
        },
{
    law_moved_to_front(cache, path);
}

/// To offer a session for a cached path changes no session. At capacity the path comes to the
/// front of the usage order, and the others keep their order; below capacity the order stays.
pub proof fn law_what_insert_of_cached_changes(
    cache: CacheView,
    path: PathView,
    session: SessionId,
)
    requires
        cache.usage_order.no_duplicates(),
        cache.sessions.contains_key(path),
    ensures
        cache.after_insert(path, session).sessions == cache.sessions,
        cache.after_insert(path, session).capacity == cache.capacity,
        cache.after_insert(path, session).usage_order == if cache.sessions.len()
            >= cache.capacity {
            seq![path] + cache.usage_order.filter(|other: PathView| other != path)
        } else {
            cache.usage_order
        },
{
    law_moved_to_front(cache, path);
}

/// To offer a session for a new path puts the path with the session at the front. Where there is
/// no room left, the last path of the usage order leaves, with its session; where there is some,
/// none does. The others keep their sessions and their order. Where there never is room, nothing
/// changes.
pub proof fn law_what_insert_of_new_changes(cache: CacheView, path: PathView, session: SessionId)
    requires
        cache.consistent(),
        !cache.sessions.contains_key(path),
    ensures
        ({
            let next = cache.after_insert(path, session);
            &&& next.capacity == cache.capacity
            &&& cache.capacity == 0 ==> next == cache
            &&& 0 < cache.capacity && cache.sessions.len() < cache.capacity ==> {
                &&& next.sessions == cache.sessions.insert(path, session)
                &&& next.usage_order == seq![path] + cache.usage_order
            }
            &&& 0 < cache.capacity <= cache.sessions.len() ==> {
                let oldest = cache.usage_order.last();
                &&& next.sessions == cache.sessions.remove(oldest).insert(path, session)
                &&& next.usage_order == seq![path] + cache.usage_order.drop_last()
            }
        }),
{
}

/// The view of each path.
pub open spec fn path_views(paths: Seq<ProjectPath>) -> Seq<PathView> {
    paths.map_values(|path: ProjectPath| path@)
}

/// A Least Recently Used (LRU) cache of sessions, keyed by the path of their project.
/// This cache helps limit memory usage by maintaining a fixed number of active sessions.
pub struct LruSessionCache {
    /// The session of each cached path.
    sessions: DashMap<Vec<String>, SessionId>,
    /// The cached paths in the order in which they were used, the most recent at the front.
    usage_order: VecDeque<ProjectPath>,
    /// The maximum number of sessions that can be stored in the cache.
    capacity: usize,
}

impl View for LruSessionCache {
    type V = CacheView;

    closed spec fn view(&self) -> CacheView {
        CacheView {
            sessions: held_sessions(self.sessions),
            usage_order: path_views(self.usage_order@),
            capacity: self.capacity as nat,
        }
    }
}

/// Where `path` first stands in `order`.
fn position(order: &VecDeque<ProjectPath>, path: &ProjectPath) -> (found: Option<usize>)
    ensures
        match found {
            Some(at) => path_views(order@).index_of_first(path@) == Some(at as int),
            None => !path_views(order@).contains(path@),
        },
{
    let mut at: usize = 0;
    while at < order.len()
        invariant
            at <= order.len(),
            forall|j: int| 0 <= j < at ==> path_views(order@)[j] != path@,
        decreases order.len() - at,
    {
        if order[at].same(path) {
            proof {
                let views = path_views(order@);
                assert(views[at as int] == path@);
                views.index_of_first_ensures(path@);
            }
            return Some(at);
        }
        at = at + 1;
    }
    None
}

impl LruSessionCache {
    /// What the cache holds is consistent, and none of its entries is in use.
    pub closed spec fn wf(&self) -> bool {
        &&& self@.consistent()
        &&& all_guards_dropped(self.sessions)
    }

    /// What a cache holds is consistent.
    pub proof fn law_contents_are_consistent(&self)
        requires
            self.wf(),
        ensures
            self@.consistent(),
            self@.sessions.len() <= self@.capacity,
            self@.usage_order.len() == self@.sessions.len(),
            self@.usage_order.no_duplicates(),
            forall|path: PathView|
                self@.sessions.contains_key(path) <==> self@.usage_order.contains(path),
    {
    }

    /// Creates a new `LruSessionCache` with the specified capacity.
    pub fn new(capacity: usize) -> (cache: LruSessionCache)
        ensures
            cache.wf(),
            cache@ == CacheView::empty(capacity as nat),
            cache@.sessions == Map::<PathView, SessionId>::empty(),
            cache@.usage_order == Seq::<PathView>::empty(),
            cache@.capacity == capacity,
    {
        let cache = LruSessionCache { sessions: map_new(), usage_order: VecDeque::new(), capacity };
        assert(cache@ =~= CacheView::empty(capacity as nat));
        cache
    }

    /// Every cached path with its session, each path once, in no order.
    pub fn iter(&self) -> (entries: Vec<(ProjectPath, SessionId)>)
        requires
            self.wf(),
        ensures
            forall|i: int|
                0 <= i < entries.len() ==> self@.sessions.contains_pair(
                    (#[trigger] entries[i]).0@,
                    entries[i].1,
                ),
            forall|i: int, j: int|
                0 <= i < j < entries.len() ==> (#[trigger] entries[i]).0@ != (
                #[trigger] entries[j]).0@,
            forall|path: PathView| #[trigger]
                self@.sessions.contains_key(path) ==> exists|i: int|
                    0 <= i < entries.len() && (#[trigger] entries[i]).0@ == path,
    {
        let mut found = map_entries(&self.sessions);
        let ghost all = found@;
        let mut entries: Vec<(ProjectPath, SessionId)> = Vec::new();
        while found.len() > 0
            invariant
                entries.len() + found.len() == all.len(),
                found@ == all.take(found.len() as int),
                forall|k: int|
                    0 <= k < entries.len() ==> (#[trigger] entries[k]).0.components
                        == all[all.len() - 1 - k].0 && entries[k].1 == all[all.len() - 1 - k].1,
            decreases found.len(),
        {
            if let Some((components, session)) = found.pop() {
                entries.push((ProjectPath { components }, session));
            }
        }
        proof {
            assert forall|path: PathView| #[trigger]
                self@.sessions.contains_key(path) implies exists|i: int|
                0 <= i < entries.len() && (#[trigger] entries[i]).0@ == path by {
                let k = choose|k: int| 0 <= k < all.len() && texts((#[trigger] all[k]).0@) == path;
                assert(entries[all.len() - 1 - k].0@ == path);
            }
        }
        entries
    }

    /// Retrieves a session from the cache and updates its position to the front of the usage
    /// order.
    pub fn get(&mut self, path: &ProjectPath) -> (session: Option<SessionId>)
        requires
            old(self).wf(),
        ensures
            final(self).wf(),
            session == old(self)@.sessions.get(path@),
            final(self)@ == old(self)@.after_get(path@),
    {
        match map_try_get(&self.sessions, &path.components) {
            Some(session) => {
                proof {
                    law_get_keeps_consistent(self@, path@);
                }
                self.move_to_front(path);
                Some(session)
            },
            None => None,
        }
    }

    /// Inserts a session in the cache.
    /// If at capacity and inserting a new session, evicts the least recently used one; a cache
    /// without capacity stays empty.
    /// A session that is cached already stays; its position in the usage order is updated if at
    /// capacity.
    pub fn insert(&mut self, path: ProjectPath, session: SessionId)
        requires
            old(self).wf(),
        ensures
            final(self).wf(),
            final(self)@ == old(self)@.after_insert(path@, session),
    {
        proof {
            law_insert_keeps_consistent(self@, path@, session);
        }
        if map_get(&self.sessions, &path.components).is_some() {
            if map_len(&self.sessions) >= self.capacity {
                self.move_to_front(&path);
            }
        } else if self.capacity > 0 {
            if map_len(&self.sessions) >= self.capacity {
                self.evict_least_used();
            }
            let ghost room = self@;
            let key = path.clone();
            map_insert(&mut self.sessions, key.components, session);
            self.usage_order.push_front(path);
            assert(self@ =~= room.with_new(path@, session));
        }
    }

    /// Moves the specified path to the front of the usage order, marking it as most recently used.
    fn move_to_front(&mut self, path: &ProjectPath)
        ensures
            final(self)@ == old(self)@.touched(path@),
            old(self).wf() && old(self)@.sessions.contains_key(path@) ==> final(self).wf(),
    {
        proof {
            if self@.consistent() && self@.sessions.contains_key(path@) {
                lemma_touched(self@, path@);
            }
        }
        let ghost before = path_views(self.usage_order@);
        proof {
            before.index_of_first_ensures(path@);
        }
        if let Some(index) = position(&self.usage_order, path) {
            self.usage_order.remove(index);
            assert(path_views(self.usage_order@) =~= before.remove(index as int));
        }
        assert(path_views(self.usage_order@) == before.remove_value(path@));
        self.usage_order.push_front(path.clone());
        assert(self@ =~= old(self)@.touched(path@));
    }

    /// Removes the least recently used session from the cache when the capacity is reached.
    fn evict_least_used(&mut self)
        requires
            old(self).wf(),
        ensures
            final(self).wf(),
            final(self)@ == old(self)@.without_oldest(),
    {
        proof {
            lemma_without_oldest(self@);
        }
        if let Some(old_path) = self.usage_order.pop_back() {
            map_remove(&mut self.sessions, &old_path.components);
            assert(self@ =~= old(self)@.without_oldest());
        }
    }
}

} // verus!
