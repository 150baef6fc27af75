//! The registry of live WebSocket sessions, its metrics, and the decisions that the
//! server takes for each message it receives from a session.
use vstd::prelude::*;
use vstd::set_lib::lemma_len_subset;
use std::collections::HashMap;
use vstd::std_specs::iter::IteratorSpec;

use crate::assoc::{assoc, lemma_assoc_lookup, lemma_assoc_update, lemma_assoc_push, lemma_assoc_empty};
use crate::websocket::{SessionView, WebSocketMessage, WebSocketSession};

verus! {

broadcast use vstd::std_specs::hash::group_hash_axioms;

/// The identifiers of the sessions of `m` that are connected on `path`.
pub open spec fn sessions_on(m: Map<u128, SessionView>, path: Seq<char>) -> Set<u128> {
    m.dom().filter(|id: u128| m[id].context.path == path)
}

/// How many sessions of `m` are connected on `path`.
pub open spec fn path_count(m: Map<u128, SessionView>, path: Seq<char>) -> nat {
    sessions_on(m, path).len()
}

/// For each path that has at least one session of `m`, how many sessions it has.
pub open spec fn path_counts(m: Map<u128, SessionView>) -> Map<Seq<char>, nat> {
    Map::new(|p: Seq<char>| path_count(m, p) > 0, |p: Seq<char>| path_count(m, p))
}

/// A path never counts more sessions than there are.
pub proof fn lemma_path_count_bounded(m: Map<u128, SessionView>, path: Seq<char>)
    requires
        m.dom().finite(),
    ensures
        path_count(m, path) <= m.dom().len(),
{
    lemma_len_subset(sessions_on(m, path), m.dom());
}

/// Adding a session under a new identifier adds one to the count of its own
/// path and leaves every other path's count as it was.
pub proof fn lemma_path_count_insert(m: Map<u128, SessionView>, id: u128, s: SessionView, path: Seq<char>)
    requires
        m.dom().finite(),
        !m.dom().contains(id),
    ensures
        path_count(m.insert(id, s), path) == path_count(m, path) + if s.context.path == path { 1nat } else { 0nat },
{
    let before = sessions_on(m, path);
    let after = sessions_on(m.insert(id, s), path);
    lemma_len_subset(before, m.dom());
    if s.context.path == path {
        assert(after =~= before.insert(id));
    } else {
        assert(after =~= before);
    }
}

/// Removing a session takes one from the count of its path and leaves every
/// other path's count as it was.
pub proof fn lemma_path_count_remove(m: Map<u128, SessionView>, id: u128, path: Seq<char>)
    requires
        m.dom().finite(),
        m.dom().contains(id),
    ensures
        path_count(m.remove(id), path) + (if m[id].context.path == path { 1nat } else { 0nat }) == path_count(m, path),
{
    let r = m.remove(id);
    assert(r.insert(id, m[id]) =~= m);
    lemma_path_count_insert(r, id, m[id], path);
}

/// Adding a session under a new identifier adds one to the total, and one to the
/// count of the session's path.
pub proof fn lemma_metrics_after_add(m: Map<u128, SessionView>, s: SessionView)
    requires
        m.dom().finite(),
        !m.contains_key(s.id),
    ensures
        m.insert(s.id, s).len() == m.len() + 1,
        path_counts(m.insert(s.id, s)) == path_counts(m).insert(s.context.path, path_count(m, s.context.path) + 1),
{
    let after = m.insert(s.id, s);
    assert forall|q: Seq<char>| true implies path_count(after, q) == path_count(m, q) + if s.context.path == q { 1nat } else { 0nat } by {
        lemma_path_count_insert(m, s.id, s, q);
    }
    let p = s.context.path;
    assert(path_counts(after) =~= path_counts(m).insert(p, path_count(m, p) + 1));
}

/// Removing a session takes one from the total and one from the count of its
/// path; a path whose last session leaves is no longer counted.
pub proof fn lemma_metrics_after_remove(m: Map<u128, SessionView>, id: u128)
    requires
        m.dom().finite(),
        m.contains_key(id),
    ensures
        m.remove(id).len() + 1 == m.len(),
        path_counts(m.remove(id)) == if path_count(m, m[id].context.path) == 1 {
            path_counts(m).remove(m[id].context.path)
        } else {
            path_counts(m).insert(m[id].context.path, (path_count(m, m[id].context.path) - 1) as nat)
        },
{
    let r = m.remove(id);
    let p = m[id].context.path;
    assert(r.insert(id, m[id]) =~= m);
    assert forall|q: Seq<char>| true implies path_count(r, q) + (if p == q { 1nat } else { 0nat }) == path_count(m, q) by {
        lemma_path_count_remove(m, id, q);
    }
    if path_count(m, p) == 1 {
        assert(path_counts(r) =~= path_counts(m).remove(p));
    } else {
        assert(path_counts(r) =~= path_counts(m).insert(p, (path_count(m, p) - 1) as nat));
    }
}

/// Every session is counted under its path, at least once.
pub proof fn lemma_every_session_counted(m: Map<u128, SessionView>, id: u128)
    requires
        m.dom().finite(),
        m.contains_key(id),
    ensures
        path_counts(m).contains_key(m[id].context.path),
        path_counts(m)[m[id].context.path] >= 1,
{
    let p = m[id].context.path;
    assert(sessions_on(m, p).contains(id));
    assert(sessions_on(m, p).finite());
    assert(sessions_on(m, p).len() > 0);
}

/// Only paths that some session is connected on are counted.
pub proof fn lemma_counted_paths_have_sessions(m: Map<u128, SessionView>, path: Seq<char>)
    requires
        path_counts(m).contains_key(path),
    ensures
        exists|id: u128| m.contains_key(id) && m[id].context.path == path,
{
    let on = sessions_on(m, path);
    if on =~= Set::<u128>::empty() {
        assert(on.len() == 0);
    }
    let id = on.choose();
    assert(on.contains(id));
}

/// A session that was just added is found under its identifier, and the other
/// sessions are found as they were.
pub proof fn lemma_lookup_after_add(m: Map<u128, SessionView>, s: SessionView, other: u128)
    requires
        other != s.id,
    ensures
        m.insert(s.id, s).contains_key(s.id),
        m.insert(s.id, s)[s.id] == s,
        m.insert(s.id, s).contains_key(other) == m.contains_key(other),
        m.contains_key(other) ==> m.insert(s.id, s)[other] == m[other],
{
}

/// Removing a session that was just added under a new identifier gives the
/// registry back as it was.
pub proof fn lemma_remove_undoes_add(m: Map<u128, SessionView>, s: SessionView)
    requires
        !m.contains_key(s.id),
    ensures
        m.insert(s.id, s).remove(s.id) == m,
{
    assert(m.insert(s.id, s).remove(s.id) =~= m);
}

/// The sum of the counts of a counter.
pub open spec fn total_counted(c: Map<Seq<char>, nat>) -> nat
    decreases c.len(),
    when c.dom().finite()
{
    if c.len() == 0 {
        0
    } else {
        let p = c.dom().choose();
        c[p] + total_counted(c.remove(p))
    }
}

/// The sum does not depend on which path is taken out first.
pub proof fn lemma_total_counted_remove(c: Map<Seq<char>, nat>, q: Seq<char>)
    requires
        c.dom().finite(),
        c.contains_key(q),
    ensures
        total_counted(c) == c[q] + total_counted(c.remove(q)),
    decreases c.len(),
{
    assert(c.len() > 0) by {
        assert(c.dom().contains(q));
    }
    let p = c.dom().choose();
    assert(c.dom().contains(p));
    if p != q {
        lemma_total_counted_remove(c.remove(p), q);
        lemma_total_counted_remove(c.remove(q), p);
        assert(c.remove(p).remove(q) =~= c.remove(q).remove(p));
    }
}

/// The counts of all paths add up to the number of sessions.
pub proof fn lemma_counts_add_up(m: Map<u128, SessionView>)
    requires
        m.dom().finite(),
    ensures
        path_counts(m).dom().finite(),
        total_counted(path_counts(m)) == m.len(),
    decreases m.len(),
{
    let c = path_counts(m);
    if m.len() == 0 {
        assert(m.dom() =~= Set::<u128>::empty());
        assert forall|q: Seq<char>| !c.contains_key(q) by {
            assert(sessions_on(m, q) =~= Set::<u128>::empty());
        }
        assert(c.dom() =~= Set::<Seq<char>>::empty());
    } else {
        let id = m.dom().choose();
        assert(m.dom().contains(id));
        let r = m.remove(id);
        let p = m[id].context.path;
        lemma_counts_add_up(r);
        lemma_metrics_after_remove(m, id);
        lemma_every_session_counted(m, id);
        let cr = path_counts(r);
        if path_count(m, p) == 1 {
            assert(c =~= cr.insert(p, 1));
            assert(cr.insert(p, 1).remove(p) =~= cr);
        } else {
            assert(cr.remove(p) =~= c.remove(p));
            assert(c =~= cr.insert(p, path_count(m, p)));
            lemma_total_counted_remove(cr, p);
        }
        assert(c.dom().finite());
        lemma_total_counted_remove(c, p);
    }
}

/// The abstract contents of a [`MetricsMetadata`].
pub struct MetricsView {
    pub total_sessions: nat,
    pub path_counter: Map<Seq<char>, nat>,
}

/// Basic metrics of the sessions connected: their total, and their number on each path.
#[derive(Debug)]
pub struct MetricsMetadata {
    total_sessions: usize,
    path_counter: Vec<(String, usize)>,
}

/// The paths of a counter, as a sequence.
pub open spec fn counter_paths(c: Seq<(String, usize)>) -> Seq<Seq<char>> {
    c.map_values(|e: (String, usize)| e.0@)
}

/// The counts of a counter, as a sequence.
pub open spec fn counter_counts(c: Seq<(String, usize)>) -> Seq<nat> {
    c.map_values(|e: (String, usize)| e.1 as nat)
}

impl View for MetricsMetadata {
    type V = MetricsView;

    closed spec fn view(&self) -> MetricsView {
        MetricsView {
            total_sessions: self.total_sessions as nat,
            path_counter: assoc(counter_paths(self.path_counter@), counter_counts(self.path_counter@)),
        }
    }
}

impl MetricsMetadata {
    #[verifier::type_invariant]
    closed spec fn distinct_paths(&self) -> bool {
        counter_paths(self.path_counter@).no_duplicates()
    }

    /// The total number of sessions connected.
    pub fn total_sessions(&self) -> (r: usize)
        ensures
            r == self@.total_sessions,
    {
        self.total_sessions
    }

    /// The number of distinct paths that have sessions.
    pub fn paths_len(&self) -> (r: usize)
        ensures
            r == self@.path_counter.len(),
    {
        proof {
            use_type_invariant(self);
            let keys = counter_paths(self.path_counter@);
            keys.unique_seq_to_set();
            assert(self@.path_counter.dom() =~= keys.to_set());
        }
        self.path_counter.len()
    }

    /// The number of sessions connected on `path` (0 for a path without sessions).
    pub fn sessions_on_path(&self, path: &str) -> (r: usize)
        ensures
            r == if self@.path_counter.contains_key(path@) { self@.path_counter[path@] } else { 0 },
    {
        proof {
            use_type_invariant(self);
        }
        let target = path.to_owned();
        let ghost keys = counter_paths(self.path_counter@);
        let ghost vals = counter_counts(self.path_counter@);
        let mut i: usize = 0;
        while i < self.path_counter.len()
            invariant
                i <= self.path_counter@.len(),
                keys == counter_paths(self.path_counter@),
                vals == counter_counts(self.path_counter@),
                keys.no_duplicates(),
                target@ == path@,
                forall|j: int| 0 <= j < i ==> keys[j] != path@,
            decreases self.path_counter@.len() - i,
        {
            if self.path_counter[i].0 == target {
                proof {
                    lemma_assoc_lookup(keys, vals, i as int);
                }
                return self.path_counter[i].1;
            }
            i = i + 1;
        }
        proof {
            assert(!keys.contains(path@));
        }
        0
    }
}

impl Clone for MetricsMetadata {
    fn clone(&self) -> (r: Self)
        ensures
            r@ == self@,
    {
        proof {
            use_type_invariant(self);
        }
        let mut counter: Vec<(String, usize)> = Vec::new();
        let mut i: usize = 0;
        while i < self.path_counter.len()
            invariant
                i <= self.path_counter@.len(),
                counter@.len() == i,
                forall|j: int| 0 <= j < i ==> counter@[j].0@ == self.path_counter@[j].0@ && counter@[j].1 == self.path_counter@[j].1,
            decreases self.path_counter@.len() - i,
        {
            let entry = &self.path_counter[i];
            counter.push((entry.0.clone(), entry.1));
            i = i + 1;
        }
        proof {
            assert(counter_paths(counter@) =~= counter_paths(self.path_counter@));
            assert(counter_counts(counter@) =~= counter_counts(self.path_counter@));
        }
        MetricsMetadata { total_sessions: self.total_sessions, path_counter: counter }
    }
}


/// The position of `path` in a counter, if it is there.
fn position_of_path(counter: &Vec<(String, usize)>, path: &String) -> (r: Option<usize>)
    ensures
        r matches Some(i) ==> i < counter@.len() && counter_paths(counter@)[i as int] == path@,
        r is None ==> !counter_paths(counter@).contains(path@),
{
    let mut i: usize = 0;
    while i < counter.len()
        invariant
            i <= counter@.len(),
            forall|j: int| 0 <= j < i ==> counter_paths(counter@)[j] != path@,
        decreases counter@.len() - i,
    {
        if counter[i].0 == *path {
            return Some(i);
        }
        i = i + 1;
    }
    None
}

/// One step of counting: taking session `k` in adds one to the count of its path.
proof fn lemma_counts_step(m: Map<u128, SessionView>, seen: Set<u128>, k: u128)
    requires
        seen.finite(),
        m.dom().contains(k),
        !seen.contains(k),
    ensures
        m.restrict(seen.insert(k)) == m.restrict(seen).insert(k, m[k]),
        path_counts(m.restrict(seen.insert(k))) == path_counts(m.restrict(seen)).insert(
            m[k].context.path,
            path_count(m.restrict(seen), m[k].context.path) + 1,
        ),
{
    let before = m.restrict(seen);
    let after = m.restrict(seen.insert(k));
    assert(after =~= before.insert(k, m[k]));
    assert(before.dom() =~= m.dom().intersect(seen));
    assert forall|q: Seq<char>| true implies path_count(after, q) == path_count(before, q) + if m[k].context.path == q { 1nat } else { 0nat } by {
        lemma_path_count_insert(before, k, m[k], q);
    }
    let p = m[k].context.path;
    assert(path_counts(after) =~= path_counts(before).insert(p, path_count(before, p) + 1));
}

/// The sessions connected to the server, each under its identifier.
pub struct SessionRegistry {
    sessions: HashMap<u128, WebSocketSession>,
}

impl View for SessionRegistry {
    type V = Map<u128, SessionView>;

    closed spec fn view(&self) -> Map<u128, SessionView> {
        self.sessions@.map_values(|s: WebSocketSession| s@)
    }
}

impl SessionRegistry {
    #[verifier::type_invariant]
    closed spec fn keyed_by_id(&self) -> bool {
        forall|k: u128| #[trigger] self.sessions@.contains_key(k) ==> self.sessions@[k]@.id == k
    }

    /// An empty registry.
    pub fn new() -> (r: Self)
        ensures
            r@ == Map::<u128, SessionView>::empty(),
    {
        let r = SessionRegistry { sessions: HashMap::new() };
        assert(r@ =~= Map::<u128, SessionView>::empty());
        r
    }

    /// The number of sessions.
    pub fn len(&self) -> (r: usize)
        ensures
            r == self@.len(),
            self@.dom().finite(),
    {
        assert(self@.dom() =~= self.sessions@.dom());
        self.sessions.len()
    }

    /// Adds a session under its identifier, in place of any session that had
    /// the same identifier.
    pub fn add(&mut self, session: WebSocketSession)
        ensures
            final(self)@ == old(self)@.insert(session@.id, session@),
    {
        proof {
            use_type_invariant(&*self);
        }
        let mut sessions = HashMap::new();
        std::mem::swap(&mut sessions, &mut self.sessions);
        sessions.insert(session.id(), session);
        std::mem::swap(&mut sessions, &mut self.sessions);
        assert(self@ =~= old(self)@.insert(session@.id, session@));
    }

    /// Whether a session has the identifier `id`.
    pub fn contains(&self, id: u128) -> (r: bool)
        ensures
            r == self@.contains_key(id),
    {
        self.sessions.contains_key(&id)
    }

    /// The path that session `id` is connected on, if there is such a session.
    pub fn path_of(&self, id: u128) -> (r: Option<String>)
        ensures
            r is Some <==> self@.contains_key(id),
            r is Some ==> r->0@ == self@[id].context.path,
    {
        match self.sessions.get(&id) {
            Some(s) => Some(s.context().path()),
            None => None,
        }
    }

    /// A copy of session `id`, if there is such a session.
    pub fn get(&self, id: u128) -> (r: Option<WebSocketSession>)
        ensures
            r is Some <==> self@.contains_key(id),
            r is Some ==> r->0@ == self@[id] && r->0@.id == id,
    {
        proof {
            use_type_invariant(self);
        }
        match self.sessions.get(&id) {
            Some(s) => Some(s.clone()),
            None => None,
        }
    }

    /// Removes session `id` and hands it back, if there is such a session.
    pub fn remove(&mut self, id: u128) -> (r: Option<WebSocketSession>)
        ensures
            final(self)@ == old(self)@.remove(id),
            r is Some <==> old(self)@.contains_key(id),
            r is Some ==> r->0@ == old(self)@[id] && r->0@.id == id,
    {
        proof {
            use_type_invariant(&*self);
        }
        let mut sessions = HashMap::new();
        std::mem::swap(&mut sessions, &mut self.sessions);
        let r = sessions.remove(&id);
        std::mem::swap(&mut sessions, &mut self.sessions);
        assert(self@ =~= old(self)@.remove(id));
        r
    }

    /// The metrics of the registry: how many sessions there are, and how many
    /// are connected on each path that has any.
    pub fn metrics(&self) -> (r: MetricsMetadata)
        ensures
            self@.dom().finite(),
            r@.total_sessions == self@.len(),
            r@.path_counter == path_counts(self@),
            r@.path_counter.dom().finite(),
            total_counted(r@.path_counter) == r@.total_sessions,
    {
        let ghost m = self@;
        let ghost hm = self.sessions@;
        assert(m.dom() =~= hm.dom());
        let total = self.sessions.len();
        let mut counter: Vec<(String, usize)> = Vec::new();
        let ghost mut seen: Set<u128> = Set::empty();
        let iter = self.sessions.iter();
        let ghost s = IteratorSpec::remaining(&iter);
        proof {
            assert forall|i: int, j: int| 0 <= i < s.len() && 0 <= j < s.len() && i != j implies *s[i].0 != *s[j].0 by {
                if *s[i].0 == *s[j].0 {
                    assert(hm[*s[i].0] == *s[i].1);
                    assert(hm[*s[j].0] == *s[j].1);
                    assert(s[i] == s[j]);
                }
            }
            assert(m.restrict(seen) =~= Map::<u128, SessionView>::empty());
            assert forall|q: Seq<char>| !path_counts(m.restrict(seen)).contains_key(q) by {
                assert(sessions_on(m.restrict(seen), q) =~= Set::<u128>::empty());
            }
            assert(path_counts(m.restrict(seen)) =~= Map::<Seq<char>, nat>::empty());
            lemma_assoc_empty::<Seq<char>, nat>();
            assert(counter_paths(counter@) =~= Seq::<Seq<char>>::empty());
            assert(counter_counts(counter@) =~= Seq::<nat>::empty());
        }
        for entry in it: iter
            invariant
                it.seq() == s,
                m == self@,
                hm == self.sessions@,
                m.dom() == hm.dom(),
                total == m.dom().len(),
                m.dom().finite(),
                s.len() == m.dom().len(),
                forall|i: int| 0 <= i < s.len() ==> hm.contains_key(#[trigger] *s[i].0),
                forall|i: int| 0 <= i < s.len() ==> hm[#[trigger] *s[i].0] == *s[i].1,
                forall|i: int, j: int| 0 <= i < s.len() && 0 <= j < s.len() && i != j ==> *s[i].0 != *s[j].0,
                forall|k: u128| #[trigger] hm.contains_key(k) ==> s.contains((&k, &hm[k])),
                seen.finite(),
                seen.len() == it.index(),
                seen.subset_of(m.dom()),
                forall|j: int| it.index() <= j < s.len() ==> !seen.contains(*s[j].0),
                forall|j: int| 0 <= j < it.index() ==> seen.contains(*s[j].0),
                counter_paths(counter@).no_duplicates(),
                assoc(counter_paths(counter@), counter_counts(counter@)) == path_counts(m.restrict(seen)),
        {
            let ghost n = it.index();
            let ghost k = *entry.0;
            assert(entry == s[n]);
            let path = entry.1.context().path();
            let ghost p = path@;
            assert(hm.contains_key(*s[n].0));
            assert(hm[k] == *entry.1);
            assert(p == m[k].context.path);
            let ghost keys = counter_paths(counter@);
            let ghost vals = counter_counts(counter@);
            let ghost before = m.restrict(seen);
            proof {
                assert(!seen.contains(k));
                assert(before.dom() =~= m.dom().intersect(seen));
                lemma_path_count_bounded(before, p);
                lemma_len_subset(before.dom(), seen);
                lemma_counts_step(m, seen, k);
            }
            let found = position_of_path(&counter, &path);
            if let Some(pos) = found {
                let c = counter[pos].1;
                proof {
                    lemma_assoc_lookup(keys, vals, pos as int);
                    assert(c == path_count(before, p));
                    lemma_assoc_update(keys, vals, pos as int, (c + 1) as nat);
                }
                counter.set(pos, (path, c + 1));
                proof {
                    assert(counter_paths(counter@) =~= keys);
                    assert(counter_counts(counter@) =~= vals.update(pos as int, (c + 1) as nat));
                }
            } else {
                proof {
                    assert(!keys.contains(p));
                    crate::assoc::lemma_assoc_absent(keys, vals, p);
                    assert(!path_counts(before).contains_key(p));
                    assert(path_count(before, p) == 0);
                    lemma_assoc_push(keys, vals, p, 1nat);
                }
                counter.push((path, 1));
                proof {
                    assert(counter_paths(counter@) =~= keys.push(p));
                    assert(counter_counts(counter@) =~= vals.push(1nat));
                }
            }
            proof {
                seen = seen.insert(k);
            }
        }
        proof {
            assert(seen =~= m.dom()) by {
                assert forall|k: u128| m.dom().contains(k) implies seen.contains(k) by {
                    assert(hm.contains_key(k));
                    assert(s.contains((&k, &hm[k])));
                    let j = choose|j: int| 0 <= j < s.len() && s[j] == (&k, &hm[k]);
                    assert(*s[j].0 == k);
                }
            }
            assert(m.restrict(seen) =~= m);
            lemma_counts_add_up(m);
        }
        MetricsMetadata { total_sessions: total, path_counter: counter }
    }
}


/// A request to the task that owns the session registry.
pub enum SessionRequest {
    /// Add a session, under its identifier.
    Add(WebSocketSession),
    /// Remove the session with this identifier, and hand it back.
    Remove(u128),
    /// Hand back a copy of the session with this identifier.
    Get(u128),
    /// Hand back the path that the session with this identifier is connected on.
    GetPath(u128),
    /// Hand back the metrics of the sessions connected.
    Metrics,
}

/// What the registry answers to a [`SessionRequest`].
pub enum SessionReply {
    /// No answer is sent: the request was an addition, or named no session.
    NoReply,
    /// The session asked for.
    Session(WebSocketSession),
    /// The path of the session asked for, if there is such a session.
    Path(Option<String>),
    /// The metrics of the sessions connected.
    Metrics(MetricsMetadata),
}

impl SessionRegistry {
    /// Carries out one request and gives the answer to send back.
    pub fn apply(&mut self, request: SessionRequest) -> (r: SessionReply)
        ensures
            match request {
                SessionRequest::Add(s) => final(self)@ == old(self)@.insert(s@.id, s@) && r is NoReply,
                SessionRequest::Remove(id) => {
                    &&& final(self)@ == old(self)@.remove(id)
                    &&& if old(self)@.contains_key(id) {
                        r matches SessionReply::Session(x) && x@ == old(self)@[id]
                    } else {
                        r is NoReply
                    }
                },
                SessionRequest::Get(id) => {
                    &&& final(self)@ == old(self)@
                    &&& if old(self)@.contains_key(id) {
                        r matches SessionReply::Session(x) && x@ == old(self)@[id]
                    } else {
                        r is NoReply
                    }
                },
                SessionRequest::GetPath(id) => {
                    &&& final(self)@ == old(self)@
                    &&& r matches SessionReply::Path(p) && (p is Some <==> old(self)@.contains_key(id))
                        && (p is Some ==> p->0@ == old(self)@[id].context.path)
                },
                SessionRequest::Metrics => {
                    &&& final(self)@ == old(self)@
                    &&& r matches SessionReply::Metrics(mm) && mm@.total_sessions == old(self)@.len()
                        && mm@.path_counter == path_counts(old(self)@)
                        && total_counted(mm@.path_counter) == mm@.total_sessions
                },
            },
    {
        match request {
            SessionRequest::Add(s) => {
                self.add(s);
                SessionReply::NoReply
            },
            SessionRequest::Remove(id) => match self.remove(id) {
                Some(s) => SessionReply::Session(s),
                None => SessionReply::NoReply,
            },
            SessionRequest::Get(id) => match self.get(id) {
                Some(s) => SessionReply::Session(s),
                None => SessionReply::NoReply,
            },
            SessionRequest::GetPath(id) => SessionReply::Path(self.path_of(id)),
            SessionRequest::Metrics => SessionReply::Metrics(self.metrics()),
        }
    }
}

/// What the server does with a message received from a session.
pub struct RecvPlan {
    /// The path whose handler gets the message; none when the session is unknown.
    pub dispatch_to: Option<String>,
    /// Whether the session is removed once the message is handed over.
    pub remove_session: bool,
}

/// Plans the handling of `message`, received from a session that is connected
/// on `path` (none when the registry does not know the session): the message
/// goes to that path's handler, and a close message then removes the session.
/// A message from an unknown session is dropped.
pub fn plan_recv(path: Option<String>, message: &WebSocketMessage) -> (r: RecvPlan)
    ensures
        r.dispatch_to == path,
        r.remove_session == (path is Some && message is Close),
{
    match path {
        Some(p) => {
            let close = message.is_close();
            RecvPlan { dispatch_to: Some(p), remove_session: close }
        },
        None => RecvPlan { dispatch_to: None, remove_session: false },
    }
}

} // verus!
