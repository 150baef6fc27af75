//! The endpoints of the server: for each path, the kind of handler that serves it
//! and the channel that feeds that handler's task.
use vstd::prelude::*;

use crate::assoc::{assoc, lemma_assoc_absent, lemma_assoc_finite, lemma_assoc_empty, lemma_assoc_lookup, lemma_assoc_push, lemma_assoc_update};
use crate::rt::channel_send;

verus! {

/// The kind of handler registered for a path.
#[derive(Clone, Copy, Debug, PartialEq, Eq, Structural)]
pub enum ForPath {
    /// A WebSocket handler: requests on the path are upgraded to WebSocket connections.
    Socket,
    /// A plain web handler: requests on the path are answered by the handler.
    Web,
}

/// One registered endpoint.
#[verifier::reject_recursive_types(A)]
struct Endpoint<A> {
    path: String,
    kind: ForPath,
    tx: tokio::sync::mpsc::UnboundedSender<A>,
}

/// The paths of a list of endpoints.
spec fn endpoint_paths<A>(s: Seq<Endpoint<A>>) -> Seq<Seq<char>> {
    s.map_values(|e: Endpoint<A>| e.path@)
}

/// The (kind, channel) pairs of a list of endpoints.
spec fn endpoint_targets<A>(s: Seq<Endpoint<A>>) -> Seq<(ForPath, tokio::sync::mpsc::UnboundedSender<A>)> {
    s.map_values(|e: Endpoint<A>| (e.kind, e.tx))
}

/// An action that did not reach a handler, handed back.
#[derive(Debug, PartialEq, Eq)]
pub enum Undelivered<A> {
    /// No handler is registered for the path.
    NoEndpoint(A),
    /// The handler's task is gone.
    HandlerGone(A),
}

/// The endpoints of a server, at most one per path.
#[verifier::reject_recursive_types(A)]
pub struct Endpoints<A> {
    entries: Vec<Endpoint<A>>,
}

impl<A> View for Endpoints<A> {
    type V = Map<Seq<char>, (ForPath, tokio::sync::mpsc::UnboundedSender<A>)>;

    closed spec fn view(&self) -> Self::V {
        assoc(endpoint_paths(self.entries@), endpoint_targets(self.entries@))
    }
}

impl<A> Endpoints<A> {
    #[verifier::type_invariant]
    closed spec fn distinct_paths(&self) -> bool {
        endpoint_paths(self.entries@).no_duplicates()
    }

    /// No endpoints.
    pub fn new() -> (r: Self)
        ensures
            r@ == Map::<Seq<char>, (ForPath, tokio::sync::mpsc::UnboundedSender<A>)>::empty(),
    {
        let r = Endpoints { entries: Vec::new() };
        proof {
            assert(endpoint_paths(r.entries@) =~= Seq::<Seq<char>>::empty());
            assert(endpoint_targets(r.entries@) =~= Seq::<(ForPath, tokio::sync::mpsc::UnboundedSender<A>)>::empty());
            lemma_assoc_empty::<Seq<char>, (ForPath, tokio::sync::mpsc::UnboundedSender<A>)>();
        }
        r
    }

    fn position(&self, path: &String) -> (r: Option<usize>)
        ensures
            r matches Some(i) ==> i < self.entries@.len() && endpoint_paths(self.entries@)[i as int] == path@,
            r is None ==> !endpoint_paths(self.entries@).contains(path@),
    {
        let mut i: usize = 0;
        while i < self.entries.len()
            invariant
                i <= self.entries@.len(),
                forall|j: int| 0 <= j < i ==> endpoint_paths(self.entries@)[j] != path@,
            decreases self.entries@.len() - i,
        {
            if self.entries[i].path == *path {
                return Some(i);
            }
            i = i + 1;
        }
        None
    }

    /// Registers the handler channel `tx`, of kind `kind`, for `path`, in place
    /// of any endpoint registered for that path before.
    pub fn register(&mut self, path: String, kind: ForPath, tx: tokio::sync::mpsc::UnboundedSender<A>)
        ensures
            final(self)@ == old(self)@.insert(path@, (kind, tx)),
            old(self)@.dom().finite(),
            final(self)@.dom().finite(),
    {
        proof {
            use_type_invariant(&*self);
            lemma_assoc_finite(endpoint_paths(self.entries@), endpoint_targets(self.entries@));
        }
        let ghost keys = endpoint_paths(self.entries@);
        let ghost vals = endpoint_targets(self.entries@);
        let found = self.position(&path);
        let mut entries = Vec::new();
        std::mem::swap(&mut entries, &mut self.entries);
        let ghost p = path@;
        match found {
            Some(i) => {
                proof {
                    lemma_assoc_update(keys, vals, i as int, (kind, tx));
                }
                entries.set(i, Endpoint { path, kind, tx });
                proof {
                    assert(endpoint_paths(entries@) =~= keys);
                    assert(endpoint_targets(entries@) =~= vals.update(i as int, (kind, tx)));
                }
            },
            None => {
                proof {
                    lemma_assoc_push(keys, vals, p, (kind, tx));
                }
                entries.push(Endpoint { path, kind, tx });
                proof {
                    assert(endpoint_paths(entries@) =~= keys.push(p));
                    assert(endpoint_targets(entries@) =~= vals.push((kind, tx)));
                }
            },
        }
        std::mem::swap(&mut entries, &mut self.entries);
    }

    /// The number of endpoints.
    pub fn len(&self) -> (r: usize)
        ensures
            r == self@.len(),
            self@.dom().finite(),
    {
        proof {
            use_type_invariant(self);
            let keys = endpoint_paths(self.entries@);
            keys.unique_seq_to_set();
            assert(self@.dom() =~= keys.to_set());
        }
        self.entries.len()
    }

    /// Whether an endpoint is registered for `path`.
    pub fn contains_path(&self, path: &str) -> (r: bool)
        ensures
            r == self@.contains_key(path@),
    {
        let target = path.to_owned();
        match self.position(&target) {
            Some(i) => {
                proof {
                    use_type_invariant(self);
                    lemma_assoc_lookup(endpoint_paths(self.entries@), endpoint_targets(self.entries@), i as int);
                }
                true
            },
            None => false,
        }
    }

    /// The kind of handler registered for `path`, if any.
    pub fn kind_of(&self, path: &str) -> (r: Option<ForPath>)
        ensures
            r is Some <==> self@.contains_key(path@),
            r is Some ==> r->0 == self@[path@].0,
    {
        let target = path.to_owned();
        match self.position(&target) {
            Some(i) => {
                proof {
                    use_type_invariant(self);
                    lemma_assoc_lookup(endpoint_paths(self.entries@), endpoint_targets(self.entries@), i as int);
                }
                Some(self.entries[i].kind)
            },
            None => None,
        }
    }

    /// The channel of the handler registered for `path`, if any.
    pub fn sender_for(&self, path: &str) -> (r: Option<&tokio::sync::mpsc::UnboundedSender<A>>)
        ensures
            r is Some <==> self@.contains_key(path@),
            r is Some ==> *r->0 == self@[path@].1,
    {
        let target = path.to_owned();
        match self.position(&target) {
            Some(i) => {
                proof {
                    use_type_invariant(self);
                    lemma_assoc_lookup(endpoint_paths(self.entries@), endpoint_targets(self.entries@), i as int);
                }
                Some(&self.entries[i].tx)
            },
            None => None,
        }
    }

    /// Where `action` for `path` goes: the channel of the handler registered for
    /// the path, with the action; or the action handed back when no handler is
    /// registered for the path.
    pub fn target(&self, path: &str, action: A) -> (r: Result<(&tokio::sync::mpsc::UnboundedSender<A>, A), A>)
        ensures
            !self@.contains_key(path@) ==> r == Err::<(&tokio::sync::mpsc::UnboundedSender<A>, A), A>(action),
            self@.contains_key(path@) ==> (r matches Ok((tx, a)) && *tx == self@[path@].1 && a == action),
    {
        match self.sender_for(path) {
            Some(tx) => Ok((tx, action)),
            None => Err(action),
        }
    }

    /// Hands `action` to the handler registered for `path` (on the channel that
    /// [`Endpoints::target`] gives). When no handler is registered for the path,
    /// or when that handler's task is gone, the action is handed back with the
    /// reason.
    pub fn handle(&self, path: &str, action: A) -> (r: Result<(), Undelivered<A>>)
        ensures
            !self@.contains_key(path@) ==> r == Err::<(), Undelivered<A>>(Undelivered::NoEndpoint(action)),
            self@.contains_key(path@) ==> (r is Ok || r == Err::<(), Undelivered<A>>(Undelivered::HandlerGone(action))),
    {
        match self.target(path, action) {
            Ok((tx, a)) => match channel_send(tx, a) {
                Ok(()) => Ok(()),
                Err(e) => Err(Undelivered::HandlerGone(e.0)),
            },
            Err(a) => Err(Undelivered::NoEndpoint(a)),
        }
    }

    /// The table of paths and the kind of handler registered for each.
    pub fn get_paths(&self) -> (r: PathTable)
        ensures
            r@ == self@.map_values(|e: (ForPath, tokio::sync::mpsc::UnboundedSender<A>)| e.0),
    {
        proof {
            use_type_invariant(self);
        }
        let ghost keys = endpoint_paths(self.entries@);
        let ghost vals = endpoint_targets(self.entries@);
        let mut table = PathTable::new();
        let mut i: usize = 0;
        while i < self.entries.len()
            invariant
                i <= self.entries@.len(),
                keys == endpoint_paths(self.entries@),
                vals == endpoint_targets(self.entries@),
                keys.no_duplicates(),
                table@ == assoc(keys.take(i as int), vals.take(i as int)).map_values(|e: (ForPath, tokio::sync::mpsc::UnboundedSender<A>)| e.0),
            decreases self.entries@.len() - i,
        {
            let entry = &self.entries[i];
            proof {
                let k = keys.take(i as int);
                let v = vals.take(i as int);
                assert(keys.take(i + 1) =~= k.push(keys[i as int]));
                assert(vals.take(i + 1) =~= v.push(vals[i as int]));
                assert(!k.contains(keys[i as int]));
                lemma_assoc_push(k, v, keys[i as int], vals[i as int]);
                assert(assoc(keys.take(i + 1), vals.take(i + 1)).map_values(|e: (ForPath, tokio::sync::mpsc::UnboundedSender<A>)| e.0)
                    =~= table@.insert(keys[i as int], vals[i as int].0));
            }
            table.insert(entry.path.clone(), entry.kind);
            i = i + 1;
        }
        proof {
            assert(keys.take(self.entries@.len() as int) =~= keys);
            assert(vals.take(self.entries@.len() as int) =~= vals);
        }
        table
    }
}

impl<A> Default for Endpoints<A> {
    fn default() -> (r: Self)
        ensures
            r@ == Map::<Seq<char>, (ForPath, tokio::sync::mpsc::UnboundedSender<A>)>::empty(),
    {
        Endpoints::new()
    }
}

/// The kind of handler registered for each path, at most one per path.
#[derive(Debug)]
pub struct PathTable {
    entries: Vec<(String, ForPath)>,
}

/// The paths of a path table's entries.
pub open spec fn table_paths(s: Seq<(String, ForPath)>) -> Seq<Seq<char>> {
    s.map_values(|e: (String, ForPath)| e.0@)
}

/// The kinds of a path table's entries.
pub open spec fn table_kinds(s: Seq<(String, ForPath)>) -> Seq<ForPath> {
    s.map_values(|e: (String, ForPath)| e.1)
}

impl View for PathTable {
    type V = Map<Seq<char>, ForPath>;

    closed spec fn view(&self) -> Map<Seq<char>, ForPath> {
        assoc(table_paths(self.entries@), table_kinds(self.entries@))
    }
}

impl PathTable {
    #[verifier::type_invariant]
    closed spec fn distinct_paths(&self) -> bool {
        table_paths(self.entries@).no_duplicates()
    }

    /// An empty table.
    pub fn new() -> (r: Self)
        ensures
            r@ == Map::<Seq<char>, ForPath>::empty(),
    {
        let r = PathTable { entries: Vec::new() };
        proof {
            assert(table_paths(r.entries@) =~= Seq::<Seq<char>>::empty());
            assert(table_kinds(r.entries@) =~= Seq::<ForPath>::empty());
            lemma_assoc_empty::<Seq<char>, ForPath>();
        }
        r
    }

    fn position(&self, path: &String) -> (r: Option<usize>)
        ensures
            r matches Some(i) ==> i < self.entries@.len() && table_paths(self.entries@)[i as int] == path@,
            r is None ==> !table_paths(self.entries@).contains(path@),
    {
        let mut i: usize = 0;
        while i < self.entries.len()
            invariant
                i <= self.entries@.len(),
                forall|j: int| 0 <= j < i ==> table_paths(self.entries@)[j] != path@,
            decreases self.entries@.len() - i,
        {
            if self.entries[i].0 == *path {
                return Some(i);
            }
            i = i + 1;
        }
        None
    }

    /// Records `kind` for `path`, in place of what was recorded for it before.
    pub fn insert(&mut self, path: String, kind: ForPath)
        ensures
            final(self)@ == old(self)@.insert(path@, kind),
            old(self)@.dom().finite(),
            final(self)@.dom().finite(),
    {
        proof {
            use_type_invariant(&*self);
            lemma_assoc_finite(table_paths(self.entries@), table_kinds(self.entries@));
        }
        let ghost keys = table_paths(self.entries@);
        let ghost vals = table_kinds(self.entries@);
        let found = self.position(&path);
        let mut entries = Vec::new();
        std::mem::swap(&mut entries, &mut self.entries);
        let ghost p = path@;
        match found {
            Some(i) => {
                proof {
                    lemma_assoc_update(keys, vals, i as int, kind);
                }
                entries.set(i, (path, kind));
                proof {
                    assert(table_paths(entries@) =~= keys);
                    assert(table_kinds(entries@) =~= vals.update(i as int, kind));
                }
            },
            None => {
                proof {
                    lemma_assoc_push(keys, vals, p, kind);
                }
                entries.push((path, kind));
                proof {
                    assert(table_paths(entries@) =~= keys.push(p));
                    assert(table_kinds(entries@) =~= vals.push(kind));
                }
            },
        }
        std::mem::swap(&mut entries, &mut self.entries);
    }

    /// The number of paths in the table.
    pub fn len(&self) -> (r: usize)
        ensures
            r == self@.len(),
            self@.dom().finite(),
    {
        proof {
            use_type_invariant(self);
            let keys = table_paths(self.entries@);
            keys.unique_seq_to_set();
            assert(self@.dom() =~= keys.to_set());
        }
        self.entries.len()
    }

    /// The kind of handler recorded for `path`, if any.
    pub fn kind_of(&self, path: &str) -> (r: Option<ForPath>)
        ensures
            r is Some <==> self@.contains_key(path@),
            r is Some ==> r->0 == self@[path@],
    {
        let target = path.to_owned();
        match self.position(&target) {
            Some(i) => {
                proof {
                    use_type_invariant(self);
                    lemma_assoc_lookup(table_paths(self.entries@), table_kinds(self.entries@), i as int);
                }
                Some(self.entries[i].1)
            },
            None => {
                proof {
                    lemma_assoc_absent(table_paths(self.entries@), table_kinds(self.entries@), path@);
                }
                None
            },
        }
    }
}

} // verus!
