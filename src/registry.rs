//! The object-path registry: which paths are bound, and to what.

use vstd::prelude::*;

use crate::actions::{ActionView, DeferredAction};

verus! {

/// The kinds of entity that an object path can stand for.
#[derive(Clone, Copy, Debug, PartialEq, Eq, Structural)]
pub enum ObjectKind {
    Pool,
    Filesystem,
    Blockdev,
}

/// What a bound path carries: the kind of entity, the path of its parent
/// object and the identity that the engine gave the entity.
#[derive(Clone, Debug)]
pub struct ObjectData {
    pub kind: ObjectKind,
    pub parent: String,
    pub uuid: u128,
}

/// The mathematical value of an `ObjectData`.
pub struct ObjectRecord {
    pub kind: ObjectKind,
    pub parent: Seq<char>,
    pub uuid: u128,
}

impl View for ObjectData {
    type V = ObjectRecord;

    open spec fn view(&self) -> ObjectRecord {
        ObjectRecord { kind: self.kind, parent: self.parent@, uuid: self.uuid }
    }
}

impl ObjectData {
    pub fn new(kind: ObjectKind, parent: String, uuid: u128) -> (r: ObjectData)
        ensures
            r.kind == kind,
            r.parent == parent,
            r.uuid == uuid,
    {
        ObjectData { kind, parent, uuid }
    }

    /// A copy of this record.
    pub fn copied(&self) -> (r: ObjectData)
        ensures
            r@ == self@,
    {
        ObjectData { kind: self.kind, parent: self.parent.clone(), uuid: self.uuid }
    }
}

/// The record of a bound path; the root object carries none.
pub open spec fn data_view(d: Option<ObjectData>) -> Option<ObjectRecord> {
    match d {
        Some(x) => Some(x@),
        None => None,
    }
}

/// Whether a bound path's record names the entity `uuid`.
pub open spec fn has_identity(rec: Option<ObjectRecord>, uuid: u128) -> bool {
    rec matches Some(r) && r.uuid == uuid
}

/// The map that a namespace stands for.
pub type PathMap = Map<Seq<char>, Option<ObjectRecord>>;

/// No key occurs twice in `s`.
pub open spec fn unique_keys<K, V>(s: Seq<(K, V)>) -> bool {
    forall|i: int, j: int| 0 <= i < s.len() && 0 <= j < s.len() && i != j ==> s[i].0 != s[j].0
}

/// The map made of the pairs of `s`, a later pair winning over an earlier one.
pub open spec fn map_of<K, V>(s: Seq<(K, V)>) -> Map<K, V>
    decreases s.len(),
{
    if s.len() == 0 {
        Map::empty()
    } else {
        map_of(s.drop_last()).insert(s.last().0, s.last().1)
    }
}

/// The effect of one deferred action on a namespace.
pub open spec fn apply_action(m: PathMap, a: ActionView) -> PathMap {
    match a {
        ActionView::Add(p, r) => m.insert(p, Some(r)),
        ActionView::Remove(p) => m.remove(p),
    }
}

/// The effect of a sequence of deferred actions, applied first to last.
pub open spec fn apply_actions(m: PathMap, s: Seq<ActionView>) -> PathMap
    decreases s.len(),
{
    if s.len() == 0 {
        m
    } else {
        apply_action(apply_actions(m, s.drop_last()), s.last())
    }
}

/// Draining an empty queue changes nothing, and doing it twice changes
/// nothing either: the namespace stays as it was and the queue stays empty.
pub proof fn lemma_drain_empty_idempotent(m: PathMap, q: Seq<ActionView>)
    requires
        q.len() == 0,
    ensures
        apply_actions(m, q) == m,
        apply_actions(apply_actions(m, q), Seq::<ActionView>::empty()) == m,
{
}

/// Applying the actions of `s` and then those of `t` is applying `s + t`:
/// queued actions take effect in the order in which they were queued.
pub proof fn lemma_apply_actions_append(m: PathMap, s: Seq<ActionView>, t: Seq<ActionView>)
    ensures
        apply_actions(m, s + t) == apply_actions(apply_actions(m, s), t),
    decreases t.len(),
{
    if t.len() == 0 {
        assert(s + t =~= s);
    } else {
        assert((s + t).drop_last() =~= s + t.drop_last());
        lemma_apply_actions_append(m, s, t.drop_last());
    }
}

/// Draining a queue into which `a`, `b` and `c` were pushed, in that order,
/// applies `a`, then `b`, then `c`.
pub proof fn lemma_drain_fifo(m: PathMap, a: ActionView, b: ActionView, c: ActionView)
    ensures
        apply_actions(m, seq![a, b, c]) == apply_action(apply_action(apply_action(m, a), b), c),
{
    let s = seq![a, b, c];
    assert(s.drop_last() =~= seq![a, b]);
    assert(seq![a, b].drop_last() =~= seq![a]);
    assert(seq![a].drop_last() =~= Seq::<ActionView>::empty());
    assert(apply_actions(m, Seq::<ActionView>::empty()) == m);
    assert(seq![a].last() == a);
    assert(apply_actions(m, seq![a]) == apply_action(m, a));
    assert(seq![a, b].last() == b);
    assert(s.last() == c);
    assert(apply_actions(m, seq![a, b]) == apply_action(apply_action(m, a), b));
}

/// Which keys `map_of` holds, and the value of each, where keys are unique.
pub proof fn lemma_map_of_key<K, V>(s: Seq<(K, V)>, k: K)
    requires
        unique_keys(s),
    ensures
        map_of(s).contains_key(k) <==> exists|i: int| 0 <= i < s.len() && s[i].0 == k,
        forall|i: int| 0 <= i < s.len() && s[i].0 == k ==> map_of(s)[k] == s[i].1,
    decreases s.len(),
{
    if s.len() > 0 {
        let t = s.drop_last();
        assert(unique_keys(t)) by {
            assert forall|i: int, j: int|
                0 <= i < t.len() && 0 <= j < t.len() && i != j implies t[i].0 != t[j].0 by {
                assert(t[i] == s[i] && t[j] == s[j]);
            }
        }
        lemma_map_of_key(t, k);
        if exists|i: int| 0 <= i < s.len() && s[i].0 == k {
            let i = choose|i: int| 0 <= i < s.len() && s[i].0 == k;
            if i < s.len() - 1 {
                assert(t[i] == s[i]);
            }
        }
        if k == s.last().0 {
            assert(s[s.len() - 1].0 == k);
        } else if map_of(s).contains_key(k) {
            let i = choose|i: int| 0 <= i < t.len() && t[i].0 == k;
            assert(s[i].0 == k);
        }
        assert forall|i: int| 0 <= i < s.len() && s[i].0 == k implies map_of(s)[k] == s[i].1 by {
            if i < s.len() - 1 {
                assert(t[i] == s[i]);
            }
        }
    }
}

/// The number of keys of `map_of` is the length of `s`, where keys are unique.
pub proof fn lemma_map_of_len<K, V>(s: Seq<(K, V)>)
    requires
        unique_keys(s),
    ensures
        map_of(s).dom().finite(),
        map_of(s).dom().len() == s.len(),
    decreases s.len(),
{
    if s.len() > 0 {
        let t = s.drop_last();
        assert(unique_keys(t)) by {
            assert forall|i: int, j: int|
                0 <= i < t.len() && 0 <= j < t.len() && i != j implies t[i].0 != t[j].0 by {
                assert(t[i] == s[i] && t[j] == s[j]);
            }
        }
        lemma_map_of_len(t);
        lemma_map_of_key(t, s.last().0);
        if map_of(t).contains_key(s.last().0) {
            let i = choose|i: int| 0 <= i < t.len() && t[i].0 == s.last().0;
            assert(s[i].0 == s[s.len() - 1].0);
        }
    }
}

/// Replacing the value of one key of `map_of`.
pub proof fn lemma_map_of_update<K, V>(s: Seq<(K, V)>, i: int, v: V)
    requires
        unique_keys(s),
        0 <= i < s.len(),
    ensures
        unique_keys(s.update(i, (s[i].0, v))),
        map_of(s.update(i, (s[i].0, v))) == map_of(s).insert(s[i].0, v),
{
    let s2 = s.update(i, (s[i].0, v));
    assert forall|j: int| 0 <= j < s.len() implies #[trigger] s2[j].0 == s[j].0 by {}
    assert(unique_keys(s2)) by {
        assert forall|a: int, b: int|
            0 <= a < s2.len() && 0 <= b < s2.len() && a != b implies s2[a].0 != s2[b].0 by {
            assert(s2[a].0 == s[a].0 && s2[b].0 == s[b].0);
        }
    }
    let m = map_of(s).insert(s[i].0, v);
    assert forall|k: K| #[trigger] map_of(s2).contains_key(k) == m.contains_key(k) by {
        lemma_map_of_key(s, k);
        lemma_map_of_key(s2, k);
        if map_of(s).contains_key(k) {
            let j = choose|j: int| 0 <= j < s.len() && s[j].0 == k;
            assert(s2[j].0 == k);
        }
        if map_of(s2).contains_key(k) {
            let j = choose|j: int| 0 <= j < s2.len() && s2[j].0 == k;
            assert(s[j].0 == k);
        }
    }
    assert forall|k: K| map_of(s2).contains_key(k) implies #[trigger] map_of(s2)[k] == m[k] by {
        lemma_map_of_key(s, k);
        lemma_map_of_key(s2, k);
        let j = choose|j: int| 0 <= j < s2.len() && s2[j].0 == k;
        assert(s[j].0 == k);
        if j != i {
            assert(s2[j] == s[j]);
        }
    }
    assert(map_of(s2) =~= m);
}

/// Taking one pair out of `s` takes its key out of `map_of`.
pub proof fn lemma_map_of_remove<K, V>(s: Seq<(K, V)>, i: int)
    requires
        unique_keys(s),
        0 <= i < s.len(),
    ensures
        unique_keys(s.remove(i)),
        map_of(s.remove(i)) == map_of(s).remove(s[i].0),
{
    let s2 = s.remove(i);
    assert forall|j: int| 0 <= j < s2.len() implies #[trigger] s2[j] == (if j < i {
        s[j]
    } else {
        s[j + 1]
    }) by {}
    assert(unique_keys(s2)) by {
        assert forall|a: int, b: int|
            0 <= a < s2.len() && 0 <= b < s2.len() && a != b implies s2[a].0 != s2[b].0 by {
            assert(s2[a] == (if a < i { s[a] } else { s[a + 1] }));
            assert(s2[b] == (if b < i { s[b] } else { s[b + 1] }));
        }
    }
    let m = map_of(s).remove(s[i].0);
    assert forall|k: K| #[trigger] map_of(s2).contains_key(k) == m.contains_key(k) by {
        lemma_map_of_key(s, k);
        lemma_map_of_key(s2, k);
        if m.contains_key(k) {
            let j = choose|j: int| 0 <= j < s.len() && s[j].0 == k;
            assert(j != i);
            if j < i {
                assert(s2[j] == s[j]);
            } else {
                assert(s2[j - 1] == s[j]);
            }
        }
        if map_of(s2).contains_key(k) {
            let j = choose|j: int| 0 <= j < s2.len() && s2[j].0 == k;
            assert(s2[j] == (if j < i { s[j] } else { s[j + 1] }));
        }
    }
    assert forall|k: K| map_of(s2).contains_key(k) implies #[trigger] map_of(s2)[k] == m[k] by {
        lemma_map_of_key(s, k);
        lemma_map_of_key(s2, k);
        let j = choose|j: int| 0 <= j < s2.len() && s2[j].0 == k;
        assert(s2[j] == (if j < i { s[j] } else { s[j + 1] }));
    }
    assert(map_of(s2) =~= m);
}

/// A namespace of object paths, each bound at most once.
pub struct Registry {
    entries: Vec<(String, Option<ObjectData>)>,
}

impl View for Registry {
    type V = PathMap;

    /// The path map that this registry stands for.
    closed spec fn view(&self) -> PathMap {
        map_of(self.entries_view())
    }
}

impl Registry {
    /// The bound paths with their records, in the order of binding.
    pub closed spec fn entries_view(&self) -> Seq<(Seq<char>, Option<ObjectRecord>)> {
        self.entries@.map_values(|e: (String, Option<ObjectData>)| (e.0@, data_view(e.1)))
    }

    /// No path is bound twice.
    pub closed spec fn wf(&self) -> bool {
        unique_keys(self.entries_view())
    }

    /// An empty namespace.
    pub fn new() -> (r: Registry)
        ensures
            r.wf(),
            r@ == Map::<Seq<char>, Option<ObjectRecord>>::empty(),
    {
        let r = Registry { entries: Vec::new() };
        assert(r.entries_view().len() == 0);
        r
    }

    /// Where `path` stands in the table, if it is bound.
    fn position(&self, path: &String) -> (r: Option<usize>)
        requires
            self.wf(),
        ensures
            match r {
                Some(i) => i < self.entries_view().len() && self.entries_view()[i as int].0
                    == path@,
                None => !self@.contains_key(path@),
            },
    {
        let mut i: usize = 0;
        while i < self.entries.len()
            invariant
                i <= self.entries.len(),
                self.entries_view().len() == self.entries@.len(),
                forall|j: int| 0 <= j < i ==> self.entries_view()[j].0 != path@,
            decreases self.entries.len() - i,
        {
            if self.entries[i].0 == *path {
                return Some(i);
            }
            i = i + 1;
        }
        proof {
            lemma_map_of_key(self.entries_view(), path@);
        }
        None
    }

    /// The number of bound paths.
    pub fn len(&self) -> (r: usize)
        requires
            self.wf(),
        ensures
            r == self@.dom().len(),
    {
        proof {
            lemma_map_of_len(self.entries_view());
        }
        self.entries.len()
    }

    /// Whether `path` is bound.
    pub fn contains(&self, path: &String) -> (r: bool)
        requires
            self.wf(),
        ensures
            r == self@.contains_key(path@),
    {
        match self.position(path) {
            Some(i) => {
                proof {
                    lemma_map_of_key(self.entries_view(), path@);
                }
                true
            },
            None => false,
        }
    }

    /// The record bound to `path`: `None` where the path is not bound, and
    /// `Some(None)` for a bound path without a record.
    pub fn lookup(&self, path: &String) -> (r: Option<Option<ObjectData>>)
        requires
            self.wf(),
        ensures
            r.is_some() == self@.contains_key(path@),
            r.is_some() ==> data_view(r.unwrap()) == self@[path@],
    {
        match self.position(path) {
            Some(i) => {
                proof {
                    lemma_map_of_key(self.entries_view(), path@);
                }
                match &self.entries[i].1 {
                    Some(d) => Some(Some(d.copied())),
                    None => Some(None),
                }
            },
            None => None,
        }
    }

    /// The path bound to the entity `uuid`, if there is one.
    pub fn path_of(&self, uuid: u128) -> (r: Option<String>)
        requires
            self.wf(),
        ensures
            match r {
                Some(p) => self@.contains_key(p@) && has_identity(self@[p@], uuid),
                None => forall|p: Seq<char>|
                    self@.contains_key(p) ==> !has_identity(#[trigger] self@[p], uuid),
            },
    {
        let mut i: usize = 0;
        while i < self.entries.len()
            invariant
                i <= self.entries.len(),
                self.entries_view().len() == self.entries@.len(),
                self.wf(),
                forall|j: int| 0 <= j < i ==> !has_identity(#[trigger] self.entries_view()[j].1, uuid),
            decreases self.entries.len() - i,
        {
            let found = match &self.entries[i].1 {
                Some(d) => d.uuid == uuid,
                None => false,
            };
            if found {
                proof {
                    lemma_map_of_key(self.entries_view(), self.entries_view()[i as int].0);
                }
                return Some(self.entries[i].0.clone());
            }
            i = i + 1;
        }
        proof {
            assert forall|p: Seq<char>| self@.contains_key(p) implies !has_identity(
                #[trigger] self@[p],
                uuid,
            ) by {
                lemma_map_of_key(self.entries_view(), p);
                let j = choose|j: int| 0 <= j < self.entries_view().len() && self.entries_view()[j].0 == p;
                assert(!has_identity(self.entries_view()[j].1, uuid));
            }
        }
        None
    }

    /// The bound paths, each once.
    pub fn paths(&self) -> (r: Vec<String>)
        requires
            self.wf(),
        ensures
            r.len() == self@.dom().len(),
            forall|p: Seq<char>|
                self@.contains_key(p) <==> exists|i: int| 0 <= i < r.len() && r@[i]@ == p,
    {
        let mut r: Vec<String> = Vec::new();
        let mut i: usize = 0;
        while i < self.entries.len()
            invariant
                i <= self.entries.len(),
                r.len() == i,
                self.entries_view().len() == self.entries@.len(),
                forall|j: int| 0 <= j < i ==> r@[j]@ == self.entries_view()[j].0,
            decreases self.entries.len() - i,
        {
            r.push(self.entries[i].0.clone());
            i = i + 1;
        }
        proof {
            lemma_map_of_len(self.entries_view());
            assert forall|p: Seq<char>|
                self@.contains_key(p) <==> exists|i: int| 0 <= i < r.len() && r@[i]@ == p by {
                lemma_map_of_key(self.entries_view(), p);
            }
        }
        r
    }
    /// Binds `path` to `data`, replacing what it was bound to.
    pub fn bind(&mut self, path: String, data: Option<ObjectData>)
        requires
            old(self).wf(),
        ensures
            final(self).wf(),
            final(self)@ == old(self)@.insert(path@, data_view(data)),
    {
        let ghost dv = data_view(data);
        let ghost pv = path@;
        match self.position(&path) {
            Some(i) => {
                proof {
                    lemma_map_of_update(self.entries_view(), i as int, dv);
                }
                self.entries.set(i, (path, data));
                assert(self.entries_view() =~= old(self).entries_view().update(
                    i as int,
                    (old(self).entries_view()[i as int].0, dv),
                ));
            },
            None => {
                proof {
                    lemma_map_of_key(self.entries_view(), pv);
                }
                self.entries.push((path, data));
                assert(self.entries_view().drop_last() =~= old(self).entries_view());
                assert(unique_keys(self.entries_view())) by {
                    let s = self.entries_view();
                    assert forall|a: int, b: int|
                        0 <= a < s.len() && 0 <= b < s.len() && a != b implies s[a].0 != s[b].0 by {
                        if a < s.len() - 1 {
                            assert(s[a] == old(self).entries_view()[a]);
                        }
                        if b < s.len() - 1 {
                            assert(s[b] == old(self).entries_view()[b]);
                        }
                    }
                }
            },
        }
    }

    /// Unbinds `path` and hands back its record; `None`, and no change, where
    /// it was not bound.
    pub fn unbind(&mut self, path: &String) -> (r: Option<Option<ObjectData>>)
        requires
            old(self).wf(),
        ensures
            final(self).wf(),
            final(self)@ == old(self)@.remove(path@),
            r.is_some() == old(self)@.contains_key(path@),
            r.is_some() ==> data_view(r.unwrap()) == old(self)@[path@],
    {
        match self.position(path) {
            Some(i) => {
                proof {
                    lemma_map_of_remove(self.entries_view(), i as int);
                    lemma_map_of_key(self.entries_view(), path@);
                }
                let e = self.entries.remove(i);
                assert(self.entries_view() =~= old(self).entries_view().remove(i as int));
                Some(e.1)
            },
            None => {
                assert(old(self)@.remove(path@) =~= old(self)@);
                None
            },
        }
    }

    /// Applies one deferred action.
    pub fn apply(&mut self, action: DeferredAction)
        requires
            old(self).wf(),
        ensures
            final(self).wf(),
            final(self)@ == apply_action(old(self)@, action@),
    {
        match action {
            DeferredAction::Add { path, data } => {
                self.bind(path, Some(data));
            },
            DeferredAction::Remove { path } => {
                self.unbind(&path);
            },
        }
    }
}

} // verus!
