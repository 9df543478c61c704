//! The capability contract every handler satisfies, and the registry that
//! owns the live handlers and answers name-based lookups.

use vstd::prelude::*;

use crate::value::Value;
use crate::value::ValueSpec;
use crate::value::str_eq;

verus! {

/// The error message a handler owes for an action it does not recognize.
pub open spec fn unknown_action_msg() -> Seq<char> {
    "Unknown action"@
}

/// The model of a handler's outcome: a success value or an error message.
pub open spec fn result_view(r: Result<Value, String>) -> Result<ValueSpec, Seq<char>> {
    match r {
        Ok(v) => Result::<ValueSpec, Seq<char>>::Ok(v@),
        Err(e) => Result::<ValueSpec, Seq<char>>::Err(e@),
    }
}

/// The uniform surface of a capability handler: one operation that
/// interprets an action on opaque parameters and yields a success value or
/// a descriptive error message. Each implementation documents its behaviour
/// as a function of the action and the parameters (`result_model`), and owes
/// the unknown-action error for every action it does not recognize.
pub trait Adapter {
    /// The actions this handler recognizes; a handler that documents
    /// nothing recognizes nothing.
    open spec fn recognizes(&self, action: Seq<char>) -> bool {
        false
    }

    /// The outcome this handler owes for `action` on `params`; a handler
    /// that documents nothing owes the unknown-action error alone.
    open spec fn result_model(&self, action: Seq<char>, params: ValueSpec) -> Result<
        ValueSpec,
        Seq<char>,
    > {
        Result::Err(unknown_action_msg())
    }

    /// Interpret `action` on `params`.
    fn handle(&self, action: &str, params: &Value) -> (r: Result<Value, String>)
        ensures
            result_view(r) == self.result_model(action@, params@),
            !self.recognizes(action@) ==> self.result_model(action@, params@)
                == Result::<ValueSpec, Seq<char>>::Err(unknown_action_msg()),
    ;
}

/// Pairwise distinct keys in a sequence of registry entries.
spec fn unique_keys<H>(s: Seq<(String, H)>) -> bool {
    forall|i: int, j: int| 0 <= i < j < s.len() ==> s[i].0@ != s[j].0@
}

/// The mapping a sequence of entries denotes; a later entry wins over an
/// earlier one with the same key.
spec fn map_of<H>(s: Seq<(String, H)>) -> Map<Seq<char>, H>
    decreases s.len(),
{
    if s.len() == 0 {
        Map::empty()
    } else {
        map_of(s.drop_last()).insert(s.last().0@, s.last().1)
    }
}

proof fn lemma_map_of_domain<H>(s: Seq<(String, H)>, k: Seq<char>)
    ensures
        map_of(s).contains_key(k) <==> (exists|i: int| 0 <= i < s.len() && s[i].0@ == k),
    decreases s.len(),
{
    if s.len() > 0 {
        lemma_map_of_domain(s.drop_last(), k);
        if s.last().0@ == k {
            assert(s[s.len() - 1].0@ == k);
        } else {
            if map_of(s).contains_key(k) {
                let i = choose|i: int| 0 <= i < s.drop_last().len() && s.drop_last()[i].0@ == k;
                assert(s[i].0@ == k);
            }
            if exists|i: int| 0 <= i < s.len() && s[i].0@ == k {
                let i = choose|i: int| 0 <= i < s.len() && s[i].0@ == k;
                assert(s.drop_last()[i].0@ == k);
            }
        }
    }
}

proof fn lemma_map_of_index<H>(s: Seq<(String, H)>, i: int)
    requires
        0 <= i < s.len(),
        unique_keys(s),
    ensures
        map_of(s).contains_key(s[i].0@),
        map_of(s)[s[i].0@] == s[i].1,
    decreases s.len(),
{
    if i == s.len() - 1 {
    } else {
        assert(unique_keys(s.drop_last()));
        assert(s.drop_last()[i] == s[i]);
        lemma_map_of_index(s.drop_last(), i);
        assert(s.last().0@ != s[i].0@);
    }
}

proof fn lemma_map_of_update<H>(s: Seq<(String, H)>, i: int, p: (String, H))
    requires
        0 <= i < s.len(),
        unique_keys(s),
        p.0@ == s[i].0@,
    ensures
        map_of(s.update(i, p)) == map_of(s).insert(p.0@, p.1),
    decreases s.len(),
{
    let t = s.update(i, p);
    if i == s.len() - 1 {
        assert(t.drop_last() =~= s.drop_last());
        assert(t.last() == p);
        assert(map_of(t) =~= map_of(s).insert(p.0@, p.1));
    } else {
        assert(t.drop_last() =~= s.drop_last().update(i, p));
        assert(unique_keys(s.drop_last()));
        assert(s.drop_last()[i] == s[i]);
        lemma_map_of_update(s.drop_last(), i, p);
        assert(s.last().0@ != s[i].0@);
        assert(t.last() == s.last());
        assert(map_of(t) =~= map_of(s).insert(p.0@, p.1));
    }
}

/// The registry: owns the live handlers and maps each registered name to
/// the handler registered under it last.
pub struct Registry<H> {
    entries: Vec<(String, H)>,
}

impl<H> View for Registry<H> {
    type V = Map<Seq<char>, H>;

    closed spec fn view(&self) -> Map<Seq<char>, H> {
        map_of(self.entries@)
    }
}

impl<H> Registry<H> {
    /// Every name is present at most once.
    #[verifier::type_invariant]
    spec fn wf(self) -> bool {
        unique_keys(self.entries@)
    }

    /// An empty registry.
    pub fn new() -> (r: Self)
        ensures
            r@ == Map::<Seq<char>, H>::empty(),
    {
        let r = Registry { entries: Vec::new() };
        proof {
            assert(r@ =~= Map::<Seq<char>, H>::empty());
        }
        r
    }

    /// The position of `name` among the entries, if it is present.
    fn index_of(entries: &Vec<(String, H)>, name: &str) -> (r: Option<usize>)
        ensures
            match r {
                Some(i) => i < entries@.len() && entries@[i as int].0@ == name@,
                None => forall|j: int| 0 <= j < entries@.len() ==> entries@[j].0@ != name@,
            },
    {
        let mut i: usize = 0;
        while i < entries.len()
            invariant
                i <= entries@.len(),
                forall|j: int| 0 <= j < i ==> entries@[j].0@ != name@,
            decreases entries@.len() - i,
        {
            if str_eq(entries[i].0.as_str(), name) {
                return Some(i);
            }
            i += 1;
        }
        None
    }

    /// Insert, or replace, the entry for `name`: the last registration under
    /// a name wins.
    pub fn register(&mut self, name: &str, handler: H)
        ensures
            final(self)@ == old(self)@.insert(name@, handler),
    {
        proof {
            use_type_invariant(&*self);
        }
        let mut entries: Vec<(String, H)> = Vec::new();
        core::mem::swap(&mut entries, &mut self.entries);
        let ghost s = entries@;
        match Self::index_of(&entries, name) {
            Some(i) => {
                entries[i] = (name.to_owned(), handler);
                proof {
                    let p = entries@[i as int];
                    assert(entries@ =~= s.update(i as int, p));
                    lemma_map_of_update(s, i as int, p);
                    assert forall|a: int, b: int|
                        0 <= a < b < entries@.len() implies entries@[a].0@
                        != entries@[b].0@ by {
                        assert(entries@[a].0@ == s[a].0@);
                        assert(entries@[b].0@ == s[b].0@);
                    }
                }
            },
            None => {
                entries.push((name.to_owned(), handler));
                proof {
                    assert(entries@.drop_last() =~= s);
                    assert forall|a: int, b: int|
                        0 <= a < b < entries@.len() implies entries@[a].0@
                        != entries@[b].0@ by {
                        if b < s.len() {
                            assert(entries@[a].0@ == s[a].0@);
                            assert(entries@[b].0@ == s[b].0@);
                        } else {
                            assert(entries@[a].0@ == s[a].0@);
                            assert(entries@[b].0@ == name@);
                        }
                    }
                }
            },
        }
        core::mem::swap(&mut entries, &mut self.entries);
    }

    /// A shared borrow of the handler registered under `name`, or "not
    /// found" when no entry exists for `name`.
    pub fn get(&self, name: &str) -> (r: Option<&H>)
        ensures
            r is Some <==> self@.contains_key(name@),
            r is Some ==> *r.unwrap() == self@[name@],
    {
        proof {
            use_type_invariant(self);
        }
        match Self::index_of(&self.entries, name) {
            Some(i) => {
                proof {
                    lemma_map_of_index(self.entries@, i as int);
                }
                Some(&self.entries[i].1)
            },
            None => {
                proof {
                    lemma_map_of_domain(self.entries@, name@);
                }
                None
            },
        }
    }
}

/// Law: looking a name up right after registering a handler under it yields
/// exactly that handler — and when the same name is registered twice, the
/// handler registered last, whatever the registry held before. Every other
/// name still answers as it did before the registration.
pub proof fn lemma_register_then_lookup<H>(m: Map<Seq<char>, H>, n: Seq<char>, h: H)
    ensures
        m.insert(n, h).contains_key(n),
        m.insert(n, h)[n] == h,
        forall|other: Seq<char>|
            other != n ==> (m.insert(n, h).contains_key(other) <==> m.contains_key(other)),
        forall|other: Seq<char>|
            other != n && m.contains_key(other) ==> m.insert(n, h)[other] == m[other],
{
}

} // verus!
