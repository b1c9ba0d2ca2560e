//! Node edits addressed by stable, placeholder, or variable-bound
//! identifiers. A unit's predicates form a unique-key mapping from predicate
//! name to value; setting a name twice overwrites (last write wins). The
//! structured payload itself is emitted by the surrounding application; this
//! model only fixes the data.

use vstd::prelude::*;
use vstd::string::StringExecFns;
use crate::error::BuildError;
use crate::text::spec_dec;
use crate::text::u128_to_dec;

verus! {

/// The identifier of a mutation-graph node: an existing stable identifier, a
/// freshly generated placeholder (blank-node token), or a reference to a
/// variable bound by a companion query.
#[derive(Clone, Debug)]
pub struct MutationUID {
    pub uid: String,
}

/// The value a mutation gives one predicate. A float is carried as its
/// IEEE 754 bit pattern; the structured-data layer converts it back.
#[derive(Clone, Debug)]
pub enum MutationPredicateValue {
    String(String),
    Number(i64),
    Float(u64),
    Bool(bool),
    Edge(MutationUID),
    Edges(Vec<MutationUID>),
    Null,
}

/// One node's edit: its identifier plus a unique-key mapping from predicate
/// name to value.
#[derive(Clone, Debug)]
pub struct MutationUnit {
    pub uid: MutationUID,
    pub predicates: Vec<(String, MutationPredicateValue)>,
}

/// Units to set and units to delete, in order.
#[derive(Clone, Debug)]
pub struct Mutation {
    pub set: Vec<MutationUnit>,
    pub delete: Vec<MutationUnit>,
}

/// The kind of a mutation.
#[derive(Clone, Debug)]
pub enum MutationType {
    SET,
}

/// A literal as a mutation value: pre-formatted text or a plain string.
#[derive(Clone, Debug)]
pub enum MutationLiteral {
    Literal(String),
    String(String),
}

impl MutationUID {
    /// A fresh placeholder: a blank-node token of the form
    /// `_:uid_placeholder_<n>`, unique with overwhelming probability, stable
    /// for the lifetime of the value so every reference to it agrees.
    pub fn placeholder() -> (r: MutationUID)
        ensures
            exists|n: u128| r.uid@ == "_:uid_placeholder_"@ + spec_dec(n as nat),
    {
        let n: u128 = rand::random();
        let mut token = String::from_str("_:uid_placeholder_");
        let digits = u128_to_dec(n);
        token.append(digits.as_str());
        proof {
            assert(token@ == "_:uid_placeholder_"@ + spec_dec(n as nat));
        }
        MutationUID { uid: token }
    }

    /// A reference to a query-bound variable: `uid(<name>)`.
    pub fn variable(name: &str) -> (r: MutationUID)
        ensures
            r.uid@ == "uid("@ + name@ + ")"@,
    {
        let mut token = String::from_str("uid(");
        token.append(name);
        token.append(")");
        MutationUID { uid: token }
    }

    /// An existing stable identifier, passed through verbatim.
    pub fn uid(value: &str) -> (r: MutationUID)
        ensures
            r.uid@ == value@,
    {
        MutationUID { uid: value.to_owned() }
    }

    /// The identifier token.
    pub fn get_uid(&self) -> (r: &String)
        ensures
            r == &self.uid,
    {
        &self.uid
    }
}

impl MutationPredicateValue {
    /// A plain string value.
    pub fn string(value: &str) -> (r: MutationPredicateValue)
        ensures
            r matches MutationPredicateValue::String(s) && s@ == value@,
    {
        MutationPredicateValue::String(value.to_owned())
    }
}

/// The mapping a predicate list denotes: later entries overwrite earlier ones.
pub open spec fn spec_pred_map(ps: Seq<(String, MutationPredicateValue)>) -> Map<
    Seq<char>,
    MutationPredicateValue,
>
    decreases ps,
{
    if ps.len() == 0 {
        Map::empty()
    } else {
        spec_pred_map(ps.drop_last()).insert(ps.last().0@, ps.last().1)
    }
}

/// No two entries carry the same predicate name.
pub open spec fn spec_keys_unique(ps: Seq<(String, MutationPredicateValue)>) -> bool {
    forall|i: int, j: int| 0 <= i < j < ps.len() ==> ps[i].0@ != ps[j].0@
}

proof fn lemma_pred_map_contains(ps: Seq<(String, MutationPredicateValue)>, k: Seq<char>)
    ensures
        spec_pred_map(ps).contains_key(k) <==> exists|i: int| 0 <= i < ps.len() && ps[i].0@ == k,
    decreases ps,
{
    if ps.len() > 0 {
        lemma_pred_map_contains(ps.drop_last(), k);
        if ps.last().0@ == k {
            assert(ps[ps.len() - 1].0@ == k);
        } else {
            if exists|i: int| 0 <= i < ps.drop_last().len() && ps.drop_last()[i].0@ == k {
                let i = choose|i: int| 0 <= i < ps.drop_last().len() && ps.drop_last()[i].0@ == k;
                assert(ps[i].0@ == k);
            }
            if exists|i: int| 0 <= i < ps.len() && ps[i].0@ == k {
                let i = choose|i: int| 0 <= i < ps.len() && ps[i].0@ == k;
                assert(ps.drop_last()[i].0@ == k);
            }
        }
    }
}

proof fn lemma_pred_map_index(ps: Seq<(String, MutationPredicateValue)>, i: int)
    requires
        spec_keys_unique(ps),
        0 <= i < ps.len(),
    ensures
        spec_pred_map(ps).contains_key(ps[i].0@),
        spec_pred_map(ps)[ps[i].0@] == ps[i].1,
    decreases ps,
{
    if i == ps.len() - 1 {
    } else {
        assert(spec_keys_unique(ps.drop_last()));
        assert(ps.drop_last()[i] == ps[i]);
        lemma_pred_map_index(ps.drop_last(), i);
        assert(ps[i].0@ != ps.last().0@);
    }
}

proof fn lemma_pred_map_update(
    ps: Seq<(String, MutationPredicateValue)>,
    i: int,
    p: (String, MutationPredicateValue),
)
    requires
        spec_keys_unique(ps),
        0 <= i < ps.len(),
        p.0@ == ps[i].0@,
    ensures
        spec_pred_map(ps.update(i, p)) =~= spec_pred_map(ps).insert(p.0@, p.1),
    decreases ps,
{
    let upd = ps.update(i, p);
    if i == ps.len() - 1 {
        assert(upd.drop_last() =~= ps.drop_last());
        assert(upd.last() == p);
        assert(spec_pred_map(upd) == spec_pred_map(ps.drop_last()).insert(p.0@, p.1));
        assert(spec_pred_map(ps.drop_last()).insert(ps.last().0@, ps.last().1).insert(p.0@, p.1)
            =~= spec_pred_map(ps.drop_last()).insert(p.0@, p.1));
    } else {
        assert(spec_keys_unique(ps.drop_last()));
        assert(ps.drop_last()[i] == ps[i]);
        lemma_pred_map_update(ps.drop_last(), i, p);
        assert(upd.drop_last() =~= ps.drop_last().update(i, p));
        assert(upd.last() == ps.last());
        assert(ps[i].0@ != ps.last().0@);
        assert(spec_pred_map(upd) == spec_pred_map(ps.drop_last().update(i, p)).insert(
            ps.last().0@,
            ps.last().1,
        ));
        assert(spec_pred_map(ps.drop_last()).insert(p.0@, p.1).insert(ps.last().0@, ps.last().1)
            =~= spec_pred_map(ps.drop_last()).insert(ps.last().0@, ps.last().1).insert(
            p.0@,
            p.1,
        ));
    }
}

impl MutationUnit {
    /// The unit's predicate names are pairwise distinct.
    pub open spec fn keys_unique(self) -> bool {
        spec_keys_unique(self.predicates@)
    }

    /// The mapping from predicate name to value that the unit denotes.
    pub open spec fn pred_map(self) -> Map<Seq<char>, MutationPredicateValue> {
        spec_pred_map(self.predicates@)
    }

    /// A unit for the given node with no predicates yet.
    pub fn new(uid: MutationUID) -> (r: MutationUnit)
        ensures
            r.uid == uid,
            r.pred_map() =~= Map::<Seq<char>, MutationPredicateValue>::empty(),
            r.keys_unique(),
    {
        MutationUnit { uid, predicates: Vec::new() }
    }

    fn insert_predicate(&mut self, name: &str, value: MutationPredicateValue)
        requires
            old(self).keys_unique(),
        ensures
            final(self).uid == old(self).uid,
            final(self).keys_unique(),
            final(self).pred_map() == old(self).pred_map().insert(name@, value),
    {
        let key = name.to_owned();
        let mut i: usize = 0;
        while i < self.predicates.len()
            invariant
                *self == *old(self),
                key@ == name@,
                old(self).keys_unique(),
                i <= self.predicates@.len(),
                forall|j: int| 0 <= j < i ==> self.predicates@[j].0@ != name@,
            decreases self.predicates@.len() - i,
        {
            if self.predicates[i].0 == key {
                let ghost before = self.predicates@;
                proof {
                    lemma_pred_map_update(before, i as int, (key, value));
                }
                self.predicates.set(i, (key, value));
                proof {
                    let upd = self.predicates@;
                    assert(upd == before.update(i as int, (key, value)));
                    assert forall|t: int| 0 <= t < upd.len() implies upd[t].0@ == before[t].0@ by {
                        if t == i {
                            assert(before[t].0@ == key@);
                        }
                    }
                    assert forall|a: int, b: int| 0 <= a < b < upd.len() implies upd[a].0@
                        != upd[b].0@ by {
                        assert(before[a].0@ != before[b].0@);
                    }
                }
                return ;
            }
            i = i + 1;
        }
        proof {
            let before = self.predicates@;
            assert(before.push((key, value)).drop_last() =~= before);
            assert forall|a: int, b: int|
                0 <= a < b < before.push((key, value)).len() implies before.push(
                (key, value),
            )[a].0@ != before.push((key, value))[b].0@ by {
                if b < before.len() {
                    assert(before[a].0@ != before[b].0@);
                }
            }
        }
        self.predicates.push((key, value));
    }

    /// The same unit with the named predicate set; an existing entry for that
    /// name is overwritten.
    pub fn predicate(self, name: &str, value: MutationPredicateValue) -> (r: MutationUnit)
        requires
            self.keys_unique(),
        ensures
            r.uid == self.uid,
            r.keys_unique(),
            r.pred_map() == self.pred_map().insert(name@, value),
    {
        let mut unit = self;
        unit.insert_predicate(name, value);
        unit
    }

    /// Sets the named predicate in place; an existing entry for that name is
    /// overwritten.
    pub fn predicate_ref(&mut self, name: &str, value: MutationPredicateValue)
        requires
            old(self).keys_unique(),
        ensures
            final(self).uid == old(self).uid,
            final(self).keys_unique(),
            final(self).pred_map() == old(self).pred_map().insert(name@, value),
    {
        self.insert_predicate(name, value);
    }

    /// The value set for the named predicate, if any.
    pub fn get(&self, name: &str) -> (r: Option<&MutationPredicateValue>)
        requires
            self.keys_unique(),
        ensures
            match r {
                Some(v) => self.pred_map().contains_key(name@) && *v == self.pred_map()[name@],
                None => !self.pred_map().contains_key(name@),
            },
    {
        let key = name.to_owned();
        let mut i: usize = 0;
        while i < self.predicates.len()
            invariant
                self.keys_unique(),
                key@ == name@,
                i <= self.predicates@.len(),
                forall|j: int| 0 <= j < i ==> self.predicates@[j].0@ != name@,
            decreases self.predicates@.len() - i,
        {
            if self.predicates[i].0 == key {
                proof {
                    lemma_pred_map_index(self.predicates@, i as int);
                }
                return Some(&self.predicates[i].1);
            }
            i = i + 1;
        }
        proof {
            lemma_pred_map_contains(self.predicates@, name@);
        }
        None
    }
}

/// Assembles a [`Mutation`]; both lists default to empty, so building always
/// succeeds.
pub struct MutationBuilder {
    pub set: Option<Vec<MutationUnit>>,
    pub delete: Option<Vec<MutationUnit>>,
}

impl Default for MutationBuilder {
    /// A builder with nothing set.
    fn default() -> (r: MutationBuilder)
        ensures
            r.set is None,
            r.delete is None,
    {
        MutationBuilder { set: None, delete: None }
    }
}

impl MutationBuilder {
    /// Sets the units to set.
    pub fn set(self, set: Vec<MutationUnit>) -> (r: MutationBuilder)
        ensures
            r == (MutationBuilder { set: Some(set), ..self }),
    {
        MutationBuilder { set: Some(set), ..self }
    }

    /// Sets the units to delete.
    pub fn delete(self, delete: Vec<MutationUnit>) -> (r: MutationBuilder)
        ensures
            r == (MutationBuilder { delete: Some(delete), ..self }),
    {
        MutationBuilder { delete: Some(delete), ..self }
    }

    /// Hands out the mutation; both lists default to empty, so building
    /// always succeeds.
    pub fn build(self) -> (r: Result<Mutation, BuildError>)
        ensures
            r matches Ok(m) && m.set@ == (match self.set {
                Some(s) => s@,
                None => Seq::<MutationUnit>::empty(),
            }) && m.delete@ == (match self.delete {
                Some(d) => d@,
                None => Seq::<MutationUnit>::empty(),
            }),
    {
        let set = match self.set {
            Some(s) => s,
            None => Vec::new(),
        };
        let delete = match self.delete {
            Some(d) => d,
            None => Vec::new(),
        };
        Ok(Mutation { set, delete })
    }
}

} // verus!
