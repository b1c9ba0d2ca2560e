//! An upsert: the already-rendered query text paired with conditionally
//! guarded mutation blocks, in call order. Guards are rendered for the
//! engine, never evaluated here.

use vstd::prelude::*;
use vstd::string::StringExecFns;
use crate::condition::spec_render_condition;
use crate::condition::Condition;
use crate::mutation::Mutation;
use crate::query::spec_render_query;
use crate::query::Query;

verus! {

/// One guarded mutation: an optional rendered guard clause and the mutation
/// it gates. A block with no guard always executes.
pub struct UpsertBlock {
    pub cond: Option<String>,
    pub mutation: Mutation,
}

/// The rendered query text and the ordered guarded mutation blocks.
pub struct Upsert {
    pub query: String,
    pub mutations: Vec<UpsertBlock>,
}

impl UpsertBlock {
    /// An unguarded block around the mutation.
    pub fn new(mutation: Mutation) -> (r: UpsertBlock)
        ensures
            r.cond is None,
            r.mutation == mutation,
    {
        UpsertBlock { cond: None, mutation }
    }

    /// The same block guarded by the condition, rendered as the
    /// conditional-execution clause `@if(<condition>)`.
    pub fn cond(self, condition: Condition) -> (r: UpsertBlock)
        requires
            condition.wf(),
        ensures
            r.mutation == self.mutation,
            r.cond matches Some(s) && s@ == "@if("@ + spec_render_condition(condition) + ")"@,
    {
        let mut guard = String::from_str("@if(");
        let rendered = condition.to_query_string();
        guard.append(rendered.as_str());
        guard.append(")");
        UpsertBlock { cond: Some(guard), mutation: self.mutation }
    }
}

impl Upsert {
    /// An upsert around the query, rendered now; no mutation blocks yet.
    pub fn new(query: Query) -> (r: Upsert)
        requires
            query.wf(),
        ensures
            r.query@ == spec_render_query(query),
            r.mutations@ == Seq::<UpsertBlock>::empty(),
    {
        Upsert { query: query.to_query_string(), mutations: Vec::new() }
    }

    /// The same upsert with the block appended.
    pub fn upsert_block(self, block: UpsertBlock) -> (r: Upsert)
        ensures
            r.query == self.query,
            r.mutations@ == self.mutations@.push(block),
    {
        let mut mutations = self.mutations;
        mutations.push(block);
        Upsert { query: self.query, mutations }
    }

    /// Appends the block in place.
    pub fn upsert_block_ref(&mut self, block: UpsertBlock)
        ensures
            final(self).query == old(self).query,
            final(self).mutations@ == old(self).mutations@.push(block),
    {
        self.mutations.push(block);
    }
}

} // verus!
