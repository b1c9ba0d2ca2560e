//! A typed builder for a graph query language: query blocks, filter
//! conditions, mutations and transactional upserts are assembled as
//! structured data and rendered deterministically into the exact text the
//! engine expects. Every renderer's contract pins the produced text down to
//! the character.

use vstd::prelude::*;

pub mod condition;
pub mod error;
pub mod escape;
pub mod mutation;
pub mod predicate;
pub mod query;
pub mod queryblock;
pub mod rng;
pub mod schema;
pub mod text;
pub mod upsert;

pub use mutation::MutationBuilder;
pub use predicate::EdgeBuilder;
pub use query::QueryBuilder;
pub use queryblock::QueryBlockBuilder;

verus! {

/// Law: a tree rebuilt from its own parts renders to the same text as the
/// original. An edge reassembled from its accessors is the same value, and
/// rendering is a function of the value alone.
pub proof fn lemma_edge_rebuild_renders_identically(e: predicate::Edge)
    ensures
        predicate::spec_render_edge(
            predicate::Edge {
                name: e.name,
                predicates: e.predicates,
                filter: e.filter,
                alias: e.alias,
            },
        ) == predicate::spec_render_edge(e),
{
}

/// Law: a query block rebuilt from its own parts renders to the same text as
/// the original.
pub proof fn lemma_block_rebuild_renders_identically(b: queryblock::QueryBlock)
    ensures
        queryblock::spec_render_query_block(
            queryblock::QueryBlock {
                query_type: b.query_type,
                predicates: b.predicates,
                root_filter: b.root_filter,
                filter: b.filter,
                first: b.first,
                variable: b.variable,
                order: b.order,
                cascade: b.cascade,
            },
        ) == queryblock::spec_render_query_block(b),
{
}

} // verus!

