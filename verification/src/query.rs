//! An ordered sequence of query blocks, rendered as one braced textual unit.
//! Block order is preserved: later blocks may reference variables bound by
//! earlier ones.

use vstd::prelude::*;
use vstd::string::StringExecFns;
use crate::error::BuildError;
use crate::queryblock::spec_render_query_block;
use crate::queryblock::QueryBlock;
use crate::text::indent;
use crate::text::join_strings;
use crate::text::spec_indent;
use crate::text::spec_join;

verus! {

/// A whole query: its blocks in order. Built through [`QueryBuilder`].
#[derive(Debug)]
pub struct Query {
    pub query_blocks: Vec<QueryBlock>,
}

/// Every block in the list is well-formed.
pub open spec fn spec_blocks_wf(bs: Seq<QueryBlock>) -> bool {
    forall|j: int| 0 <= j < bs.len() ==> bs[j].wf()
}

/// The rendered text of a query: each block rendered and indented one level,
/// the blocks separated by single newlines, wrapped in one outer brace pair.
pub open spec fn spec_render_query(q: Query) -> Seq<char> {
    "{\n"@ + spec_join(
        q.query_blocks@.map_values(|b: QueryBlock| spec_indent(spec_render_query_block(b))),
        "\n"@,
    ) + "\n}"@
}

impl Query {
    /// Well-formedness: every block is well-formed.
    pub open spec fn wf(self) -> bool {
        spec_blocks_wf(self.query_blocks@)
    }

    /// Whether the query is well-formed.
    pub fn is_wf(&self) -> (b: bool)
        ensures
            b == self.wf(),
    {
        let mut i: usize = 0;
        while i < self.query_blocks.len()
            invariant
                i <= self.query_blocks@.len(),
                forall|j: int| 0 <= j < i ==> self.query_blocks@[j].wf(),
            decreases self.query_blocks@.len() - i,
        {
            if !self.query_blocks[i].is_wf() {
                return false;
            }
            i = i + 1;
        }
        true
    }

    /// Renders the query.
    pub fn to_query_string(&self) -> (r: String)
        requires
            self.wf(),
        ensures
            r@ == spec_render_query(*self),
    {
        let ghost mapped = self.query_blocks@.map_values(
            |b: QueryBlock| spec_indent(spec_render_query_block(b)),
        );
        let mut rendered: Vec<String> = Vec::new();
        let mut i: usize = 0;
        while i < self.query_blocks.len()
            invariant
                self.wf(),
                i <= self.query_blocks@.len(),
                rendered@.len() == i,
                forall|j: int|
                    0 <= j < i ==> rendered@[j]@ == spec_indent(
                        spec_render_query_block(self.query_blocks@[j]),
                    ),
            decreases self.query_blocks@.len() - i,
        {
            let rb = self.query_blocks[i].to_query_string();
            rendered.push(indent(rb.as_str()));
            i = i + 1;
        }
        let joined = join_strings(&rendered, "\n");
        let mut out = String::from_str("{\n");
        out.append(joined.as_str());
        out.append("\n}");
        proof {
            assert(rendered@.map_values(|s: String| s@) =~= mapped);
            assert(out@ =~= spec_render_query(*self));
        }
        out
    }
}

/// Assembles a [`Query`]: the block list is mandatory, and every block must
/// be well-formed.
pub struct QueryBuilder {
    pub query_blocks: Option<Vec<QueryBlock>>,
}

impl Default for QueryBuilder {
    /// A builder with nothing set.
    fn default() -> (r: QueryBuilder)
        ensures
            r.query_blocks is None,
    {
        QueryBuilder { query_blocks: None }
    }
}

impl QueryBuilder {
    /// Sets the query's blocks, in order.
    pub fn query_blocks(self, query_blocks: Vec<QueryBlock>) -> (r: QueryBuilder)
        ensures
            r == (QueryBuilder { query_blocks: Some(query_blocks) }),
    {
        QueryBuilder { query_blocks: Some(query_blocks) }
    }

    /// What [`QueryBuilder::build`] returns: the finished query, or the first
    /// reason it cannot be finished.
    pub open spec fn spec_build(self) -> Result<Query, BuildError> {
        if self.query_blocks is None {
            Err(BuildError::MissingQueryBlocks)
        } else {
            let q = Query { query_blocks: self.query_blocks->0 };
            if q.wf() {
                Ok(q)
            } else {
                Err(BuildError::InvalidCondition)
            }
        }
    }

    /// Validates the builder and hands out the query; every failure is a value.
    pub fn build(self) -> (r: Result<Query, BuildError>)
        ensures
            r == self.spec_build(),
            r matches Ok(q) ==> q.wf(),
    {
        let query_blocks = match self.query_blocks {
            Some(bs) => bs,
            None => {
                return Err(BuildError::MissingQueryBlocks);
            },
        };
        let q = Query { query_blocks };
        if q.is_wf() {
            Ok(q)
        } else {
            Err(BuildError::InvalidCondition)
        }
    }
}

} // verus!
