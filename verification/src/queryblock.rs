//! One rooted traversal: a block kind, a mandatory root filter, the
//! predicates to emit, and optional post-filter, pagination, ordering,
//! cascade and variable binding.

use vstd::prelude::*;
use vstd::string::StringExecFns;
use crate::condition::spec_render_condition;
use crate::condition::Condition;
use crate::error::BuildError;
use crate::predicate::render_filter_part;
use crate::predicate::render_preds;
use crate::predicate::spec_filter_part;
use crate::predicate::spec_preds_wf;
use crate::predicate::spec_render_predicate;
use crate::predicate::spec_render_preds;
use crate::predicate::Predicate;
use crate::text::indent;
use crate::text::i64_to_dec;
use crate::text::join_strings;
use crate::text::spec_dec;
use crate::text::spec_dec_int;
use crate::text::spec_indent;
use crate::text::spec_join;
use crate::text::u128_to_dec;

verus! {

/// How a block orders its results.
#[derive(Debug)]
pub enum QueryOrder {
    Unordered,
    ASC(Predicate),
    DESC(Predicate),
}

/// The kind of a block: a query block under a generated unique name, or an
/// unnamed variable-binding block.
#[derive(Debug)]
pub enum QueryBlockType {
    Query(String),
    Var,
}

/// One rooted traversal. Built through [`QueryBlockBuilder`], which demands a
/// kind, a root filter and at least one predicate.
#[derive(Debug)]
pub struct QueryBlock {
    pub query_type: QueryBlockType,
    pub predicates: Vec<Predicate>,
    pub root_filter: Condition,
    pub filter: Option<Condition>,
    pub first: Option<i64>,
    pub variable: Option<String>,
    pub order: QueryOrder,
    pub cascade: bool,
}

impl QueryOrder {
    /// Well-formedness of the ordering predicate, when there is one.
    pub open spec fn wf(self) -> bool {
        match self {
            QueryOrder::Unordered => true,
            QueryOrder::ASC(p) => p.wf(),
            QueryOrder::DESC(p) => p.wf(),
        }
    }

    /// Whether the ordering is well-formed.
    pub fn is_wf(&self) -> (b: bool)
        ensures
            b == self.wf(),
    {
        match self {
            QueryOrder::Unordered => true,
            QueryOrder::ASC(p) => p.is_wf(),
            QueryOrder::DESC(p) => p.is_wf(),
        }
    }

    /// Renders the ordering clause appended after the root filter; nothing
    /// when the block is unordered.
    pub fn to_query_string(&self) -> (r: String)
        requires
            self.wf(),
        ensures
            r@ == spec_render_order(*self),
    {
        match self {
            QueryOrder::Unordered => String::new(),
            QueryOrder::ASC(p) => {
                let mut out = String::from_str(", orderasc: ");
                let rp = p.to_query_string();
                out.append(rp.as_str());
                proof {
                    assert(out@ =~= spec_render_order(*self));
                }
                out
            },
            QueryOrder::DESC(p) => {
                let mut out = String::from_str(", orderdesc: ");
                let rp = p.to_query_string();
                out.append(rp.as_str());
                proof {
                    assert(out@ =~= spec_render_order(*self));
                }
                out
            },
        }
    }
}

/// The rendered ordering clause.
pub open spec fn spec_render_order(o: QueryOrder) -> Seq<char> {
    match o {
        QueryOrder::Unordered => Seq::empty(),
        QueryOrder::ASC(p) => ", orderasc: "@ + spec_render_predicate(p),
        QueryOrder::DESC(p) => ", orderdesc: "@ + spec_render_predicate(p),
    }
}

/// The rendered function-name token: the generated name, or the `var` keyword.
pub open spec fn spec_render_block_type(t: QueryBlockType) -> Seq<char> {
    match t {
        QueryBlockType::Query(name) => name@,
        QueryBlockType::Var => "var"@,
    }
}

/// The rendered pagination clause: `, first: <n>` when set.
pub open spec fn spec_first_part(first: Option<i64>) -> Seq<char> {
    match first {
        Some(n) => ", first: "@ + spec_dec_int(n as int),
        None => Seq::empty(),
    }
}

/// The rendered cascade marker: ` @cascade` when the flag is set.
pub open spec fn spec_cascade_part(cascade: bool) -> Seq<char> {
    if cascade {
        " @cascade"@
    } else {
        Seq::empty()
    }
}

/// The rendered variable binding: `<name> as ` when the block's uid set is bound.
pub open spec fn spec_variable_part(variable: Option<String>) -> Seq<char> {
    match variable {
        Some(v) => v@ + " as "@,
        None => Seq::empty(),
    }
}

/// The rendered text of a block: binding, name, root-filter parenthesis with
/// ordering and pagination, optional filter clause and cascade marker, then
/// the predicates one per line, indented one level, in braces.
pub open spec fn spec_render_query_block(b: QueryBlock) -> Seq<char> {
    spec_variable_part(b.variable) + spec_render_block_type(b.query_type) + "(func: "@
        + spec_render_condition(b.root_filter) + spec_render_order(b.order) + spec_first_part(
        b.first,
    ) + ")"@ + spec_filter_part(b.filter) + spec_cascade_part(b.cascade) + " {\n"@ + spec_indent(
        spec_join(spec_render_preds(b.predicates@), "\n"@),
    ) + "\n}"@
}

impl QueryBlockType {
    /// A query block kind under a fresh generated name of the form `query_<n>`,
    /// unique with overwhelming probability.
    pub fn query() -> (r: QueryBlockType)
        ensures
            r matches QueryBlockType::Query(name) && exists|n: u128|
                name@ == "query_"@ + spec_dec(n as nat),
    {
        let n: u128 = rand::random();
        let mut name = String::from_str("query_");
        let digits = u128_to_dec(n);
        name.append(digits.as_str());
        proof {
            assert(name@ == "query_"@ + spec_dec(n as nat));
        }
        QueryBlockType::Query(name)
    }

    /// The variable-binding block kind.
    pub fn var() -> (r: QueryBlockType)
        ensures
            r is Var,
    {
        QueryBlockType::Var
    }

    /// Renders the function-name token.
    pub fn to_query_string(&self) -> (r: String)
        ensures
            r@ == spec_render_block_type(*self),
    {
        match self {
            QueryBlockType::Query(name) => name.clone(),
            QueryBlockType::Var => String::from_str("var"),
        }
    }
}

impl QueryBlock {
    /// Well-formedness: every condition in the block obeys the
    /// regular-expression invariant, and there is at least one predicate.
    pub open spec fn wf(self) -> bool {
        &&& self.predicates@.len() >= 1
        &&& self.root_filter.wf()
        &&& (self.filter matches Some(c) ==> c.wf())
        &&& self.order.wf()
        &&& spec_preds_wf(self.predicates@)
    }

    /// Whether the block is well-formed.
    pub fn is_wf(&self) -> (b: bool)
        ensures
            b == self.wf(),
    {
        if self.predicates.len() == 0 {
            return false;
        }
        if !self.root_filter.is_wf() {
            return false;
        }
        match &self.filter {
            Some(c) => {
                if !c.is_wf() {
                    return false;
                }
            },
            None => {},
        }
        if !self.order.is_wf() {
            return false;
        }
        crate::predicate::preds_all_wf(&self.predicates)
    }

    /// Renders the block.
    pub fn to_query_string(&self) -> (r: String)
        requires
            self.wf(),
        ensures
            r@ == spec_render_query_block(*self),
    {
        let rendered = render_preds(&self.predicates);
        let joined = join_strings(&rendered, "\n");
        let indented = indent(joined.as_str());
        let mut out = match &self.variable {
            Some(v) => {
                let mut s = v.clone();
                s.append(" as ");
                s
            },
            None => String::new(),
        };
        proof {
            assert(out@ =~= spec_variable_part(self.variable));
        }
        let name = self.query_type.to_query_string();
        out.append(name.as_str());
        out.append("(func: ");
        let root = self.root_filter.to_query_string();
        out.append(root.as_str());
        let order = self.order.to_query_string();
        out.append(order.as_str());
        match &self.first {
            Some(n) => {
                out.append(", first: ");
                let digits = i64_to_dec(*n);
                out.append(digits.as_str());
            },
            None => {},
        }
        out.append(")");
        let filter_part = render_filter_part(&self.filter);
        out.append(filter_part.as_str());
        if self.cascade {
            out.append(" @cascade");
        }
        out.append(" {\n");
        out.append(indented.as_str());
        out.append("\n}");
        proof {
            assert(out@ =~= spec_render_query_block(*self));
        }
        out
    }
}

/// Assembles a [`QueryBlock`]: kind, predicates and root filter are mandatory,
/// the predicate list must not be empty, and every condition must be
/// well-formed. Everything else defaults to absent.
pub struct QueryBlockBuilder {
    pub query_type: Option<QueryBlockType>,
    pub predicates: Option<Vec<Predicate>>,
    pub root_filter: Option<Condition>,
    pub filter: Option<Condition>,
    pub first: Option<i64>,
    pub variable: Option<String>,
    pub order: QueryOrder,
    pub cascade: bool,
}

impl Default for QueryBlockBuilder {
    /// A builder with nothing set: no filter, no limit, unordered, cascade
    /// off, no variable binding.
    fn default() -> (r: QueryBlockBuilder)
        ensures
            r.query_type is None,
            r.predicates is None,
            r.root_filter is None,
            r.filter is None,
            r.first is None,
            r.variable is None,
            r.order is Unordered,
            r.cascade == false,
    {
        QueryBlockBuilder {
            query_type: None,
            predicates: None,
            root_filter: None,
            filter: None,
            first: None,
            variable: None,
            order: QueryOrder::Unordered,
            cascade: false,
        }
    }
}

impl QueryBlockBuilder {
    /// Sets the block kind.
    pub fn query_type(self, query_type: QueryBlockType) -> (r: QueryBlockBuilder)
        ensures
            r == (QueryBlockBuilder { query_type: Some(query_type), ..self }),
    {
        QueryBlockBuilder { query_type: Some(query_type), ..self }
    }

    /// Sets the predicates the block emits.
    pub fn predicates(self, predicates: Vec<Predicate>) -> (r: QueryBlockBuilder)
        ensures
            r == (QueryBlockBuilder { predicates: Some(predicates), ..self }),
    {
        QueryBlockBuilder { predicates: Some(predicates), ..self }
    }

    /// Sets the mandatory root filter that selects starting nodes.
    pub fn root_filter(self, root_filter: Condition) -> (r: QueryBlockBuilder)
        ensures
            r == (QueryBlockBuilder { root_filter: Some(root_filter), ..self }),
    {
        QueryBlockBuilder { root_filter: Some(root_filter), ..self }
    }

    /// Sets the post-filter.
    pub fn filter(self, filter: Condition) -> (r: QueryBlockBuilder)
        ensures
            r == (QueryBlockBuilder { filter: Some(filter), ..self }),
    {
        QueryBlockBuilder { filter: Some(filter), ..self }
    }

    /// Sets the result-count limit.
    pub fn first(self, first: i64) -> (r: QueryBlockBuilder)
        ensures
            r == (QueryBlockBuilder { first: Some(first), ..self }),
    {
        QueryBlockBuilder { first: Some(first), ..self }
    }

    /// Sets the variable name the block's uid set is bound to.
    pub fn variable(self, variable: String) -> (r: QueryBlockBuilder)
        ensures
            r == (QueryBlockBuilder { variable: Some(variable), ..self }),
    {
        QueryBlockBuilder { variable: Some(variable), ..self }
    }

    /// Sets the ordering.
    pub fn order(self, order: QueryOrder) -> (r: QueryBlockBuilder)
        ensures
            r == (QueryBlockBuilder { order: order, ..self }),
    {
        QueryBlockBuilder { order: order, ..self }
    }

    /// Sets the cascade flag.
    pub fn cascade(self, cascade: bool) -> (r: QueryBlockBuilder)
        ensures
            r == (QueryBlockBuilder { cascade: cascade, ..self }),
    {
        QueryBlockBuilder { cascade: cascade, ..self }
    }

    /// What [`QueryBlockBuilder::build`] returns: the finished block, or the
    /// first reason it cannot be finished.
    pub open spec fn spec_build(self) -> Result<QueryBlock, BuildError> {
        if self.query_type is None {
            Err(BuildError::MissingQueryType)
        } else if self.predicates is None {
            Err(BuildError::MissingPredicates)
        } else if self.predicates->0@.len() == 0 {
            Err(BuildError::EmptyPredicates)
        } else if self.root_filter is None {
            Err(BuildError::MissingRootFilter)
        } else {
            let b = QueryBlock {
                query_type: self.query_type->0,
                predicates: self.predicates->0,
                root_filter: self.root_filter->0,
                filter: self.filter,
                first: self.first,
                variable: self.variable,
                order: self.order,
                cascade: self.cascade,
            };
            if b.wf() {
                Ok(b)
            } else {
                Err(BuildError::InvalidCondition)
            }
        }
    }

    /// Validates the builder and hands out the block; every failure is a value.
    pub fn build(self) -> (r: Result<QueryBlock, BuildError>)
        ensures
            r == self.spec_build(),
            r matches Ok(b) ==> b.wf(),
    {
        let query_type = match self.query_type {
            Some(t) => t,
            None => {
                return Err(BuildError::MissingQueryType);
            },
        };
        let predicates = match self.predicates {
            Some(p) => p,
            None => {
                return Err(BuildError::MissingPredicates);
            },
        };
        if predicates.len() == 0 {
            return Err(BuildError::EmptyPredicates);
        }
        let root_filter = match self.root_filter {
            Some(c) => c,
            None => {
                return Err(BuildError::MissingRootFilter);
            },
        };
        let b = QueryBlock {
            query_type,
            predicates,
            root_filter,
            filter: self.filter,
            first: self.first,
            variable: self.variable,
            order: self.order,
            cascade: self.cascade,
        };
        if b.is_wf() {
            Ok(b)
        } else {
            Err(BuildError::InvalidCondition)
        }
    }
}

} // verus!
