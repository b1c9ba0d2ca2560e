//! The selection tree a query block returns: plain fields, counts, variable
//! bindings, raw variable references, and nested edges.
//!
//! An edge renders as a braced block whose child predicates stand one per
//! line, indented one level; nesting composes, so a predicate at depth N
//! carries exactly N tabs (see `text::lemma_indent_adds_one_tab_per_line`).

use vstd::prelude::*;
use vstd::string::StringExecFns;
use crate::condition::spec_render_condition;
use crate::condition::Condition;
use crate::error::BuildError;
use crate::text::indent;
use crate::text::join_strings;
use crate::text::spec_dec;
use crate::text::spec_indent;
use crate::text::spec_join;
use crate::text::spec_lines;
use crate::text::u128_to_dec;

verus! {

/// A named variable, with an optional output alias.
#[derive(Clone, Debug)]
pub struct Variable {
    pub name: String,
    pub alias: Option<String>,
}

/// A plain field, with an optional output alias.
#[derive(Clone, Debug)]
pub struct Field {
    pub name: String,
    pub alias: Option<String>,
}

/// One entry of a selection tree.
#[derive(Debug)]
pub enum Predicate {
    Count(Field),
    Field(Field),
    Edge(Edge),
    Val(Variable),
    ScalarVariable(String, Field),
    EdgeVariable(String, Edge),
}

/// A named nested selection: its child predicates, an optional filter and an
/// optional output alias. Built through [`EdgeBuilder`], which demands at
/// least one predicate.
#[derive(Debug)]
pub struct Edge {
    pub name: String,
    pub predicates: Vec<Predicate>,
    pub filter: Option<Condition>,
    pub alias: Option<String>,
}

/// The alias prefix of a rendered predicate: `<alias> : ` when set, else nothing.
pub open spec fn spec_alias_prefix(alias: Option<String>) -> Seq<char> {
    match alias {
        Some(a) => a@ + " : "@,
        None => Seq::empty(),
    }
}

pub(crate) fn alias_prefix(alias: &Option<String>) -> (r: String)
    ensures
        r@ == spec_alias_prefix(*alias),
{
    match alias {
        Some(a) => {
            let mut out = a.clone();
            out.append(" : ");
            out
        },
        None => String::new(),
    }
}

impl Variable {
    /// A variable with the given name and no alias.
    pub fn new(name: &str) -> (r: Variable)
        ensures
            r.name@ == name@,
            r.alias is None,
    {
        Variable { name: name.to_owned(), alias: None }
    }

    /// The same variable with the given output alias.
    pub fn alias(self, alias: &str) -> (r: Variable)
        ensures
            r.name == self.name,
            r.alias matches Some(a) && a@ == alias@,
    {
        Variable { name: self.name, alias: Some(alias.to_owned()) }
    }

    /// A variable under a fresh random name of the form `var_<n>`, no alias.
    pub fn random() -> (r: Variable)
        ensures
            r.alias is None,
            exists|n: u128| r.name@ == "var_"@ + spec_dec(n as nat),
    {
        let n: u128 = rand::random();
        let mut name = String::from_str("var_");
        let digits = u128_to_dec(n);
        name.append(digits.as_str());
        proof {
            assert(name@ == "var_"@ + spec_dec(n as nat));
        }
        Variable { name, alias: None }
    }

    /// The variable's name (not its alias).
    pub fn get_name(&self) -> (r: String)
        ensures
            r == self.name,
    {
        self.name.clone()
    }
}

impl Field {
    /// A field with the given name and no alias.
    pub fn new(name: &str) -> (r: Field)
        ensures
            r.name@ == name@,
            r.alias is None,
    {
        Field { name: name.to_owned(), alias: None }
    }

    /// The same field with the given output alias.
    pub fn alias(self, alias: &str) -> (r: Field)
        ensures
            r.name == self.name,
            r.alias matches Some(a) && a@ == alias@,
    {
        Field { name: self.name, alias: Some(alias.to_owned()) }
    }
}

/// The rendering of each predicate in a list, in order.
pub open spec fn spec_render_preds(ps: Seq<Predicate>) -> Seq<Seq<char>>
    decreases ps,
{
    if ps.len() == 0 {
        Seq::empty()
    } else {
        seq![spec_render_predicate(ps[0])] + spec_render_preds(ps.drop_first())
    }
}

/// The optional filter clause: ` @filter(<condition>)` when present.
pub open spec fn spec_filter_part(filter: Option<Condition>) -> Seq<char> {
    match filter {
        Some(c) => " @filter("@ + spec_render_condition(c) + ")"@,
        None => Seq::empty(),
    }
}

/// The rendered text of an edge: alias prefix, name, optional filter clause,
/// then the child predicates one per line, indented one level, in braces.
pub open spec fn spec_render_edge(e: Edge) -> Seq<char>
    decreases e,
{
    spec_alias_prefix(e.alias) + e.name@ + spec_filter_part(e.filter) + " {\n"@ + spec_indent(
        spec_join(spec_render_preds(e.predicates@), "\n"@),
    ) + "\n}"@
}

/// The rendered text of one predicate.
pub open spec fn spec_render_predicate(p: Predicate) -> Seq<char>
    decreases p,
{
    match p {
        Predicate::Field(f) => spec_alias_prefix(f.alias) + f.name@,
        Predicate::Val(v) => spec_alias_prefix(v.alias) + "val("@ + v.name@ + ")"@,
        Predicate::EdgeVariable(name, e) => name@ + " as "@ + spec_render_edge(e),
        Predicate::ScalarVariable(name, f) => name@ + " as "@ + f.name@,
        Predicate::Count(f) => spec_alias_prefix(f.alias) + "count("@ + f.name@ + ")"@,
        Predicate::Edge(e) => spec_render_edge(e),
    }
}

/// Every predicate in the list is well-formed.
pub open spec fn spec_preds_wf(ps: Seq<Predicate>) -> bool
    decreases ps,
{
    ps.len() == 0 || (ps[0].wf() && spec_preds_wf(ps.drop_first()))
}

pub proof fn lemma_preds_wf_index(ps: Seq<Predicate>, i: int)
    requires
        spec_preds_wf(ps),
        0 <= i < ps.len(),
    ensures
        ps[i].wf(),
    decreases ps,
{
    if i > 0 {
        lemma_preds_wf_index(ps.drop_first(), i - 1);
    }
}

pub proof fn lemma_preds_wf_from_forall(ps: Seq<Predicate>)
    requires
        forall|j: int| 0 <= j < ps.len() ==> ps[j].wf(),
    ensures
        spec_preds_wf(ps),
    decreases ps,
{
    if ps.len() > 0 {
        assert(forall|j: int|
            0 <= j < ps.drop_first().len() ==> ps.drop_first()[j] == ps[j + 1]);
        lemma_preds_wf_from_forall(ps.drop_first());
    }
}

pub proof fn lemma_render_preds_index(ps: Seq<Predicate>)
    ensures
        spec_render_preds(ps).len() == ps.len(),
        forall|j: int|
            0 <= j < ps.len() ==> spec_render_preds(ps)[j] == spec_render_predicate(ps[j]),
    decreases ps,
{
    if ps.len() > 0 {
        lemma_render_preds_index(ps.drop_first());
    }
}

/// Law: the lines of a rendered edge are its header line(s), then every line
/// of the joined child predicates carrying exactly one extra tab, then the
/// closing brace alone. Nesting applies this once per level, so a predicate
/// at depth N carries exactly N tabs.
pub proof fn lemma_edge_render_lines(e: Edge)
    ensures
        spec_lines(spec_render_edge(e)) =~= spec_lines(
            spec_alias_prefix(e.alias) + e.name@ + spec_filter_part(e.filter) + " {"@,
        ) + spec_lines(spec_join(spec_render_preds(e.predicates@), "\n"@)).map_values(
            |l: Seq<char>| seq!['\t'] + l,
        ) + spec_lines("}"@),
{
    let header0 = spec_alias_prefix(e.alias) + e.name@ + spec_filter_part(e.filter);
    let body = spec_join(spec_render_preds(e.predicates@), "\n"@);
    let body_ind = spec_indent(body);
    reveal_strlit(" {\n");
    reveal_strlit(" {");
    reveal_strlit("\n}");
    reveal_strlit("}");
    assert(" {\n"@ =~= " {"@ + seq!['\n']);
    assert("\n}"@ =~= seq!['\n'] + "}"@);
    assert(spec_render_edge(e) =~= (header0 + " {"@) + seq!['\n'] + (body_ind + seq!['\n']
        + "}"@));
    crate::text::lemma_lines_split_at_newline(header0 + " {"@, body_ind + seq!['\n'] + "}"@);
    crate::text::lemma_lines_split_at_newline(body_ind, "}"@);
    crate::text::lemma_indent_adds_one_tab_per_line(body);
    assert(spec_lines(body_ind) =~= spec_lines(body).map_values(|l: Seq<char>| seq!['\t'] + l));
}

impl Predicate {
    /// Well-formedness: every condition inside a nested edge obeys the
    /// regular-expression invariant, and every nested edge has a predicate.
    pub open spec fn wf(self) -> bool
        decreases self,
    {
        match self {
            Predicate::Edge(e) => e.wf(),
            Predicate::EdgeVariable(_name, e) => e.wf(),
            _ => true,
        }
    }

    /// Whether the predicate is well-formed.
    pub fn is_wf(&self) -> (b: bool)
        ensures
            b == self.wf(),
        decreases *self,
    {
        match self {
            Predicate::Edge(e) => e.is_wf(),
            Predicate::EdgeVariable(_name, e) => e.is_wf(),
            _ => true,
        }
    }

    /// Renders the predicate as one entry of a selection block.
    pub fn to_query_string(&self) -> (r: String)
        requires
            self.wf(),
        ensures
            r@ == spec_render_predicate(*self),
        decreases *self,
    {
        match self {
            Predicate::Field(f) => {
                let mut out = alias_prefix(&f.alias);
                out.append(f.name.as_str());
                proof {
                    assert(out@ =~= spec_render_predicate(*self));
                }
                out
            },
            Predicate::Val(v) => {
                let mut out = alias_prefix(&v.alias);
                out.append("val(");
                out.append(v.name.as_str());
                out.append(")");
                proof {
                    assert(out@ =~= spec_render_predicate(*self));
                }
                out
            },
            Predicate::EdgeVariable(name, e) => {
                let mut out = name.clone();
                out.append(" as ");
                let inner = e.to_query_string();
                out.append(inner.as_str());
                proof {
                    assert(out@ =~= spec_render_predicate(*self));
                }
                out
            },
            Predicate::ScalarVariable(name, f) => {
                let mut out = name.clone();
                out.append(" as ");
                out.append(f.name.as_str());
                proof {
                    assert(out@ =~= spec_render_predicate(*self));
                }
                out
            },
            Predicate::Count(f) => {
                let mut out = alias_prefix(&f.alias);
                out.append("count(");
                out.append(f.name.as_str());
                out.append(")");
                proof {
                    assert(out@ =~= spec_render_predicate(*self));
                }
                out
            },
            Predicate::Edge(e) => e.to_query_string(),
        }
    }
}

/// Whether every predicate of the list is well-formed.
pub(crate) fn preds_all_wf(ps: &Vec<Predicate>) -> (b: bool)
    ensures
        b == spec_preds_wf(ps@),
    decreases ps@,
{
    let mut i: usize = 0;
    while i < ps.len()
        invariant
            i <= ps@.len(),
            forall|j: int| 0 <= j < i ==> ps@[j].wf(),
        decreases ps@.len() - i,
    {
        if !ps[i].is_wf() {
            proof {
                if spec_preds_wf(ps@) {
                    lemma_preds_wf_index(ps@, i as int);
                }
            }
            return false;
        }
        i = i + 1;
    }
    proof {
        lemma_preds_wf_from_forall(ps@);
    }
    true
}

/// Renders each predicate of the list in order.
pub(crate) fn render_preds(ps: &Vec<Predicate>) -> (r: Vec<String>)
    requires
        spec_preds_wf(ps@),
    ensures
        r@.map_values(|s: String| s@) == spec_render_preds(ps@),
    decreases ps@,
{
    let mut rendered: Vec<String> = Vec::new();
    let mut i: usize = 0;
    while i < ps.len()
        invariant
            spec_preds_wf(ps@),
            i <= ps@.len(),
            rendered@.len() == i,
            forall|j: int| 0 <= j < i ==> rendered@[j]@ == spec_render_predicate(ps@[j]),
        decreases ps@.len() - i,
    {
        proof {
            lemma_preds_wf_index(ps@, i as int);
        }
        let rp = ps[i].to_query_string();
        rendered.push(rp);
        i = i + 1;
    }
    proof {
        lemma_render_preds_index(ps@);
        assert(rendered@.map_values(|s: String| s@) =~= spec_render_preds(ps@));
    }
    rendered
}

/// Renders the filter clause of an edge or query block.
pub(crate) fn render_filter_part(filter: &Option<Condition>) -> (r: String)
    requires
        filter matches Some(c) ==> c.wf(),
    ensures
        r@ == spec_filter_part(*filter),
{
    match filter {
        Some(c) => {
            let mut out = String::from_str(" @filter(");
            let inner = c.to_query_string();
            out.append(inner.as_str());
            out.append(")");
            proof {
                assert(out@ =~= spec_filter_part(*filter));
            }
            out
        },
        None => String::new(),
    }
}

impl Edge {
    /// Well-formedness: at least one predicate, a well-formed filter when one
    /// is set, and well-formed child predicates.
    pub open spec fn wf(self) -> bool
        decreases self,
    {
        &&& self.predicates@.len() >= 1
        &&& (self.filter matches Some(c) ==> c.wf())
        &&& spec_preds_wf(self.predicates@)
    }

    /// Whether the edge is well-formed.
    pub fn is_wf(&self) -> (b: bool)
        ensures
            b == self.wf(),
        decreases *self,
    {
        if self.predicates.len() == 0 {
            return false;
        }
        match &self.filter {
            Some(c) => {
                if !c.is_wf() {
                    return false;
                }
            },
            None => {},
        }
        preds_all_wf(&self.predicates)
    }

    /// Renders the edge as a braced selection block.
    pub fn to_query_string(&self) -> (r: String)
        requires
            self.wf(),
        ensures
            r@ == spec_render_edge(*self),
        decreases *self,
    {
        let rendered = render_preds(&self.predicates);
        let joined = join_strings(&rendered, "\n");
        let indented = indent(joined.as_str());
        let mut out = alias_prefix(&self.alias);
        out.append(self.name.as_str());
        let filter_part = render_filter_part(&self.filter);
        out.append(filter_part.as_str());
        out.append(" {\n");
        out.append(indented.as_str());
        out.append("\n}");
        proof {
            assert(out@ =~= spec_render_edge(*self));
        }
        out
    }
}

/// Assembles an [`Edge`]: name and predicates are mandatory, the predicate
/// list must not be empty, and every condition must be well-formed.
pub struct EdgeBuilder {
    pub name: Option<String>,
    pub predicates: Option<Vec<Predicate>>,
    pub filter: Option<Condition>,
    pub alias: Option<String>,
}

impl Default for EdgeBuilder {
    /// A builder with nothing set.
    fn default() -> (r: EdgeBuilder)
        ensures
            r.name is None,
            r.predicates is None,
            r.filter is None,
            r.alias is None,
    {
        EdgeBuilder { name: None, predicates: None, filter: None, alias: None }
    }
}

impl EdgeBuilder {
    /// Sets the edge's name.
    pub fn name(self, name: String) -> (r: EdgeBuilder)
        ensures
            r == (EdgeBuilder { name: Some(name), ..self }),
    {
        EdgeBuilder { name: Some(name), ..self }
    }

    /// Sets the edge's child predicates.
    pub fn predicates(self, predicates: Vec<Predicate>) -> (r: EdgeBuilder)
        ensures
            r == (EdgeBuilder { predicates: Some(predicates), ..self }),
    {
        EdgeBuilder { predicates: Some(predicates), ..self }
    }

    /// Sets the edge's filter condition.
    pub fn filter(self, filter: Condition) -> (r: EdgeBuilder)
        ensures
            r == (EdgeBuilder { filter: Some(filter), ..self }),
    {
        EdgeBuilder { filter: Some(filter), ..self }
    }

    /// Sets the edge's output alias.
    pub fn alias(self, alias: String) -> (r: EdgeBuilder)
        ensures
            r == (EdgeBuilder { alias: Some(alias), ..self }),
    {
        EdgeBuilder { alias: Some(alias), ..self }
    }

    /// What [`EdgeBuilder::build`] returns: the finished edge, or the first
    /// reason it cannot be finished.
    pub open spec fn spec_build(self) -> Result<Edge, BuildError> {
        if self.name is None {
            Err(BuildError::MissingName)
        } else if self.predicates is None {
            Err(BuildError::MissingPredicates)
        } else if self.predicates->0@.len() == 0 {
            Err(BuildError::EmptyPredicates)
        } else {
            let e = Edge {
                name: self.name->0,
                predicates: self.predicates->0,
                filter: self.filter,
                alias: self.alias,
            };
            if e.wf() {
                Ok(e)
            } else {
                Err(BuildError::InvalidCondition)
            }
        }
    }

    /// Validates the builder and hands out the edge; every failure is a value.
    pub fn build(self) -> (r: Result<Edge, BuildError>)
        ensures
            r == self.spec_build(),
            r matches Ok(e) ==> e.wf(),
    {
        let name = match self.name {
            Some(n) => n,
            None => {
                return Err(BuildError::MissingName);
            },
        };
        let predicates = match self.predicates {
            Some(p) => p,
            None => {
                return Err(BuildError::MissingPredicates);
            },
        };
        if predicates.len() == 0 {
            return Err(BuildError::EmptyPredicates);
        }
        let e = Edge { name, predicates, filter: self.filter, alias: self.alias };
        if e.is_wf() {
            Ok(e)
        } else {
            Err(BuildError::InvalidCondition)
        }
    }
}

} // verus!
