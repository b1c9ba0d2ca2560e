//! Boolean filter expressions and their exact textual rendering.
//!
//! Rendering is purely recursive and bottom-up over an immutable tree, so it
//! is deterministic: the text is a function of the tree alone
//! ([`spec_render_condition`]), and every renderer's contract says so.

use vstd::prelude::*;
use vstd::string::StringExecFns;
use crate::escape::json_quote_string;
use crate::escape::spec_json_quote;
use crate::predicate::Variable;
use crate::text::i64_to_dec;
use crate::text::join_strings;
use crate::text::spec_dec_int;
use crate::text::spec_join;

verus! {

/// The right-hand value of a comparison.
#[derive(Clone, Debug)]
pub enum ConditionValue {
    /// A quoted string: renders fully escaped in double quotes.
    String(String),
    /// An array of quoted strings.
    StringArr(Vec<String>),
    /// A regular-expression body: renders verbatim, the caller escapes.
    Regexp(String),
    /// A pre-formatted literal: renders verbatim, the caller escapes.
    Literal(String),
    /// An array of numeric literals, each already formatted.
    NumArr(Vec<String>),
    /// A reference to a query-bound variable.
    Val(Variable),
}

/// A filter condition: leaf comparisons and boolean combinators.
///
/// Invariant ([`Condition::wf`]): the value of a `REGEXP` condition is the
/// `Regexp` variant. Builders check it and refuse the tree otherwise.
#[derive(Debug)]
pub enum Condition {
    UID(String),
    EQ(String, ConditionValue),
    GE(String, ConditionValue),
    GT(String, ConditionValue),
    LE(String, ConditionValue),
    LT(String, ConditionValue),
    HAS(String),
    REGEXP(String, ConditionValue),
    AND(Box<Condition>, Box<Condition>),
    OR(Box<Condition>, Box<Condition>),
    NOT(Box<Condition>),
}

/// The rendered text of a condition value.
pub open spec fn spec_render_value(v: ConditionValue) -> Seq<char> {
    match v {
        ConditionValue::String(s) => spec_json_quote(s@),
        ConditionValue::StringArr(items) => "["@ + spec_join(
            items@.map_values(|s: String| spec_json_quote(s@)),
            ", "@,
        ) + "]"@,
        ConditionValue::Regexp(s) => s@,
        ConditionValue::Literal(s) => s@,
        ConditionValue::NumArr(items) => "["@ + spec_join(
            items@.map_values(|s: String| s@),
            ", "@,
        ) + "]"@,
        ConditionValue::Val(var) => "val("@ + var.name@ + ")"@,
    }
}

/// The rendered text of a condition. Combinators parenthesize fully, whatever
/// the nesting; no precedence-based elision.
pub open spec fn spec_render_condition(c: Condition) -> Seq<char>
    decreases c,
{
    match c {
        Condition::UID(id) => "uid("@ + id@ + ")"@,
        Condition::EQ(p, v) => "eq("@ + p@ + ", "@ + spec_render_value(v) + ")"@,
        Condition::GE(p, v) => "ge("@ + p@ + ", "@ + spec_render_value(v) + ")"@,
        Condition::GT(p, v) => "gt("@ + p@ + ", "@ + spec_render_value(v) + ")"@,
        Condition::LE(p, v) => "le("@ + p@ + ", "@ + spec_render_value(v) + ")"@,
        Condition::LT(p, v) => "lt("@ + p@ + ", "@ + spec_render_value(v) + ")"@,
        Condition::HAS(p) => "has("@ + p@ + ")"@,
        Condition::REGEXP(p, v) => "regexp("@ + p@ + ", /"@ + (match v {
            ConditionValue::Regexp(body) => body@,
            _ => Seq::empty(),
        }) + "/)"@,
        Condition::AND(l, r) => "("@ + spec_render_condition(*l) + " AND "@ + spec_render_condition(
            *r,
        ) + ")"@,
        Condition::OR(l, r) => "("@ + spec_render_condition(*l) + " OR "@ + spec_render_condition(
            *r,
        ) + ")"@,
        Condition::NOT(inner) => "(not "@ + spec_render_condition(*inner) + ")"@,
    }
}

impl ConditionValue {
    /// A quoted-string value.
    pub fn string(value: &str) -> (r: ConditionValue)
        ensures
            r matches ConditionValue::String(s) && s@ == value@,
    {
        ConditionValue::String(value.to_owned())
    }

    /// A regular-expression body, rendered verbatim.
    pub fn regexp(value: &str) -> (r: ConditionValue)
        ensures
            r matches ConditionValue::Regexp(s) && s@ == value@,
    {
        ConditionValue::Regexp(value.to_owned())
    }

    /// A pre-formatted literal, rendered verbatim.
    pub fn literal(value: &str) -> (r: ConditionValue)
        ensures
            r matches ConditionValue::Literal(s) && s@ == value@,
    {
        ConditionValue::Literal(value.to_owned())
    }

    /// An integer literal, rendered in decimal.
    pub fn literal_int(value: i64) -> (r: ConditionValue)
        ensures
            r matches ConditionValue::Literal(s) && s@ == spec_dec_int(value as int),
    {
        ConditionValue::Literal(i64_to_dec(value))
    }

    /// An array of quoted strings.
    pub fn string_arr(value: Vec<&str>) -> (r: ConditionValue)
        ensures
            r matches ConditionValue::StringArr(items) && items@.map_values(|s: String| s@)
                == value@.map_values(|s: &str| s@),
    {
        let mut items: Vec<String> = Vec::new();
        let mut i: usize = 0;
        while i < value.len()
            invariant
                i <= value@.len(),
                items@.len() == i,
                forall|j: int| 0 <= j < i ==> items@[j]@ == value@[j]@,
            decreases value@.len() - i,
        {
            items.push(value[i].to_owned());
            i = i + 1;
        }
        proof {
            assert(items@.map_values(|s: String| s@) =~= value@.map_values(|s: &str| s@));
        }
        ConditionValue::StringArr(items)
    }

    /// An array of integer literals, each rendered in decimal.
    pub fn num_arr(value: Vec<i64>) -> (r: ConditionValue)
        ensures
            r matches ConditionValue::NumArr(items) && items@.map_values(|s: String| s@)
                == value@.map_values(|n: i64| spec_dec_int(n as int)),
    {
        let mut items: Vec<String> = Vec::new();
        let mut i: usize = 0;
        while i < value.len()
            invariant
                i <= value@.len(),
                items@.len() == i,
                forall|j: int| 0 <= j < i ==> items@[j]@ == spec_dec_int(value@[j] as int),
            decreases value@.len() - i,
        {
            items.push(i64_to_dec(value[i]));
            i = i + 1;
        }
        proof {
            assert(items@.map_values(|s: String| s@) =~= value@.map_values(
                |n: i64| spec_dec_int(n as int),
            ));
        }
        ConditionValue::NumArr(items)
    }

    /// Renders the value as it stands inside a comparison.
    pub fn to_query_string(&self) -> (r: String)
        ensures
            r@ == spec_render_value(*self),
    {
        match self {
            ConditionValue::Regexp(s) => s.clone(),
            ConditionValue::Literal(s) => s.clone(),
            ConditionValue::String(s) => json_quote_string(s.as_str()),
            ConditionValue::Val(v) => {
                let mut out = String::from_str("val(");
                out.append(v.name.as_str());
                out.append(")");
                proof {
                    assert(out@ =~= spec_render_value(*self));
                }
                out
            },
            ConditionValue::StringArr(items) => {
                let mut rendered: Vec<String> = Vec::new();
                let mut i: usize = 0;
                while i < items.len()
                    invariant
                        i <= items@.len(),
                        rendered@.len() == i,
                        forall|j: int| 0 <= j < i ==> rendered@[j]@ == spec_json_quote(items@[j]@),
                    decreases items@.len() - i,
                {
                    rendered.push(json_quote_string(items[i].as_str()));
                    i = i + 1;
                }
                let mut out = String::from_str("[");
                let joined = join_strings(&rendered, ", ");
                out.append(joined.as_str());
                out.append("]");
                proof {
                    assert(rendered@.map_values(|s: String| s@) =~= items@.map_values(
                        |s: String| spec_json_quote(s@),
                    ));
                    assert(out@ =~= spec_render_value(*self));
                }
                out
            },
            ConditionValue::NumArr(items) => {
                let mut out = String::from_str("[");
                let joined = join_strings(items, ", ");
                out.append(joined.as_str());
                out.append("]");
                proof {
                    assert(out@ =~= spec_render_value(*self));
                }
                out
            },
        }
    }
}

impl Condition {
    /// Wraps a variable name in the length function, for guards such as
    /// an equality on `len(<variable>)`.
    pub fn len(value: &str) -> (r: String)
        ensures
            r@ == "len("@ + value@ + ")"@,
    {
        let mut out = String::from_str("len(");
        out.append(value);
        out.append(")");
        out
    }

    /// An existence test on a field.
    pub fn has(value: &str) -> (r: Condition)
        ensures
            r matches Condition::HAS(p) && p@ == value@,
    {
        Condition::HAS(value.to_owned())
    }

    /// A node-id-set test.
    pub fn uid(value: &str) -> (r: Condition)
        ensures
            r matches Condition::UID(id) && id@ == value@,
    {
        Condition::UID(value.to_owned())
    }

    /// Well-formedness: every regexp comparison in the tree holds a
    /// regexp-variant value.
    pub open spec fn wf(self) -> bool
        decreases self,
    {
        match self {
            Condition::REGEXP(_p, v) => v is Regexp,
            Condition::AND(l, r) => l.wf() && r.wf(),
            Condition::OR(l, r) => l.wf() && r.wf(),
            Condition::NOT(inner) => inner.wf(),
            _ => true,
        }
    }

    /// Whether the condition is well-formed.
    pub fn is_wf(&self) -> (b: bool)
        ensures
            b == self.wf(),
        decreases *self,
    {
        match self {
            Condition::REGEXP(_p, v) => match v {
                ConditionValue::Regexp(_body) => true,
                _ => false,
            },
            Condition::AND(l, r) => l.is_wf() && r.is_wf(),
            Condition::OR(l, r) => l.is_wf() && r.is_wf(),
            Condition::NOT(inner) => inner.is_wf(),
            _ => true,
        }
    }

    /// Renders the condition. Rendering is total over well-formed trees and a
    /// pure function of the tree, hence deterministic.
    pub fn to_query_string(&self) -> (r: String)
        requires
            self.wf(),
        ensures
            r@ == spec_render_condition(*self),
        decreases *self,
    {
        match self {
            Condition::UID(id) => {
                let mut out = String::from_str("uid(");
                out.append(id.as_str());
                out.append(")");
                proof {
                    assert(out@ =~= spec_render_condition(*self));
                }
                out
            },
            Condition::EQ(p, v) => {
                let mut out = String::from_str("eq(");
                out.append(p.as_str());
                out.append(", ");
                let rv = v.to_query_string();
                out.append(rv.as_str());
                out.append(")");
                proof {
                    assert(out@ =~= spec_render_condition(*self));
                }
                out
            },
            Condition::GE(p, v) => {
                let mut out = String::from_str("ge(");
                out.append(p.as_str());
                out.append(", ");
                let rv = v.to_query_string();
                out.append(rv.as_str());
                out.append(")");
                proof {
                    assert(out@ =~= spec_render_condition(*self));
                }
                out
            },
            Condition::GT(p, v) => {
                let mut out = String::from_str("gt(");
                out.append(p.as_str());
                out.append(", ");
                let rv = v.to_query_string();
                out.append(rv.as_str());
                out.append(")");
                proof {
                    assert(out@ =~= spec_render_condition(*self));
                }
                out
            },
            Condition::LE(p, v) => {
                let mut out = String::from_str("le(");
                out.append(p.as_str());
                out.append(", ");
                let rv = v.to_query_string();
                out.append(rv.as_str());
                out.append(")");
                proof {
                    assert(out@ =~= spec_render_condition(*self));
                }
                out
            },
            Condition::LT(p, v) => {
                let mut out = String::from_str("lt(");
                out.append(p.as_str());
                out.append(", ");
                let rv = v.to_query_string();
                out.append(rv.as_str());
                out.append(")");
                proof {
                    assert(out@ =~= spec_render_condition(*self));
                }
                out
            },
            Condition::HAS(p) => {
                let mut out = String::from_str("has(");
                out.append(p.as_str());
                out.append(")");
                proof {
                    assert(out@ =~= spec_render_condition(*self));
                }
                out
            },
            Condition::REGEXP(p, v) => {
                let body = match v {
                    ConditionValue::Regexp(body) => body.as_str(),
                    _ => "",
                };
                let mut out = String::from_str("regexp(");
                out.append(p.as_str());
                out.append(", /");
                out.append(body);
                out.append("/)");
                proof {
                    assert(out@ =~= spec_render_condition(*self));
                }
                out
            },
            Condition::AND(l, r) => {
                let mut out = String::from_str("(");
                let rl = l.to_query_string();
                out.append(rl.as_str());
                out.append(" AND ");
                let rr = r.to_query_string();
                out.append(rr.as_str());
                out.append(")");
                proof {
                    assert(out@ =~= spec_render_condition(*self));
                }
                out
            },
            Condition::OR(l, r) => {
                let mut out = String::from_str("(");
                let rl = l.to_query_string();
                out.append(rl.as_str());
                out.append(" OR ");
                let rr = r.to_query_string();
                out.append(rr.as_str());
                out.append(")");
                proof {
                    assert(out@ =~= spec_render_condition(*self));
                }
                out
            },
            Condition::NOT(inner) => {
                let mut out = String::from_str("(not ");
                let ri = inner.to_query_string();
                out.append(ri.as_str());
                out.append(")");
                proof {
                    assert(out@ =~= spec_render_condition(*self));
                }
                out
            },
        }
    }
}

/// Law: rendering is deterministic. The rendered text is a function of the
/// tree alone, so equal trees render to byte-identical text.
pub proof fn lemma_render_deterministic(c1: Condition, c2: Condition)
    requires
        c1 == c2,
    ensures
        spec_render_condition(c1) == spec_render_condition(c2),
{
}

/// Law: a conjunction always renders fully parenthesized, whatever the
/// nesting depth of its operands: `(<left> AND <right>)` verbatim.
pub proof fn lemma_and_fully_parenthesized(c: Condition)
    ensures
        c matches Condition::AND(l, r) ==> spec_render_condition(c) == "("@
            + spec_render_condition(*l) + " AND "@ + spec_render_condition(*r) + ")"@,
{
}

/// Law: a disjunction always renders fully parenthesized, whatever the
/// nesting depth of its operands: `(<left> OR <right>)` verbatim.
pub proof fn lemma_or_fully_parenthesized(c: Condition)
    ensures
        c matches Condition::OR(l, r) ==> spec_render_condition(c) == "("@
            + spec_render_condition(*l) + " OR "@ + spec_render_condition(*r) + ")"@,
{
}

/// Law: a negation always renders fully parenthesized: `(not <inner>)` verbatim.
pub proof fn lemma_not_fully_parenthesized(c: Condition)
    ensures
        c matches Condition::NOT(inner) ==> spec_render_condition(c) == "(not "@
            + spec_render_condition(*inner) + ")"@,
{
}

} // verus!
