//! Schema text: type blocks listing predicate names, followed by one line per
//! distinct predicate across all types. When two types declare the same
//! predicate name, the later declaration wins; the line keeps the position of
//! the first declaration.

use vstd::prelude::*;
use vstd::pervasive::VecAdditionalExecFns;
use vstd::string::StringExecFns;
use crate::text::join_strings;
use crate::text::spec_join;

verus! {

/// The value type of a predicate.
#[derive(Clone, Copy, Debug)]
pub enum PredicateType {
    String,
    StringArray,
    UID,
    UIDArray,
    INT,
    INTArray,
}

/// An index directive on a predicate.
#[derive(Clone, Copy, Debug)]
pub enum Indexing {
    TERM,
    TRIGRAM,
    INT,
    EXACT,
}

/// One predicate's declaration: its type, index directives, and whether it
/// carries the upsert directive.
#[derive(Debug)]
pub struct PredicateDefinition {
    pub name: String,
    pub predicate_type: PredicateType,
    pub indexing: Vec<Indexing>,
    pub upsert: bool,
}

/// One type block: its name and the predicates it lists.
#[derive(Debug)]
pub struct SchemaDefinition {
    pub name: String,
    pub predicates: Vec<PredicateDefinition>,
}

/// A whole schema: its type blocks in order.
#[derive(Debug)]
pub struct Schema {
    pub definitions: Vec<SchemaDefinition>,
}

/// The rendered type token of a predicate.
pub open spec fn spec_render_ptype(t: PredicateType) -> Seq<char> {
    match t {
        PredicateType::String => "string"@,
        PredicateType::StringArray => "[string]"@,
        PredicateType::UID => "uid"@,
        PredicateType::UIDArray => "[uid]"@,
        PredicateType::INT => "int"@,
        PredicateType::INTArray => "[int]"@,
    }
}

/// The rendered token of an index directive.
pub open spec fn spec_render_indexing(i: Indexing) -> Seq<char> {
    match i {
        Indexing::TERM => "term"@,
        Indexing::TRIGRAM => "trigram"@,
        Indexing::INT => "int"@,
        Indexing::EXACT => "exact"@,
    }
}

/// The rendered index clause: ` @index(<tokens>)` when any directive is set.
pub open spec fn spec_index_part(ixs: Seq<Indexing>) -> Seq<char> {
    if ixs.len() == 0 {
        Seq::empty()
    } else {
        " @index("@ + spec_join(ixs.map_values(|i: Indexing| spec_render_indexing(i)), ", "@)
            + ")"@
    }
}

/// The rendered upsert directive: ` @upsert` when set.
pub open spec fn spec_upsert_part(upsert: bool) -> Seq<char> {
    if upsert {
        " @upsert"@
    } else {
        Seq::empty()
    }
}

/// The rendered declaration line of one predicate.
pub open spec fn spec_render_pred_def(p: PredicateDefinition) -> Seq<char> {
    p.name@ + ": "@ + spec_render_ptype(p.predicate_type) + spec_index_part(p.indexing@)
        + spec_upsert_part(p.upsert) + " ."@
}

/// The rendered type block of one definition.
pub open spec fn spec_render_schema_def(d: SchemaDefinition) -> Seq<char> {
    "type "@ + d.name@ + " {\n\t"@ + spec_join(
        d.predicates@.map_values(|p: PredicateDefinition| p.name@),
        "\n\t"@,
    ) + "\n}"@
}

/// The index of the first name equal to `target`, or -1 when none is.
pub open spec fn spec_find_name(names: Seq<Seq<char>>, target: Seq<char>) -> int
    decreases names,
{
    if names.len() == 0 {
        -1
    } else if names[0] == target {
        0
    } else {
        let r = spec_find_name(names.drop_first(), target);
        if r < 0 {
            -1
        } else {
            1 + r
        }
    }
}

/// All predicates of all definitions, in declaration order.
pub open spec fn spec_flatten_preds(defs: Seq<SchemaDefinition>) -> Seq<PredicateDefinition>
    decreases defs,
{
    if defs.len() == 0 {
        Seq::empty()
    } else {
        spec_flatten_preds(defs.drop_last()) + defs.last().predicates@
    }
}

/// One line per distinct predicate name: a repeated name overwrites the
/// earlier declaration in place, so the last declaration wins and the line
/// keeps its first position.
pub open spec fn spec_dedup_preds(ps: Seq<PredicateDefinition>) -> Seq<PredicateDefinition>
    decreases ps,
{
    if ps.len() == 0 {
        Seq::empty()
    } else {
        let acc = spec_dedup_preds(ps.drop_last());
        let i = spec_find_name(acc.map_values(|q: PredicateDefinition| q.name@), ps.last().name@);
        if i < 0 {
            acc.push(ps.last())
        } else {
            acc.update(i, ps.last())
        }
    }
}

/// The rendered schema: the type blocks joined by newlines, a blank line,
/// then one declaration line per distinct predicate.
pub open spec fn spec_render_schema(s: Schema) -> Seq<char> {
    spec_join(s.definitions@.map_values(|d: SchemaDefinition| spec_render_schema_def(d)), "\n"@)
        + "\n\n"@ + spec_join(
        spec_dedup_preds(spec_flatten_preds(s.definitions@)).map_values(
            |p: PredicateDefinition| spec_render_pred_def(p),
        ),
        "\n"@,
    )
}

proof fn lemma_find_name_props(names: Seq<Seq<char>>, target: Seq<char>)
    ensures
        -1 <= spec_find_name(names, target) < names.len(),
        spec_find_name(names, target) == -1 ==> forall|j: int|
            0 <= j < names.len() ==> names[j] != target,
        spec_find_name(names, target) >= 0 ==> names[spec_find_name(names, target)] == target,
        spec_find_name(names, target) >= 0 ==> forall|j: int|
            0 <= j < spec_find_name(names, target) ==> names[j] != target,
    decreases names,
{
    if names.len() == 0 {
    } else if names[0] == target {
    } else {
        lemma_find_name_props(names.drop_first(), target);
        assert(forall|j: int|
            0 <= j < names.drop_first().len() ==> names.drop_first()[j] == names[j + 1]);
        let r = spec_find_name(names.drop_first(), target);
        if r == -1 {
            assert forall|j: int| 0 <= j < names.len() implies names[j] != target by {
                if j > 0 {
                    assert(names.drop_first()[j - 1] != target);
                }
            }
        } else {
            assert(names[1 + r] == names.drop_first()[r]);
            assert forall|j: int| 0 <= j < 1 + r implies names[j] != target by {
                if j > 0 {
                    assert(names.drop_first()[j - 1] != target);
                }
            }
        }
    }
}

impl Indexing {
    /// Renders the directive's token.
    pub fn to_schema_string(&self) -> (r: String)
        ensures
            r@ == spec_render_indexing(*self),
    {
        match self {
            Indexing::TERM => String::from_str("term"),
            Indexing::TRIGRAM => String::from_str("trigram"),
            Indexing::INT => String::from_str("int"),
            Indexing::EXACT => String::from_str("exact"),
        }
    }
}

impl PredicateType {
    /// Renders the type token.
    pub fn to_schema_string(&self) -> (r: String)
        ensures
            r@ == spec_render_ptype(*self),
    {
        match self {
            PredicateType::String => String::from_str("string"),
            PredicateType::StringArray => String::from_str("[string]"),
            PredicateType::UID => String::from_str("uid"),
            PredicateType::UIDArray => String::from_str("[uid]"),
            PredicateType::INT => String::from_str("int"),
            PredicateType::INTArray => String::from_str("[int]"),
        }
    }
}

impl PredicateDefinition {
    /// A predicate declaration with no index directives and no upsert directive.
    pub fn new(name: &str, predicate_type: PredicateType) -> (r: PredicateDefinition)
        ensures
            r.name@ == name@,
            r.predicate_type == predicate_type,
            r.indexing@ == Seq::<Indexing>::empty(),
            r.upsert == false,
    {
        PredicateDefinition {
            name: name.to_owned(),
            predicate_type,
            indexing: Vec::new(),
            upsert: false,
        }
    }

    /// The same declaration with the index directive appended.
    pub fn add_index(self, index: Indexing) -> (r: PredicateDefinition)
        ensures
            r.name == self.name,
            r.predicate_type == self.predicate_type,
            r.indexing@ == self.indexing@.push(index),
            r.upsert == self.upsert,
    {
        let mut indexing = self.indexing;
        indexing.push(index);
        PredicateDefinition {
            name: self.name,
            predicate_type: self.predicate_type,
            indexing,
            upsert: self.upsert,
        }
    }

    /// Appends the index directive in place.
    pub fn add_index_ref(&mut self, index: Indexing)
        ensures
            final(self).name == old(self).name,
            final(self).predicate_type == old(self).predicate_type,
            final(self).indexing@ == old(self).indexing@.push(index),
            final(self).upsert == old(self).upsert,
    {
        self.indexing.push(index);
    }

    /// The same declaration with the upsert directive set.
    pub fn upsert(self) -> (r: PredicateDefinition)
        ensures
            r.name == self.name,
            r.predicate_type == self.predicate_type,
            r.indexing == self.indexing,
            r.upsert == true,
    {
        PredicateDefinition {
            name: self.name,
            predicate_type: self.predicate_type,
            indexing: self.indexing,
            upsert: true,
        }
    }

    /// Renders the declaration line.
    pub fn to_schema_string(&self) -> (r: String)
        ensures
            r@ == spec_render_pred_def(*self),
    {
        let mut out = self.name.clone();
        out.append(": ");
        let ptype = self.predicate_type.to_schema_string();
        out.append(ptype.as_str());
        if self.indexing.len() > 0 {
            let mut tokens: Vec<String> = Vec::new();
            let mut i: usize = 0;
            while i < self.indexing.len()
                invariant
                    i <= self.indexing@.len(),
                    tokens@.len() == i,
                    forall|j: int|
                        0 <= j < i ==> tokens@[j]@ == spec_render_indexing(self.indexing@[j]),
                decreases self.indexing@.len() - i,
            {
                tokens.push(self.indexing[i].to_schema_string());
                i = i + 1;
            }
            out.append(" @index(");
            let joined = join_strings(&tokens, ", ");
            out.append(joined.as_str());
            out.append(")");
            proof {
                assert(tokens@.map_values(|s: String| s@) =~= self.indexing@.map_values(
                    |ix: Indexing| spec_render_indexing(ix),
                ));
            }
        }
        if self.upsert {
            out.append(" @upsert");
        }
        out.append(" .");
        proof {
            assert(out@ =~= spec_render_pred_def(*self));
        }
        out
    }
}

impl SchemaDefinition {
    /// A type block with no predicates yet.
    pub fn new(name: &str) -> (r: SchemaDefinition)
        ensures
            r.name@ == name@,
            r.predicates@ == Seq::<PredicateDefinition>::empty(),
    {
        SchemaDefinition { name: name.to_owned(), predicates: Vec::new() }
    }

    /// The same block with the predicate appended.
    pub fn add_predicate(self, predicate: PredicateDefinition) -> (r: SchemaDefinition)
        ensures
            r.name == self.name,
            r.predicates@ == self.predicates@.push(predicate),
    {
        let mut predicates = self.predicates;
        predicates.push(predicate);
        SchemaDefinition { name: self.name, predicates }
    }

    /// Appends the predicate in place.
    pub fn add_predicate_ref(&mut self, predicate: PredicateDefinition)
        ensures
            final(self).name == old(self).name,
            final(self).predicates@ == old(self).predicates@.push(predicate),
    {
        self.predicates.push(predicate);
    }

    /// Renders the type block.
    pub fn to_schema_string(&self) -> (r: String)
        ensures
            r@ == spec_render_schema_def(*self),
    {
        let mut names: Vec<String> = Vec::new();
        let mut i: usize = 0;
        while i < self.predicates.len()
            invariant
                i <= self.predicates@.len(),
                names@.len() == i,
                forall|j: int| 0 <= j < i ==> names@[j]@ == self.predicates@[j].name@,
            decreases self.predicates@.len() - i,
        {
            names.push(self.predicates[i].name.clone());
            i = i + 1;
        }
        let mut out = String::from_str("type ");
        out.append(self.name.as_str());
        out.append(" {\n\t");
        let joined = join_strings(&names, "\n\t");
        out.append(joined.as_str());
        out.append("\n}");
        proof {
            assert(names@.map_values(|s: String| s@) =~= self.predicates@.map_values(
                |p: PredicateDefinition| p.name@,
            ));
            assert(out@ =~= spec_render_schema_def(*self));
        }
        out
    }
}

fn find_name(names: &Vec<String>, target: &String) -> (r: Option<usize>)
    ensures
        match r {
            Some(i) => i < names@.len() && names@[i as int]@ == target@ && spec_find_name(
                names@.map_values(|s: String| s@),
                target@,
            ) == i as int,
            None => spec_find_name(names@.map_values(|s: String| s@), target@) == -1,
        },
{
    let ghost mapped = names@.map_values(|s: String| s@);
    let mut i: usize = 0;
    while i < names.len()
        invariant
            mapped == names@.map_values(|s: String| s@),
            i <= names@.len(),
            forall|j: int| 0 <= j < i ==> names@[j]@ != target@,
        decreases names@.len() - i,
    {
        if names[i] == *target {
            proof {
                lemma_find_name_props(mapped, target@);
                if spec_find_name(mapped, target@) == -1 {
                    assert(mapped[i as int] != target@);
                }
                let f = spec_find_name(mapped, target@);
                if f < i as int {
                    assert(names@[f]@ != target@);
                    assert(mapped[f] == target@);
                }
                if f > i as int {
                    assert(mapped[i as int] != target@);
                }
            }
            return Some(i);
        }
        i = i + 1;
    }
    proof {
        lemma_find_name_props(mapped, target@);
        if spec_find_name(mapped, target@) >= 0 {
            let f = spec_find_name(mapped, target@);
            assert(names@[f]@ != target@);
            assert(mapped[f] == target@);
        }
    }
    None
}

impl Schema {
    /// A schema with no type blocks yet.
    pub fn new() -> (r: Schema)
        ensures
            r.definitions@ == Seq::<SchemaDefinition>::empty(),
    {
        Schema { definitions: Vec::new() }
    }

    /// The same schema with the type block appended.
    pub fn add_definition(self, definition: SchemaDefinition) -> (r: Schema)
        ensures
            r.definitions@ == self.definitions@.push(definition),
    {
        let mut definitions = self.definitions;
        definitions.push(definition);
        Schema { definitions }
    }

    /// Appends the type block in place.
    pub fn add_definition_ref(&mut self, definition: SchemaDefinition)
        ensures
            final(self).definitions@ == old(self).definitions@.push(definition),
    {
        self.definitions.push(definition);
    }

    /// Renders the whole schema.
    pub fn to_schema_string(&self) -> (r: String)
        ensures
            r@ == spec_render_schema(*self),
    {
        let defs = &self.definitions;
        let mut def_texts: Vec<String> = Vec::new();
        let mut d: usize = 0;
        while d < defs.len()
            invariant
                d <= defs@.len(),
                def_texts@.len() == d,
                forall|j: int| 0 <= j < d ==> def_texts@[j]@ == spec_render_schema_def(defs@[j]),
            decreases defs@.len() - d,
        {
            def_texts.push(defs[d].to_schema_string());
            d = d + 1;
        }
        let mut out = join_strings(&def_texts, "\n");
        proof {
            assert(def_texts@.map_values(|s: String| s@) =~= defs@.map_values(
                |sd: SchemaDefinition| spec_render_schema_def(sd),
            ));
        }
        out.append("\n\n");

        let mut names: Vec<String> = Vec::new();
        let mut lines: Vec<String> = Vec::new();
        let mut d2: usize = 0;
        while d2 < defs.len()
            invariant
                d2 <= defs@.len(),
                names@.len() == lines@.len(),
                names@.map_values(|s: String| s@) == spec_dedup_preds(
                    spec_flatten_preds(defs@.take(d2 as int)),
                ).map_values(|p: PredicateDefinition| p.name@),
                lines@.map_values(|s: String| s@) == spec_dedup_preds(
                    spec_flatten_preds(defs@.take(d2 as int)),
                ).map_values(|p: PredicateDefinition| spec_render_pred_def(p)),
            decreases defs@.len() - d2,
        {
            let preds = &defs[d2].predicates;
            let mut j: usize = 0;
            while j < preds.len()
                invariant
                    d2 < defs@.len(),
                    preds == &defs@[d2 as int].predicates,
                    j <= preds@.len(),
                    names@.len() == lines@.len(),
                    names@.map_values(|s: String| s@) == spec_dedup_preds(
                        spec_flatten_preds(defs@.take(d2 as int)) + preds@.take(j as int),
                    ).map_values(|p: PredicateDefinition| p.name@),
                    lines@.map_values(|s: String| s@) == spec_dedup_preds(
                        spec_flatten_preds(defs@.take(d2 as int)) + preds@.take(j as int),
                    ).map_values(|p: PredicateDefinition| spec_render_pred_def(p)),
                decreases preds@.len() - j,
            {
                let ghost processed = spec_flatten_preds(defs@.take(d2 as int)) + preds@.take(
                    j as int,
                );
                let ghost acc = spec_dedup_preds(processed);
                let p = &preds[j];
                let line = p.to_schema_string();
                proof {
                    assert((processed.push(defs@[d2 as int].predicates@[j as int])).drop_last()
                        =~= processed);
                    assert(spec_flatten_preds(defs@.take(d2 as int)) + preds@.take(j + 1)
                        =~= processed.push(defs@[d2 as int].predicates@[j as int]));
                }
                let ghost x = defs@[d2 as int].predicates@[j as int];
                proof {
                    assert(acc.map_values(|q: PredicateDefinition| q.name@) == names@.map_values(
                        |s: String| s@,
                    ));
                }
                proof {
                    assert(preds@[j as int] == x);
                    assert(line@ == spec_render_pred_def(x));
                }
                let ghost old_names = names@;
                let ghost old_lines = lines@;
                let found = find_name(&names, &p.name);
                match found {
                    Some(i) => {
                        lines.set(i, line);
                        proof {
                            let new_acc = acc.update(i as int, x);
                            assert(spec_find_name(
                                acc.map_values(|q: PredicateDefinition| q.name@),
                                x.name@,
                            ) == i as int);
                            assert(spec_dedup_preds(processed.push(x)) == new_acc);
                            assert(lines@ == old_lines.update(i as int, line));
                            assert(new_acc[i as int].name@ == old_names[i as int]@);
                            assert forall|t: int| 0 <= t < old_names.len() implies old_names[t]@
                                == new_acc.map_values(|q: PredicateDefinition| q.name@)[t] by {
                                if t != i as int {
                                    assert(new_acc[t] == acc[t]);
                                    assert(old_names[t]@ == acc.map_values(
                                        |q: PredicateDefinition| q.name@,
                                    )[t]);
                                }
                            }
                            assert(names@.map_values(|s: String| s@) =~= new_acc.map_values(
                                |q: PredicateDefinition| q.name@,
                            ));
                            assert forall|t: int| 0 <= t < lines@.len() implies lines@[t]@
                                == new_acc.map_values(
                                |q: PredicateDefinition| spec_render_pred_def(q),
                            )[t] by {
                                if t == i as int {
                                    assert(lines@[t] == line);
                                } else {
                                    assert(lines@[t] == old_lines[t]);
                                    assert(new_acc[t] == acc[t]);
                                    assert(old_lines[t]@ == acc.map_values(
                                        |q: PredicateDefinition| spec_render_pred_def(q),
                                    )[t]);
                                }
                            }
                            assert(lines@.map_values(|s: String| s@) =~= new_acc.map_values(
                                |q: PredicateDefinition| spec_render_pred_def(q),
                            ));
                        }
                    },
                    None => {
                        names.push(p.name.clone());
                        lines.push(line);
                        proof {
                            let new_acc = acc.push(x);
                            assert(spec_find_name(
                                acc.map_values(|q: PredicateDefinition| q.name@),
                                x.name@,
                            ) == -1);
                            assert(spec_dedup_preds(processed.push(x)) == new_acc);
                            assert(names@[old_names.len() as int]@ == x.name@);
                            assert forall|t: int| 0 <= t < names@.len() implies names@[t]@
                                == new_acc.map_values(|q: PredicateDefinition| q.name@)[t] by {
                                if t < old_names.len() {
                                    assert(names@[t] == old_names[t]);
                                    assert(new_acc[t] == acc[t]);
                                    assert(old_names[t]@ == acc.map_values(
                                        |q: PredicateDefinition| q.name@,
                                    )[t]);
                                }
                            }
                            assert(names@.map_values(|s: String| s@) =~= new_acc.map_values(
                                |q: PredicateDefinition| q.name@,
                            ));
                            assert forall|t: int| 0 <= t < lines@.len() implies lines@[t]@
                                == new_acc.map_values(
                                |q: PredicateDefinition| spec_render_pred_def(q),
                            )[t] by {
                                if t < old_lines.len() {
                                    assert(lines@[t] == old_lines[t]);
                                    assert(new_acc[t] == acc[t]);
                                    assert(old_lines[t]@ == acc.map_values(
                                        |q: PredicateDefinition| spec_render_pred_def(q),
                                    )[t]);
                                } else {
                                    assert(lines@[t] == line);
                                }
                            }
                            assert(lines@.map_values(|s: String| s@) =~= new_acc.map_values(
                                |q: PredicateDefinition| spec_render_pred_def(q),
                            ));
                        }
                    },
                }
                j = j + 1;
            }
            proof {
                assert(defs@.take(d2 + 1).drop_last() =~= defs@.take(d2 as int));
                assert(spec_flatten_preds(defs@.take(d2 + 1)) =~= spec_flatten_preds(
                    defs@.take(d2 as int),
                ) + preds@);
                assert(preds@.take(preds@.len() as int) =~= preds@);
            }
            d2 = d2 + 1;
        }
        proof {
            assert(defs@.take(defs@.len() as int) =~= defs@);
        }
        let pred_lines = join_strings(&lines, "\n");
        out.append(pred_lines.as_str());
        proof {
            assert(out@ =~= spec_render_schema(*self));
        }
        out
    }
}

} // verus!
