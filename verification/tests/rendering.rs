//! Exact rendering of values, conditions, predicates, edges and blocks.

use dgraph_query::condition::{Condition, ConditionValue};
use dgraph_query::predicate::{Field, Predicate, Variable};
use dgraph_query::queryblock::{QueryBlockType, QueryOrder};
use dgraph_query::{EdgeBuilder, QueryBlockBuilder, QueryBuilder};

#[test]
fn eq_string_renders_quoted() {
    let c = Condition::EQ(
        "node_key".to_string(),
        ConditionValue::String("fake_node_key".to_string()),
    );
    assert_eq!(c.to_query_string(), "eq(node_key, \"fake_node_key\")");
}

#[test]
fn regexp_renders_slash_delimited() {
    let c = Condition::REGEXP(
        "a_predicate".to_string(),
        ConditionValue::Regexp("[aA].+".to_string()),
    );
    assert_eq!(c.to_query_string(), "regexp(a_predicate, /[aA].+/)");
}

#[test]
fn rendering_is_deterministic() {
    let c = Condition::AND(
        Box::new(Condition::has("f")),
        Box::new(Condition::NOT(Box::new(Condition::uid("0x1")))),
    );
    let first = c.to_query_string();
    let second = c.to_query_string();
    assert_eq!(first, second);
}

#[test]
fn combinators_fully_parenthesize() {
    let a = Condition::has("a");
    let b = Condition::has("b");
    let both = Condition::AND(Box::new(a), Box::new(b));
    assert_eq!(both.to_query_string(), "(has(a) AND has(b))");
    let either = Condition::OR(
        Box::new(Condition::has("a")),
        Box::new(Condition::has("b")),
    );
    assert_eq!(either.to_query_string(), "(has(a) OR has(b))");
    let negated = Condition::NOT(Box::new(Condition::has("a")));
    assert_eq!(negated.to_query_string(), "(not has(a))");
    let nested = Condition::AND(
        Box::new(Condition::OR(
            Box::new(Condition::has("a")),
            Box::new(Condition::has("b")),
        )),
        Box::new(Condition::NOT(Box::new(Condition::has("c")))),
    );
    assert_eq!(
        nested.to_query_string(),
        "((has(a) OR has(b)) AND (not has(c)))"
    );
}

#[test]
fn relational_operators_render_their_names() {
    let v = || ConditionValue::literal_int(7);
    assert_eq!(
        Condition::GE("x".to_string(), v()).to_query_string(),
        "ge(x, 7)"
    );
    assert_eq!(
        Condition::GT("x".to_string(), v()).to_query_string(),
        "gt(x, 7)"
    );
    assert_eq!(
        Condition::LE("x".to_string(), v()).to_query_string(),
        "le(x, 7)"
    );
    assert_eq!(
        Condition::LT("x".to_string(), v()).to_query_string(),
        "lt(x, 7)"
    );
    assert_eq!(Condition::uid("0x42").to_query_string(), "uid(0x42)");
    assert_eq!(Condition::has("field").to_query_string(), "has(field)");
}

#[test]
fn condition_values_render_exactly() {
    assert_eq!(
        ConditionValue::literal_int(-12).to_query_string(),
        "-12"
    );
    assert_eq!(ConditionValue::literal_int(0).to_query_string(), "0");
    assert_eq!(
        ConditionValue::literal("raw text").to_query_string(),
        "raw text"
    );
    assert_eq!(
        ConditionValue::string_arr(vec!["a", "b"]).to_query_string(),
        "[\"a\", \"b\"]"
    );
    assert_eq!(
        ConditionValue::num_arr(vec![1, -2, 3]).to_query_string(),
        "[1, -2, 3]"
    );
    assert_eq!(
        ConditionValue::Val(Variable::new("TIME")).to_query_string(),
        "val(TIME)"
    );
}

#[test]
fn len_wraps_a_variable_name() {
    assert_eq!(Condition::len("SUBJECT_NODE"), "len(SUBJECT_NODE)");
}

#[test]
fn predicates_render_with_aliases() {
    assert_eq!(
        Predicate::Field(Field::new("uid")).to_query_string(),
        "uid"
    );
    assert_eq!(
        Predicate::Field(Field::new("dgraph.type").alias("dgraph_type")).to_query_string(),
        "dgraph_type : dgraph.type"
    );
    assert_eq!(
        Predicate::Count(Field::new("widgets")).to_query_string(),
        "count(widgets)"
    );
    assert_eq!(
        Predicate::Count(Field::new("widgets").alias("n")).to_query_string(),
        "n : count(widgets)"
    );
    assert_eq!(
        Predicate::Val(Variable::new("TIME").alias("foo")).to_query_string(),
        "foo : val(TIME)"
    );
    assert_eq!(
        Predicate::ScalarVariable("TIME".to_string(), Field::new("last_seen")).to_query_string(),
        "TIME as last_seen"
    );
}

#[test]
fn edge_lines_carry_one_tab_per_nesting_level() {
    let inner = EdgeBuilder::default()
        .name("b".to_string())
        .predicates(vec![Predicate::Field(Field::new("uid"))])
        .build()
        .unwrap();
    let outer = EdgeBuilder::default()
        .name("a".to_string())
        .predicates(vec![
            Predicate::Field(Field::new("x")),
            Predicate::Edge(inner),
        ])
        .build()
        .unwrap();
    let rendered = outer.to_query_string();
    assert_eq!(rendered, "a {\n\tx\n\tb {\n\t\tuid\n\t}\n}");
    let lines: Vec<&str> = rendered.lines().collect();
    assert_eq!(lines, vec!["a {", "\tx", "\tb {", "\t\tuid", "\t}", "}"]);
}

#[test]
fn edge_with_filter_and_alias_renders_clauses() {
    let edge = EdgeBuilder::default()
        .name("connected_elements".to_string())
        .filter(Condition::REGEXP(
            "a_predicate".to_string(),
            ConditionValue::Regexp("[aA].+".to_string()),
        ))
        .alias("some_alias".to_string())
        .predicates(vec![Predicate::Field(Field::new("uid"))])
        .build()
        .unwrap();
    assert_eq!(
        edge.to_query_string(),
        "some_alias : connected_elements @filter(regexp(a_predicate, /[aA].+/)) {\n\tuid\n}"
    );
}

#[test]
fn var_block_renders_opening_line_predicate_and_brace() {
    let block = QueryBlockBuilder::default()
        .query_type(QueryBlockType::var())
        .root_filter(Condition::has("last_seen"))
        .predicates(vec![Predicate::ScalarVariable(
            "TIME".to_string(),
            Field::new("last_seen"),
        )])
        .build()
        .unwrap();
    assert_eq!(
        block.to_query_string(),
        "var(func: has(last_seen)) {\n\tTIME as last_seen\n}"
    );
}

#[test]
fn block_renders_order_first_filter_and_cascade() {
    let block = QueryBlockBuilder::default()
        .query_type(QueryBlockType::var())
        .root_filter(Condition::has("ts"))
        .filter(Condition::has("extra"))
        .first(25)
        .order(QueryOrder::DESC(Predicate::Field(Field::new("ts"))))
        .cascade(true)
        .variable("V".to_string())
        .predicates(vec![Predicate::Field(Field::new("uid"))])
        .build()
        .unwrap();
    assert_eq!(
        block.to_query_string(),
        "V as var(func: has(ts), orderdesc: ts, first: 25) @filter(has(extra)) @cascade {\n\tuid\n}"
    );
    let asc = QueryBlockBuilder::default()
        .query_type(QueryBlockType::var())
        .root_filter(Condition::has("ts"))
        .order(QueryOrder::ASC(Predicate::Field(Field::new("ts"))))
        .predicates(vec![Predicate::Field(Field::new("uid"))])
        .build()
        .unwrap();
    assert_eq!(
        asc.to_query_string(),
        "var(func: has(ts), orderasc: ts) {\n\tuid\n}"
    );
}

#[test]
fn query_wraps_indented_blocks_in_braces() {
    let query = QueryBuilder::default()
        .query_blocks(vec![
            QueryBlockBuilder::default()
                .query_type(QueryBlockType::var())
                .root_filter(Condition::has("a"))
                .predicates(vec![Predicate::Field(Field::new("uid"))])
                .build()
                .unwrap(),
            QueryBlockBuilder::default()
                .query_type(QueryBlockType::var())
                .root_filter(Condition::has("b"))
                .predicates(vec![Predicate::Field(Field::new("uid"))])
                .build()
                .unwrap(),
        ])
        .build()
        .unwrap();
    assert_eq!(
        query.to_query_string(),
        "{\n\tvar(func: has(a)) {\n\t\tuid\n\t}\n\tvar(func: has(b)) {\n\t\tuid\n\t}\n}"
    );
}

#[test]
fn generated_block_names_carry_the_query_prefix() {
    let t = QueryBlockType::query();
    match t {
        QueryBlockType::Query(name) => {
            assert!(name.starts_with("query_"));
            assert!(name["query_".len()..].chars().all(|c| c.is_ascii_digit()));
        }
        QueryBlockType::Var => panic!("expected a named query block"),
    }
}

#[test]
fn random_variables_carry_the_var_prefix() {
    let v = Variable::random();
    let name = v.get_name();
    assert!(name.starts_with("var_"));
    assert!(name["var_".len()..].chars().all(|c| c.is_ascii_digit()));
}
