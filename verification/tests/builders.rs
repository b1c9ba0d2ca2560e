//! Builder validation: every missing mandatory field and every invariant
//! violation surfaces as a build-time error value, and a built tree rebuilt
//! from its parts renders identically.

use dgraph_query::condition::{Condition, ConditionValue};
use dgraph_query::error::BuildError;
use dgraph_query::predicate::{Edge, Field, Predicate, Variable};
use dgraph_query::queryblock::QueryBlockType;
use dgraph_query::{EdgeBuilder, QueryBlockBuilder, QueryBuilder};

#[test]
fn create_query() {
    let query = QueryBuilder::default()
        .query_blocks(vec![
            QueryBlockBuilder::default()
                .query_type(QueryBlockType::var())
                .root_filter(Condition::HAS("last_seen".to_string()))
                .predicates(vec![
                    Predicate::Field(Field::new("uid")),
                    Predicate::ScalarVariable("TIME".to_string(), Field::new("last_seen")),
                    Predicate::EdgeVariable("IMPORTANT_EDGES".to_string(), EdgeBuilder::default()
                        .name("connected_elements".to_string())
                        .filter(Condition::REGEXP("a_predicate".to_string(), ConditionValue::Regexp("[aA].+".to_string())))
                        .alias("some_alias".to_string())
                        .predicates(vec![
                            Predicate::Field(Field::new("uid")),
                            Predicate::Field(Field::new("dgraph.type").alias("dgraph_type"))
                        ]).build().unwrap())
                ])
                .build().unwrap(),
            QueryBlockBuilder::default()
                .query_type(QueryBlockType::query())
                .filter(Condition::GT("last_seen".to_string(), ConditionValue::Literal("1234".to_string())))
                .root_filter(Condition::EQ("node_key".to_string(), ConditionValue::String("fake_node_key".to_string())))
                .predicates(vec![
                    Predicate::Field(Field::new("uid")),
                    Predicate::Field(Field::new("node_key")),
                    Predicate::Field(Field::new("first_seen")),
                    Predicate::Field(Field::new("last_seen")),
                    Predicate::Edge(EdgeBuilder::default()
                        .name("org".to_string())
                        .predicates(vec![
                            Predicate::Field(Field::new("uid")),
                            Predicate::Field(Field::new("org_name")),
                            Predicate::Edge(EdgeBuilder::default()
                                .name("nested_edge".to_string())
                                .filter(Condition::EQ("inner_predicate".to_string(), ConditionValue::String("A string".to_string())))
                                .predicates(vec![
                                    Predicate::Field(Field::new("uid")),
                                    Predicate::Field(Field::new("dgraph.type").alias("dgraph_type")),
                                    Predicate::Count(Field::new("widgets"))
                                ]).build().unwrap()
                            )
                        ]).build().unwrap())
                ])
                .build().unwrap(),
            QueryBlockBuilder::default()
                .query_type(QueryBlockType::query())
                .root_filter(Condition::EQ("last_seen".to_string(), ConditionValue::Val(Variable::new("TIME"))))
                .predicates(vec![
                    Predicate::Field(Field::new("uid")),
                    Predicate::Field(Field::new("last_seen")),
                    Predicate::Field(Field::new("node_key")),
                    Predicate::Val(Variable::new("TIME").alias("foo"))
                ])
                .build().unwrap()
        ])
        .build().unwrap();

    println!("{}", query.to_query_string());
}

#[test]
fn edge_builder_reports_each_failure() {
    let err = EdgeBuilder::default().build().unwrap_err();
    assert!(matches!(err, BuildError::MissingName));

    let err = EdgeBuilder::default()
        .name("e".to_string())
        .build()
        .unwrap_err();
    assert!(matches!(err, BuildError::MissingPredicates));

    let err = EdgeBuilder::default()
        .name("e".to_string())
        .predicates(vec![])
        .build()
        .unwrap_err();
    assert!(matches!(err, BuildError::EmptyPredicates));

    let err = EdgeBuilder::default()
        .name("e".to_string())
        .predicates(vec![Predicate::Field(Field::new("uid"))])
        .filter(Condition::REGEXP(
            "p".to_string(),
            ConditionValue::Literal("not a regexp".to_string()),
        ))
        .build()
        .unwrap_err();
    assert!(matches!(err, BuildError::InvalidCondition));
}

#[test]
fn query_block_builder_reports_each_failure() {
    let err = QueryBlockBuilder::default().build().unwrap_err();
    assert!(matches!(err, BuildError::MissingQueryType));

    let err = QueryBlockBuilder::default()
        .query_type(QueryBlockType::var())
        .build()
        .unwrap_err();
    assert!(matches!(err, BuildError::MissingPredicates));

    let err = QueryBlockBuilder::default()
        .query_type(QueryBlockType::var())
        .predicates(vec![])
        .build()
        .unwrap_err();
    assert!(matches!(err, BuildError::EmptyPredicates));

    let err = QueryBlockBuilder::default()
        .query_type(QueryBlockType::var())
        .predicates(vec![Predicate::Field(Field::new("uid"))])
        .build()
        .unwrap_err();
    assert!(matches!(err, BuildError::MissingRootFilter));

    let err = QueryBlockBuilder::default()
        .query_type(QueryBlockType::var())
        .predicates(vec![Predicate::Field(Field::new("uid"))])
        .root_filter(Condition::REGEXP(
            "p".to_string(),
            ConditionValue::string("wrong variant"),
        ))
        .build()
        .unwrap_err();
    assert!(matches!(err, BuildError::InvalidCondition));
}

#[test]
fn query_builder_requires_blocks() {
    let err = QueryBuilder::default().build().unwrap_err();
    assert!(matches!(err, BuildError::MissingQueryBlocks));

    let query = QueryBuilder::default().query_blocks(vec![]).build().unwrap();
    assert_eq!(query.to_query_string(), "{\n\n}");
}

#[test]
fn rebuilding_from_accessors_renders_identically() {
    let edge = EdgeBuilder::default()
        .name("org".to_string())
        .alias("o".to_string())
        .filter(Condition::has("org_name"))
        .predicates(vec![Predicate::Field(Field::new("uid"))])
        .build()
        .unwrap();
    let original = edge.to_query_string();
    let rebuilt = Edge {
        name: edge.name,
        predicates: edge.predicates,
        filter: edge.filter,
        alias: edge.alias,
    };
    assert_eq!(rebuilt.to_query_string(), original);

    let variable = Variable::new("TIME");
    let again = Variable::new(variable.get_name().as_str());
    assert_eq!(
        Predicate::Val(again).to_query_string(),
        Predicate::Val(Variable::new("TIME")).to_query_string()
    );
}
