//! Mutations and upserts: identifier forms, last-write-wins predicate maps,
//! guard clauses, and edge lists that stay flat lists of identifier tokens.

use dgraph_query::condition::{Condition, ConditionValue};
use dgraph_query::mutation::{MutationPredicateValue, MutationUID, MutationUnit};
use dgraph_query::predicate::{Field, Predicate};
use dgraph_query::queryblock::QueryBlockType;
use dgraph_query::upsert::{Upsert, UpsertBlock};
use dgraph_query::{MutationBuilder, QueryBlockBuilder, QueryBuilder};

#[test]
fn create_mutation() {
    let new_node_1 = MutationUID::placeholder();
    let new_node_2 = MutationUID::placeholder();
    let new_node_3 = MutationUID::placeholder();

    let mutation = MutationBuilder::default()
        .set(vec![
            MutationUnit::new(new_node_1.clone())
                .predicate("pred", MutationPredicateValue::String("Some Value".to_string()))
                .predicate("edge", MutationPredicateValue::Edges(vec![
                    new_node_2.clone(),
                    new_node_3.clone()
                ])),
            MutationUnit::new(new_node_2.clone())
                .predicate("pred", MutationPredicateValue::String("Some Value".to_string()))
                .predicate("edge", MutationPredicateValue::Edges(vec![new_node_3.clone()])),
            MutationUnit::new(new_node_3.clone())
                .predicate("pred", MutationPredicateValue::String("Some Value".to_string()))
        ]).build().unwrap();

    assert_eq!(mutation.set.len(), 3);
    assert_eq!(mutation.delete.len(), 0);
    assert_eq!(mutation.set[0].uid.get_uid(), new_node_1.get_uid());
    match mutation.set[0].get("pred") {
        Some(MutationPredicateValue::String(s)) => assert_eq!(s, "Some Value"),
        _ => panic!("pred should be a string value"),
    }
}

#[test]
fn create_upsert() {
    let new_node_1 = MutationUID::placeholder();

    let query = QueryBuilder::default()
        .query_blocks(vec![
            QueryBlockBuilder::default()
                .query_type(QueryBlockType::query())
                .root_filter(Condition::has("pred"))
                .filter(Condition::EQ("pred".to_string(), ConditionValue::string("Some Value2")))
                .predicates(vec![
                    Predicate::ScalarVariable("SUBJECT_NODE".to_string(), Field::new("uid"))
                ])
                .build().unwrap(),
        ]).build().unwrap();

    let mutation = MutationBuilder::default()
        .set(vec![
            MutationUnit::new(new_node_1)
                .predicate("pred", MutationPredicateValue::string("Some Value2"))
                .predicate("upserted", MutationPredicateValue::Bool(true))
        ]).build().unwrap();

    let upsert = Upsert::new(query).upsert_block(UpsertBlock::new(mutation).cond(
        Condition::EQ(Condition::len("SUBJECT_NODE"), ConditionValue::literal_int(0)),
    ));

    assert_eq!(upsert.mutations.len(), 1);
    assert_eq!(
        upsert.mutations[0].cond.as_deref(),
        Some("@if(eq(len(SUBJECT_NODE), 0))")
    );
    assert!(upsert.query.contains("SUBJECT_NODE as uid"));
}

#[test]
fn create_edge_upsert() {
    let node_key_1 = format!("node-key-{}", rand::random::<u32>());
    let node_key_2 = format!("node-key-{}", rand::random::<u32>());

    let query = QueryBuilder::default()
        .query_blocks(vec![
            QueryBlockBuilder::default()
                .query_type(QueryBlockType::Var)
                .root_filter(Condition::EQ(format!("node_key"), ConditionValue::String(node_key_1)))
                .predicates(vec![
                    Predicate::ScalarVariable("SUBJECT_NODE".to_string(), Field::new("uid"))
                ])
                .build().unwrap(),
            QueryBlockBuilder::default()
                .query_type(QueryBlockType::Var)
                .root_filter(Condition::EQ(format!("node_key"), ConditionValue::String(node_key_2)))
                .predicates(vec![
                    Predicate::ScalarVariable("SUBJECT_NODE_2".to_string(), Field::new("uid"))
                ])
                .build().unwrap(),
        ]).build().unwrap();

    let mutation = MutationBuilder::default()
        .set(vec![
            MutationUnit::new(MutationUID::variable("SUBJECT_NODE"))
                .predicate("edge_1", MutationPredicateValue::Edges(vec![
                    MutationUID::variable("SUBJECT_NODE_2")
                ])),
            MutationUnit::new(MutationUID::variable("SUBJECT_NODE_2"))
                .predicate("edge_2", MutationPredicateValue::Edge(MutationUID::variable("SUBJECT_NODE")))
        ]).build().unwrap();

    let upsert = Upsert::new(query).upsert_block(UpsertBlock::new(mutation));

    assert_eq!(upsert.mutations.len(), 1);
    assert!(upsert.mutations[0].cond.is_none());
    let units = &upsert.mutations[0].mutation.set;
    assert_eq!(units[0].uid.get_uid(), "uid(SUBJECT_NODE)");
    match units[1].get("edge_2") {
        Some(MutationPredicateValue::Edge(uid)) => {
            assert_eq!(uid.get_uid(), "uid(SUBJECT_NODE)")
        }
        _ => panic!("edge_2 should be a single edge"),
    }
}

#[test]
fn uid_forms_render_their_tokens() {
    assert_eq!(MutationUID::uid("0x123").get_uid(), "0x123");
    assert_eq!(MutationUID::variable("V").get_uid(), "uid(V)");
    let placeholder = MutationUID::placeholder();
    assert!(placeholder.get_uid().starts_with("_:uid_placeholder_"));
    assert!(placeholder.get_uid()["_:uid_placeholder_".len()..]
        .chars()
        .all(|c| c.is_ascii_digit()));
    let again = placeholder.clone();
    assert_eq!(again.get_uid(), placeholder.get_uid());
}

#[test]
fn edge_list_predicate_keeps_the_uid_tokens_flat() {
    let owner = MutationUID::placeholder();
    let target_1 = MutationUID::placeholder();
    let target_2 = MutationUID::placeholder();
    let unit = MutationUnit::new(owner.clone()).predicate(
        "edge",
        MutationPredicateValue::Edges(vec![target_1.clone(), target_2.clone()]),
    );
    assert_eq!(unit.uid.get_uid(), owner.get_uid());
    match unit.get("edge") {
        Some(MutationPredicateValue::Edges(uids)) => {
            assert_eq!(uids.len(), 2);
            assert_eq!(uids[0].get_uid(), target_1.get_uid());
            assert_eq!(uids[1].get_uid(), target_2.get_uid());
        }
        _ => panic!("edge should be an edge list"),
    }
}

#[test]
fn later_writes_to_a_predicate_name_win() {
    let mut unit = MutationUnit::new(MutationUID::uid("0x1"))
        .predicate("p", MutationPredicateValue::Number(1))
        .predicate("q", MutationPredicateValue::Bool(false))
        .predicate("p", MutationPredicateValue::Number(2));
    match unit.get("p") {
        Some(MutationPredicateValue::Number(n)) => assert_eq!(*n, 2),
        _ => panic!("p should be the later number"),
    }
    unit.predicate_ref("q", MutationPredicateValue::Null);
    assert!(matches!(unit.get("q"), Some(MutationPredicateValue::Null)));
    assert!(unit.get("absent").is_none());
    assert_eq!(unit.predicates.len(), 2);
}
