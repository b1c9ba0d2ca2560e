//! Schema text: type blocks, then one line per distinct predicate.

use dgraph_query::schema::{Indexing, PredicateDefinition, PredicateType, Schema, SchemaDefinition};

#[test]
fn generate_schema() {
    let schema = Schema::new()
        .add_definition(SchemaDefinition::new("Organization")
            .add_predicate(PredicateDefinition::new("first_seen", PredicateType::INT)
                .add_index(Indexing::INT))
            .add_predicate(PredicateDefinition::new("last_seen", PredicateType::INT)
                .add_index(Indexing::INT))
            .add_predicate(PredicateDefinition::new("node_key", PredicateType::String)
                .add_index(Indexing::EXACT)
                .upsert())
            .add_predicate(PredicateDefinition::new("org_name", PredicateType::String)
                .add_index(Indexing::TRIGRAM)));

    println!("{}", schema.to_schema_string());
}

#[test]
fn schema_renders_type_block_and_predicate_lines() {
    let schema = Schema::new().add_definition(
        SchemaDefinition::new("Organization")
            .add_predicate(
                PredicateDefinition::new("first_seen", PredicateType::INT)
                    .add_index(Indexing::INT),
            )
            .add_predicate(
                PredicateDefinition::new("node_key", PredicateType::String)
                    .add_index(Indexing::EXACT)
                    .upsert(),
            ),
    );
    assert_eq!(
        schema.to_schema_string(),
        "type Organization {\n\tfirst_seen\n\tnode_key\n}\n\n\
         first_seen: int @index(int) .\n\
         node_key: string @index(exact) @upsert ."
    );
}

#[test]
fn predicate_lines_render_types_indexes_and_upsert() {
    assert_eq!(
        PredicateDefinition::new("p", PredicateType::String).to_schema_string(),
        "p: string ."
    );
    assert_eq!(
        PredicateDefinition::new("p", PredicateType::StringArray).to_schema_string(),
        "p: [string] ."
    );
    assert_eq!(
        PredicateDefinition::new("p", PredicateType::UID).to_schema_string(),
        "p: uid ."
    );
    assert_eq!(
        PredicateDefinition::new("p", PredicateType::UIDArray).to_schema_string(),
        "p: [uid] ."
    );
    assert_eq!(
        PredicateDefinition::new("p", PredicateType::INTArray).to_schema_string(),
        "p: [int] ."
    );
    assert_eq!(
        PredicateDefinition::new("p", PredicateType::String)
            .add_index(Indexing::TERM)
            .add_index(Indexing::TRIGRAM)
            .to_schema_string(),
        "p: string @index(term, trigram) ."
    );
    let mut with_ref = PredicateDefinition::new("p", PredicateType::INT);
    with_ref.add_index_ref(Indexing::INT);
    assert_eq!(with_ref.to_schema_string(), "p: int @index(int) .");
}

#[test]
fn repeated_predicate_names_collapse_to_the_last_declaration() {
    let mut schema = Schema::new().add_definition(
        SchemaDefinition::new("A")
            .add_predicate(PredicateDefinition::new("shared", PredicateType::String))
            .add_predicate(PredicateDefinition::new("only_a", PredicateType::INT)),
    );
    let mut b = SchemaDefinition::new("B");
    b.add_predicate_ref(
        PredicateDefinition::new("shared", PredicateType::INT).add_index(Indexing::INT),
    );
    schema.add_definition_ref(b);
    assert_eq!(
        schema.to_schema_string(),
        "type A {\n\tshared\n\tonly_a\n}\ntype B {\n\tshared\n}\n\n\
         shared: int @index(int) .\n\
         only_a: int ."
    );
}
