use chain_graph::driver::query_for;
use chain_graph::statement::{
    block_query, block_statement, relationship_statement, transaction_query,
    transaction_statement, Param, Statement,
};

#[test]
fn query_for_binds_every_parameter_of_block_upsert() {
    let query = query_for(&block_statement(5, 100, "abc123", 1700000000).unwrap());
    assert!(query.has_param_key("height"));
    assert!(query.has_param_key("hash"));
    assert!(query.has_param_key("time"));
    assert!(query.has_param_key("size"));
    assert!(!query.has_param_key("txid"));
}

#[test]
fn query_for_binds_both_heights_of_the_linker() {
    let query = query_for(&relationship_statement(100).unwrap());
    assert!(query.has_param_key("current_height"));
    assert!(query.has_param_key("previous_height"));
    assert!(!query.has_param_key("height"));
}

#[test]
fn query_for_binds_the_parameters_of_the_other_statements() {
    let upsert = query_for(&transaction_statement("t1", 100).unwrap());
    assert!(upsert.has_param_key("txid"));
    assert!(upsert.has_param_key("height"));
    let block = query_for(&block_query(100));
    assert!(block.has_param_key("height"));
    assert!(!block.has_param_key("hash"));
    let transaction = query_for(&transaction_query("t1"));
    assert!(transaction.has_param_key("txid"));
    assert!(!transaction.has_param_key("height"));
}

#[test]
fn query_for_binds_nothing_where_the_statement_names_nothing() {
    let bare = Statement { text: "RETURN 1".to_string(), params: vec![] };
    assert!(!query_for(&bare).has_param_key("height"));
    let one = Statement {
        text: "RETURN $a".to_string(),
        params: vec![("a".to_string(), Param::Integer(1)), ("a".to_string(), Param::Text("x".to_string()))],
    };
    assert!(query_for(&one).has_param_key("a"));
}
