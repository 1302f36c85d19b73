use chain_graph::error::RemoteQueryError;
use chain_graph::json::Json;
use chain_graph::rpc::{
    best_block_hash_of, best_block_hash_request, block_count_of, block_count_request,
    block_figures_of, block_request, get_rpc_data, is_success, rpc_request, BlockFigures,
    Exchange,
};

fn object(entries: Vec<(&str, Json)>) -> Json {
    Json::Object(entries.into_iter().map(|(k, v)| (k.to_string(), v)).collect())
}

fn text(s: &str) -> Json {
    Json::Text(s.to_string())
}

fn reply(result: Json) -> Json {
    object(vec![("result", result), ("error", Json::Null), ("id", text("1"))])
}

#[test]
fn rpc_request_fills_version_and_id() {
    let request = rpc_request("getblock", vec![text("abc123")]);
    assert_eq!(request.jsonrpc, "1.0");
    assert_eq!(request.method, "getblock");
    assert_eq!(request.params, vec![text("abc123")]);
    assert_eq!(request.id, "1");
}

#[test]
fn the_three_requests_of_a_run() {
    let count = block_count_request();
    assert_eq!(count.method, "getblockcount");
    assert!(count.params.is_empty());
    let hash = best_block_hash_request();
    assert_eq!(hash.method, "getbestblockhash");
    assert!(hash.params.is_empty());
    let block = block_request("abc123");
    assert_eq!(block.method, "getblock");
    assert_eq!(block.params, vec![text("abc123")]);
    assert_eq!((block.jsonrpc.as_str(), block.id.as_str()), ("1.0", "1"));
}

#[test]
fn success_is_200_to_299() {
    assert!(!is_success(199));
    assert!(is_success(200));
    assert!(is_success(204));
    assert!(is_success(299));
    assert!(!is_success(300));
    assert!(!is_success(401));
    assert!(!is_success(500));
}

#[test]
fn get_rpc_data_gives_the_document_of_a_success() {
    let exchange = Exchange::Answered { status: 200, body: Some(reply(Json::Integer(100))) };
    assert_eq!(get_rpc_data(exchange), Ok(reply(Json::Integer(100))));
}

#[test]
fn get_rpc_data_names_the_cause_of_a_failure() {
    assert_eq!(
        get_rpc_data(Exchange::Failed("connection refused".to_string())),
        Err(RemoteQueryError::Unreachable("connection refused".to_string()))
    );
    assert_eq!(
        get_rpc_data(Exchange::Answered { status: 401, body: None }),
        Err(RemoteQueryError::Refused(401))
    );
    assert_eq!(
        get_rpc_data(Exchange::Answered { status: 500, body: Some(reply(Json::Null)) }),
        Err(RemoteQueryError::Refused(500))
    );
    assert_eq!(
        get_rpc_data(Exchange::Answered { status: 200, body: None }),
        Err(RemoteQueryError::Malformed)
    );
}

#[test]
fn block_count_of_reads_the_result() {
    assert_eq!(block_count_of(&reply(Json::Integer(100))), Ok(100));
    assert_eq!(block_count_of(&reply(Json::Integer(0))), Ok(0));
    assert_eq!(block_count_of(&reply(Json::Integer(-1))), Err(RemoteQueryError::Malformed));
    assert_eq!(block_count_of(&reply(text("100"))), Err(RemoteQueryError::Malformed));
    assert_eq!(block_count_of(&reply(Json::Null)), Err(RemoteQueryError::Malformed));
    assert_eq!(block_count_of(&object(vec![])), Err(RemoteQueryError::Malformed));
    assert_eq!(block_count_of(&Json::Integer(100)), Err(RemoteQueryError::Malformed));
}

#[test]
fn best_block_hash_of_reads_the_result() {
    assert_eq!(best_block_hash_of(&reply(text("abc123"))), Ok("abc123".to_string()));
    assert_eq!(best_block_hash_of(&reply(Json::Integer(1))), Err(RemoteQueryError::Malformed));
    assert_eq!(best_block_hash_of(&object(vec![])), Err(RemoteQueryError::Malformed));
}

fn block_reply(n_tx: Json, time: Json, tx: Json) -> Json {
    reply(object(vec![
        ("hash", text("abc123")),
        ("height", Json::Integer(100)),
        ("nTx", n_tx),
        ("time", time),
        ("difficulty", Json::Real),
        ("tx", tx),
    ]))
}

#[test]
fn block_figures_of_reads_size_time_and_list() {
    let doc = block_reply(
        Json::Integer(5),
        Json::Integer(1700000000),
        Json::List(vec![text("t1"), text("t2")]),
    );
    assert_eq!(
        block_figures_of(&doc),
        Ok(BlockFigures {
            size: 5,
            time: 1700000000,
            txids: vec!["t1".to_string(), "t2".to_string()],
            rejected: 0,
        })
    );
}

#[test]
fn block_figures_of_counts_items_that_are_no_ids() {
    let doc = block_reply(
        Json::Integer(3),
        Json::Integer(1700000000),
        Json::List(vec![Json::Integer(1), text("t1"), Json::Null]),
    );
    assert_eq!(
        block_figures_of(&doc),
        Ok(BlockFigures { size: 3, time: 1700000000, txids: vec!["t1".to_string()], rejected: 2 })
    );
}

#[test]
fn block_figures_of_refuses_a_document_that_lacks_a_figure() {
    let list = || Json::List(vec![text("t1")]);
    let no_size = block_reply(Json::Null, Json::Integer(1700000000), list());
    let no_time = block_reply(Json::Integer(5), text("now"), list());
    let no_list = block_reply(Json::Integer(5), Json::Integer(1700000000), text("t1"));
    assert_eq!(block_figures_of(&no_size), Err(RemoteQueryError::Malformed));
    assert_eq!(block_figures_of(&no_time), Err(RemoteQueryError::Malformed));
    assert_eq!(block_figures_of(&no_list), Err(RemoteQueryError::Malformed));
    assert_eq!(block_figures_of(&reply(Json::Null)), Err(RemoteQueryError::Malformed));
    assert_eq!(block_figures_of(&Json::Null), Err(RemoteQueryError::Malformed));
}
