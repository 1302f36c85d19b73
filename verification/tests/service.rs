use chain_graph::error::StoreReadError;
use chain_graph::pipeline::{Action, NodeCall, Pipeline};
use chain_graph::service::{
    block_reply, handle_block_request, handle_refresh_block_request, handle_transaction_request,
    transaction_reply, BlockRow, Body, Reply,
};
use chain_graph::store::{
    load_block, load_transactions_for_block, Block, GraphStore, Transaction,
};
use chain_graph::json::Json;

fn row() -> BlockRow {
    BlockRow { hash: "abc123".to_string(), size: 5, time: "2023-11-14T22:13:20".to_string() }
}

#[test]
fn block_reply_of_a_row_is_200_with_the_block() {
    let reply = block_reply(100, Ok(Some(row())));
    let block = Block {
        height: 100,
        hash: "abc123".to_string(),
        size: 5,
        time: "2023-11-14T22:13:20".to_string(),
    };
    assert_eq!(reply, Reply { status: 200, body: Body::Block(block), allow_origin: None });
}

#[test]
fn block_reply_of_no_row_is_404() {
    assert_eq!(
        block_reply(100, Ok(None)),
        Reply { status: 404, body: Body::Empty, allow_origin: None }
    );
}

#[test]
fn a_failed_read_is_a_server_error() {
    let failed = Reply { status: 500, body: Body::Empty, allow_origin: None };
    assert_eq!(block_reply(100, Err(StoreReadError::Unavailable)), failed);
    let origin = Some("https://example.org".to_string());
    assert_eq!(transaction_reply(Err(StoreReadError::Unavailable), origin), failed);
}

#[test]
fn transaction_reply_reflects_the_origin() {
    let found = Transaction { txid: "t1".to_string(), height: 100 };
    let reply = transaction_reply(Ok(Some(found.clone())), Some("https://example.org".to_string()));
    assert_eq!(
        reply,
        Reply {
            status: 200,
            body: Body::Transaction(found.clone()),
            allow_origin: Some("https://example.org".to_string()),
        }
    );
    let open = transaction_reply(Ok(Some(found)), None);
    assert_eq!(open.allow_origin, Some("*".to_string()));
}

#[test]
fn transaction_reply_of_none_is_404() {
    assert_eq!(
        transaction_reply(Ok(None), Some("https://example.org".to_string())),
        Reply { status: 404, body: Body::Empty, allow_origin: None }
    );
}

#[test]
fn block_request_answers_what_was_upserted() {
    let mut store = GraphStore::new();
    load_block(5, 100, "abc123", 1700000000, &mut store).unwrap();
    assert_eq!(handle_block_request(100, &store), block_reply(100, Ok(Some(row()))));
    assert_eq!(handle_block_request(99, &store), block_reply(99, Ok(None)));
    assert_eq!(handle_block_request(-5, &store).status, 404);
}

#[test]
fn transaction_request_answers_the_height_of_the_block() {
    let mut store = GraphStore::new();
    load_transactions_for_block(&vec![Json::Text("t1".to_string())], 100, &mut store);
    let reply = handle_transaction_request("t1".to_string(), &store, None);
    assert_eq!(
        reply.body,
        Body::Transaction(Transaction { txid: "t1".to_string(), height: 100 })
    );
    assert_eq!(reply.status, 200);
    assert_eq!(handle_transaction_request("t9".to_string(), &store, None).status, 404);
}

#[test]
fn refresh_acknowledges_and_begins_a_run() {
    let (reply, state, action) = handle_refresh_block_request();
    assert_eq!(
        reply,
        Reply {
            status: 200,
            body: Body::Text("Refresh completed".to_string()),
            allow_origin: None
        }
    );
    assert_eq!(state, Pipeline::FetchingTip { count: None });
    assert_eq!(action, Action::CallNode(NodeCall::BlockCount));
}
