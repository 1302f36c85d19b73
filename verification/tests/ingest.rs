use chain_graph::error::{RemoteQueryError, StoreWriteError};
use chain_graph::ingest::{apply, ingest};
use chain_graph::json::Json;
use chain_graph::pipeline::{Command, Pipeline, PipelineError};
use chain_graph::rpc::Exchange;
use chain_graph::service::{handle_block_request, handle_transaction_request, Body, Reply};
use chain_graph::store::{load_block, Block, GraphStore, Transaction};

fn object(entries: Vec<(&str, Json)>) -> Json {
    Json::Object(entries.into_iter().map(|(k, v)| (k.to_string(), v)).collect())
}

fn text(s: &str) -> Json {
    Json::Text(s.to_string())
}

fn answered(result: Json) -> Exchange {
    let body = object(vec![("result", result), ("error", Json::Null), ("id", text("1"))]);
    Exchange::Answered { status: 200, body: Some(body) }
}

fn block(n_tx: i128, time: i128, tx: Vec<Json>) -> Exchange {
    answered(object(vec![
        ("hash", text("abc123")),
        ("height", Json::Integer(100)),
        ("nTx", Json::Integer(n_tx)),
        ("time", Json::Integer(time)),
        ("tx", Json::List(tx)),
    ]))
}

fn tip_run(store: &mut GraphStore) -> Pipeline {
    ingest(
        answered(Json::Integer(100)),
        answered(text("abc123")),
        block(5, 1700000000, vec![text("t1"), text("t2")]),
        store,
    )
}

#[test]
fn one_run_ingests_the_tip() {
    let mut store = GraphStore::new();
    let end = tip_run(&mut store);
    assert_eq!(end, Pipeline::Done { loaded: 2, failed: 0 });

    let expected = Block {
        height: 100,
        hash: "abc123".to_string(),
        size: 5,
        time: "2023-11-14T22:13:20".to_string(),
    };
    assert_eq!(
        handle_block_request(100, &store),
        Reply { status: 200, body: Body::Block(expected), allow_origin: None }
    );
    assert_eq!(
        handle_transaction_request("t1".to_string(), &store, None),
        Reply {
            status: 200,
            body: Body::Transaction(Transaction { txid: "t1".to_string(), height: 100 }),
            allow_origin: Some("*".to_string()),
        }
    );
    assert_eq!(store.get_transaction("t2").unwrap().height, 100);
    assert_eq!(handle_block_request(101, &store).status, 404);
    assert_eq!(store.count_links(100, 99), 0);
    assert_eq!(store.totals(), (1, 2, 0));
}

#[test]
fn one_run_links_the_tip_to_a_predecessor_that_stands() {
    let mut store = GraphStore::new();
    load_block(3, 99, "prev", 1699999400, &mut store).unwrap();
    let end = tip_run(&mut store);
    assert_eq!(end, Pipeline::Done { loaded: 2, failed: 0 });
    assert_eq!(store.count_links(100, 99), 1);
    assert_eq!(store.totals(), (2, 2, 1));
}

#[test]
fn a_second_run_on_the_same_tip_changes_nothing() {
    let mut store = GraphStore::new();
    load_block(3, 99, "prev", 1699999400, &mut store).unwrap();
    tip_run(&mut store);
    let end = tip_run(&mut store);
    assert_eq!(end, Pipeline::Done { loaded: 2, failed: 0 });
    assert_eq!(store.count_blocks(100, "abc123"), 1);
    assert_eq!(store.count_links(100, 99), 1);
    assert_eq!(store.count_transactions("t1"), 1);
    assert_eq!(store.totals(), (2, 2, 1));
}

#[test]
fn a_run_fails_on_the_first_answer_that_fails() {
    let mut store = GraphStore::new();
    let end = ingest(
        Exchange::Failed("no route".to_string()),
        answered(text("abc123")),
        block(5, 1700000000, vec![]),
        &mut store,
    );
    assert_eq!(
        end,
        Pipeline::Failed(PipelineError::Remote(RemoteQueryError::Unreachable(
            "no route".to_string()
        )))
    );
    let end = ingest(
        answered(Json::Integer(100)),
        Exchange::Answered { status: 401, body: None },
        block(5, 1700000000, vec![]),
        &mut store,
    );
    assert_eq!(end, Pipeline::Failed(PipelineError::Remote(RemoteQueryError::Refused(401))));
    let end = ingest(
        answered(Json::Integer(100)),
        answered(text("abc123")),
        answered(Json::Null),
        &mut store,
    );
    assert_eq!(end, Pipeline::Failed(PipelineError::Remote(RemoteQueryError::Malformed)));
    assert_eq!(store.totals(), (0, 0, 0));
}

#[test]
fn a_run_fails_where_the_block_cannot_be_stored() {
    let mut store = GraphStore::new();
    let end = ingest(
        answered(Json::Integer(100)),
        answered(text("abc123")),
        block(5, i64::MAX as i128, vec![text("t1")]),
        &mut store,
    );
    assert_eq!(end, Pipeline::Failed(PipelineError::Store(StoreWriteError::Malformed)));
    let end = ingest(
        answered(Json::Integer(u64::MAX as i128)),
        answered(text("abc123")),
        block(5, 1700000000, vec![text("t1")]),
        &mut store,
    );
    assert_eq!(end, Pipeline::Failed(PipelineError::Store(StoreWriteError::Malformed)));
    assert_eq!(store.totals(), (0, 0, 0));
}

#[test]
fn a_run_counts_the_items_it_could_not_load() {
    let mut store = GraphStore::new();
    let end = ingest(
        answered(Json::Integer(100)),
        answered(text("abc123")),
        block(3, 1700000000, vec![text("t1"), Json::Integer(2), text("t3")]),
        &mut store,
    );
    assert_eq!(end, Pipeline::Done { loaded: 2, failed: 1 });
    assert_eq!(store.totals(), (1, 2, 0));
}

#[test]
fn apply_puts_each_write_to_the_store() {
    let mut store = GraphStore::new();
    let upsert = Command::UpsertBlock {
        size: 5,
        height: 100,
        hash: "abc123".to_string(),
        time: 1700000000,
    };
    assert_eq!(apply(&upsert, &mut store), Ok(()));
    assert_eq!(apply(&Command::Link { height: 100 }, &mut store), Ok(()));
    let item = Command::UpsertTransaction { txid: "t1".to_string(), height: 100 };
    assert_eq!(apply(&item, &mut store), Ok(()));
    assert_eq!(store.totals(), (1, 1, 0));
}

#[test]
fn apply_refuses_a_height_beyond_the_store() {
    let mut store = GraphStore::new();
    let far = u64::MAX;
    let upsert =
        Command::UpsertBlock { size: 5, height: far, hash: "abc123".to_string(), time: 0 };
    assert_eq!(apply(&upsert, &mut store), Err(StoreWriteError::Malformed));
    assert_eq!(apply(&Command::Link { height: far }, &mut store), Err(StoreWriteError::Malformed));
    let item = Command::UpsertTransaction { txid: "t1".to_string(), height: far };
    assert_eq!(apply(&item, &mut store), Err(StoreWriteError::Malformed));
    assert_eq!(store.totals(), (0, 0, 0));
}
