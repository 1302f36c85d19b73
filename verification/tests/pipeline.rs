use chain_graph::error::{RemoteQueryError, StoreWriteError};
use chain_graph::json::Json;
use chain_graph::pipeline::{
    load_data, step, Action, Command, Event, NodeCall, Pipeline, PipelineError,
};

fn object(entries: Vec<(&str, Json)>) -> Json {
    Json::Object(entries.into_iter().map(|(k, v)| (k.to_string(), v)).collect())
}

fn text(s: &str) -> Json {
    Json::Text(s.to_string())
}

fn reply(result: Json) -> Json {
    object(vec![("result", result), ("error", Json::Null), ("id", text("1"))])
}

fn block_reply(tx: Vec<Json>) -> Json {
    reply(object(vec![
        ("nTx", Json::Integer(5)),
        ("time", Json::Integer(1700000000)),
        ("tx", Json::List(tx)),
    ]))
}

fn ids(list: &[&str]) -> Vec<String> {
    list.iter().map(|s| s.to_string()).collect()
}

fn upserting(tx: Vec<Json>) -> (Pipeline, Action) {
    let (state, _) = load_data();
    let (state, _) = step(state, Event::Node(Ok(reply(Json::Integer(100)))));
    let (state, _) = step(state, Event::Node(Ok(reply(text("abc123")))));
    step(state, Event::Node(Ok(block_reply(tx))))
}

#[test]
fn a_run_begins_by_asking_for_the_height() {
    let (state, action) = load_data();
    assert_eq!(state, Pipeline::FetchingTip { count: None });
    assert_eq!(action, Action::CallNode(NodeCall::BlockCount));
    assert_eq!(step(Pipeline::Idle, Event::Trigger), (state, action));
}

#[test]
fn a_run_goes_through_its_states_in_order() {
    let (state, _) = load_data();
    let (state, action) = step(state, Event::Node(Ok(reply(Json::Integer(100)))));
    assert_eq!(state, Pipeline::FetchingTip { count: Some(100) });
    assert_eq!(action, Action::CallNode(NodeCall::BestBlockHash));

    let (state, action) = step(state, Event::Node(Ok(reply(text("abc123")))));
    assert_eq!(state, Pipeline::FetchingBlock { height: 100, hash: "abc123".to_string() });
    assert_eq!(action, Action::CallNode(NodeCall::Block { hash: "abc123".to_string() }));

    let (state, action) = step(state, Event::Node(Ok(block_reply(vec![text("t1"), text("t2")]))));
    assert_eq!(
        state,
        Pipeline::UpsertingBlock { height: 100, txids: ids(&["t1", "t2"]), rejected: 0 }
    );
    assert_eq!(
        action,
        Action::Write(Command::UpsertBlock {
            size: 5,
            height: 100,
            hash: "abc123".to_string(),
            time: 1700000000
        })
    );

    let (state, action) = step(state, Event::Store(Ok(())));
    assert_eq!(state, Pipeline::Linking { height: 100, txids: ids(&["t1", "t2"]), rejected: 0 });
    assert_eq!(action, Action::Write(Command::Link { height: 100 }));

    let (state, action) = step(state, Event::Store(Ok(())));
    assert_eq!(
        state,
        Pipeline::LoadingTransactions {
            height: 100,
            txids: ids(&["t1", "t2"]),
            next: 0,
            loaded: 0,
            failed: 0
        }
    );
    assert_eq!(
        action,
        Action::Write(Command::UpsertTransaction { txid: "t1".to_string(), height: 100 })
    );

    let (state, action) = step(state, Event::Store(Ok(())));
    assert_eq!(
        action,
        Action::Write(Command::UpsertTransaction { txid: "t2".to_string(), height: 100 })
    );

    let (state, action) = step(state, Event::Store(Ok(())));
    assert_eq!(state, Pipeline::Done { loaded: 2, failed: 0 });
    assert_eq!(action, Action::Rest);
}

#[test]
fn the_requests_of_the_calls() {
    assert_eq!(NodeCall::BlockCount.request().method, "getblockcount");
    assert_eq!(NodeCall::BestBlockHash.request().method, "getbestblockhash");
    let block = NodeCall::Block { hash: "abc123".to_string() }.request();
    assert_eq!(block.method, "getblock");
    assert_eq!(block.params, vec![text("abc123")]);
}

#[test]
fn a_failed_call_for_the_height_fails_the_run() {
    let (state, _) = load_data();
    let cause = RemoteQueryError::Unreachable("timed out".to_string());
    let (state, action) = step(state, Event::Node(Err(cause.clone())));
    assert_eq!(state, Pipeline::Failed(PipelineError::Remote(cause)));
    assert_eq!(action, Action::Rest);
}

#[test]
fn a_malformed_height_fails_the_run() {
    let (state, _) = load_data();
    let (state, action) = step(state, Event::Node(Ok(reply(text("high")))));
    assert_eq!(state, Pipeline::Failed(PipelineError::Remote(RemoteQueryError::Malformed)));
    assert_eq!(action, Action::Rest);
}

#[test]
fn a_failed_call_for_the_hash_fails_the_run() {
    let (state, _) = load_data();
    let (state, _) = step(state, Event::Node(Ok(reply(Json::Integer(100)))));
    let (failed, action) = step(state.clone(), Event::Node(Err(RemoteQueryError::Refused(401))));
    assert_eq!(failed, Pipeline::Failed(PipelineError::Remote(RemoteQueryError::Refused(401))));
    assert_eq!(action, Action::Rest);
    let (malformed, _) = step(state, Event::Node(Ok(reply(Json::Integer(7)))));
    assert_eq!(malformed, Pipeline::Failed(PipelineError::Remote(RemoteQueryError::Malformed)));
}

#[test]
fn a_failed_call_for_the_block_fails_the_run() {
    let (state, _) = load_data();
    let (state, _) = step(state, Event::Node(Ok(reply(Json::Integer(100)))));
    let (state, _) = step(state, Event::Node(Ok(reply(text("abc123")))));
    let (failed, _) = step(state.clone(), Event::Node(Err(RemoteQueryError::Refused(503))));
    assert_eq!(failed, Pipeline::Failed(PipelineError::Remote(RemoteQueryError::Refused(503))));
    let (malformed, action) = step(state, Event::Node(Ok(reply(Json::Null))));
    assert_eq!(malformed, Pipeline::Failed(PipelineError::Remote(RemoteQueryError::Malformed)));
    assert_eq!(action, Action::Rest);
}

#[test]
fn a_failed_block_upsert_fails_the_run_before_linking() {
    let (state, _) = upserting(vec![text("t1")]);
    let (state, action) = step(state, Event::Store(Err(StoreWriteError::Unavailable)));
    assert_eq!(state, Pipeline::Failed(PipelineError::Store(StoreWriteError::Unavailable)));
    assert_eq!(action, Action::Rest);
}

#[test]
fn a_failed_linker_does_not_fail_the_run() {
    let (state, _) = upserting(vec![text("t1")]);
    let (state, _) = step(state, Event::Store(Ok(())));
    let (state, action) = step(state, Event::Store(Err(StoreWriteError::Unavailable)));
    assert_eq!(
        state,
        Pipeline::LoadingTransactions {
            height: 100,
            txids: ids(&["t1"]),
            next: 0,
            loaded: 0,
            failed: 0
        }
    );
    assert_eq!(
        action,
        Action::Write(Command::UpsertTransaction { txid: "t1".to_string(), height: 100 })
    );
}

#[test]
fn a_failed_item_is_counted_and_the_loader_goes_on() {
    let (state, _) = upserting(vec![text("t1"), text("t2"), text("t3")]);
    let (state, _) = step(state, Event::Store(Ok(())));
    let (state, _) = step(state, Event::Store(Ok(())));
    let (state, action) = step(state, Event::Store(Err(StoreWriteError::Unavailable)));
    assert_eq!(
        action,
        Action::Write(Command::UpsertTransaction { txid: "t2".to_string(), height: 100 })
    );
    let (state, _) = step(state, Event::Store(Ok(())));
    let (state, action) = step(state, Event::Store(Err(StoreWriteError::Malformed)));
    assert_eq!(state, Pipeline::Done { loaded: 1, failed: 2 });
    assert_eq!(action, Action::Rest);
}

#[test]
fn items_that_are_no_ids_count_as_failed() {
    let (state, _) = upserting(vec![Json::Integer(1), text("t1"), Json::Null]);
    assert_eq!(state, Pipeline::UpsertingBlock { height: 100, txids: ids(&["t1"]), rejected: 2 });
    let (state, _) = step(state, Event::Store(Ok(())));
    let (state, _) = step(state, Event::Store(Ok(())));
    let (state, _) = step(state, Event::Store(Ok(())));
    assert_eq!(state, Pipeline::Done { loaded: 1, failed: 2 });
}

#[test]
fn a_block_without_transactions_ends_after_linking() {
    let (state, _) = upserting(vec![]);
    let (state, _) = step(state, Event::Store(Ok(())));
    let (state, action) = step(state, Event::Store(Ok(())));
    assert_eq!(state, Pipeline::Done { loaded: 0, failed: 0 });
    assert_eq!(action, Action::Rest);
}

#[test]
fn a_run_that_is_over_stays_as_it_is() {
    let done = Pipeline::Done { loaded: 2, failed: 0 };
    assert_eq!(step(done.clone(), Event::Trigger), (done.clone(), Action::Rest));
    assert_eq!(step(done.clone(), Event::Store(Ok(()))), (done.clone(), Action::Rest));
    assert_eq!(step(done.clone(), Event::Node(Ok(Json::Null))), (done, Action::Rest));
    let failed = Pipeline::Failed(PipelineError::Store(StoreWriteError::Unavailable));
    assert_eq!(step(failed.clone(), Event::Trigger), (failed.clone(), Action::Rest));
    assert_eq!(step(failed.clone(), Event::Store(Ok(()))), (failed, Action::Rest));
}

#[test]
fn an_event_that_is_not_awaited_changes_nothing() {
    let (state, _) = load_data();
    assert_eq!(step(state.clone(), Event::Store(Ok(()))), (state.clone(), Action::Rest));
    assert_eq!(step(state.clone(), Event::Trigger), (state, Action::Rest));
    let (writing, _) = upserting(vec![text("t1")]);
    assert_eq!(
        step(writing.clone(), Event::Node(Ok(reply(Json::Integer(1))))),
        (writing, Action::Rest)
    );
    assert_eq!(step(Pipeline::Idle, Event::Store(Ok(()))), (Pipeline::Idle, Action::Rest));
}

#[test]
fn states_that_a_run_gives_are_well_formed() {
    let (state, _) = load_data();
    assert!(state.well_formed());
    let (state, _) = upserting(vec![text("t1"), Json::Null]);
    assert!(state.well_formed());
    let (state, _) = step(state, Event::Store(Ok(())));
    let (state, _) = step(state, Event::Store(Ok(())));
    assert!(state.well_formed());
    let outside = Pipeline::LoadingTransactions {
        height: 100,
        txids: ids(&["t1"]),
        next: 1,
        loaded: 0,
        failed: 0,
    };
    assert!(!outside.well_formed());
    let ahead = Pipeline::LoadingTransactions {
        height: 100,
        txids: ids(&["t1", "t2"]),
        next: 0,
        loaded: 1,
        failed: 0,
    };
    assert!(!ahead.well_formed());
}
