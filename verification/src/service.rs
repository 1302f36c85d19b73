//! The query service: what is answered to a request for a block, for a
//! transaction, and for a refresh.

use crate::error::StoreReadError;
use crate::graph::{BlockView, TransactionView};
use crate::pipeline::{load_data, Action, ActionView, NodeCallView, Pipeline, PipelineView};
use crate::store::{Block, GraphStore, Transaction};
use vstd::prelude::*;

verus! {

/// What a block query reads from the store: the attributes of the block at
/// the height that was asked for.
#[derive(Debug, Clone, PartialEq, Eq)]
pub struct BlockRow {
    pub hash: String,
    pub size: i64,
    pub time: String,
}

/// The body of an answer.
#[derive(Debug, Clone, PartialEq, Eq)]
pub enum Body {
    /// A block, sent as `{height, hash, size, time}`.
    Block(Block),
    /// A transaction, sent as `{txid, height}`.
    Transaction(Transaction),
    /// A plain text.
    Text(String),
    /// Nothing.
    Empty,
}

/// The body of an answer, over the views of block and transaction.
pub enum BodyView {
    Block(BlockView),
    Transaction(TransactionView),
    Text(Seq<char>),
    Empty,
}

impl View for Body {
    type V = BodyView;

    open spec fn view(&self) -> BodyView {
        match self {
            Body::Block(block) => BodyView::Block(block@),
            Body::Transaction(transaction) => BodyView::Transaction(transaction@),
            Body::Text(text) => BodyView::Text(text@),
            Body::Empty => BodyView::Empty,
        }
    }
}

/// An answer to a request: the status, the body, and the value of the
/// header `Access-Control-Allow-Origin` where one is sent.
#[derive(Debug, Clone, PartialEq, Eq)]
pub struct Reply {
    pub status: u16,
    pub body: Body,
    pub allow_origin: Option<String>,
}

/// An answer as a mathematical value.
pub struct ReplyView {
    pub status: u16,
    pub body: BodyView,
    pub allow_origin: Option<Seq<char>>,
}

impl View for Reply {
    type V = ReplyView;

    open spec fn view(&self) -> ReplyView {
        ReplyView {
            status: self.status,
            body: self.body@,
            allow_origin: match self.allow_origin {
                Some(origin) => Some(origin@),
                None => None,
            },
        }
    }
}

/// The answer where the target of a query is absent: 404, which is no
/// failure.
pub open spec fn not_found() -> ReplyView {
    ReplyView { status: 404, body: BodyView::Empty, allow_origin: None }
}

/// The answer where the store could not be read: a server error that tells
/// no more.
pub open spec fn server_error() -> ReplyView {
    ReplyView { status: 500, body: BodyView::Empty, allow_origin: None }
}

/// The answer to a block query: 200 with the block where one was found.
pub open spec fn block_answer(found: Option<BlockView>) -> ReplyView {
    match found {
        Some(block) => ReplyView { status: 200, body: BodyView::Block(block), allow_origin: None },
        None => not_found(),
    }
}

/// The origin that a transaction answer allows: the one that asked, or any
/// where the request named none.
pub open spec fn allowed_origin(origin: Option<Seq<char>>) -> Seq<char> {
    match origin {
        Some(asked) => asked,
        None => "*"@,
    }
}

/// The answer to a transaction query: 200 with the transaction where one
/// was found, and with it the allowed origin.
pub open spec fn transaction_answer(
    found: Option<TransactionView>,
    origin: Option<Seq<char>>,
) -> ReplyView {
    match found {
        Some(transaction) => ReplyView {
            status: 200,
            body: BodyView::Transaction(transaction),
            allow_origin: Some(allowed_origin(origin)),
        },
        None => not_found(),
    }
}

/// The answer to a refresh: 200 with a plain acknowledgment.
pub open spec fn refresh_answer() -> ReplyView {
    ReplyView { status: 200, body: BodyView::Text("Refresh completed"@), allow_origin: None }
}

fn answer_not_found() -> (reply: Reply)
    ensures
        reply@ == not_found(),
{
    Reply { status: 404, body: Body::Empty, allow_origin: None }
}

fn answer_server_error() -> (reply: Reply)
    ensures
        reply@ == server_error(),
{
    Reply { status: 500, body: Body::Empty, allow_origin: None }
}

/// Answers a block query from what the store gave for `block_height`: the
/// row of the block, no row, or a failed read. The answer's height is the
/// one that was asked for.
pub fn block_reply(block_height: i64, read: Result<Option<BlockRow>, StoreReadError>) -> (reply:
    Reply)
    ensures
        reply@ == match read {
            Ok(Some(row)) => block_answer(
                Some(
                    BlockView {
                        height: block_height as int,
                        hash: row.hash@,
                        size: row.size as int,
                        time: row.time@,
                    },
                ),
            ),
            Ok(None) => block_answer(None),
            Err(_) => server_error(),
        },
{
    match read {
        Ok(Some(row)) => Reply {
            status: 200,
            body: Body::Block(
                Block { height: block_height, hash: row.hash, size: row.size, time: row.time },
            ),
            allow_origin: None,
        },
        Ok(None) => answer_not_found(),
        Err(_) => answer_server_error(),
    }
}

/// Answers a transaction query from what the store gave: the transaction,
/// none, or a failed read. `origin` is the request's `Origin` header.
pub fn transaction_reply(
    read: Result<Option<Transaction>, StoreReadError>,
    origin: Option<String>,
) -> (reply: Reply)
    ensures
        reply@ == match read {
            Ok(found) => transaction_answer(
                match found {
                    Some(transaction) => Some(transaction@),
                    None => None,
                },
                match origin {
                    Some(asked) => Some(asked@),
                    None => None,
                },
            ),
            Err(_) => server_error(),
        },
{
    match read {
        Ok(Some(transaction)) => {
            let allowed = match origin {
                Some(asked) => asked,
                None => "*".to_owned(),
            };
            Reply {
                status: 200,
                body: Body::Transaction(transaction),
                allow_origin: Some(allowed),
            }
        },
        Ok(None) => answer_not_found(),
        Err(_) => answer_server_error(),
    }
}

/// Block by height against the store in memory: 200 with the hash, size
/// and time that the block was created with, or 404 where no block stands
/// at `block_height`. Reads only.
pub fn handle_block_request(block_height: i64, graph: &GraphStore) -> (reply: Reply)
    ensures
        reply@ == block_answer(graph@.block_at(block_height as int)),
{
    match graph.get_block(block_height) {
        Some(block) => Reply { status: 200, body: Body::Block(block), allow_origin: None },
        None => answer_not_found(),
    }
}

/// Transaction by id against the store in memory: 200 with the id and the
/// height it points at, allowing the origin that asked, or 404 where the id
/// is not stored. Reads only.
pub fn handle_transaction_request(txid: String, graph: &GraphStore, origin: Option<String>) -> (reply:
    Reply)
    requires
        graph@.wf(),
    ensures
        reply@ == transaction_answer(
            graph@.transaction(txid@),
            match origin {
                Some(asked) => Some(asked@),
                None => None,
            },
        ),
{
    transaction_reply(Ok(graph.get_transaction(txid.as_str())), origin)
}

/// Answers a refresh and begins the run it asks for. The answer is the same
/// whatever becomes of the run.
pub fn handle_refresh_block_request() -> (begun: (Reply, Pipeline, Action))
    ensures
        begun.0@ == refresh_answer(),
        begun.1@ == (PipelineView::FetchingTip { count: None }),
        begun.2@ == ActionView::CallNode(NodeCallView::BlockCount),
{
    let (state, action) = load_data();
    (
        Reply { status: 200, body: Body::Text("Refresh completed".to_owned()), allow_origin: None },
        state,
        action,
    )
}

} // verus!
