//! The calls to the node: what is asked, and what an answer is worth.

use crate::error::RemoteQueryError;
use crate::json::Json;
use crate::store::txids_in;
use vstd::prelude::*;

verus! {

/// A remote procedure call as the node expects it.
#[derive(Debug, PartialEq)]
pub struct RpcRequest {
    pub jsonrpc: String,
    pub method: String,
    pub params: Vec<Json>,
    pub id: String,
}

/// One request and what came of it, as the transport saw it.
#[derive(Debug, PartialEq)]
pub enum Exchange {
    /// No answer came; the text is the transport's account of why.
    Failed(String),
    /// The node answered with `status`; `body` is the document it sent, or
    /// `None` where the body was no document.
    Answered { status: u16, body: Option<Json> },
}

/// The figures of a block that the pipeline reads from the node's document.
#[derive(Debug, PartialEq, Eq)]
pub struct BlockFigures {
    /// The number of transactions, which becomes the block's size.
    pub size: i64,
    /// The block time in seconds since the epoch.
    pub time: i64,
    /// The transaction ids of the block's list, in its order.
    pub txids: Vec<String>,
    /// How many items of the list were no transaction ids.
    pub rejected: usize,
}

/// The texts of `ids`.
pub open spec fn texts_of(ids: Seq<String>) -> Seq<Seq<char>> {
    ids.map_values(|id: String| id@)
}

/// A status that counts as success: 200 to 299.
pub open spec fn success_status(status: u16) -> bool {
    200 <= status < 300
}

/// What an exchange is worth: the document of a successful answer, and
/// otherwise the error that names the cause.
pub open spec fn reply_of(exchange: Exchange) -> Result<Json, RemoteQueryError> {
    match exchange {
        Exchange::Failed(cause) => Err(RemoteQueryError::Unreachable(cause)),
        Exchange::Answered { status, body } => if success_status(status) {
            match body {
                Some(document) => Ok(document),
                None => Err(RemoteQueryError::Malformed),
            }
        } else {
            Err(RemoteQueryError::Refused(status))
        },
    }
}

/// The member `result` of a reply.
pub open spec fn result_of(reply: Json) -> Option<Json> {
    reply.member_of("result"@)
}

/// The member `key` of a reply's `result`.
pub open spec fn figure_of(reply: Json, key: Seq<char>) -> Option<Json> {
    match result_of(reply) {
        Some(result) => result.member_of(key),
        None => None,
    }
}

/// The chain height that a reply to `getblockcount` states.
pub open spec fn block_count_in(reply: Json) -> Option<u64> {
    match result_of(reply) {
        Some(result) => result.u64_of(),
        None => None,
    }
}

/// The hash that a reply to `getbestblockhash` states.
pub open spec fn best_block_hash_in(reply: Json) -> Option<Seq<char>> {
    match result_of(reply) {
        Some(result) => result.text_of(),
        None => None,
    }
}

/// The transaction count that a reply to `getblock` states.
pub open spec fn size_in(reply: Json) -> Option<i64> {
    match figure_of(reply, "nTx"@) {
        Some(n) => n.i64_of(),
        None => None,
    }
}

/// The block time that a reply to `getblock` states.
pub open spec fn time_in(reply: Json) -> Option<i64> {
    match figure_of(reply, "time"@) {
        Some(t) => t.i64_of(),
        None => None,
    }
}

/// The transaction list that a reply to `getblock` holds.
pub open spec fn list_in(reply: Json) -> Option<Seq<Json>> {
    match figure_of(reply, "tx"@) {
        Some(list) => list.items_of(),
        None => None,
    }
}

/// Whether `status` counts as success.
pub fn is_success(status: u16) -> (yes: bool)
    ensures
        yes == success_status(status),
{
    200 <= status && status < 300
}

/// The request for `function_name` with `params`: protocol version `1.0`,
/// request id `1`.
pub fn rpc_request(function_name: &str, params: Vec<Json>) -> (request: RpcRequest)
    ensures
        request.jsonrpc@ == "1.0"@,
        request.method@ == function_name@,
        request.params == params,
        request.id@ == "1"@,
{
    RpcRequest {
        jsonrpc: "1.0".to_owned(),
        method: function_name.to_owned(),
        params,
        id: "1".to_owned(),
    }
}

/// The request for the chain height.
pub fn block_count_request() -> (request: RpcRequest)
    ensures
        request.jsonrpc@ == "1.0"@,
        request.method@ == "getblockcount"@,
        request.params@.len() == 0,
        request.id@ == "1"@,
{
    rpc_request("getblockcount", Vec::new())
}

/// The request for the hash of the best block.
pub fn best_block_hash_request() -> (request: RpcRequest)
    ensures
        request.jsonrpc@ == "1.0"@,
        request.method@ == "getbestblockhash"@,
        request.params@.len() == 0,
        request.id@ == "1"@,
{
    rpc_request("getbestblockhash", Vec::new())
}

/// The request for the block with the hash `hash`.
pub fn block_request(hash: &str) -> (request: RpcRequest)
    ensures
        request.jsonrpc@ == "1.0"@,
        request.method@ == "getblock"@,
        request.params@.len() == 1,
        request.params@[0].text_of() == Some(hash@),
        request.id@ == "1"@,
{
    let mut params: Vec<Json> = Vec::new();
    params.push(Json::Text(hash.to_owned()));
    rpc_request("getblock", params)
}

/// Judges one exchange with the node. A successful answer that carries a
/// document gives the document. A failed transport gives `Unreachable` with
/// its cause, a status outside 200 to 299 gives `Refused` with the status,
/// and a successful answer without a document gives `Malformed`.
pub fn get_rpc_data(exchange: Exchange) -> (outcome: Result<Json, RemoteQueryError>)
    ensures
        outcome == reply_of(exchange),
{
    match exchange {
        Exchange::Failed(cause) => Err(RemoteQueryError::Unreachable(cause)),
        Exchange::Answered { status, body } => {
            if is_success(status) {
                match body {
                    Some(document) => Ok(document),
                    None => Err(RemoteQueryError::Malformed),
                }
            } else {
                Err(RemoteQueryError::Refused(status))
            }
        },
    }
}

/// Reads the chain height from a reply to `getblockcount`: its `result`,
/// where that is an integer from 0 to `u64::MAX`.
pub fn block_count_of(reply: &Json) -> (outcome: Result<u64, RemoteQueryError>)
    ensures
        outcome == match block_count_in(*reply) {
            Some(height) => Ok::<u64, RemoteQueryError>(height),
            None => Err(RemoteQueryError::Malformed),
        },
{
    match reply.member("result") {
        Some(result) => match result.as_u64() {
            Some(height) => Ok(height),
            None => Err(RemoteQueryError::Malformed),
        },
        None => Err(RemoteQueryError::Malformed),
    }
}

/// Reads the best block's hash from a reply to `getbestblockhash`: its
/// `result`, where that is a text.
pub fn best_block_hash_of(reply: &Json) -> (outcome: Result<String, RemoteQueryError>)
    ensures
        match best_block_hash_in(*reply) {
            Some(hash) => outcome matches Ok(text) && text@ == hash,
            None => outcome == Err::<String, RemoteQueryError>(RemoteQueryError::Malformed),
        },
{
    match reply.member("result") {
        Some(result) => match result.as_str() {
            Some(hash) => Ok(hash.to_owned()),
            None => Err(RemoteQueryError::Malformed),
        },
        None => Err(RemoteQueryError::Malformed),
    }
}

/// Reads a block's figures from a reply to `getblock`: under `result`, the
/// integer `nTx`, the integer `time` and the list `tx`. A reply that lacks
/// one of the three is malformed. Items of the list that are no texts are
/// counted and left out.
pub fn block_figures_of(reply: &Json) -> (outcome: Result<BlockFigures, RemoteQueryError>)
    ensures
        match (size_in(*reply), time_in(*reply), list_in(*reply)) {
            (Some(size), Some(time), Some(list)) => {
                &&& outcome matches Ok(figures)
                &&& figures.size == size
                &&& figures.time == time
                &&& texts_of(figures.txids@) == txids_in(list)
                &&& figures.txids@.len() + figures.rejected == list.len()
                &&& list.len() <= usize::MAX
            },
            _ => outcome == Err::<BlockFigures, RemoteQueryError>(RemoteQueryError::Malformed),
        },
{
    let result = match reply.member("result") {
        Some(result) => result,
        None => {
            return Err(RemoteQueryError::Malformed);
        },
    };
    let size = match result.member("nTx") {
        Some(n) => n.as_i64(),
        None => None,
    };
    let time = match result.member("time") {
        Some(t) => t.as_i64(),
        None => None,
    };
    let list = match result.member("tx") {
        Some(list) => list.as_array(),
        None => None,
    };
    match (size, time, list) {
        (Some(size), Some(time), Some(list)) => {
            let mut txids: Vec<String> = Vec::new();
            let mut rejected: usize = 0;
            let mut i: usize = 0;
            while i < list.len()
                invariant
                    i <= list.len(),
                    txids@.len() + rejected == i,
                    texts_of(txids@) == txids_in(list@.take(i as int)),
                decreases list.len() - i,
            {
                proof {
                    assert(list@.take(i + 1).drop_last() =~= list@.take(i as int));
                    assert(list@.take(i + 1).last() == list@[i as int]);
                }
                match list[i].as_str() {
                    Some(txid) => {
                        let ghost before = txids@;
                        txids.push(txid.to_owned());
                        assert(texts_of(txids@) =~= texts_of(before).push(txid@));
                    },
                    None => {
                        rejected = rejected + 1;
                    },
                }
                i = i + 1;
            }
            assert(list@.take(i as int) =~= list@);
            Ok(BlockFigures { size, time, txids, rejected })
        },
        _ => Err(RemoteQueryError::Malformed),
    }
}

} // verus!
