//! The writes and reads as the graph database takes them: a Cypher text and
//! its named parameters.

use crate::clock::try_format_time;
use crate::error::StoreWriteError;
use crate::graph::BlockView;
use crate::pipeline::{Command, CommandView};
use crate::store::{block_entity, stored_height};
use vstd::prelude::*;

verus! {

/// Block upsert: match or create on height and hash; size and time are set
/// on creation only.
pub const BLOCK_MERGE: &'static str =
    "MERGE (b:Block { height: $height, hash: $hash }) ON CREATE SET b.size = $size, b.time = localdatetime($time) RETURN b";

/// Relationship linker: match both blocks, then merge the edge.
pub const RELATIONSHIP_MERGE: &'static str =
    "MATCH (current:Block { height: $current_height }) MATCH (previous:Block { height: $previous_height }) MERGE (current)-[:NEXT]->(previous) RETURN previous, current";

/// Transaction upsert: match or create on the id, then set the height.
pub const TRANSACTION_MERGE: &'static str =
    "MERGE (t:Transaction { txid: $txid }) SET t.height = $height RETURN t";

/// Block by height.
pub const BLOCK_MATCH: &'static str =
    "MATCH (b:Block { height: $height }) RETURN b.hash AS hash, b.size AS size, toString(b.time) AS time";

/// Transaction by id.
pub const TRANSACTION_MATCH: &'static str =
    "MATCH (t:Transaction { txid: $txid }) RETURN t.txid AS txid, t.height AS height";

/// The value of a named parameter.
#[derive(Debug, Clone, PartialEq, Eq)]
pub enum Param {
    Integer(i64),
    Text(String),
}

/// The value of a named parameter as a mathematical value.
pub enum ParamView {
    Integer(int),
    Text(Seq<char>),
}

impl View for Param {
    type V = ParamView;

    open spec fn view(&self) -> ParamView {
        match self {
            Param::Integer(n) => ParamView::Integer(*n as int),
            Param::Text(t) => ParamView::Text(t@),
        }
    }
}

/// A statement for the graph database.
#[derive(Debug, Clone, PartialEq, Eq)]
pub struct Statement {
    pub text: String,
    pub params: Vec<(String, Param)>,
}

/// A statement as a mathematical value: its text, and its parameters in
/// the order in which they are bound.
pub struct StatementView {
    pub text: Seq<char>,
    pub params: Seq<(Seq<char>, ParamView)>,
}

impl View for Statement {
    type V = StatementView;

    open spec fn view(&self) -> StatementView {
        StatementView {
            text: self.text@,
            params: self.params@.map_values(|p: (String, Param)| (p.0@, p.1@)),
        }
    }
}

/// The statement that upserts `entity`.
pub open spec fn block_merge(entity: BlockView) -> StatementView {
    StatementView {
        text: BLOCK_MERGE@,
        params: seq![
            ("height"@, ParamView::Integer(entity.height)),
            ("hash"@, ParamView::Text(entity.hash)),
            ("time"@, ParamView::Text(entity.time)),
            ("size"@, ParamView::Integer(entity.size)),
        ],
    }
}

/// The statement that links the block at `height` to the one below it.
pub open spec fn relationship_merge(height: int) -> StatementView {
    StatementView {
        text: RELATIONSHIP_MERGE@,
        params: seq![
            ("current_height"@, ParamView::Integer(height)),
            ("previous_height"@, ParamView::Integer(height - 1)),
        ],
    }
}

/// The statement that upserts the transaction `txid` under `height`.
pub open spec fn transaction_merge(txid: Seq<char>, height: int) -> StatementView {
    StatementView {
        text: TRANSACTION_MERGE@,
        params: seq![("txid"@, ParamView::Text(txid)), ("height"@, ParamView::Integer(height))],
    }
}

/// The statement that reads the block at `height`.
pub open spec fn block_match(height: int) -> StatementView {
    StatementView { text: BLOCK_MATCH@, params: seq![("height"@, ParamView::Integer(height))] }
}

/// The statement that reads the transaction `txid`.
pub open spec fn transaction_match(txid: Seq<char>) -> StatementView {
    StatementView { text: TRANSACTION_MATCH@, params: seq![("txid"@, ParamView::Text(txid))] }
}

/// The statement that carries out `command`, where one can be written: the
/// database's integers must reach the height, and the calendar the time.
pub open spec fn statement_of(command: CommandView) -> Option<StatementView> {
    match command {
        CommandView::UpsertBlock { size, height, hash, time } => match block_entity(
            size,
            height,
            hash,
            time,
        ) {
            Some(entity) => Some(block_merge(entity)),
            None => None,
        },
        CommandView::Link { height } => match stored_height(height) {
            Some(at) => Some(relationship_merge(at)),
            None => None,
        },
        CommandView::UpsertTransaction { txid, height } => match stored_height(height) {
            Some(at) => Some(transaction_merge(txid, at)),
            None => None,
        },
    }
}

fn integer(name: &str, value: i64) -> (param: (String, Param))
    ensures
        param.0@ == name@,
        param.1@ == ParamView::Integer(value as int),
{
    (name.to_owned(), Param::Integer(value))
}

fn text(name: &str, value: &str) -> (param: (String, Param))
    ensures
        param.0@ == name@,
        param.1@ == ParamView::Text(value@),
{
    (name.to_owned(), Param::Text(value.to_owned()))
}

/// The statement of block upsert for a node's figures. A height beyond the
/// database's integers or a time beyond the calendar gives `Malformed`.
pub fn block_statement(
    transaction_size: i64,
    block_count: u64,
    best_block_hash: &str,
    time: i64,
) -> (outcome: Result<Statement, StoreWriteError>)
    ensures
        match block_entity(transaction_size, block_count, best_block_hash@, time) {
            Some(entity) => outcome matches Ok(statement) && statement@ == block_merge(entity),
            None => outcome == Err::<Statement, StoreWriteError>(StoreWriteError::Malformed),
        },
{
    if block_count > 0x7fff_ffff_ffff_ffff {
        return Err(StoreWriteError::Malformed);
    }
    let stamp = match try_format_time(time) {
        Some(stamp) => stamp,
        None => {
            return Err(StoreWriteError::Malformed);
        },
    };
    let mut params: Vec<(String, Param)> = Vec::new();
    params.push(integer("height", block_count as i64));
    params.push(text("hash", best_block_hash));
    params.push(text("time", stamp.as_str()));
    params.push(integer("size", transaction_size));
    let statement = Statement { text: BLOCK_MERGE.to_owned(), params };
    proof {
        let entity = block_entity(transaction_size, block_count, best_block_hash@, time).unwrap();
        assert(statement@.params =~= block_merge(entity).params);
    }
    Ok(statement)
}

/// The statement of the relationship linker for the block at `block_count`.
/// A height beyond the database's integers gives `Malformed`.
pub fn relationship_statement(block_count: u64) -> (outcome: Result<Statement, StoreWriteError>)
    ensures
        match stored_height(block_count) {
            Some(height) => outcome matches Ok(statement) && statement@ == relationship_merge(
                height,
            ),
            None => outcome == Err::<Statement, StoreWriteError>(StoreWriteError::Malformed),
        },
{
    if block_count > 0x7fff_ffff_ffff_ffff {
        return Err(StoreWriteError::Malformed);
    }
    let current = block_count as i64;
    let mut params: Vec<(String, Param)> = Vec::new();
    params.push(integer("current_height", current));
    params.push(integer("previous_height", current - 1));
    let statement = Statement { text: RELATIONSHIP_MERGE.to_owned(), params };
    assert(statement@.params =~= relationship_merge(block_count as int).params);
    Ok(statement)
}

/// The statement of transaction upsert for `txid` under `block_count`. A
/// height beyond the database's integers gives `Malformed`.
pub fn transaction_statement(txid: &str, block_count: u64) -> (outcome: Result<
    Statement,
    StoreWriteError,
>)
    ensures
        match stored_height(block_count) {
            Some(height) => outcome matches Ok(statement) && statement@ == transaction_merge(
                txid@,
                height,
            ),
            None => outcome == Err::<Statement, StoreWriteError>(StoreWriteError::Malformed),
        },
{
    if block_count > 0x7fff_ffff_ffff_ffff {
        return Err(StoreWriteError::Malformed);
    }
    let mut params: Vec<(String, Param)> = Vec::new();
    params.push(text("txid", txid));
    params.push(integer("height", block_count as i64));
    let statement = Statement { text: TRANSACTION_MERGE.to_owned(), params };
    assert(statement@.params =~= transaction_merge(txid@, block_count as int).params);
    Ok(statement)
}

/// The statement that reads the block at `block_height`.
pub fn block_query(block_height: i64) -> (statement: Statement)
    ensures
        statement@ == block_match(block_height as int),
{
    let mut params: Vec<(String, Param)> = Vec::new();
    params.push(integer("height", block_height));
    let statement = Statement { text: BLOCK_MATCH.to_owned(), params };
    assert(statement@.params =~= block_match(block_height as int).params);
    statement
}

/// The statement that reads the transaction `txid`.
pub fn transaction_query(txid: &str) -> (statement: Statement)
    ensures
        statement@ == transaction_match(txid@),
{
    let mut params: Vec<(String, Param)> = Vec::new();
    params.push(text("txid", txid));
    let statement = Statement { text: TRANSACTION_MATCH.to_owned(), params };
    assert(statement@.params =~= transaction_match(txid@).params);
    statement
}

/// The statement that carries out a write of the pipeline, or `Malformed`
/// where none can be written.
pub fn statement_for(command: &Command) -> (outcome: Result<Statement, StoreWriteError>)
    ensures
        match statement_of(command@) {
            Some(view) => outcome matches Ok(statement) && statement@ == view,
            None => outcome == Err::<Statement, StoreWriteError>(StoreWriteError::Malformed),
        },
{
    match command {
        Command::UpsertBlock { size, height, hash, time } => block_statement(
            *size,
            *height,
            hash.as_str(),
            *time,
        ),
        Command::Link { height } => relationship_statement(*height),
        Command::UpsertTransaction { txid, height } => transaction_statement(
            txid.as_str(),
            *height,
        ),
    }
}

} // verus!
