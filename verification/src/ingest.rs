//! A whole run of the pipeline against the store in memory.

use crate::error::{RemoteQueryError, StoreWriteError};
use crate::graph::Graph;
use crate::pipeline::{
    load_data, step, Action, ActionView, Command, CommandView, Event, Pipeline, PipelineError,
    PipelineView,
};
use crate::rpc::{
    best_block_hash_in, block_count_in, get_rpc_data, list_in, reply_of, size_in, time_in,
    Exchange,
};
use crate::statement::statement_of;
use crate::store::{
    add_block_relationship, block_entity, load_block, load_transaction, stored_height, txids_in,
    GraphStore,
};
use vstd::prelude::*;

verus! {

/// What a write does to the graph, and how it ends.
pub open spec fn effect(g: Graph, command: CommandView) -> (Graph, Result<(), StoreWriteError>) {
    match command {
        CommandView::UpsertBlock { size, height, hash, time } => match block_entity(
            size,
            height,
            hash,
            time,
        ) {
            Some(entity) => (g.upsert_block(entity), Ok(())),
            None => (g, Err(StoreWriteError::Malformed)),
        },
        CommandView::Link { height } => match stored_height(height) {
            Some(at) => (g.link(at), Ok(())),
            None => (g, Err(StoreWriteError::Malformed)),
        },
        CommandView::UpsertTransaction { txid, height } => match stored_height(height) {
            Some(at) => (g.upsert_transaction(txid, at), Ok(())),
            None => (g, Err(StoreWriteError::Malformed)),
        },
    }
}

/// What the node told in its three answers: the tip's height and hash, and
/// the block's size, time and list; or the error that ends the run where an
/// answer failed or lacked its figure. The answers are read in the order of
/// the calls, and the first that fails decides.
pub open spec fn told(count: Exchange, hash: Exchange, block: Exchange) -> Result<
    (u64, Seq<char>, i64, i64, Seq<crate::json::Json>),
    RemoteQueryError,
> {
    match reply_of(count) {
        Err(error) => Err(error),
        Ok(reply) => match block_count_in(reply) {
            None => Err(RemoteQueryError::Malformed),
            Some(height) => match reply_of(hash) {
                Err(error) => Err(error),
                Ok(reply) => match best_block_hash_in(reply) {
                    None => Err(RemoteQueryError::Malformed),
                    Some(best) => match reply_of(block) {
                        Err(error) => Err(error),
                        Ok(reply) => match (size_in(reply), time_in(reply), list_in(reply)) {
                            (Some(size), Some(time), Some(list)) => Ok(
                                (height, best, size, time, list),
                            ),
                            _ => Err(RemoteQueryError::Malformed),
                        },
                    },
                },
            },
        },
    }
}

/// The end of a whole run and the graph it leaves. A run that is given up
/// leaves the graph as it was. A run that ends well has upserted the block,
/// run the linker for its height and loaded its list, in this order.
pub open spec fn ingested(count: Exchange, hash: Exchange, block: Exchange, g: Graph) -> (
    PipelineView,
    Graph,
) {
    match told(count, hash, block) {
        Err(error) => (PipelineView::Failed(PipelineError::Remote(error)), g),
        Ok((height, best, size, time, list)) => match block_entity(size, height, best, time) {
            None => (PipelineView::Failed(PipelineError::Store(StoreWriteError::Malformed)), g),
            Some(entity) => (
                PipelineView::Done {
                    loaded: txids_in(list).len(),
                    failed: (list.len() - txids_in(list).len()) as nat,
                },
                g.upsert_block(entity).link(height as int).load_transactions(
                    txids_in(list),
                    height as int,
                ),
            ),
        },
    }
}

/// Where a run stands while it writes: which write is asked for, and what
/// the graph holds by then.
pub open spec fn writing(
    state: PipelineView,
    action: ActionView,
    g: Graph,
    before: Graph,
    figures: (u64, Seq<char>, i64, i64, Seq<crate::json::Json>),
) -> bool {
    let (height, best, size, time, list) = figures;
    let txids = txids_in(list);
    let rejected = (list.len() - txids.len()) as nat;
    let entity = block_entity(size, height, best, time);
    let linked = before.upsert_block(entity.unwrap()).link(height as int);
    match state {
        PipelineView::UpsertingBlock { height: h, txids: t, rejected: r } => {
            &&& h == height && t == txids && r == rejected
            &&& action == ActionView::Write(
                CommandView::UpsertBlock { size, height, hash: best, time },
            )
            &&& g == before
        },
        PipelineView::Linking { height: h, txids: t, rejected: r } => {
            &&& h == height && t == txids && r == rejected
            &&& action == ActionView::Write(CommandView::Link { height })
            &&& entity is Some
            &&& g == before.upsert_block(entity.unwrap())
        },
        PipelineView::LoadingTransactions { height: h, txids: t, next, loaded, failed } => {
            &&& h == height && t == txids && loaded == next && failed == rejected
            &&& next < txids.len()
            &&& action == ActionView::Write(
                CommandView::UpsertTransaction { txid: txids[next as int], height },
            )
            &&& entity is Some
            &&& g == linked.load_transactions(txids.take(next as int), height as int)
        },
        PipelineView::Done { loaded, failed } => {
            &&& loaded == txids.len() && failed == rejected
            &&& action == ActionView::Rest
            &&& entity is Some
            &&& g == linked.load_transactions(txids, height as int)
        },
        PipelineView::Failed(error) => {
            &&& error == PipelineError::Store(StoreWriteError::Malformed)
            &&& action == ActionView::Rest
            &&& entity is None
            &&& g == before
        },
        _ => false,
    }
}

/// The writes that a run in this state still has before it.
pub open spec fn writes_left(state: PipelineView) -> nat {
    match state {
        PipelineView::UpsertingBlock { txids, .. } => txids.len() + 2,
        PipelineView::Linking { txids, .. } => txids.len() + 1,
        PipelineView::LoadingTransactions { txids, next, .. } => (txids.len() - next) as nat,
        _ => 0,
    }
}

/// The store in memory refuses exactly the writes that cannot be written as
/// a statement for the database, and a refused write changes nothing.
pub proof fn law_refused_writes(g: Graph, command: CommandView)
    ensures
        effect(g, command).1 is Ok <==> statement_of(command) is Some,
        effect(g, command).1 is Err ==> effect(g, command).0 == g,
{
}

/// Every write keeps a graph well formed.
pub proof fn law_writes_keep_wf(g: Graph, command: CommandView)
    requires
        g.wf(),
    ensures
        effect(g, command).0.wf(),
{
    match command {
        CommandView::UpsertBlock { size, height, hash, time } => {
            if let Some(entity) = block_entity(size, height, hash, time) {
                crate::laws::law_upsert_block_wf(g, entity);
            }
        },
        CommandView::Link { height } => {
            crate::laws::law_link_wf(g, height as int);
        },
        CommandView::UpsertTransaction { txid, height } => {
            crate::laws::law_upsert_transaction(g, txid, height as int);
        },
    }
}

/// A whole run is idempotent: a second run on the same answers ends as the
/// first did and leaves the graph that the first left.
pub proof fn law_run_is_idempotent(count: Exchange, hash: Exchange, block: Exchange, g: Graph)
    requires
        g.wf(),
    ensures
        ingested(count, hash, block, ingested(count, hash, block, g).1) == ingested(
            count,
            hash,
            block,
            g,
        ),
{
    if let Ok((height, best, size, time, list)) = told(count, hash, block) {
        if let Some(entity) = block_entity(size, height, best, time) {
            let at = height as int;
            let txids = txids_in(list);
            let upserted = g.upsert_block(entity);
            let linked = upserted.link(at);
            let once = linked.load_transactions(txids, at);
            crate::laws::law_upsert_block_wf(g, entity);
            crate::laws::law_upsert_block_idempotent(g, entity, entity);
            crate::laws::law_link_wf(upserted, at);
            crate::laws::law_load_transactions_wf(linked, txids, at);
            crate::laws::law_load_transactions_idempotent(linked, txids, at);
            assert(once.blocks == upserted.blocks);
            assert(once.links == linked.links);
            // The block is matched.
            assert(upserted.has_block(entity.height, entity.hash));
            let k = choose|k: int|
                0 <= k < upserted.blocks.len() && (#[trigger] upserted.blocks[k]).height
                    == entity.height && upserted.blocks[k].hash == entity.hash;
            assert(once.blocks[k].height == entity.height && once.blocks[k].hash == entity.hash);
            assert(once.upsert_block(entity) == once);
            // The edge is matched, or still has no ends.
            if upserted.has_block_at(at) && upserted.has_block_at(at - 1) {
                crate::laws::law_link_once(upserted, at);
                assert(once.has_link(at, at - 1));
            } else {
                if once.has_block_at(at) {
                    crate::laws::lemma_has_block_at_same_blocks(once, upserted, at);
                }
                if once.has_block_at(at - 1) {
                    crate::laws::lemma_has_block_at_same_blocks(once, upserted, at - 1);
                }
            }
            assert(once.link(at) == once);
        }
    }
}

/// Puts one write of the pipeline to the store in memory.
pub fn apply(command: &Command, graph: &mut GraphStore) -> (outcome: Result<(), StoreWriteError>)
    requires
        old(graph)@.wf(),
    ensures
        final(graph)@.wf(),
        (final(graph)@, outcome) == effect(old(graph)@, command@),
{
    match command {
        Command::UpsertBlock { size, height, hash, time } => {
            match load_block(*size, *height, hash.as_str(), *time, graph) {
                Ok(_) => Ok(()),
                Err(error) => Err(error),
            }
        },
        Command::Link { height } => {
            if *height > 0x7fff_ffff_ffff_ffff {
                return Err(StoreWriteError::Malformed);
            }
            add_block_relationship(*height, graph);
            Ok(())
        },
        Command::UpsertTransaction { txid, height } => load_transaction(
            txid.as_str(),
            *height,
            graph,
        ),
    }
}

/// Runs the pipeline from its trigger to its end against the store in
/// memory, given the node's answers to the three calls of a run: the chain
/// height, the best block's hash, and the block.
///
/// The run ends in `Failed` with the graph untouched where an answer failed
/// or was malformed, or where the block cannot be stored. Otherwise it ends
/// in `Done`: the block is upserted, linked to its predecessor where that
/// stands, and each transaction id of its list points at the block.
pub fn ingest(count: Exchange, hash: Exchange, block: Exchange, graph: &mut GraphStore) -> (end:
    Pipeline)
    requires
        old(graph)@.wf(),
    ensures
        final(graph)@.wf(),
        (end@, final(graph)@) == ingested(count, hash, block, old(graph)@),
{
    let (state, _) = load_data();
    let (state, action) = step(state, Event::Node(get_rpc_data(count)));
    if let Action::Rest = action {
        return state;
    }
    let (state, action) = step(state, Event::Node(get_rpc_data(hash)));
    if let Action::Rest = action {
        return state;
    }
    let (state, action) = step(state, Event::Node(get_rpc_data(block)));
    if let Action::Rest = action {
        return state;
    }
    let ghost figures = told(count, hash, block).unwrap();
    let mut state = state;
    let mut action = action;
    loop
        invariant
            state@.wf(),
            graph@.wf(),
            told(count, hash, block) == Ok::<
                (u64, Seq<char>, i64, i64, Seq<crate::json::Json>),
                RemoteQueryError,
            >(figures),
            writing(state@, action@, graph@, old(graph)@, figures),
        ensures
            state@.terminal(),
            graph@.wf(),
            writing(state@, action@, graph@, old(graph)@, figures),
        decreases writes_left(state@),
    {
        match action {
            Action::Write(command) => {
                proof {
                    let txids = txids_in(figures.4);
                    if let PipelineView::LoadingTransactions { next, .. } = state@ {
                        let at = next as int;
                        assert(txids.take(at + 1).drop_last() =~= txids.take(at));
                        assert(txids.take(at + 1).last() == txids[at]);
                        if at + 1 == txids.len() {
                            assert(txids.take(at + 1) =~= txids);
                        }
                    }
                    if let PipelineView::Linking { .. } = state@ {
                        assert(txids.take(0) =~= Seq::<Seq<char>>::empty());
                    }
                }
                let outcome = apply(&command, graph);
                let (next_state, next_action) = step(state, Event::Store(outcome));
                state = next_state;
                action = next_action;
            },
            _ => {
                break ;
            },
        }
    }
    state
}

} // verus!
