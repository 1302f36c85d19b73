//! The ingestion pipeline: one run takes the block at the chain tip from the
//! node into the graph store. The run decides; its caller performs what it
//! asks for and reports what came of it.

use crate::error::{RemoteQueryError, StoreWriteError};
use crate::json::Json;
use crate::rpc::{
    best_block_hash_in, best_block_hash_of, best_block_hash_request, block_count_in,
    block_count_of, block_count_request, block_figures_of, block_request, list_in, size_in,
    texts_of, time_in, RpcRequest,
};
use crate::store::txids_in;
use vstd::prelude::*;

verus! {

/// A call that the pipeline asks its caller to make to the node.
#[derive(Debug, Clone, PartialEq, Eq)]
pub enum NodeCall {
    /// `getblockcount`
    BlockCount,
    /// `getbestblockhash`
    BestBlockHash,
    /// `getblock` for this hash
    Block { hash: String },
}

/// A call to the node, its hash as the text it holds.
pub enum NodeCallView {
    BlockCount,
    BestBlockHash,
    Block { hash: Seq<char> },
}

impl View for NodeCall {
    type V = NodeCallView;

    open spec fn view(&self) -> NodeCallView {
        match self {
            NodeCall::BlockCount => NodeCallView::BlockCount,
            NodeCall::BestBlockHash => NodeCallView::BestBlockHash,
            NodeCall::Block { hash } => NodeCallView::Block { hash: hash@ },
        }
    }
}

impl NodeCall {
    /// The request that makes this call: `getblockcount` and
    /// `getbestblockhash` without parameters, `getblock` with the hash.
    pub fn request(&self) -> (request: RpcRequest)
        ensures
            request.jsonrpc@ == "1.0"@,
            request.id@ == "1"@,
            match self@ {
                NodeCallView::BlockCount => request.method@ == "getblockcount"@
                    && request.params@.len() == 0,
                NodeCallView::BestBlockHash => request.method@ == "getbestblockhash"@
                    && request.params@.len() == 0,
                NodeCallView::Block { hash } => request.method@ == "getblock"@
                    && request.params@.len() == 1 && request.params@[0].text_of() == Some(hash),
            },
    {
        match self {
            NodeCall::BlockCount => block_count_request(),
            NodeCall::BestBlockHash => best_block_hash_request(),
            NodeCall::Block { hash } => block_request(hash.as_str()),
        }
    }
}

/// A write that the pipeline asks its caller to put to the graph store.
#[derive(Debug, Clone, PartialEq, Eq)]
pub enum Command {
    /// Block upsert.
    UpsertBlock { size: i64, height: u64, hash: String, time: i64 },
    /// Relationship linker.
    Link { height: u64 },
    /// Transaction upsert, one item of the loader's list.
    UpsertTransaction { txid: String, height: u64 },
}

/// A write, its texts as the characters they hold.
pub enum CommandView {
    UpsertBlock { size: i64, height: u64, hash: Seq<char>, time: i64 },
    Link { height: u64 },
    UpsertTransaction { txid: Seq<char>, height: u64 },
}

impl View for Command {
    type V = CommandView;

    open spec fn view(&self) -> CommandView {
        match self {
            Command::UpsertBlock { size, height, hash, time } => CommandView::UpsertBlock {
                size: *size,
                height: *height,
                hash: hash@,
                time: *time,
            },
            Command::Link { height } => CommandView::Link { height: *height },
            Command::UpsertTransaction { txid, height } => CommandView::UpsertTransaction {
                txid: txid@,
                height: *height,
            },
        }
    }
}

/// What the caller is to do next.
#[derive(Debug, Clone, PartialEq, Eq)]
pub enum Action {
    /// Make this call and report its outcome as `Event::Node`.
    CallNode(NodeCall),
    /// Put this write to the store and report its outcome as `Event::Store`.
    Write(Command),
    /// Nothing: the run is over, or the event was not awaited.
    Rest,
}

/// What the caller is to do next, over the views of call and write.
pub enum ActionView {
    CallNode(NodeCallView),
    Write(CommandView),
    Rest,
}

impl View for Action {
    type V = ActionView;

    open spec fn view(&self) -> ActionView {
        match self {
            Action::CallNode(call) => ActionView::CallNode(call@),
            Action::Write(command) => ActionView::Write(command@),
            Action::Rest => ActionView::Rest,
        }
    }
}

/// What happened outside the pipeline.
#[derive(Debug, PartialEq)]
pub enum Event {
    /// A run was asked for.
    Trigger,
    /// The call to the node ended so.
    Node(Result<Json, RemoteQueryError>),
    /// The write to the store ended so.
    Store(Result<(), StoreWriteError>),
}

/// Why a run failed.
#[derive(Debug, Clone, PartialEq, Eq)]
pub enum PipelineError {
    Remote(RemoteQueryError),
    Store(StoreWriteError),
}

/// The state of one run.
#[derive(Debug, Clone, PartialEq, Eq)]
pub enum Pipeline {
    /// Not started.
    Idle,
    /// Asking for the chain tip: first its height, then its hash.
    FetchingTip { count: Option<u64> },
    /// Asking for the block at the tip.
    FetchingBlock { height: u64, hash: String },
    /// Block upsert is under way; the list waits.
    UpsertingBlock { height: u64, txids: Vec<String>, rejected: usize },
    /// The linker is under way; the list waits.
    Linking { height: u64, txids: Vec<String>, rejected: usize },
    /// The loader is at item `next` of the list; so far `loaded` items were
    /// upserted and `failed` were not.
    LoadingTransactions {
        height: u64,
        txids: Vec<String>,
        next: usize,
        loaded: usize,
        failed: usize,
    },
    /// The run is over: `loaded` items of the list were upserted, `failed`
    /// were not.
    Done { loaded: usize, failed: usize },
    /// The run was given up.
    Failed(PipelineError),
}

/// The state of one run as a mathematical value: the list as the texts of
/// its ids, the counters as natural numbers.
pub enum PipelineView {
    Idle,
    FetchingTip { count: Option<u64> },
    FetchingBlock { height: u64, hash: Seq<char> },
    UpsertingBlock { height: u64, txids: Seq<Seq<char>>, rejected: nat },
    Linking { height: u64, txids: Seq<Seq<char>>, rejected: nat },
    LoadingTransactions {
        height: u64,
        txids: Seq<Seq<char>>,
        next: nat,
        loaded: nat,
        failed: nat,
    },
    Done { loaded: nat, failed: nat },
    Failed(PipelineError),
}

impl View for Pipeline {
    type V = PipelineView;

    open spec fn view(&self) -> PipelineView {
        match self {
            Pipeline::Idle => PipelineView::Idle,
            Pipeline::FetchingTip { count } => PipelineView::FetchingTip { count: *count },
            Pipeline::FetchingBlock { height, hash } => PipelineView::FetchingBlock {
                height: *height,
                hash: hash@,
            },
            Pipeline::UpsertingBlock { height, txids, rejected } => PipelineView::UpsertingBlock {
                height: *height,
                txids: texts_of(txids@),
                rejected: *rejected as nat,
            },
            Pipeline::Linking { height, txids, rejected } => PipelineView::Linking {
                height: *height,
                txids: texts_of(txids@),
                rejected: *rejected as nat,
            },
            Pipeline::LoadingTransactions {
                height,
                txids,
                next,
                loaded,
                failed,
            } => PipelineView::LoadingTransactions {
                height: *height,
                txids: texts_of(txids@),
                next: *next as nat,
                loaded: *loaded as nat,
                failed: *failed as nat,
            },
            Pipeline::Done { loaded, failed } => PipelineView::Done {
                loaded: *loaded as nat,
                failed: *failed as nat,
            },
            Pipeline::Failed(error) => PipelineView::Failed(*error),
        }
    }
}

impl Pipeline {
    /// Whether the state holds to what the states of a run hold to. Every
    /// state that `step` gives does.
    pub fn well_formed(&self) -> (ok: bool)
        ensures
            ok == self@.wf(),
    {
        assert forall|ids: Seq<String>| (#[trigger] texts_of(ids)).len() == ids.len() by {}
        match self {
            Pipeline::UpsertingBlock { txids, rejected, .. } => *rejected <= usize::MAX
                - txids.len(),
            Pipeline::Linking { txids, rejected, .. } => *rejected <= usize::MAX - txids.len(),
            Pipeline::LoadingTransactions { txids, next, loaded, failed, .. } => {
                *next < txids.len() && *loaded <= *next && *failed <= usize::MAX - (txids.len()
                    - *next)
            },
            _ => true,
        }
    }
}

impl PipelineView {
    /// What the state of a run holds to: the loader stands within its list,
    /// and no counter can outgrow the list that the node sent.
    pub open spec fn wf(self) -> bool {
        match self {
            PipelineView::UpsertingBlock { txids, rejected, .. } => txids.len() + rejected
                <= usize::MAX,
            PipelineView::Linking { txids, rejected, .. } => txids.len() + rejected <= usize::MAX,
            PipelineView::LoadingTransactions { txids, next, loaded, failed, .. } => {
                &&& next < txids.len()
                &&& loaded <= next
                &&& failed + txids.len() - next <= usize::MAX
            },
            _ => true,
        }
    }

    /// The run is over.
    pub open spec fn terminal(self) -> bool {
        self is Done || self is Failed
    }

    /// The place of the state in the order of a run.
    pub open spec fn rank(self) -> nat {
        match self {
            PipelineView::Idle => 0,
            PipelineView::FetchingTip { count: None } => 1,
            PipelineView::FetchingTip { count: Some(_) } => 2,
            PipelineView::FetchingBlock { .. } => 3,
            PipelineView::UpsertingBlock { .. } => 4,
            PipelineView::Linking { .. } => 5,
            PipelineView::LoadingTransactions { .. } => 6,
            PipelineView::Done { .. } => 7,
            PipelineView::Failed(_) => 7,
        }
    }
}

/// Where the loader goes after item `next - 1`: to item `next`, or to the end
/// of the run when the list is through.
pub open spec fn loader_at(
    height: u64,
    txids: Seq<Seq<char>>,
    next: nat,
    loaded: nat,
    failed: nat,
) -> (PipelineView, ActionView) {
    if next < txids.len() {
        (
            PipelineView::LoadingTransactions { height, txids, next, loaded, failed },
            ActionView::Write(CommandView::UpsertTransaction { txid: txids[next as int], height }),
        )
    } else {
        (PipelineView::Done { loaded, failed }, ActionView::Rest)
    }
}

/// The pipeline's rule: the state after `event`, and what the caller is to
/// do next. An event that the state does not await changes nothing.
pub open spec fn transition(state: PipelineView, event: Event) -> (PipelineView, ActionView) {
    match (state, event) {
        (PipelineView::Idle, Event::Trigger) => (
            PipelineView::FetchingTip { count: None },
            ActionView::CallNode(NodeCallView::BlockCount),
        ),
        (PipelineView::FetchingTip { count: None }, Event::Node(Ok(reply))) => {
            match block_count_in(reply) {
                Some(height) => (
                    PipelineView::FetchingTip { count: Some(height) },
                    ActionView::CallNode(NodeCallView::BestBlockHash),
                ),
                None => failure(PipelineError::Remote(RemoteQueryError::Malformed)),
            }
        },
        (PipelineView::FetchingTip { count: Some(height) }, Event::Node(Ok(reply))) => {
            match best_block_hash_in(reply) {
                Some(hash) => (
                    PipelineView::FetchingBlock { height, hash },
                    ActionView::CallNode(NodeCallView::Block { hash }),
                ),
                None => failure(PipelineError::Remote(RemoteQueryError::Malformed)),
            }
        },
        (PipelineView::FetchingBlock { height, hash }, Event::Node(Ok(reply))) => {
            match (size_in(reply), time_in(reply), list_in(reply)) {
                (Some(size), Some(time), Some(list)) => (
                    PipelineView::UpsertingBlock {
                        height,
                        txids: txids_in(list),
                        rejected: (list.len() - txids_in(list).len()) as nat,
                    },
                    ActionView::Write(CommandView::UpsertBlock { size, height, hash, time }),
                ),
                _ => failure(PipelineError::Remote(RemoteQueryError::Malformed)),
            }
        },
        (PipelineView::FetchingTip { .. }, Event::Node(Err(error))) => failure(
            PipelineError::Remote(error),
        ),
        (PipelineView::FetchingBlock { .. }, Event::Node(Err(error))) => failure(
            PipelineError::Remote(error),
        ),
        (PipelineView::UpsertingBlock { height, txids, rejected }, Event::Store(Ok(_))) => (
            PipelineView::Linking { height, txids, rejected },
            ActionView::Write(CommandView::Link { height }),
        ),
        (PipelineView::UpsertingBlock { .. }, Event::Store(Err(error))) => failure(
            PipelineError::Store(error),
        ),
        (PipelineView::Linking { height, txids, rejected }, Event::Store(_)) => loader_at(
            height,
            txids,
            0,
            0,
            rejected,
        ),
        (
            PipelineView::LoadingTransactions { height, txids, next, loaded, failed },
            Event::Store(Ok(_)),
        ) => loader_at(height, txids, next + 1, loaded + 1, failed),
        (
            PipelineView::LoadingTransactions { height, txids, next, loaded, failed },
            Event::Store(Err(_)),
        ) => loader_at(height, txids, next + 1, loaded, failed + 1),
        _ => (state, ActionView::Rest),
    }
}

/// The end of a run that is given up.
pub open spec fn failure(error: PipelineError) -> (PipelineView, ActionView) {
    (PipelineView::Failed(error), ActionView::Rest)
}

fn give_up(error: PipelineError) -> (next: (Pipeline, Action))
    ensures
        (next.0@, next.1@) == failure(error),
{
    (Pipeline::Failed(error), Action::Rest)
}

fn load_from(height: u64, txids: Vec<String>, next: usize, loaded: usize, failed: usize) -> (after: (
    Pipeline,
    Action,
))
    requires
        next <= txids@.len(),
        loaded <= next,
        failed + txids@.len() - next <= usize::MAX,
    ensures
        (after.0@, after.1@) == loader_at(
            height,
            texts_of(txids@),
            next as nat,
            loaded as nat,
            failed as nat,
        ),
        after.0@.wf(),
{
    if next < txids.len() {
        let txid = txids[next].clone();
        (
            Pipeline::LoadingTransactions { height, txids, next, loaded, failed },
            Action::Write(Command::UpsertTransaction { txid, height }),
        )
    } else {
        (Pipeline::Done { loaded, failed }, Action::Rest)
    }
}

/// Begins a run against the chain tip as it is now: the run is in
/// `FetchingTip` and asks for the chain height.
pub fn load_data() -> (begun: (Pipeline, Action))
    ensures
        (begun.0@, begun.1@) == transition(PipelineView::Idle, Event::Trigger),
        begun.0@ == (PipelineView::FetchingTip { count: None }),
        begun.1@ == ActionView::CallNode(NodeCallView::BlockCount),
{
    step(Pipeline::Idle, Event::Trigger)
}

/// Takes a run one step: from `state`, on `event`, to the next state and to
/// what the caller is to do next.
///
/// A failed call to the node, or a document that lacks what was asked for,
/// ends the run in `Failed`; so does a failed block upsert. A failed linker
/// does not: the run goes on to the loader. A failed item of the loader is
/// counted and the loader goes on.
pub fn step(state: Pipeline, event: Event) -> (next: (Pipeline, Action))
    requires
        state@.wf(),
    ensures
        (next.0@, next.1@) == transition(state@, event),
        next.0@.wf(),
{
    assert forall|ids: Seq<String>| (#[trigger] texts_of(ids)).len() == ids.len() by {}
    match state {
        Pipeline::Idle => match event {
            Event::Trigger => (
                Pipeline::FetchingTip { count: None },
                Action::CallNode(NodeCall::BlockCount),
            ),
            _ => (Pipeline::Idle, Action::Rest),
        },
        Pipeline::FetchingTip { count: None } => match event {
            Event::Node(Ok(reply)) => match block_count_of(&reply) {
                Ok(height) => (
                    Pipeline::FetchingTip { count: Some(height) },
                    Action::CallNode(NodeCall::BestBlockHash),
                ),
                Err(_) => give_up(PipelineError::Remote(RemoteQueryError::Malformed)),
            },
            Event::Node(Err(error)) => give_up(PipelineError::Remote(error)),
            _ => (Pipeline::FetchingTip { count: None }, Action::Rest),
        },
        Pipeline::FetchingTip { count: Some(height) } => match event {
            Event::Node(Ok(reply)) => match best_block_hash_of(&reply) {
                Ok(hash) => {
                    let asked = hash.clone();
                    (
                        Pipeline::FetchingBlock { height, hash },
                        Action::CallNode(NodeCall::Block { hash: asked }),
                    )
                },
                Err(_) => give_up(PipelineError::Remote(RemoteQueryError::Malformed)),
            },
            Event::Node(Err(error)) => give_up(PipelineError::Remote(error)),
            _ => (Pipeline::FetchingTip { count: Some(height) }, Action::Rest),
        },
        Pipeline::FetchingBlock { height, hash } => match event {
            Event::Node(Ok(reply)) => match block_figures_of(&reply) {
                Ok(figures) => {
                    let size = figures.size;
                    let time = figures.time;
                    (
                        Pipeline::UpsertingBlock {
                            height,
                            txids: figures.txids,
                            rejected: figures.rejected,
                        },
                        Action::Write(Command::UpsertBlock { size, height, hash, time }),
                    )
                },
                Err(_) => give_up(PipelineError::Remote(RemoteQueryError::Malformed)),
            },
            Event::Node(Err(error)) => give_up(PipelineError::Remote(error)),
            _ => (Pipeline::FetchingBlock { height, hash }, Action::Rest),
        },
        Pipeline::UpsertingBlock { height, txids, rejected } => match event {
            Event::Store(Ok(_)) => (
                Pipeline::Linking { height, txids, rejected },
                Action::Write(Command::Link { height }),
            ),
            Event::Store(Err(error)) => give_up(PipelineError::Store(error)),
            _ => (Pipeline::UpsertingBlock { height, txids, rejected }, Action::Rest),
        },
        Pipeline::Linking { height, txids, rejected } => match event {
            Event::Store(_) => load_from(height, txids, 0, 0, rejected),
            _ => (Pipeline::Linking { height, txids, rejected }, Action::Rest),
        },
        Pipeline::LoadingTransactions { height, txids, next, loaded, failed } => {
            assert(next < txids.len());
            match event {
                Event::Store(Ok(_)) => load_from(height, txids, next + 1, loaded + 1, failed),
                Event::Store(Err(_)) => load_from(height, txids, next + 1, loaded, failed + 1),
                _ => (
                    Pipeline::LoadingTransactions { height, txids, next, loaded, failed },
                    Action::Rest,
                ),
            }
        },
        Pipeline::Done { loaded, failed } => (Pipeline::Done { loaded, failed }, Action::Rest),
        Pipeline::Failed(error) => (Pipeline::Failed(error), Action::Rest),
    }
}

/// A run that is over stays as it is and asks for nothing more, whatever
/// is reported to it.
pub proof fn law_terminal_states_absorb(state: PipelineView, event: Event)
    requires
        state.terminal(),
    ensures
        transition(state, event) == (state, ActionView::Rest),
{
}

/// A run is given up only while it fetches the tip, fetches the block or
/// upserts the block.
pub proof fn law_failure_sources(state: PipelineView, event: Event)
    requires
        transition(state, event).0 is Failed,
    ensures
        state is FetchingTip || state is FetchingBlock || state is UpsertingBlock
            || state is Failed,
{
}

/// Whatever the linker reports, the run goes on to the loader, or ends well
/// where the list holds no transaction id.
pub proof fn law_linking_is_not_fatal(state: PipelineView, outcome: Result<(), StoreWriteError>)
    requires
        state is Linking,
    ensures
        transition(state, Event::Store(outcome)).0 is LoadingTransactions || transition(
            state,
            Event::Store(outcome),
        ).0 is Done,
        transition(state, Event::Store(outcome)) == transition(state, Event::Store(Ok(()))),
{
}

/// A failed item does not stop the loader: it goes to the same item next as
/// after a success, with the failure counted.
pub proof fn law_loader_goes_on(state: PipelineView, error: StoreWriteError)
    requires
        state is LoadingTransactions,
    ensures
        match (
            transition(state, Event::Store(Err(error))).0,
            transition(state, Event::Store(Ok(()))).0,
        ) {
            (
                PipelineView::LoadingTransactions { next: a, failed: fa, loaded: la, .. },
                PipelineView::LoadingTransactions { next: b, failed: fb, loaded: lb, .. },
            ) => a == b && fa == fb + 1 && la + 1 == lb,
            (
                PipelineView::Done { loaded: la, failed: fa },
                PipelineView::Done { loaded: lb, failed: fb },
            ) => fa == fb + 1 && la + 1 == lb,
            _ => false,
        },
        transition(state, Event::Store(Err(error))).1 == transition(
            state,
            Event::Store(Ok(())),
        ).1,
{
}

/// A run never goes back: each step leaves it where it was or takes it
/// further along `Idle`, `FetchingTip`, `FetchingBlock`, `UpsertingBlock`,
/// `Linking`, `LoadingTransactions`, and the end.
pub proof fn law_runs_go_forward(state: PipelineView, event: Event)
    ensures
        state.rank() <= transition(state, event).0.rank(),
        transition(state, event).1 is Rest <==> transition(state, event).0.terminal()
            || transition(state, event).0 == state,
{
}

} // verus!
