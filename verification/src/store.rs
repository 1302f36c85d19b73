//! The graph held in memory: the entities as records, and the writers and
//! readers that keep to the merge rules.

use crate::clock::{time_text, try_format_time};
use crate::error::StoreWriteError;
use crate::graph::{BlockView, Graph, LinkView, TransactionView};
use crate::json::{same_text, Json};
use crate::laws::{
    law_link_wf, law_upsert_block_wf, law_upsert_transaction, lemma_block, lemma_block_at,
    lemma_count_push, lemma_transaction_at,
};
use vstd::prelude::*;

verus! {

/// A block as stored and as answered to a query.
#[derive(Debug, Clone, PartialEq, Eq)]
pub struct Block {
    pub height: i64,
    pub hash: String,
    pub size: i64,
    pub time: String,
}

impl View for Block {
    type V = BlockView;

    open spec fn view(&self) -> BlockView {
        BlockView {
            height: self.height as int,
            hash: self.hash@,
            size: self.size as int,
            time: self.time@,
        }
    }
}

/// A transaction as stored and as answered to a query.
#[derive(Debug, Clone, PartialEq, Eq)]
pub struct Transaction {
    pub txid: String,
    pub height: i64,
}

impl View for Transaction {
    type V = TransactionView;

    open spec fn view(&self) -> TransactionView {
        TransactionView { txid: self.txid@, height: self.height as int }
    }
}

/// A chain-order edge as stored.
#[derive(Debug, Clone, Copy, PartialEq, Eq)]
pub struct Link {
    pub from: i64,
    pub to: i64,
}

impl View for Link {
    type V = LinkView;

    open spec fn view(&self) -> LinkView {
        LinkView { from: self.from as int, to: self.to as int }
    }
}

/// What the relationship linker found.
#[derive(Debug, Clone, Copy, PartialEq, Eq, Structural)]
pub enum Linkage {
    /// Both blocks stand and the edge between them is new.
    Created,
    /// Both blocks stand and the edge was there already.
    Matched,
    /// The block or its predecessor is not stored; no edge was made.
    Unmatched,
}

/// What the transaction loader did with a block's list.
#[derive(Debug, Clone, Copy, PartialEq, Eq, Structural)]
pub struct LoadReport {
    /// Items that were upserted.
    pub loaded: usize,
    /// Items that could not be: they were no transaction ids, or the height
    /// cannot be stored.
    pub failed: usize,
}

/// The graph store.
pub struct GraphStore {
    blocks: Vec<Block>,
    transactions: Vec<Transaction>,
    links: Vec<Link>,
}

impl View for GraphStore {
    type V = Graph;

    closed spec fn view(&self) -> Graph {
        Graph {
            blocks: self.blocks@.map_values(|b: Block| b@),
            transactions: self.transactions@.map_values(|t: Transaction| t@),
            links: self.links@.map_values(|l: Link| l@),
        }
    }
}

/// The height under which the store holds a block that a node counts as
/// `block_count`: the same number, where the store's integers reach it.
pub open spec fn stored_height(block_count: u64) -> Option<int> {
    if block_count <= i64::MAX {
        Some(block_count as int)
    } else {
        None
    }
}

/// The entity that block upsert creates from a node's figures, where the
/// store can hold it.
pub open spec fn block_entity(
    transaction_size: i64,
    block_count: u64,
    best_block_hash: Seq<char>,
    time: i64,
) -> Option<BlockView> {
    match (stored_height(block_count), time_text(time)) {
        (Some(height), Some(text)) => Some(
            BlockView { height, hash: best_block_hash, size: transaction_size as int, time: text },
        ),
        _ => None,
    }
}

/// The transaction ids among the items of a block's list, in their order.
/// An item that is no text is no transaction id.
pub open spec fn txids_in(items: Seq<Json>) -> Seq<Seq<char>>
    decreases items.len(),
{
    if items.len() == 0 {
        Seq::empty()
    } else {
        match items.last().text_of() {
            Some(txid) => txids_in(items.drop_last()).push(txid),
            None => txids_in(items.drop_last()),
        }
    }
}

fn copy_block(block: &Block) -> (copy: Block)
    ensures
        copy == *block,
{
    Block {
        height: block.height,
        hash: block.hash.clone(),
        size: block.size,
        time: block.time.clone(),
    }
}

impl GraphStore {
    /// A store that holds nothing.
    pub fn new() -> (store: GraphStore)
        ensures
            store@ == Graph::empty(),
            store@.wf(),
    {
        let store = GraphStore { blocks: Vec::new(), transactions: Vec::new(), links: Vec::new() };
        assert(store@.blocks =~= Seq::empty());
        assert(store@.transactions =~= Seq::empty());
        assert(store@.links =~= Seq::empty());
        store
    }

    /// Block by height: the block that answers for `height`, with the hash,
    /// size and time it was created with, or `None` where no block stands
    /// there. Reads only.
    pub fn get_block(&self, height: i64) -> (found: Option<Block>)
        ensures
            match found {
                Some(block) => self@.block_at(height as int) == Some(block@),
                None => self@.block_at(height as int) is None,
            },
    {
        let mut i: usize = 0;
        while i < self.blocks.len()
            invariant
                i <= self.blocks.len(),
                forall|j: int| 0 <= j < i ==> (#[trigger] self@.blocks[j]).height != height,
            decreases self.blocks.len() - i,
        {
            if self.blocks[i].height == height {
                proof {
                    assert(self@.blocks[i as int] == self.blocks@[i as int]@);
                    assert(self@.earliest_at(height as int, i as int));
                    lemma_block_at(self@, height as int, i as int);
                }
                return Some(copy_block(&self.blocks[i]));
            }
            proof {
                assert(self@.blocks[i as int] == self.blocks@[i as int]@);
            }
            i = i + 1;
        }
        None
    }

    /// Transaction by id: the transaction stored under `txid`, or `None`.
    /// Reads only.
    pub fn get_transaction(&self, txid: &str) -> (found: Option<Transaction>)
        requires
            self@.wf(),
        ensures
            match found {
                Some(transaction) => self@.transaction(txid@) == Some(transaction@),
                None => self@.transaction(txid@) is None,
            },
    {
        match self.place_of_transaction(txid) {
            Some(i) => {
                let stored = &self.transactions[i];
                Some(Transaction { txid: stored.txid.clone(), height: stored.height })
            },
            None => None,
        }
    }

    /// The number of block entities with the identity `(height, hash)`.
    pub fn count_blocks(&self, height: i64, hash: &str) -> (n: usize)
        ensures
            n == self@.count_blocks(height as int, hash@),
    {
        let ghost p = |b: BlockView| b.height == height as int && b.hash == hash@;
        let mut n: usize = 0;
        let mut i: usize = 0;
        while i < self.blocks.len()
            invariant
                i <= self.blocks.len(),
                n <= i,
                n == crate::graph::count_of(self@.blocks.take(i as int), p),
                p == |b: BlockView| b.height == height as int && b.hash == hash@,
            decreases self.blocks.len() - i,
        {
            proof {
                let seen = self@.blocks.take(i as int);
                assert(self@.blocks[i as int] == self.blocks@[i as int]@);
                assert(self@.blocks.take(i + 1) =~= seen.push(self@.blocks[i as int]));
                lemma_count_push(seen, self@.blocks[i as int], p);
            }
            if self.blocks[i].height == height && same_text(self.blocks[i].hash.as_str(), hash) {
                n = n + 1;
            }
            i = i + 1;
        }
        assert(self@.blocks.take(i as int) =~= self@.blocks);
        n
    }

    /// The number of transaction entities with the id `txid`.
    pub fn count_transactions(&self, txid: &str) -> (n: usize)
        ensures
            n == self@.count_transactions(txid@),
    {
        let ghost p = |t: TransactionView| t.txid == txid@;
        let mut n: usize = 0;
        let mut i: usize = 0;
        while i < self.transactions.len()
            invariant
                i <= self.transactions.len(),
                n <= i,
                n == crate::graph::count_of(self@.transactions.take(i as int), p),
                p == |t: TransactionView| t.txid == txid@,
            decreases self.transactions.len() - i,
        {
            proof {
                let seen = self@.transactions.take(i as int);
                assert(self@.transactions[i as int] == self.transactions@[i as int]@);
                assert(self@.transactions.take(i + 1) =~= seen.push(self@.transactions[i as int]));
                lemma_count_push(seen, self@.transactions[i as int], p);
            }
            if same_text(self.transactions[i].txid.as_str(), txid) {
                n = n + 1;
            }
            i = i + 1;
        }
        assert(self@.transactions.take(i as int) =~= self@.transactions);
        n
    }

    /// The number of edges from height `from` to height `to`.
    pub fn count_links(&self, from: i64, to: i64) -> (n: usize)
        ensures
            n == self@.count_links(from as int, to as int),
    {
        let ghost p = |l: LinkView| l == LinkView { from: from as int, to: to as int };
        let mut n: usize = 0;
        let mut i: usize = 0;
        while i < self.links.len()
            invariant
                i <= self.links.len(),
                n <= i,
                n == crate::graph::count_of(self@.links.take(i as int), p),
                p == (|l: LinkView| l == (LinkView { from: from as int, to: to as int })),
            decreases self.links.len() - i,
        {
            proof {
                let seen = self@.links.take(i as int);
                assert(self@.links[i as int] == self.links@[i as int]@);
                assert(self@.links.take(i + 1) =~= seen.push(self@.links[i as int]));
                lemma_count_push(seen, self@.links[i as int], p);
            }
            if self.links[i].from == from && self.links[i].to == to {
                n = n + 1;
            }
            i = i + 1;
        }
        assert(self@.links.take(i as int) =~= self@.links);
        n
    }

    /// How many blocks, transactions and edges the store holds.
    pub fn totals(&self) -> (n: (usize, usize, usize))
        ensures
            n.0 == self@.blocks.len(),
            n.1 == self@.transactions.len(),
            n.2 == self@.links.len(),
    {
        (self.blocks.len(), self.transactions.len(), self.links.len())
    }

    fn place_of_block(&self, height: i64, hash: &str) -> (place: Option<usize>)
        ensures
            match place {
                Some(i) => self@.block_place(height as int, hash@, i as int),
                None => !self@.has_block(height as int, hash@),
            },
    {
        let mut i: usize = 0;
        while i < self.blocks.len()
            invariant
                i <= self.blocks.len(),
                forall|j: int| 0 <= j < i ==> !self@.block_place(height as int, hash@, j),
            decreases self.blocks.len() - i,
        {
            proof {
                assert(self@.blocks[i as int] == self.blocks@[i as int]@);
            }
            if self.blocks[i].height == height && same_text(self.blocks[i].hash.as_str(), hash) {
                return Some(i);
            }
            i = i + 1;
        }
        proof {
            if self@.has_block(height as int, hash@) {
                let c = choose|c: int|
                    0 <= c < self@.blocks.len() && (#[trigger] self@.blocks[c]).height
                        == height as int && self@.blocks[c].hash == hash@;
                assert(self@.block_place(height as int, hash@, c));
            }
        }
        None
    }

    fn holds_block_at(&self, height: i64) -> (holds: bool)
        ensures
            holds == self@.has_block_at(height as int),
    {
        let mut i: usize = 0;
        while i < self.blocks.len()
            invariant
                i <= self.blocks.len(),
                forall|j: int| 0 <= j < i ==> (#[trigger] self@.blocks[j]).height != height,
            decreases self.blocks.len() - i,
        {
            proof {
                assert(self@.blocks[i as int] == self.blocks@[i as int]@);
            }
            if self.blocks[i].height == height {
                return true;
            }
            i = i + 1;
        }
        false
    }

    fn place_of_transaction(&self, txid: &str) -> (place: Option<usize>)
        requires
            self@.wf(),
        ensures
            match place {
                Some(i) => self@.transaction_place(txid@, i as int) && self@.has_transaction(txid@)
                    && self@.transaction(txid@) == Some(self.transactions@[i as int]@) && (
                choose|c: int| self@.transaction_place(txid@, c)) == i,
                None => !self@.has_transaction(txid@),
            },
    {
        let mut i: usize = 0;
        while i < self.transactions.len()
            invariant
                self@.wf(),
                i <= self.transactions.len(),
                forall|j: int| 0 <= j < i ==> !self@.transaction_place(txid@, j),
            decreases self.transactions.len() - i,
        {
            proof {
                assert(self@.transactions[i as int] == self.transactions@[i as int]@);
            }
            if same_text(self.transactions[i].txid.as_str(), txid) {
                proof {
                    lemma_transaction_at(self@, txid@, i as int);
                }
                return Some(i);
            }
            i = i + 1;
        }
        None
    }

    fn holds_link(&self, from: i64, to: i64) -> (holds: bool)
        ensures
            holds == self@.has_link(from as int, to as int),
    {
        let ghost edge = LinkView { from: from as int, to: to as int };
        let mut i: usize = 0;
        while i < self.links.len()
            invariant
                i <= self.links.len(),
                edge == (LinkView { from: from as int, to: to as int }),
                forall|j: int| 0 <= j < i ==> (#[trigger] self@.links[j]) != edge,
            decreases self.links.len() - i,
        {
            proof {
                assert(self@.links[i as int] == self.links@[i as int]@);
            }
            if self.links[i].from == from && self.links[i].to == to {
                assert(self@.links[i as int] == edge);
                return true;
            }
            i = i + 1;
        }
        false
    }

    fn upsert_transaction(&mut self, txid: &str, height: i64)
        requires
            old(self)@.wf(),
        ensures
            final(self)@ == old(self)@.upsert_transaction(txid@, height as int),
            final(self)@.wf(),
    {
        proof {
            law_upsert_transaction(self@, txid@, height as int);
        }
        let entity = Transaction { txid: txid.to_owned(), height };
        match self.place_of_transaction(txid) {
            Some(i) => {
                self.transactions.set(i, entity);
                assert(self@.transactions =~= old(self)@.transactions.update(i as int, entity@));
            },
            None => {
                self.transactions.push(entity);
                assert(self@.transactions =~= old(self)@.transactions.push(entity@));
            },
        }
    }
}

/// Block upsert. Matches the block `(block_count, best_block_hash)` or
/// creates it with `transaction_size` as its size and the calendar text of
/// `time` as its time, and gives back the entity as the store holds it: the
/// one created now, or the one matched, whose size and time stay as they
/// were. A height beyond the store's integers or a time beyond the calendar
/// is refused, and nothing is written.
pub fn load_block(
    transaction_size: i64,
    block_count: u64,
    best_block_hash: &str,
    time: i64,
    graph: &mut GraphStore,
) -> (outcome: Result<Block, StoreWriteError>)
    requires
        old(graph)@.wf(),
    ensures
        final(graph)@.wf(),
        match block_entity(transaction_size, block_count, best_block_hash@, time) {
            Some(entity) => {
                &&& final(graph)@ == old(graph)@.upsert_block(entity)
                &&& outcome matches Ok(stored)
                &&& final(graph)@.block(entity.height, entity.hash) == Some(stored@)
                &&& !old(graph)@.has_block(entity.height, entity.hash) ==> stored@ == entity
                &&& old(graph)@.has_block(entity.height, entity.hash) ==> old(graph)@.block(
                    entity.height,
                    entity.hash,
                ) == Some(stored@)
            },
            None => {
                &&& final(graph)@ == old(graph)@
                &&& outcome == Err::<Block, StoreWriteError>(StoreWriteError::Malformed)
            },
        },
{
    if block_count > 0x7fff_ffff_ffff_ffff {
        return Err(StoreWriteError::Malformed);
    }
    let height = block_count as i64;
    let text = match try_format_time(time) {
        Some(text) => text,
        None => {
            return Err(StoreWriteError::Malformed);
        },
    };
    let ghost entity = block_entity(transaction_size, block_count, best_block_hash@, time).unwrap();
    match graph.place_of_block(height, best_block_hash) {
        Some(i) => {
            proof {
                lemma_block(graph@, entity.height, entity.hash, i as int);
            }
            Ok(copy_block(&graph.blocks[i]))
        },
        None => {
            let block = Block {
                height,
                hash: best_block_hash.to_owned(),
                size: transaction_size,
                time: text,
            };
            let stored = copy_block(&block);
            proof {
                law_upsert_block_wf(graph@, entity);
            }
            graph.blocks.push(block);
            proof {
                assert(block@ == entity);
                assert(graph@.blocks =~= old(graph)@.blocks.push(entity));
                assert(graph@.block_place(entity.height, entity.hash, old(graph)@.blocks.len() as int));
                lemma_block(graph@, entity.height, entity.hash, old(graph)@.blocks.len() as int);
            }
            Ok(stored)
        },
    }
}

/// Relationship linker. Where a block stands at `block_count` and one at the
/// height just below, merges the edge from the first to the second: it is
/// created once and matched afterwards. Where either is missing nothing is
/// written. There is no failure.
pub fn add_block_relationship(block_count: u64, graph: &mut GraphStore) -> (linkage: Linkage)
    requires
        old(graph)@.wf(),
    ensures
        final(graph)@.wf(),
        final(graph)@ == old(graph)@.link(block_count as int),
        linkage == if !old(graph)@.has_block_at(block_count as int) || !old(graph)@.has_block_at(
            block_count - 1,
        ) {
            Linkage::Unmatched
        } else if old(graph)@.has_link(block_count as int, block_count - 1) {
            Linkage::Matched
        } else {
            Linkage::Created
        },
{
    proof {
        law_link_wf(graph@, block_count as int);
        if graph@.has_block_at(block_count as int) {
            let k = choose|k: int|
                0 <= k < graph@.blocks.len() && (#[trigger] graph@.blocks[k]).height
                    == block_count as int;
            assert(graph@.blocks[k] == graph.blocks@[k]@);
        }
        if graph@.has_block_at(block_count - 1) {
            let k = choose|k: int|
                0 <= k < graph@.blocks.len() && (#[trigger] graph@.blocks[k]).height == block_count
                    - 1;
            assert(graph@.blocks[k].height >= 0);
        }
    }
    if block_count == 0 || block_count > 0x7fff_ffff_ffff_ffff {
        return Linkage::Unmatched;
    }
    let current = block_count as i64;
    let previous = current - 1;
    if !graph.holds_block_at(current) || !graph.holds_block_at(previous) {
        return Linkage::Unmatched;
    }
    if graph.holds_link(current, previous) {
        return Linkage::Matched;
    }
    let link = Link { from: current, to: previous };
    graph.links.push(link);
    assert(graph@.links =~= old(graph)@.links.push(link@));
    Linkage::Created
}

/// Transaction upsert, one item of the loader's work. Matches the
/// transaction `txid` or creates it, and points it at `block_count`. A
/// height beyond the store's integers is refused, and nothing is written.
pub fn load_transaction(txid: &str, block_count: u64, graph: &mut GraphStore) -> (outcome: Result<
    (),
    StoreWriteError,
>)
    requires
        old(graph)@.wf(),
    ensures
        final(graph)@.wf(),
        match stored_height(block_count) {
            Some(height) => {
                &&& final(graph)@ == old(graph)@.upsert_transaction(txid@, height)
                &&& outcome == Ok::<(), StoreWriteError>(())
            },
            None => {
                &&& final(graph)@ == old(graph)@
                &&& outcome == Err::<(), StoreWriteError>(StoreWriteError::Malformed)
            },
        },
{
    if block_count > 0x7fff_ffff_ffff_ffff {
        return Err(StoreWriteError::Malformed);
    }
    graph.upsert_transaction(txid, block_count as i64);
    Ok(())
}

/// Transaction loader. Takes the items of a block's list in order and
/// upserts each transaction id under `block_count`; an id stored before now
/// points at this height. An item that is no transaction id is counted as
/// failed and the rest go on. Where the height is beyond the store's
/// integers every item fails.
pub fn load_transactions_for_block(
    tx_arr: &Vec<Json>,
    block_count: u64,
    graph: &mut GraphStore,
) -> (report: LoadReport)
    requires
        old(graph)@.wf(),
    ensures
        final(graph)@.wf(),
        report.loaded + report.failed == tx_arr@.len(),
        match stored_height(block_count) {
            Some(height) => {
                &&& final(graph)@ == old(graph)@.load_transactions(txids_in(tx_arr@), height)
                &&& report.loaded == txids_in(tx_arr@).len()
            },
            None => {
                &&& final(graph)@ == old(graph)@
                &&& report.loaded == 0
            },
        },
{
    if block_count > 0x7fff_ffff_ffff_ffff {
        return LoadReport { loaded: 0, failed: tx_arr.len() };
    }
    let height = block_count as i64;
    let mut loaded: usize = 0;
    let mut failed: usize = 0;
    let mut i: usize = 0;
    while i < tx_arr.len()
        invariant
            i <= tx_arr.len(),
            loaded + failed == i,
            height == block_count,
            loaded == txids_in(tx_arr@.take(i as int)).len(),
            graph@.wf(),
            graph@ == old(graph)@.load_transactions(
                txids_in(tx_arr@.take(i as int)),
                height as int,
            ),
        decreases tx_arr.len() - i,
    {
        proof {
            assert(tx_arr@.take(i + 1).drop_last() =~= tx_arr@.take(i as int));
            assert(tx_arr@.take(i + 1).last() == tx_arr@[i as int]);
        }
        match tx_arr[i].as_str() {
            Some(txid) => {
                proof {
                    let before = txids_in(tx_arr@.take(i as int));
                    assert(before.push(txid@).drop_last() =~= before);
                    assert(before.push(txid@).last() == txid@);
                }
                graph.upsert_transaction(txid, height);
                loaded = loaded + 1;
            },
            None => {
                failed = failed + 1;
            },
        }
        i = i + 1;
    }
    assert(tx_arr@.take(i as int) =~= tx_arr@);
    LoadReport { loaded, failed }
}

} // verus!
