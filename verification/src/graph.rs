//! The graph as a mathematical value: blocks, transactions and chain-order
//! edges, with the merge rules that every writer follows.

use vstd::prelude::*;

verus! {

/// A block entity. Its identity is `(height, hash)`; `size` and `time` are set
/// when it is created and never afterwards.
pub struct BlockView {
    pub height: int,
    pub hash: Seq<char>,
    pub size: int,
    pub time: Seq<char>,
}

/// A transaction entity. Its identity is `txid`; `height` points back at the
/// block that holds it.
pub struct TransactionView {
    pub txid: Seq<char>,
    pub height: int,
}

/// A chain-order edge from the block at height `from` to the block at height
/// `to`.
pub struct LinkView {
    pub from: int,
    pub to: int,
}

/// The whole graph, each kind of entity in the order of its creation.
pub struct Graph {
    pub blocks: Seq<BlockView>,
    pub transactions: Seq<TransactionView>,
    pub links: Seq<LinkView>,
}

/// How many entries of `s` meet `p`.
pub open spec fn count_of<A>(s: Seq<A>, p: spec_fn(A) -> bool) -> nat
    decreases s.len(),
{
    if s.len() == 0 {
        0
    } else {
        count_of(s.drop_last(), p) + if p(s.last()) {
            1nat
        } else {
            0nat
        }
    }
}

impl Graph {
    /// The graph that holds nothing.
    pub open spec fn empty() -> Graph {
        Graph { blocks: Seq::empty(), transactions: Seq::empty(), links: Seq::empty() }
    }

    /// A block with this identity is stored.
    pub open spec fn has_block(self, height: int, hash: Seq<char>) -> bool {
        exists|i: int|
            0 <= i < self.blocks.len() && (#[trigger] self.blocks[i]).height == height
                && self.blocks[i].hash == hash
    }

    /// `i` is the place of the block with this identity.
    pub open spec fn block_place(self, height: int, hash: Seq<char>, i: int) -> bool {
        0 <= i < self.blocks.len() && self.blocks[i].height == height && self.blocks[i].hash
            == hash
    }

    /// The block entity with this identity.
    pub open spec fn block(self, height: int, hash: Seq<char>) -> Option<BlockView> {
        if self.has_block(height, hash) {
            Some(self.blocks[choose|i: int| self.block_place(height, hash, i)])
        } else {
            None
        }
    }

    /// Some block is stored at this height.
    pub open spec fn has_block_at(self, height: int) -> bool {
        exists|i: int| 0 <= i < self.blocks.len() && (#[trigger] self.blocks[i]).height == height
    }

    /// `i` is the place of the earliest block created at `height`.
    pub open spec fn earliest_at(self, height: int, i: int) -> bool {
        &&& 0 <= i < self.blocks.len()
        &&& self.blocks[i].height == height
        &&& forall|j: int| 0 <= j < i ==> (#[trigger] self.blocks[j]).height != height
    }

    /// The block that answers for `height`: the earliest created there.
    pub open spec fn block_at(self, height: int) -> Option<BlockView> {
        if self.has_block_at(height) {
            Some(self.blocks[choose|i: int| self.earliest_at(height, i)])
        } else {
            None
        }
    }

    /// The number of block entities with this identity.
    pub open spec fn count_blocks(self, height: int, hash: Seq<char>) -> nat {
        count_of(self.blocks, |b: BlockView| b.height == height && b.hash == hash)
    }

    /// `i` is the place of the transaction `txid`.
    pub open spec fn transaction_place(self, txid: Seq<char>, i: int) -> bool {
        0 <= i < self.transactions.len() && self.transactions[i].txid == txid
    }

    /// A transaction with this id is stored.
    pub open spec fn has_transaction(self, txid: Seq<char>) -> bool {
        exists|i: int| self.transaction_place(txid, i)
    }

    /// The transaction stored under `txid`.
    pub open spec fn transaction(self, txid: Seq<char>) -> Option<TransactionView> {
        if self.has_transaction(txid) {
            Some(self.transactions[choose|i: int| self.transaction_place(txid, i)])
        } else {
            None
        }
    }

    /// The number of transaction entities with this id.
    pub open spec fn count_transactions(self, txid: Seq<char>) -> nat {
        count_of(self.transactions, |t: TransactionView| t.txid == txid)
    }

    /// An edge from height `from` to height `to` is stored.
    pub open spec fn has_link(self, from: int, to: int) -> bool {
        self.links.contains(LinkView { from, to })
    }

    /// The number of edges from height `from` to height `to`.
    pub open spec fn count_links(self, from: int, to: int) -> nat {
        count_of(self.links, |l: LinkView| l == LinkView { from, to })
    }

    /// What every graph built by the merge rules satisfies: no identity is
    /// stored twice, heights are not negative, and every edge runs from a
    /// stored height to the stored height just below it.
    pub open spec fn wf(self) -> bool {
        &&& forall|i: int, j: int|
            0 <= i < j < self.blocks.len() ==> !((#[trigger] self.blocks[i]).height == (
            #[trigger] self.blocks[j]).height && self.blocks[i].hash == self.blocks[j].hash)
        &&& forall|i: int| 0 <= i < self.blocks.len() ==> (#[trigger] self.blocks[i]).height >= 0
        &&& forall|i: int, j: int|
            0 <= i < j < self.transactions.len() ==> (#[trigger] self.transactions[i]).txid != (
            #[trigger] self.transactions[j]).txid
        &&& forall|i: int, j: int|
            0 <= i < j < self.links.len() ==> (#[trigger] self.links[i]) != (
            #[trigger] self.links[j])
        &&& forall|i: int|
            0 <= i < self.links.len() ==> {
                &&& (#[trigger] self.links[i]).to == self.links[i].from - 1
                &&& self.has_block_at(self.links[i].from)
                &&& self.has_block_at(self.links[i].to)
            }
    }

    /// At most one block stands at each height.
    pub open spec fn one_block_per_height(self) -> bool {
        forall|i: int, j: int|
            0 <= i < j < self.blocks.len() ==> (#[trigger] self.blocks[i]).height != (
            #[trigger] self.blocks[j]).height
    }

    /// Block upsert: match the identity `(height, hash)` or create the entity
    /// with its size and time. A match changes nothing.
    pub open spec fn upsert_block(self, block: BlockView) -> Graph {
        if self.has_block(block.height, block.hash) {
            self
        } else {
            Graph { blocks: self.blocks.push(block), ..self }
        }
    }

    /// Relationship linker: where a block stands at `height` and one at
    /// `height - 1`, merge the edge between them; otherwise change nothing.
    pub open spec fn link(self, height: int) -> Graph {
        if self.has_block_at(height) && self.has_block_at(height - 1) && !self.has_link(
            height,
            height - 1,
        ) {
            Graph { links: self.links.push(LinkView { from: height, to: height - 1 }), ..self }
        } else {
            self
        }
    }

    /// Transaction upsert: match `txid` and overwrite its height, or create
    /// the entity.
    pub open spec fn upsert_transaction(self, txid: Seq<char>, height: int) -> Graph {
        let entity = TransactionView { txid, height };
        if self.has_transaction(txid) {
            let place = choose|i: int| self.transaction_place(txid, i);
            Graph { transactions: self.transactions.update(place, entity), ..self }
        } else {
            Graph { transactions: self.transactions.push(entity), ..self }
        }
    }

    /// Transaction loader: upsert each of `txids` in order under `height`.
    pub open spec fn load_transactions(self, txids: Seq<Seq<char>>, height: int) -> Graph
        decreases txids.len(),
    {
        if txids.len() == 0 {
            self
        } else {
            self.load_transactions(txids.drop_last(), height).upsert_transaction(
                txids.last(),
                height,
            )
        }
    }
}

} // verus!
