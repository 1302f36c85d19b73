//! What holds of every graph that the merge rules build.

use crate::graph::{count_of, BlockView, Graph, LinkView, TransactionView};
use vstd::prelude::*;

verus! {

/// Counting one entry further adds one exactly where the entry meets `p`.
pub proof fn lemma_count_push<A>(s: Seq<A>, x: A, p: spec_fn(A) -> bool)
    ensures
        count_of(s.push(x), p) == count_of(s, p) + if p(x) {
            1nat
        } else {
            0nat
        },
{
    assert(s.push(x).drop_last() =~= s);
    assert(s.push(x).last() == x);
}

/// A count is zero exactly where no entry meets `p`.
pub proof fn lemma_count_zero<A>(s: Seq<A>, p: spec_fn(A) -> bool)
    ensures
        count_of(s, p) == 0 <==> forall|i: int| 0 <= i < s.len() ==> !p(#[trigger] s[i]),
    decreases s.len(),
{
    if s.len() > 0 {
        let front = s.drop_last();
        lemma_count_zero(front, p);
        if count_of(s, p) == 0 {
            assert forall|i: int| 0 <= i < s.len() implies !p(#[trigger] s[i]) by {
                if i < s.len() - 1 {
                    assert(front[i] == s[i]);
                }
            }
        }
        if forall|i: int| 0 <= i < s.len() ==> !p(#[trigger] s[i]) {
            assert forall|i: int| 0 <= i < front.len() implies !p(#[trigger] front[i]) by {
                assert(front[i] == s[i]);
            }
            assert(!p(s[s.len() - 1]));
        }
    }
}

/// Where no two entries meet `p` and one does, the count is one.
pub proof fn lemma_count_one<A>(s: Seq<A>, p: spec_fn(A) -> bool, k: int)
    requires
        0 <= k < s.len(),
        p(s[k]),
        forall|i: int| 0 <= i < s.len() && i != k ==> !p(#[trigger] s[i]),
    ensures
        count_of(s, p) == 1,
    decreases s.len(),
{
    let front = s.drop_last();
    if k == s.len() - 1 {
        assert forall|i: int| 0 <= i < front.len() implies !p(#[trigger] front[i]) by {
            assert(front[i] == s[i]);
        }
        lemma_count_zero(front, p);
    } else {
        assert(front[k] == s[k]);
        assert forall|i: int| 0 <= i < front.len() && i != k implies !p(#[trigger] front[i]) by {
            assert(front[i] == s[i]);
        }
        lemma_count_one(front, p, k);
        assert(!p(s[s.len() - 1]));
    }
}

/// Where a block stands at `height`, one of them is the earliest.
pub proof fn lemma_earliest_exists(g: Graph, height: int, k: int)
    requires
        0 <= k < g.blocks.len(),
        g.blocks[k].height == height,
    ensures
        exists|i: int| g.earliest_at(height, i),
    decreases k,
{
    if exists|j: int| 0 <= j < k && (#[trigger] g.blocks[j]).height == height {
        let j = choose|j: int| 0 <= j < k && (#[trigger] g.blocks[j]).height == height;
        lemma_earliest_exists(g, height, j);
    } else {
        assert(g.earliest_at(height, k));
    }
}

/// The earliest block at a height is the one that answers for it.
pub proof fn lemma_block_at(g: Graph, height: int, i: int)
    requires
        g.earliest_at(height, i),
    ensures
        g.has_block_at(height),
        g.block_at(height) == Some(g.blocks[i]),
{
    assert(g.blocks[i].height == height);
    let c = choose|c: int| g.earliest_at(height, c);
    assert(g.earliest_at(height, c));
    if c < i {
        assert(g.blocks[c].height != height);
    }
    if i < c {
        assert(g.blocks[i].height != height);
    }
}

/// In a well-formed graph the place of a block is the one that answers for
/// its identity.
pub proof fn lemma_block(g: Graph, height: int, hash: Seq<char>, i: int)
    requires
        g.wf(),
        g.block_place(height, hash, i),
    ensures
        g.has_block(height, hash),
        g.block(height, hash) == Some(g.blocks[i]),
{
    assert(g.blocks[i].height == height);
    let c = choose|c: int| g.block_place(height, hash, c);
    assert(g.block_place(height, hash, c));
    if c < i {
        assert(!(g.blocks[c].height == g.blocks[i].height && g.blocks[c].hash
            == g.blocks[i].hash));
    }
    if i < c {
        assert(!(g.blocks[i].height == g.blocks[c].height && g.blocks[i].hash
            == g.blocks[c].hash));
    }
}

/// In a well-formed graph the place of a transaction is the one that answers
/// for its id.
pub proof fn lemma_transaction_at(g: Graph, txid: Seq<char>, i: int)
    requires
        g.wf(),
        g.transaction_place(txid, i),
    ensures
        g.has_transaction(txid),
        g.transaction(txid) == Some(g.transactions[i]),
        (choose|c: int| g.transaction_place(txid, c)) == i,
{
    let c = choose|c: int| g.transaction_place(txid, c);
    assert(g.transaction_place(txid, c));
    if c < i {
        assert(g.transactions[c].txid != g.transactions[i].txid);
    }
    if i < c {
        assert(g.transactions[i].txid != g.transactions[c].txid);
    }
}

/// Nothing is stored in the empty graph, and it is well formed.
pub proof fn law_empty(height: int, txid: Seq<char>)
    ensures
        Graph::empty().wf(),
        Graph::empty().block_at(height) is None,
        Graph::empty().transaction(txid) is None,
{
}

/// Block upsert keeps a graph well formed.
pub proof fn law_upsert_block_wf(g: Graph, block: BlockView)
    requires
        g.wf(),
        block.height >= 0,
    ensures
        g.upsert_block(block).wf(),
{
    let after = g.upsert_block(block);
    if !g.has_block(block.height, block.hash) {
        assert forall|i: int, j: int| 0 <= i < j < after.blocks.len() implies !((
        #[trigger] after.blocks[i]).height == (#[trigger] after.blocks[j]).height
            && after.blocks[i].hash == after.blocks[j].hash) by {
            assert(after.blocks[i] == g.blocks[i]);
            if j < g.blocks.len() {
                assert(after.blocks[j] == g.blocks[j]);
            }
        }
        assert forall|i: int| 0 <= i < after.links.len() implies {
            &&& (#[trigger] after.links[i]).to == after.links[i].from - 1
            &&& after.has_block_at(after.links[i].from)
            &&& after.has_block_at(after.links[i].to)
        } by {
            assert(after.links[i] == g.links[i]);
            lemma_has_block_at_grows(g, block, g.links[i].from);
            lemma_has_block_at_grows(g, block, g.links[i].to);
        }
    }
}

/// Whether a height holds a block depends on the blocks alone.
pub proof fn lemma_has_block_at_same_blocks(g: Graph, after: Graph, height: int)
    requires
        after.blocks == g.blocks,
        g.has_block_at(height),
    ensures
        after.has_block_at(height),
{
    let k = choose|k: int| 0 <= k < g.blocks.len() && (#[trigger] g.blocks[k]).height == height;
    assert(after.blocks[k].height == height);
}

/// A height that holds a block still holds it after one more is created.
pub proof fn lemma_has_block_at_grows(g: Graph, block: BlockView, height: int)
    requires
        g.has_block_at(height),
    ensures
        (Graph { blocks: g.blocks.push(block), ..g }).has_block_at(height),
{
    let after = Graph { blocks: g.blocks.push(block), ..g };
    let k = choose|k: int| 0 <= k < g.blocks.len() && (#[trigger] g.blocks[k]).height == height;
    assert(after.blocks[k].height == height);
}

/// Idempotence of block upsert: repeating an upsert of one identity changes
/// nothing, whatever size and time the repetition carries; afterwards exactly
/// one entity has that identity, and it is the one that the first upsert
/// left.
pub proof fn law_upsert_block_idempotent(g: Graph, first: BlockView, again: BlockView)
    requires
        g.wf(),
        again.height == first.height,
        again.hash == first.hash,
    ensures
        g.upsert_block(first).upsert_block(again) == g.upsert_block(first),
        g.upsert_block(first).count_blocks(first.height, first.hash) == 1,
        !g.has_block(first.height, first.hash) ==> g.upsert_block(first).blocks
            == g.blocks.push(first),
        g.has_block(first.height, first.hash) ==> g.upsert_block(first) == g,
{
    let after = g.upsert_block(first);
    let p = |b: BlockView| b.height == first.height && b.hash == first.hash;
    if g.has_block(first.height, first.hash) {
        let k = choose|k: int|
            0 <= k < g.blocks.len() && (#[trigger] g.blocks[k]).height == first.height
                && g.blocks[k].hash == first.hash;
        assert(p(g.blocks[k]));
        assert forall|i: int| 0 <= i < g.blocks.len() && i != k implies !p(
            #[trigger] g.blocks[i],
        ) by {
            if i < k {
                assert(!(g.blocks[i].height == g.blocks[k].height && g.blocks[i].hash
                    == g.blocks[k].hash));
            } else {
                assert(!(g.blocks[k].height == g.blocks[i].height && g.blocks[k].hash
                    == g.blocks[i].hash));
            }
        }
        lemma_count_one(g.blocks, p, k);
    } else {
        let k = g.blocks.len() as int;
        assert(after.blocks[k] == first);
        assert(after.has_block(again.height, again.hash));
        assert forall|i: int| 0 <= i < after.blocks.len() && i != k implies !p(
            #[trigger] after.blocks[i],
        ) by {
            assert(after.blocks[i] == g.blocks[i]);
        }
        lemma_count_one(after.blocks, p, k);
    }
}

/// Block upsert keeps the rule of one block per height, unless it creates a
/// block at a height where another hash already stands.
pub proof fn law_upsert_block_one_per_height(g: Graph, block: BlockView)
    requires
        g.one_block_per_height(),
        g.has_block(block.height, block.hash) || !g.has_block_at(block.height),
    ensures
        g.upsert_block(block).one_block_per_height(),
{
    let after = g.upsert_block(block);
    if !g.has_block(block.height, block.hash) {
        assert forall|i: int, j: int| 0 <= i < j < after.blocks.len() implies (
        #[trigger] after.blocks[i]).height != (#[trigger] after.blocks[j]).height by {
            assert(after.blocks[i] == g.blocks[i]);
            if j < g.blocks.len() {
                assert(after.blocks[j] == g.blocks[j]);
            }
        }
    }
}

/// Query correctness, first half: a block created at a height where none
/// stood answers for that height with exactly its hash, size and time.
pub proof fn law_lookup_after_upsert(g: Graph, block: BlockView)
    requires
        !g.has_block_at(block.height),
    ensures
        g.upsert_block(block).block_at(block.height) == Some(block),
{
    let after = g.upsert_block(block);
    let k = g.blocks.len() as int;
    assert(!g.has_block(block.height, block.hash)) by {
        if g.has_block(block.height, block.hash) {
            let i = choose|i: int|
                0 <= i < g.blocks.len() && (#[trigger] g.blocks[i]).height == block.height
                    && g.blocks[i].hash == block.hash;
            assert(g.blocks[i].height == block.height);
        }
    }
    assert(after.blocks[k] == block);
    assert forall|j: int| 0 <= j < k implies (#[trigger] after.blocks[j]).height
        != block.height by {
        assert(after.blocks[j] == g.blocks[j]);
    }
    assert(after.earliest_at(block.height, k));
    lemma_block_at(after, block.height, k);
}

/// Query correctness, second half: a height at which no block was created
/// has no answer, and no write elsewhere gives it one.
pub proof fn law_lookup_of_absent_height(g: Graph, height: int, block: BlockView)
    requires
        !g.has_block_at(height),
        block.height != height,
    ensures
        g.block_at(height) is None,
        g.upsert_block(block).block_at(height) is None,
{
    let after = g.upsert_block(block);
    if after.has_block_at(height) {
        let i = choose|i: int|
            0 <= i < after.blocks.len() && (#[trigger] after.blocks[i]).height == height;
        if i < g.blocks.len() {
            assert(g.blocks[i].height == height);
        }
    }
}

/// An answer, once given for a height, is never replaced: later block
/// upserts leave it as it is.
pub proof fn law_lookup_is_stable(g: Graph, height: int, block: BlockView)
    requires
        g.has_block_at(height),
    ensures
        g.upsert_block(block).block_at(height) == g.block_at(height),
{
    let after = g.upsert_block(block);
    let k = choose|k: int| 0 <= k < g.blocks.len() && (#[trigger] g.blocks[k]).height == height;
    lemma_earliest_exists(g, height, k);
    let e = choose|e: int| g.earliest_at(height, e);
    lemma_block_at(g, height, e);
    if !g.has_block(block.height, block.hash) {
        assert(after.blocks[e] == g.blocks[e]);
        assert forall|j: int| 0 <= j < e implies (#[trigger] after.blocks[j]).height
            != height by {
            assert(after.blocks[j] == g.blocks[j]);
        }
        assert(after.earliest_at(height, e));
        lemma_block_at(after, height, e);
    }
}

/// The linker keeps a graph well formed.
pub proof fn law_link_wf(g: Graph, height: int)
    requires
        g.wf(),
    ensures
        g.link(height).wf(),
{
    let after = g.link(height);
    let edge = LinkView { from: height, to: height - 1 };
    if g.has_block_at(height) && g.has_block_at(height - 1) && !g.has_link(height, height - 1) {
        assert forall|i: int, j: int| 0 <= i < j < after.links.len() implies (
        #[trigger] after.links[i]) != (#[trigger] after.links[j]) by {
            assert(after.links[i] == g.links[i]);
            if j < g.links.len() {
                assert(after.links[j] == g.links[j]);
            } else {
                assert(g.links.contains(g.links[i]));
            }
        }
        assert forall|i: int| 0 <= i < after.links.len() implies {
            &&& (#[trigger] after.links[i]).to == after.links[i].from - 1
            &&& after.has_block_at(after.links[i].from)
            &&& after.has_block_at(after.links[i].to)
        } by {
            if i < g.links.len() {
                assert(after.links[i] == g.links[i]);
            }
            lemma_has_block_at_same_blocks(g, after, after.links[i].from);
            lemma_has_block_at_same_blocks(g, after, after.links[i].to);
        }
    }
}

/// Linkage correctness: where blocks stand at `height` and at `height - 1`,
/// the linker leaves exactly one edge between the two heights, and running it
/// again adds none.
pub proof fn law_link_once(g: Graph, height: int)
    requires
        g.wf(),
        g.has_block_at(height),
        g.has_block_at(height - 1),
    ensures
        g.link(height).has_link(height, height - 1),
        g.link(height).count_links(height, height - 1) == 1,
        g.link(height).link(height) == g.link(height),
{
    let after = g.link(height);
    let edge = LinkView { from: height, to: height - 1 };
    let p = |l: LinkView| l == edge;
    if g.has_link(height, height - 1) {
        let k = choose|k: int| 0 <= k < g.links.len() && g.links[k] == edge;
        assert(p(g.links[k]));
        assert forall|i: int| 0 <= i < g.links.len() && i != k implies !p(
            #[trigger] g.links[i],
        ) by {
            if i < k {
                assert(g.links[i] != g.links[k]);
            } else {
                assert(g.links[k] != g.links[i]);
            }
        }
        lemma_count_one(g.links, p, k);
    } else {
        let k = g.links.len() as int;
        assert(after.links[k] == edge);
        assert(after.links.contains(edge));
        assert forall|i: int| 0 <= i < after.links.len() && i != k implies !p(
            #[trigger] after.links[i],
        ) by {
            assert(after.links[i] == g.links[i]);
            assert(g.links.contains(g.links[i]));
        }
        lemma_count_one(after.links, p, k);
    }
}

/// Linkage gap policy: where no block stands at `height - 1`, or none at
/// `height`, the linker leaves the graph as it was.
pub proof fn law_link_gap(g: Graph, height: int)
    requires
        !g.has_block_at(height - 1) || !g.has_block_at(height),
    ensures
        g.link(height) == g,
{
}

/// In a well-formed graph no block stands below height zero, so the block at
/// height zero is never linked.
pub proof fn law_link_at_zero(g: Graph)
    requires
        g.wf(),
    ensures
        g.link(0) == g,
{
    if g.has_block_at(-1) {
        let i = choose|i: int| 0 <= i < g.blocks.len() && (#[trigger] g.blocks[i]).height == -1;
        assert(g.blocks[i].height >= 0);
    }
}

/// Transaction upsert keeps a graph well formed, leaves exactly one entity
/// with the id, and that entity points at `height`.
pub proof fn law_upsert_transaction(g: Graph, txid: Seq<char>, height: int)
    requires
        g.wf(),
    ensures
        g.upsert_transaction(txid, height).wf(),
        g.upsert_transaction(txid, height).transaction(txid) == Some(
            TransactionView { txid, height },
        ),
        g.upsert_transaction(txid, height).count_transactions(txid) == 1,
        g.upsert_transaction(txid, height).blocks == g.blocks,
        g.upsert_transaction(txid, height).links == g.links,
{
    let after = g.upsert_transaction(txid, height);
    let entity = TransactionView { txid, height };
    let p = |t: TransactionView| t.txid == txid;
    let k = if g.has_transaction(txid) {
        choose|i: int| g.transaction_place(txid, i)
    } else {
        g.transactions.len() as int
    };
    if g.has_transaction(txid) {
        assert(g.transaction_place(txid, k));
    }
    assert(after.transactions[k] == entity);
    assert forall|i: int| 0 <= i < after.transactions.len() && i != k implies (
    #[trigger] after.transactions[i]) == g.transactions[i] && after.transactions[i].txid
        != txid by {
        if g.has_transaction(txid) {
            if i < k {
                assert(g.transactions[i].txid != g.transactions[k].txid);
            } else {
                assert(g.transactions[k].txid != g.transactions[i].txid);
            }
        } else {
            assert(!g.transaction_place(txid, i));
        }
    }
    assert forall|i: int, j: int| 0 <= i < j < after.transactions.len() implies (
    #[trigger] after.transactions[i]).txid != (#[trigger] after.transactions[j]).txid by {
        if i != k && j != k {
            assert(g.transactions[i].txid != g.transactions[j].txid);
        }
    }
    assert forall|i: int| 0 <= i < after.links.len() implies {
        &&& (#[trigger] after.links[i]).to == after.links[i].from - 1
        &&& after.has_block_at(after.links[i].from)
        &&& after.has_block_at(after.links[i].to)
    } by {
        assert(after.links[i] == g.links[i]);
        lemma_has_block_at_same_blocks(g, after, g.links[i].from);
        lemma_has_block_at_same_blocks(g, after, g.links[i].to);
    }
    assert(after.wf());
    assert(after.transaction_place(txid, k));
    lemma_transaction_at(after, txid, k);
    lemma_count_one(after.transactions, p, k);
}

/// Transaction upsert leaves every other transaction as it was.
pub proof fn law_upsert_transaction_frame(
    g: Graph,
    txid: Seq<char>,
    height: int,
    other: Seq<char>,
)
    requires
        g.wf(),
        other != txid,
    ensures
        g.upsert_transaction(txid, height).transaction(other) == g.transaction(other),
{
    let after = g.upsert_transaction(txid, height);
    law_upsert_transaction(g, txid, height);
    if g.has_transaction(txid) {
        let k = choose|i: int| g.transaction_place(txid, i);
        assert(g.transaction_place(txid, k));
    }
    if g.has_transaction(other) {
        let i = choose|i: int| g.transaction_place(other, i);
        assert(g.transaction_place(other, i));
        assert(after.transactions[i] == g.transactions[i]);
        assert(after.transaction_place(other, i));
        lemma_transaction_at(after, other, i);
    } else if after.has_transaction(other) {
        let i = choose|i: int| after.transaction_place(other, i);
        assert(after.transaction_place(other, i));
        if i < g.transactions.len() {
            assert(after.transactions[i].txid == g.transactions[i].txid);
            assert(g.transaction_place(other, i));
        }
    }
}

/// The transaction loader keeps a graph well formed and touches neither
/// blocks nor edges.
pub proof fn law_load_transactions_wf(g: Graph, txids: Seq<Seq<char>>, height: int)
    requires
        g.wf(),
    ensures
        g.load_transactions(txids, height).wf(),
        g.load_transactions(txids, height).blocks == g.blocks,
        g.load_transactions(txids, height).links == g.links,
    decreases txids.len(),
{
    if txids.len() > 0 {
        law_load_transactions_wf(g, txids.drop_last(), height);
        law_upsert_transaction(g.load_transactions(txids.drop_last(), height), txids.last(), height);
    }
}

/// Transaction association: after the loader has run for `height` over a
/// list that holds `txid`, the transaction `txid` points at `height`.
pub proof fn law_transaction_after_load(
    g: Graph,
    txids: Seq<Seq<char>>,
    height: int,
    txid: Seq<char>,
)
    requires
        g.wf(),
        txids.contains(txid),
    ensures
        g.load_transactions(txids, height).transaction(txid) == Some(
            TransactionView { txid, height },
        ),
    decreases txids.len(),
{
    let front = txids.drop_last();
    let before = g.load_transactions(front, height);
    law_load_transactions_wf(g, front, height);
    if txids.last() == txid {
        law_upsert_transaction(before, txid, height);
    } else {
        let i = choose|i: int| 0 <= i < txids.len() && txids[i] == txid;
        assert(front[i] == txid);
        law_transaction_after_load(g, front, height, txid);
        law_upsert_transaction_frame(before, txids.last(), height, txid);
    }
}

/// A transaction that the loader's list does not hold is left as it was.
pub proof fn law_load_transactions_frame(
    g: Graph,
    txids: Seq<Seq<char>>,
    height: int,
    other: Seq<char>,
)
    requires
        g.wf(),
        !txids.contains(other),
    ensures
        g.load_transactions(txids, height).transaction(other) == g.transaction(other),
    decreases txids.len(),
{
    if txids.len() > 0 {
        let front = txids.drop_last();
        let before = g.load_transactions(front, height);
        law_load_transactions_wf(g, front, height);
        assert(txids[txids.len() - 1] != other);
        assert(!front.contains(other)) by {
            if front.contains(other) {
                let i = choose|i: int| 0 <= i < front.len() && front[i] == other;
                assert(txids[i] == other);
            }
        }
        law_load_transactions_frame(g, front, height, other);
        law_upsert_transaction_frame(before, txids.last(), height, other);
    }
}

/// An edge is made only when the linker runs: a block upsert makes none,
/// so a predecessor that arrives after the linker ran stays unlinked until
/// the linker runs again.
pub proof fn law_upsert_block_makes_no_edge(g: Graph, block: BlockView, from: int, to: int)
    ensures
        g.upsert_block(block).links == g.links,
        g.upsert_block(block).transactions == g.transactions,
        g.upsert_block(block).has_link(from, to) == g.has_link(from, to),
{
}

/// The linker touches neither blocks nor transactions.
pub proof fn law_link_frame(g: Graph, height: int)
    ensures
        g.link(height).blocks == g.blocks,
        g.link(height).transactions == g.transactions,
{
}

/// Loading a list again under the same height changes nothing: where every
/// id of the list already points at `height`, the loader leaves the graph
/// as it is.
pub proof fn law_load_transactions_again(g: Graph, txids: Seq<Seq<char>>, height: int)
    requires
        g.wf(),
        forall|i: int|
            0 <= i < txids.len() ==> g.transaction(#[trigger] txids[i]) == Some(
                TransactionView { txid: txids[i], height },
            ),
    ensures
        g.load_transactions(txids, height) == g,
    decreases txids.len(),
{
    if txids.len() > 0 {
        let front = txids.drop_last();
        assert forall|i: int| 0 <= i < front.len() implies g.transaction(#[trigger] front[i])
            == Some(TransactionView { txid: front[i], height }) by {
            assert(front[i] == txids[i]);
        }
        law_load_transactions_again(g, front, height);
        let txid = txids.last();
        assert(g.transaction(txids[txids.len() - 1]) == Some(TransactionView { txid, height }));
        let place = choose|i: int| g.transaction_place(txid, i);
        assert(g.transactions.update(place, TransactionView { txid, height })
            =~= g.transactions);
    }
}

/// The loader is idempotent: run twice over one list under one height, it
/// leaves what it left the first time.
pub proof fn law_load_transactions_idempotent(g: Graph, txids: Seq<Seq<char>>, height: int)
    requires
        g.wf(),
    ensures
        g.load_transactions(txids, height).load_transactions(txids, height)
            == g.load_transactions(txids, height),
{
    let once = g.load_transactions(txids, height);
    law_load_transactions_wf(g, txids, height);
    assert forall|i: int| 0 <= i < txids.len() implies once.transaction(#[trigger] txids[i])
        == Some(TransactionView { txid: txids[i], height }) by {
        law_transaction_after_load(g, txids, height, txids[i]);
    }
    law_load_transactions_again(once, txids, height);
}

/// The order of linker and predecessor decides the edge. Where the block at
/// `height` stands and its predecessor does not, a linker that runs before
/// the predecessor is upserted leaves no edge, and one that runs after it
/// leaves the edge.
pub proof fn law_linker_before_predecessor(g: Graph, height: int, predecessor: BlockView)
    requires
        g.wf(),
        g.has_block_at(height),
        !g.has_block_at(height - 1),
        predecessor.height == height - 1,
    ensures
        !g.link(height).upsert_block(predecessor).has_link(height, height - 1),
        g.upsert_block(predecessor).link(height).has_link(height, height - 1),
{
    let edge = LinkView { from: height, to: height - 1 };
    if g.links.contains(edge) {
        let i = choose|i: int| 0 <= i < g.links.len() && g.links[i] == edge;
        assert(g.has_block_at(g.links[i].to));
    }
    let later = g.upsert_block(predecessor);
    law_lookup_after_upsert(g, predecessor);
    assert(later.has_block_at(height - 1));
    lemma_has_block_at_grows(g, predecessor, height);
    assert(later.has_block_at(height));
    assert(later.links == g.links);
    let linked = later.link(height);
    assert(linked.links == later.links.push(edge));
    assert(linked.links[later.links.len() as int] == edge);
}

} // verus!
