//! A fixed-size block pool with a free list threaded through block indices:
//! every allocation and release takes constant time, so its timing is
//! deterministic.
use vstd::prelude::*;

verus! {

/// Size of the memory pool in bytes.
pub const POOL_SIZE: usize = 1048576;

/// Size of one block in bytes; no larger request can be served.
pub const BLOCK_SIZE: usize = 64;

/// Number of blocks in the pool.
pub const MAX_BLOCKS: usize = 16384;

/// Marks the end of the free list.
pub const NO_BLOCK: usize = usize::MAX;

/// The free list of a block pool: `next[i]` is the block handed out after
/// block `i`, and `head` is the first free block (`NO_BLOCK` when none is).
pub struct BlockPool {
    next: Vec<usize>,
    head: usize,
    chain: Ghost<Seq<usize>>,
}

impl View for BlockPool {
    /// The free blocks, in the order in which they will be handed out.
    type V = Seq<usize>;

    closed spec fn view(&self) -> Seq<usize> {
        self.chain@
    }
}

/// The free blocks of a new pool: every block, in increasing order.
pub open spec fn fresh_free_list() -> Seq<usize> {
    Seq::new(MAX_BLOCKS as nat, |i: int| i as usize)
}

/// The byte offset in the pool of address `addr`, for a pool whose memory
/// starts at address `base`: `Some(addr - base)` exactly when the address lies
/// inside the pool's `POOL_SIZE` bytes, `None` otherwise.
pub fn offset_in_pool(addr: usize, base: usize) -> (r: Option<usize>)
    ensures
        r == (if base <= addr && addr - base < POOL_SIZE {
            Some((addr - base) as usize)
        } else {
            None::<usize>
        }),
{
    if base <= addr && addr - base < POOL_SIZE {
        Some(addr - base)
    } else {
        None
    }
}

/// The successor of the `i`th free block in the chain `chain`.
pub open spec fn successor(chain: Seq<usize>, i: int) -> usize {
    if i + 1 < chain.len() {
        chain[i + 1]
    } else {
        NO_BLOCK
    }
}

impl BlockPool {
    /// The free blocks are distinct blocks of the pool.
    pub proof fn lemma_free_blocks_valid(&self)
        requires
            self.wf(),
        ensures
            self@.no_duplicates(),
            forall|i: int| 0 <= i < self@.len() ==> #[trigger] self@[i] < MAX_BLOCKS,
    {
    }

    /// The free list is a chain of distinct valid blocks, starting at `head`
    /// and linked through `next`.
    pub closed spec fn wf(&self) -> bool {
        &&& self.next@.len() == MAX_BLOCKS
        &&& self.chain@.no_duplicates()
        &&& forall|i: int| 0 <= i < self.chain@.len() ==> #[trigger] self.chain@[i] < MAX_BLOCKS
        &&& self.head == (if self.chain@.len() == 0 {
            NO_BLOCK
        } else {
            self.chain@[0]
        })
        &&& forall|i: int|
            0 <= i < self.chain@.len() ==> self.next@[#[trigger] self.chain@[i] as int] == successor(
                self.chain@,
                i,
            )
    }

    /// A pool in which every block is free, handed out in increasing order.
    pub fn new() -> (p: Self)
        ensures
            p.wf(),
            p@ == fresh_free_list(),
    {
        let mut next: Vec<usize> = Vec::new();
        let mut i: usize = 0;
        while i < MAX_BLOCKS - 1
            invariant
                i <= MAX_BLOCKS - 1,
                next@.len() == i,
                forall|k: int| 0 <= k < i ==> next@[k] == k + 1,
            decreases MAX_BLOCKS - 1 - i,
        {
            next.push(i + 1);
            i = i + 1;
        }
        next.push(NO_BLOCK);
        let ghost chain = Seq::new(MAX_BLOCKS as nat, |i: int| i as usize);
        let p = BlockPool { next, head: 0, chain: Ghost(chain) };
        proof {
            assert(chain.no_duplicates());
            assert forall|i: int| 0 <= i < chain.len() implies p.next@[#[trigger] chain[i] as int]
                == successor(chain, i) by {
                if i + 1 < chain.len() {
                    assert(p.next@[i] == i + 1);
                }
            }
        }
        p
    }

    /// Takes the first free block for a request of `size` bytes, returning the
    /// block's byte offset in the pool; `None` when the request is larger than
    /// a block or no block is free, the pool then unchanged. Blocks sit at
    /// multiples of `BLOCK_SIZE`; no other alignment is offered, so
    /// `_alignment` is not consulted.
    pub fn aligned_alloc(&mut self, _alignment: usize, size: usize) -> (r: Option<usize>)
        requires
            old(self).wf(),
        ensures
            final(self).wf(),
            match r {
                Some(off) => {
                    &&& size <= BLOCK_SIZE
                    &&& old(self)@.len() > 0
                    &&& off == old(self)@[0] * BLOCK_SIZE
                    &&& off < POOL_SIZE
                    &&& final(self)@ == old(self)@.drop_first()
                    &&& !final(self)@.contains((off / BLOCK_SIZE) as usize)
                },
                None => {
                    &&& size > BLOCK_SIZE || old(self)@.len() == 0
                    &&& final(self)@ == old(self)@
                },
            },
    {
        if size > BLOCK_SIZE {
            return None;
        }
        let head = self.head;
        if head == NO_BLOCK {
            proof {
                if self.chain@.len() > 0 {
                    assert(self.chain@[0] < MAX_BLOCKS);
                }
            }
            return None;
        }
        proof {
            assert(self.chain@[0] < MAX_BLOCKS);
        }
        let ghost old_chain = self.chain@;
        let next = self.next[head];
        self.head = next;
        self.chain = Ghost(old_chain.drop_first());
        proof {
            let c = self.chain@;
            assert(c.no_duplicates());
            assert forall|i: int| 0 <= i < c.len() implies self.next@[#[trigger] c[i] as int]
                == successor(c, i) by {
                assert(c[i] == old_chain[i + 1]);
            }
            assert(self.next@[old_chain[0] as int] == successor(old_chain, 0));
            assert((head * BLOCK_SIZE) as usize / BLOCK_SIZE == head);
            if c.contains(head) {
                let j = choose|j: int| 0 <= j < c.len() && c[j] == head;
                assert(old_chain[j + 1] == old_chain[0]);
            }
        }
        Some(head * BLOCK_SIZE)
    }

    /// Returns the block at byte offset `offset` to the pool; it becomes the
    /// first block handed out.
    pub fn aligned_free(&mut self, offset: usize)
        requires
            old(self).wf(),
            offset < POOL_SIZE,
            !old(self)@.contains((offset / BLOCK_SIZE) as usize),
        ensures
            final(self).wf(),
            final(self)@ == seq![(offset / BLOCK_SIZE) as usize] + old(self)@,
    {
        let index = offset / BLOCK_SIZE;
        let ghost old_chain = self.chain@;
        let head = self.head;
        self.next.set(index, head);
        self.head = index;
        self.chain = Ghost(seq![index] + old_chain);
        proof {
            let c = self.chain@;
            assert forall|i: int, j: int| 0 <= i < c.len() && 0 <= j < c.len() && i != j implies c[i]
                != c[j] by {
                if i == 0 && j > 0 {
                    assert(c[j] == old_chain[j - 1]);
                } else if j == 0 && i > 0 {
                    assert(c[i] == old_chain[i - 1]);
                }
            }
            assert forall|i: int| 0 <= i < c.len() implies #[trigger] c[i] < MAX_BLOCKS by {
                if i > 0 {
                    assert(c[i] == old_chain[i - 1]);
                }
            }
            assert forall|i: int| 0 <= i < c.len() implies self.next@[#[trigger] c[i] as int]
                == successor(c, i) by {
                if i > 0 {
                    assert(c[i] == old_chain[i - 1]);
                    assert(old_chain[i - 1] != index);
                    assert(self.next@[c[i] as int] == old(self).next@[old_chain[i - 1] as int]);
                } else if old_chain.len() > 0 {
                    assert(c[1] == old_chain[0]);
                }
            }
        }
    }

    /// Whether the block at byte offset `offset` is free.
    pub fn is_free(&self, offset: usize) -> (r: bool)
        requires
            self.wf(),
        ensures
            r == self@.contains((offset / BLOCK_SIZE) as usize),
    {
        let index = offset / BLOCK_SIZE;
        let ghost c = self@;
        let mut cur = self.head;
        let ghost mut k: int = 0;
        while cur != NO_BLOCK && cur != index
            invariant
                index != NO_BLOCK,
                self.next@.len() == MAX_BLOCKS,
                forall|i: int| 0 <= i < c.len() ==> #[trigger] c[i] < MAX_BLOCKS,
                forall|i: int|
                    0 <= i < c.len() ==> self.next@[#[trigger] c[i] as int] == successor(c, i),
                0 <= k <= c.len(),
                cur == (if k < c.len() {
                    c[k]
                } else {
                    NO_BLOCK
                }),
                forall|j: int| 0 <= j < k ==> c[j] != index,
            decreases c.len() - k,
        {
            proof {
                assert(c[k] < MAX_BLOCKS);
                assert(self.next@[c[k] as int] == successor(c, k));
            }
            cur = self.next[cur];
            proof {
                k = k + 1;
            }
        }
        proof {
            if cur == index {
                assert(c[k] == index);
            } else if c.contains(index) {
                let j = choose|j: int| 0 <= j < c.len() && c[j] == index;
                assert(c[j] == index);
            }
        }
        cur == index
    }
}

/// Releasing the block that an allocation just handed out gives back the pool
/// as it was before the allocation.
pub proof fn lemma_release_undoes_alloc(free: Seq<usize>)
    requires
        free.len() > 0,
        free[0] < MAX_BLOCKS,
    ensures
        seq![((free[0] * BLOCK_SIZE) / BLOCK_SIZE as int) as usize] + free.drop_first() == free,
{
    assert(seq![((free[0] * BLOCK_SIZE) / BLOCK_SIZE as int) as usize] + free.drop_first() =~= free);
}

/// From a new pool, `k` allocations of at most `BLOCK_SIZE` bytes with no
/// release in between hand out blocks `0, 1, ..., k - 1` in turn: the `i`th
/// (from 0) finds the free list `fresh_free_list().skip(i)` and gets byte
/// offset `i * BLOCK_SIZE`. For `k <= MAX_BLOCKS` the blocks handed out are
/// pairwise disjoint ranges of `BLOCK_SIZE` bytes inside the pool; after
/// `MAX_BLOCKS` allocations the free list is empty, so every further request
/// is refused until a block is released.
pub proof fn lemma_fresh_pool_allocations(k: nat)
    requires
        k <= MAX_BLOCKS,
    ensures
        fresh_free_list().skip(k as int) =~= Seq::new(
            (MAX_BLOCKS - k) as nat,
            |i: int| (k + i) as usize,
        ),
        forall|i: int|
            0 <= i < k ==> fresh_free_list().skip(i).len() > 0 && fresh_free_list().skip(i).drop_first()
                == fresh_free_list().skip(i + 1) && #[trigger] fresh_free_list().skip(i)[0] * BLOCK_SIZE
                == i * BLOCK_SIZE && i * BLOCK_SIZE + BLOCK_SIZE <= POOL_SIZE,
        forall|i: int, j: int|
            0 <= i < j < k ==> #[trigger] fresh_free_list().skip(i)[0] * BLOCK_SIZE + BLOCK_SIZE
                <= #[trigger] fresh_free_list().skip(j)[0] * BLOCK_SIZE,
        k == MAX_BLOCKS ==> fresh_free_list().skip(k as int).len() == 0,
{
    assert forall|i: int|
        0 <= i < k implies fresh_free_list().skip(i).len() > 0 && fresh_free_list().skip(i).drop_first()
        == fresh_free_list().skip(i + 1) && #[trigger] fresh_free_list().skip(i)[0] * BLOCK_SIZE == i
        * BLOCK_SIZE && i * BLOCK_SIZE + BLOCK_SIZE <= POOL_SIZE by {
        assert(fresh_free_list().skip(i).drop_first() =~= fresh_free_list().skip(i + 1));
    }
}

} // verus!
