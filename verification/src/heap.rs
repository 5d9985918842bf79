//! Kernel heap: a single-list first-fit allocator with split and forward
//! coalesce over a fixed 8 MiB arena. The in-band block headers of the
//! running kernel are modelled as an address-ordered list of block records;
//! `HEADER_SIZE` is the byte size of one header (size word, forward link,
//! free flag) on the 32-bit target, so every address computed here is the
//! address the kernel would compute.

use vstd::prelude::*;

verus! {

pub const KERNEL_HEAP_START: usize = 0x0080_0000;
pub const KERNEL_HEAP_SIZE: usize = 0x0080_0000;
pub const HEADER_SIZE: usize = 12;

/// One heap block: the address of its header, its payload size in bytes,
/// and whether it is free. The payload starts `HEADER_SIZE` past `addr`.
#[derive(Clone, Copy, PartialEq, Eq, Structural, Debug)]
pub struct HeapBlock {
    pub addr: usize,
    pub size: usize,
    pub free: bool,
}

/// Requests are rounded up to a multiple of 16 bytes.
pub open spec fn spec_align16(s: int) -> int {
    ((s + 15) / 16) * 16
}

/// The blocks tile the arena: the first header sits at the arena base,
/// each next header starts right after the previous payload, and the last
/// payload ends exactly at the arena end.
pub open spec fn wf_blocks(blocks: Seq<HeapBlock>) -> bool {
    &&& blocks.len() >= 1
    &&& blocks[0].addr == KERNEL_HEAP_START
    &&& forall|i: int| 0 <= i < blocks.len() - 1 ==> blocks[i + 1].addr == blocks[i].addr
        + HEADER_SIZE + blocks[i].size
    &&& blocks.last().addr + HEADER_SIZE + blocks.last().size == KERNEL_HEAP_START
        + KERNEL_HEAP_SIZE
}

/// Block `b` can satisfy an aligned request of `s` bytes.
pub open spec fn spec_fits(b: HeapBlock, s: int) -> bool {
    b.free && b.size >= s
}

/// No block can satisfy an aligned request of `s` bytes.
pub open spec fn spec_no_fit(blocks: Seq<HeapBlock>, s: int) -> bool {
    forall|j: int| 0 <= j < blocks.len() ==> !spec_fits(blocks[j], s)
}

/// Block `i` is the first that can satisfy an aligned request of `s` bytes.
pub open spec fn spec_is_first_fit(blocks: Seq<HeapBlock>, s: int, i: int) -> bool {
    &&& 0 <= i < blocks.len()
    &&& spec_fits(blocks[i], s)
    &&& forall|j: int| 0 <= j < i ==> !spec_fits(blocks[j], s)
}

/// The chosen block is split when it can hold the payload, a fresh header,
/// and at least 16 bytes of residual payload.
pub open spec fn spec_split_needed(b: HeapBlock, s: int) -> bool {
    b.size >= s + HEADER_SIZE + 16
}

/// The block list after serving an aligned request of `s` bytes from block
/// `i`: the block is shrunk to `s` and a free remainder block is inserted
/// after it if a split pays off, and it is marked in use either way.
pub open spec fn spec_alloc_result(blocks: Seq<HeapBlock>, s: int, i: int) -> Seq<HeapBlock> {
    let b = blocks[i];
    if spec_split_needed(b, s) {
        blocks.update(
            i,
            HeapBlock { addr: b.addr, size: s as usize, free: false },
        ).insert(
            i + 1,
            HeapBlock {
                addr: (b.addr + HEADER_SIZE + s) as usize,
                size: (b.size - s - HEADER_SIZE) as usize,
                free: true,
            },
        )
    } else {
        blocks.update(i, HeapBlock { addr: b.addr, size: b.size, free: false })
    }
}

/// What `kmalloc(size)` does: nothing for a zero or over-large request,
/// nothing when no free block fits the rounded size, and otherwise the
/// first fitting block serves the request and its payload address is
/// returned.
pub open spec fn spec_kmalloc_step(
    pre: Seq<HeapBlock>,
    size: usize,
    post: Seq<HeapBlock>,
    r: Option<usize>,
) -> bool {
    if size == 0 || size > KERNEL_HEAP_SIZE {
        post == pre && r is None
    } else {
        let s = spec_align16(size as int);
        &&& (spec_no_fit(pre, s) ==> post == pre && r is None)
        &&& (forall|i: int| spec_is_first_fit(pre, s, i) ==> post == spec_alloc_result(pre, s, i)
            && r == Some((pre[i].addr + HEADER_SIZE) as usize))
    }
}

/// The index of the first fitting block, or `None` when no block fits.
pub open spec fn spec_first_fit_index(blocks: Seq<HeapBlock>, s: int) -> Option<int> {
    if exists|i: int| spec_is_first_fit(blocks, s, i) {
        Some(choose|i: int| spec_is_first_fit(blocks, s, i))
    } else {
        None
    }
}

/// The block list `kmalloc(size)` leaves behind, as a function.
pub open spec fn spec_kmalloc_blocks(pre: Seq<HeapBlock>, size: usize) -> Seq<HeapBlock> {
    if size == 0 || size > KERNEL_HEAP_SIZE {
        pre
    } else {
        match spec_first_fit_index(pre, spec_align16(size as int)) {
            Some(i) => spec_alloc_result(pre, spec_align16(size as int), i),
            None => pre,
        }
    }
}

/// The payload address `kmalloc(size)` returns, as a function.
pub open spec fn spec_kmalloc_ret(pre: Seq<HeapBlock>, size: usize) -> Option<usize> {
    if size == 0 || size > KERNEL_HEAP_SIZE {
        None
    } else {
        match spec_first_fit_index(pre, spec_align16(size as int)) {
            Some(i) => Some((pre[i].addr + HEADER_SIZE) as usize),
            None => None,
        }
    }
}

/// The block list after freeing block `i`: it is marked free, and if its
/// forward neighbour is free too the neighbour is merged into it.
pub open spec fn spec_kfree_result(blocks: Seq<HeapBlock>, i: int) -> Seq<HeapBlock> {
    let b = blocks[i];
    if i + 1 < blocks.len() && blocks[i + 1].free {
        blocks.update(
            i,
            HeapBlock {
                addr: b.addr,
                size: (b.size + HEADER_SIZE + blocks[i + 1].size) as usize,
                free: true,
            },
        ).remove(i + 1)
    } else {
        blocks.update(i, HeapBlock { addr: b.addr, size: b.size, free: true })
    }
}

/// What `kfree(ptr)` does: nothing for a null or unknown pointer, and for
/// the payload address of a block that block is freed and coalesced with a
/// free forward neighbour.
pub open spec fn spec_kfree_step(pre: Seq<HeapBlock>, ptr: usize, post: Seq<HeapBlock>) -> bool {
    &&& (ptr == 0 ==> post == pre)
    &&& ((forall|i: int| 0 <= i < pre.len() ==> pre[i].addr + HEADER_SIZE != ptr) ==> post == pre)
    &&& (forall|i: int| 0 <= i < pre.len() && pre[i].addr + HEADER_SIZE == ptr && ptr != 0
        ==> post == spec_kfree_result(pre, i))
}

/// The fresh heap: one free block covering the whole arena.
pub open spec fn spec_init_blocks() -> Seq<HeapBlock> {
    seq![
        HeapBlock {
            addr: KERNEL_HEAP_START,
            size: (KERNEL_HEAP_SIZE - HEADER_SIZE) as usize,
            free: true,
        },
    ]
}

/// The heap handle: the block list, lowest address first.
pub struct Heap {
    pub blocks: Vec<HeapBlock>,
}

/// Every block lies inside the arena.
pub proof fn lemma_block_in_arena(blocks: Seq<HeapBlock>, i: int)
    requires
        wf_blocks(blocks),
        0 <= i < blocks.len(),
    ensures
        KERNEL_HEAP_START <= blocks[i].addr,
        blocks[i].addr + HEADER_SIZE + blocks[i].size <= KERNEL_HEAP_START + KERNEL_HEAP_SIZE,
    decreases i, blocks.len() - i,
{
    if i > 0 {
        lemma_block_in_arena_low(blocks, i);
    }
    lemma_block_in_arena_high(blocks, i);
}

proof fn lemma_block_in_arena_low(blocks: Seq<HeapBlock>, i: int)
    requires
        wf_blocks(blocks),
        0 <= i < blocks.len(),
    ensures
        KERNEL_HEAP_START <= blocks[i].addr,
    decreases i,
{
    if i > 0 {
        lemma_block_in_arena_low(blocks, i - 1);
        assert(blocks[(i - 1) + 1].addr == blocks[i - 1].addr + HEADER_SIZE + blocks[i - 1].size);
    }
}

proof fn lemma_block_in_arena_high(blocks: Seq<HeapBlock>, i: int)
    requires
        wf_blocks(blocks),
        0 <= i < blocks.len(),
    ensures
        blocks[i].addr + HEADER_SIZE + blocks[i].size <= KERNEL_HEAP_START + KERNEL_HEAP_SIZE,
    decreases blocks.len() - i,
{
    if i + 1 < blocks.len() {
        lemma_block_in_arena_high(blocks, i + 1);
    }
}

/// Heap non-overlap: for two distinct blocks the earlier one's payload,
/// header included, ends at or before the later one's header, so the
/// payload ranges handed out by `kmalloc` are pairwise disjoint and lie
/// inside the arena.
pub proof fn lemma_heap_non_overlap(blocks: Seq<HeapBlock>, i: int, j: int)
    requires
        wf_blocks(blocks),
        0 <= i < j < blocks.len(),
    ensures
        blocks[i].addr + HEADER_SIZE + blocks[i].size <= blocks[j].addr,
        KERNEL_HEAP_START <= blocks[i].addr,
        blocks[j].addr + HEADER_SIZE + blocks[j].size <= KERNEL_HEAP_START + KERNEL_HEAP_SIZE,
    decreases j - i,
{
    lemma_block_in_arena(blocks, i);
    lemma_block_in_arena(blocks, j);
    if j > i + 1 {
        lemma_heap_non_overlap(blocks, i + 1, j);
    }
}

/// There is a first fitting block as soon as there is any fitting block.
pub proof fn lemma_first_fit_exists(blocks: Seq<HeapBlock>, s: int, j: int)
    requires
        0 <= j < blocks.len(),
        spec_fits(blocks[j], s),
    ensures
        exists|i: int| spec_is_first_fit(blocks, s, i),
    decreases j,
{
    if forall|k: int| 0 <= k < j ==> !spec_fits(blocks[k], s) {
        assert(spec_is_first_fit(blocks, s, j));
    } else {
        let k = choose|k: int| 0 <= k < j && spec_fits(blocks[k], s);
        lemma_first_fit_exists(blocks, s, k);
    }
}

impl Heap {
    pub open spec fn wf(self) -> bool {
        wf_blocks(self.blocks@)
    }

    /// The index of the first free block whose size is at least `s`.
    fn first_fit(&self, s: usize) -> (r: Option<usize>)
        ensures
            match r {
                Some(i) => spec_is_first_fit(self.blocks@, s as int, i as int),
                None => spec_no_fit(self.blocks@, s as int),
            },
    {
        let n = self.blocks.len();
        let mut cur: usize = 0;
        while cur < n
            invariant
                n == self.blocks@.len(),
                cur <= n,
                forall|j: int| 0 <= j < cur ==> !spec_fits(self.blocks@[j], s as int),
            decreases n - cur,
        {
            let b = self.blocks[cur];
            if b.free && b.size >= s {
                return Some(cur);
            }
            cur = cur + 1;
        }
        None
    }

    /// Serve a request of `size` bytes first-fit: the rounded request is
    /// taken from the first free block large enough, splitting it when the
    /// remainder can stand alone, and the payload address is returned.
    pub fn kmalloc(&mut self, size: usize) -> (r: Option<usize>)
        requires
            old(self).wf(),
        ensures
            final(self).wf(),
            spec_kmalloc_step(old(self).blocks@, size, final(self).blocks@, r),
            final(self).blocks@ == spec_kmalloc_blocks(old(self).blocks@, size),
            r == spec_kmalloc_ret(old(self).blocks@, size),
    {
        if size == 0 || size > KERNEL_HEAP_SIZE {
            return None;
        }
        let s: usize = ((size + 15) / 16) * 16;
        proof {
            assert(s == spec_align16(size as int));
            assert(size <= s < size + 16);
        }
        let ghost pre = self.blocks@;
        let i = match self.first_fit(s) {
            Some(i) => i,
            None => {
                return None;
            },
        };
        proof {
            assert(spec_is_first_fit(pre, s as int, i as int));
            assert forall|k: int| spec_is_first_fit(pre, s as int, k) implies k == i as int by {
                if k < i as int {
                    assert(!spec_fits(pre[k], s as int));
                }
                if k > i as int {
                    assert(!spec_fits(pre[i as int], s as int));
                }
            }
            lemma_block_in_arena(pre, i as int);
            assert(spec_first_fit_index(pre, s as int) == Some(i as int));
        }
        let len = self.blocks.len();
        proof {
            assert(i < len);
        }
        let b = self.blocks[i];
        if b.size >= s + HEADER_SIZE + 16 {
            let remainder = HeapBlock {
                addr: b.addr + HEADER_SIZE + s,
                size: b.size - s - HEADER_SIZE,
                free: true,
            };
            self.blocks[i] = HeapBlock { addr: b.addr, size: s, free: false };
            self.blocks.insert(i + 1, remainder);
            proof {
                assert(self.blocks@ =~= spec_alloc_result(pre, s as int, i as int));
                lemma_alloc_result_wf(pre, s as int, i as int);
            }
        } else {
            self.blocks[i] = HeapBlock { addr: b.addr, size: b.size, free: false };
            proof {
                assert(self.blocks@ =~= spec_alloc_result(pre, s as int, i as int));
                lemma_alloc_result_wf(pre, s as int, i as int);
            }
        }
        Some(b.addr + HEADER_SIZE)
    }

    /// Free the block whose payload starts at `ptr`, merging in a free
    /// forward neighbour; a null or unknown pointer changes nothing.
    pub fn kfree(&mut self, ptr: usize)
        requires
            old(self).wf(),
        ensures
            final(self).wf(),
            spec_kfree_step(old(self).blocks@, ptr, final(self).blocks@),
    {
        let ghost pre = self.blocks@;
        if ptr == 0 {
            proof {
                assert forall|i: int| 0 <= i < pre.len() implies pre[i].addr + HEADER_SIZE
                    != 0 by {
                    lemma_block_in_arena(pre, i);
                }
            }
            return;
        }
        let cur = match self.find_block(ptr) {
            Some(i) => i,
            None => {
                return;
            },
        };
        let n = self.blocks.len();
        proof {
            lemma_block_in_arena(pre, cur as int);
            if cur as int + 1 < pre.len() {
                lemma_block_in_arena(pre, cur as int + 1);
            }
        }
        let b = self.blocks[cur];
        if cur + 1 < n && self.blocks[cur + 1].free {
            let nb = self.blocks[cur + 1];
            self.blocks[cur] = HeapBlock {
                addr: b.addr,
                size: b.size + HEADER_SIZE + nb.size,
                free: true,
            };
            self.blocks.remove(cur + 1);
        } else {
            self.blocks[cur] = HeapBlock { addr: b.addr, size: b.size, free: true };
        }
        proof {
            assert(self.blocks@ =~= spec_kfree_result(pre, cur as int));
            lemma_kfree_result_wf(pre, cur as int);
            assert forall|i: int|
                0 <= i < pre.len() && pre[i].addr + HEADER_SIZE == ptr implies i == cur as int by {
                if i != cur as int {
                    if i < cur as int {
                        lemma_heap_non_overlap(pre, i, cur as int);
                    } else {
                        lemma_heap_non_overlap(pre, cur as int, i);
                    }
                }
            }
        }
    }

    /// The index of the block whose payload starts at `ptr`, if any.
    fn find_block(&self, ptr: usize) -> (r: Option<usize>)
        ensures
            match r {
                Some(i) => 0 <= i < self.blocks@.len() && self.blocks@[i as int].addr + HEADER_SIZE
                    == ptr,
                None => forall|j: int|
                    0 <= j < self.blocks@.len() ==> self.blocks@[j].addr + HEADER_SIZE != ptr,
            },
    {
        let n = self.blocks.len();
        let mut cur: usize = 0;
        while cur < n
            invariant
                n == self.blocks@.len(),
                cur <= n,
                forall|j: int| 0 <= j < cur ==> self.blocks@[j].addr + HEADER_SIZE != ptr,
            decreases n - cur,
        {
            let b = self.blocks[cur];
            if b.addr <= usize::MAX - HEADER_SIZE && b.addr + HEADER_SIZE == ptr {
                return Some(cur);
            }
            cur = cur + 1;
        }
        None
    }
}

/// Serving a request keeps the block list a tiling of the arena.
proof fn lemma_alloc_result_wf(blocks: Seq<HeapBlock>, s: int, i: int)
    requires
        wf_blocks(blocks),
        spec_is_first_fit(blocks, s, i),
        s >= 0,
    ensures
        wf_blocks(spec_alloc_result(blocks, s, i)),
{
    lemma_block_in_arena(blocks, i);
    let post = spec_alloc_result(blocks, s, i);
    if spec_split_needed(blocks[i], s) {
        assert forall|k: int| 0 <= k < post.len() - 1 implies post[k + 1].addr == post[k].addr
            + HEADER_SIZE + post[k].size by {
            if k + 1 < i {
            } else if k + 1 == i {
            } else if k == i {
            } else if k == i + 1 {
            } else {
            }
        }
        assert(post.last().addr + HEADER_SIZE + post.last().size == KERNEL_HEAP_START
            + KERNEL_HEAP_SIZE);
    } else {
        assert forall|k: int| 0 <= k < post.len() - 1 implies post[k + 1].addr == post[k].addr
            + HEADER_SIZE + post[k].size by {}
    }
}

/// Freeing a block keeps the block list a tiling of the arena.
proof fn lemma_kfree_result_wf(blocks: Seq<HeapBlock>, i: int)
    requires
        wf_blocks(blocks),
        0 <= i < blocks.len(),
    ensures
        wf_blocks(spec_kfree_result(blocks, i)),
{
    lemma_block_in_arena(blocks, i);
    let post = spec_kfree_result(blocks, i);
    if i + 1 < blocks.len() && blocks[i + 1].free {
        assert forall|k: int| 0 <= k < post.len() - 1 implies post[k + 1].addr == post[k].addr
            + HEADER_SIZE + post[k].size by {
            if k < i {
            } else if k == i {
            } else {
            }
        }
        assert(post.last() == if i + 1 == blocks.len() - 1 {
            post[i]
        } else {
            blocks.last()
        });
        assert(post.last().addr + HEADER_SIZE + post.last().size == KERNEL_HEAP_START
            + KERNEL_HEAP_SIZE);
    } else {
        assert forall|k: int| 0 <= k < post.len() - 1 implies post[k + 1].addr == post[k].addr
            + HEADER_SIZE + post[k].size by {}
    }
}

/// Heap ordering: two allocations from the fresh heap with no free in
/// between return strictly ascending payload addresses. `h1`/`h2` are the
/// block lists after the first and second call, relating to the previous
/// state exactly as `kmalloc`'s contract states; the first request must
/// leave a remainder worth splitting off and the second must fit in it.
pub proof fn lemma_heap_ordering(
    a: usize,
    b: usize,
    h1: Seq<HeapBlock>,
    p1: usize,
    h2: Seq<HeapBlock>,
    p2: usize,
)
    requires
        0 < a <= KERNEL_HEAP_SIZE,
        0 < b <= KERNEL_HEAP_SIZE,
        spec_align16(a as int) + HEADER_SIZE + 16 <= KERNEL_HEAP_SIZE - HEADER_SIZE,
        spec_align16(b as int) <= KERNEL_HEAP_SIZE - 2 * HEADER_SIZE - spec_align16(a as int),
        spec_kmalloc_step(spec_init_blocks(), a, h1, Some(p1)),
        spec_kmalloc_step(h1, b, h2, Some(p2)),
    ensures
        p1 < p2,
{
    let h0 = spec_init_blocks();
    let s1 = spec_align16(a as int);
    let s2 = spec_align16(b as int);
    lemma_align16_at_least(a as int);
    lemma_align16_at_least(b as int);
    assert(spec_is_first_fit(h0, s1, 0));
    assert(h1 == spec_alloc_result(h0, s1, 0));
    assert(spec_split_needed(h0[0], s1));
    let shrunk = HeapBlock { addr: KERNEL_HEAP_START, size: s1 as usize, free: false };
    let rest = HeapBlock {
        addr: (KERNEL_HEAP_START + HEADER_SIZE + s1) as usize,
        size: (KERNEL_HEAP_SIZE - 2 * HEADER_SIZE - s1) as usize,
        free: true,
    };
    assert(h1 =~= seq![shrunk, rest]);
    assert(p1 == KERNEL_HEAP_START + HEADER_SIZE);
    assert(spec_is_first_fit(h1, s2, 1));
    assert(p2 == rest.addr + HEADER_SIZE);
}

/// The rounded request is at least the request.
pub proof fn lemma_align16_at_least(s: int)
    requires
        s >= 0,
    ensures
        s <= spec_align16(s) < s + 16,
{
    assert(16 * ((s + 15) / 16) == (s + 15) - ((s + 15) % 16));
}

/// Heap coalesce: allocate three blocks from the fresh heap, free them in
/// the order second, first, third, and a request whose rounded size fits
/// the merged span of the first two blocks and the header between them is
/// served at the first block's payload address again. The intermediate
/// lists relate step for step as the contracts of `kmalloc` and `kfree`
/// state; each of the three allocations must leave a remainder worth
/// splitting off.
pub proof fn lemma_heap_coalesce(
    a: usize,
    b: usize,
    c: usize,
    d: usize,
    h1: Seq<HeapBlock>,
    p1: usize,
    h2: Seq<HeapBlock>,
    p2: usize,
    h3: Seq<HeapBlock>,
    p3: usize,
    h4: Seq<HeapBlock>,
    h5: Seq<HeapBlock>,
    h6: Seq<HeapBlock>,
    h7: Seq<HeapBlock>,
    p4: usize,
)
    requires
        0 < a <= KERNEL_HEAP_SIZE,
        0 < b <= KERNEL_HEAP_SIZE,
        0 < c <= KERNEL_HEAP_SIZE,
        0 < d <= KERNEL_HEAP_SIZE,
        spec_align16(a as int) + HEADER_SIZE + 16 <= KERNEL_HEAP_SIZE - HEADER_SIZE,
        spec_align16(b as int) + HEADER_SIZE + 16 <= KERNEL_HEAP_SIZE - 2 * HEADER_SIZE
            - spec_align16(a as int),
        spec_align16(c as int) + HEADER_SIZE + 16 <= KERNEL_HEAP_SIZE - 3 * HEADER_SIZE
            - spec_align16(a as int) - spec_align16(b as int),
        spec_align16(d as int) <= spec_align16(a as int) + HEADER_SIZE + spec_align16(b as int),
        spec_kmalloc_step(spec_init_blocks(), a, h1, Some(p1)),
        spec_kmalloc_step(h1, b, h2, Some(p2)),
        spec_kmalloc_step(h2, c, h3, Some(p3)),
        spec_kfree_step(h3, p2, h4),
        spec_kfree_step(h4, p1, h5),
        spec_kfree_step(h5, p3, h6),
        spec_kmalloc_step(h6, d, h7, Some(p4)),
    ensures
        p4 == p1,
{
    let h0 = spec_init_blocks();
    let s1 = spec_align16(a as int);
    let s2 = spec_align16(b as int);
    let s3 = spec_align16(c as int);
    let s4 = spec_align16(d as int);
    lemma_align16_at_least(a as int);
    lemma_align16_at_least(b as int);
    lemma_align16_at_least(c as int);
    lemma_align16_at_least(d as int);

    let blk_a = HeapBlock { addr: KERNEL_HEAP_START, size: s1 as usize, free: false };
    let addr_b = KERNEL_HEAP_START + HEADER_SIZE + s1;
    let blk_b = HeapBlock { addr: addr_b as usize, size: s2 as usize, free: false };
    let addr_c = addr_b + HEADER_SIZE + s2;
    let blk_c = HeapBlock { addr: addr_c as usize, size: s3 as usize, free: false };
    let addr_r = addr_c + HEADER_SIZE + s3;
    let size_r = KERNEL_HEAP_SIZE - 4 * HEADER_SIZE - s1 - s2 - s3;
    let blk_r = HeapBlock { addr: addr_r as usize, size: size_r as usize, free: true };

    assert(spec_is_first_fit(h0, s1, 0));
    assert(spec_split_needed(h0[0], s1));
    assert(h1 == spec_alloc_result(h0, s1, 0));
    let rest1 = HeapBlock {
        addr: addr_b as usize,
        size: (KERNEL_HEAP_SIZE - 2 * HEADER_SIZE - s1) as usize,
        free: true,
    };
    assert(h1 =~= seq![blk_a, rest1]);
    assert(p1 == KERNEL_HEAP_START + HEADER_SIZE);

    assert(spec_is_first_fit(h1, s2, 1));
    assert(spec_split_needed(h1[1], s2));
    assert(h2 == spec_alloc_result(h1, s2, 1));
    let rest2 = HeapBlock {
        addr: addr_c as usize,
        size: (KERNEL_HEAP_SIZE - 3 * HEADER_SIZE - s1 - s2) as usize,
        free: true,
    };
    assert(h2 =~= seq![blk_a, blk_b, rest2]);
    assert(p2 == addr_b + HEADER_SIZE);

    assert(spec_is_first_fit(h2, s3, 2));
    assert(spec_split_needed(h2[2], s3));
    assert(h3 == spec_alloc_result(h2, s3, 2));
    assert(h3 =~= seq![blk_a, blk_b, blk_c, blk_r]);
    assert(p3 == addr_c + HEADER_SIZE);

    // free p2: block 1 becomes free; its neighbour (block 2) is in use.
    assert(h3[1].addr + HEADER_SIZE == p2);
    assert(h4 == spec_kfree_result(h3, 1));
    let blk_b_free = HeapBlock { addr: addr_b as usize, size: s2 as usize, free: true };
    assert(h4 =~= seq![blk_a, blk_b_free, blk_c, blk_r]);

    // free p1: block 0 becomes free and merges with the free block after it.
    assert(h4[0].addr + HEADER_SIZE == p1);
    assert(h5 == spec_kfree_result(h4, 0));
    let merged_ab = HeapBlock {
        addr: KERNEL_HEAP_START,
        size: (s1 + HEADER_SIZE + s2) as usize,
        free: true,
    };
    assert(h5 =~= seq![merged_ab, blk_c, blk_r]);

    // free p3: block 1 becomes free and merges with the trailing block.
    assert(h5[1].addr + HEADER_SIZE == p3);
    assert(h6 == spec_kfree_result(h5, 1));
    let merged_cr = HeapBlock {
        addr: addr_c as usize,
        size: (s3 + HEADER_SIZE + size_r) as usize,
        free: true,
    };
    assert(h6 =~= seq![merged_ab, merged_cr]);

    // the merged front block serves the request at the old first address.
    assert(spec_is_first_fit(h6, s4, 0));
    assert(p4 == KERNEL_HEAP_START + HEADER_SIZE);
}

/// The fresh heap: a single free block covering the whole arena.
pub fn init_heap() -> (r: Heap)
    ensures
        r.wf(),
        r.blocks@ == spec_init_blocks(),
{
    let mut blocks: Vec<HeapBlock> = Vec::new();
    blocks.push(
        HeapBlock { addr: KERNEL_HEAP_START, size: KERNEL_HEAP_SIZE - HEADER_SIZE, free: true },
    );
    proof {
        assert(blocks@ =~= spec_init_blocks());
    }
    Heap { blocks }
}

/// Round a request up to the next multiple of 16 bytes.
pub fn align16(size: usize) -> (r: usize)
    requires
        size + 15 <= usize::MAX,
    ensures
        r == spec_align16(size as int),
        size <= r < size + 16,
{
    ((size + 15) / 16) * 16
}

} // verus!
