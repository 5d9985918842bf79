//! Physical-frame allocator: a bitmap over a fixed 16 MiB pool of 4 KiB
//! frames. Bit `n` set means frame `n` is in use; allocation is a bit-scan
//! for the lowest clear bit, so a freed frame whose lower neighbours are all
//! in use is handed out again by the very next allocation.

use vstd::prelude::*;
use vstd::set_lib::lemma_len_subset;
use vstd::set_lib::lemma_set_subset_finite;
use vstd::set_lib::lemma_int_range;
use vstd::set_lib::set_int_range;

verus! {

pub const PAGE_SIZE: usize = 4096;
pub const MEMORY_SIZE: usize = 16 * 1024 * 1024;
pub const NUM_FRAMES: usize = MEMORY_SIZE / PAGE_SIZE;
pub const BITMAP_SIZE: usize = NUM_FRAMES / 32;

/// Whether bit `j` of word `w` is set.
pub open spec fn word_bit(w: u32, j: u32) -> bool {
    (w >> j) & 1 == 1
}

/// Whether frame `f` is marked in use in the bitmap.
pub open spec fn spec_frame_used(bm: Seq<u32>, f: int) -> bool {
    word_bit(bm[f / 32], (f % 32) as u32)
}

/// The set of frames marked in use: the bits set in the bitmap.
pub open spec fn spec_used_set(bm: Seq<u32>) -> Set<int> {
    Set::new(|f: int| 0 <= f < NUM_FRAMES && spec_frame_used(bm, f))
}

/// Frame `f` is the lowest free frame: free itself, every lower one in use.
pub open spec fn spec_lowest_free(bm: Seq<u32>, f: int) -> bool {
    &&& 0 <= f < NUM_FRAMES
    &&& !spec_frame_used(bm, f)
    &&& forall|g: int| 0 <= g < f ==> spec_frame_used(bm, g)
}

/// The bitmap allocator handle: the bitmap words and the running count of
/// frames in use.
pub struct FrameAllocator {
    pub bitmap: Vec<u32>,
    pub used_frames: usize,
}

proof fn lemma_used_set_finite(bm: Seq<u32>)
    ensures
        spec_used_set(bm).finite(),
        spec_used_set(bm).len() <= NUM_FRAMES,
{
    lemma_int_range(0, NUM_FRAMES as int);
    assert(spec_used_set(bm).subset_of(set_int_range(0, NUM_FRAMES as int)));
    lemma_set_subset_finite(set_int_range(0, NUM_FRAMES as int), spec_used_set(bm));
    lemma_len_subset(spec_used_set(bm), set_int_range(0, NUM_FRAMES as int));
}

impl FrameAllocator {
    pub open spec fn wf(self) -> bool {
        self.bitmap@.len() == BITMAP_SIZE
    }

    /// The count of frames in use matches the bits set in the bitmap. Every
    /// operation below preserves this as long as only allocated frames are
    /// freed; freeing a frame that is not in use breaks the count, which is
    /// why `free_frame` saturates rather than underflows.
    pub open spec fn counts(self) -> bool {
        self.used_frames == spec_used_set(self.bitmap@).len()
    }

    /// Mark frame `frame` in use: set its bit, leave every other bit alone.
    fn set_frame(&mut self, frame: usize)
        requires
            old(self).wf(),
            frame < NUM_FRAMES,
        ensures
            final(self).wf(),
            final(self).used_frames == old(self).used_frames,
            forall|g: int| 0 <= g < NUM_FRAMES ==> spec_frame_used(final(self).bitmap@, g)
                == (spec_frame_used(old(self).bitmap@, g) || g == frame),
    {
        let bit: u32 = (frame % 32) as u32;
        let idx: usize = frame / 32;
        let w = self.bitmap[idx];
        self.bitmap[idx] = w | (1u32 << bit);
        proof {
            assert forall|g: int| 0 <= g < NUM_FRAMES implies spec_frame_used(
                self.bitmap@,
                g,
            ) == (spec_frame_used(old(self).bitmap@, g) || g == frame) by {
                let gw = g / 32;
                let gb = (g % 32) as u32;
                if gw == idx {
                    let j = bit;
                    assert(((w | (1u32 << j)) >> gb) & 1 == 1 <==> ((w >> gb) & 1 == 1 || gb
                        == j)) by (bit_vector)
                        requires j < 32 && gb < 32;
                    assert(g == frame <==> (gw == idx && gb == bit));
                } else {
                    assert(self.bitmap@[gw] == old(self).bitmap@[gw]);
                }
            }
        }
    }

    /// Mark frame `frame` free: clear its bit, leave every other bit alone.
    fn clear_frame(&mut self, frame: usize)
        requires
            old(self).wf(),
            frame < NUM_FRAMES,
        ensures
            final(self).wf(),
            final(self).used_frames == old(self).used_frames,
            forall|g: int| 0 <= g < NUM_FRAMES ==> spec_frame_used(final(self).bitmap@, g)
                == (spec_frame_used(old(self).bitmap@, g) && g != frame),
    {
        let bit: u32 = (frame % 32) as u32;
        let idx: usize = frame / 32;
        let w = self.bitmap[idx];
        self.bitmap[idx] = w & !(1u32 << bit);
        proof {
            assert forall|g: int| 0 <= g < NUM_FRAMES implies spec_frame_used(
                self.bitmap@,
                g,
            ) == (spec_frame_used(old(self).bitmap@, g) && g != frame) by {
                let gw = g / 32;
                let gb = (g % 32) as u32;
                if gw == idx {
                    let j = bit;
                    assert(((w & !(1u32 << j)) >> gb) & 1 == 1 <==> ((w >> gb) & 1 == 1 && gb
                        != j)) by (bit_vector)
                        requires j < 32 && gb < 32;
                    assert(g == frame <==> (gw == idx && gb == bit));
                } else {
                    assert(self.bitmap@[gw] == old(self).bitmap@[gw]);
                }
            }
        }
    }

    /// The lowest free frame, or `None` when every frame is in use.
    fn first_free(&self) -> (r: Option<usize>)
        requires
            self.wf(),
        ensures
            match r {
                Some(f) => spec_lowest_free(self.bitmap@, f as int),
                None => forall|g: int|
                    0 <= g < NUM_FRAMES ==> spec_frame_used(self.bitmap@, g),
            },
    {
        let mut i: usize = 0;
        while i < BITMAP_SIZE
            invariant
                self.wf(),
                i <= BITMAP_SIZE,
                forall|g: int| 0 <= g < i * 32 ==> spec_frame_used(self.bitmap@, g),
            decreases BITMAP_SIZE - i,
        {
            let w = self.bitmap[i];
            if w != 0xFFFF_FFFF {
                let mut j: u32 = 0;
                while j < 32
                    invariant
                        self.wf(),
                        i < BITMAP_SIZE,
                        j <= 32,
                        w == self.bitmap@[i as int],
                        forall|g: int| 0 <= g < i * 32 ==> spec_frame_used(self.bitmap@, g),
                        forall|k: u32| k < j ==> word_bit(w, k),
                    decreases 32 - j,
                {
                    if (w & (1u32 << j)) == 0 {
                        let f = i * 32 + (j as usize);
                        proof {
                            assert(!((w >> j) & 1 == 1)) by (bit_vector)
                                requires j < 32 && w & (1u32 << j) == 0;
                            assert(f as int / 32 == i as int);
                            assert(f as int % 32 == j as int);
                            assert forall|g: int| 0 <= g < f implies spec_frame_used(
                                self.bitmap@,
                                g,
                            ) by {
                                if g >= i * 32 {
                                    let k = (g % 32) as u32;
                                    assert(g / 32 == i as int);
                                    assert(k < j);
                                    assert(word_bit(w, k));
                                }
                            }
                        }
                        return Some(f);
                    }
                    proof {
                        assert((w >> j) & 1 == 1) by (bit_vector)
                            requires j < 32 && w & (1u32 << j) != 0;
                    }
                    j = j + 1;
                }
                proof {
                    assert forall|g: int| i * 32 <= g < (i + 1) * 32 implies spec_frame_used(
                        self.bitmap@,
                        g,
                    ) by {
                        assert(g / 32 == i as int);
                        assert(word_bit(w, (g % 32) as u32));
                    }
                }
            } else {
                proof {
                    assert(forall|k: u32| k < 32 ==> word_bit(0xFFFF_FFFFu32, k)) by (bit_vector);
                    assert forall|g: int| i * 32 <= g < (i + 1) * 32 implies spec_frame_used(
                        self.bitmap@,
                        g,
                    ) by {
                        assert(g / 32 == i as int);
                        assert(word_bit(w, (g % 32) as u32));
                    }
                }
            }
            i = i + 1;
        }
        None
    }

    /// Allocate the lowest free frame and return its physical base address.
    /// The set of bits in the bitmap grows by exactly the returned frame,
    /// which was not in use before; with no frame free, nothing changes.
    pub fn allocate_frame(&mut self) -> (r: Option<usize>)
        requires
            old(self).wf(),
            old(self).counts(),
        ensures
            final(self).wf(),
            final(self).counts(),
            match r {
                Some(addr) => {
                    &&& addr == (addr / PAGE_SIZE) * PAGE_SIZE
                    &&& spec_lowest_free(old(self).bitmap@, addr as int / PAGE_SIZE as int)
                    &&& spec_used_set(final(self).bitmap@) == spec_used_set(
                        old(self).bitmap@,
                    ).insert(addr as int / PAGE_SIZE as int)
                    &&& !spec_used_set(old(self).bitmap@).contains(addr as int / PAGE_SIZE as int)
                    &&& final(self).used_frames == old(self).used_frames + 1
                },
                None => {
                    &&& *final(self) == *old(self)
                    &&& forall|g: int|
                        0 <= g < NUM_FRAMES ==> spec_frame_used(old(self).bitmap@, g)
                },
            },
    {
        let frame = match self.first_free() {
            Some(f) => f,
            None => {
                return None;
            },
        };
        proof {
            lemma_used_set_finite(self.bitmap@);
        }
        self.set_frame(frame);
        proof {
            assert(spec_used_set(self.bitmap@) =~= spec_used_set(old(self).bitmap@).insert(
                frame as int,
            ));
        }
        self.used_frames = self.used_frames + 1;
        Some(frame * PAGE_SIZE)
    }

    /// Free the frame holding physical address `addr`: its bit is cleared
    /// and no other changes. The in-use count saturates at zero as a
    /// defense; a caller that only frees allocated frames never hits that.
    pub fn free_frame(&mut self, addr: usize)
        requires
            old(self).wf(),
            addr < MEMORY_SIZE,
        ensures
            final(self).wf(),
            spec_used_set(final(self).bitmap@) == spec_used_set(old(self).bitmap@).remove(
                addr as int / PAGE_SIZE as int,
            ),
            forall|g: int| 0 <= g < NUM_FRAMES ==> spec_frame_used(final(self).bitmap@, g)
                == (spec_frame_used(old(self).bitmap@, g) && g != addr as int / PAGE_SIZE as int),
            final(self).used_frames == if old(self).used_frames > 0 {
                (old(self).used_frames - 1) as usize
            } else {
                0usize
            },
            old(self).counts() && spec_frame_used(old(self).bitmap@, addr as int / PAGE_SIZE as int)
                ==> final(self).counts(),
    {
        proof {
            lemma_used_set_finite(old(self).bitmap@);
            if old(self).counts() && spec_frame_used(old(self).bitmap@, addr as int / PAGE_SIZE as int) {
                vstd::set::axiom_set_contains_len(
                    spec_used_set(old(self).bitmap@),
                    addr as int / PAGE_SIZE as int,
                );
            }
        }
        self.clear_frame(addr / PAGE_SIZE);
        if self.used_frames > 0 {
            self.used_frames = self.used_frames - 1;
        }
        proof {
            assert(spec_used_set(self.bitmap@) =~= spec_used_set(old(self).bitmap@).remove(
                addr as int / PAGE_SIZE as int,
            ));
        }
    }

    /// The size in bytes of the managed physical pool.
    pub fn memory_size(&self) -> (r: usize)
        ensures
            r == MEMORY_SIZE,
    {
        MEMORY_SIZE
    }

    /// How many frames are not in use.
    pub fn free_frames(&self) -> (r: usize)
        requires
            self.counts(),
        ensures
            r == NUM_FRAMES - spec_used_set(self.bitmap@).len(),
    {
        proof {
            lemma_used_set_finite(self.bitmap@);
        }
        NUM_FRAMES - self.used_frames
    }
}

/// A fresh allocator: every bit clear, nothing in use.
pub fn initialize() -> (r: FrameAllocator)
    ensures
        r.wf(),
        r.counts(),
        r.used_frames == 0,
        forall|g: int| 0 <= g < NUM_FRAMES ==> !spec_frame_used(r.bitmap@, g),
{
    let mut bitmap: Vec<u32> = Vec::new();
    let mut i: usize = 0;
    while i < BITMAP_SIZE
        invariant
            i <= BITMAP_SIZE,
            bitmap@.len() == i,
            forall|j: int| 0 <= j < i ==> bitmap@[j] == 0u32,
        decreases BITMAP_SIZE - i,
    {
        bitmap.push(0);
        i = i + 1;
    }
    proof {
        assert(forall|k: u32| k < 32 ==> !word_bit(0u32, k)) by (bit_vector);
        assert forall|g: int| 0 <= g < NUM_FRAMES implies !spec_frame_used(bitmap@, g) by {
            assert(bitmap@[g / 32] == 0u32);
        }
        assert(spec_used_set(bitmap@) =~= Set::empty());
    }
    FrameAllocator { bitmap, used_frames: 0 }
}

/// Frame reuse: if the bitmap `post` came out of freeing frame `f` (so `f`
/// is clear in `post` and no other bit changed from `pre`) and every frame
/// below `f` was in use, then `f` is the lowest free frame of `post` — so
/// by `allocate_frame`'s contract the next allocation returns exactly
/// `f * PAGE_SIZE`.
pub proof fn lemma_frame_reuse(pre: Seq<u32>, post: Seq<u32>, f: int)
    requires
        0 <= f < NUM_FRAMES,
        forall|g: int| 0 <= g < NUM_FRAMES ==> spec_frame_used(post, g) == (spec_frame_used(
            pre,
            g,
        ) && g != f),
        forall|g: int| 0 <= g < f ==> spec_frame_used(pre, g),
    ensures
        spec_lowest_free(post, f),
{
}

} // verus!
