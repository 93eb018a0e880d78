//! The buffer pool: a fixed set of slots for one buffer type that cycle
//! between the driver, a ready queue awaiting resubmission, and the
//! application.
//!
//! Every slot is in exactly one of three conditions: owned by the driver
//! (queued), sitting in the ready queue and free to resubmit, or held by an
//! application handle (a held slot stays in the ready queue until it is
//! resubmitted after release).  The pool never selects a held slot for
//! resubmission or completion, and resubmission follows the ready queue's
//! order strictly, stopping at the first held slot.

use vstd::prelude::*;

use crate::buffer::{Buffer, BufferM, BufferSlot, MemRegion};
use crate::types::{BufferType, ContentType, Direction, Memory, BUF_FLAG_QUEUED};
use crate::utils::{invalid_data, invalid_input, Error};

verus! {

/// Whether the index `i` occurs in the ready queue `fifo`.
pub open spec fn spec_fifo_contains(fifo: Seq<u32>, i: int) -> bool {
    exists|k: int| 0 <= k < fifo.len() && fifo[k] as int == i
}

/// The ready queue holds valid, distinct indices for a pool of `n` slots.
pub open spec fn spec_fifo_seq_wf(fifo: Seq<u32>, n: int) -> bool {
    &&& forall|k: int| 0 <= k < fifo.len() ==> ((#[trigger] fifo[k]) as int) < n
    &&& forall|k1: int, k2: int| 0 <= k1 < k2 < fifo.len() ==> fifo[k1] != fifo[k2]
}

/// The stream-independent part of a pool's well-formedness: slots are
/// internally consistent, the ready queue is valid, a queued slot is
/// neither in the ready queue nor held, and a held slot always sits in the
/// ready queue.
pub open spec fn spec_core_wf(
    slots: Seq<BufferSlot>,
    fifo: Seq<u32>,
    buffer_type: BufferType,
    memory: Memory,
) -> bool {
    &&& slots.len() <= u32::MAX
    &&& memory == Memory::Mmap || memory == Memory::UserPtr
    &&& forall|i: int|
        0 <= i < slots.len() ==> (#[trigger] slots[i]).spec_wf(i, buffer_type, memory)
    &&& spec_fifo_seq_wf(fifo, slots.len() as int)
    &&& forall|i: int|
        0 <= i < slots.len() && (#[trigger] slots[i]).queued ==> !spec_fifo_contains(fifo, i)
            && !slots[i].held
    &&& forall|i: int|
        0 <= i < slots.len() && (#[trigger] slots[i]).held ==> spec_fifo_contains(fifo, i)
}

/// While the stream runs every slot is accounted for: owned by the driver
/// or sitting in the ready queue (a held slot is in the ready queue too).
pub open spec fn spec_primed(slots: Seq<BufferSlot>, fifo: Seq<u32>) -> bool {
    forall|i: int|
        0 <= i < slots.len() ==> (#[trigger] slots[i]).queued || spec_fifo_contains(fifo, i)
}

/// The contents of a concatenation of two ready queues.
pub proof fn lemma_fifo_contains_concat(a: Seq<u32>, b: Seq<u32>, j: int)
    ensures
        spec_fifo_contains(a + b, j) == (spec_fifo_contains(a, j) || spec_fifo_contains(b, j)),
{
    if spec_fifo_contains(a, j) {
        let k = choose|k: int| 0 <= k < a.len() && a[k] as int == j;
        assert((a + b)[k] as int == j);
    }
    if spec_fifo_contains(b, j) {
        let k = choose|k: int| 0 <= k < b.len() && b[k] as int == j;
        assert((a + b)[a.len() + k] as int == j);
    }
    if spec_fifo_contains(a + b, j) {
        let k = choose|k: int| 0 <= k < (a + b).len() && (a + b)[k] as int == j;
        if k < a.len() {
            assert(a[k] as int == j);
        } else {
            assert(b[k - a.len()] as int == j);
        }
    }
}

/// Appending an entry to the ready queue adds exactly that index to its
/// contents.
pub proof fn lemma_fifo_contains_push(fifo: Seq<u32>, v: u32, j: int)
    ensures
        spec_fifo_contains(fifo.push(v), j) == (spec_fifo_contains(fifo, j) || j == v as int),
{
    if spec_fifo_contains(fifo, j) {
        let k = choose|k: int| 0 <= k < fifo.len() && fifo[k] as int == j;
        assert(fifo.push(v)[k] as int == j);
    }
    if j == v as int {
        assert(fifo.push(v)[fifo.len() as int] as int == j);
    }
    if spec_fifo_contains(fifo.push(v), j) {
        let k = choose|k: int| 0 <= k < fifo.push(v).len() && fifo.push(v)[k] as int == j;
        if k < fifo.len() {
            assert(fifo[k] as int == j);
        }
    }
}

/// The priming-sweep relation: `q` is `p` after every slot that is
/// neither held nor awaiting resubmission has lost any stale driver
/// ownership and joined the ready queue in index order (what
/// `dequeue_all` performs).
pub open spec fn spec_primes_to(p: QueueData, q: QueueData) -> bool {
    &&& q.on == p.on
    &&& q.buffer_type == p.buffer_type
    &&& q.memory == p.memory
    &&& q.dir == p.dir
    &&& q.fifo@ == p.fifo@ + QueueData::spec_collected_indices(
        p.slots@,
        p.fifo@,
        p.spec_len() as int,
    )
    &&& q.slots@.len() == p.spec_len()
    &&& forall|i: int|
        0 <= i < p.spec_len() ==> q.slots@[i] == QueueData::spec_collect_one(
            #[trigger] p.slots@[i],
            spec_fifo_contains(p.fifo@, i),
        )
}

/// The submission-confirmation relation: `q` is `p` after the unheld front
/// of the ready queue left it and its ownership passed to the driver (what
/// `confirm_queued` performs).
pub open spec fn spec_confirms_to(p: QueueData, q: QueueData) -> bool {
    &&& p.fifo@.len() > 0
    &&& !p.spec_held(p.fifo@[0] as int)
    &&& q.on == p.on
    &&& q.buffer_type == p.buffer_type
    &&& q.memory == p.memory
    &&& q.dir == p.dir
    &&& q.fifo@ == p.fifo@.remove(0)
    &&& q.slots@ == p.slots@.update(
        p.fifo@[0] as int,
        BufferSlot {
            buffer: Buffer {
                flags: p.slots@[p.fifo@[0] as int].buffer.flags.spec_with(BUF_FLAG_QUEUED),
                ..p.slots@[p.fifo@[0] as int].buffer
            },
            queued: true,
            ..p.slots@[p.fifo@[0] as int]
        },
    )
}

/// The hand-out relation: `q` is `p` after the lowest-index free slot `i`
/// was handed to the application — held, and recorded at the back of the
/// ready queue (what `acquire_unused` performs when a free slot exists).
pub open spec fn spec_acquires_to(p: QueueData, q: QueueData, i: u32) -> bool {
    &&& (i as int) < p.spec_len()
    &&& p.spec_free(i as int)
    &&& (forall|j: int| 0 <= j < i ==> !p.spec_free(j))
    &&& q.on == p.on
    &&& q.buffer_type == p.buffer_type
    &&& q.memory == p.memory
    &&& q.dir == p.dir
    &&& q.fifo@ == p.fifo@.push(i)
    &&& q.slots@ == p.slots@.update(
        i as int,
        BufferSlot { held: true, ..p.slots@[i as int] },
    )
}

/// The stop relation: `q` is `p` with the stream off and every queued,
/// unheld slot moved to the ready queue in index order (what `set_off`
/// performs).
pub open spec fn spec_offs_to(p: QueueData, q: QueueData) -> bool {
    &&& !q.on
    &&& q.buffer_type == p.buffer_type
    &&& q.memory == p.memory
    &&& q.dir == p.dir
    &&& q.fifo@ == p.fifo@ + QueueData::spec_drained_indices(p.slots@, p.spec_len() as int)
    &&& q.slots@.len() == p.spec_len()
    &&& forall|i: int|
        0 <= i < p.spec_len() ==> q.slots@[i] == QueueData::spec_drain_one(#[trigger] p.slots@[i])
}

/// The state of a streaming buffer pool.
pub struct QueueData {
    /// The slots of the pool, one per driver-allocated buffer.
    pub slots: Vec<BufferSlot>,
    /// Indices of slots that have been handed to the application and not
    /// yet resubmitted to the driver, in hand-out order (front first).
    pub fifo: Vec<u32>,
    /// Whether the hardware stream is running.
    pub on: bool,
    /// Buffer type of every slot of the pool.
    pub buffer_type: BufferType,
    /// Memory strategy of every slot of the pool.
    pub memory: Memory,
    /// Direction of the pool: capture or output.
    pub dir: Direction,
}

impl QueueData {
    /// Number of slots.
    pub open spec fn spec_len(self) -> nat {
        self.slots@.len()
    }

    /// Whether the driver owns slot `i`.
    pub open spec fn spec_queued(self, i: int) -> bool {
        self.slots@[i].queued
    }

    /// Whether an application handle holds slot `i`.
    pub open spec fn spec_held(self, i: int) -> bool {
        self.slots@[i].held
    }

    /// Whether slot `i` sits in the ready queue.
    pub open spec fn spec_fifo_has(self, i: int) -> bool {
        spec_fifo_contains(self.fifo@, i)
    }

    /// Whether slot `i` is in none of the three conditions: not queued, not
    /// in the ready queue, not held.
    pub open spec fn spec_free(self, i: int) -> bool {
        !self.spec_queued(i) && !self.spec_held(i) && !self.spec_fifo_has(i)
    }

    /// The ready queue holds valid, distinct indices.
    pub open spec fn spec_fifo_wf(self) -> bool {
        spec_fifo_seq_wf(self.fifo@, self.spec_len() as int)
    }

    /// Well-formedness of the pool: slots are internally consistent, the
    /// ready queue is valid, and the three slot conditions are mutually
    /// exclusive — a queued slot is neither in the ready queue nor held,
    /// and a held slot always sits in the ready queue.  While the stream
    /// runs, every slot is either queued or in the ready queue.
    pub open spec fn spec_wf(self) -> bool {
        &&& spec_core_wf(self.slots@, self.fifo@, self.buffer_type, self.memory)
        &&& self.on ==> spec_primed(self.slots@, self.fifo@)
    }

    /// What a driver-reported descriptor list must look like for a pool
    /// with the given type and strategy: one descriptor per slot, indexed
    /// in order, of the pool's type and strategy, and carrying a mapping
    /// offset when the strategy is memory-mapped.
    pub open spec fn spec_descs_ok(
        buffer_type: BufferType,
        memory: Memory,
        descs: Seq<Buffer>,
    ) -> bool {
        &&& (memory == Memory::Mmap || memory == Memory::UserPtr)
        &&& descs.len() <= u32::MAX
        &&& forall|i: int|
            0 <= i < descs.len() ==> {
                &&& (#[trigger] descs[i]).index == i
                &&& descs[i].type_ == buffer_type
                &&& descs[i].memory == memory
                &&& (memory == Memory::Mmap ==> descs[i].m is Offset)
            }
    }

    /// The descriptor of a fresh slot: as the driver reported it, with no
    /// bytes in use and the queued flag clear.
    pub open spec fn spec_fresh_buffer(desc: Buffer) -> Buffer {
        Buffer {
            bytes_used: 0,
            flags: desc.flags.spec_without(BUF_FLAG_QUEUED),
            ..desc
        }
    }

    /// Build a pool from the driver's replies to the buffer-request and
    /// per-buffer query calls.  The pool takes one slot per reported
    /// descriptor — the driver's count, not the caller's requested count,
    /// decides the pool's size — and obtains each slot's backing memory as
    /// the strategy directs.  Succeeds exactly when the strategy is one of
    /// the two streaming strategies and the descriptors have the promised
    /// shape; on success no slot is queued, none is held, the ready queue
    /// is empty and the stream is off.
    pub fn new(
        dir: Direction,
        content_type: ContentType,
        memory: Memory,
        descs: Vec<Buffer>,
    ) -> (r: Result<QueueData, Error>)
        ensures
            match r {
                Ok(q) => {
                    &&& Self::spec_descs_ok(dir.spec_buffer_type(content_type), memory, descs@)
                    &&& q.spec_wf()
                    &&& q.dir == dir
                    &&& q.memory == memory
                    &&& q.buffer_type == dir.spec_buffer_type(content_type)
                    &&& q.spec_len() == descs@.len()
                    &&& !q.on
                    &&& q.fifo@.len() == 0
                    &&& forall|i: int|
                        0 <= i < q.spec_len() ==> !(#[trigger] q.spec_queued(i))
                            && !q.spec_held(i)
                    &&& forall|i: int|
                        0 <= i < q.spec_len() ==> (#[trigger] q.slots@[i]).buffer
                            == Self::spec_fresh_buffer(descs@[i])
                },
                Err(e) => {
                    &&& !Self::spec_descs_ok(dir.spec_buffer_type(content_type), memory, descs@)
                    &&& e.kind == if !(memory == Memory::Mmap || memory == Memory::UserPtr)
                        || descs@.len() > u32::MAX {
                        crate::utils::ErrorKind::InvalidInput
                    } else {
                        crate::utils::ErrorKind::InvalidData
                    }
                },
            },
    {
        let buffer_type = dir.buffer_type(content_type);
        if !(matches!(memory, Memory::Mmap) || matches!(memory, Memory::UserPtr)) {
            return Err(invalid_input("unsupported memory strategy for streaming"));
        }
        if descs.len() > u32::MAX as usize {
            return Err(invalid_input("too many buffers"));
        }
        let count = descs.len();
        let mut slots: Vec<BufferSlot> = Vec::new();
        let mut idx: usize = 0;
        while idx < count
            invariant
                idx <= count,
                count == descs@.len(),
                count <= u32::MAX,
                buffer_type == dir.spec_buffer_type(content_type),
                memory == Memory::Mmap || memory == Memory::UserPtr,
                slots@.len() == idx,
                forall|i: int|
                    0 <= i < idx ==> {
                        &&& (#[trigger] descs@[i]).index == i
                        &&& descs@[i].type_ == buffer_type
                        &&& descs@[i].memory == memory
                        &&& (memory == Memory::Mmap ==> descs@[i].m is Offset)
                    },
                forall|i: int|
                    0 <= i < idx ==> (#[trigger] slots@[i]).spec_wf(i, buffer_type, memory),
                forall|i: int|
                    0 <= i < idx ==> !(#[trigger] slots@[i]).queued && !slots@[i].held,
                forall|i: int|
                    0 <= i < idx ==> (#[trigger] slots@[i]).buffer
                        == Self::spec_fresh_buffer(descs@[i]),
            decreases count - idx,
        {
            let desc = descs[idx];
            if desc.index as usize != idx || !(desc.type_ == buffer_type)
                || !(desc.memory == memory)
                || (matches!(memory, Memory::Mmap) && !matches!(desc.m, BufferM::Offset(_))) {
                return Err(invalid_data("buffer descriptor does not match its pool"));
            }
            let mut buffer = desc;
            buffer.bytes_used = 0;
            buffer.flags = buffer.flags.without(BUF_FLAG_QUEUED);
            proof {
                crate::types::lemma_flag_without(desc.flags.bits, BUF_FLAG_QUEUED);
            }
            let region = MemRegion::init(memory, &buffer);
            slots.push(BufferSlot { buffer, region, queued: false, held: false });
            idx = idx + 1;
        }
        Ok(QueueData {
            slots,
            fifo: Vec::new(),
            on: false,
            buffer_type,
            memory,
            dir,
        })
    }

    /// Queue is empty
    pub fn is_empty(&self) -> (r: bool)
        ensures
            r == (self.spec_len() == 0),
    {
        self.slots.len() == 0
    }

    /// Get actual number of buffers
    pub fn len(&self) -> (r: usize)
        ensures
            r == self.spec_len(),
    {
        self.slots.len()
    }

    /// Buffer type of the pool.
    pub fn buffer_type(&self) -> (r: BufferType)
        ensures
            r == self.buffer_type,
    {
        self.buffer_type
    }

    /// Memory strategy of the pool.
    pub fn memory(&self) -> (r: Memory)
        ensures
            r == self.memory,
    {
        self.memory
    }

    /// Direction of the pool.
    pub fn direction(&self) -> (r: Direction)
        ensures
            r == self.dir,
    {
        self.dir
    }

    /// Is queue started
    pub fn is_on(&self) -> (r: bool)
        ensures
            r == self.on,
    {
        self.on
    }

    /// The descriptor of slot `index`.
    pub fn descriptor(&self, index: usize) -> (r: Buffer)
        requires
            index < self.spec_len(),
        ensures
            r == self.slots@[index as int].buffer,
    {
        self.slots[index].buffer
    }

    /// Whether an application handle holds slot `index`.
    pub fn is_held(&self, index: usize) -> (r: bool)
        requires
            index < self.spec_len(),
        ensures
            r == self.spec_held(index as int),
    {
        self.slots[index].held
    }

    /// Whether the driver owns slot `index`.
    pub fn is_queued(&self, index: usize) -> (r: bool)
        requires
            index < self.spec_len(),
        ensures
            r == self.spec_queued(index as int),
    {
        self.slots[index].queued
    }

    /// Whether slot `index` sits in the ready queue.
    pub fn in_fifo(&self, index: u32) -> (r: bool)
        ensures
            r == self.spec_fifo_has(index as int),
    {
        let mut k: usize = 0;
        let n = self.fifo.len();
        while k < n
            invariant
                k <= n,
                n == self.fifo@.len(),
                forall|j: int| 0 <= j < k ==> self.fifo@[j] != index,
            decreases n - k,
        {
            if self.fifo[k] == index {
                return true;
            }
            k = k + 1;
        }
        false
    }

    /// The front of the ready queue, if it is free to resubmit.  A held
    /// slot is never selected; because resubmission must follow hand-out
    /// order, a held front blocks every entry behind it.
    pub fn ready_front(&self) -> (r: Option<u32>)
        requires
            self.spec_wf(),
        ensures
            r == self.spec_ready_front(),
            match r {
                Some(i) => {
                    &&& self.fifo@.len() > 0
                    &&& i == self.fifo@[0]
                    &&& (i as int) < self.spec_len()
                    &&& !self.spec_held(i as int)
                    &&& !self.spec_queued(i as int)
                },
                None => self.fifo@.len() == 0 || self.spec_held(self.fifo@[0] as int),
            },
    {
        if self.fifo.len() == 0 {
            return None;
        }
        let i = self.fifo[0];
        proof {
            assert(self.spec_fifo_has(i as int));
        }
        if self.slots[i as usize].held {
            None
        } else {
            Some(i)
        }
    }

    /// Give up an application handle: the slot stays in the ready queue,
    /// at its place in hand-out order, and becomes free to resubmit.
    pub fn release(&mut self, index: usize)
        requires
            old(self).spec_wf(),
            index < old(self).spec_len(),
            old(self).spec_held(index as int),
        ensures
            final(self).spec_wf(),
            final(self).slots@ == old(self).slots@.update(
                index as int,
                BufferSlot { held: false, ..old(self).slots@[index as int] },
            ),
            final(self).fifo == old(self).fifo,
            final(self).on == old(self).on,
            final(self).buffer_type == old(self).buffer_type,
            final(self).memory == old(self).memory,
            final(self).dir == old(self).dir,
    {
        self.slots[index].held = false;
        proof {
            let q = *self;
            let p = *old(self);
            assert forall|i: int| 0 <= i < q.spec_len() implies (#[trigger] q.slots@[i]).spec_wf(
                i,
                q.buffer_type,
                q.memory,
            ) by {
                assert(p.slots@[i].spec_wf(i, p.buffer_type, p.memory));
            }
            assert(q.spec_fifo_wf());
            assert forall|i: int|
                0 <= i < q.spec_len() && #[trigger] q.spec_queued(i) implies !q.spec_fifo_has(i)
                && !q.spec_held(i) by {
                assert(p.spec_queued(i) == q.spec_queued(i));
                assert(q.spec_fifo_has(i) == p.spec_fifo_has(i));
            }
            assert forall|i: int|
                0 <= i < q.spec_len() && #[trigger] q.spec_held(i) implies q.spec_fifo_has(i) by {
                assert(p.spec_held(i));
                assert(q.spec_fifo_has(i) == p.spec_fifo_has(i));
            }
            if q.on {
                assert forall|i: int| 0 <= i < q.spec_len() implies #[trigger] q.spec_queued(i)
                    || q.spec_fifo_has(i) by {
                    assert(p.spec_queued(i) || p.spec_fifo_has(i));
                    assert(q.spec_fifo_has(i) == p.spec_fifo_has(i));
                }
            }
        }
    }

    /// Attach the backing memory to the descriptor at the front of the
    /// ready queue, as the strategy directs, and hand the descriptor out
    /// for submission.  For the user-pointer strategy the memory's address
    /// is written into the descriptor before each submission; the mapped
    /// strategy leaves the descriptor unchanged — its offset never moves.
    pub fn prepare_submit(&mut self) -> (r: Buffer)
        requires
            old(self).spec_wf(),
            old(self).fifo@.len() > 0,
            !old(self).spec_held(old(self).fifo@[0] as int),
        ensures
            final(self).spec_wf(),
            ({
                let i = old(self).fifo@[0] as int;
                let attached = Buffer {
                    m: if old(self).memory == Memory::UserPtr {
                        BufferM::UserRegion
                    } else {
                        old(self).slots@[i].buffer.m
                    },
                    ..old(self).slots@[i].buffer
                };
                &&& r == attached
                &&& final(self).slots@ == old(self).slots@.update(
                    i,
                    BufferSlot { buffer: attached, ..old(self).slots@[i] },
                )
            }),
            final(self).fifo == old(self).fifo,
            final(self).on == old(self).on,
            final(self).buffer_type == old(self).buffer_type,
            final(self).memory == old(self).memory,
            final(self).dir == old(self).dir,
    {
        let i = self.fifo[0];
        proof {
            assert(self.spec_fifo_has(i as int));
        }
        let idx = i as usize;
        if matches!(self.memory, Memory::UserPtr) {
            self.slots[idx].buffer.m = BufferM::UserRegion;
        }
        proof {
            let q = *self;
            let p = *old(self);
            assert(q.slots@ =~= p.slots@.update(
                idx as int,
                BufferSlot {
                    buffer: Buffer {
                        m: if p.memory == Memory::UserPtr {
                            BufferM::UserRegion
                        } else {
                            p.slots@[idx as int].buffer.m
                        },
                        ..p.slots@[idx as int].buffer
                    },
                    ..p.slots@[idx as int]
                },
            ));
            assert forall|j: int| 0 <= j < q.spec_len() implies (#[trigger] q.slots@[j]).spec_wf(
                j,
                q.buffer_type,
                q.memory,
            ) by {
                assert(p.slots@[j].spec_wf(j, p.buffer_type, p.memory));
            }
            assert forall|j: int|
                0 <= j < q.spec_len() && #[trigger] q.spec_queued(j) implies !q.spec_fifo_has(j)
                && !q.spec_held(j) by {
                assert(p.spec_queued(j) == q.spec_queued(j));
                assert(q.spec_fifo_has(j) == p.spec_fifo_has(j));
            }
            assert forall|j: int|
                0 <= j < q.spec_len() && #[trigger] q.spec_held(j) implies q.spec_fifo_has(j) by {
                assert(p.spec_held(j));
                assert(q.spec_fifo_has(j) == p.spec_fifo_has(j));
            }
            if q.on {
                assert forall|j: int| 0 <= j < q.spec_len() implies #[trigger] q.spec_queued(j)
                    || q.spec_fifo_has(j) by {
                    assert(p.spec_queued(j) || p.spec_fifo_has(j));
                    assert(q.spec_fifo_has(j) == p.spec_fifo_has(j));
                }
            }
        }
        self.slots[idx].buffer
    }

    /// The driver has accepted the submission of the slot at the front of
    /// the ready queue: remove it from the queue and hand its ownership to
    /// the driver.  Entries behind the front keep their order, so
    /// submission follows hand-out order exactly.
    pub fn confirm_queued(&mut self)
        requires
            old(self).spec_wf(),
            old(self).fifo@.len() > 0,
            !old(self).spec_held(old(self).fifo@[0] as int),
        ensures
            final(self).spec_wf(),
            spec_confirms_to(*old(self), *final(self)),
            ({
                let i = old(self).fifo@[0] as int;
                &&& final(self).fifo@ == old(self).fifo@.remove(0)
                &&& final(self).slots@ == old(self).slots@.update(
                    i,
                    BufferSlot {
                        buffer: Buffer {
                            flags: old(self).slots@[i].buffer.flags.spec_with(BUF_FLAG_QUEUED),
                            ..old(self).slots@[i].buffer
                        },
                        queued: true,
                        ..old(self).slots@[i]
                    },
                )
                &&& final(self).spec_queued(i)
            }),
            final(self).on == old(self).on,
            final(self).buffer_type == old(self).buffer_type,
            final(self).memory == old(self).memory,
            final(self).dir == old(self).dir,
    {
        let i = self.fifo.remove(0);
        proof {
            assert(old(self).spec_fifo_has(i as int));
        }
        let idx = i as usize;
        self.slots[idx].queued = true;
        self.slots[idx].buffer.mark_queued();
        proof {
            let q = *self;
            let p = *old(self);
            let ii = i as int;
            assert(spec_confirms_to(p, q)) by {
                assert(q.slots@ =~= p.slots@.update(
                    ii,
                    BufferSlot {
                        buffer: Buffer {
                            flags: p.slots@[ii].buffer.flags.spec_with(BUF_FLAG_QUEUED),
                            ..p.slots@[ii].buffer
                        },
                        queued: true,
                        ..p.slots@[ii]
                    },
                ));
            }
            // After removing the front, position k of the new queue is
            // position k + 1 of the old one.
            assert forall|k: int| 0 <= k < q.fifo@.len() implies q.fifo@[k] == p.fifo@[k + 1] by {}
            assert forall|j: int| 0 <= j < q.slots@.len() implies (#[trigger] q.slots@[j]).spec_wf(
                j,
                q.buffer_type,
                q.memory,
            ) by {
                if j != ii {
                    assert(q.slots@[j] == p.slots@[j]);
                }
                assert(p.slots@[j].spec_wf(j, p.buffer_type, p.memory));
            }
            assert(spec_fifo_seq_wf(q.fifo@, q.slots@.len() as int)) by {
                assert forall|k: int| 0 <= k < q.fifo@.len() implies ((#[trigger] q.fifo@[
                k]) as int) < q.slots@.len() by {
                    assert((p.fifo@[k + 1] as int) < p.slots@.len());
                }
                assert forall|k1: int, k2: int| 0 <= k1 < k2 < q.fifo@.len() implies q.fifo@[k1]
                    != q.fifo@[k2] by {
                    assert(p.fifo@[k1 + 1] != p.fifo@[k2 + 1]);
                }
            }
            // The front appeared only once, so it is gone from the queue.
            assert(!spec_fifo_contains(q.fifo@, ii)) by {
                if spec_fifo_contains(q.fifo@, ii) {
                    let k = choose|k: int| 0 <= k < q.fifo@.len() && q.fifo@[k] as int == ii;
                    assert(p.fifo@[k + 1] as int == ii);
                    assert(p.fifo@[0] as int == ii);
                    assert(false);
                }
            }
            assert forall|j: int|
                0 <= j < q.slots@.len() && (#[trigger] q.slots@[j]).queued implies
                !spec_fifo_contains(q.fifo@, j) && !q.slots@[j].held by {
                if j == ii {
                    assert(!spec_fifo_contains(q.fifo@, ii));
                    assert(!p.slots@[ii].held);
                } else {
                    assert(q.slots@[j] == p.slots@[j]);
                    assert(!spec_fifo_contains(p.fifo@, j) && !p.slots@[j].held);
                    if spec_fifo_contains(q.fifo@, j) {
                        let k = choose|k: int| 0 <= k < q.fifo@.len() && q.fifo@[k] as int == j;
                        assert(p.fifo@[k + 1] as int == j);
                        assert(spec_fifo_contains(p.fifo@, j));
                    }
                }
            }
            assert forall|j: int|
                0 <= j < q.slots@.len() && (#[trigger] q.slots@[j]).held implies
                spec_fifo_contains(q.fifo@, j) by {
                assert(q.slots@[j] == p.slots@[j]);
                assert(p.slots@[j].held);
                assert(spec_fifo_contains(p.fifo@, j));
                assert(j != ii);
                let k = choose|k: int| 0 <= k < p.fifo@.len() && p.fifo@[k] as int == j;
                assert(k != 0);
                assert(q.fifo@[k - 1] as int == j);
            }
            if q.on {
                assert forall|j: int|
                    0 <= j < q.slots@.len() implies (#[trigger] q.slots@[j]).queued
                    || spec_fifo_contains(q.fifo@, j) by {
                    if j != ii {
                        assert(q.slots@[j] == p.slots@[j]);
                        assert(p.slots@[j].queued || spec_fifo_contains(p.fifo@, j));
                        if !p.slots@[j].queued {
                            let k = choose|k: int|
                                0 <= k < p.fifo@.len() && p.fifo@[k] as int == j;
                            assert(k != 0);
                            assert(q.fifo@[k - 1] as int == j);
                        }
                    }
                }
            }
        }
    }

    /// Well-formedness is kept when one slot that was neither held nor in
    /// the ready queue is handed to the application: the slot becomes held
    /// and not queued, and its index goes to the back of the ready queue.
    proof fn lemma_wf_hand_out(p: QueueData, q: QueueData, i: int)
        requires
            p.spec_wf(),
            0 <= i < p.spec_len(),
            !p.spec_held(i),
            !p.spec_fifo_has(i),
            q.fifo@ == p.fifo@.push(i as u32),
            q.on == p.on,
            q.buffer_type == p.buffer_type,
            q.memory == p.memory,
            q.slots@.len() == p.spec_len(),
            q.slots@[i].spec_wf(i, q.buffer_type, q.memory),
            q.slots@[i].held,
            !q.slots@[i].queued,
            forall|j: int| 0 <= j < p.spec_len() && j != i ==> q.slots@[j] == p.slots@[j],
        ensures
            q.spec_wf(),
            forall|j: int|
                0 <= j < q.spec_len() ==> (#[trigger] q.spec_fifo_has(j)) == (p.spec_fifo_has(j)
                    || j == i),
    {
        assert forall|j: int| 0 <= j < q.spec_len() implies (#[trigger] q.spec_fifo_has(j)) == (
        p.spec_fifo_has(j) || j == i) by {
            lemma_fifo_contains_push(p.fifo@, i as u32, j);
        }
        assert forall|j: int| 0 <= j < q.slots@.len() implies (#[trigger] q.slots@[j]).spec_wf(
            j,
            q.buffer_type,
            q.memory,
        ) by {
            if j != i {
                assert(q.slots@[j] == p.slots@[j]);
                assert(p.slots@[j].spec_wf(j, p.buffer_type, p.memory));
            }
        }
        assert(spec_fifo_seq_wf(q.fifo@, q.slots@.len() as int)) by {
            assert forall|k: int| 0 <= k < q.fifo@.len() implies ((#[trigger] q.fifo@[k]) as int)
                < q.slots@.len() by {
                if k < p.fifo@.len() {
                    assert((p.fifo@[k] as int) < p.slots@.len());
                }
            }
            assert forall|k1: int, k2: int| 0 <= k1 < k2 < q.fifo@.len() implies q.fifo@[k1]
                != q.fifo@[k2] by {
                if k2 < p.fifo@.len() {
                    assert(p.fifo@[k1] != p.fifo@[k2]);
                } else {
                    assert(q.fifo@[k2] as int == i);
                    assert(p.fifo@[k1] as int != i) by {
                        if p.fifo@[k1] as int == i {
                            assert(spec_fifo_contains(p.fifo@, i));
                        }
                    }
                }
            }
        }
        assert forall|j: int|
            0 <= j < q.slots@.len() && (#[trigger] q.slots@[j]).queued implies !spec_fifo_contains(
            q.fifo@,
            j,
        ) && !q.slots@[j].held by {
            assert(j != i);
            assert(q.slots@[j] == p.slots@[j]);
            assert(!spec_fifo_contains(p.fifo@, j) && !p.slots@[j].held);
            lemma_fifo_contains_push(p.fifo@, i as u32, j);
        }
        assert forall|j: int|
            0 <= j < q.slots@.len() && (#[trigger] q.slots@[j]).held implies spec_fifo_contains(
            q.fifo@,
            j,
        ) by {
            lemma_fifo_contains_push(p.fifo@, i as u32, j);
            if j != i {
                assert(q.slots@[j] == p.slots@[j]);
                assert(spec_fifo_contains(p.fifo@, j));
            }
        }
        if q.on {
            assert forall|j: int| 0 <= j < q.slots@.len() implies (#[trigger] q.slots@[j]).queued
                || spec_fifo_contains(q.fifo@, j) by {
                lemma_fifo_contains_push(p.fifo@, i as u32, j);
                if j != i {
                    assert(q.slots@[j] == p.slots@[j]);
                    assert(p.slots@[j].queued || spec_fifo_contains(p.fifo@, j));
                }
            }
        }
    }

    /// The slot descriptor after the driver completes a buffer: the fresh
    /// driver-reported metadata, with the slot's identity, capacity and
    /// memory location pinned, the used length clamped to the capacity,
    /// and ownership back with the application.
    pub open spec fn spec_merged(slot: BufferSlot, desc: Buffer) -> BufferSlot {
        BufferSlot {
            buffer: Buffer {
                index: slot.buffer.index,
                type_: slot.buffer.type_,
                memory: slot.buffer.memory,
                m: slot.buffer.m,
                length: slot.buffer.length,
                bytes_used: if desc.bytes_used <= slot.buffer.length {
                    desc.bytes_used
                } else {
                    slot.buffer.length
                },
                flags: desc.flags.spec_without(BUF_FLAG_QUEUED),
                field: desc.field,
                timestamp: desc.timestamp,
                timecode: desc.timecode,
                sequence: desc.sequence,
            },
            queued: false,
            held: true,
            ..slot
        }
    }

    /// One slot of a stop sweep: a queued, unheld slot loses driver
    /// ownership; every other slot is untouched.
    pub open spec fn spec_drain_one(slot: BufferSlot) -> BufferSlot {
        if slot.queued && !slot.held {
            BufferSlot {
                buffer: Buffer {
                    flags: slot.buffer.flags.spec_without(BUF_FLAG_QUEUED),
                    ..slot.buffer
                },
                queued: false,
                ..slot
            }
        } else {
            slot
        }
    }

    /// Indices under `n` of queued, unheld slots, in index order.
    pub open spec fn spec_drained_indices(slots: Seq<BufferSlot>, n: int) -> Seq<u32>
        decreases n,
    {
        if n <= 0 {
            Seq::empty()
        } else {
            let rest = Self::spec_drained_indices(slots, n - 1);
            if slots[n - 1].queued && !slots[n - 1].held {
                rest.push((n - 1) as u32)
            } else {
                rest
            }
        }
    }

    /// The drained indices are exactly the queued, unheld ones under `n`,
    /// listed in strictly increasing order.
    proof fn lemma_drained_indices(slots: Seq<BufferSlot>, n: int)
        requires
            0 <= n <= u32::MAX,
        ensures
            ({
                let s = Self::spec_drained_indices(slots, n);
                &&& forall|k: int|
                    0 <= k < s.len() ==> {
                        &&& ((#[trigger] s[k]) as int) < n
                        &&& slots[s[k] as int].queued
                        &&& !slots[s[k] as int].held
                    }
                &&& forall|k1: int, k2: int|
                    0 <= k1 < k2 < s.len() ==> (s[k1] as int) < (s[k2] as int)
                &&& forall|i: int|
                    0 <= i < n ==> #[trigger] spec_fifo_contains(s, i) == (slots[i].queued
                        && !slots[i].held)
            }),
        decreases n,
    {
        if n > 0 {
            Self::lemma_drained_indices(slots, n - 1);
            let rest = Self::spec_drained_indices(slots, n - 1);
            let s = Self::spec_drained_indices(slots, n);
            assert forall|i: int| 0 <= i < n implies #[trigger] spec_fifo_contains(s, i) == (
            slots[i].queued && !slots[i].held) by {
                if slots[n - 1].queued && !slots[n - 1].held {
                    lemma_fifo_contains_push(rest, (n - 1) as u32, i);
                } else {
                    if i == n - 1 && spec_fifo_contains(s, i) {
                        let k = choose|k: int| 0 <= k < s.len() && s[k] as int == i;
                        assert((s[k] as int) < n - 1);
                    }
                }
            }
        }
    }

    /// Sweep the pool after the hardware stream stops: stopping the stream
    /// removes every buffer from the driver's queues as a side effect, so
    /// every queued, unheld slot loses its driver ownership here and joins
    /// the ready queue, in index order, without a per-buffer call.  Held
    /// slots are skipped entirely.
    pub fn dequeue_queued(&mut self)
        requires
            old(self).spec_wf(),
        ensures
            final(self).spec_wf(),
            final(self).on == old(self).on,
            final(self).buffer_type == old(self).buffer_type,
            final(self).memory == old(self).memory,
            final(self).dir == old(self).dir,
            final(self).fifo@ == old(self).fifo@ + Self::spec_drained_indices(
                old(self).slots@,
                old(self).spec_len() as int,
            ),
            final(self).slots@.len() == old(self).spec_len(),
            forall|i: int|
                0 <= i < old(self).spec_len() ==> final(self).slots@[i] == Self::spec_drain_one(
                    #[trigger] old(self).slots@[i],
                ),
            forall|i: int| 0 <= i < old(self).spec_len() ==> !final(self).spec_queued(i),
            forall|i: int|
                0 <= i < old(self).spec_len() ==> final(self).spec_held(i) == old(self).spec_held(
                    i,
                ),
    {
        let n = self.slots.len();
        let mut idx: usize = 0;
        while idx < n
            invariant
                idx <= n,
                n == old(self).spec_len(),
                n <= u32::MAX,
                self.slots@.len() == n,
                self.on == old(self).on,
                self.buffer_type == old(self).buffer_type,
                self.memory == old(self).memory,
                self.dir == old(self).dir,
                forall|j: int|
                    0 <= j < idx ==> self.slots@[j] == Self::spec_drain_one(
                        #[trigger] old(self).slots@[j],
                    ),
                forall|j: int| idx <= j < n ==> self.slots@[j] == old(self).slots@[j],
                self.fifo@ == old(self).fifo@ + Self::spec_drained_indices(
                    old(self).slots@,
                    idx as int,
                ),
            decreases n - idx,
        {
            proof {
                assert(Self::spec_drained_indices(old(self).slots@, idx as int + 1)
                    == if old(self).slots@[idx as int].queued && !old(self).slots@[
                    idx as int].held {
                    Self::spec_drained_indices(old(self).slots@, idx as int).push(idx as u32)
                } else {
                    Self::spec_drained_indices(old(self).slots@, idx as int)
                });
            }
            if self.slots[idx].queued && !self.slots[idx].held {
                self.slots[idx].queued = false;
                self.slots[idx].buffer.mark_dequeued();
                self.fifo.push(idx as u32);
                proof {
                    assert(self.fifo@ =~= old(self).fifo@ + Self::spec_drained_indices(
                        old(self).slots@,
                        idx as int + 1,
                    ));
                }
            }
            idx = idx + 1;
        }
        proof {
            let p = *old(self);
            let q = *self;
            let nn = p.spec_len() as int;
            let s = Self::spec_drained_indices(p.slots@, nn);
            Self::lemma_drained_indices(p.slots@, nn);
            assert forall|j: int| 0 <= j < q.slots@.len() implies (#[trigger] q.slots@[j]).spec_wf(
                j,
                q.buffer_type,
                q.memory,
            ) by {
                assert(q.slots@[j] == Self::spec_drain_one(p.slots@[j]));
                assert(p.slots@[j].spec_wf(j, p.buffer_type, p.memory));
                if p.slots@[j].queued && !p.slots@[j].held {
                    crate::types::lemma_flag_without(p.slots@[j].buffer.flags.bits, BUF_FLAG_QUEUED);
                }
            }
            assert forall|j: int| 0 <= j < q.slots@.len() implies !(
            #[trigger] q.slots@[j]).queued by {
                assert(q.slots@[j] == Self::spec_drain_one(p.slots@[j]));
                assert(p.slots@[j].spec_wf(j, p.buffer_type, p.memory));
                if p.slots@[j].queued {
                    assert(!p.slots@[j].held);
                }
            }
            assert(spec_fifo_seq_wf(q.fifo@, q.slots@.len() as int)) by {
                assert forall|k: int| 0 <= k < q.fifo@.len() implies ((#[trigger] q.fifo@[
                k]) as int) < q.slots@.len() by {
                    if k < p.fifo@.len() {
                        assert((p.fifo@[k] as int) < p.slots@.len());
                    } else {
                        assert(q.fifo@[k] == s[k - p.fifo@.len()]);
                    }
                }
                assert forall|k1: int, k2: int| 0 <= k1 < k2 < q.fifo@.len() implies q.fifo@[k1]
                    != q.fifo@[k2] by {
                    if k2 < p.fifo@.len() {
                        assert(p.fifo@[k1] != p.fifo@[k2]);
                    } else if k1 >= p.fifo@.len() {
                        assert((s[k1 - p.fifo@.len()] as int) < (s[k2 - p.fifo@.len()] as int));
                    } else {
                        let i2 = s[k2 - p.fifo@.len()] as int;
                        assert(p.slots@[i2].queued);
                        assert(!spec_fifo_contains(p.fifo@, i2));
                        if p.fifo@[k1] == q.fifo@[k2] {
                            assert(spec_fifo_contains(p.fifo@, i2));
                        }
                    }
                }
            }
            assert forall|j: int|
                0 <= j < q.slots@.len() && (#[trigger] q.slots@[j]).held implies
                spec_fifo_contains(q.fifo@, j) by {
                assert(q.slots@[j] == Self::spec_drain_one(p.slots@[j]));
                assert(p.slots@[j].held);
                assert(spec_fifo_contains(p.fifo@, j));
                lemma_fifo_contains_concat(p.fifo@, s, j);
            }
            if q.on {
                assert forall|j: int|
                    0 <= j < q.slots@.len() implies (#[trigger] q.slots@[j]).queued
                    || spec_fifo_contains(q.fifo@, j) by {
                    assert(q.slots@[j] == Self::spec_drain_one(p.slots@[j]));
                    assert(p.slots@[j].queued || spec_fifo_contains(p.fifo@, j));
                    lemma_fifo_contains_concat(p.fifo@, s, j);
                    if p.slots@[j].queued {
                        assert(!p.slots@[j].held);
                        assert(spec_fifo_contains(s, j));
                    }
                }
            }
            assert forall|j: int| 0 <= j < p.spec_len() implies !q.spec_queued(j)
                && #[trigger] q.spec_held(j) == p.spec_held(j) by {
                assert(q.slots@[j] == Self::spec_drain_one(p.slots@[j]));
            }
        }
    }

    /// One slot of a priming sweep: a slot that is neither held nor in the
    /// ready queue loses any stale driver ownership; every other slot is
    /// untouched.
    pub open spec fn spec_collect_one(slot: BufferSlot, in_fifo: bool) -> BufferSlot {
        if !slot.held && !in_fifo {
            BufferSlot {
                buffer: Buffer {
                    flags: slot.buffer.flags.spec_without(BUF_FLAG_QUEUED),
                    ..slot.buffer
                },
                queued: false,
                ..slot
            }
        } else {
            slot
        }
    }

    /// Indices under `n` of slots that are neither held nor in the ready
    /// queue `fifo0`, in index order.
    pub open spec fn spec_collected_indices(
        slots: Seq<BufferSlot>,
        fifo0: Seq<u32>,
        n: int,
    ) -> Seq<u32>
        decreases n,
    {
        if n <= 0 {
            Seq::empty()
        } else {
            let rest = Self::spec_collected_indices(slots, fifo0, n - 1);
            if !slots[n - 1].held && !spec_fifo_contains(fifo0, n - 1) {
                rest.push((n - 1) as u32)
            } else {
                rest
            }
        }
    }

    /// The collected indices are exactly the unheld slots outside the
    /// ready queue, listed in strictly increasing order.
    proof fn lemma_collected_indices(slots: Seq<BufferSlot>, fifo0: Seq<u32>, n: int)
        requires
            0 <= n <= u32::MAX,
        ensures
            ({
                let s = Self::spec_collected_indices(slots, fifo0, n);
                &&& forall|k: int|
                    0 <= k < s.len() ==> {
                        &&& ((#[trigger] s[k]) as int) < n
                        &&& !slots[s[k] as int].held
                        &&& !spec_fifo_contains(fifo0, s[k] as int)
                    }
                &&& forall|k1: int, k2: int|
                    0 <= k1 < k2 < s.len() ==> (s[k1] as int) < (s[k2] as int)
                &&& forall|i: int|
                    0 <= i < n ==> #[trigger] spec_fifo_contains(s, i) == (!slots[i].held
                        && !spec_fifo_contains(fifo0, i))
            }),
        decreases n,
    {
        if n > 0 {
            Self::lemma_collected_indices(slots, fifo0, n - 1);
            let rest = Self::spec_collected_indices(slots, fifo0, n - 1);
            let s = Self::spec_collected_indices(slots, fifo0, n);
            assert forall|i: int| 0 <= i < n implies #[trigger] spec_fifo_contains(s, i) == (
            !slots[i].held && !spec_fifo_contains(fifo0, i)) by {
                if !slots[n - 1].held && !spec_fifo_contains(fifo0, n - 1) {
                    lemma_fifo_contains_push(rest, (n - 1) as u32, i);
                } else {
                    if i == n - 1 && spec_fifo_contains(s, i) {
                        let k = choose|k: int| 0 <= k < s.len() && s[k] as int == i;
                        assert((s[k] as int) < n - 1);
                    }
                }
            }
        }
    }

    /// Prime the pool before the stream starts: every slot that nobody
    /// accounts for — not held, not awaiting resubmission — is marked free
    /// of driver ownership (clearing any stale queued flag) and joins the
    /// ready queue in index order, so that the following submission sweep
    /// hands the whole pool to the driver.  Held slots are skipped
    /// entirely; slots already awaiting resubmission keep their place.
    pub fn dequeue_all(&mut self)
        requires
            old(self).spec_wf(),
        ensures
            final(self).spec_wf(),
            spec_primes_to(*old(self), *final(self)),
            final(self).on == old(self).on,
            final(self).buffer_type == old(self).buffer_type,
            final(self).memory == old(self).memory,
            final(self).dir == old(self).dir,
            final(self).fifo@ == old(self).fifo@ + Self::spec_collected_indices(
                old(self).slots@,
                old(self).fifo@,
                old(self).spec_len() as int,
            ),
            final(self).slots@.len() == old(self).spec_len(),
            forall|i: int|
                0 <= i < old(self).spec_len() ==> final(self).slots@[i] == Self::spec_collect_one(
                    #[trigger] old(self).slots@[i],
                    spec_fifo_contains(old(self).fifo@, i),
                ),
            forall|i: int| 0 <= i < old(self).spec_len() ==> !final(self).spec_queued(i),
            forall|i: int| 0 <= i < old(self).spec_len() ==> final(self).spec_fifo_has(i),
            forall|i: int|
                0 <= i < old(self).spec_len() ==> final(self).spec_held(i) == old(self).spec_held(
                    i,
                ),
    {
        let n = self.slots.len();
        let mut idx: usize = 0;
        while idx < n
            invariant
                idx <= n,
                n == old(self).spec_len(),
                n <= u32::MAX,
                old(self).spec_wf(),
                self.slots@.len() == n,
                self.on == old(self).on,
                self.buffer_type == old(self).buffer_type,
                self.memory == old(self).memory,
                self.dir == old(self).dir,
                forall|j: int|
                    0 <= j < idx ==> self.slots@[j] == Self::spec_collect_one(
                        #[trigger] old(self).slots@[j],
                        spec_fifo_contains(old(self).fifo@, j),
                    ),
                forall|j: int| idx <= j < n ==> self.slots@[j] == old(self).slots@[j],
                self.fifo@ == old(self).fifo@ + Self::spec_collected_indices(
                    old(self).slots@,
                    old(self).fifo@,
                    idx as int,
                ),
            decreases n - idx,
        {
            let ghost prefix = Self::spec_collected_indices(
                old(self).slots@,
                old(self).fifo@,
                idx as int,
            );
            proof {
                Self::lemma_collected_indices(old(self).slots@, old(self).fifo@, idx as int);
                lemma_fifo_contains_concat(old(self).fifo@, prefix, idx as int);
                assert(Self::spec_collected_indices(
                    old(self).slots@,
                    old(self).fifo@,
                    idx as int + 1,
                ) == if !old(self).slots@[idx as int].held && !spec_fifo_contains(
                    old(self).fifo@,
                    idx as int,
                ) {
                    prefix.push(idx as u32)
                } else {
                    prefix
                });
            }
            let in_ready = self.in_fifo(idx as u32);
            if !self.slots[idx].held && !in_ready {
                self.slots[idx].queued = false;
                self.slots[idx].buffer.mark_dequeued();
                self.fifo.push(idx as u32);
                proof {
                    assert(self.fifo@ =~= old(self).fifo@ + prefix.push(idx as u32));
                }
            }
            idx = idx + 1;
        }
        proof {
            let p = *old(self);
            let q = *self;
            let nn = p.spec_len() as int;
            let s = Self::spec_collected_indices(p.slots@, p.fifo@, nn);
            Self::lemma_collected_indices(p.slots@, p.fifo@, nn);
            assert forall|j: int| 0 <= j < q.slots@.len() implies (#[trigger] q.slots@[j]).spec_wf(
                j,
                q.buffer_type,
                q.memory,
            ) by {
                assert(q.slots@[j] == Self::spec_collect_one(
                    p.slots@[j],
                    spec_fifo_contains(p.fifo@, j),
                ));
                assert(p.slots@[j].spec_wf(j, p.buffer_type, p.memory));
                crate::types::lemma_flag_without(p.slots@[j].buffer.flags.bits, BUF_FLAG_QUEUED);
            }
            assert forall|j: int| 0 <= j < q.slots@.len() implies !(
            #[trigger] q.slots@[j]).queued && spec_fifo_contains(q.fifo@, j) by {
                assert(q.slots@[j] == Self::spec_collect_one(
                    p.slots@[j],
                    spec_fifo_contains(p.fifo@, j),
                ));
                assert(p.slots@[j].spec_wf(j, p.buffer_type, p.memory));
                lemma_fifo_contains_concat(p.fifo@, s, j);
                if p.slots@[j].held || spec_fifo_contains(p.fifo@, j) {
                    // Held slots sit in the ready queue already; slots in
                    // the ready queue are not queued.
                    assert(spec_fifo_contains(p.fifo@, j));
                    if p.slots@[j].queued {
                        assert(!spec_fifo_contains(p.fifo@, j));
                    }
                } else {
                    assert(spec_fifo_contains(s, j));
                }
            }
            assert(spec_fifo_seq_wf(q.fifo@, q.slots@.len() as int)) by {
                assert forall|k: int| 0 <= k < q.fifo@.len() implies ((#[trigger] q.fifo@[
                k]) as int) < q.slots@.len() by {
                    if k < p.fifo@.len() {
                        assert((p.fifo@[k] as int) < p.slots@.len());
                    } else {
                        assert(q.fifo@[k] == s[k - p.fifo@.len()]);
                    }
                }
                assert forall|k1: int, k2: int| 0 <= k1 < k2 < q.fifo@.len() implies q.fifo@[k1]
                    != q.fifo@[k2] by {
                    if k2 < p.fifo@.len() {
                        assert(p.fifo@[k1] != p.fifo@[k2]);
                    } else if k1 >= p.fifo@.len() {
                        assert((s[k1 - p.fifo@.len()] as int) < (s[k2 - p.fifo@.len()] as int));
                    } else {
                        let i2 = s[k2 - p.fifo@.len()] as int;
                        assert(!spec_fifo_contains(p.fifo@, i2));
                        if p.fifo@[k1] == q.fifo@[k2] {
                            assert(spec_fifo_contains(p.fifo@, i2));
                        }
                    }
                }
            }
            assert forall|j: int|
                0 <= j < q.slots@.len() && (#[trigger] q.slots@[j]).held implies
                spec_fifo_contains(q.fifo@, j) by {}
            assert forall|j: int| 0 <= j < p.spec_len() implies #[trigger] q.spec_held(j)
                == p.spec_held(j) by {
                assert(q.slots@[j] == Self::spec_collect_one(
                    p.slots@[j],
                    spec_fifo_contains(p.fifo@, j),
                ));
            }
            assert forall|j: int| 0 <= j < p.spec_len() implies #[trigger] q.spec_fifo_has(j) by {
                assert(!q.slots@[j].queued && spec_fifo_contains(q.fifo@, j));
            }
        }
    }

    /// Start the hardware stream in the pool's bookkeeping.  Before the
    /// stream may start, every slot must be accounted for: owned by the
    /// driver or sitting in the ready queue.
    pub fn set_on(&mut self)
        requires
            old(self).spec_wf(),
            spec_primed(old(self).slots@, old(self).fifo@),
        ensures
            final(self).spec_wf(),
            final(self).on,
            final(self).slots == old(self).slots,
            final(self).fifo == old(self).fifo,
            final(self).buffer_type == old(self).buffer_type,
            final(self).memory == old(self).memory,
            final(self).dir == old(self).dir,
    {
        self.on = true;
    }

    /// Byte capacity of slot `index`.
    pub fn capacity(&self, index: usize) -> (r: usize)
        requires
            index < self.spec_len(),
        ensures
            r == self.slots@[index as int].buffer.length,
    {
        self.slots[index].buffer.length as usize
    }

    /// Bytes in use of slot `index`.
    pub fn used_len(&self, index: usize) -> (r: usize)
        requires
            index < self.spec_len(),
        ensures
            r == self.slots@[index as int].buffer.bytes_used,
    {
        self.slots[index].buffer.bytes_used as usize
    }

    /// Declare how many bytes of a held slot were written: the used length
    /// becomes `len`, clamped to the slot's capacity.
    pub fn set_len(&mut self, index: usize, len: usize)
        requires
            old(self).spec_wf(),
            index < old(self).spec_len(),
            old(self).spec_held(index as int),
        ensures
            final(self).spec_wf(),
            ({
                let b = old(self).slots@[index as int].buffer;
                let used: u32 = if len <= b.length { len as u32 } else { b.length };
                final(self).slots@ == old(self).slots@.update(
                    index as int,
                    BufferSlot {
                        buffer: Buffer { bytes_used: used, ..b },
                        ..old(self).slots@[index as int]
                    },
                )
            }),
            final(self).fifo == old(self).fifo,
            final(self).on == old(self).on,
            final(self).buffer_type == old(self).buffer_type,
            final(self).memory == old(self).memory,
            final(self).dir == old(self).dir,
    {
        let cap = self.slots[index].buffer.length;
        let used: u32 = if len <= cap as usize {
            len as u32
        } else {
            cap
        };
        self.slots[index].buffer.bytes_used = used;
        proof {
            let p = *old(self);
            let q = *self;
            assert forall|j: int| 0 <= j < q.slots@.len() implies (#[trigger] q.slots@[j]).spec_wf(
                j,
                q.buffer_type,
                q.memory,
            ) by {
                assert(p.slots@[j].spec_wf(j, p.buffer_type, p.memory));
            }
            assert forall|j: int|
                0 <= j < q.slots@.len() && (#[trigger] q.slots@[j]).queued implies
                !spec_fifo_contains(q.fifo@, j) && !q.slots@[j].held by {
                assert(p.slots@[j].queued);
            }
            assert forall|j: int|
                0 <= j < q.slots@.len() && (#[trigger] q.slots@[j]).held implies
                spec_fifo_contains(q.fifo@, j) by {
                assert(p.slots@[j].held);
            }
            if q.on {
                assert forall|j: int|
                    0 <= j < q.slots@.len() implies (#[trigger] q.slots@[j]).queued
                    || spec_fifo_contains(q.fifo@, j) by {
                    assert(p.slots@[j].queued || spec_fifo_contains(p.fifo@, j));
                }
            }
        }
    }

    /// Read one byte of a held slot backed by user-allocated memory.
    pub fn read_at(&self, index: usize, pos: usize) -> (r: u8)
        requires
            index < self.spec_len(),
            self.spec_held(index as int),
            self.slots@[index as int].region is User,
            pos < self.slots@[index as int].region.spec_len(),
        ensures
            r == self.slots@[index as int].region.spec_user_data()[pos as int],
    {
        self.slots[index].region.read_at(pos)
    }

    /// Write one byte into a held slot backed by user-allocated memory.
    /// Only the holder of the slot's handle may touch its memory.
    pub fn write_at(&mut self, index: usize, pos: usize, byte: u8)
        requires
            old(self).spec_wf(),
            index < old(self).spec_len(),
            old(self).spec_held(index as int),
            old(self).slots@[index as int].region is User,
            pos < old(self).slots@[index as int].region.spec_len(),
        ensures
            final(self).spec_wf(),
            final(self).slots@.len() == old(self).spec_len(),
            final(self).slots@[index as int].region.spec_user_data() == old(self).slots@[
                index as int].region.spec_user_data().update(pos as int, byte),
            forall|j: int|
                0 <= j < old(self).spec_len() && j != index ==> final(self).slots@[j] == old(
                    self,
                ).slots@[j],
            final(self).slots@[index as int].buffer == old(self).slots@[index as int].buffer,
            final(self).slots@[index as int].queued == old(self).slots@[index as int].queued,
            final(self).slots@[index as int].held == old(self).slots@[index as int].held,
            final(self).slots@[index as int].region is User,
            final(self).slots@[index as int].region.spec_len() == old(self).slots@[
                index as int].region.spec_len(),
            final(self).fifo == old(self).fifo,
            final(self).on == old(self).on,
            final(self).buffer_type == old(self).buffer_type,
            final(self).memory == old(self).memory,
            final(self).dir == old(self).dir,
    {
        self.slots[index].region.write_at(pos, byte);
        proof {
            let p = *old(self);
            let q = *self;
            assert forall|j: int| 0 <= j < q.slots@.len() implies (#[trigger] q.slots@[j]).spec_wf(
                j,
                q.buffer_type,
                q.memory,
            ) by {
                assert(p.slots@[j].spec_wf(j, p.buffer_type, p.memory));
                if j == index {
                    assert(q.slots@[j].region.spec_matches(q.memory)) by {
                        assert(p.slots@[j].region.spec_matches(p.memory));
                        assert(q.slots@[j].region is User);
                    }
                }
            }
            assert forall|j: int|
                0 <= j < q.slots@.len() && (#[trigger] q.slots@[j]).queued implies
                !spec_fifo_contains(q.fifo@, j) && !q.slots@[j].held by {
                assert(p.slots@[j].queued);
            }
            assert forall|j: int|
                0 <= j < q.slots@.len() && (#[trigger] q.slots@[j]).held implies
                spec_fifo_contains(q.fifo@, j) by {
                assert(p.slots@[j].held);
            }
            if q.on {
                assert forall|j: int|
                    0 <= j < q.slots@.len() implies (#[trigger] q.slots@[j]).queued
                    || spec_fifo_contains(q.fifo@, j) by {
                    assert(p.slots@[j].queued || spec_fifo_contains(p.fifo@, j));
                }
            }
        }
    }

    /// Stop the hardware stream in the pool's bookkeeping.  Stopping the
    /// stream implicitly dequeues and unlocks every buffer, so the sweep
    /// of `dequeue_queued` runs as part of this call.  A second stop on an
    /// already-stopped pool finds nothing queued and changes nothing.
    pub fn set_off(&mut self)
        requires
            old(self).spec_wf(),
        ensures
            final(self).spec_wf(),
            spec_offs_to(*old(self), *final(self)),
            !final(self).on,
            final(self).buffer_type == old(self).buffer_type,
            final(self).memory == old(self).memory,
            final(self).dir == old(self).dir,
            final(self).fifo@ == old(self).fifo@ + Self::spec_drained_indices(
                old(self).slots@,
                old(self).spec_len() as int,
            ),
            final(self).slots@.len() == old(self).spec_len(),
            forall|i: int|
                0 <= i < old(self).spec_len() ==> final(self).slots@[i] == Self::spec_drain_one(
                    #[trigger] old(self).slots@[i],
                ),
            forall|i: int| 0 <= i < old(self).spec_len() ==> !final(self).spec_queued(i),
            forall|i: int|
                0 <= i < old(self).spec_len() ==> final(self).spec_held(i) == old(self).spec_held(
                    i,
                ),
    {
        self.on = false;
        self.dequeue_queued();
    }

    /// Stopping the stream twice in a row leaves exactly the state of
    /// stopping it once: after the first stop no slot is queued, so the
    /// second sweep clears nothing and appends nothing to the ready queue.
    pub proof fn lemma_off_idempotent(q: QueueData)
        requires
            q.spec_wf(),
            forall|i: int| 0 <= i < q.spec_len() ==> !q.spec_queued(i),
        ensures
            Self::spec_drained_indices(q.slots@, q.spec_len() as int) =~= Seq::<u32>::empty(),
            q.fifo@ + Self::spec_drained_indices(q.slots@, q.spec_len() as int) =~= q.fifo@,
            forall|i: int|
                0 <= i < q.spec_len() ==> Self::spec_drain_one(#[trigger] q.slots@[i])
                    == q.slots@[i],
    {
        let nn = q.spec_len() as int;
        let s = Self::spec_drained_indices(q.slots@, nn);
        Self::lemma_drained_indices(q.slots@, nn);
        if s.len() > 0 {
            assert(q.slots@[s[0] as int].queued);
            assert(q.spec_queued(s[0] as int));
            assert(false);
        }
        assert forall|i: int| 0 <= i < q.spec_len() implies Self::spec_drain_one(
            #[trigger] q.slots@[i],
        ) == q.slots@[i] by {
            assert(!q.spec_queued(i));
        }
    }

    /// The driver has completed a buffer and reported the descriptor
    /// `desc`; the driver — not the caller — chose which slot comes back,
    /// through the index inside `desc`.  Merge the fresh metadata into
    /// that slot, record the slot at the back of the ready queue, and hand
    /// the application exclusive access to it.
    ///
    /// The call succeeds exactly when the reported index names a slot that
    /// the driver owned and nobody holds; anything else means the driver
    /// and the pool's bookkeeping have diverged, and the pool reports a
    /// protocol violation without touching its state.  In particular a
    /// held slot is never returned (its memory stays exclusive), and a
    /// completed slot comes back with its queued flag clear.
    pub fn complete(&mut self, desc: Buffer) -> (r: Result<u32, Error>)
        requires
            old(self).spec_wf(),
        ensures
            final(self).spec_wf(),
            final(self).on == old(self).on,
            final(self).buffer_type == old(self).buffer_type,
            final(self).memory == old(self).memory,
            final(self).dir == old(self).dir,
            r is Ok <==> old(self).spec_complete_ok(desc),
            match r {
                Ok(i) => {
                    &&& i == desc.index
                    &&& (i as int) < old(self).spec_len()
                    &&& old(self).spec_queued(i as int)
                    &&& !old(self).spec_held(i as int)
                    &&& final(self).fifo@ == old(self).fifo@.push(i)
                    &&& final(self).slots@ == old(self).slots@.update(
                        i as int,
                        Self::spec_merged(old(self).slots@[i as int], desc),
                    )
                    &&& final(self).spec_held(i as int)
                    &&& !final(self).spec_queued(i as int)
                },
                Err(e) => {
                    &&& !((desc.index as int) < old(self).spec_len()
                        && old(self).spec_queued(desc.index as int)
                        && !old(self).spec_held(desc.index as int))
                    &&& *final(self) == *old(self)
                    &&& e.kind == crate::utils::ErrorKind::ProtocolViolation
                },
            },
    {
        let i = desc.index;
        let idx = i as usize;
        if idx >= self.slots.len() {
            return Err(crate::utils::protocol_violation(
                "driver returned a buffer index outside the pool",
            ));
        }
        if self.slots[idx].held || !self.slots[idx].queued {
            return Err(crate::utils::protocol_violation(
                "driver returned a buffer the pool did not consider queued",
            ));
        }
        let length = self.slots[idx].buffer.length;
        self.slots[idx].buffer.bytes_used = if desc.bytes_used <= length {
            desc.bytes_used
        } else {
            length
        };
        self.slots[idx].buffer.flags = desc.flags.without(BUF_FLAG_QUEUED);
        self.slots[idx].buffer.field = desc.field;
        self.slots[idx].buffer.timestamp = desc.timestamp;
        self.slots[idx].buffer.timecode = desc.timecode;
        self.slots[idx].buffer.sequence = desc.sequence;
        self.slots[idx].queued = false;
        self.slots[idx].held = true;
        self.fifo.push(i);
        proof {
            crate::types::lemma_flag_without(desc.flags.bits, BUF_FLAG_QUEUED);
            let p = *old(self);
            let q = *self;
            assert(q.slots@ =~= p.slots@.update(
                i as int,
                Self::spec_merged(p.slots@[i as int], desc),
            ));
            assert(q.slots@[i as int].spec_wf(i as int, q.buffer_type, q.memory)) by {
                assert(p.slots@[i as int].spec_wf(i as int, p.buffer_type, p.memory));
            }
            assert(p.spec_queued(i as int));
            assert(!p.spec_fifo_has(i as int));
            Self::lemma_wf_hand_out(p, q, i as int);
        }
        Ok(i)
    }

    /// Hand the application a slot that nobody owns: not queued, not held,
    /// and not awaiting resubmission.  Scans the slots in index order and
    /// takes the first free one; used by an output pool before its stream
    /// starts, so the application can fill buffers ahead of the first
    /// submission.  Returns nothing exactly when no slot is free.
    pub fn acquire_unused(&mut self) -> (r: Option<u32>)
        requires
            old(self).spec_wf(),
        ensures
            final(self).spec_wf(),
            final(self).on == old(self).on,
            final(self).buffer_type == old(self).buffer_type,
            final(self).memory == old(self).memory,
            final(self).dir == old(self).dir,
            r == old(self).spec_first_free(),
            match r {
                Some(i) => {
                    &&& spec_acquires_to(*old(self), *final(self), i)
                    &&& (i as int) < old(self).spec_len()
                    &&& old(self).spec_free(i as int)
                    &&& forall|j: int| 0 <= j < i ==> !old(self).spec_free(j)
                    &&& final(self).fifo@ == old(self).fifo@.push(i)
                    &&& final(self).slots@ == old(self).slots@.update(
                        i as int,
                        BufferSlot { held: true, ..old(self).slots@[i as int] },
                    )
                    &&& final(self).spec_held(i as int)
                },
                None => {
                    &&& forall|j: int| 0 <= j < old(self).spec_len() ==> !old(self).spec_free(j)
                    &&& *final(self) == *old(self)
                },
            },
    {
        let n = self.slots.len();
        let mut idx: usize = 0;
        while idx < n
            invariant
                self == old(self),
                self.spec_wf(),
                idx <= n,
                n == self.spec_len(),
                forall|j: int| 0 <= j < idx ==> !self.spec_free(j),
            decreases n - idx,
        {
            let free = !self.slots[idx].held && !self.slots[idx].queued && !self.in_fifo(
                idx as u32,
            );
            if free {
                let i = idx as u32;
                self.slots[idx].held = true;
                self.fifo.push(i);
                proof {
                    let p = *old(self);
                    let q = *self;
                    assert(q.slots@ =~= p.slots@.update(
                        idx as int,
                        BufferSlot { held: true, ..p.slots@[idx as int] },
                    ));
                    assert(q.slots@[idx as int].spec_wf(idx as int, q.buffer_type, q.memory))
                        by {
                        assert(p.slots@[idx as int].spec_wf(idx as int, p.buffer_type, p.memory));
                    }
                    Self::lemma_wf_hand_out(p, q, idx as int);
                    Self::lemma_first_free_some(p, i);
                }
                return Some(i);
            }
            idx = idx + 1;
        }
        proof {
            Self::lemma_first_free_none(*old(self));
        }
        None
    }

    /// No slot of the pool is held by an application handle.
    pub open spec fn spec_none_held(self) -> bool {
        forall|i: int| 0 <= i < self.spec_len() ==> !(#[trigger] self.spec_held(i))
    }

    /// Every slot of the pool is owned by the driver.
    pub open spec fn spec_all_queued(self) -> bool {
        forall|i: int| 0 <= i < self.spec_len() ==> #[trigger] self.spec_queued(i)
    }

    /// The lowest-index free slot at or after position `i`, if any.
    pub open spec fn spec_first_free_from(self, i: int) -> Option<u32>
        decreases self.spec_len() as int - i,
    {
        if i < 0 || i >= self.spec_len() {
            None
        } else if self.spec_free(i) {
            Some(i as u32)
        } else {
            self.spec_first_free_from(i + 1)
        }
    }

    /// The lowest-index slot that nobody accounts for — not queued, not
    /// held, not awaiting resubmission — if any.
    pub open spec fn spec_first_free(self) -> Option<u32> {
        self.spec_first_free_from(0)
    }

    /// Scanning from `a` finds the same first free slot as scanning from
    /// `i` when nothing in between is free.
    proof fn lemma_first_free_skip(q: QueueData, a: int, i: int)
        requires
            0 <= a <= i <= q.spec_len(),
            forall|j: int| a <= j < i ==> !q.spec_free(j),
        ensures
            q.spec_first_free_from(a) == q.spec_first_free_from(i),
        decreases i - a,
    {
        if a < i {
            assert(!q.spec_free(a));
            Self::lemma_first_free_skip(q, a + 1, i);
        }
    }

    /// A free slot below which nothing is free is the first free slot.
    pub proof fn lemma_first_free_some(q: QueueData, i: u32)
        requires
            (i as int) < q.spec_len(),
            q.spec_free(i as int),
            forall|j: int| 0 <= j < i ==> !q.spec_free(j),
        ensures
            q.spec_first_free() == Some(i),
    {
        Self::lemma_first_free_skip(q, 0, i as int);
    }

    /// With no free slot at all, there is no first free slot.
    pub proof fn lemma_first_free_none(q: QueueData)
        requires
            forall|j: int| 0 <= j < q.spec_len() ==> !q.spec_free(j),
        ensures
            q.spec_first_free() is None,
    {
        Self::lemma_first_free_skip(q, 0, q.spec_len() as int);
    }

    /// The resubmission candidate: the front of the ready queue, unless an
    /// application handle holds it.
    pub open spec fn spec_ready_front(self) -> Option<u32> {
        if self.fifo@.len() > 0 && !self.spec_held(self.fifo@[0] as int) {
            Some(self.fifo@[0])
        } else {
            None
        }
    }

    /// The condition under which a completion reporting `desc` is
    /// accepted: the index names a slot of the pool that the driver owned
    /// and that nobody holds.
    pub open spec fn spec_complete_ok(self, desc: Buffer) -> bool {
        &&& (desc.index as int) < self.spec_len()
        &&& self.spec_queued(desc.index as int)
        &&& !self.spec_held(desc.index as int)
    }

    /// A slot held by an outstanding handle is never selected: it is not
    /// the resubmission candidate, a completion reporting it is rejected,
    /// and the scan for an unused slot passes it over.  While a handle
    /// lives, nothing aliases the slot's memory.
    pub proof fn lemma_held_never_selected(q: QueueData, desc: Buffer)
        requires
            q.spec_wf(),
            0 <= (desc.index as int) < q.spec_len(),
            q.spec_held(desc.index as int),
        ensures
            q.spec_ready_front() != Some(desc.index),
            !q.spec_complete_ok(desc),
            !q.spec_free(desc.index as int),
    {
    }

    /// Resubmission order equals hand-out order.  With slots `a`, `b`, `c`
    /// at the front of the ready queue in that order and `b` still held,
    /// `a` alone is the resubmission candidate; and in the state after
    /// `a`'s submission (the front removed, `b` still held), there is no
    /// candidate at all — `c` is never submitted ahead of `b`.
    pub proof fn lemma_resubmission_order(q: QueueData, q2: QueueData, a: u32, b: u32, c: u32)
        requires
            q.spec_wf(),
            q.fifo@.len() >= 3,
            q.fifo@[0] == a,
            q.fifo@[1] == b,
            q.fifo@[2] == c,
            !q.spec_held(a as int),
            q.spec_held(b as int),
            q2.fifo@ == q.fifo@.remove(0),
            q2.spec_len() == q.spec_len(),
            q2.spec_held(b as int),
        ensures
            q.spec_ready_front() == Some(a),
            q2.spec_ready_front() is None,
    {
        assert(q2.fifo@[0] == q.fifo@[1]);
    }

    /// The priming sweep preserves well-formedness, puts every slot into
    /// the ready queue or the driver's hands, touches no held slot, and
    /// keeps the stream state.
    pub proof fn lemma_prime_preserves(p: QueueData, q: QueueData)
        requires
            p.spec_wf(),
            spec_primes_to(p, q),
        ensures
            q.spec_wf(),
            q.spec_len() == p.spec_len(),
            q.on == p.on,
            spec_primed(q.slots@, q.fifo@),
            forall|i: int|
                0 <= i < p.spec_len() ==> #[trigger] q.spec_held(i) == p.spec_held(i),
    {
        let nn = p.spec_len() as int;
        let s = Self::spec_collected_indices(p.slots@, p.fifo@, nn);
        Self::lemma_collected_indices(p.slots@, p.fifo@, nn);
        assert forall|j: int| 0 <= j < q.slots@.len() implies (#[trigger] q.slots@[j]).spec_wf(
            j,
            q.buffer_type,
            q.memory,
        ) by {
            assert(q.slots@[j] == Self::spec_collect_one(
                p.slots@[j],
                spec_fifo_contains(p.fifo@, j),
            ));
            assert(p.slots@[j].spec_wf(j, p.buffer_type, p.memory));
            crate::types::lemma_flag_without(p.slots@[j].buffer.flags.bits, BUF_FLAG_QUEUED);
        }
        assert forall|j: int| 0 <= j < q.slots@.len() implies !(#[trigger] q.slots@[j]).queued
            && spec_fifo_contains(q.fifo@, j) by {
            assert(q.slots@[j] == Self::spec_collect_one(
                p.slots@[j],
                spec_fifo_contains(p.fifo@, j),
            ));
            assert(p.slots@[j].spec_wf(j, p.buffer_type, p.memory));
            lemma_fifo_contains_concat(p.fifo@, s, j);
            if p.slots@[j].held || spec_fifo_contains(p.fifo@, j) {
                assert(spec_fifo_contains(p.fifo@, j));
                if p.slots@[j].queued {
                    assert(!spec_fifo_contains(p.fifo@, j));
                }
            } else {
                assert(spec_fifo_contains(s, j));
            }
        }
        assert(spec_fifo_seq_wf(q.fifo@, q.slots@.len() as int)) by {
            assert forall|k: int| 0 <= k < q.fifo@.len() implies ((#[trigger] q.fifo@[
            k]) as int) < q.slots@.len() by {
                if k < p.fifo@.len() {
                    assert((p.fifo@[k] as int) < p.slots@.len());
                } else {
                    assert(q.fifo@[k] == s[k - p.fifo@.len()]);
                }
            }
            assert forall|k1: int, k2: int| 0 <= k1 < k2 < q.fifo@.len() implies q.fifo@[k1]
                != q.fifo@[k2] by {
                if k2 < p.fifo@.len() {
                    assert(p.fifo@[k1] != p.fifo@[k2]);
                } else if k1 >= p.fifo@.len() {
                    assert((s[k1 - p.fifo@.len()] as int) < (s[k2 - p.fifo@.len()] as int));
                } else {
                    let i2 = s[k2 - p.fifo@.len()] as int;
                    assert(!spec_fifo_contains(p.fifo@, i2));
                    if p.fifo@[k1] == q.fifo@[k2] {
                        assert(spec_fifo_contains(p.fifo@, i2));
                    }
                }
            }
        }
        assert forall|j: int|
            0 <= j < q.slots@.len() && (#[trigger] q.slots@[j]).held implies spec_fifo_contains(
            q.fifo@,
            j,
        ) by {}
        assert forall|j: int| 0 <= j < p.spec_len() implies #[trigger] q.spec_held(j)
            == p.spec_held(j) by {
            assert(q.slots@[j] == Self::spec_collect_one(
                p.slots@[j],
                spec_fifo_contains(p.fifo@, j),
            ));
        }
    }

    /// One submission confirmation preserves well-formedness, keeps every
    /// slot accounted for (driver-owned or in the ready queue), touches
    /// no held slot, and keeps the stream state; the ready queue shrinks
    /// by exactly its front.
    pub proof fn lemma_confirm_preserves(p: QueueData, q: QueueData)
        requires
            p.spec_wf(),
            spec_confirms_to(p, q),
        ensures
            q.spec_wf(),
            q.spec_len() == p.spec_len(),
            q.on == p.on,
            q.fifo@.len() == p.fifo@.len() - 1,
            forall|i: int|
                0 <= i < p.spec_len() ==> #[trigger] q.spec_held(i) == p.spec_held(i),
            spec_primed(p.slots@, p.fifo@) ==> spec_primed(q.slots@, q.fifo@),
    {
        let ii = p.fifo@[0] as int;
        crate::types::lemma_flag_with(p.slots@[ii].buffer.flags.bits, BUF_FLAG_QUEUED);
        assert forall|k: int| 0 <= k < q.fifo@.len() implies q.fifo@[k] == p.fifo@[k + 1] by {}
        assert forall|j: int| 0 <= j < q.slots@.len() implies (#[trigger] q.slots@[j]).spec_wf(
            j,
            q.buffer_type,
            q.memory,
        ) by {
            if j != ii {
                assert(q.slots@[j] == p.slots@[j]);
            }
            assert(p.slots@[j].spec_wf(j, p.buffer_type, p.memory));
        }
        assert(spec_fifo_seq_wf(q.fifo@, q.slots@.len() as int)) by {
            assert forall|k: int| 0 <= k < q.fifo@.len() implies ((#[trigger] q.fifo@[
            k]) as int) < q.slots@.len() by {
                assert((p.fifo@[k + 1] as int) < p.slots@.len());
            }
            assert forall|k1: int, k2: int| 0 <= k1 < k2 < q.fifo@.len() implies q.fifo@[k1]
                != q.fifo@[k2] by {
                assert(p.fifo@[k1 + 1] != p.fifo@[k2 + 1]);
            }
        }
        assert(!spec_fifo_contains(q.fifo@, ii)) by {
            if spec_fifo_contains(q.fifo@, ii) {
                let k = choose|k: int| 0 <= k < q.fifo@.len() && q.fifo@[k] as int == ii;
                assert(p.fifo@[k + 1] as int == ii);
                assert(p.fifo@[0] as int == ii);
                assert(false);
            }
        }
        assert forall|j: int|
            0 <= j < q.slots@.len() && (#[trigger] q.slots@[j]).queued implies
            !spec_fifo_contains(q.fifo@, j) && !q.slots@[j].held by {
            if j == ii {
                assert(!spec_fifo_contains(q.fifo@, ii));
                assert(!p.slots@[ii].held);
            } else {
                assert(q.slots@[j] == p.slots@[j]);
                assert(!spec_fifo_contains(p.fifo@, j) && !p.slots@[j].held);
                if spec_fifo_contains(q.fifo@, j) {
                    let k = choose|k: int| 0 <= k < q.fifo@.len() && q.fifo@[k] as int == j;
                    assert(p.fifo@[k + 1] as int == j);
                    assert(spec_fifo_contains(p.fifo@, j));
                }
            }
        }
        assert forall|j: int|
            0 <= j < q.slots@.len() && (#[trigger] q.slots@[j]).held implies spec_fifo_contains(
            q.fifo@,
            j,
        ) by {
            assert(q.slots@[j] == p.slots@[j]);
            assert(p.slots@[j].held);
            assert(spec_fifo_contains(p.fifo@, j));
            assert(j != ii);
            let k = choose|k: int| 0 <= k < p.fifo@.len() && p.fifo@[k] as int == j;
            assert(k != 0);
            assert(q.fifo@[k - 1] as int == j);
        }
        if q.on || spec_primed(p.slots@, p.fifo@) {
            assert forall|j: int| 0 <= j < q.slots@.len() implies (#[trigger] q.slots@[j]).queued
                || spec_fifo_contains(q.fifo@, j) by {
                if j != ii {
                    assert(q.slots@[j] == p.slots@[j]);
                    assert(p.slots@[j].queued || spec_fifo_contains(p.fifo@, j));
                    if !p.slots@[j].queued {
                        let k = choose|k: int| 0 <= k < p.fifo@.len() && p.fifo@[k] as int == j;
                        assert(k != 0);
                        assert(q.fifo@[k - 1] as int == j);
                    }
                }
            }
        }
        assert forall|j: int| 0 <= j < p.spec_len() implies #[trigger] q.spec_held(j)
            == p.spec_held(j) by {
            if j != ii {
                assert(q.slots@[j] == p.slots@[j]);
            }
        }
    }

    /// Along a chain of submission confirmations, well-formedness, full
    /// accounting, the absence of holds and the stream state all carry
    /// through to the last state.
    proof fn lemma_confirm_chain(states: Seq<QueueData>)
        requires
            states.len() >= 1,
            states[0].spec_wf(),
            spec_primed(states[0].slots@, states[0].fifo@),
            forall|i: int| 0 <= i < states[0].spec_len() ==> !states[0].spec_held(i),
            forall|j: int|
                0 <= j < states.len() - 1 ==> spec_confirms_to(#[trigger] states[j], states[j + 1]),
        ensures
            states.last().spec_wf(),
            spec_primed(states.last().slots@, states.last().fifo@),
            forall|i: int| 0 <= i < states.last().spec_len() ==> !states.last().spec_held(i),
            states.last().on == states[0].on,
            states.last().spec_len() == states[0].spec_len(),
        decreases states.len(),
    {
        if states.len() > 1 {
            assert(spec_confirms_to(states[0], states[1]));
            Self::lemma_confirm_preserves(states[0], states[1]);
            assert forall|i: int| 0 <= i < states[1].spec_len() implies !states[1].spec_held(
                i,
            ) by {
                assert(states[1].spec_held(i) == states[0].spec_held(i));
            }
            let rest = states.drop_first();
            assert forall|j: int|
                0 <= j < rest.len() - 1 implies spec_confirms_to(#[trigger] rest[j], rest[j + 1]) by {
                assert(spec_confirms_to(states[j + 1], states[j + 2]));
            }
            Self::lemma_confirm_chain(rest);
            assert(rest.last() == states.last());
        }
    }

    /// Capture start-up round trip, for a pool of any size: from a fresh
    /// capture pool — nothing queued, nothing held, empty ready queue —
    /// the priming sweep fills the ready queue, one submission
    /// confirmation per entry drains it, and starting the stream then
    /// leaves a streaming pool in which every slot has been submitted to
    /// the driver.
    pub proof fn lemma_capture_start_round_trip(states: Seq<QueueData>, started: QueueData)
        requires
            states.len() >= 2,
            states[0].spec_wf(),
            !states[0].on,
            states[0].fifo@.len() == 0,
            forall|i: int|
                0 <= i < states[0].spec_len() ==> !(#[trigger] states[0].spec_queued(i))
                    && !states[0].spec_held(i),
            spec_primes_to(states[0], states[1]),
            forall|j: int|
                1 <= j < states.len() - 1 ==> spec_confirms_to(#[trigger] states[j], states[j + 1]),
            states.last().fifo@.len() == 0,
            started == (QueueData { on: true, ..states.last() }),
        ensures
            started.spec_wf(),
            started.on,
            started.spec_len() == states[0].spec_len(),
            started.spec_all_queued(),
    {
        Self::lemma_prime_preserves(states[0], states[1]);
        assert forall|i: int| 0 <= i < states[1].spec_len() implies !states[1].spec_held(i) by {
            assert(states[1].spec_held(i) == states[0].spec_held(i));
        }
        let chain = states.drop_first();
        assert forall|j: int|
            0 <= j < chain.len() - 1 implies spec_confirms_to(#[trigger] chain[j], chain[j + 1]) by {
            assert(spec_confirms_to(states[j + 1], states[j + 2]));
        }
        Self::lemma_confirm_chain(chain);
        let last = states.last();
        assert(chain.last() == last);
        assert forall|i: int| 0 <= i < last.spec_len() implies #[trigger] last.spec_queued(i) by {
            assert(last.slots@[i].queued || spec_fifo_contains(last.fifo@, i));
            if spec_fifo_contains(last.fifo@, i) {
                let k = choose|k: int| 0 <= k < last.fifo@.len() && last.fifo@[k] as int == i;
                assert(false);
            }
        }
        assert(started.spec_wf()) by {
            assert(spec_core_wf(started.slots@, started.fifo@, started.buffer_type, started.memory))
                by {
                assert(spec_core_wf(last.slots@, last.fifo@, last.buffer_type, last.memory));
            }
            assert(spec_primed(started.slots@, started.fifo@)) by {
                assert forall|i: int| 0 <= i < started.slots@.len() implies (#[trigger] started
                    .slots@[i]).queued || spec_fifo_contains(started.fifo@, i) by {
                    assert(last.spec_queued(i));
                }
            }
        }
        assert forall|i: int| 0 <= i < started.spec_len() implies #[trigger] started.spec_queued(
            i,
        ) by {
            assert(last.spec_queued(i));
        }
    }

    /// First acquisition after a capture start, for a pool of any size:
    /// when the driver completes slot `i` on a fully submitted pool with
    /// an empty ready queue, that slot comes back with its driver
    /// ownership cleared and held by the caller, the ready queue holds
    /// exactly `i`, and every other slot stays with the driver; once `i`
    /// is released, it is the resubmission candidate — so it is submitted
    /// before any new dequeue is requested.
    pub proof fn lemma_first_acquisition_round_trip(
        p: QueueData,
        q: QueueData,
        d: Buffer,
        rel: QueueData,
    )
        requires
            p.spec_wf(),
            p.on,
            p.fifo@.len() == 0,
            p.spec_all_queued(),
            p.spec_complete_ok(d),
            // `q` is `p` after the completion of `d`, as `complete` leaves it
            q.fifo@ == p.fifo@.push(d.index),
            q.slots@ == p.slots@.update(
                d.index as int,
                Self::spec_merged(p.slots@[d.index as int], d),
            ),
            // `rel` is `q` after the handle to `d`'s slot was released
            rel.fifo@ == q.fifo@,
            rel.slots@ == q.slots@.update(
                d.index as int,
                BufferSlot { held: false, ..q.slots@[d.index as int] },
            ),
        ensures
            q.fifo@.len() == 1 && q.fifo@[0] == d.index,
            q.spec_held(d.index as int),
            !q.spec_queued(d.index as int),
            forall|j: int|
                0 <= j < q.spec_len() && j != d.index ==> #[trigger] q.spec_queued(j),
            rel.spec_ready_front() == Some(d.index),
    {
        assert forall|j: int| 0 <= j < q.spec_len() && j != d.index implies #[trigger] q
            .spec_queued(j) by {
            assert(q.slots@[j] == p.slots@[j]);
            assert(p.spec_queued(j));
        }
        assert(rel.fifo@[0] == d.index);
        assert(!rel.spec_held(d.index as int));
    }

    /// Number of entries in the ready queue.
    pub fn fifo_len(&self) -> (r: usize)
        ensures
            r == self.fifo@.len(),
    {
        self.fifo.len()
    }

    /// The entry of the ready queue at position `k` (front is position 0).
    pub fn fifo_at(&self, k: usize) -> (r: u32)
        requires
            k < self.fifo@.len(),
        ensures
            r == self.fifo@[k as int],
    {
        self.fifo[k]
    }
}

} // verus!
