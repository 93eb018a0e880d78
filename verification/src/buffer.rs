//! One physical buffer of a streaming pool: its kernel-visible descriptor,
//! its backing memory region, and its bookkeeping state.

use vstd::prelude::*;

use crate::types::{
    BufferFlag, BufferType, Field, Memory, BUF_FLAG_QUEUED, BUF_FLAG_TIMECODE,
};

verus! {

/// A point in time, in seconds and microseconds.
#[derive(Clone, Copy, Debug, PartialEq, Eq, Structural)]
pub struct TimeVal {
    pub sec: i64,
    pub usec: i64,
}

impl TimeVal {
    /// The zero instant.
    pub fn zero() -> (r: TimeVal)
        ensures
            r.sec == 0 && r.usec == 0,
    {
        TimeVal { sec: 0, usec: 0 }
    }
}

/// A time code attached to a frame.
#[derive(Clone, Copy, Debug, PartialEq, Eq, Structural)]
pub struct TimeCode {
    /// Frame-rate code of the time code.
    pub type_: u32,
    /// Flag bits of the time code.
    pub flags: u32,
    pub frames: u8,
    pub seconds: u8,
    pub minutes: u8,
    pub hours: u8,
}

impl TimeCode {
    /// The all-zero time code.
    pub fn zero() -> (r: TimeCode)
        ensures
            r == (TimeCode { type_: 0, flags: 0, frames: 0, seconds: 0, minutes: 0, hours: 0 }),
    {
        TimeCode { type_: 0, flags: 0, frames: 0, seconds: 0, minutes: 0, hours: 0 }
    }
}

/// Where the driver finds the buffer's memory; the variant is keyed by the
/// pool's memory strategy.
#[derive(Clone, Copy, Debug, PartialEq, Eq, Structural)]
pub enum BufferM {
    /// Offset into the device file at which the driver exposes the buffer
    /// (memory-mapped strategy).
    Offset(u32),
    /// The buffer lives in memory that the application allocated
    /// (user-pointer strategy); written by `attach` before each submission.
    UserRegion,
    /// Not filled in yet.
    Blank,
}

/// Kernel-visible metadata of one buffer.  Mutated only by the
/// request/query/queue/dequeue protocol of the pool, never built ad hoc by
/// callers.
#[derive(Clone, Copy, Debug, PartialEq, Eq, Structural)]
pub struct Buffer {
    /// Position of the buffer inside its pool; stable for the pool's
    /// lifetime.
    pub index: u32,
    /// Buffer type of the pool that owns the buffer.
    pub type_: BufferType,
    /// Number of bytes in use.
    pub bytes_used: u32,
    /// Status bits reported by the driver.
    pub flags: BufferFlag,
    /// Field parity of the frame.
    pub field: Field,
    /// Time at which the driver completed the buffer.
    pub timestamp: TimeVal,
    /// Time code of the frame; meaningful only when the time-code flag is
    /// set.
    pub timecode: TimeCode,
    /// Sequence number assigned by the driver.
    pub sequence: u32,
    /// Memory strategy of the pool that owns the buffer.
    pub memory: Memory,
    /// Location of the buffer's memory.
    pub m: BufferM,
    /// Byte capacity of the buffer.
    pub length: u32,
}

impl Buffer {
    /// Whether the driver currently owns the buffer.
    pub open spec fn spec_is_queued(self) -> bool {
        self.flags.spec_contains(BUF_FLAG_QUEUED)
    }

    /// Whether the time-code field is valid.
    pub open spec fn spec_has_timecode(self) -> bool {
        self.flags.spec_contains(BUF_FLAG_TIMECODE)
    }

    /// Instantiate a blank descriptor for one slot of a pool.
    pub fn new(type_: BufferType, memory: Memory, index: u32) -> (r: Buffer)
        ensures
            r.index == index,
            r.type_ == type_,
            r.memory == memory,
            r.bytes_used == 0,
            r.flags.bits == 0,
            r.field == Field::Any,
            r.timestamp == (TimeVal { sec: 0, usec: 0 }),
            r.timecode == (TimeCode { type_: 0, flags: 0, frames: 0, seconds: 0, minutes: 0, hours: 0 }),
            r.sequence == 0,
            r.m == BufferM::Blank,
            r.length == 0,
            !r.spec_is_queued(),
            !r.spec_has_timecode(),
    {
        let r = Buffer {
            index,
            type_,
            bytes_used: 0,
            flags: BufferFlag::none(),
            field: Field::Any,
            timestamp: TimeVal::zero(),
            timecode: TimeCode::zero(),
            sequence: 0,
            memory,
            m: BufferM::Blank,
            length: 0,
        };
        proof {
            crate::types::lemma_flag_zero_contains(BUF_FLAG_QUEUED);
            crate::types::lemma_flag_zero_contains(BUF_FLAG_TIMECODE);
        }
        r
    }

    /// Is buffer locked by driver
    pub fn is_queued(&self) -> (r: bool)
        ensures
            r == self.spec_is_queued(),
    {
        self.flags.contains(BUF_FLAG_QUEUED)
    }

    /// Buffer has time code
    pub fn has_timecode(&self) -> (r: bool)
        ensures
            r == self.spec_has_timecode(),
    {
        self.flags.contains(BUF_FLAG_TIMECODE)
    }

    /// Buffer time code
    pub fn timecode(&self) -> (r: Option<TimeCode>)
        ensures
            r == if self.spec_has_timecode() {
                Option::Some(self.timecode)
            } else {
                Option::None::<TimeCode>
            },
    {
        if self.has_timecode() {
            Some(self.timecode)
        } else {
            None
        }
    }

    /// Set time code
    pub fn set_timecode(&mut self, timecode: Option<TimeCode>)
        ensures
            match timecode {
                Option::Some(tc) => {
                    &&& final(self).timecode == tc
                    &&& final(self).flags == old(self).flags.spec_with(BUF_FLAG_TIMECODE)
                    &&& final(self).spec_has_timecode()
                },
                Option::None => {
                    &&& final(self).timecode == (TimeCode {
                        type_: 0, flags: 0, frames: 0, seconds: 0, minutes: 0, hours: 0,
                    })
                    &&& final(self).flags == old(self).flags.spec_without(BUF_FLAG_TIMECODE)
                    &&& !final(self).spec_has_timecode()
                },
            },
            final(self).index == old(self).index,
            final(self).type_ == old(self).type_,
            final(self).bytes_used == old(self).bytes_used,
            final(self).field == old(self).field,
            final(self).timestamp == old(self).timestamp,
            final(self).sequence == old(self).sequence,
            final(self).memory == old(self).memory,
            final(self).m == old(self).m,
            final(self).length == old(self).length,
    {
        match timecode {
            Some(tc) => {
                self.timecode = tc;
                self.flags = self.flags.with(BUF_FLAG_TIMECODE);
                proof {
                    crate::types::lemma_flag_with(old(self).flags.bits, BUF_FLAG_TIMECODE);
                }
            }
            None => {
                self.timecode = TimeCode::zero();
                self.flags = self.flags.without(BUF_FLAG_TIMECODE);
                proof {
                    crate::types::lemma_flag_without(old(self).flags.bits, BUF_FLAG_TIMECODE);
                }
            }
        }
    }

    /// Set timestamp
    pub fn set_timestamp(&mut self, time: TimeVal)
        ensures
            *final(self) == (Buffer { timestamp: time, ..*old(self) }),
    {
        self.timestamp = time;
    }

    /// Get timestamp
    pub fn timestamp(&self) -> (r: TimeVal)
        ensures
            r == self.timestamp,
    {
        self.timestamp
    }

    /// Clear the queued flag: the driver has given the buffer back without
    /// a per-buffer call (stopping the stream releases every buffer).
    pub fn mark_dequeued(&mut self)
        ensures
            *final(self) == (Buffer {
                flags: old(self).flags.spec_without(BUF_FLAG_QUEUED),
                ..*old(self)
            }),
            !final(self).spec_is_queued(),
    {
        self.flags = self.flags.without(BUF_FLAG_QUEUED);
        proof {
            crate::types::lemma_flag_without(old(self).flags.bits, BUF_FLAG_QUEUED);
        }
    }

    /// Set the queued flag: the driver has accepted the buffer.
    pub fn mark_queued(&mut self)
        ensures
            *final(self) == (Buffer {
                flags: old(self).flags.spec_with(BUF_FLAG_QUEUED),
                ..*old(self)
            }),
            final(self).spec_is_queued(),
    {
        self.flags = self.flags.with(BUF_FLAG_QUEUED);
        proof {
            crate::types::lemma_flag_with(old(self).flags.bits, BUF_FLAG_QUEUED);
        }
    }
}

/// The memory behind one buffer slot, owned by the slot for its entire
/// lifetime: acquired once when the pool is built and given up exactly once
/// when the pool is torn down.
#[derive(Debug)]
pub enum MemRegion {
    /// A window of the device file, mapped by the embedding program; the
    /// model tracks its placement and size.
    Mapped { offset: u32, length: u32 },
    /// Memory allocated by this process and handed to the driver by
    /// address.
    User { data: Vec<u8> },
}

impl MemRegion {
    /// Length of the region in bytes.
    pub open spec fn spec_len(self) -> nat {
        match self {
            MemRegion::Mapped { offset, length } => length as nat,
            MemRegion::User { data } => data@.len(),
        }
    }

    /// Whether the region belongs to the memory-mapped strategy.
    pub open spec fn spec_is_mapped(self) -> bool {
        self is Mapped
    }

    /// Whether the region fits the given memory strategy.
    pub open spec fn spec_matches(self, memory: Memory) -> bool {
        match self {
            MemRegion::Mapped { .. } => memory == Memory::Mmap,
            MemRegion::User { .. } => memory == Memory::UserPtr,
        }
    }

    /// Obtain the backing memory for one buffer, as the strategy directs:
    /// the mapped strategy takes the window of the device file that the
    /// descriptor names, the user-pointer strategy allocates fresh
    /// zero-filled process memory.  Either way the region's length equals
    /// the descriptor's byte capacity.
    pub fn init(memory: Memory, desc: &Buffer) -> (r: MemRegion)
        requires
            memory == Memory::Mmap || memory == Memory::UserPtr,
            memory == Memory::Mmap ==> desc.m is Offset,
        ensures
            r.spec_len() == desc.length,
            r.spec_matches(memory),
            memory == Memory::Mmap ==> r == (MemRegion::Mapped {
                offset: desc.m->Offset_0,
                length: desc.length,
            }),
            memory == Memory::UserPtr ==> match r {
                MemRegion::User { data } => forall|k: int|
                    0 <= k < data@.len() ==> data@[k] == 0u8,
                _ => false,
            },
    {
        match memory {
            Memory::Mmap => {
                let offset = match desc.m {
                    BufferM::Offset(o) => o,
                    _ => 0,
                };
                MemRegion::Mapped { offset, length: desc.length }
            }
            _ => MemRegion::User { data: zero_vec(desc.length) },
        }
    }

    /// The bytes of a user-allocated region; the empty sequence for a
    /// mapped region, whose bytes live outside this model.
    pub open spec fn spec_user_data(self) -> Seq<u8> {
        match self {
            MemRegion::User { data } => data@,
            MemRegion::Mapped { .. } => Seq::empty(),
        }
    }

    /// Read one byte of a user-allocated region.
    pub fn read_at(&self, pos: usize) -> (r: u8)
        requires
            self is User,
            pos < self.spec_len(),
        ensures
            r == self.spec_user_data()[pos as int],
    {
        match self {
            MemRegion::User { data } => data[pos],
            MemRegion::Mapped { .. } => 0,
        }
    }

    /// Write one byte of a user-allocated region.
    pub fn write_at(&mut self, pos: usize, byte: u8)
        requires
            *old(self) is User,
            pos < old(self).spec_len(),
        ensures
            *final(self) is User,
            final(self).spec_len() == old(self).spec_len(),
            final(self).spec_user_data() == old(self).spec_user_data().update(pos as int, byte),
    {
        match self {
            MemRegion::User { data } => {
                data[pos] = byte;
            }
            MemRegion::Mapped { .. } => {}
        }
    }

    /// Length of the region in bytes.
    pub fn len(&self) -> (r: usize)
        ensures
            r == self.spec_len(),
    {
        match self {
            MemRegion::Mapped { offset, length } => *length as usize,
            MemRegion::User { data } => data.len(),
        }
    }
}

/// A zero-filled byte vector of the given length.
fn zero_vec(len: u32) -> (r: Vec<u8>)
    ensures
        r@.len() == len,
        forall|k: int| 0 <= k < r@.len() ==> r@[k] == 0u8,
{
    let mut data: Vec<u8> = Vec::new();
    let mut i: u32 = 0;
    while i < len
        invariant
            i <= len,
            data@.len() == i,
            forall|k: int| 0 <= k < data@.len() ==> data@[k] == 0u8,
        decreases len - i,
    {
        data.push(0u8);
        i = i + 1;
    }
    data
}

/// One slot of a buffer pool: a descriptor, its backing memory, and the
/// bookkeeping that the pool maintains about it.
#[derive(Debug)]
pub struct BufferSlot {
    /// The kernel-visible descriptor of the buffer.
    pub buffer: Buffer,
    /// The memory behind the buffer, valid for the slot's entire lifetime.
    pub region: MemRegion,
    /// Whether the driver currently owns the buffer; must agree with the
    /// descriptor's queued flag.
    pub queued: bool,
    /// Whether an application handle currently holds exclusive access to
    /// the buffer's memory.
    pub held: bool,
}

impl BufferSlot {
    /// Internal consistency of one slot at position `index` of a pool with
    /// the given type and strategy.
    pub open spec fn spec_wf(self, index: int, type_: BufferType, memory: Memory) -> bool {
        &&& self.buffer.index == index
        &&& self.buffer.type_ == type_
        &&& self.buffer.memory == memory
        &&& self.region.spec_matches(memory)
        &&& self.region.spec_len() == self.buffer.length
        &&& self.queued == self.buffer.spec_is_queued()
        &&& self.buffer.bytes_used <= self.buffer.length
    }
}

} // verus!
