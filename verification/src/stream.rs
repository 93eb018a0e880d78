//! The stream handle: a buffer pool together with the acquisition
//! protocol that cycles its slots between the driver and the application.
//!
//! Acquiring the next buffer is a short dialogue with the device driver.
//! The pool decides, the embedding program performs one device call per
//! decision and reports what happened:
//!
//! * `step(Begin)` opens an acquisition and returns the first action;
//! * `Queue(i)` asks for a queue-buffer call for slot `i`, with the
//!   descriptor that `prepare_submit` hands out; its success is reported
//!   with `step(Queued)`;
//! * `StreamOn` asks for a stream-on call; its success is reported with
//!   `step(StreamedOn)`;
//! * `Dequeue` asks for a dequeue-buffer call; the descriptor it returns
//!   is handed back with `step(Completed(desc))`;
//! * `Yield(i)` ends the acquisition: slot `i` is held by the caller, who
//!   releases it with `release(i)` when done with its memory.
//!
//! A capture pool primes and submits every free slot and starts the
//! stream before the first dequeue; an output pool hands out unused slots
//! while the stream is off — so the application can fill buffers before
//! anything is submitted — and starts the stream only when no unused slot
//! remains.  `step`'s contract fixes each event's state change exactly
//! (the priming, confirmation, hand-out and stop relations of the pool),
//! and only the `Completed` event can fail, so a verified caller can
//! drive the whole dialogue.

use vstd::prelude::*;

use crate::buffer::{Buffer, BufferM, BufferSlot};
use crate::pool::{
    spec_acquires_to, spec_confirms_to, spec_fifo_contains, spec_offs_to, spec_primed,
    spec_primes_to, QueueData,
};
use crate::types::{ContentType, Direction, Memory};
use crate::utils::Error;

verus! {

/// What the embedding program must do next to advance an acquisition.
#[derive(Clone, Copy, Debug, PartialEq, Eq, Structural)]
pub enum StreamAction {
    /// Issue the queue-buffer call for this slot, with the descriptor
    /// that `prepare_submit` hands out; report success with
    /// `StreamEvent::Queued`.
    Queue(u32),
    /// Issue the stream-on call; report success with
    /// `StreamEvent::StreamedOn`.
    StreamOn,
    /// Issue the dequeue-buffer call; report its descriptor with
    /// `StreamEvent::Completed`.
    Dequeue,
    /// The acquisition is finished: this slot is held by the caller.
    Yield(u32),
}

/// What the embedding program reports back to the pool.
#[derive(Clone, Copy, Debug, PartialEq, Eq, Structural)]
pub enum StreamEvent {
    /// A new acquisition begins.
    Begin,
    /// The requested queue-buffer call succeeded.
    Queued,
    /// The requested stream-on call succeeded.
    StreamedOn,
    /// The requested dequeue-buffer call returned this descriptor.
    Completed(Buffer),
}

/// The action an acquisition step takes, as a function of the pool's
/// state: resubmission of the ready front comes first; then a running
/// stream turns to the driver for a completed buffer; an idle capture
/// pool starts the stream; an idle output pool hands out the lowest-index
/// free slot, and starts the stream only when none is free.
pub open spec fn spec_decision(q: QueueData) -> StreamAction {
    match q.spec_ready_front() {
        Some(i) => StreamAction::Queue(i),
        None => if q.on {
            StreamAction::Dequeue
        } else if q.dir == Direction::In {
            StreamAction::StreamOn
        } else {
            match q.spec_first_free() {
                Some(i) => StreamAction::Yield(i),
                None => StreamAction::StreamOn,
            }
        },
    }
}

/// A stream: the buffer pool of one open device queue, driven by the
/// acquisition dialogue above.
pub struct Stream {
    /// The pool of driver-backed buffers behind the stream.
    pub queue: QueueData,
}

impl Stream {
    /// Well-formedness of the stream.
    pub open spec fn spec_wf(self) -> bool {
        self.queue.spec_wf()
    }

    /// Build a stream over a freshly negotiated buffer pool; see
    /// `QueueData::new` for what the driver-reported descriptors must look
    /// like.  Each slot starts from the driver's descriptor for it, with
    /// no bytes in use and no driver ownership.
    pub fn new(
        dir: Direction,
        content_type: ContentType,
        memory: Memory,
        descs: Vec<Buffer>,
    ) -> (r: Result<Stream, Error>)
        ensures
            match r {
                Ok(s) => {
                    &&& QueueData::spec_descs_ok(
                        dir.spec_buffer_type(content_type),
                        memory,
                        descs@,
                    )
                    &&& s.spec_wf()
                    &&& s.queue.dir == dir
                    &&& s.queue.memory == memory
                    &&& s.queue.buffer_type == dir.spec_buffer_type(content_type)
                    &&& s.queue.spec_len() == descs@.len()
                    &&& !s.queue.on
                    &&& s.queue.fifo@.len() == 0
                    &&& forall|i: int|
                        0 <= i < s.queue.spec_len() ==> !(#[trigger] s.queue.spec_queued(i))
                            && !s.queue.spec_held(i)
                    &&& forall|i: int|
                        0 <= i < s.queue.spec_len() ==> (#[trigger] s.queue.slots@[i]).buffer
                            == QueueData::spec_fresh_buffer(descs@[i])
                },
                Err(e) => {
                    &&& !QueueData::spec_descs_ok(
                        dir.spec_buffer_type(content_type),
                        memory,
                        descs@,
                    )
                    &&& e.kind == if !(memory == Memory::Mmap || memory == Memory::UserPtr)
                        || descs@.len() > u32::MAX {
                        crate::utils::ErrorKind::InvalidInput
                    } else {
                        crate::utils::ErrorKind::InvalidData
                    }
                },
            },
    {
        match QueueData::new(dir, content_type, memory, descs) {
            Ok(queue) => Ok(Stream { queue }),
            Err(e) => Err(e),
        }
    }

    /// Decide the next action of an acquisition from the pool's state, as
    /// `spec_decision` lists the cases.  Only the hand-out of an unused
    /// slot changes the pool; every other decision leaves it untouched.
    fn decide(&mut self) -> (r: StreamAction)
        requires
            old(self).spec_wf(),
            old(self).queue.dir == Direction::In && !old(self).queue.on ==> spec_primed(
                old(self).queue.slots@,
                old(self).queue.fifo@,
            ),
        ensures
            final(self).spec_wf(),
            r == spec_decision(old(self).queue),
            match r {
                StreamAction::Queue(i) => {
                    &&& *final(self) == *old(self)
                    &&& old(self).queue.spec_ready_front() == Some(i)
                },
                StreamAction::StreamOn => {
                    &&& *final(self) == *old(self)
                    &&& !old(self).queue.on
                    &&& old(self).queue.spec_ready_front() is None
                    &&& spec_primed(old(self).queue.slots@, old(self).queue.fifo@)
                },
                StreamAction::Dequeue => {
                    &&& *final(self) == *old(self)
                    &&& old(self).queue.on
                    &&& old(self).queue.spec_ready_front() is None
                },
                StreamAction::Yield(i) => {
                    &&& spec_acquires_to(old(self).queue, final(self).queue, i)
                    &&& old(self).queue.dir == Direction::Out
                    &&& !old(self).queue.on
                    &&& !final(self).queue.on
                    &&& old(self).queue.spec_ready_front() is None
                    &&& final(self).queue.spec_held(i as int)
                    &&& !final(self).queue.spec_queued(i as int)
                },
            },
    {
        if let Some(i) = self.queue.ready_front() {
            return StreamAction::Queue(i);
        }
        if self.queue.is_on() {
            return StreamAction::Dequeue;
        }
        if matches!(self.queue.direction(), Direction::In) {
            StreamAction::StreamOn
        } else {
            if let Some(i) = self.queue.acquire_unused() {
                proof {
                    let q = *self;
                    assert(!q.queue.spec_queued(i as int));
                    assert(q.queue.spec_held(i as int));
                }
                return StreamAction::Yield(i);
            }
            proof {
                let q = *self;
                assert forall|j: int| 0 <= j < q.queue.slots@.len() implies (#[trigger] q.queue
                    .slots@[j]).queued || spec_fifo_contains(q.queue.fifo@, j) by {
                    assert(!q.queue.spec_free(j));
                    if q.queue.slots@[j].held {
                        assert(spec_fifo_contains(q.queue.fifo@, j));
                    }
                }
            }
            StreamAction::StreamOn
        }
    }

    /// Attach the backing memory to the descriptor at the front of the
    /// ready queue and hand the descriptor out for the queue-buffer call.
    /// Nothing but that slot's memory-location field changes, so the
    /// front stays the resubmission candidate and a primed pool stays
    /// primed.
    pub fn prepare_submit(&mut self) -> (r: Buffer)
        requires
            old(self).spec_wf(),
            old(self).queue.spec_ready_front() is Some,
        ensures
            final(self).spec_wf(),
            ({
                let i = old(self).queue.fifo@[0] as int;
                let attached = Buffer {
                    m: if old(self).queue.memory == Memory::UserPtr {
                        BufferM::UserRegion
                    } else {
                        old(self).queue.slots@[i].buffer.m
                    },
                    ..old(self).queue.slots@[i].buffer
                };
                &&& r == attached
                &&& final(self).queue.slots@ == old(self).queue.slots@.update(
                    i,
                    BufferSlot { buffer: attached, ..old(self).queue.slots@[i] },
                )
            }),
            final(self).queue.fifo == old(self).queue.fifo,
            final(self).queue.on == old(self).queue.on,
            final(self).queue.buffer_type == old(self).queue.buffer_type,
            final(self).queue.memory == old(self).queue.memory,
            final(self).queue.dir == old(self).queue.dir,
            final(self).queue.spec_len() == old(self).queue.spec_len(),
            final(self).queue.spec_ready_front() == old(self).queue.spec_ready_front(),
            final(self).queue.memory == Memory::UserPtr ==> r.m == BufferM::UserRegion,
            spec_primed(old(self).queue.slots@, old(self).queue.fifo@) ==> spec_primed(
                final(self).queue.slots@,
                final(self).queue.fifo@,
            ),
    {
        let r = self.queue.prepare_submit();
        proof {
            let p = *old(self);
            let q = *self;
            let f = p.queue.fifo@[0] as int;
            assert(q.queue.spec_held(f) == p.queue.spec_held(f));
            if spec_primed(p.queue.slots@, p.queue.fifo@) {
                assert forall|j: int| 0 <= j < q.queue.slots@.len() implies (#[trigger] q.queue
                    .slots@[j]).queued || spec_fifo_contains(q.queue.fifo@, j) by {
                    assert(p.queue.slots@[j].queued || spec_fifo_contains(p.queue.fifo@, j));
                    if j != f {
                        assert(q.queue.slots@[j] == p.queue.slots@[j]);
                    }
                }
            }
        }
        r
    }

    /// Advance an acquisition by one event of the dialogue.  The event
    /// must answer the action that the previous step requested: `Queued`
    /// answers `Queue`, `StreamedOn` answers `StreamOn`, `Completed`
    /// answers `Dequeue`, and `Begin` opens a new acquisition.
    ///
    /// Only the `Completed` event can fail — the driver's reported index
    /// must name a slot the pool considered driver-owned and unheld;
    /// every other event succeeds, with its state change fixed exactly:
    /// `Begin` on an idle capture pool performs the priming sweep and
    /// otherwise changes nothing; `Queued` performs exactly the front
    /// confirmation; `StreamedOn` starts the stream and changes nothing
    /// else; and the returned action is the decision of the resulting
    /// state, with an unused-slot hand-out folded into the step that
    /// yields it.  With no slot held, a `Dequeue` action means every slot
    /// of the pool has been submitted.
    pub fn step(&mut self, event: StreamEvent) -> (r: Result<StreamAction, Error>)
        requires
            old(self).spec_wf(),
            event == StreamEvent::Queued ==> old(self).queue.spec_ready_front() is Some,
            event == StreamEvent::Queued && old(self).queue.dir == Direction::In && !old(
                self,
            ).queue.on ==> spec_primed(old(self).queue.slots@, old(self).queue.fifo@),
            event == StreamEvent::StreamedOn ==> spec_primed(
                old(self).queue.slots@,
                old(self).queue.fifo@,
            ) && old(self).queue.spec_ready_front() is None,
            event matches StreamEvent::Completed(_) ==> old(self).queue.on,
        ensures
            final(self).spec_wf(),
            final(self).queue.buffer_type == old(self).queue.buffer_type,
            final(self).queue.memory == old(self).queue.memory,
            final(self).queue.dir == old(self).queue.dir,
            final(self).queue.spec_len() == old(self).queue.spec_len(),
            !(event matches StreamEvent::Completed(_)) ==> r is Ok,
            event == StreamEvent::Begin && old(self).queue.dir == Direction::In && !old(
                self,
            ).queue.on ==> spec_primed(final(self).queue.slots@, final(self).queue.fifo@),
            event == StreamEvent::Queued && final(self).queue.dir == Direction::In
                && !final(self).queue.on ==> spec_primed(
                final(self).queue.slots@,
                final(self).queue.fifo@,
            ),
            event == StreamEvent::Begin ==> if old(self).queue.dir == Direction::In && !old(
                self,
            ).queue.on {
                &&& spec_primes_to(old(self).queue, final(self).queue)
                &&& r == Ok::<StreamAction, Error>(spec_decision(final(self).queue))
            } else {
                &&& r == Ok::<StreamAction, Error>(spec_decision(old(self).queue))
                &&& match spec_decision(old(self).queue) {
                    StreamAction::Yield(i) => spec_acquires_to(
                        old(self).queue,
                        final(self).queue,
                        i,
                    ),
                    _ => *final(self) == *old(self),
                }
            },
            event == StreamEvent::Queued ==> match r {
                Ok(action) => match action {
                    StreamAction::Yield(i) => exists|mid: QueueData|
                        {
                            &&& #[trigger] spec_confirms_to(old(self).queue, mid)
                            &&& spec_acquires_to(mid, final(self).queue, i)
                            &&& spec_decision(mid) == StreamAction::Yield(i)
                        },
                    _ => spec_confirms_to(old(self).queue, final(self).queue) && action
                        == spec_decision(final(self).queue),
                },
                Err(_) => false,
            },
            event == StreamEvent::StreamedOn ==> {
                &&& r == Ok::<StreamAction, Error>(StreamAction::Dequeue)
                &&& final(self).queue.on
                &&& final(self).queue.slots == old(self).queue.slots
                &&& final(self).queue.fifo == old(self).queue.fifo
            },
            event matches StreamEvent::Completed(d) ==> match r {
                Ok(a) => {
                    &&& a == StreamAction::Yield(d.index)
                    &&& old(self).queue.spec_complete_ok(d)
                    &&& final(self).queue.fifo@ == old(self).queue.fifo@.push(d.index)
                    &&& final(self).queue.slots@ == old(self).queue.slots@.update(
                        d.index as int,
                        QueueData::spec_merged(old(self).queue.slots@[d.index as int], d),
                    )
                    &&& final(self).queue.on == old(self).queue.on
                },
                Err(_) => !old(self).queue.spec_complete_ok(d) && *final(self) == *old(self),
            },
            match r {
                Ok(action) => match action {
                    StreamAction::Queue(i) => final(self).queue.spec_ready_front() == Some(i),
                    StreamAction::StreamOn => {
                        &&& !final(self).queue.on
                        &&& final(self).queue.spec_ready_front() is None
                        &&& spec_primed(final(self).queue.slots@, final(self).queue.fifo@)
                    },
                    StreamAction::Dequeue => {
                        &&& final(self).queue.on
                        &&& final(self).queue.spec_ready_front() is None
                        &&& (final(self).queue.spec_none_held()
                            ==> final(self).queue.spec_all_queued())
                    },
                    StreamAction::Yield(i) => {
                        &&& (i as int) < final(self).queue.spec_len()
                        &&& final(self).queue.spec_held(i as int)
                        &&& !final(self).queue.spec_queued(i as int)
                        &&& (!old(self).queue.on ==> !final(self).queue.on && old(
                            self,
                        ).queue.spec_free(i as int))
                    },
                },
                Err(e) => e.kind == crate::utils::ErrorKind::ProtocolViolation,
            },
    {
        match event {
            StreamEvent::Begin => {
                if matches!(self.queue.direction(), Direction::In) {
                    if !self.queue.is_on() {
                        self.queue.dequeue_all();
                        proof {
                            assert(spec_primed(self.queue.slots@, self.queue.fifo@)) by {
                                assert forall|j: int| 0 <= j < self.queue.slots@.len() implies (
                                #[trigger] self.queue.slots@[j]).queued || spec_fifo_contains(
                                    self.queue.fifo@,
                                    j,
                                ) by {
                                    assert(self.queue.spec_fifo_has(j));
                                }
                            }
                        }
                    }
                    let action = self.decide();
                    proof {
                        Self::lemma_dequeue_ready(*self, action);
                    }
                    Ok(action)
                } else {
                    let action = self.decide();
                    proof {
                        Self::lemma_dequeue_ready(*self, action);
                    }
                    Ok(action)
                }
            }
            StreamEvent::Queued => {
                self.queue.confirm_queued();
                proof {
                    if self.queue.dir == Direction::In && !self.queue.on {
                        assert(spec_primed(self.queue.slots@, self.queue.fifo@)) by {
                            let p = *old(self);
                            let q = *self;
                            let ii = p.queue.fifo@[0] as int;
                            assert forall|j: int| 0 <= j < q.queue.slots@.len() implies (
                            #[trigger] q.queue.slots@[j]).queued || spec_fifo_contains(
                                q.queue.fifo@,
                                j,
                            ) by {
                                assert(p.queue.slots@[j].queued || spec_fifo_contains(
                                    p.queue.fifo@,
                                    j,
                                ));
                                if j != ii && !p.queue.slots@[j].queued {
                                    let k = choose|k: int|
                                        0 <= k < p.queue.fifo@.len() && p.queue.fifo@[k] as int
                                            == j;
                                    assert(k != 0);
                                    assert(q.queue.fifo@[k - 1] as int == j);
                                }
                            }
                        }
                    }
                }
                let ghost m = *self;
                let action = self.decide();
                proof {
                    Self::lemma_dequeue_ready(*self, action);
                    if let StreamAction::Yield(ii) = action {
                        assert(spec_confirms_to(old(self).queue, m.queue));
                        assert(spec_acquires_to(m.queue, self.queue, ii));
                        assert(spec_decision(m.queue) == StreamAction::Yield(ii));
                        if !old(self).queue.on {
                            // A slot free after the front's submission was
                            // free before it too: the submission touched
                            // only the front slot and the queue's head.
                            let p = *old(self);
                            let f = p.queue.fifo@[0] as int;
                            assert(m.queue.spec_free(ii as int));
                            assert(m.queue.spec_queued(f));
                            assert(ii as int != f);
                            assert(m.queue.slots@[ii as int] == p.queue.slots@[ii as int]);
                            if p.queue.spec_fifo_has(ii as int) {
                                let k = choose|k: int|
                                    0 <= k < p.queue.fifo@.len() && p.queue.fifo@[k] as int
                                        == ii as int;
                                assert(k != 0);
                                assert(m.queue.fifo@[k - 1] as int == ii as int);
                                assert(spec_fifo_contains(m.queue.fifo@, ii as int));
                            }
                            assert(p.queue.spec_free(ii as int));
                        }
                    }
                }
                Ok(action)
            }
            StreamEvent::StreamedOn => {
                self.queue.set_on();
                proof {
                    Self::lemma_dequeue_ready(*self, StreamAction::Dequeue);
                }
                Ok(StreamAction::Dequeue)
            }
            StreamEvent::Completed(desc) => {
                match self.queue.complete(desc) {
                    Ok(i) => Ok(StreamAction::Yield(i)),
                    Err(e) => Err(e),
                }
            }
        }
    }

    /// When the pool is ready to dequeue — stream on, no resubmission
    /// candidate — and the application holds nothing, the ready queue is
    /// empty and every slot has been submitted to the driver.
    proof fn lemma_dequeue_ready(s: Stream, action: StreamAction)
        requires
            s.spec_wf(),
            action == StreamAction::Dequeue ==> s.queue.on && s.queue.spec_ready_front() is None,
        ensures
            action == StreamAction::Dequeue ==> (s.queue.spec_none_held()
                ==> s.queue.spec_all_queued()),
    {
        if action == StreamAction::Dequeue {
            if s.queue.spec_none_held() {
                assert forall|i: int| 0 <= i < s.queue.spec_len() implies #[trigger] s.queue
                    .spec_queued(i) by {
                    assert(s.queue.slots@[i].queued || spec_fifo_contains(s.queue.fifo@, i));
                    if !s.queue.slots@[i].queued {
                        let k = choose|k: int|
                            0 <= k < s.queue.fifo@.len() && s.queue.fifo@[k] as int == i;
                        assert(s.queue.fifo@.len() > 0);
                        assert(!s.queue.spec_held(s.queue.fifo@[0] as int));
                        assert(s.queue.spec_ready_front() is Some);
                    }
                }
            }
        }
    }

    /// Number of slots of the stream's pool.
    pub fn len(&self) -> (r: usize)
        ensures
            r == self.queue.spec_len(),
    {
        self.queue.len()
    }

    /// Whether the hardware stream is running.
    pub fn is_on(&self) -> (r: bool)
        ensures
            r == self.queue.on,
    {
        self.queue.is_on()
    }

    /// The descriptor of slot `index`, as the pool last saw it.
    pub fn descriptor(&self, index: usize) -> (r: Buffer)
        requires
            index < self.queue.spec_len(),
        ensures
            r == self.queue.slots@[index as int].buffer,
    {
        self.queue.descriptor(index)
    }

    /// Give a held slot back to the pool; it stays in the ready queue and
    /// becomes free to resubmit on the next acquisition.
    pub fn release(&mut self, index: usize)
        requires
            old(self).spec_wf(),
            index < old(self).queue.spec_len(),
            old(self).queue.spec_held(index as int),
        ensures
            final(self).spec_wf(),
            !final(self).queue.spec_held(index as int),
            final(self).queue.slots@ == old(self).queue.slots@.update(
                index as int,
                BufferSlot { held: false, ..old(self).queue.slots@[index as int] },
            ),
            final(self).queue.spec_len() == old(self).queue.spec_len(),
            final(self).queue.fifo == old(self).queue.fifo,
            final(self).queue.on == old(self).queue.on,
            final(self).queue.dir == old(self).queue.dir,
            final(self).queue.memory == old(self).queue.memory,
            final(self).queue.buffer_type == old(self).queue.buffer_type,
            forall|j: int|
                0 <= j < old(self).queue.spec_len() && j != index ==> final(self).queue.slots@[j]
                    == old(self).queue.slots@[j],
    {
        self.queue.release(index);
    }

    /// Tear the stream down in the pool's bookkeeping: stop the stream —
    /// which implicitly releases every queued, unheld buffer into the
    /// ready queue, in index order — before the driver is asked to drop
    /// its buffers.  Safe to repeat: a second stop finds nothing queued
    /// and changes nothing.
    pub fn shutdown(&mut self)
        requires
            old(self).spec_wf(),
        ensures
            final(self).spec_wf(),
            spec_offs_to(old(self).queue, final(self).queue),
            !final(self).queue.on,
            forall|i: int|
                0 <= i < final(self).queue.spec_len() ==> !final(self).queue.spec_queued(i),
            forall|i: int|
                0 <= i < old(self).queue.spec_len() ==> final(self).queue.spec_held(i) == old(
                    self,
                ).queue.spec_held(i),
            final(self).queue.spec_len() == old(self).queue.spec_len(),
    {
        self.queue.set_off();
    }
}

} // verus!
