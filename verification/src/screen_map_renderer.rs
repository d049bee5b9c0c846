//! The threaded map renderer's verified bookkeeping.
//!
//! The pipeline couples a consumer (the UI thread) with one worker that
//! drives the external rendering engine: the worker re-renders into
//! whichever of `BUFFER_SIZE` pooled render targets is free, publishes each
//! completed frame into a FIFO queue, and reclaims a target once the
//! consumer has released the corresponding frame handle.
//!
//! Everything that crosses the thread boundary does so as plain values.
//! The embedding application owns the threads, the channels and locks, the
//! surface memory, and the engine's render call; it drives the worker's
//! verified step functions in the order laid down here and performs the
//! actions they decide on. Slot indices stand in for the raw surface
//! pointers of the render targets: the application resolves an index to
//! its surface's pixel memory.

use std::collections::VecDeque;
use vstd::prelude::*;

verus! {

/// A fatal condition of the render pipeline.
#[derive(Debug, Clone, Copy, PartialEq, Eq, Structural)]
pub enum PipelineError {
    /// Surface, context or renderer construction failed.
    AllocationError,
    /// The engine's render call failed; the worker terminates.
    RenderError,
    /// A peer side of a channel disconnected; treated as termination.
    ChannelClosed,
    /// A shared lock was left inconsistent by a prior failure.
    LockPoisoned,
}

/// A completed frame awaiting consumption: which pool slot holds its
/// pixels, and the parameter snapshot it was rendered with.
pub struct CompletedFrame<UserData: Clone> {
    pub index: usize,
    pub user_data: UserData,
}

/// The queue of slot indices the consumer has finished with and the worker
/// may recycle. Shared between the two sides under a lock owned by the
/// embedding application.
pub struct ReuseQueue<const BUFFER_SIZE: usize> {
    pub indices: Vec<usize>,
}

impl<const BUFFER_SIZE: usize> ReuseQueue<BUFFER_SIZE> {
    /// Every queued index denotes a slot of the pool.
    pub open spec fn wf(&self) -> bool {
        forall|i: int| 0 <= i < self.indices@.len() ==> self.indices@[i] < BUFFER_SIZE
    }

    pub fn new() -> (q: Self)
        ensures
            q.wf(),
            q.indices@ == Seq::<usize>::empty(),
    {
        ReuseQueue { indices: Vec::new() }
    }

    /// Hand a slot index back for recycling.
    pub fn push(&mut self, index: usize)
        requires
            old(self).wf(),
            index < BUFFER_SIZE,
        ensures
            final(self).wf(),
            final(self).indices@ == old(self).indices@.push(index),
    {
        self.indices.push(index);
    }

    /// Take all queued indices, oldest first, leaving the queue empty.
    pub fn drain(&mut self) -> (r: Vec<usize>)
        requires
            old(self).wf(),
        ensures
            final(self).wf(),
            final(self).indices@ == Seq::<usize>::empty(),
            r@ == old(self).indices@,
            forall|i: int| 0 <= i < r@.len() ==> r@[i] < BUFFER_SIZE,
    {
        let mut r: Vec<usize> = Vec::new();
        core::mem::swap(&mut r, &mut self.indices);
        r
    }
}

/// The ordered queue of completed frames awaiting consumption. The worker
/// pushes at the back, the consumer pops at the front; frames are never
/// reordered. Shared between the two sides under a lock owned by the
/// embedding application.
///
/// The ghost `produced` and `delivered` sequences record every frame ever
/// queued and every frame ever handed out, in order; they tie the FIFO
/// delivery guarantee to the queue's state.
pub struct ScreenMapRendererBuffers<const BUFFER_SIZE: usize, UserData: Clone> {
    pub buffers: VecDeque<CompletedFrame<UserData>>,
    /// Byte length of every pooled surface: stride times height.
    pub len: usize,
    pub produced: Ghost<Seq<CompletedFrame<UserData>>>,
    pub delivered: Ghost<Seq<CompletedFrame<UserData>>>,
}

impl<const BUFFER_SIZE: usize, UserData: Clone> ScreenMapRendererBuffers<BUFFER_SIZE, UserData> {
    /// Whatever was produced is what was delivered followed by what is
    /// still pending, and every pending frame points into the pool.
    pub open spec fn wf(&self) -> bool {
        &&& self.produced@ == self.delivered@ + self.buffers@
        &&& forall|i: int| 0 <= i < self.buffers@.len() ==> self.buffers@[i].index < BUFFER_SIZE
    }

    /// An empty frame queue for surfaces of `len` bytes each.
    pub fn new(len: usize) -> (q: Self)
        ensures
            q.wf(),
            q.buffers@ == Seq::<CompletedFrame<UserData>>::empty(),
            q.len == len,
            q.produced@ == Seq::<CompletedFrame<UserData>>::empty(),
            q.delivered@ == Seq::<CompletedFrame<UserData>>::empty(),
    {
        ScreenMapRendererBuffers {
            buffers: VecDeque::with_capacity(BUFFER_SIZE),
            len,
            produced: Ghost(Seq::empty()),
            delivered: Ghost(Seq::empty()),
        }
    }

    /// Publish a completed frame at the back of the queue.
    pub fn add_buffer(&mut self, frame: CompletedFrame<UserData>)
        requires
            old(self).wf(),
            frame.index < BUFFER_SIZE,
        ensures
            final(self).wf(),
            final(self).buffers@ == old(self).buffers@.push(frame),
            final(self).produced@ == old(self).produced@.push(frame),
            final(self).delivered@ == old(self).delivered@,
            final(self).len == old(self).len,
    {
        let ghost f = frame;
        self.buffers.push_back(frame);
        proof {
            self.produced@ = self.produced@.push(f);
            assert(self.produced@ =~= self.delivered@ + self.buffers@);
        }
    }

    /// Take the oldest pending frame, if any, as a consumer-held lease.
    ///
    /// When nothing is pending the queue is left exactly as it was, so the
    /// consumer keeps displaying whatever frame it already holds.
    pub fn get_buffer(&mut self) -> (r: Option<ScreenMapRendererBuffer<BUFFER_SIZE, UserData>>)
        requires
            old(self).wf(),
        ensures
            final(self).wf(),
            old(self).buffers@.len() == 0 ==> r is None && final(self).buffers@ == old(
                self,
            ).buffers@ && final(self).len == old(self).len && final(self).produced@ == old(
                self,
            ).produced@ && final(self).delivered@ == old(self).delivered@,
            old(self).buffers@.len() > 0 ==> (r matches Some(b)
                && b.index == old(self).buffers@[0].index
                && b.user_data == old(self).buffers@[0].user_data
                && b.buffer_len == old(self).len
                && b.wf()
                && final(self).buffers@ == old(self).buffers@.subrange(
                    1,
                    old(self).buffers@.len() as int,
                )
                && final(self).delivered@ == old(self).delivered@.push(old(self).buffers@[0])
                && final(self).produced@ == old(self).produced@
                && final(self).len == old(self).len),
    {
        match self.buffers.pop_front() {
            Some(frame) => {
                let ghost f = frame;
                proof {
                    self.delivered@ = self.delivered@.push(f);
                    assert(self.produced@ =~= self.delivered@ + self.buffers@);
                }
                Some(ScreenMapRendererBuffer {
                    index: frame.index,
                    buffer_len: self.len,
                    user_data: frame.user_data,
                })
            },
            None => None,
        }
    }

    /// Frames are handed to the consumer in production order, each at most
    /// once, and none is lost: what was delivered so far is a prefix of
    /// what was produced, and the rest is still pending.
    pub proof fn lemma_fifo_delivery(&self)
        requires
            self.wf(),
        ensures
            self.delivered@.is_prefix_of(self.produced@),
            self.delivered@.len() + self.buffers@.len() == self.produced@.len(),
    {
        assert(self.delivered@ =~= self.produced@.subrange(0, self.delivered@.len() as int));
    }
}

/// A consumer-held lease over one completed frame. The slot it points into
/// stays reserved until the lease is released; releasing it consumes the
/// lease, so a slot index is handed back exactly once.
pub struct ScreenMapRendererBuffer<const BUFFER_SIZE: usize, UserData: Clone> {
    pub index: usize,
    /// Byte length of the frame's pixel buffer: stride times height.
    pub buffer_len: usize,
    pub user_data: UserData,
}

impl<const BUFFER_SIZE: usize, UserData: Clone> ScreenMapRendererBuffer<BUFFER_SIZE, UserData> {
    pub open spec fn wf(&self) -> bool {
        self.index < BUFFER_SIZE
    }

    /// The parameter snapshot the frame was rendered with.
    pub fn user_data(&self) -> (r: &UserData)
        ensures
            *r == self.user_data,
    {
        &self.user_data
    }

    /// The pool slot holding the frame's pixels.
    pub fn index(&self) -> (r: usize)
        ensures
            r == self.index,
    {
        self.index
    }

    /// Byte length of the frame's pixel buffer.
    pub fn buffer_len(&self) -> (r: usize)
        ensures
            r == self.buffer_len,
    {
        self.buffer_len
    }

    /// Give the frame's slot back for recycling. Consumes the lease: the
    /// index is queued exactly once per handed-out frame.
    pub fn release(self, queue: &mut ReuseQueue<BUFFER_SIZE>)
        requires
            old(queue).wf(),
            self.wf(),
        ensures
            final(queue).wf(),
            final(queue).indices@ == old(queue).indices@.push(self.index),
    {
        queue.push(self.index);
    }
}

/// The worker thread's lifecycle.
#[derive(Debug, Clone, Copy, PartialEq, Eq, Structural)]
pub enum WorkerState {
    /// The per-iteration loop is running.
    Running,
    /// Shutdown was observed; the worker is finishing its return path.
    Draining,
    /// The worker's thread function has returned.
    Stopped,
}

/// What the worker found on its shutdown channel at the top of an
/// iteration.
#[derive(Debug, Clone, Copy, PartialEq, Eq, Structural)]
pub enum SignalEvent {
    /// Nothing was pending.
    NoSignal,
    /// A shutdown request was received.
    Quit,
    /// The consumer side of the channel is gone.
    Closed,
}

/// The worker's decision for the rest of an iteration.
#[derive(Debug, Clone, Copy, PartialEq, Eq, Structural)]
pub enum WorkerDirective {
    /// Go on with this iteration.
    Proceed,
    /// Exit the loop cleanly.
    Stop,
    /// Exit the loop with a fatal error.
    Fail(PipelineError),
}

/// How many entries of `s` are set.
pub open spec fn count_trues(s: Seq<bool>) -> int
    decreases s.len(),
{
    if s.len() == 0 {
        0
    } else {
        count_trues(s.drop_last()) + if s.last() {
            1int
        } else {
            0int
        }
    }
}

pub proof fn lemma_count_trues_bounds(s: Seq<bool>)
    ensures
        0 <= count_trues(s) <= s.len(),
    decreases s.len(),
{
    if s.len() > 0 {
        lemma_count_trues_bounds(s.drop_last());
    }
}

pub proof fn lemma_count_trues_push(s: Seq<bool>, b: bool)
    ensures
        count_trues(s.push(b)) == count_trues(s) + (if b {
            1int
        } else {
            0int
        }),
{
    assert(s.push(b).drop_last() =~= s);
    assert(s.push(b).last() == b);
}

pub proof fn lemma_count_trues_update(s: Seq<bool>, i: int, b: bool)
    requires
        0 <= i < s.len(),
    ensures
        count_trues(s.update(i, b)) == count_trues(s) - (if s[i] {
            1int
        } else {
            0int
        }) + (if b {
            1int
        } else {
            0int
        }),
    decreases s.len(),
{
    if i == s.len() - 1 {
        assert(s.update(i, b).drop_last() =~= s.drop_last());
    } else {
        lemma_count_trues_update(s.drop_last(), i, b);
        assert(s.update(i, b).drop_last() =~= s.drop_last().update(i, b));
    }
}

/// The worker's own state: the pool's per-slot reservation flags, the
/// round-robin cursor, and the current parameter snapshot. Owned
/// exclusively by the worker thread; only the two queues above are shared.
///
/// The ghost `applied` sequence records every parameter snapshot the
/// worker has applied, in order.
pub struct ScreenMapRenderer<const BUFFER_SIZE: usize, UserData: Clone> {
    pub used: Vec<bool>,
    pub idx: usize,
    /// Byte length of every pooled surface: stride times height.
    pub buffer_len: usize,
    pub user_data: UserData,
    pub state: WorkerState,
    pub applied: Ghost<Seq<UserData>>,
}

impl<const BUFFER_SIZE: usize, UserData: Clone> ScreenMapRenderer<BUFFER_SIZE, UserData> {
    pub open spec fn wf(&self) -> bool {
        &&& self.used@.len() == BUFFER_SIZE
        &&& self.idx < BUFFER_SIZE
    }

    /// How many slots hold a frame that was produced but not yet recycled.
    pub open spec fn frames_in_flight(&self) -> int {
        count_trues(self.used@)
    }

    /// Only the reservation flags and the cursor differ between `pre` and
    /// `post`.
    pub open spec fn only_slots_change(pre: Self, post: Self) -> bool {
        &&& post.buffer_len == pre.buffer_len
        &&& post.user_data == pre.user_data
        &&& post.state == pre.state
        &&& post.applied == pre.applied
    }

    /// Only the parameter snapshot and its ghost history differ between
    /// `pre` and `post`.
    pub open spec fn only_params_change(pre: Self, post: Self) -> bool {
        &&& post.used == pre.used
        &&& post.idx == pre.idx
        &&& post.buffer_len == pre.buffer_len
        &&& post.state == pre.state
    }

    /// Only the lifecycle state differs between `pre` and `post`.
    pub open spec fn only_state_changes(pre: Self, post: Self) -> bool {
        &&& post.used == pre.used
        &&& post.idx == pre.idx
        &&& post.buffer_len == pre.buffer_len
        &&& post.user_data == pre.user_data
        &&& post.applied == pre.applied
    }

    /// Set up the pool's bookkeeping for `BUFFER_SIZE` surfaces of
    /// `w` by `h` pixels, four bytes each, together with the frame queue
    /// the worker will publish into.
    ///
    /// Construction fails with `AllocationError` exactly when the
    /// requested configuration is degenerate or its byte length does not
    /// fit the machine: no surface can be allocated for it. The embedding
    /// application allocates the actual surfaces and the engine instance
    /// only for a configuration accepted here, and maps any failure of
    /// that allocation to the same error.
    pub fn new(w: u32, h: u32, user_data: UserData) -> (r: Result<
        (Self, ScreenMapRendererBuffers<BUFFER_SIZE, UserData>),
        PipelineError,
    >)
        ensures
            r is Ok <==> (BUFFER_SIZE >= 1 && w > 0 && h > 0 && 4 * (w as int) * (h as int)
                <= usize::MAX as int),
            r is Err ==> r->Err_0 == PipelineError::AllocationError,
            r is Ok ==> ({
                let ren = r->Ok_0.0;
                let bufs = r->Ok_0.1;
                &&& ren.wf()
                &&& forall|i: int| 0 <= i < BUFFER_SIZE ==> !ren.used@[i]
                &&& ren.frames_in_flight() == 0
                &&& ren.idx == 0
                &&& ren.buffer_len as int == 4 * (w as int) * (h as int)
                &&& ren.user_data == user_data
                &&& ren.state == WorkerState::Running
                &&& ren.applied@ == Seq::<UserData>::empty()
                &&& bufs.wf()
                &&& bufs.buffers@.len() == 0
                &&& bufs.len == ren.buffer_len
                &&& bufs.produced@.len() == 0
                &&& bufs.delivered@.len() == 0
            }),
    {
        if BUFFER_SIZE == 0 || w == 0 || h == 0 {
            return Err(PipelineError::AllocationError);
        }
        let stride = match 4usize.checked_mul(w as usize) {
            Some(s) => s,
            None => {
                proof {
                    assert(4 * (w as int) * (h as int) > usize::MAX as int) by (nonlinear_arith)
                        requires
                            4 * (w as int) > usize::MAX as int,
                            h >= 1,
                    ;
                }
                return Err(PipelineError::AllocationError);
            },
        };
        let buffer_len = match stride.checked_mul(h as usize) {
            Some(l) => l,
            None => {
                return Err(PipelineError::AllocationError);
            },
        };
        let mut used: Vec<bool> = Vec::new();
        let mut k: usize = 0;
        while k < BUFFER_SIZE
            invariant
                k <= BUFFER_SIZE,
                used@.len() == k,
                forall|i: int| 0 <= i < k ==> !used@[i],
                count_trues(used@) == 0,
            decreases BUFFER_SIZE - k,
        {
            proof {
                lemma_count_trues_push(used@, false);
            }
            used.push(false);
            k = k + 1;
        }
        let bufs = ScreenMapRendererBuffers::new(buffer_len);
        Ok((
            ScreenMapRenderer {
                used,
                idx: 0,
                buffer_len,
                user_data,
                state: WorkerState::Running,
                applied: Ghost(Seq::empty()),
            },
            bufs,
        ))
    }

    /// The current parameter snapshot.
    pub fn user_data(&self) -> (r: &UserData)
        ensures
            *r == self.user_data,
    {
        &self.user_data
    }

    /// Adopt a parameter snapshot received from the channel as the current
    /// one. The embedding application follows each adoption with its
    /// `on_parameter_update` callback on the engine, so the callback runs
    /// exactly once per snapshot recorded in `applied`.
    pub fn set_user_data(&mut self, user_data: UserData)
        ensures
            final(self).user_data == user_data,
            final(self).applied@ == old(self).applied@.push(user_data),
            Self::only_params_change(*old(self), *final(self)),
            old(self).wf() ==> final(self).wf(),
    {
        let ghost ud = user_data;
        self.user_data = user_data;
        proof {
            self.applied@ = self.applied@.push(ud);
        }
    }

    /// Adopt a whole drained batch of parameter snapshots, oldest first:
    /// each is applied exactly once, in the order it was received, and the
    /// newest becomes the current snapshot.
    pub fn apply_user_data_batch(&mut self, batch: Vec<UserData>)
        ensures
            final(self).applied@ == old(self).applied@ + batch@,
            batch@.len() == 0 ==> final(self).user_data == old(self).user_data,
            batch@.len() > 0 ==> final(self).user_data == batch@.last(),
            Self::only_params_change(*old(self), *final(self)),
            old(self).wf() ==> final(self).wf(),
    {
        let ghost all = batch@;
        let ghost pre = *self;
        let mut batch = batch;
        while batch.len() > 0
            invariant
                batch@.len() <= all.len(),
                batch@ == all.subrange(all.len() - batch@.len(), all.len() as int),
                self.applied@ == pre.applied@ + all.subrange(0, all.len() - batch@.len()),
                batch@.len() == all.len() ==> self.user_data == pre.user_data,
                batch@.len() < all.len() ==> self.user_data == all[all.len() - batch@.len() - 1],
                Self::only_params_change(pre, *self),
            decreases batch@.len(),
        {
            let ghost done = all.len() - batch@.len();
            let ud = batch.remove(0);
            proof {
                assert(ud == all[done]);
                assert(batch@ =~= all.subrange(done + 1, all.len() as int));
            }
            self.set_user_data(ud);
            proof {
                assert(all.subrange(0, done).push(all[done]) =~= all.subrange(0, done + 1));
            }
        }
        proof {
            assert(all.subrange(0, all.len() as int) =~= all);
            assert(self.applied@ =~= pre.applied@ + all);
        }
    }

    /// Clear the reservation flag of every slot the consumer has handed
    /// back, as drained from the `ReuseQueue`; `None` records that the
    /// queue's lock was contended and the drain is skipped for this
    /// iteration — recycling is retried on the next one, and nothing else
    /// changes.
    pub fn try_reuse_buffers(&mut self, released: Option<Vec<usize>>)
        requires
            old(self).wf(),
            released matches Some(v) ==> forall|i: int| 0 <= i < v@.len() ==> v@[i] < BUFFER_SIZE,
        ensures
            final(self).wf(),
            final(self).idx == old(self).idx,
            Self::only_slots_change(*old(self), *final(self)),
            released is None ==> final(self).used == old(self).used,
            released matches Some(v) ==> forall|j: int|
                0 <= j < BUFFER_SIZE ==> final(self).used@[j] == (old(self).used@[j]
                    && !v@.contains(j as usize)),
    {
        match released {
            None => {},
            Some(v) => {
                let ghost vs = v@;
                let ghost pre = *self;
                let mut k: usize = 0;
                while k < v.len()
                    invariant
                        self.wf(),
                        pre.wf(),
                        v@ == vs,
                        k <= vs.len(),
                        forall|i: int| 0 <= i < vs.len() ==> vs[i] < BUFFER_SIZE,
                        self.idx == pre.idx,
                        Self::only_slots_change(pre, *self),
                        forall|j: int|
                            #![trigger self.used@[j]]
                            0 <= j < BUFFER_SIZE ==> self.used@[j] == (pre.used@[j]
                                && !vs.subrange(0, k as int).contains(j as usize)),
                    decreases vs.len() - k,
                {
                    let ghost prev_used = self.used@;
                    let i = v[k];
                    self.used.set(i, false);
                    proof {
                        let sub = vs.subrange(0, k as int);
                        let sub1 = vs.subrange(0, k as int + 1);
                        assert(sub1 =~= sub.push(vs[k as int]));
                        assert(self.used@ == prev_used.update(i as int, false));
                        assert(sub1[k as int] == i as usize);
                        assert forall|j: int| 0 <= j < BUFFER_SIZE implies self.used@[j] == (
                        pre.used@[j] && !sub1.contains(j as usize)) by {
                            vstd::seq_lib::lemma_seq_contains_after_push(
                                sub,
                                vs[k as int],
                                j as usize,
                            );
                            assert(j as usize == j);
                            if j == i {
                                assert(sub1.contains(j as usize));
                                assert(!self.used@[j]);
                            } else {
                                assert(prev_used[j] == (pre.used@[j] && !sub.contains(
                                    j as usize,
                                )));
                                assert(self.used@[j] == prev_used[j]);
                                assert(vs[k as int] != j as usize);
                                assert(sub1.contains(j as usize) <==> sub.contains(j as usize));
                            }
                        }
                    }
                    k = k + 1;
                }
                proof {
                    assert(vs.subrange(0, vs.len() as int) =~= vs);
                }
            },
        }
    }

    /// The round-robin search for a free slot, bounded to one candidate
    /// per iteration so the worker stays responsive to shutdown: if the
    /// slot under the cursor is free it is the one to render into, and the
    /// cursor stays; otherwise the cursor advances one slot and the
    /// iteration yields nothing. When every slot is reserved the worker
    /// thus changes nothing but the cursor and simply retries later.
    pub fn select_slot(&mut self) -> (r: Option<usize>)
        requires
            old(self).wf(),
            old(self).state == WorkerState::Running,
        ensures
            final(self).wf(),
            final(self).used == old(self).used,
            Self::only_slots_change(*old(self), *final(self)),
            !old(self).used@[old(self).idx as int] ==> r == Some(old(self).idx) && final(self).idx
                == old(self).idx,
            old(self).used@[old(self).idx as int] ==> r is None && final(self).idx as int == (old(
                self,
            ).idx + 1) % (BUFFER_SIZE as int),
            r matches Some(s) ==> s < BUFFER_SIZE && !final(self).used@[s as int],
    {
        if self.used[self.idx] {
            self.idx = (self.idx + 1) % BUFFER_SIZE;
            None
        } else {
            Some(self.idx)
        }
    }

    /// Account for a finished render into `slot`: the slot becomes
    /// reserved until the consumer releases it, and the frame to publish
    /// carries the slot index and a copy of the parameter snapshot the
    /// render was performed with. A reserved slot is never rendered into:
    /// this is the only transition that sets a reservation flag, and it
    /// demands a free slot.
    pub fn publish_frame(&mut self, slot: usize) -> (frame: CompletedFrame<UserData>)
        requires
            old(self).wf(),
            old(self).state == WorkerState::Running,
            slot < BUFFER_SIZE,
            !old(self).used@[slot as int],
        ensures
            final(self).wf(),
            frame.index == slot,
            cloned::<UserData>(old(self).user_data, frame.user_data),
            final(self).used@ == old(self).used@.update(slot as int, true),
            final(self).idx == old(self).idx,
            Self::only_slots_change(*old(self), *final(self)),
            final(self).frames_in_flight() == old(self).frames_in_flight() + 1,
    {
        let frame = CompletedFrame { index: slot, user_data: self.user_data.clone() };
        proof {
            lemma_count_trues_update(self.used@, slot as int, true);
        }
        self.used.set(slot, true);
        frame
    }

    /// React to what the shutdown channel held at the top of an iteration:
    /// a shutdown request ends the loop cleanly, a disconnected channel
    /// ends it with `ChannelClosed`, and otherwise the iteration proceeds.
    pub fn observe_signal(&mut self, signal: SignalEvent) -> (d: WorkerDirective)
        ensures
            Self::only_state_changes(*old(self), *final(self)),
            old(self).wf() ==> final(self).wf(),
            signal == SignalEvent::NoSignal ==> d == WorkerDirective::Proceed && final(self).state
                == old(self).state,
            signal == SignalEvent::Quit ==> d == WorkerDirective::Stop && final(self).state
                == WorkerState::Draining,
            signal == SignalEvent::Closed ==> d == WorkerDirective::Fail(
                PipelineError::ChannelClosed,
            ) && final(self).state == WorkerState::Draining,
    {
        match signal {
            SignalEvent::NoSignal => WorkerDirective::Proceed,
            SignalEvent::Quit => {
                self.state = WorkerState::Draining;
                WorkerDirective::Stop
            },
            SignalEvent::Closed => {
                self.state = WorkerState::Draining;
                WorkerDirective::Fail(PipelineError::ChannelClosed)
            },
        }
    }

    /// The worker's thread function is returning: whatever was in flight
    /// has completed, and no further transition is possible.
    pub fn finish(&mut self)
        ensures
            Self::only_state_changes(*old(self), *final(self)),
            old(self).wf() ==> final(self).wf(),
            final(self).state == WorkerState::Stopped,
    {
        self.state = WorkerState::Stopped;
    }

    /// However the pipeline is driven, at most `BUFFER_SIZE` frames are in
    /// flight — produced but not yet recycled — at any time.
    pub proof fn lemma_frames_in_flight_bounded(&self)
        requires
            self.wf(),
        ensures
            0 <= self.frames_in_flight() <= BUFFER_SIZE,
    {
        lemma_count_trues_bounds(self.used@);
    }
}

} // verus!
