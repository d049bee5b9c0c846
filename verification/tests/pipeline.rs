use map_explorer::screen_map_renderer::{
    CompletedFrame, PipelineError, ReuseQueue, ScreenMapRenderer, ScreenMapRendererBuffers,
    SignalEvent, WorkerDirective, WorkerState,
};

#[test]
fn allocation_error_on_zero_width() {
    let r = ScreenMapRenderer::<2, u64>::new(0, 10, 1);
    assert!(matches!(r, Err(PipelineError::AllocationError)));
}

#[test]
fn allocation_error_on_zero_height() {
    let r = ScreenMapRenderer::<2, u64>::new(10, 0, 1);
    assert!(matches!(r, Err(PipelineError::AllocationError)));
}

#[test]
fn allocation_error_on_empty_pool() {
    let r = ScreenMapRenderer::<0, u64>::new(10, 10, 1);
    assert!(matches!(r, Err(PipelineError::AllocationError)));
}

#[test]
fn new_pool_bookkeeping() {
    let (ren, bufs) = ScreenMapRenderer::<2, u64>::new(4, 2, 7).unwrap();
    assert_eq!(ren.buffer_len, 4 * 4 * 2);
    assert_eq!(ren.idx, 0);
    assert_eq!(ren.used, vec![false, false]);
    assert_eq!(ren.state, WorkerState::Running);
    assert_eq!(*ren.user_data(), 7);
    assert_eq!(bufs.len, 4 * 4 * 2);
}

#[test]
fn snapshot_travels_with_frame() {
    // Pool of two targets; one snapshot sent, one frame rendered: the frame
    // the consumer gets carries that snapshot, and dropping the handle puts
    // the slot index into the reuse queue.
    let (mut ren, mut bufs) = ScreenMapRenderer::<2, (i64, i64)>::new(4, 2, (0, 0)).unwrap();
    ren.set_user_data((10, 20));
    let slot = ren.select_slot().unwrap();
    assert_eq!(slot, 0);
    let frame = ren.publish_frame(slot);
    assert_eq!(frame.index, 0);
    assert_eq!(frame.user_data, (10, 20));
    bufs.add_buffer(frame);

    let handle = bufs.get_buffer().unwrap();
    assert_eq!(*handle.user_data(), (10, 20));
    assert_eq!(handle.index(), 0);
    assert_eq!(handle.buffer_len(), 4 * 4 * 2);

    let mut queue = ReuseQueue::<2>::new();
    handle.release(&mut queue);
    assert_eq!(queue.indices, vec![0]);

    let drained = queue.drain();
    assert_eq!(drained, vec![0]);
    assert!(queue.indices.is_empty());
    ren.try_reuse_buffers(Some(drained));
    let again = ren.select_slot().unwrap();
    assert_eq!(again, 0);
}

#[test]
fn frames_delivered_in_fifo_order() {
    let (mut ren, mut bufs) = ScreenMapRenderer::<2, u64>::new(1, 1, 0).unwrap();
    ren.set_user_data(1);
    let s0 = ren.select_slot().unwrap();
    let f0 = ren.publish_frame(s0);
    bufs.add_buffer(f0);

    ren.set_user_data(2);
    // Slot 0 is reserved now: the cursor advances once, then finds slot 1.
    assert_eq!(ren.select_slot(), None);
    let s1 = ren.select_slot().unwrap();
    assert_eq!(s1, 1);
    let f1 = ren.publish_frame(s1);
    bufs.add_buffer(f1);

    let first = bufs.get_buffer().unwrap();
    assert_eq!(first.index(), 0);
    assert_eq!(*first.user_data(), 1);
    let second = bufs.get_buffer().unwrap();
    assert_eq!(second.index(), 1);
    assert_eq!(*second.user_data(), 2);
    assert!(bufs.get_buffer().is_none());
}

#[test]
fn get_buffer_is_idempotent_when_empty() {
    let mut bufs = ScreenMapRendererBuffers::<2, u64>::new(8);
    assert!(bufs.get_buffer().is_none());
    assert!(bufs.get_buffer().is_none());
    bufs.add_buffer(CompletedFrame { index: 1, user_data: 5 });
    let handle = bufs.get_buffer().unwrap();
    assert_eq!(handle.index(), 1);
    assert_eq!(*handle.user_data(), 5);
    assert!(bufs.get_buffer().is_none());
}

#[test]
fn full_pool_retries_without_corruption() {
    let (mut ren, mut bufs) = ScreenMapRenderer::<1, u64>::new(1, 1, 0).unwrap();
    let slot = ren.select_slot().unwrap();
    let frame = ren.publish_frame(slot);
    bufs.add_buffer(frame);
    // Every slot is in flight: the worker only moves its cursor and retries.
    assert_eq!(ren.select_slot(), None);
    assert_eq!(ren.select_slot(), None);
    assert_eq!(ren.used, vec![true]);
    assert_eq!(ren.idx, 0);

    let handle = bufs.get_buffer().unwrap();
    let mut queue = ReuseQueue::<1>::new();
    handle.release(&mut queue);
    let drained = queue.drain();
    ren.try_reuse_buffers(Some(drained));
    assert_eq!(ren.select_slot(), Some(0));
}

#[test]
fn contended_reuse_drain_is_skipped() {
    let (mut ren, mut bufs) = ScreenMapRenderer::<2, u64>::new(1, 1, 0).unwrap();
    let slot = ren.select_slot().unwrap();
    let frame = ren.publish_frame(slot);
    bufs.add_buffer(frame);
    // A contended lock skips the drain; the slot stays reserved and the
    // recycling is simply retried on a later iteration.
    ren.try_reuse_buffers(None);
    assert_eq!(ren.used, vec![true, false]);
}

#[test]
fn snapshots_applied_in_send_order() {
    let (mut ren, _bufs) = ScreenMapRenderer::<2, u64>::new(1, 1, 0).unwrap();
    ren.apply_user_data_batch(vec![1, 2, 3]);
    assert_eq!(*ren.user_data(), 3);
    ren.apply_user_data_batch(vec![]);
    assert_eq!(*ren.user_data(), 3);
    ren.set_user_data(4);
    ren.set_user_data(5);
    assert_eq!(*ren.user_data(), 5);
}

#[test]
fn shutdown_signal_drains_then_stops() {
    let (mut ren, _bufs) = ScreenMapRenderer::<2, u64>::new(1, 1, 0).unwrap();
    assert_eq!(ren.observe_signal(SignalEvent::NoSignal), WorkerDirective::Proceed);
    assert_eq!(ren.state, WorkerState::Running);
    assert_eq!(ren.observe_signal(SignalEvent::Quit), WorkerDirective::Stop);
    assert_eq!(ren.state, WorkerState::Draining);
    ren.finish();
    assert_eq!(ren.state, WorkerState::Stopped);
}

#[test]
fn closed_channel_is_fatal() {
    let (mut ren, _bufs) = ScreenMapRenderer::<2, u64>::new(1, 1, 0).unwrap();
    assert_eq!(
        ren.observe_signal(SignalEvent::Closed),
        WorkerDirective::Fail(PipelineError::ChannelClosed)
    );
    assert_eq!(ren.state, WorkerState::Draining);
    ren.finish();
    assert_eq!(ren.state, WorkerState::Stopped);
}

#[test]
fn overflow_of_surface_bytes_is_allocation_error() {
    let r = ScreenMapRenderer::<2, u64>::new(u32::MAX, u32::MAX, 0);
    assert!(matches!(r, Err(PipelineError::AllocationError)));
}
