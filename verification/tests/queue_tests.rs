use clqueue::{Device, Error, InfoResult, Properties, Queue, QueueInfo, Runtime, Version};

/// A runtime with one device (version 2.1, all property flags supported) and
/// one context over that device.
fn sample_runtime() -> (Runtime, Device, usize) {
    let mut rt = Runtime::new();
    let dev = rt.register_device(
        Version { major: 2, minor: 1 },
        Properties {
            out_of_order: true,
            profiling: true,
        },
    );
    let ctx = rt.create_context(vec![dev]).unwrap();
    (rt, dev, ctx)
}

#[test]
fn create_caches_device_version() {
    let (mut rt, dev, ctx) = sample_runtime();
    let q = Queue::new(&mut rt, ctx, dev, None).unwrap();
    assert_eq!(q.device_version(), Version { major: 2, minor: 1 });
    assert_eq!(q.device(), dev);
    assert_eq!(q.context_core(), ctx);
}

#[test]
fn device_version_query_matches_registration() {
    let (rt, dev, _ctx) = sample_runtime();
    assert_eq!(rt.device_version(dev), Ok(Version { major: 2, minor: 1 }));
    assert_eq!(
        rt.device_version(Device { id: 9 }),
        Err(Error::InfoQueryFailure)
    );
}

#[test]
fn create_default_properties_then_flush_finish() {
    let (mut rt, dev, ctx) = sample_runtime();
    let q = Queue::new(&mut rt, ctx, dev, None).unwrap();
    assert_eq!(q.flush(&mut rt), Ok(()));
    assert_eq!(q.finish(&mut rt), Ok(()));
    match q.info(&rt, QueueInfo::ReferenceCount) {
        Ok(InfoResult::ReferenceCount(c)) => {
            assert!(c >= 1);
            assert_eq!(c, 1);
        }
        other => panic!("unexpected info result: {:?}", other),
    }
}

#[test]
fn clone_survives_original_release() {
    let (mut rt, dev, ctx) = sample_runtime();
    let q = Queue::new(&mut rt, ctx, dev, None).unwrap();
    let clone = q.clone_handle(&mut rt);
    assert_eq!(clone, Queue { queue_id: q.queue_id, context_id: ctx, device: dev, device_version: q.device_version });
    q.release(&mut rt);
    assert_eq!(clone.flush(&mut rt), Ok(()));
    assert_eq!(clone.finish(&mut rt), Ok(()));
    assert_eq!(
        clone.info(&rt, QueueInfo::ReferenceCount),
        Ok(InfoResult::ReferenceCount(1))
    );
}

#[test]
fn clone_twice_release_original_and_one() {
    let (mut rt, dev, ctx) = sample_runtime();
    let q = Queue::new(&mut rt, ctx, dev, None).unwrap();
    let c1 = q.clone_handle(&mut rt);
    let c2 = q.clone_handle(&mut rt);
    q.release(&mut rt);
    c1.release(&mut rt);
    assert!(rt.context_live(c2.context_core()));
    assert_eq!(c2.finish(&mut rt), Ok(()));
}

#[test]
fn rejected_properties_fail_construction_without_leak() {
    let mut rt = Runtime::new();
    let dev = rt.register_device(
        Version { major: 1, minor: 2 },
        Properties {
            out_of_order: false,
            profiling: false,
        },
    );
    let ctx = rt.create_context(vec![dev]).unwrap();
    let r = Queue::new(
        &mut rt,
        ctx,
        dev,
        Some(Properties {
            out_of_order: true,
            profiling: false,
        }),
    );
    assert_eq!(r.unwrap_err(), Error::ConstructionFailure);
    // No native queue was created by the failed attempt: the first queue id
    // is still unallocated, and the next successful creation takes it.
    assert_eq!(
        rt.queue_info(0, QueueInfo::Context),
        Err(Error::InfoQueryFailure)
    );
    let q = Queue::new(&mut rt, ctx, dev, None).unwrap();
    assert_eq!(q.native_queue_ref(), 0);
}

#[test]
fn create_on_released_context_fails() {
    let (mut rt, dev, ctx) = sample_runtime();
    rt.release_context(ctx);
    let r = Queue::new(&mut rt, ctx, dev, None);
    assert_eq!(r.unwrap_err(), Error::ConstructionFailure);
}

#[test]
fn create_with_device_outside_context_fails() {
    let mut rt = Runtime::new();
    let in_ctx = rt.register_device(
        Version { major: 1, minor: 0 },
        Properties {
            out_of_order: true,
            profiling: true,
        },
    );
    let outside = rt.register_device(
        Version { major: 1, minor: 0 },
        Properties {
            out_of_order: true,
            profiling: true,
        },
    );
    let ctx = rt.create_context(vec![in_ctx]).unwrap();
    let r = Queue::new(&mut rt, ctx, outside, None);
    assert_eq!(r.unwrap_err(), Error::ConstructionFailure);
}

#[test]
fn create_with_unregistered_device_fails() {
    let (mut rt, _dev, ctx) = sample_runtime();
    let r = Queue::new(&mut rt, ctx, Device { id: 7 }, None);
    assert_eq!(r.unwrap_err(), Error::ConstructionFailure);
}

#[test]
fn create_context_with_unregistered_device_fails() {
    let mut rt = Runtime::new();
    let r = rt.create_context(vec![Device { id: 0 }]);
    assert_eq!(r.unwrap_err(), Error::ConstructionFailure);
}

#[test]
fn create_on_lost_device_fails() {
    let (mut rt, dev, ctx) = sample_runtime();
    rt.lose_device(dev);
    let r = Queue::new(&mut rt, ctx, dev, None);
    assert_eq!(r.unwrap_err(), Error::ConstructionFailure);
}

#[test]
fn flush_and_finish_report_device_loss() {
    let (mut rt, dev, ctx) = sample_runtime();
    let q = Queue::new(&mut rt, ctx, dev, None).unwrap();
    rt.lose_device(dev);
    assert_eq!(q.flush(&mut rt), Err(Error::DispatchFailure));
    assert_eq!(q.finish(&mut rt), Err(Error::ExecutionFailure));
}

#[test]
fn failing_command_surfaces_at_finish_then_clears() {
    let (mut rt, dev, ctx) = sample_runtime();
    let q = Queue::new(&mut rt, ctx, dev, None).unwrap();
    rt.enqueue_command(q.native_queue_ref(), false).unwrap();
    rt.enqueue_command(q.native_queue_ref(), true).unwrap();
    assert_eq!(q.flush(&mut rt), Ok(()));
    assert_eq!(q.finish(&mut rt), Err(Error::ExecutionFailure));
    // The failed command was drained: a retry finds nothing outstanding.
    assert_eq!(q.finish(&mut rt), Ok(()));
}

#[test]
fn finish_after_flush_is_noop_sync() {
    let (mut rt, dev, ctx) = sample_runtime();
    let q = Queue::new(&mut rt, ctx, dev, None).unwrap();
    rt.enqueue_command(q.native_queue_ref(), false).unwrap();
    assert_eq!(q.flush(&mut rt), Ok(()));
    // Nothing further was enqueued after the flush: finish succeeds.
    assert_eq!(q.finish(&mut rt), Ok(()));
    // And again, with no pending work at all.
    assert_eq!(q.flush(&mut rt), Ok(()));
    assert_eq!(q.finish(&mut rt), Ok(()));
}

#[test]
fn info_matches_cached_fields() {
    let (mut rt, dev, ctx) = sample_runtime();
    let props = Properties {
        out_of_order: true,
        profiling: false,
    };
    let q = Queue::new(&mut rt, ctx, dev, Some(props)).unwrap();
    assert_eq!(
        q.info(&rt, QueueInfo::Context),
        Ok(InfoResult::Context(q.context_core()))
    );
    assert_eq!(
        q.info(&rt, QueueInfo::Device),
        Ok(InfoResult::Device(q.device()))
    );
    assert_eq!(
        q.info(&rt, QueueInfo::ReferenceCount),
        Ok(InfoResult::ReferenceCount(1))
    );
    assert_eq!(
        q.info(&rt, QueueInfo::Properties),
        Ok(InfoResult::Properties(props))
    );
}

#[test]
fn reference_count_tracks_clones() {
    let (mut rt, dev, ctx) = sample_runtime();
    let q = Queue::new(&mut rt, ctx, dev, None).unwrap();
    let c1 = q.clone_handle(&mut rt);
    assert_eq!(
        q.info(&rt, QueueInfo::ReferenceCount),
        Ok(InfoResult::ReferenceCount(2))
    );
    let c2 = q.clone_handle(&mut rt);
    assert_eq!(
        q.info(&rt, QueueInfo::ReferenceCount),
        Ok(InfoResult::ReferenceCount(3))
    );
    c1.release(&mut rt);
    assert_eq!(
        q.info(&rt, QueueInfo::ReferenceCount),
        Ok(InfoResult::ReferenceCount(2))
    );
    c2.release(&mut rt);
    assert_eq!(
        q.info(&rt, QueueInfo::ReferenceCount),
        Ok(InfoResult::ReferenceCount(1))
    );
}

#[test]
fn info_string_renders_live_queue() {
    let (mut rt, dev, ctx) = sample_runtime();
    let q = Queue::new(&mut rt, ctx, dev, None).unwrap();
    assert_eq!(
        q.info_string(&rt),
        "Queue { Context: Some(0), Device: Some(0), ReferenceCount: Some(1), \
         Properties: { out_of_order: Some(false), profiling: Some(false) } }"
    );
}

#[test]
fn info_string_captures_failed_queries() {
    let (mut rt, dev, ctx) = sample_runtime();
    let q = Queue::new(&mut rt, ctx, dev, None).unwrap();
    let stale = Queue {
        queue_id: q.queue_id,
        context_id: q.context_id,
        device: q.device,
        device_version: q.device_version,
    };
    q.release(&mut rt);
    assert_eq!(
        stale.info_string(&rt),
        "Queue { Context: None, Device: None, ReferenceCount: None, \
         Properties: { out_of_order: None, profiling: None } }"
    );
}

#[test]
fn stale_queue_info_fails() {
    let (mut rt, dev, ctx) = sample_runtime();
    let q = Queue::new(&mut rt, ctx, dev, None).unwrap();
    let id = q.native_queue_ref();
    q.release(&mut rt);
    assert_eq!(rt.queue_info(id, QueueInfo::Context), Err(Error::InfoQueryFailure));
    assert_eq!(
        rt.queue_info(id, QueueInfo::ReferenceCount),
        Err(Error::InfoQueryFailure)
    );
}

#[test]
fn enqueue_on_dead_queue_fails() {
    let (mut rt, dev, ctx) = sample_runtime();
    let q = Queue::new(&mut rt, ctx, dev, None).unwrap();
    let id = q.native_queue_ref();
    q.release(&mut rt);
    assert_eq!(
        rt.enqueue_command(id, false),
        Err(Error::DispatchFailure)
    );
    assert_eq!(rt.enqueue_command(42, false), Err(Error::DispatchFailure));
}

#[test]
fn context_stays_live_while_queue_holds_it() {
    let (mut rt, dev, ctx) = sample_runtime();
    let q = Queue::new(&mut rt, ctx, dev, None).unwrap();
    // The creator drops its own reference; the queue's keeps the context live.
    rt.release_context(ctx);
    assert!(rt.context_live(ctx));
    assert_eq!(q.finish(&mut rt), Ok(()));
    q.release(&mut rt);
    assert!(!rt.context_live(ctx));
}
