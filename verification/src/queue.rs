//! The command-queue handle.
//!
//! A [`Queue`] owns one reference on a native command-queue object and one on
//! the context the queue was created under, so that both outlive the handle.
//! It also keeps the device descriptor and the device's capability version,
//! cached once at construction; the version is assumed stable for the life of
//! the runtime, so the cache is never refreshed. Cloning a handle retains the
//! same native queue — it never creates a second one — and releasing a handle
//! gives both references back; the platform destroys a native object when its
//! last owner lets go.

use vstd::prelude::*;

use crate::platform::{
    ContextId, Device, Error, InfoResult, Properties, QueueId, QueueInfo, QueueRecord, Runtime,
    RuntimeModel, Version, props_or_default,
};

verus! {

/// A handle on one native command queue: the queue's identity, the context it
/// retains, the device it targets, and the device's capability version cached
/// at construction.
#[derive(Debug, PartialEq, Eq, Structural)]
pub struct Queue {
    /// The native queue object this handle owns one reference on.
    pub queue_id: QueueId,
    /// The context the handle owns one reference on.
    pub context_id: ContextId,
    /// The device the queue targets, copied at construction.
    pub device: Device,
    /// The device's capability version, computed once at construction and
    /// never refreshed.
    pub device_version: Version,
}

/// What a diagnostic rendering of a queue looks like: the text std's
/// formatting produces for the four informational query outcomes, `None`
/// standing for a failed query.
pub uninterp spec fn queue_info_text(
    context: Option<ContextId>,
    device: Option<usize>,
    reference_count: Option<u64>,
    out_of_order: Option<bool>,
    profiling: Option<bool>,
) -> Seq<char>;

/// Relies on std's `format!` to render the five query outcomes; the text is a
/// function of the arguments alone.
#[verifier::external_body]
fn render_queue_info(
    context: Option<ContextId>,
    device: Option<usize>,
    reference_count: Option<u64>,
    out_of_order: Option<bool>,
    profiling: Option<bool>,
) -> (r: String)
    ensures
        r@ == queue_info_text(context, device, reference_count, out_of_order, profiling),
{
    format!(
        "Queue {{ Context: {:?}, Device: {:?}, ReferenceCount: {:?}, Properties: {{ out_of_order: {:?}, profiling: {:?} }} }}",
        context, device, reference_count, out_of_order, profiling,
    )
}

/// Whether a vector of device descriptors holds `device`.
fn contains_device(devices: &Vec<Device>, device: Device) -> (r: bool)
    ensures
        r == devices@.contains(device),
{
    let mut i: usize = 0;
    while i < devices.len()
        invariant
            i <= devices.len(),
            forall|j: int| 0 <= j < i ==> devices@[j] != device,
        decreases devices.len() - i,
    {
        if devices[i] == device {
            return true;
        }
        i += 1;
    }
    assert(!devices@.contains(device));
    false
}

impl Queue {
    /// The handle is an owner of a live native queue, its cached fields agree
    /// with the runtime's record of that queue, and the context and device it
    /// depends on are live too.
    pub open spec fn valid(self, m: RuntimeModel) -> bool {
        &&& self.queue_id < m.queues.len()
        &&& m.queues[self.queue_id as int].ref_count >= 1
        &&& m.queues[self.queue_id as int].context == self.context_id
        &&& m.queues[self.queue_id as int].device == self.device
        &&& m.context_live(self.context_id as int)
        &&& self.device.id < m.devices.len()
        &&& m.devices[self.device.id as int].version == self.device_version
    }

    /// Flushing succeeds exactly when the device is still present.
    pub open spec fn flush_succeeds(self, m: RuntimeModel) -> bool {
        !m.device_lost(self.device)
    }

    /// Finishing succeeds exactly when the device is still present and no
    /// outstanding command fails during execution.
    pub open spec fn finish_succeeds(self, m: RuntimeModel) -> bool {
        !m.device_lost(self.device) && m.queues[self.queue_id as int].doomed == 0
    }

    /// Returns a new queue handle on `device` under `context`; `None` for
    /// `properties` asks for the default flags (in-order, no profiling).
    ///
    /// On success the platform has allocated one native queue with this
    /// handle as its single owner, the context holds one more reference, and
    /// the handle's cached capability version equals the version the device
    /// reports at this moment. On failure the runtime is unchanged: no native
    /// object is created that would never be released.
    pub fn new(
        rt: &mut Runtime,
        context: ContextId,
        device: Device,
        properties: Option<Properties>,
    ) -> (r: Result<Queue, Error>)
        requires
            old(rt)@.wf(),
        ensures
            final(rt)@.wf(),
            r is Ok <==> old(rt)@.can_create(context as int, device, props_or_default(properties)),
            r matches Ok(q) ==> {
                &&& final(rt)@ == old(rt)@.after_create(
                    context as int,
                    device,
                    props_or_default(properties),
                )
                &&& q.queue_id == old(rt)@.queues.len()
                &&& q.context_id == context
                &&& q.device == device
                &&& q.device_version == old(rt)@.devices[device.id as int].version
                &&& q.valid(final(rt)@)
            },
            r is Err ==> r == Err::<Queue, Error>(Error::ConstructionFailure) && final(rt)@ == old(
                rt,
            )@,
    {
        let props = match properties {
            Some(p) => p,
            None => Properties { out_of_order: false, profiling: false },
        };
        if context >= rt.context_refs.len() {
            return Err(Error::ConstructionFailure);
        }
        let rc = rt.context_refs[context];
        if rc == 0 || rc == u64::MAX {
            return Err(Error::ConstructionFailure);
        }
        if device.id >= rt.devices.len() {
            return Err(Error::ConstructionFailure);
        }
        let drec = rt.devices[device.id];
        if drec.lost {
            return Err(Error::ConstructionFailure);
        }
        if !contains_device(&rt.context_devs[context], device) {
            return Err(Error::ConstructionFailure);
        }
        if (props.out_of_order && !drec.supported.out_of_order) || (props.profiling
            && !drec.supported.profiling) {
            return Err(Error::ConstructionFailure);
        }
        let queue_id = rt.queues.len();
        rt.context_refs[context] = rc + 1;
        rt.queues.push(QueueRecord {
            ref_count: 1,
            context,
            device,
            properties: props,
            pending: 0,
            in_flight: 0,
            doomed: 0,
        });
        proof {
            assert(rt@ =~= old(rt)@.after_create(context as int, device, props_or_default(properties)));
        }
        Ok(Queue { queue_id, context_id: context, device, device_version: drec.version })
    }

    /// Clones the handle: the same native queue gains one owner, and so does
    /// the context — no second native queue is created. The clone carries the
    /// same cached device and version.
    pub fn clone_handle(&self, rt: &mut Runtime) -> (q: Queue)
        requires
            old(rt)@.wf(),
            self.valid(old(rt)@),
            old(rt)@.queues[self.queue_id as int].ref_count < u64::MAX,
            old(rt)@.context_refs[self.context_id as int] < u64::MAX,
        ensures
            final(rt)@.wf(),
            q == *self,
            final(rt)@ == old(rt)@.after_retain(self.queue_id as int, self.context_id as int),
            q.valid(final(rt)@),
            self.valid(final(rt)@),
    {
        let rec = rt.queues[self.queue_id];
        rt.queues[self.queue_id] = QueueRecord { ref_count: rec.ref_count + 1, ..rec };
        let rc = rt.context_refs[self.context_id];
        rt.context_refs[self.context_id] = rc + 1;
        proof {
            assert(rt@ =~= old(rt)@.after_retain(self.queue_id as int, self.context_id as int));
        }
        Queue {
            queue_id: self.queue_id,
            context_id: self.context_id,
            device: self.device,
            device_version: self.device_version,
        }
    }

    /// Drops the handle: the native queue and the context each lose one
    /// owner; the platform destroys either object when its count reaches
    /// zero.
    pub fn release(self, rt: &mut Runtime)
        requires
            old(rt)@.wf(),
            self.valid(old(rt)@),
        ensures
            final(rt)@.wf(),
            final(rt)@ == old(rt)@.after_release(self.queue_id as int, self.context_id as int),
    {
        let rec = rt.queues[self.queue_id];
        rt.queues[self.queue_id] = QueueRecord { ref_count: rec.ref_count - 1, ..rec };
        let rc = rt.context_refs[self.context_id];
        rt.context_refs[self.context_id] = rc - 1;
        proof {
            assert(rt@ =~= old(rt)@.after_release(self.queue_id as int, self.context_id as int));
        }
    }

    /// Issues all previously enqueued commands to the device without waiting
    /// for their completion: every pending command becomes in-flight. Fails
    /// with [`Error::DispatchFailure`], leaving the runtime unchanged, exactly
    /// when the device has been lost.
    pub fn flush(&self, rt: &mut Runtime) -> (r: Result<(), Error>)
        requires
            old(rt)@.wf(),
            self.valid(old(rt)@),
        ensures
            final(rt)@.wf(),
            self.valid(final(rt)@),
            r is Ok <==> self.flush_succeeds(old(rt)@),
            r is Ok ==> final(rt)@ == old(rt)@.after_flush(self.queue_id as int),
            r is Err ==> r == Err::<(), Error>(Error::DispatchFailure) && final(rt)@ == old(rt)@,
    {
        let drec = rt.devices[self.device.id];
        if drec.lost {
            return Err(Error::DispatchFailure);
        }
        let rec = rt.queues[self.queue_id];
        rt.queues[self.queue_id] = QueueRecord {
            pending: 0,
            in_flight: rec.pending + rec.in_flight,
            ..rec
        };
        proof {
            assert(rt@ =~= old(rt)@.after_flush(self.queue_id as int));
        }
        Ok(())
    }

    /// Blocks until every command previously enqueued on this queue has
    /// completed on the device: afterwards nothing is pending or in flight.
    /// Returns [`Error::ExecutionFailure`], with the runtime unchanged, if the
    /// device has been lost; returns it after draining the queue if one of the
    /// outstanding commands failed during execution, so that a later finish
    /// can succeed again.
    pub fn finish(&self, rt: &mut Runtime) -> (r: Result<(), Error>)
        requires
            old(rt)@.wf(),
            self.valid(old(rt)@),
        ensures
            final(rt)@.wf(),
            self.valid(final(rt)@),
            r is Ok <==> self.finish_succeeds(old(rt)@),
            !old(rt)@.device_lost(self.device) ==> final(rt)@ == old(rt)@.after_finish(
                self.queue_id as int,
            ),
            old(rt)@.device_lost(self.device) ==> final(rt)@ == old(rt)@,
            r is Err ==> r == Err::<(), Error>(Error::ExecutionFailure),
    {
        let drec = rt.devices[self.device.id];
        if drec.lost {
            return Err(Error::ExecutionFailure);
        }
        let rec = rt.queues[self.queue_id];
        rt.queues[self.queue_id] = QueueRecord { pending: 0, in_flight: 0, doomed: 0, ..rec };
        proof {
            assert(rt@ =~= old(rt)@.after_finish(self.queue_id as int));
        }
        if rec.doomed > 0 {
            Err(Error::ExecutionFailure)
        } else {
            Ok(())
        }
    }

    /// Queries the platform for one attribute of this queue. On a handle the
    /// query always succeeds, and the context and device it reports agree
    /// with the handle's own cached fields.
    pub fn info(&self, rt: &Runtime, kind: QueueInfo) -> (r: Result<InfoResult, Error>)
        requires
            rt@.wf(),
            self.valid(rt@),
        ensures
            r == Ok::<InfoResult, Error>(rt@.info_value(self.queue_id as int, kind)),
            kind == QueueInfo::Context ==> r == Ok::<InfoResult, Error>(
                InfoResult::Context(self.context_id),
            ),
            kind == QueueInfo::Device ==> r == Ok::<InfoResult, Error>(
                InfoResult::Device(self.device),
            ),
            kind == QueueInfo::ReferenceCount ==> r == Ok::<InfoResult, Error>(
                InfoResult::ReferenceCount(rt@.queues[self.queue_id as int].ref_count),
            ) && rt@.queues[self.queue_id as int].ref_count >= 1,
            kind == QueueInfo::Properties ==> r == Ok::<InfoResult, Error>(
                InfoResult::Properties(rt@.queues[self.queue_id as int].properties),
            ),
    {
        rt.queue_info(self.queue_id, kind)
    }

    /// The diagnostic text for this queue: the outcome of the four
    /// informational queries rendered by [`queue_info_text`], `None` standing
    /// for a query that failed. A failed query is captured in the text rather
    /// than propagated, so rendering itself never fails.
    pub open spec fn info_text_of(self, m: RuntimeModel) -> Seq<char> {
        queue_info_text(
            if m.queue_live(self.queue_id as int) {
                Some(m.queues[self.queue_id as int].context)
            } else {
                None
            },
            if m.queue_live(self.queue_id as int) {
                Some(m.queues[self.queue_id as int].device.id)
            } else {
                None
            },
            if m.queue_live(self.queue_id as int) {
                Some(m.queues[self.queue_id as int].ref_count)
            } else {
                None
            },
            if m.queue_live(self.queue_id as int) {
                Some(m.queues[self.queue_id as int].properties.out_of_order)
            } else {
                None
            },
            if m.queue_live(self.queue_id as int) {
                Some(m.queues[self.queue_id as int].properties.profiling)
            } else {
                None
            },
        )
    }

    /// Renders a human-readable summary of the queue by querying its context,
    /// device, reference count and properties. A diagnostic view only: an
    /// inner query failure is rendered inline, never propagated.
    pub fn info_string(&self, rt: &Runtime) -> (r: String)
        ensures
            r@ == self.info_text_of(rt@),
    {
        let context: Option<ContextId> = match rt.queue_info(self.queue_id, QueueInfo::Context) {
            Ok(InfoResult::Context(c)) => Some(c),
            _ => None,
        };
        let device: Option<usize> = match rt.queue_info(self.queue_id, QueueInfo::Device) {
            Ok(InfoResult::Device(d)) => Some(d.id),
            _ => None,
        };
        let reference_count: Option<u64> = match rt.queue_info(
            self.queue_id,
            QueueInfo::ReferenceCount,
        ) {
            Ok(InfoResult::ReferenceCount(c)) => Some(c),
            _ => None,
        };
        let (out_of_order, profiling): (Option<bool>, Option<bool>) = match rt.queue_info(
            self.queue_id,
            QueueInfo::Properties,
        ) {
            Ok(InfoResult::Properties(p)) => (Some(p.out_of_order), Some(p.profiling)),
            _ => (None, None),
        };
        render_queue_info(context, device, reference_count, out_of_order, profiling)
    }

    /// The native queue handle, for collaborating components that enqueue
    /// work; borrowed access only, no ownership transferred.
    pub fn native_queue_ref(&self) -> (id: QueueId)
        ensures
            id == self.queue_id,
    {
        self.queue_id
    }

    /// The native context handle the queue retains, so that dependent
    /// operations need not query the queue for it.
    pub fn context_core(&self) -> (id: ContextId)
        ensures
            id == self.context_id,
    {
        self.context_id
    }

    /// The device this queue targets, as cached at construction.
    pub fn device(&self) -> (d: Device)
        ensures
            d == self.device,
    {
        self.device
    }

    /// The device's capability version, as cached at construction; never
    /// re-queried.
    pub fn device_version(&self) -> (v: Version)
        ensures
            v == self.device_version,
    {
        self.device_version
    }
}

} // verus!
