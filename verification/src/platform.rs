//! The platform runtime, modelled as explicit state.
//!
//! A real compute platform holds its command queues, contexts and devices as
//! native, reference-counted objects behind opaque handles. This module
//! models that runtime as a value: [`Runtime`] keeps one record per native
//! object, with its reference count, so that the ownership discipline of the
//! queue handle can be stated and verified. Handles into the runtime are
//! plain indices ([`QueueId`], [`ContextId`], [`Device`]); an object is live
//! while its reference count is at least one, and destroyed when the count
//! reaches zero.
//!
//! A device's capability version is assumed stable for the life of the
//! runtime: nothing here ever rewrites a registered version, which is what
//! lets a queue handle cache it at construction.

use vstd::prelude::*;

verus! {

/// Index of a native context object within the runtime.
pub type ContextId = usize;

/// Index of a native command-queue object within the runtime.
pub type QueueId = usize;

/// The capability version a device supports: the highest platform/runtime
/// version its driver implements.
#[derive(Clone, Copy, Debug, PartialEq, Eq, Structural)]
pub struct Version {
    pub major: u32,
    pub minor: u32,
}

/// Property flags a command queue may be created with.
#[derive(Clone, Copy, Debug, PartialEq, Eq, Structural)]
pub struct Properties {
    /// Commands may be dispatched out of program order.
    pub out_of_order: bool,
    /// Profiling information is collected for enqueued commands.
    pub profiling: bool,
}

/// A device descriptor: the identity of one compute device. Its capability
/// metadata (version, supported queue properties) lives in the runtime and is
/// queried through it.
#[derive(Clone, Copy, Debug, PartialEq, Eq, Structural)]
pub struct Device {
    pub id: usize,
}

/// The failure kinds the platform reports.
#[derive(Clone, Copy, Debug, PartialEq, Eq, Structural)]
pub enum Error {
    /// The platform refused to create a queue for the given context, device
    /// and properties, or the device-version query failed.
    ConstructionFailure,
    /// Pending commands could not be submitted (invalid queue state, device
    /// unavailable).
    DispatchFailure,
    /// An enqueued command failed during execution, or the device was lost
    /// while waiting for completion.
    ExecutionFailure,
    /// An informational query for an unsupported or inapplicable attribute.
    InfoQueryFailure,
}

/// The attribute kinds a command queue can be queried for.
#[derive(Clone, Copy, Debug, PartialEq, Eq, Structural)]
pub enum QueueInfo {
    Context,
    Device,
    ReferenceCount,
    Properties,
}

/// The tagged result of a queue-information query, matching the requested
/// [`QueueInfo`] kind.
#[derive(Clone, Copy, Debug, PartialEq, Eq, Structural)]
pub enum InfoResult {
    Context(ContextId),
    Device(Device),
    ReferenceCount(u64),
    Properties(Properties),
}

/// The runtime's record of one registered device.
#[derive(Clone, Copy, Debug, PartialEq, Eq, Structural)]
pub struct DeviceRecord {
    /// The capability version the device supports.
    pub version: Version,
    /// The queue property flags the device accepts.
    pub supported: Properties,
    /// Whether the device has been lost (driver failure, removal).
    pub lost: bool,
}

/// The runtime's record of one native command-queue object.
#[derive(Clone, Copy, Debug, PartialEq, Eq, Structural)]
pub struct QueueRecord {
    /// Owners of the native object; zero means destroyed.
    pub ref_count: u64,
    /// The context the queue was created under.
    pub context: ContextId,
    /// The device the queue targets.
    pub device: Device,
    /// The property flags the queue was created with.
    pub properties: Properties,
    /// Commands enqueued client-side, not yet dispatched to the device.
    pub pending: u64,
    /// Commands dispatched to the device, not yet complete.
    pub in_flight: u64,
    /// Among the pending and in-flight commands, those that will fail when
    /// executed.
    pub doomed: u64,
}

/// The mathematical model of the runtime: one sequence per object table.
#[verifier::ext_equal]
pub ghost struct RuntimeModel {
    /// Reference count of each context; zero means destroyed.
    pub context_refs: Seq<u64>,
    /// The devices each context was created over.
    pub context_devs: Seq<Seq<Device>>,
    /// Each registered device.
    pub devices: Seq<DeviceRecord>,
    /// Each native command-queue object ever created.
    pub queues: Seq<QueueRecord>,
}

/// The queue properties used when a caller supplies none.
pub open spec fn props_or_default(properties: Option<Properties>) -> Properties {
    match properties {
        Some(p) => p,
        None => Properties { out_of_order: false, profiling: false },
    }
}

/// Whether a device accepts every flag that `requested` asks for.
pub open spec fn props_supported(requested: Properties, supported: Properties) -> bool {
    &&& requested.out_of_order ==> supported.out_of_order
    &&& requested.profiling ==> supported.profiling
}

impl RuntimeModel {
    /// Well-formedness: the two context tables run in parallel, and every
    /// queue record points into the tables and keeps its command counters
    /// within machine bounds.
    pub open spec fn wf(self) -> bool {
        &&& self.context_refs.len() == self.context_devs.len()
        &&& forall|i: int|
            0 <= i < self.queues.len() ==> {
                let r = #[trigger] self.queues[i];
                &&& r.pending + r.in_flight <= u64::MAX
                &&& r.doomed <= r.pending + r.in_flight
                &&& r.context < self.context_refs.len()
                &&& r.device.id < self.devices.len()
            }
    }

    /// A context is live while at least one owner still references it.
    pub open spec fn context_live(self, context: int) -> bool {
        0 <= context < self.context_refs.len() && self.context_refs[context] >= 1
    }

    /// A queue is live while at least one owner still references it.
    pub open spec fn queue_live(self, queue: int) -> bool {
        0 <= queue < self.queues.len() && self.queues[queue].ref_count >= 1
    }

    /// Whether `device` is registered with the runtime.
    pub open spec fn device_known(self, device: Device) -> bool {
        device.id < self.devices.len()
    }

    /// Whether a registered device has been lost.
    pub open spec fn device_lost(self, device: Device) -> bool {
        self.devices[device.id as int].lost
    }

    /// Whether every device of `devs` is registered with the runtime.
    pub open spec fn devices_known(self, devs: Seq<Device>) -> bool {
        forall|j: int| 0 <= j < devs.len() ==> (#[trigger] devs[j]).id < self.devices.len()
    }

    /// When the platform creates a queue for (context, device, properties):
    /// the context is live with headroom for one more owner, the device is
    /// registered, present, and associated with the context, and the device
    /// accepts the requested property flags.
    pub open spec fn can_create(self, context: int, device: Device, properties: Properties) -> bool {
        &&& self.context_live(context)
        &&& self.context_refs[context] < u64::MAX
        &&& self.device_known(device)
        &&& !self.device_lost(device)
        &&& self.context_devs[context].contains(device)
        &&& props_supported(properties, self.devices[device.id as int].supported)
    }

    /// The record a newly created queue starts from.
    pub open spec fn fresh_queue(context: int, device: Device, properties: Properties) -> QueueRecord {
        QueueRecord {
            ref_count: 1,
            context: context as ContextId,
            device,
            properties,
            pending: 0,
            in_flight: 0,
            doomed: 0,
        }
    }

    /// The runtime after a device is registered.
    pub open spec fn after_register_device(self, version: Version, supported: Properties) -> RuntimeModel {
        RuntimeModel {
            devices: self.devices.push(DeviceRecord { version, supported, lost: false }),
            ..self
        }
    }

    /// The runtime after a context is created over `devs`, with its creator
    /// as the single owner.
    pub open spec fn after_create_context(self, devs: Seq<Device>) -> RuntimeModel {
        RuntimeModel {
            context_refs: self.context_refs.push(1),
            context_devs: self.context_devs.push(devs),
            ..self
        }
    }

    /// The runtime after one owner of a context lets go of it.
    pub open spec fn after_release_context(self, context: int) -> RuntimeModel {
        RuntimeModel {
            context_refs: self.context_refs.update(
                context,
                (self.context_refs[context] - 1) as u64,
            ),
            ..self
        }
    }

    /// The runtime after a registered device is lost.
    pub open spec fn after_lose_device(self, device: Device) -> RuntimeModel {
        RuntimeModel {
            devices: self.devices.update(
                device.id as int,
                DeviceRecord { lost: true, ..self.devices[device.id as int] },
            ),
            ..self
        }
    }

    /// The runtime after a queue is created: the new native queue starts with
    /// one owner, and the queue retains its context.
    pub open spec fn after_create(self, context: int, device: Device, properties: Properties) -> RuntimeModel {
        RuntimeModel {
            context_refs: self.context_refs.update(
                context,
                (self.context_refs[context] + 1) as u64,
            ),
            queues: self.queues.push(RuntimeModel::fresh_queue(context, device, properties)),
            ..self
        }
    }

    /// The runtime after a queue handle is cloned: one more owner on the
    /// native queue and on its context.
    pub open spec fn after_retain(self, queue: int, context: int) -> RuntimeModel {
        RuntimeModel {
            context_refs: self.context_refs.update(
                context,
                (self.context_refs[context] + 1) as u64,
            ),
            queues: self.queues.update(
                queue,
                QueueRecord {
                    ref_count: (self.queues[queue].ref_count + 1) as u64,
                    ..self.queues[queue]
                },
            ),
            ..self
        }
    }

    /// The runtime after a queue handle is dropped: one owner fewer on the
    /// native queue and on its context; either object is destroyed by the
    /// platform when its count reaches zero.
    pub open spec fn after_release(self, queue: int, context: int) -> RuntimeModel {
        RuntimeModel {
            context_refs: self.context_refs.update(
                context,
                (self.context_refs[context] - 1) as u64,
            ),
            queues: self.queues.update(
                queue,
                QueueRecord {
                    ref_count: (self.queues[queue].ref_count - 1) as u64,
                    ..self.queues[queue]
                },
            ),
            ..self
        }
    }

    /// The runtime after a command is enqueued on a queue.
    pub open spec fn after_enqueue(self, queue: int, fails: bool) -> RuntimeModel {
        RuntimeModel {
            queues: self.queues.update(
                queue,
                QueueRecord {
                    pending: (self.queues[queue].pending + 1) as u64,
                    doomed: if fails {
                        (self.queues[queue].doomed + 1) as u64
                    } else {
                        self.queues[queue].doomed
                    },
                    ..self.queues[queue]
                },
            ),
            ..self
        }
    }

    /// The runtime after a flush: every pending command is dispatched to the
    /// device, none is waited for.
    pub open spec fn after_flush(self, queue: int) -> RuntimeModel {
        RuntimeModel {
            queues: self.queues.update(
                queue,
                QueueRecord {
                    pending: 0,
                    in_flight: (self.queues[queue].pending + self.queues[queue].in_flight) as u64,
                    ..self.queues[queue]
                },
            ),
            ..self
        }
    }

    /// The runtime after a finish: every command previously enqueued on the
    /// queue — dispatched or not — has completed on the device.
    pub open spec fn after_finish(self, queue: int) -> RuntimeModel {
        RuntimeModel {
            queues: self.queues.update(
                queue,
                QueueRecord { pending: 0, in_flight: 0, doomed: 0, ..self.queues[queue] },
            ),
            ..self
        }
    }

    /// The value an informational query on a live queue returns for `kind`.
    pub open spec fn info_value(self, queue: int, kind: QueueInfo) -> InfoResult {
        match kind {
            QueueInfo::Context => InfoResult::Context(self.queues[queue].context),
            QueueInfo::Device => InfoResult::Device(self.queues[queue].device),
            QueueInfo::ReferenceCount => InfoResult::ReferenceCount(self.queues[queue].ref_count),
            QueueInfo::Properties => InfoResult::Properties(self.queues[queue].properties),
        }
    }
}

/// The platform runtime state: one record per native object. Collaborators
/// hold indices into it and go through its operations; an object's reference
/// count tracks how many owners it still has.
pub struct Runtime {
    /// Reference count of each context.
    pub context_refs: Vec<u64>,
    /// The devices each context was created over.
    pub context_devs: Vec<Vec<Device>>,
    /// Each registered device.
    pub devices: Vec<DeviceRecord>,
    /// Each native command-queue object ever created.
    pub queues: Vec<QueueRecord>,
}

impl View for Runtime {
    type V = RuntimeModel;

    open spec fn view(&self) -> RuntimeModel {
        RuntimeModel {
            context_refs: self.context_refs@,
            context_devs: self.context_devs@.map_values(|v: Vec<Device>| v@),
            devices: self.devices@,
            queues: self.queues@,
        }
    }
}

impl Runtime {
    /// A fresh runtime with no objects.
    pub fn new() -> (rt: Runtime)
        ensures
            rt@.wf(),
            rt@.context_refs.len() == 0,
            rt@.context_devs.len() == 0,
            rt@.devices.len() == 0,
            rt@.queues.len() == 0,
    {
        Runtime {
            context_refs: Vec::new(),
            context_devs: Vec::new(),
            devices: Vec::new(),
            queues: Vec::new(),
        }
    }

    /// Registers a device with the runtime: its capability version and the
    /// queue property flags it accepts. The version is held stable from here
    /// on.
    pub fn register_device(&mut self, version: Version, supported: Properties) -> (d: Device)
        requires
            old(self)@.wf(),
        ensures
            final(self)@.wf(),
            d.id == old(self)@.devices.len(),
            final(self)@ == old(self)@.after_register_device(version, supported),
    {
        let id = self.devices.len();
        self.devices.push(DeviceRecord { version, supported, lost: false });
        proof {
            assert(self@ =~= old(self)@.after_register_device(version, supported));
        }
        Device { id }
    }

    /// Creates a context over the given devices, owned once by its creator.
    /// Fails with [`Error::ConstructionFailure`] exactly when one of the
    /// devices is not registered.
    pub fn create_context(&mut self, devices: Vec<Device>) -> (r: Result<ContextId, Error>)
        requires
            old(self)@.wf(),
        ensures
            final(self)@.wf(),
            r is Ok <==> old(self)@.devices_known(devices@),
            r matches Ok(c) ==> c == old(self)@.context_refs.len() && final(self)@
                == old(self)@.after_create_context(devices@),
            r is Err ==> r == Err::<ContextId, Error>(Error::ConstructionFailure) && final(self)@
                == old(self)@,
    {
        let ghost dseq = devices@;
        let mut i: usize = 0;
        while i < devices.len()
            invariant
                old(self)@.wf(),
                self@ == old(self)@,
                i <= devices.len(),
                forall|j: int| 0 <= j < i ==> (#[trigger] dseq[j]).id < self.devices@.len(),
                devices@ == dseq,
            decreases devices.len() - i,
        {
            if devices[i].id >= self.devices.len() {
                assert(!self@.devices_known(dseq));
                return Err(Error::ConstructionFailure);
            }
            i += 1;
        }
        let context = self.context_refs.len();
        self.context_refs.push(1);
        self.context_devs.push(devices);
        proof {
            assert(self@.context_devs =~= old(self)@.context_devs.push(dseq));
            assert(self@ =~= old(self)@.after_create_context(dseq));
        }
        Ok(context)
    }

    /// One owner of a live context lets go of it; the platform destroys the
    /// context when its count reaches zero.
    pub fn release_context(&mut self, context: ContextId)
        requires
            old(self)@.wf(),
            old(self)@.context_live(context as int),
        ensures
            final(self)@.wf(),
            final(self)@ == old(self)@.after_release_context(context as int),
    {
        let rc = self.context_refs[context];
        self.context_refs[context] = rc - 1;
        proof {
            assert(self@ =~= old(self)@.after_release_context(context as int));
        }
    }

    /// Whether a context is still live: some owner still references it.
    pub fn context_live(&self, context: ContextId) -> (r: bool)
        ensures
            r == self@.context_live(context as int),
    {
        context < self.context_refs.len() && self.context_refs[context] >= 1
    }

    /// Marks a registered device as lost, as after a driver failure: queue
    /// creation and submission against it fail from here on.
    pub fn lose_device(&mut self, device: Device)
        requires
            old(self)@.wf(),
            old(self)@.device_known(device),
        ensures
            final(self)@.wf(),
            final(self)@ == old(self)@.after_lose_device(device),
    {
        let rec = self.devices[device.id];
        self.devices[device.id] = DeviceRecord { lost: true, ..rec };
        proof {
            assert(self@ =~= old(self)@.after_lose_device(device));
        }
    }

    /// Queries the capability version a device supports. Fails exactly when
    /// the device is not registered with the runtime.
    pub fn device_version(&self, device: Device) -> (r: Result<Version, Error>)
        ensures
            self@.device_known(device) ==> r == Ok::<Version, Error>(
                self@.devices[device.id as int].version,
            ),
            !self@.device_known(device) ==> r == Err::<Version, Error>(Error::InfoQueryFailure),
    {
        if device.id < self.devices.len() {
            Ok(self.devices[device.id].version)
        } else {
            Err(Error::InfoQueryFailure)
        }
    }

    /// A collaborator submits one command on a queue; `fails` marks a command
    /// that will fail when the device executes it. The command stays pending
    /// client-side until the queue is flushed or finished. Fails with
    /// [`Error::DispatchFailure`] exactly when the queue is not live or has no
    /// room for another command.
    pub fn enqueue_command(&mut self, queue: QueueId, fails: bool) -> (r: Result<(), Error>)
        requires
            old(self)@.wf(),
        ensures
            final(self)@.wf(),
            r is Ok <==> old(self)@.queue_live(queue as int) && old(self)@.queues[queue as int].pending
                + old(self)@.queues[queue as int].in_flight < u64::MAX,
            r is Ok ==> final(self)@ == old(self)@.after_enqueue(queue as int, fails),
            r is Err ==> r == Err::<(), Error>(Error::DispatchFailure) && final(self)@ == old(self)@,
    {
        if queue >= self.queues.len() {
            return Err(Error::DispatchFailure);
        }
        let rec = self.queues[queue];
        if rec.ref_count == 0 {
            return Err(Error::DispatchFailure);
        }
        if rec.in_flight >= u64::MAX - rec.pending {
            return Err(Error::DispatchFailure);
        }
        proof {
            assert(old(self)@.queues[queue as int].doomed <= old(self)@.queues[queue as int].pending
                + old(self)@.queues[queue as int].in_flight);
        }
        self.queues[queue] = QueueRecord {
            pending: rec.pending + 1,
            doomed: if fails {
                rec.doomed + 1
            } else {
                rec.doomed
            },
            ..rec
        };
        proof {
            assert(self@ =~= old(self)@.after_enqueue(queue as int, fails));
        }
        Ok(())
    }

    /// Queries one attribute of a native queue object. Fails with
    /// [`Error::InfoQueryFailure`] exactly when the queue is not live, so
    /// that every attribute is inapplicable.
    pub fn queue_info(&self, queue: QueueId, kind: QueueInfo) -> (r: Result<InfoResult, Error>)
        ensures
            self@.queue_live(queue as int) ==> r == Ok::<InfoResult, Error>(
                self@.info_value(queue as int, kind),
            ),
            !self@.queue_live(queue as int) ==> r == Err::<InfoResult, Error>(
                Error::InfoQueryFailure,
            ),
    {
        if queue >= self.queues.len() {
            return Err(Error::InfoQueryFailure);
        }
        let rec = self.queues[queue];
        if rec.ref_count == 0 {
            return Err(Error::InfoQueryFailure);
        }
        match kind {
            QueueInfo::Context => Ok(InfoResult::Context(rec.context)),
            QueueInfo::Device => Ok(InfoResult::Device(rec.device)),
            QueueInfo::ReferenceCount => Ok(InfoResult::ReferenceCount(rec.ref_count)),
            QueueInfo::Properties => Ok(InfoResult::Properties(rec.properties)),
        }
    }
}

} // verus!
