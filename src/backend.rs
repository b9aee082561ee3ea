use vstd::arithmetic::power2::{
    lemma2_to64, lemma_pow2_strictly_increases, lemma_pow2_unfold, pow2,
};
use vstd::prelude::*;

use crate::config::{ConfigError, DeviceIdentity, VirtioInputConfig};
use crate::event::VirtioInputEvent;
use crate::features::{
    epoll_in_bits, event_idx_bit, protocol_config_mask, protocol_features_mask, protocol_mq_mask,
    version_1_bit,
};
use crate::queue::{
    completion_of, pass_shape, rechecks, saturated_add, DescChain, DrainPass, QueueWorker,
};

verus! {

/// Largest number of queues: each queue has a worker of its own, named by
/// one bit of a 64-bit mask.
pub const MAX_QUEUES: usize = 64;

/// Features offered to the driver: VERSION_1 (bit 32), EVENT_IDX (bit 29)
/// and the vhost-user protocol features marker (bit 30).
pub open spec fn offered_features() -> u64 {
    0x1_6000_0000
}

/// Protocol features offered to the frontend: MQ and CONFIG.
pub open spec fn offered_protocol_features() -> u64 {
    0x201
}

/// Whether the driver accepted event index notification suppression.
pub open spec fn event_idx_acked(acked: u64) -> bool {
    acked & 0x2000_0000 != 0
}

/// The event set of a kick: the queue's notifier became readable.
pub open spec fn kick_evset() -> u32 {
    0x1
}

/// Why the backend refuses a request.
#[derive(Clone, Copy, Debug, PartialEq, Eq, Structural)]
pub enum InputError {
    /// A notification other than "buffers available".
    UnexpectedNotification,
    /// A kick for a queue the device does not have.
    UnknownQueue,
    /// A config access outside the laid-out region.
    InvalidArgument,
    /// A kick after shutdown was signalled.
    ShutDown,
    /// A queue count of zero, or above `MAX_QUEUES`.
    InvalidQueueCount,
}

/// The device backend: one worker per queue, the negotiated features, the
/// generation of the current guest memory map, and the config register.
pub struct VhostUserInputBackend {
    workers: Vec<QueueWorker>,
    queue_size: usize,
    acked_features: u64,
    event_idx_requested: bool,
    event_idx: bool,
    mem_generation: u64,
    config: VirtioInputConfig,
    shut_down: bool,
}

impl VhostUserInputBackend {
    /// Worker `i` serves queue `i`, and every worker sees the backend's
    /// event index switch and shutdown signal. Event index is on exactly
    /// where it was asked for and the driver accepted the feature.
    pub open spec fn wf(&self) -> bool {
        &&& self.config_spec().wf()
        &&& self.event_idx_spec() == (self.event_idx_requested_spec() && event_idx_acked(
            self.acked_features_spec(),
        ))
        &&& 0 < self.workers_spec().len() <= MAX_QUEUES
        &&& forall|i: int|
            0 <= i < self.workers_spec().len() ==> {
                &&& (#[trigger] self.workers_spec()[i]).queue_index == i
                &&& self.workers_spec()[i].event_idx == self.event_idx_spec()
                &&& self.workers_spec()[i].shut_down == self.shut_down_spec()
            }
    }

    /// The workers, worker `i` serving queue `i`; their number is fixed.
    pub closed spec fn workers_spec(&self) -> Seq<QueueWorker> {
        self.workers@
    }

    pub closed spec fn queue_size_spec(&self) -> usize {
        self.queue_size
    }

    pub closed spec fn acked_features_spec(&self) -> u64 {
        self.acked_features
    }

    /// Whether the transport asked for event index mode.
    pub closed spec fn event_idx_requested_spec(&self) -> bool {
        self.event_idx_requested
    }

    /// Whether event index mode is in effect.
    pub closed spec fn event_idx_spec(&self) -> bool {
        self.event_idx
    }

    /// The generation of the current guest memory map.
    pub closed spec fn mem_generation_spec(&self) -> u64 {
        self.mem_generation
    }

    pub closed spec fn config_spec(&self) -> VirtioInputConfig {
        self.config
    }

    pub closed spec fn shut_down_spec(&self) -> bool {
        self.shut_down
    }

    /// A backend with `num_queues` queues of depth `queue_size`, nothing
    /// negotiated yet, memory map generation 0.
    pub fn new(identity: DeviceIdentity, num_queues: usize, queue_size: usize) -> (r: Result<
        Self,
        InputError,
    >)
        ensures
            r is Ok <==> 0 < num_queues <= MAX_QUEUES,
            r matches Err(e) ==> e == InputError::InvalidQueueCount,
            r matches Ok(b) ==> {
                &&& b.wf()
                &&& b.workers_spec().len() == num_queues
                &&& b.queue_size_spec() == queue_size
                &&& b.acked_features_spec() == 0
                &&& !b.event_idx_requested_spec()
                &&& !b.event_idx_spec()
                &&& b.mem_generation_spec() == 0
                &&& !b.shut_down_spec()
                &&& b.config_spec().identity_spec() == identity
                &&& b.config_spec().select_spec() == 0
                &&& b.config_spec().subsel_spec() == 0
                &&& forall|i: int| 0 <= i < num_queues ==> (#[trigger] b.workers_spec()[i]).violations == 0
            },
    {
        if num_queues == 0 || num_queues > MAX_QUEUES {
            return Err(InputError::InvalidQueueCount);
        }
        let mut workers: Vec<QueueWorker> = Vec::new();
        let mut i: usize = 0;
        while i < num_queues
            invariant
                i <= num_queues <= MAX_QUEUES,
                workers@.len() == i,
                forall|j: int|
                    0 <= j < i ==> {
                        &&& (#[trigger] workers@[j]).queue_index == j
                        &&& !workers@[j].event_idx
                        &&& !workers@[j].shut_down
                        &&& workers@[j].violations == 0
                    },
            decreases num_queues - i,
        {
            workers.push(QueueWorker::new(i as u16));
            i = i + 1;
        }
        Ok(VhostUserInputBackend {
            workers,
            queue_size,
            acked_features: 0,
            event_idx_requested: false,
            event_idx: false,
            mem_generation: 0,
            config: VirtioInputConfig::new(identity),
            shut_down: false,
        })
    }

    pub fn num_queues(&self) -> (r: usize)
        ensures
            r == self.workers_spec().len(),
    {
        self.workers.len()
    }

    pub fn max_queue_size(&self) -> (r: usize)
        ensures
            r == self.queue_size_spec(),
    {
        self.queue_size
    }

    /// The device features offered to the driver.
    pub fn features(&self) -> (r: u64)
        ensures
            r == offered_features(),
    {
        let v1 = version_1_bit();
        let eidx = event_idx_bit();
        let pf = protocol_features_mask();
        let r = (1u64 << v1) | (1u64 << eidx) | pf;
        assert(((1u64 << 32u32) | (1u64 << 29u32)) | 0x4000_0000u64 == 0x1_6000_0000u64)
            by (bit_vector);
        r
    }

    /// The vhost-user protocol features offered to the frontend.
    pub fn protocol_features(&self) -> (r: u64)
        ensures
            r == offered_protocol_features(),
    {
        let r = protocol_mq_mask() | protocol_config_mask();
        assert(0x1u64 | 0x200u64 == 0x201u64) by (bit_vector);
        r
    }

    /// Stores the features the driver accepted, as they came. Event index
    /// mode then holds on every worker exactly where it was asked for and
    /// these features hold it, in whichever order the two arrive.
    pub fn set_acked_features(&mut self, features: u64)
        requires
            old(self).wf(),
        ensures
            final(self).wf(),
            final(self).acked_features_spec() == features,
            final(self).event_idx_requested_spec() == old(self).event_idx_requested_spec(),
            final(self).event_idx_spec() == (old(self).event_idx_requested_spec()
                && event_idx_acked(features)),
            final(self).workers_spec().len() == old(self).workers_spec().len(),
            forall|i: int|
                0 <= i < old(self).workers_spec().len() ==> (#[trigger] final(self).workers_spec()[i]).violations
                    == old(self).workers_spec()[i].violations,
            final(self).config_spec() == old(self).config_spec(),
            final(self).mem_generation_spec() == old(self).mem_generation_spec(),
            final(self).queue_size_spec() == old(self).queue_size_spec(),
            final(self).shut_down_spec() == old(self).shut_down_spec(),
    {
        self.acked_features = features;
        let on = self.event_idx_requested && (features & (1u64 << event_idx_bit())) != 0;
        assert(1u64 << 29u32 == 0x2000_0000u64) by (bit_vector);
        self.broadcast_event_idx(on);
    }

    /// Sets the event index switch of the backend and of every worker.
    fn broadcast_event_idx(&mut self, on: bool)
        requires
            old(self).config_spec().wf(),
            0 < old(self).workers_spec().len() <= MAX_QUEUES,
            on == (old(self).event_idx_requested_spec() && event_idx_acked(
                old(self).acked_features_spec(),
            )),
            forall|j: int|
                0 <= j < old(self).workers_spec().len() ==> {
                    &&& (#[trigger] old(self).workers_spec()[j]).queue_index == j
                    &&& old(self).workers_spec()[j].shut_down == old(self).shut_down_spec()
                },
        ensures
            final(self).wf(),
            final(self).event_idx_spec() == on,
            final(self).event_idx_requested_spec() == old(self).event_idx_requested_spec(),
            final(self).workers_spec().len() == old(self).workers_spec().len(),
            forall|i: int|
                0 <= i < old(self).workers_spec().len() ==> (#[trigger] final(self).workers_spec()[i]).violations
                    == old(self).workers_spec()[i].violations,
            final(self).config_spec() == old(self).config_spec(),
            final(self).acked_features_spec() == old(self).acked_features_spec(),
            final(self).mem_generation_spec() == old(self).mem_generation_spec(),
            final(self).queue_size_spec() == old(self).queue_size_spec(),
            final(self).shut_down_spec() == old(self).shut_down_spec(),
    {
        self.event_idx = on;
        let n = self.workers.len();
        let mut i: usize = 0;
        while i < n
            invariant
                n == self.workers@.len() == old(self).workers@.len(),
                0 < n <= MAX_QUEUES,
                i <= n,
                self.event_idx == on,
                on == (self.event_idx_requested && event_idx_acked(self.acked_features)),
                self.event_idx_requested == old(self).event_idx_requested,
                self.shut_down == old(self).shut_down,
                self.config == old(self).config,
                self.acked_features == old(self).acked_features,
                self.mem_generation == old(self).mem_generation,
                self.queue_size == old(self).queue_size,
                self.config.wf(),
                forall|j: int|
                    0 <= j < n ==> {
                        &&& (#[trigger] self.workers@[j]).queue_index == j
                        &&& self.workers@[j].shut_down == self.shut_down
                        &&& self.workers@[j].violations == old(self).workers@[j].violations
                        &&& (j < i ==> self.workers@[j].event_idx == on)
                    },
            decreases n - i,
        {
            let mut w = self.workers[i];
            w.event_idx = on;
            self.workers.set(i, w);
            i = i + 1;
        }
    }

    pub fn acked_features(&self) -> (r: u64)
        ensures
            r == self.acked_features_spec(),
    {
        self.acked_features
    }

    /// Records whether the transport asks for event index mode and switches
    /// it on every worker at once: it holds where it is asked for and the
    /// driver accepted the feature. Features acked later switch it again.
    pub fn set_event_idx(&mut self, enabled: bool)
        requires
            old(self).wf(),
        ensures
            final(self).wf(),
            final(self).event_idx_requested_spec() == enabled,
            final(self).event_idx_spec() == (enabled && event_idx_acked(
                old(self).acked_features_spec(),
            )),
            final(self).workers_spec().len() == old(self).workers_spec().len(),
            forall|i: int|
                0 <= i < old(self).workers_spec().len() ==> (#[trigger] final(self).workers_spec()[i]).violations
                    == old(self).workers_spec()[i].violations,
            final(self).config_spec() == old(self).config_spec(),
            final(self).acked_features_spec() == old(self).acked_features_spec(),
            final(self).mem_generation_spec() == old(self).mem_generation_spec(),
            final(self).queue_size_spec() == old(self).queue_size_spec(),
            final(self).shut_down_spec() == old(self).shut_down_spec(),
    {
        self.event_idx_requested = enabled;
        let on = enabled && (self.acked_features & (1u64 << event_idx_bit())) != 0;
        assert(1u64 << 29u32 == 0x2000_0000u64) by (bit_vector);
        self.broadcast_event_idx(on);
    }

    /// Replaces the guest memory map: later passes write through the new
    /// generation.
    pub fn update_memory(&mut self)
        requires
            old(self).wf(),
        ensures
            final(self).wf(),
            final(self).mem_generation_spec() == if old(self).mem_generation_spec() == u64::MAX {
                0
            } else {
                (old(self).mem_generation_spec() + 1) as u64
            },
            final(self).workers_spec() == old(self).workers_spec(),
            final(self).config_spec() == old(self).config_spec(),
            final(self).acked_features_spec() == old(self).acked_features_spec(),
            final(self).event_idx_requested_spec() == old(self).event_idx_requested_spec(),
            final(self).event_idx_spec() == old(self).event_idx_spec(),
            final(self).queue_size_spec() == old(self).queue_size_spec(),
            final(self).shut_down_spec() == old(self).shut_down_spec(),
    {
        self.mem_generation = self.mem_generation.wrapping_add(1);
    }

    /// Routes a kick on queue `device_event` to that queue's worker, which
    /// makes one pass over `chains`, the chains available on the queue, with
    /// the current memory map. `evset` must be the "buffers available"
    /// event set; a kick after shutdown is declined.
    pub fn handle_event(
        &mut self,
        device_event: u16,
        evset: u32,
        chains: &Vec<DescChain>,
        pending: &mut Vec<VirtioInputEvent>,
    ) -> (r: Result<DrainPass, InputError>)
        requires
            old(self).wf(),
        ensures
            final(self).wf(),
            r is Ok <==> (evset == kick_evset() && (device_event as int) < old(
                self,
            ).workers_spec().len() && !old(self).shut_down_spec()),
            r matches Err(e) ==> {
                &&& e == (if evset != kick_evset() {
                    InputError::UnexpectedNotification
                } else if device_event as int >= old(self).workers_spec().len() {
                    InputError::UnknownQueue
                } else {
                    InputError::ShutDown
                })
                &&& *final(self) == *old(self)
                &&& *final(pending) == *old(pending)
            },
            r matches Ok(p) ==> {
                let q = device_event as int;
                let w = old(self).workers_spec()[q];
                &&& pass_shape(
                    chains@,
                    old(pending)@.len(),
                    p.completions@.len(),
                    p.delivered as nat,
                )
                &&& forall|j: int|
                    0 <= j < p.completions@.len() ==> p.completions@[j] == completion_of(
                        chains@,
                        old(pending)@,
                        old(self).mem_generation_spec(),
                        j,
                    )
                &&& final(pending)@ == old(pending)@.skip(p.delivered as int)
                &&& final(self).workers_spec() == old(self).workers_spec().update(
                    q,
                    QueueWorker {
                        violations: saturated_add(
                            w.violations,
                            (p.completions@.len() - p.delivered) as nat,
                        ),
                        ..w
                    },
                )
                &&& final(self).config_spec() == old(self).config_spec()
                &&& final(self).acked_features_spec() == old(self).acked_features_spec()
                &&& final(self).event_idx_requested_spec() == old(self).event_idx_requested_spec()
                &&& final(self).event_idx_spec() == old(self).event_idx_spec()
                &&& final(self).mem_generation_spec() == old(self).mem_generation_spec()
                &&& final(self).queue_size_spec() == old(self).queue_size_spec()
                &&& final(self).shut_down_spec() == old(self).shut_down_spec()
            },
    {
        if evset != epoll_in_bits() {
            return Err(InputError::UnexpectedNotification);
        }
        if device_event as usize >= self.workers.len() {
            return Err(InputError::UnknownQueue);
        }
        if self.shut_down {
            return Err(InputError::ShutDown);
        }
        let q = device_event as usize;
        let mut w = self.workers[q];
        let pass = w.drain(self.mem_generation, chains, pending);
        self.workers.set(q, w);
        Ok(pass)
    }

    /// Whether queue `queue_index`, after a pass that consumed `consumed`
    /// chains and published them, makes another pass in the same kick
    /// because the re-check found more chains.
    pub fn recheck_after_publish(
        &self,
        queue_index: usize,
        consumed: usize,
        more_available: bool,
    ) -> (r: bool)
        requires
            self.wf(),
            queue_index < self.workers_spec().len(),
        ensures
            r == rechecks(self.event_idx_spec(), consumed as nat, more_available),
    {
        self.workers[queue_index].recheck_after_publish(consumed, more_available)
    }

    /// Reads `size` bytes of the config region at `offset`.
    pub fn get_config(&self, offset: u32, size: u32) -> (r: Result<Vec<u8>, InputError>)
        requires
            self.wf(),
        ensures
            r is Ok <==> self.config_spec().in_range(offset as int, size as int),
            r matches Ok(v) ==> v@ == self.config_spec().layout().subrange(offset as int, offset + size),
            r matches Err(e) ==> e == InputError::InvalidArgument,
    {
        match self.config.read(offset, size) {
            Ok(v) => Ok(v),
            Err(ConfigError::OutOfRange) => Err(InputError::InvalidArgument),
        }
    }

    /// Writes `buf` into the config region at `offset`.
    pub fn set_config(&mut self, offset: u32, buf: &[u8]) -> (r: Result<(), InputError>)
        requires
            old(self).wf(),
        ensures
            final(self).wf(),
            r is Ok <==> old(self).config_spec().in_range(offset as int, buf@.len() as int),
            r is Ok ==> old(self).config_spec().written(final(self).config_spec(), offset as int, buf@),
            r matches Err(e) ==> e == InputError::InvalidArgument && *final(self) == *old(self),
            final(self).workers_spec() == old(self).workers_spec(),
            final(self).acked_features_spec() == old(self).acked_features_spec(),
            final(self).event_idx_requested_spec() == old(self).event_idx_requested_spec(),
            final(self).event_idx_spec() == old(self).event_idx_spec(),
            final(self).mem_generation_spec() == old(self).mem_generation_spec(),
            final(self).queue_size_spec() == old(self).queue_size_spec(),
            final(self).shut_down_spec() == old(self).shut_down_spec(),
    {
        match self.config.write(offset, buf) {
            Ok(()) => Ok(()),
            Err(ConfigError::OutOfRange) => Err(InputError::InvalidArgument),
        }
    }

    /// Which queues each worker serves, as one bit mask per worker: worker
    /// `i` serves queue `i` alone.
    pub fn queues_per_thread(&self) -> (r: Vec<u64>)
        requires
            self.wf(),
        ensures
            r@.len() == self.workers_spec().len(),
            forall|i: int| 0 <= i < r@.len() ==> r@[i] as nat == pow2(i as nat),
    {
        let n = self.workers.len();
        let mut out: Vec<u64> = Vec::new();
        let mut mask: u64 = 1;
        let mut i: usize = 0;
        proof { lemma2_to64(); }
        while i < n
            invariant
                n == self.workers@.len() <= MAX_QUEUES,
                i <= n,
                out@.len() == i,
                i < n ==> mask as nat == pow2(i as nat),
                forall|j: int| 0 <= j < i ==> out@[j] as nat == pow2(j as nat),
            decreases n - i,
        {
            out.push(mask);
            if i + 1 < n {
                proof {
                    lemma_pow2_unfold((i + 1) as nat);
                    lemma_pow2_strictly_increases((i + 1) as nat, 64);
                    lemma2_to64();
                }
                mask = mask * 2;
            }
            i = i + 1;
        }
        out
    }

    /// Signals shutdown to every worker: later kicks are declined.
    pub fn shutdown(&mut self)
        requires
            old(self).wf(),
        ensures
            final(self).wf(),
            final(self).shut_down_spec(),
            final(self).workers_spec().len() == old(self).workers_spec().len(),
            forall|i: int|
                0 <= i < old(self).workers_spec().len() ==> (#[trigger] final(self).workers_spec()[i]).violations
                    == old(self).workers_spec()[i].violations,
            final(self).config_spec() == old(self).config_spec(),
            final(self).acked_features_spec() == old(self).acked_features_spec(),
            final(self).event_idx_requested_spec() == old(self).event_idx_requested_spec(),
            final(self).event_idx_spec() == old(self).event_idx_spec(),
            final(self).mem_generation_spec() == old(self).mem_generation_spec(),
            final(self).queue_size_spec() == old(self).queue_size_spec(),
    {
        self.shut_down = true;
        let n = self.workers.len();
        let mut i: usize = 0;
        while i < n
            invariant
                n == self.workers@.len() == old(self).workers@.len(),
                0 < n <= MAX_QUEUES,
                i <= n,
                self.shut_down,
                self.event_idx_requested == old(self).event_idx_requested,
                self.event_idx == old(self).event_idx,
                self.config == old(self).config,
                self.acked_features == old(self).acked_features,
                self.mem_generation == old(self).mem_generation,
                self.queue_size == old(self).queue_size,
                self.config.wf(),
                forall|j: int|
                    0 <= j < n ==> {
                        &&& (#[trigger] self.workers@[j]).queue_index == j
                        &&& self.workers@[j].event_idx == self.event_idx
                        &&& self.workers@[j].violations == old(self).workers@[j].violations
                        &&& (j < i ==> self.workers@[j].shut_down)
                    },
            decreases n - i,
        {
            let mut w = self.workers[i];
            w.shut_down = true;
            self.workers.set(i, w);
            i = i + 1;
        }
    }

    pub fn is_shut_down(&self) -> (r: bool)
        ensures
            r == self.shut_down_spec(),
    {
        self.shut_down
    }

    /// Whether event index mode is in effect.
    pub fn event_idx(&self) -> (r: bool)
        ensures
            r == self.event_idx_spec(),
    {
        self.event_idx
    }

    /// The generation of the current guest memory map.
    pub fn mem_generation(&self) -> (r: u64)
        ensures
            r == self.mem_generation_spec(),
    {
        self.mem_generation
    }

    /// The worker of queue `queue_index`.
    pub fn worker(&self, queue_index: usize) -> (r: QueueWorker)
        requires
            queue_index < self.workers_spec().len(),
        ensures
            r == self.workers_spec()[queue_index as int],
    {
        self.workers[queue_index]
    }

    pub fn config(&self) -> (r: &VirtioInputConfig)
        ensures
            *r == self.config_spec(),
    {
        &self.config
    }
}

/// Where the driver did not accept event index, no kick makes a second
/// pass, whatever the passes consumed and the re-checks found.
pub proof fn lemma_no_recheck_unless_acked(b: VhostUserInputBackend, consumed: nat, more: bool)
    requires
        b.wf(),
        !event_idx_acked(b.acked_features_spec()),
    ensures
        !b.event_idx_spec(),
        !rechecks(b.event_idx_spec(), consumed, more),
{
}

} // verus!
