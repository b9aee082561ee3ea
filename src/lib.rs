//! Device emulation engine of a virtio input device served over vhost-user.
//!
//! The library holds the logic of the device: the configuration register
//! block the guest driver queries, the wire format of input events, the
//! per-queue worker that fills guest buffers with events, and the backend
//! that negotiates features and routes kicks. Guest memory and the vring
//! itself are touched by the caller, who hands the library plain values.

mod wire;
mod features;
pub mod config;
pub mod event;
pub mod queue;
pub mod backend;

pub use backend::{InputError, VhostUserInputBackend};
pub use config::{
    AbsAxis, ConfigError, DeviceIdentity, EvBits, VirtioInputAbsInfo, VirtioInputConfig,
    VirtioInputDevIDs,
};
pub use event::{HostInputEvent, VirtioInputEvent};
pub use queue::{Completion, DescChain, DescSegment, DrainPass, EventWrite, QueueWorker};
