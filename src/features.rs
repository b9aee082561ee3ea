use vstd::prelude::*;

verus! {

/// Relies on virtio_bindings::virtio_config::VIRTIO_F_VERSION_1: the
/// feature bit of a virtio 1.0 device, bit 32.
#[verifier::external_body]
pub(crate) fn version_1_bit() -> (r: u32)
    ensures
        r == 32,
{
    virtio_bindings::virtio_config::VIRTIO_F_VERSION_1
}

/// Relies on virtio_bindings::virtio_ring::VIRTIO_RING_F_EVENT_IDX: the
/// feature bit of event index notification suppression, bit 29.
#[verifier::external_body]
pub(crate) fn event_idx_bit() -> (r: u32)
    ensures
        r == 29,
{
    virtio_bindings::virtio_ring::VIRTIO_RING_F_EVENT_IDX
}

/// Relies on vhost's VhostUserVirtioFeatures::PROTOCOL_FEATURES: the
/// feature mask that announces vhost-user protocol features, 0x4000_0000.
#[verifier::external_body]
pub(crate) fn protocol_features_mask() -> (r: u64)
    ensures
        r == 0x4000_0000,
{
    vhost::vhost_user::VhostUserVirtioFeatures::PROTOCOL_FEATURES.bits()
}

/// Relies on vhost's VhostUserProtocolFeatures::MQ: the protocol feature
/// mask of multiple queues, 0x1.
#[verifier::external_body]
pub(crate) fn protocol_mq_mask() -> (r: u64)
    ensures
        r == 0x1,
{
    vhost::vhost_user::VhostUserProtocolFeatures::MQ.bits()
}

/// Relies on vhost's VhostUserProtocolFeatures::CONFIG: the protocol
/// feature mask of config space access, 0x200.
#[verifier::external_body]
pub(crate) fn protocol_config_mask() -> (r: u64)
    ensures
        r == 0x200,
{
    vhost::vhost_user::VhostUserProtocolFeatures::CONFIG.bits()
}

/// Relies on epoll's Events::EPOLLIN, which is libc's EPOLLIN (0x1) as
/// `u32`: the event set of a readable notifier.
#[verifier::external_body]
pub(crate) fn epoll_in_bits() -> (r: u32)
    ensures
        r == 0x1,
{
    epoll::Events::EPOLLIN.bits()
}

} // verus!
