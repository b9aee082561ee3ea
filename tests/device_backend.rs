use vhost_user_input::config::{CFG_ID_DEVIDS, CFG_ID_NAME};
use vhost_user_input::{
    DescChain, DescSegment, DeviceIdentity, InputError, VhostUserInputBackend, VirtioInputDevIDs,
    VirtioInputEvent,
};

const EPOLLIN: u32 = 0x1;

fn identity() -> DeviceIdentity {
    DeviceIdentity {
        name: b"tablet".to_vec(),
        serial: Vec::new(),
        ids: VirtioInputDevIDs { bustype: 3, vendor: 1, product: 2, version: 1 },
        prop_bits: Vec::new(),
        ev_bits: Vec::new(),
        abs: Vec::new(),
    }
}

fn backend(queues: usize) -> VhostUserInputBackend {
    VhostUserInputBackend::new(identity(), queues, 4).unwrap()
}

fn buffers(n: u16) -> Vec<DescChain> {
    (0..n)
        .map(|i| DescChain {
            head: i,
            segments: vec![DescSegment { addr: 0x1000 + 8 * i as u64, len: 8, writable: true }],
        })
        .collect()
}

fn events(n: u32) -> Vec<VirtioInputEvent> {
    (0..n).map(|i| VirtioInputEvent::new(2, 0, i)).collect()
}

#[test]
fn two_queues_three_buffers_five_events() {
    let mut b = backend(2);
    assert_eq!(b.num_queues(), 2);
    assert_eq!(b.max_queue_size(), 4);
    let mut pending = events(5);
    let pass = b.handle_event(0, EPOLLIN, &buffers(3), &mut pending).unwrap();
    assert_eq!(pass.delivered, 3);
    let heads: Vec<u16> = pass.completions.iter().map(|c| c.head).collect();
    assert_eq!(heads, vec![0, 1, 2]);
    let values: Vec<u32> =
        pass.completions.iter().map(|c| c.write.unwrap().event.value).collect();
    assert_eq!(values, vec![0, 1, 2]);
    assert_eq!(pending, events(5)[3..].to_vec());
}

#[test]
fn offered_features() {
    let b = backend(1);
    assert_eq!(b.features(), (1u64 << 32) | (1u64 << 29) | 0x4000_0000);
    assert_eq!(b.protocol_features(), 0x201);
}

#[test]
fn queue_count_must_fit() {
    assert_eq!(
        VhostUserInputBackend::new(identity(), 0, 4).err(),
        Some(InputError::InvalidQueueCount)
    );
    assert_eq!(
        VhostUserInputBackend::new(identity(), 65, 4).err(),
        Some(InputError::InvalidQueueCount)
    );
    assert_eq!(backend(64).num_queues(), 64);
}

#[test]
fn kicks_are_checked() {
    let mut b = backend(2);
    let mut pending = events(1);
    assert_eq!(
        b.handle_event(0, 0x4, &buffers(1), &mut pending).err(),
        Some(InputError::UnexpectedNotification)
    );
    assert_eq!(
        b.handle_event(2, EPOLLIN, &buffers(1), &mut pending).err(),
        Some(InputError::UnknownQueue)
    );
    assert_eq!(pending.len(), 1);
    assert!(b.handle_event(1, EPOLLIN, &buffers(1), &mut pending).is_ok());
    assert!(pending.is_empty());
}

fn all_workers_event_idx(b: &VhostUserInputBackend, on: bool) -> bool {
    (0..b.num_queues()).all(|i| b.worker(i).event_idx == on)
}

#[test]
fn event_index_follows_the_acked_features() {
    let mut b = backend(2);
    b.set_event_idx(true);
    assert!(!b.event_idx());
    assert!(all_workers_event_idx(&b, false));
    assert!(!b.recheck_after_publish(1, 1, true));
    b.set_acked_features(1u64 << 29);
    assert_eq!(b.acked_features(), 1u64 << 29);
    assert!(b.event_idx());
    assert!(all_workers_event_idx(&b, true));
    assert!(b.recheck_after_publish(1, 1, true));
    assert!(!b.recheck_after_publish(1, 0, true));
    assert!(!b.recheck_after_publish(0, 1, false));
    b.set_event_idx(false);
    assert!(!b.event_idx());
    assert!(all_workers_event_idx(&b, false));
}

#[test]
fn event_index_on_in_the_transport_order() {
    // The transport sends the event index request before the acked features.
    let mut b = backend(2);
    b.set_event_idx(true);
    b.set_acked_features((1u64 << 29) | (1u64 << 32));
    assert!(b.event_idx());
    assert!(all_workers_event_idx(&b, true));
    // And in the other order.
    let mut c = backend(2);
    c.set_acked_features((1u64 << 29) | (1u64 << 32));
    assert!(!c.event_idx());
    c.set_event_idx(true);
    assert!(c.event_idx());
    assert!(all_workers_event_idx(&c, true));
}

#[test]
fn dropping_the_acked_bit_turns_event_index_off() {
    let mut b = backend(2);
    b.set_acked_features((1u64 << 29) | (1u64 << 32));
    b.set_event_idx(true);
    assert!(b.event_idx());
    b.set_acked_features(1u64 << 32);
    assert_eq!(b.acked_features(), 1u64 << 32);
    assert!(!b.event_idx());
    assert!(all_workers_event_idx(&b, false));
    assert!(!b.recheck_after_publish(0, 1, true));
    b.set_acked_features(1u64 << 29);
    assert!(b.event_idx());
    b.set_event_idx(false);
    b.set_acked_features(1u64 << 29);
    assert!(!b.event_idx());
}

#[test]
fn memory_updates_reach_the_next_pass() {
    let mut b = backend(2);
    let mut pending = events(2);
    let pass = b.handle_event(0, EPOLLIN, &buffers(1), &mut pending).unwrap();
    assert_eq!(pass.completions[0].write.unwrap().generation, 0);
    b.update_memory();
    b.update_memory();
    let pass = b.handle_event(1, EPOLLIN, &buffers(1), &mut pending).unwrap();
    assert_eq!(pass.completions[0].write.unwrap().generation, 2);
    assert_eq!(b.mem_generation(), 2);
}

#[test]
fn violations_are_counted_per_queue() {
    let mut b = backend(2);
    let mut pending = events(3);
    let small = vec![DescChain { head: 0, segments: vec![DescSegment { addr: 0, len: 4, writable: true }] }];
    b.handle_event(1, EPOLLIN, &small, &mut pending).unwrap();
    assert_eq!(b.worker(1).violations, 1);
    assert_eq!(b.worker(0).violations, 0);
    assert_eq!(pending.len(), 3);
}

#[test]
fn config_access_through_the_backend() {
    let mut b = backend(1);
    assert_eq!(b.set_config(0, &[CFG_ID_NAME, 0]), Ok(()));
    let mut want = vec![CFG_ID_NAME, 0, 6];
    want.extend_from_slice(b"tablet");
    assert_eq!(b.get_config(0, 9), Ok(want));
    assert_eq!(b.get_config(0, 10), Err(InputError::InvalidArgument));
    assert_eq!(b.set_config(8, &[0, 0]), Err(InputError::InvalidArgument));
    assert_eq!(b.set_config(0, &[CFG_ID_DEVIDS, 0]), Ok(()));
    assert_eq!(b.get_config(2, 3), Ok(vec![8, 3, 0]));
}

#[test]
fn one_worker_per_queue() {
    assert_eq!(backend(3).queues_per_thread(), vec![1, 2, 4]);
    assert_eq!(backend(64).queues_per_thread()[63], 1u64 << 63);
}

#[test]
fn kicks_after_shutdown_are_declined() {
    let mut b = backend(2);
    b.shutdown();
    assert!(b.is_shut_down());
    assert!((0..b.num_queues()).all(|i| b.worker(i).shut_down));
    let mut pending = events(1);
    assert_eq!(
        b.handle_event(0, EPOLLIN, &buffers(1), &mut pending).err(),
        Some(InputError::ShutDown)
    );
    assert_eq!(pending.len(), 1);
}
