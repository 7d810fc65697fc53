use bao_vhost_frontend::defs::MAX_QUEUE_SIZE;
use bao_vhost_frontend::vring::{
    address_high, address_low, configured_queue, is_queue_size_valid, try_configured_queue,
};
use virtio_queue::{Queue, QueueT};

#[test]
fn configured_queue_holds_what_it_was_given() {
    let q = configured_queue(
        512,
        0xffff_ffff_ffff_fff0,
        0x0000_0001_0000_0002,
        0x8000_0000_0000_0004,
        0,
    );
    assert_eq!(q.max_size(), 512);
    assert_eq!(q.size(), 512);
    assert!(!q.ready());
    assert_eq!(q.desc_table(), 0xffff_ffff_ffff_fff0);
    assert_eq!(q.avail_ring(), 0x0000_0001_0000_0002);
    assert_eq!(q.used_ring(), 0x8000_0000_0000_0004);
    assert_eq!(q.next_avail(), 0);
    assert_eq!(q.next_used(), 0);
    assert!(!q.event_idx_enabled());
}

#[test]
fn configured_queue_drops_misaligned_addresses() {
    let q = configured_queue(8, 0x1001, 0x2000, 0x3000, 0);
    assert_eq!(q.desc_table(), 0);
    assert_eq!(q.avail_ring(), 0x2000);
    assert_eq!(q.used_ring(), 0x3000);
    let q = configured_queue(8, 0x1000, 0x2001, 0x3000, 0);
    assert_eq!(q.desc_table(), 0x1000);
    assert_eq!(q.avail_ring(), 0);
    assert_eq!(q.used_ring(), 0x3000);
    let q = configured_queue(8, 0x1000, 0x2000, 0x3002, 0);
    assert_eq!(q.desc_table(), 0x1000);
    assert_eq!(q.avail_ring(), 0x2000);
    assert_eq!(q.used_ring(), 0);
    let q = configured_queue(8, 0x1_0000_0008, 0x2_0000_0001, 0x3_0000_0003, 0);
    assert_eq!(q.desc_table(), 0);
    assert_eq!(q.avail_ring(), 0);
    assert_eq!(q.used_ring(), 0);
}

#[test]
fn configured_queue_equals_one_built_by_hand() {
    let q = configured_queue(16, 0x1000, 0x2000, 0x3000, 0);
    let mut by_hand = Queue::new(16).unwrap();
    by_hand.set_desc_table_address(Some(0x1000), Some(0));
    by_hand.set_avail_ring_address(Some(0x2000), Some(0));
    by_hand.set_used_ring_address(Some(0x3000), Some(0));
    by_hand.set_next_avail(0);
    assert_eq!(q, by_hand);
    assert_ne!(q, Queue::new(16).unwrap());
}

#[test]
fn configured_queue_is_read_from_the_given_entry() {
    let q = configured_queue(16, 0x1000, 0x2000, 0x3000, 5);
    assert_eq!(q.next_avail(), 5);
    assert_eq!(q.state().next_avail, 5);
    assert_eq!(q.next_used(), 0);
    assert_eq!(q.size(), 16);
    let q = try_configured_queue(16, 0x1000, 0x2000, 0x3000, 0xffff).unwrap();
    assert_eq!(q.next_avail(), 0xffff);
    assert_eq!(q.desc_table(), 0x1000);
}

#[test]
fn queue_sizes_that_a_virtqueue_can_have() {
    assert_eq!(MAX_QUEUE_SIZE, 32768);
    assert!(!is_queue_size_valid(0));
    assert!(is_queue_size_valid(1));
    assert!(is_queue_size_valid(2));
    assert!(!is_queue_size_valid(3));
    assert!(is_queue_size_valid(256));
    assert!(!is_queue_size_valid(257));
    assert!(is_queue_size_valid(32768));
    assert!(!is_queue_size_valid(32769));
    assert!(!is_queue_size_valid(49152));
    assert!(!is_queue_size_valid(65535));
    let sizes: [u16; 10] = [0, 1, 2, 3, 256, 257, 32768, 32769, 49152, 65535];
    for size in sizes {
        assert_eq!(is_queue_size_valid(size), Queue::new(size).is_ok());
    }
}

#[test]
fn queue_of_invalid_size_is_not_built() {
    assert!(try_configured_queue(0, 0x1000, 0x2000, 0x3000, 0).is_none());
    assert!(try_configured_queue(3, 0x1000, 0x2000, 0x3000, 0).is_none());
    assert!(try_configured_queue(65535, 0x1000, 0x2000, 0x3000, 0).is_none());
    let q = try_configured_queue(32768, 0x1000, 0x2000, 0x3000, 0).unwrap();
    assert_eq!(q.size(), 32768);
    assert_eq!(q.desc_table(), 0x1000);
    assert_eq!(q.avail_ring(), 0x2000);
    assert_eq!(q.used_ring(), 0x3000);
}

#[test]
fn address_splits_into_its_words() {
    assert_eq!(address_low(0x1234_5678_9abc_def0), 0x9abc_def0);
    assert_eq!(address_high(0x1234_5678_9abc_def0), 0x1234_5678);
    assert_eq!(address_low(0), 0);
    assert_eq!(address_high(0), 0);
    assert_eq!(address_low(u64::MAX), 0xffff_ffff);
    assert_eq!(address_high(u64::MAX), 0xffff_ffff);
}
