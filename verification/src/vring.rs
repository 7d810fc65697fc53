//! Virtqueue objects of the `virtio-queue` crate, as the backend takes them.
//!
//! A `Queue` is opaque to the verifier. What it holds is named by
//! `queue_state`, and the few operations the frontend needs on it are
//! declared here with what the crate's source shows of them.

use vstd::prelude::*;
use virtio_queue::Queue;
use virtio_queue::QueueT;
use crate::defs::MAX_QUEUE_SIZE;

verus! {

/// `virtio_queue::Queue`, carried through the library as an opaque value.
#[verifier::external_type_specification]
#[verifier::external_body]
pub struct ExQueue(Queue);

/// The plain state of a virtqueue object: sizes, cursors and the guest
/// addresses of its three rings.
#[derive(Clone, Copy, Debug, PartialEq, Eq)]
pub struct VringState {
    pub max_size: u16,
    pub next_avail: u16,
    pub next_used: u16,
    pub event_idx_enabled: bool,
    pub size: u16,
    pub ready: bool,
    pub desc_table: u64,
    pub avail_ring: u64,
    pub used_ring: u64,
}

/// What `Queue::state` reports of a queue.
pub uninterp spec fn queue_state(q: Queue) -> VringState;

/// Sizes that a virtqueue can have: a power of two, at most `MAX_QUEUE_SIZE`.
pub open spec fn queue_size_valid(size: u16) -> bool {
    size != 0 && size <= MAX_QUEUE_SIZE && size & ((size - 1) as u16) == 0
}

/// The guest address made of a low and a high word.
pub open spec fn ring_address(low: u32, high: u32) -> u64 {
    ((high as u64) << 32) | (low as u64)
}

/// The state of a queue that was just created with `max_size` entries.
pub open spec fn fresh_state(max_size: u16) -> VringState {
    VringState {
        max_size,
        next_avail: 0,
        next_used: 0,
        event_idx_enabled: false,
        size: max_size,
        ready: false,
        desc_table: 0,
        avail_ring: 0,
        used_ring: 0,
    }
}

/// The state of a queue created with `size` entries and then given the
/// three ring addresses and the place from which the available ring is
/// read. An address that breaks the alignment of its ring (16 bytes for
/// the descriptor table, 2 for the available ring, 4 for the used ring) is
/// not taken, and the ring stays at address zero.
pub open spec fn configured_state(
    size: u16,
    desc: u64,
    avail: u64,
    used: u64,
    next_avail: u16,
) -> VringState {
    VringState {
        desc_table: if desc & 0xf == 0 { desc } else { 0 },
        avail_ring: if avail & 0x1 == 0 { avail } else { 0 },
        used_ring: if used & 0x3 == 0 { used } else { 0 },
        next_avail,
        ..fresh_state(size)
    }
}

/// `Queue::state`: the plain state of the queue, field by field.
#[verifier::external_body]
pub(crate) fn vring_state(q: &Queue) -> (r: VringState)
    ensures
        r == queue_state(*q),
{
    let s = q.state();
    VringState {
        max_size: s.max_size,
        next_avail: s.next_avail,
        next_used: s.next_used,
        event_idx_enabled: s.event_idx_enabled,
        size: s.size,
        ready: s.ready,
        desc_table: s.desc_table,
        avail_ring: s.avail_ring,
        used_ring: s.used_ring,
    }
}

/// `Queue::new`: refuses a size that is zero, above `MAX_QUEUE_SIZE` or no
/// power of two; otherwise the queue has that size as its maximum and its
/// current size, is not ready, and has cursors and ring addresses at zero.
#[verifier::external_body]
pub(crate) fn vring_new(max_size: u16) -> (r: Option<Queue>)
    ensures
        r is Some <==> queue_size_valid(max_size),
        r is Some ==> queue_state(r->0) == fresh_state(max_size),
{
    Queue::new(max_size).ok()
}

/// `Queue::set_desc_table_address` with both words given: the address is
/// taken when it is a multiple of 16 and dropped otherwise; nothing else
/// in the queue changes.
#[verifier::external_body]
pub(crate) fn vring_set_desc_table(q: &mut Queue, low: u32, high: u32)
    ensures
        queue_state(*final(q)) == (VringState {
            desc_table: if ring_address(low, high) & 0xf == 0 {
                ring_address(low, high)
            } else {
                queue_state(*old(q)).desc_table
            },
            ..queue_state(*old(q))
        }),
{
    q.set_desc_table_address(Some(low), Some(high));
}

/// `Queue::set_avail_ring_address` with both words given: the address is
/// taken when it is even and dropped otherwise; nothing else in the queue
/// changes.
#[verifier::external_body]
pub(crate) fn vring_set_avail_ring(q: &mut Queue, low: u32, high: u32)
    ensures
        queue_state(*final(q)) == (VringState {
            avail_ring: if ring_address(low, high) & 0x1 == 0 {
                ring_address(low, high)
            } else {
                queue_state(*old(q)).avail_ring
            },
            ..queue_state(*old(q))
        }),
{
    q.set_avail_ring_address(Some(low), Some(high));
}

/// `Queue::set_used_ring_address` with both words given: the address is
/// taken when it is a multiple of 4 and dropped otherwise; nothing else in
/// the queue changes.
#[verifier::external_body]
pub(crate) fn vring_set_used_ring(q: &mut Queue, low: u32, high: u32)
    ensures
        queue_state(*final(q)) == (VringState {
            used_ring: if ring_address(low, high) & 0x3 == 0 {
                ring_address(low, high)
            } else {
                queue_state(*old(q)).used_ring
            },
            ..queue_state(*old(q))
        }),
{
    q.set_used_ring_address(Some(low), Some(high));
}

/// `Queue::set_next_avail`: moves the tail of the available ring; nothing
/// else in the queue changes.
#[verifier::external_body]
pub(crate) fn vring_set_next_avail(q: &mut Queue, next_avail: u16)
    ensures
        queue_state(*final(q)) == (VringState { next_avail, ..queue_state(*old(q)) }),
{
    q.set_next_avail(next_avail);
}

/// Tells whether a virtqueue can have `size` entries.
pub fn is_queue_size_valid(size: u16) -> (r: bool)
    ensures
        r == queue_size_valid(size),
{
    size != 0 && size <= MAX_QUEUE_SIZE && size & (size - 1) == 0
}

/// Low word of a guest address.
pub fn address_low(addr: u64) -> (r: u32)
    ensures
        r == addr & 0xffff_ffff,
{
    assert(addr & 0xffff_ffff <= 0xffff_ffff) by (bit_vector);
    (addr & 0xffff_ffff) as u32
}

/// High word of a guest address.
pub fn address_high(addr: u64) -> (r: u32)
    ensures
        r == addr >> 32,
{
    assert(addr >> 32 <= 0xffff_ffff) by (bit_vector);
    (addr >> 32) as u32
}

/// A guest address splits into its two words and is made of them again.
pub proof fn lemma_address_words(addr: u64)
    ensures
        ring_address((addr & 0xffff_ffff) as u32, (addr >> 32) as u32) == addr,
{
    assert((((addr >> 32) as u32 as u64) << 32) | ((addr & 0xffff_ffff) as u32 as u64) == addr)
        by (bit_vector);
}

/// Builds the queue object that the backend is given for a virtqueue of
/// `size` entries whose rings the driver placed at `desc`, `avail` and
/// `used`, with the available ring read from entry `next_avail` on.
pub fn configured_queue(size: u16, desc: u64, avail: u64, used: u64, next_avail: u16) -> (q: Queue)
    requires
        queue_size_valid(size),
    ensures
        queue_state(q) == configured_state(size, desc, avail, used, next_avail),
{
    let made = vring_new(size);
    let mut q = made.unwrap();
    proof {
        lemma_address_words(desc);
        lemma_address_words(avail);
        lemma_address_words(used);
    }
    vring_set_desc_table(&mut q, address_low(desc), address_high(desc));
    vring_set_avail_ring(&mut q, address_low(avail), address_high(avail));
    vring_set_used_ring(&mut q, address_low(used), address_high(used));
    vring_set_next_avail(&mut q, next_avail);
    q
}

/// As `configured_queue`, for any size: `None` exactly when a virtqueue
/// cannot have `size` entries.
pub fn try_configured_queue(
    size: u16,
    desc: u64,
    avail: u64,
    used: u64,
    next_avail: u16,
) -> (r: Option<Queue>)
    ensures
        r is Some <==> queue_size_valid(size),
        r is Some ==> queue_state(r->0) == configured_state(size, desc, avail, used, next_avail),
{
    if is_queue_size_valid(size) {
        Some(configured_queue(size, desc, avail, used, next_avail))
    } else {
        None
    }
}

} // verus!
