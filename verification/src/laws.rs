//! What holds of the register file, access by access and over whole runs
//! of guest accesses, and of the routes of a device.

use vstd::prelude::*;
use vstd::set_lib::{lemma_int_range, lemma_subset_equality, set_int_range};
use crate::defs::{
    BAO_IOEVENTFD_FLAG_DATAMATCH, BAO_IOEVENTFD_FLAG_DEASSIGN, BAO_IO_READ, BAO_IO_WRITE,
    QUEUE_NOTIFY_LEN, VHOST_USER_CONFIG_OFFSET, VIRTIO_F_IOMMU_PLATFORM, VIRTIO_F_VERSION_1,
    VIRTIO_MMIO_DEVICE_FEATURES,
    VIRTIO_MMIO_DRIVER_FEATURES, VIRTIO_MMIO_DRIVER_FEATURES_SEL, VIRTIO_MMIO_QUEUE_NOTIFY,
    VIRTIO_MMIO_QUEUE_READY,
};
use crate::error::Error;
use crate::mmio::{kick_removals, kick_routes, model_wf, removal_of};
use crate::model::{
    admits, feature_bits, feature_window, finalised, is_ready_write, is_register_access,
    low_word, offered_features, step, ActionModel, BackendInfo, MmioModel, PendingQueue,
    FEATURE_IOMMU_PLATFORM, FEATURE_VERSION_1,
};
use crate::types::{BaoIoEventFd, BaoIoRequest};

verus! {

/// The state after a run of accesses.
pub open spec fn run(m: MmioModel, backend: BackendInfo, reqs: Seq<BaoIoRequest>) -> MmioModel
    decreases reqs.len(),
{
    if reqs.len() == 0 {
        m
    } else {
        run(step(m, backend, reqs[0]).state, backend, reqs.drop_first())
    }
}

/// Every access of the run is served in the state that it meets.
pub open spec fn admitted(m: MmioModel, backend: BackendInfo, reqs: Seq<BaoIoRequest>) -> bool
    decreases reqs.len(),
{
    reqs.len() == 0 || (admits(m, reqs[0]) && admitted(
        step(m, backend, reqs[0]).state,
        backend,
        reqs.drop_first(),
    ))
}

/// The outcome asks for the activation of the backend.
pub open spec fn is_activation(outcome: Result<ActionModel, Error>) -> bool {
    outcome is Ok && outcome->Ok_0 is Activate
}

/// The outcome asks for a feature negotiation with the backend.
pub open spec fn is_negotiation(outcome: Result<ActionModel, Error>) -> bool {
    outcome is Ok && outcome->Ok_0 is NegotiateFeatures
}

/// How often a run asks for the activation of the backend.
pub open spec fn activations(m: MmioModel, backend: BackendInfo, reqs: Seq<BaoIoRequest>) -> nat
    decreases reqs.len(),
{
    if reqs.len() == 0 {
        0
    } else {
        let s = step(m, backend, reqs[0]);
        (if is_activation(s.outcome) {
            1nat
        } else {
            0nat
        }) + activations(s.state, backend, reqs.drop_first())
    }
}

/// How often a run asks for a feature negotiation with the backend.
pub open spec fn negotiations(m: MmioModel, backend: BackendInfo, reqs: Seq<BaoIoRequest>) -> nat
    decreases reqs.len(),
{
    if reqs.len() == 0 {
        0
    } else {
        let s = step(m, backend, reqs[0]);
        (if is_negotiation(s.outcome) {
            1nat
        } else {
            0nat
        }) + negotiations(s.state, backend, reqs.drop_first())
    }
}

/// The access is a store that selects the lower window of the driver
/// features.
pub open spec fn selects_low_window(req: BaoIoRequest) -> bool {
    &&& req.op == BAO_IO_WRITE
    &&& req.reg_off == VIRTIO_MMIO_DRIVER_FEATURES_SEL
    &&& low_word(req.value) == 0
}

/// The indices of the pending queues.
pub open spec fn pending_indices(m: MmioModel) -> Seq<int> {
    m.pending.map_values(|p: PendingQueue| p.index as int)
}

/// No queue is pending twice, and every pending queue is marked ready.
pub open spec fn pending_sound(m: MmioModel) -> bool {
    &&& pending_indices(m).no_duplicates()
    &&& forall|i: int|
        0 <= i < m.pending.len() ==> m.vq[(#[trigger] m.pending[i]).index as int].ready == 1
}

/// The access declares ready a queue that is pending already.
pub open spec fn readies_again(m: MmioModel, req: BaoIoRequest) -> bool {
    &&& is_register_access(req)
    &&& is_ready_write(req)
    &&& pending_indices(m).contains(m.queue_sel as int)
}

/// Every access that the engine serves keeps the invariant of the
/// register file.
pub proof fn lemma_step_keeps_invariant(m: MmioModel, backend: BackendInfo, req: BaoIoRequest)
    requires
        model_wf(m),
        admits(m, req),
    ensures
        model_wf(step(m, backend, req).state),
{
}

/// A load changes nothing in the register file, and neither does an
/// access to the configuration space or a request that is no load and no
/// store. None of them asks the backend to negotiate or to activate.
pub proof fn lemma_loads_change_nothing(m: MmioModel, backend: BackendInfo, req: BaoIoRequest)
    requires
        req.op != BAO_IO_WRITE || req.reg_off >= VHOST_USER_CONFIG_OFFSET,
    ensures
        step(m, backend, req).state == m,
        !is_activation(step(m, backend, req).outcome),
        !is_negotiation(step(m, backend, req).outcome),
{
}

/// A load of the device features register returns the selected 32-bit
/// window of the backend's features together with the two features that
/// the frontend always offers, when window 0 or 1 is selected; with any
/// other window it fails with `InvalidFeatureSel`. The register file and,
/// on failure, the request stay as they were.
pub proof fn lemma_device_features_read(m: MmioModel, backend: BackendInfo, req: BaoIoRequest)
    requires
        req.op == BAO_IO_READ,
        req.reg_off == VIRTIO_MMIO_DEVICE_FEATURES,
    ensures
        step(m, backend, req).state == m,
        m.device_features_sel <= 1 ==> {
            &&& step(m, backend, req).outcome == Ok::<ActionModel, Error>(ActionModel::Done)
            &&& step(m, backend, req).request == (BaoIoRequest {
                value: feature_window(
                    offered_features(backend.device_features),
                    m.device_features_sel,
                ) as u64,
                ..req
            })
        },
        m.device_features_sel > 1 ==> {
            &&& step(m, backend, req).outcome == Err::<ActionModel, Error>(
                Error::InvalidFeatureSel(m.device_features_sel),
            )
            &&& step(m, backend, req).request == req
        },
{
}

/// The two windows of a feature set are its lower and its upper half:
/// together they give the set back. The features offered to the driver
/// hold `VIRTIO_F_VERSION_1` and `VIRTIO_F_IOMMU_PLATFORM` and otherwise
/// what the backend offers.
pub proof fn lemma_feature_windows(features: u64)
    ensures
        FEATURE_VERSION_1 == 1u64 << VIRTIO_F_VERSION_1,
        FEATURE_IOMMU_PLATFORM == 1u64 << VIRTIO_F_IOMMU_PLATFORM,
        (feature_window(features, 0) as u64) | ((feature_window(features, 1) as u64) << 32)
            == features,
        offered_features(features) & FEATURE_VERSION_1 != 0,
        offered_features(features) & FEATURE_IOMMU_PLATFORM != 0,
        offered_features(features) & !(FEATURE_VERSION_1 | FEATURE_IOMMU_PLATFORM) == features & !(
        FEATURE_VERSION_1 | FEATURE_IOMMU_PLATFORM),
{
    assert(0x1_0000_0000u64 == 1u64 << 32u32) by (bit_vector);
    assert(0x2_0000_0000u64 == 1u64 << 33u32) by (bit_vector);
    assert((((features & 0xffff_ffff) as u32) as u64) | ((((features >> 32) as u32) as u64) << 32)
        == features) by (bit_vector);
    assert((features | 0x1_0000_0000u64 | 0x2_0000_0000u64) & 0x1_0000_0000u64 != 0)
        by (bit_vector);
    assert((features | 0x1_0000_0000u64 | 0x2_0000_0000u64) & 0x2_0000_0000u64 != 0)
        by (bit_vector);
    assert((features | 0x1_0000_0000u64 | 0x2_0000_0000u64) & !(0x1_0000_0000u64
        | 0x2_0000_0000u64) == features & !(0x1_0000_0000u64 | 0x2_0000_0000u64)) by (bit_vector);
}

/// The backend is asked to negotiate only by a store to the driver
/// features register while the lower window is selected, and then with
/// all the features that the driver has written so far.
pub proof fn lemma_negotiation_needs_low_window(
    m: MmioModel,
    backend: BackendInfo,
    req: BaoIoRequest,
)
    requires
        is_negotiation(step(m, backend, req).outcome),
    ensures
        req.op == BAO_IO_WRITE,
        req.reg_off == VIRTIO_MMIO_DRIVER_FEATURES,
        m.driver_features_sel == 0,
        step(m, backend, req).outcome == Ok::<ActionModel, Error>(
            ActionModel::NegotiateFeatures {
                features: m.driver_features | feature_bits(low_word(req.value), 0),
            },
        ),
{
}

/// A store of the upper window of the driver features that leaves
/// `VIRTIO_F_VERSION_1` or `VIRTIO_F_IOMMU_PLATFORM` unset fails, with the
/// error of the first of the two that is missing, and asks nothing of the
/// backend.
pub proof fn lemma_refused_features_fail(m: MmioModel, backend: BackendInfo, req: BaoIoRequest)
    requires
        req.op == BAO_IO_WRITE,
        req.reg_off == VIRTIO_MMIO_DRIVER_FEATURES,
        m.driver_features_sel == 1,
    ensures
        ({
            let features = m.driver_features | feature_bits(low_word(req.value), 1);
            &&& step(m, backend, req).state.driver_features == features
            &&& features & FEATURE_VERSION_1 == 0 ==> step(m, backend, req).outcome == Err::<
                ActionModel,
                Error,
            >(Error::MmioLegacyNotSupported)
            &&& features & FEATURE_VERSION_1 != 0 && features & FEATURE_IOMMU_PLATFORM == 0
                ==> step(m, backend, req).outcome == Err::<ActionModel, Error>(
                Error::IommuPlatformNotSupported,
            )
            &&& features & FEATURE_VERSION_1 != 0 && features & FEATURE_IOMMU_PLATFORM != 0
                ==> step(m, backend, req).outcome == Ok::<ActionModel, Error>(ActionModel::Done)
        }),
{
}

/// Once a window other than the lower one is selected for the driver
/// features, as it is when the upper word was refused, no run of
/// accesses makes the frontend negotiate with the backend unless the
/// driver selects the lower window again.
pub proof fn lemma_no_negotiation_outside_low_window(
    m: MmioModel,
    backend: BackendInfo,
    reqs: Seq<BaoIoRequest>,
)
    requires
        m.driver_features_sel != 0,
        forall|i: int| 0 <= i < reqs.len() ==> !selects_low_window(#[trigger] reqs[i]),
    ensures
        negotiations(m, backend, reqs) == 0,
        run(m, backend, reqs).driver_features_sel != 0,
    decreases reqs.len(),
{
    if reqs.len() > 0 {
        let s = step(m, backend, reqs[0]);
        assert(!selects_low_window(reqs[0]));
        assert(s.state.driver_features_sel != 0);
        let rest = reqs.drop_first();
        assert forall|i: int| 0 <= i < rest.len() implies !selects_low_window(
            #[trigger] rest[i],
        ) by {
            assert(rest[i] == reqs[i + 1]);
        }
        lemma_no_negotiation_outside_low_window(s.state, backend, rest);
    }
}

/// The backend is asked to activate only by the store that declares a
/// queue ready and thereby brings the pending queues to the number of
/// queues of the device. It is given all of them, in the order in which
/// they became ready, and the guest memory; both leave the register file.
pub proof fn lemma_activation_completes_pending(
    m: MmioModel,
    backend: BackendInfo,
    req: BaoIoRequest,
)
    requires
        is_activation(step(m, backend, req).outcome),
    ensures
        is_register_access(req),
        is_ready_write(req),
        m.pending.len() + 1 == m.queues_count,
        step(m, backend, req).outcome == Ok::<ActionModel, Error>(
            ActionModel::Activate { regions: m.regions, queues: m.pending.push(finalised(m)) },
        ),
        step(m, backend, req).state.pending.len() == 0,
        step(m, backend, req).state.regions.len() == 0,
{
}

/// A register file without guest memory never asks for an activation.
proof fn lemma_no_activation_without_memory(
    m: MmioModel,
    backend: BackendInfo,
    reqs: Seq<BaoIoRequest>,
)
    requires
        model_wf(m),
        m.regions.len() == 0,
        admitted(m, backend, reqs),
    ensures
        activations(m, backend, reqs) == 0,
    decreases reqs.len(),
{
    if reqs.len() > 0 {
        let s = step(m, backend, reqs[0]);
        lemma_step_keeps_invariant(m, backend, reqs[0]);
        assert(s.state.regions.len() == 0);
        lemma_no_activation_without_memory(s.state, backend, reqs.drop_first());
    }
}

/// In a run of accesses that the engine serves, the backend is asked to
/// activate at most once.
pub proof fn lemma_activated_at_most_once(
    m: MmioModel,
    backend: BackendInfo,
    reqs: Seq<BaoIoRequest>,
)
    requires
        model_wf(m),
        admitted(m, backend, reqs),
    ensures
        activations(m, backend, reqs) <= 1,
    decreases reqs.len(),
{
    if reqs.len() > 0 {
        let s = step(m, backend, reqs[0]);
        lemma_step_keeps_invariant(m, backend, reqs[0]);
        if is_activation(s.outcome) {
            lemma_no_activation_without_memory(s.state, backend, reqs.drop_first());
        } else {
            lemma_activated_at_most_once(s.state, backend, reqs.drop_first());
        }
    }
}

/// As long as the driver does not declare ready a queue that is pending
/// already, no queue is pending twice and every pending queue is marked
/// ready.
pub proof fn lemma_pending_stays_sound(m: MmioModel, backend: BackendInfo, req: BaoIoRequest)
    requires
        model_wf(m),
        admits(m, req),
        pending_sound(m),
        !readies_again(m, req),
    ensures
        pending_sound(step(m, backend, req).state),
{
    let after = step(m, backend, req).state;
    if is_register_access(req) && req.op == BAO_IO_WRITE {
        if req.reg_off == VIRTIO_MMIO_QUEUE_READY {
            if req.value == 1 {
                if !is_activation(step(m, backend, req).outcome) {
                    let before = pending_indices(m);
                    let now = pending_indices(after);
                    assert(now =~= before.push(m.queue_sel as int));
                    assert forall|i: int, j: int|
                        0 <= i < now.len() && 0 <= j < now.len() && i != j implies now[i]
                        != now[j] by {
                        if i < before.len() && j < before.len() {
                            assert(before[i] != before[j]);
                        } else if i < before.len() {
                            assert(before.contains(before[i]));
                        } else {
                            assert(before.contains(before[j]));
                        }
                    }
                    assert forall|i: int| 0 <= i < after.pending.len() implies after.vq[(
                    #[trigger] after.pending[i]).index as int].ready == 1 by {
                        if i < m.pending.len() {
                            assert(after.pending[i] == m.pending[i]);
                        }
                    }
                } else {
                    assert(pending_indices(after) =~= Seq::<int>::empty());
                }
            } else {
                assert(pending_indices(after) =~= Seq::<int>::empty());
            }
        } else {
            assert(after.pending == m.pending);
            assert(pending_indices(after) == pending_indices(m));
            assert forall|i: int| 0 <= i < after.pending.len() implies after.vq[(
            #[trigger] after.pending[i]).index as int].ready == 1 by {
                assert(m.vq[m.pending[i].index as int].ready == 1);
            }
        }
    } else {
        assert(after == m);
    }
}

/// When the backend is asked to activate a device all of whose virtqueues
/// are known, and the driver has declared no queue ready twice, then every
/// virtqueue of the device is marked ready, and the queues handed over are
/// as many as the device has, each under an index of its own.
pub proof fn lemma_activation_finds_all_ready(
    m: MmioModel,
    backend: BackendInfo,
    req: BaoIoRequest,
)
    requires
        model_wf(m),
        m.vq.len() == m.queues_count,
        admits(m, req),
        pending_sound(m),
        !readies_again(m, req),
        is_activation(step(m, backend, req).outcome),
    ensures
        step(m, backend, req).outcome->Ok_0->queues.len() == m.queues_count,
        step(m, backend, req).outcome->Ok_0->queues.map_values(
            |p: PendingQueue| p.index as int,
        ).no_duplicates(),
        forall|k: int|
            0 <= k < m.queues_count ==> (#[trigger] step(m, backend, req).state.vq[k]).ready == 1,
{
    lemma_activation_completes_pending(m, backend, req);
    let after = step(m, backend, req).state;
    let queues = m.pending.push(finalised(m));
    let indices = queues.map_values(|p: PendingQueue| p.index as int);
    let before = pending_indices(m);
    let n = m.queues_count as int;
    assert(indices =~= before.push(m.queue_sel as int));
    assert forall|i: int, j: int|
        0 <= i < indices.len() && 0 <= j < indices.len() && i != j implies indices[i]
        != indices[j] by {
        if i < before.len() && j < before.len() {
            assert(before[i] != before[j]);
        } else if i < before.len() {
            assert(before.contains(before[i]));
        } else {
            assert(before.contains(before[j]));
        }
    }
    indices.unique_seq_to_set();
    lemma_int_range(0, n);
    assert(indices.to_set().subset_of(set_int_range(0, n))) by {
        assert forall|x: int| indices.to_set().contains(x) implies set_int_range(0, n).contains(
            x,
        ) by {
            let i = choose|i: int| 0 <= i < indices.len() && indices[i] == x;
            if i < m.pending.len() {
                assert(m.pending[i].index < m.vq.len());
            }
        }
    }
    vstd::set_lib::lemma_len_subset(indices.to_set(), set_int_range(0, n));
    lemma_subset_equality(indices.to_set(), set_int_range(0, n));
    assert forall|k: int| 0 <= k < m.queues_count implies (#[trigger] after.vq[k]).ready == 1 by {
        assert(set_int_range(0, n).contains(k));
        assert(indices.to_set().contains(k));
        let i = choose|i: int| 0 <= i < indices.len() && indices[i] == k;
        if i < m.pending.len() {
            assert(m.vq[m.pending[i].index as int].ready == 1);
        }
    }
}

/// How the kernel matches a guest store against a route: the address and
/// the length are those of the route, and, where the route asks for it,
/// the value stored is the route's.
pub open spec fn route_takes(route: BaoIoEventFd, addr: u64, len: u32, value: u64) -> bool {
    &&& route.addr == addr
    &&& route.len == len
    &&& route.flags & BAO_IOEVENTFD_FLAG_DATAMATCH != 0 ==> route.data == value
}

/// A 32-bit store of a queue's index to the queue notify register of a
/// device is taken by exactly one of the device's routes: the one of that
/// queue. It wakes the queue's own eventfd, which the route of no other
/// queue wakes.
pub proof fn lemma_notification_wakes_one_kick(m: MmioModel, k: int)
    requires
        model_wf(m),
        0 <= k < m.vq.len(),
    ensures
        kick_routes(m).len() == m.vq.len(),
        kick_routes(m)[k].fd == m.vq[k].kick,
        forall|j: int|
            0 <= j < m.vq.len() ==> (route_takes(
                #[trigger] kick_routes(m)[j],
                (m.addr + VIRTIO_MMIO_QUEUE_NOTIFY) as u64,
                QUEUE_NOTIFY_LEN,
                k as u64,
            ) <==> j == k),
        forall|j: int|
            0 <= j < m.vq.len() && j != k ==> (#[trigger] kick_routes(m)[j]).fd != kick_routes(
                m,
            )[k].fd,
{
    assert(BAO_IOEVENTFD_FLAG_DATAMATCH & BAO_IOEVENTFD_FLAG_DATAMATCH != 0) by (bit_vector);
    assert forall|j: int| 0 <= j < m.vq.len() && j != k implies (#[trigger] kick_routes(m)[j]).fd
        != kick_routes(m)[k].fd by {
        if j < k {
            assert(m.vq[j].kick != m.vq[k].kick);
        } else {
            assert(m.vq[k].kick != m.vq[j].kick);
        }
    }
}

/// The requests that remove a device's routes name, queue by queue, the
/// eventfd, the address, the length and the value under which the route
/// was installed.
pub proof fn lemma_removals_match_routes(m: MmioModel, k: int)
    requires
        0 <= k < m.vq.len(),
    ensures
        kick_removals(m).len() == kick_routes(m).len(),
        kick_removals(m)[k] == removal_of(kick_routes(m)[k]),
        kick_removals(m)[k].fd == kick_routes(m)[k].fd,
        kick_removals(m)[k].addr == kick_routes(m)[k].addr,
        kick_removals(m)[k].len == kick_routes(m)[k].len,
        kick_removals(m)[k].data == kick_routes(m)[k].data,
        kick_removals(m)[k].flags == BAO_IOEVENTFD_FLAG_DEASSIGN,
{
}

/// No access of the run declares ready a queue that is pending when the
/// access arrives.
pub open spec fn careful(m: MmioModel, backend: BackendInfo, reqs: Seq<BaoIoRequest>) -> bool
    decreases reqs.len(),
{
    reqs.len() == 0 || (!readies_again(m, reqs[0]) && careful(
        step(m, backend, reqs[0]).state,
        backend,
        reqs.drop_first(),
    ))
}

/// A run of accesses that the engine serves keeps the invariant of the
/// register file and the number of virtqueues; if no access declares ready
/// a queue that is pending already, it also keeps the pending queues
/// sound.
pub proof fn lemma_run_keeps_invariant(m: MmioModel, backend: BackendInfo, reqs: Seq<BaoIoRequest>)
    requires
        model_wf(m),
        admitted(m, backend, reqs),
    ensures
        model_wf(run(m, backend, reqs)),
        run(m, backend, reqs).vq.len() == m.vq.len(),
        run(m, backend, reqs).queues_count == m.queues_count,
        pending_sound(m) && careful(m, backend, reqs) ==> pending_sound(run(m, backend, reqs)),
    decreases reqs.len(),
{
    if reqs.len() > 0 {
        let s = step(m, backend, reqs[0]);
        lemma_step_keeps_invariant(m, backend, reqs[0]);
        if pending_sound(m) && careful(m, backend, reqs) {
            lemma_pending_stays_sound(m, backend, reqs[0]);
        }
        lemma_run_keeps_invariant(s.state, backend, reqs.drop_first());
    }
}

/// A run followed by one more access is served and careful exactly when
/// the run is, and the last access is in the state that the run leaves.
proof fn lemma_run_then(
    m: MmioModel,
    backend: BackendInfo,
    reqs: Seq<BaoIoRequest>,
    last: BaoIoRequest,
)
    ensures
        admitted(m, backend, reqs.push(last)) <==> admitted(m, backend, reqs) && admits(
            run(m, backend, reqs),
            last,
        ),
        careful(m, backend, reqs.push(last)) <==> careful(m, backend, reqs) && !readies_again(
            run(m, backend, reqs),
            last,
        ),
    decreases reqs.len(),
{
    let all = reqs.push(last);
    if reqs.len() == 0 {
        assert(all.drop_first() =~= Seq::<BaoIoRequest>::empty());
        assert(admitted(step(m, backend, last).state, backend, all.drop_first()));
        assert(careful(step(m, backend, last).state, backend, all.drop_first()));
    } else {
        assert(all.drop_first() =~= reqs.drop_first().push(last));
        lemma_run_then(step(m, backend, reqs[0]).state, backend, reqs.drop_first(), last);
    }
}

/// From a state in which no queue is pending wrongly, as after the
/// construction of the device, and in which all virtqueues of the device
/// are known: if a run of served accesses, none of which declares ready a
/// queue that is pending already, ends with the access that asks for the
/// activation of the backend, then at that point every virtqueue of the
/// device has been declared ready, and the backend is given as many queues
/// as the device has, each under an index of its own.
pub proof fn lemma_activation_after_all_ready(
    m: MmioModel,
    backend: BackendInfo,
    reqs: Seq<BaoIoRequest>,
    last: BaoIoRequest,
)
    requires
        model_wf(m),
        m.vq.len() == m.queues_count,
        pending_sound(m),
        admitted(m, backend, reqs.push(last)),
        careful(m, backend, reqs.push(last)),
        is_activation(step(run(m, backend, reqs), backend, last).outcome),
    ensures
        step(run(m, backend, reqs), backend, last).outcome->Ok_0->queues.len() == m.queues_count,
        step(run(m, backend, reqs), backend, last).outcome->Ok_0->queues.map_values(
            |p: PendingQueue| p.index as int,
        ).no_duplicates(),
        forall|k: int|
            0 <= k < m.queues_count ==> (#[trigger] step(
                run(m, backend, reqs),
                backend,
                last,
            ).state.vq[k]).ready == 1,
{
    lemma_run_then(m, backend, reqs, last);
    lemma_run_keeps_invariant(m, backend, reqs);
    lemma_activation_finds_all_ready(run(m, backend, reqs), backend, last);
}

} // verus!
