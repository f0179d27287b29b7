//! What holds of communicators as a whole.
use crate::calls::DeviceCall;
use crate::communicator::{
    assembled, suffices, ActionView, BaguaCommunicator, CommunicationStage,
};
use crate::datatypes::{BaguaCommunicationTensor, BaguaTensorRaw};
use crate::hierarchical::{
    average_call, BaguaHierarchicalCommunicator, BaguaHierarchicalCommunicatorLeader,
    BaguaHierarchicalCommunicatorWorker,
};
use crate::inner::BaguaCommunicatorInner;
use crate::single::BaguaSingleCommunicator;
use crate::unique_id::{char_bits, id_bytes, leading_id, Base64Error, NCCL_UNIQUE_ID_BYTES};
use vstd::prelude::*;

verus! {

/// Something that happens while a tensor is communicated.
pub enum Event {
    /// The host launches a call.
    Call(DeviceCall),
    /// The training program communicates through this communicator.
    Hook(BaguaCommunicatorInner),
}

/// What happens when an action is carried out.
pub open spec fn events(action: ActionView) -> Seq<Event> {
    match action {
        ActionView::Launch(calls) => calls.map_values(|call: DeviceCall| Event::Call(call)),
        ActionView::Hook(inner) => seq![Event::Hook(inner)],
        ActionView::Nothing => Seq::empty(),
    }
}

/// How a tensor comes out of an action, where `hook` is what the training
/// program makes of it. Calls work on the memory and leave the tensor's
/// description alone.
pub open spec fn after(
    action: ActionView,
    tensor: BaguaCommunicationTensor,
    hook: spec_fn(BaguaCommunicatorInner, BaguaCommunicationTensor) -> BaguaCommunicationTensor,
) -> BaguaCommunicationTensor {
    match action {
        ActionView::Hook(inner) => hook(inner, tensor),
        _ => tensor,
    }
}

impl BaguaCommunicator {
    /// Everything that happens from `stage` to the end, in order, when each
    /// step of `execute_communication` is carried out.
    pub open spec fn history(
        self,
        tensor: BaguaCommunicationTensor,
        intranode_average: bool,
        hierarchical_pre: bool,
        hierarchical_post: bool,
        stage: CommunicationStage,
        hook: spec_fn(BaguaCommunicatorInner, BaguaCommunicationTensor) -> BaguaCommunicationTensor,
    ) -> Seq<Event>
        decreases stage.left(),
    {
        if stage == CommunicationStage::Done {
            Seq::empty()
        } else {
            let action = self.action(
                tensor,
                intranode_average,
                hierarchical_pre,
                hierarchical_post,
                stage,
            );
            events(action) + self.history(
                after(action, tensor, hook),
                intranode_average,
                hierarchical_pre,
                hierarchical_post,
                stage.successor(),
                hook,
            )
        }
    }
}

/// A flat communicator hands the tensor to the training program once, with
/// its own communicator, and launches nothing.
pub proof fn single_only_hooks(
    single: BaguaSingleCommunicator,
    tensor: BaguaCommunicationTensor,
    intranode_average: bool,
    hierarchical_pre: bool,
    hierarchical_post: bool,
    hook: spec_fn(BaguaCommunicatorInner, BaguaCommunicationTensor) -> BaguaCommunicationTensor,
)
    ensures
        BaguaCommunicator::SingleCommunicator(single).history(
            tensor,
            intranode_average,
            hierarchical_pre,
            hierarchical_post,
            CommunicationStage::Pre,
            hook,
        ) == seq![Event::Hook(*single.inner)],
{
    reveal_with_fuel(BaguaCommunicator::history, 4);
}

/// A leader sums onto itself, and averages if asked to, before it hands the
/// tensor to the training program with the internode communicator. It sends
/// out what the training program made of the tensor. Either of the two
/// exchanges within the node can be left out.
pub proof fn leader_reduces_hooks_broadcasts(
    leader: BaguaHierarchicalCommunicatorLeader,
    tensor: BaguaCommunicationTensor,
    intranode_average: bool,
    hierarchical_pre: bool,
    hierarchical_post: bool,
    hook: spec_fn(BaguaCommunicatorInner, BaguaCommunicationTensor) -> BaguaCommunicationTensor,
)
    ensures
        ({
            let intranode = *leader.intranode.inner;
            let internode = *leader.internode.inner;
            let reduce = Event::Call(intranode.reduce_call(tensor.raw, 0));
            let average = Event::Call(average_call(intranode, tensor.raw));
            let broadcast = Event::Call(
                intranode.broadcast_call(hook(internode, tensor).raw, 0),
            );
            let first = if !hierarchical_pre {
                Seq::empty()
            } else if !intranode_average {
                seq![reduce]
            } else {
                seq![reduce, average]
            };
            let last = if hierarchical_post {
                seq![broadcast]
            } else {
                Seq::empty()
            };
            BaguaCommunicator::HierarchicalCommunicator(
                BaguaHierarchicalCommunicator::Leader(leader),
            ).history(
                tensor,
                intranode_average,
                hierarchical_pre,
                hierarchical_post,
                CommunicationStage::Pre,
                hook,
            ) == first + seq![Event::Hook(internode)] + last
        }),
{
    reveal_with_fuel(BaguaCommunicator::history, 4);
}

/// A worker takes part in the exchanges within its node and nothing else: the
/// training program never gets its tensor.
pub proof fn worker_never_hooks(
    worker: BaguaHierarchicalCommunicatorWorker,
    tensor: BaguaCommunicationTensor,
    intranode_average: bool,
    hierarchical_pre: bool,
    hierarchical_post: bool,
    hook: spec_fn(BaguaCommunicatorInner, BaguaCommunicationTensor) -> BaguaCommunicationTensor,
)
    ensures
        ({
            let intranode = *worker.intranode.inner;
            let first = if hierarchical_pre {
                seq![Event::Call(intranode.reduce_call(tensor.raw, 0))]
            } else {
                Seq::empty()
            };
            let last = if hierarchical_post {
                seq![Event::Call(intranode.broadcast_call(tensor.raw, 0))]
            } else {
                Seq::empty()
            };
            BaguaCommunicator::HierarchicalCommunicator(
                BaguaHierarchicalCommunicator::Worker(worker),
            ).history(
                tensor,
                intranode_average,
                hierarchical_pre,
                hierarchical_post,
                CommunicationStage::Pre,
                hook,
            ) == first + last
        }),
{
    reveal_with_fuel(BaguaCommunicator::history, 4);
}

/// The event takes place on this stream.
pub open spec fn on_stream(event: Event, stream: u64) -> bool {
    match event {
        Event::Call(call) => call.stream() == Some(stream),
        Event::Hook(inner) => inner.stream_ptr == stream,
    }
}

/// From whatever stage on, everything that happens to a tensor happens on the
/// one stream that the communicator reports.
pub proof fn history_stays_on_stream(
    communicator: BaguaCommunicator,
    tensor: BaguaCommunicationTensor,
    intranode_average: bool,
    hierarchical_pre: bool,
    hierarchical_post: bool,
    stage: CommunicationStage,
    hook: spec_fn(BaguaCommunicatorInner, BaguaCommunicationTensor) -> BaguaCommunicationTensor,
)
    requires
        communicator.wf(),
    ensures
        communicator.history(
            tensor,
            intranode_average,
            hierarchical_pre,
            hierarchical_post,
            stage,
            hook,
        ).all(|event: Event| on_stream(event, communicator.stream())),
    decreases stage.left(),
{
    if stage != CommunicationStage::Done {
        let action = communicator.action(
            tensor,
            intranode_average,
            hierarchical_pre,
            hierarchical_post,
            stage,
        );
        history_stays_on_stream(
            communicator,
            after(action, tensor, hook),
            intranode_average,
            hierarchical_pre,
            hierarchical_post,
            stage.successor(),
            hook,
        );
    }
}

/// A tensor on the communicator's own stream can be communicated at every
/// stage.
pub proof fn own_stream_is_admitted(
    communicator: BaguaCommunicator,
    tensor: BaguaCommunicationTensor,
    hierarchical_pre: bool,
    hierarchical_post: bool,
    stage: CommunicationStage,
)
    requires
        communicator.wf(),
        tensor.stream_ptr == communicator.stream(),
    ensures
        communicator.admits(tensor, hierarchical_pre, hierarchical_post, stage),
{
}

/// Of the ranks of a node, rank zero and no other leads it, and only a rank
/// that would lead can be refused.
pub proof fn rank_zero_leads(
    internode: Option<&BaguaSingleCommunicator>,
    intranode: Option<&BaguaSingleCommunicator>,
)
    requires
        suffices(internode, intranode, true),
    ensures
        match assembled(internode, intranode, true) {
            Some(BaguaCommunicator::HierarchicalCommunicator(part)) => {
                part is Leader <==> intranode->Some_0.inner.rank == 0
            },
            Some(BaguaCommunicator::SingleCommunicator(_)) => false,
            None => intranode->Some_0.inner.rank == 0,
        },
{
}

/// Two calls that can be two ranks' parts in one operation: the same
/// operation on as many elements of the same type, with the same root.
pub open spec fn corresponds(one: DeviceCall, other: DeviceCall) -> bool {
    match (one, other) {
        (
            DeviceCall::Broadcast { count, datatype, root, .. },
            DeviceCall::Broadcast { count: count2, datatype: datatype2, root: root2, .. },
        ) => count == count2 && datatype == datatype2 && root == root2,
        (
            DeviceCall::Reduce { count, datatype, op, root, .. },
            DeviceCall::Reduce { count: count2, datatype: datatype2, op: op2, root: root2, .. },
        ) => count == count2 && datatype == datatype2 && op == op2 && root == root2,
        (
            DeviceCall::AllReduce { count, datatype, op, .. },
            DeviceCall::AllReduce { count: count2, datatype: datatype2, op: op2, .. },
        ) => count == count2 && datatype == datatype2 && op == op2,
        (
            DeviceCall::AllGather { count, datatype, .. },
            DeviceCall::AllGather { count: count2, datatype: datatype2, .. },
        ) => count == count2 && datatype == datatype2,
        (
            DeviceCall::AllToAll { count, datatype, nranks, .. },
            DeviceCall::AllToAll { count: count2, datatype: datatype2, nranks: nranks2, .. },
        ) => count == count2 && datatype == datatype2 && nranks == nranks2,
        (
            DeviceCall::Send { count, datatype, .. },
            DeviceCall::Recv { count: count2, datatype: datatype2, .. },
        ) => count == count2 && datatype == datatype2,
        _ => false,
    }
}

/// Two ranks of one communicator that make the same call, on tensors of the
/// same size and type, make corresponding calls; a send corresponds to a
/// receive. Where the tensors are and on which streams plays no role.
pub proof fn ranks_correspond(
    one: BaguaCommunicatorInner,
    other: BaguaCommunicatorInner,
    tensor: BaguaTensorRaw,
    tensor2: BaguaTensorRaw,
    recv_tensor: BaguaTensorRaw,
    recv_tensor2: BaguaTensorRaw,
    scratch_ptr: u64,
    scratch_ptr2: u64,
    root_rank: i32,
    peer_rank: i32,
    peer_rank2: i32,
)
    requires
        one.nranks == other.nranks,
        tensor.num_elem_allocated == tensor2.num_elem_allocated,
        tensor.dtype == tensor2.dtype,
    ensures
        corresponds(
            one.broadcast_call(tensor, root_rank),
            other.broadcast_call(tensor2, root_rank),
        ),
        corresponds(one.reduce_call(tensor, root_rank), other.reduce_call(tensor2, root_rank)),
        corresponds(one.allreduce_call(tensor), other.allreduce_call(tensor2)),
        corresponds(
            one.allgather_call(tensor, recv_tensor),
            other.allgather_call(tensor2, recv_tensor2),
        ),
        corresponds(
            one.alltoall_call(tensor, recv_tensor),
            other.alltoall_call(tensor2, recv_tensor2),
        ),
        corresponds(one.send_call(tensor, peer_rank), other.recv_call(tensor2, peer_rank2)),
        corresponds(one.barrier_call(scratch_ptr), other.barrier_call(scratch_ptr2)),
{
}

/// The leader and the workers of a node make corresponding calls, before the
/// leaders communicate and after.
pub proof fn leader_and_worker_correspond(
    leader: BaguaHierarchicalCommunicatorLeader,
    worker: BaguaHierarchicalCommunicatorWorker,
    tensor: BaguaTensorRaw,
    tensor2: BaguaTensorRaw,
    average: bool,
)
    requires
        tensor.num_elem_allocated == tensor2.num_elem_allocated,
        tensor.dtype == tensor2.dtype,
    ensures
        corresponds(leader.pre_calls(tensor, average)[0], worker.pre_call(tensor2)),
        corresponds(leader.post_call(tensor), worker.post_call(tensor2)),
{
}

/// The chunks of all ranks tile a tensor: the first starts where the tensor
/// does, each ends where the next one starts, and the last ends where the
/// tensor does.
pub proof fn chunks_tile(inner: BaguaCommunicatorInner, tensor: BaguaTensorRaw, rank: int)
    requires
        inner.divides(tensor),
    ensures
        inner.nranks * inner.chunk_len(tensor) == tensor.num_elem_allocated,
        inner.chunk_start(tensor, 0) == tensor.ptr,
        inner.chunk_start(tensor, rank) + inner.chunk_len(tensor) * tensor.dtype.element_bytes
            == inner.chunk_start(tensor, rank + 1),
        inner.chunk_start(tensor, inner.nranks as int) == tensor.ptr + tensor.size_in_bytes(),
{
    let len = inner.chunk_len(tensor);
    let bytes = tensor.dtype.element_bytes as int;
    vstd::arithmetic::div_mod::lemma_fundamental_div_mod(
        tensor.num_elem_allocated as int,
        inner.nranks as int,
    );
    assert(0 * len * bytes == 0) by (nonlinear_arith);
    assert(rank * len * bytes + len * bytes == (rank + 1) * len * bytes) by (nonlinear_arith);
}

/// What a rank hands to an all-gather lies within its tensor: its own chunk,
/// no byte outside.
pub proof fn chunk_lies_within(inner: BaguaCommunicatorInner, tensor: BaguaTensorRaw, rank: int)
    requires
        inner.divides(tensor),
        0 <= rank < inner.nranks,
    ensures
        tensor.ptr <= inner.chunk_start(tensor, rank),
        inner.chunk_start(tensor, rank) + inner.chunk_len(tensor) * tensor.dtype.element_bytes
            <= tensor.ptr + tensor.size_in_bytes(),
{
    chunks_tile(inner, tensor, rank);
    let len = inner.chunk_len(tensor);
    let bytes = tensor.dtype.element_bytes as int;
    let nranks = inner.nranks as int;
    assert(len >= 0) by {
        vstd::arithmetic::div_mod::lemma_div_pos_is_pos(
            tensor.num_elem_allocated as int,
            inner.nranks as int,
        );
    }
    assert(0 <= rank * len * bytes && (rank + 1) * len * bytes <= nranks * len * bytes)
        by (nonlinear_arith)
        requires
            0 <= rank < nranks,
            0 <= len,
            0 <= bytes,
    ;
}

/// The chunks of two ranks have no byte in common: the chunk of the lower rank
/// ends before that of the higher one starts.
pub proof fn chunks_are_disjoint(
    inner: BaguaCommunicatorInner,
    tensor: BaguaTensorRaw,
    lower: int,
    higher: int,
)
    requires
        inner.divides(tensor),
        0 <= lower < higher < inner.nranks,
    ensures
        inner.chunk_start(tensor, lower) + inner.chunk_len(tensor) * tensor.dtype.element_bytes
            <= inner.chunk_start(tensor, higher),
{
    chunks_tile(inner, tensor, lower);
    let len = inner.chunk_len(tensor);
    let bytes = tensor.dtype.element_bytes as int;
    assert(len >= 0) by {
        vstd::arithmetic::div_mod::lemma_div_pos_is_pos(
            tensor.num_elem_allocated as int,
            inner.nranks as int,
        );
    }
    assert((lower + 1) * len * bytes <= higher * len * bytes) by (nonlinear_arith)
        requires
            lower < higher,
            0 <= len,
            0 <= bytes,
    ;
}

/// Two tensors of one size and type, whose memory the address space holds,
/// can be gathered on every rank, and the chunks gathered fill the receiving
/// tensor exactly.
pub proof fn equal_tensors_gather(
    inner: BaguaCommunicatorInner,
    send_tensor: BaguaTensorRaw,
    recv_tensor: BaguaTensorRaw,
)
    requires
        send_tensor.num_elem_allocated == recv_tensor.num_elem_allocated,
        send_tensor.dtype == recv_tensor.dtype,
        inner.divides(send_tensor),
        inner.rank < inner.nranks,
        send_tensor.ptr + send_tensor.size_in_bytes() <= u64::MAX,
    ensures
        inner.gathers(send_tensor, recv_tensor),
        inner.nranks * inner.chunk_len(send_tensor) == recv_tensor.num_elem_allocated,
{
    let rank = inner.rank as int;
    let len = inner.chunk_len(send_tensor);
    chunks_tile(inner, send_tensor, rank);
    chunk_lies_within(inner, send_tensor, rank);
    assert(len >= 0) by {
        vstd::arithmetic::div_mod::lemma_div_pos_is_pos(
            send_tensor.num_elem_allocated as int,
            inner.nranks as int,
        );
    }
    assert(rank * len <= inner.nranks * len) by (nonlinear_arith)
        requires
            rank < inner.nranks,
            0 <= len,
    ;
    assert(len * send_tensor.dtype.element_bytes >= 0) by (nonlinear_arith)
        requires
            0 <= len,
    ;
}

/// An all-to-all sends the whole of its tensor, one chunk to each rank, and a
/// receiving tensor of at least that size has room for the chunks that come
/// back.
pub proof fn alltoall_fits(
    inner: BaguaCommunicatorInner,
    send_tensor: BaguaTensorRaw,
    recv_tensor: BaguaTensorRaw,
)
    requires
        inner.divides(send_tensor),
        recv_tensor.size_in_bytes() >= send_tensor.size_in_bytes(),
    ensures
        inner.nranks * inner.chunk_len(send_tensor) * send_tensor.dtype.element_bytes
            == send_tensor.size_in_bytes(),
        inner.nranks * inner.chunk_len(send_tensor) * send_tensor.dtype.element_bytes
            <= recv_tensor.size_in_bytes(),
{
    chunks_tile(inner, send_tensor, 0);
}

/// Only the leading bytes of a decoded text make up the identifier.
pub proof fn trailing_bytes_are_ignored(id: Seq<u8>, rest: Seq<u8>)
    requires
        id.len() == NCCL_UNIQUE_ID_BYTES,
    ensures
        leading_id(Ok::<Seq<u8>, Base64Error>(id + rest)) is Ok,
        leading_id(Ok::<Seq<u8>, Base64Error>(id + rest))->Ok_0 == id,
{
    assert((id + rest).take(NCCL_UNIQUE_ID_BYTES as int) =~= id);
}

/// Identifiers that NCCL fills in differently are written as different bytes.
pub proof fn ids_stay_apart(one: Seq<i8>, other: Seq<i8>)
    requires
        id_bytes(one) == id_bytes(other),
    ensures
        one == other,
{
    assert(one.len() == id_bytes(one).len());
    assert(other.len() == id_bytes(other).len());
    assert forall|i: int| 0 <= i < one.len() implies one[i] == other[i] by {
        assert(id_bytes(one)[i] == char_bits(one[i]));
        assert(id_bytes(other)[i] == char_bits(other[i]));
    }
}

/// How many groups are open after these calls, less those open before.
pub open spec fn group_depth(calls: Seq<DeviceCall>) -> int
    decreases calls.len(),
{
    if calls.len() == 0 {
        0
    } else {
        group_depth(calls.drop_last()) + match calls.last() {
            DeviceCall::GroupStart => 1int,
            DeviceCall::GroupEnd => -1int,
            _ => 0int,
        }
    }
}

/// A guard around some calls, its first call before them and its last call
/// behind them, leaves as many groups open as the calls alone do.
pub proof fn guard_closes_what_it_opens(calls: Seq<DeviceCall>)
    ensures
        group_depth(seq![DeviceCall::GroupStart] + calls + seq![DeviceCall::GroupEnd])
            == group_depth(calls),
{
    let opened = seq![DeviceCall::GroupStart] + calls;
    group_start_adds_one(calls);
    assert((opened + seq![DeviceCall::GroupEnd]).drop_last() =~= opened);
}

/// At no point have these calls ended more groups than they started.
pub open spec fn ends_only_own(calls: Seq<DeviceCall>) -> bool {
    forall|i: int| 0 <= i <= calls.len() ==> group_depth(#[trigger] calls.take(i)) >= 0
}

/// Calls that never end a group of somebody else's still do not with a guard
/// around them.
pub proof fn guard_ends_only_its_own(calls: Seq<DeviceCall>)
    requires
        ends_only_own(calls),
    ensures
        ends_only_own(seq![DeviceCall::GroupStart] + calls + seq![DeviceCall::GroupEnd]),
{
    let opened = seq![DeviceCall::GroupStart] + calls;
    let guarded = opened + seq![DeviceCall::GroupEnd];
    assert forall|i: int| 0 <= i <= guarded.len() implies group_depth(
        #[trigger] guarded.take(i),
    ) >= 0 by {
        if i == guarded.len() {
            guard_closes_what_it_opens(calls);
            assert(guarded.take(i) =~= guarded);
            assert(calls.take(calls.len() as int) =~= calls);
        } else if i > 0 {
            let inside = calls.take(i - 1);
            assert(guarded.take(i) =~= seq![DeviceCall::GroupStart] + inside);
            group_start_adds_one(inside);
        }
    }
}

/// A group that is started in front of some calls stays open through them.
proof fn group_start_adds_one(calls: Seq<DeviceCall>)
    ensures
        group_depth(seq![DeviceCall::GroupStart] + calls) == 1 + group_depth(calls),
    decreases calls.len(),
{
    let opened = seq![DeviceCall::GroupStart] + calls;
    if calls.len() == 0 {
        assert(opened.drop_last() =~= calls);
    } else {
        assert(opened.drop_last() =~= seq![DeviceCall::GroupStart] + calls.drop_last());
        assert(opened.last() == calls.last());
        group_start_adds_one(calls.drop_last());
    }
}

} // verus!
