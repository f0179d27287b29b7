//! What the collectives do to the elements of tensors.
//!
//! A device's memory is modelled by the value of the element that starts at
//! each address. For every kind of call there is a predicate that says which
//! value an element has after the ranks have carried out their calls, in terms
//! of the addresses, counts, types, roots and handles in those calls alone. The
//! laws say what comes out for the tensors that the calls were made for.
use crate::calls::{DeviceCall, NcclDatatype, NcclReduceOp};
use crate::datatypes::BaguaTensorRaw;
use crate::hierarchical::{
    BaguaHierarchicalCommunicatorLeader, BaguaHierarchicalCommunicatorWorker,
};
use crate::inner::BaguaCommunicatorInner;
use vstd::prelude::*;

verus! {

/// The value of the element that starts at each address of a device.
pub type Memory = spec_fn(int) -> int;

/// The size of an element of each type.
pub type Sizes = spec_fn(NcclDatatype) -> int;

/// The value of element `k` of a tensor.
pub open spec fn element(memory: Memory, tensor: BaguaTensorRaw, k: int) -> int {
    memory(tensor.ptr + k * tensor.dtype.element_bytes)
}

/// The sum of some values.
pub open spec fn total(values: Seq<int>) -> int
    decreases values.len(),
{
    if values.len() == 0 {
        0
    } else {
        total(values.drop_last()) + values.last()
    }
}

/// Element `k` of the tensor of each rank.
pub open spec fn elements(memories: Seq<Memory>, tensors: Seq<BaguaTensorRaw>, k: int) -> Seq<int> {
    Seq::new(tensors.len(), |s: int| element(memories[s], tensors[s], k))
}

/// These are the ranks of one communicator, in order, each with its tensor,
/// and the tensors have one size and one type, whose size the model knows.
pub open spec fn ranks_of_one(
    ranks: Seq<BaguaCommunicatorInner>,
    tensors: Seq<BaguaTensorRaw>,
    sizes: Sizes,
) -> bool {
    &&& ranks.len() == tensors.len() > 0
    &&& forall|r: int|
        0 <= r < ranks.len() ==> {
            &&& (#[trigger] ranks[r]).rank == r
            &&& ranks[r].nranks == ranks.len()
        }
    &&& forall|r: int|
        0 <= r < tensors.len() ==> {
            &&& (#[trigger] tensors[r]).num_elem_allocated == tensors[0].num_elem_allocated
            &&& tensors[r].dtype == tensors[0].dtype
        }
    &&& sizes(NcclDatatype::Code(tensors[0].dtype.nccl_datatype)) == tensors[0].dtype.element_bytes
}

/// The handles of the ranks.
pub open spec fn handles(ranks: Seq<BaguaCommunicatorInner>) -> Seq<u64> {
    ranks.map_values(|rank: BaguaCommunicatorInner| rank.comm_ptr)
}

/// If each rank `r` calls `ncclAllReduce` on its handle with one count and one
/// type, element `k` that rank `r` receives is the sum of what all ranks send.
pub open spec fn all_reduces(
    comms: Seq<u64>,
    calls: Seq<DeviceCall>,
    before: Seq<Memory>,
    after: Seq<Memory>,
    sizes: Sizes,
    r: int,
    k: int,
) -> bool {
    (calls.len() == comms.len() && 0 <= r < calls.len() && 0 <= k < calls[r]->AllReduce_count && (
    forall|s: int|
        0 <= s < calls.len() ==> {
            &&& #[trigger] calls[s] is AllReduce
            &&& calls[s]->AllReduce_comm == comms[s]
            &&& calls[s]->AllReduce_op == NcclReduceOp::Sum
            &&& calls[s]->AllReduce_count == calls[r]->AllReduce_count
            &&& calls[s]->AllReduce_datatype == calls[r]->AllReduce_datatype
        })) ==> after[r](
        calls[r]->AllReduce_recv_buf + k * sizes(calls[r]->AllReduce_datatype),
    ) == total(
        Seq::new(
            calls.len(),
            |s: int|
                before[s](calls[s]->AllReduce_send_buf + k * sizes(calls[s]->AllReduce_datatype)),
        ),
    )
}

/// An all-reduce leaves on every rank, in every element of its tensor, the sum
/// of that element over the tensors of all ranks.
pub proof fn allreduce_sums_every_element(
    ranks: Seq<BaguaCommunicatorInner>,
    tensors: Seq<BaguaTensorRaw>,
    before: Seq<Memory>,
    after: Seq<Memory>,
    sizes: Sizes,
    r: int,
    k: int,
)
    requires
        ranks_of_one(ranks, tensors, sizes),
        0 <= r < ranks.len(),
        0 <= k < tensors[r].num_elem_allocated,
        all_reduces(
            handles(ranks),
            Seq::new(ranks.len(), |s: int| ranks[s].allreduce_call(tensors[s])),
            before,
            after,
            sizes,
            r,
            k,
        ),
    ensures
        element(after[r], tensors[r], k) == total(elements(before, tensors, k)),
{
    let calls = Seq::new(ranks.len(), |s: int| ranks[s].allreduce_call(tensors[s]));
    assert(Seq::new(
        calls.len(),
        |s: int|
            before[s](calls[s]->AllReduce_send_buf + k * sizes(calls[s]->AllReduce_datatype)),
    ) =~= elements(before, tensors, k));
}

/// If each rank calls `ncclReduce` on its handle with one count, one type and
/// the root `r`, element `k` that rank `r` receives is the sum of what all
/// ranks send.
pub open spec fn reduces(
    comms: Seq<u64>,
    calls: Seq<DeviceCall>,
    before: Seq<Memory>,
    after: Seq<Memory>,
    sizes: Sizes,
    r: int,
    k: int,
) -> bool {
    (calls.len() == comms.len() && 0 <= r < calls.len() && 0 <= k < calls[r]->Reduce_count && (
    forall|s: int|
        0 <= s < calls.len() ==> {
            &&& #[trigger] calls[s] is Reduce
            &&& calls[s]->Reduce_comm == comms[s]
            &&& calls[s]->Reduce_op == NcclReduceOp::Sum
            &&& calls[s]->Reduce_root == r
            &&& calls[s]->Reduce_count == calls[r]->Reduce_count
            &&& calls[s]->Reduce_datatype == calls[r]->Reduce_datatype
        })) ==> after[r](
        calls[r]->Reduce_recv_buf + k * sizes(calls[r]->Reduce_datatype),
    ) == total(
        Seq::new(
            calls.len(),
            |s: int| before[s](calls[s]->Reduce_send_buf + k * sizes(calls[s]->Reduce_datatype)),
        ),
    )
}

/// A reduction leaves on its root, in every element of the root's tensor, the
/// sum of that element over the tensors of all ranks.
pub proof fn reduce_sums_every_element_on_the_root(
    ranks: Seq<BaguaCommunicatorInner>,
    tensors: Seq<BaguaTensorRaw>,
    root_rank: i32,
    before: Seq<Memory>,
    after: Seq<Memory>,
    sizes: Sizes,
    k: int,
)
    requires
        ranks_of_one(ranks, tensors, sizes),
        0 <= root_rank < ranks.len(),
        0 <= k < tensors[root_rank as int].num_elem_allocated,
        reduces(
            handles(ranks),
            Seq::new(ranks.len(), |s: int| ranks[s].reduce_call(tensors[s], root_rank)),
            before,
            after,
            sizes,
            root_rank as int,
            k,
        ),
    ensures
        element(after[root_rank as int], tensors[root_rank as int], k) == total(
            elements(before, tensors, k),
        ),
{
    let calls = Seq::new(ranks.len(), |s: int| ranks[s].reduce_call(tensors[s], root_rank));
    assert(Seq::new(
        calls.len(),
        |s: int| before[s](calls[s]->Reduce_send_buf + k * sizes(calls[s]->Reduce_datatype)),
    ) =~= elements(before, tensors, k));
}

/// If each rank calls `ncclBroadcast` on its handle with one count, one type
/// and the root `root`, element `k` that rank `r` receives is what the root
/// sends.
pub open spec fn broadcasts(
    comms: Seq<u64>,
    calls: Seq<DeviceCall>,
    before: Seq<Memory>,
    after: Seq<Memory>,
    sizes: Sizes,
    root: int,
    r: int,
    k: int,
) -> bool {
    (calls.len() == comms.len() && 0 <= root < calls.len() && 0 <= r < calls.len() && 0 <= k
        < calls[r]->Broadcast_count && (forall|s: int|
        0 <= s < calls.len() ==> {
            &&& #[trigger] calls[s] is Broadcast
            &&& calls[s]->Broadcast_comm == comms[s]
            &&& calls[s]->Broadcast_root == root
            &&& calls[s]->Broadcast_count == calls[r]->Broadcast_count
            &&& calls[s]->Broadcast_datatype == calls[r]->Broadcast_datatype
        })) ==> after[r](
        calls[r]->Broadcast_recv_buf + k * sizes(calls[r]->Broadcast_datatype),
    ) == before[root](
        calls[root]->Broadcast_send_buf + k * sizes(calls[root]->Broadcast_datatype),
    )
}

/// A broadcast leaves on every rank, in every element of its tensor, what the
/// root's tensor has there.
pub proof fn broadcast_copies_every_element_of_the_root(
    ranks: Seq<BaguaCommunicatorInner>,
    tensors: Seq<BaguaTensorRaw>,
    root_rank: i32,
    before: Seq<Memory>,
    after: Seq<Memory>,
    sizes: Sizes,
    r: int,
    k: int,
)
    requires
        ranks_of_one(ranks, tensors, sizes),
        0 <= root_rank < ranks.len(),
        0 <= r < ranks.len(),
        0 <= k < tensors[r].num_elem_allocated,
        broadcasts(
            handles(ranks),
            Seq::new(ranks.len(), |s: int| ranks[s].broadcast_call(tensors[s], root_rank)),
            before,
            after,
            sizes,
            root_rank as int,
            r,
            k,
        ),
    ensures
        element(after[r], tensors[r], k) == element(
            before[root_rank as int],
            tensors[root_rank as int],
            k,
        ),
{
    let calls = Seq::new(ranks.len(), |s: int| ranks[s].broadcast_call(tensors[s], root_rank));
    assert(calls[root_rank as int] == ranks[root_rank as int].broadcast_call(
        tensors[root_rank as int],
        root_rank,
    ));
    assert(tensors[root_rank as int].dtype == tensors[0].dtype);
}

/// If each rank calls `ncclAllGather` on its handle with one count and one
/// type, rank `r` receives in place `s`, as element `k` there, what rank `s`
/// sends as element `k`.
pub open spec fn all_gathers(
    comms: Seq<u64>,
    calls: Seq<DeviceCall>,
    before: Seq<Memory>,
    after: Seq<Memory>,
    sizes: Sizes,
    r: int,
    s: int,
    k: int,
) -> bool {
    (calls.len() == comms.len() && 0 <= r < calls.len() && 0 <= s < calls.len() && 0 <= k
        < calls[s]->AllGather_count && (forall|i: int|
        0 <= i < calls.len() ==> {
            &&& #[trigger] calls[i] is AllGather
            &&& calls[i]->AllGather_comm == comms[i]
            &&& calls[i]->AllGather_count == calls[r]->AllGather_count
            &&& calls[i]->AllGather_datatype == calls[r]->AllGather_datatype
        })) ==> after[r](
        calls[r]->AllGather_recv_buf + (s * calls[r]->AllGather_count + k) * sizes(
            calls[r]->AllGather_datatype,
        ),
    ) == before[s](calls[s]->AllGather_send_buf + k * sizes(calls[s]->AllGather_datatype))
}

/// What the ranks call for an all-gather.
pub open spec fn gather_calls(
    ranks: Seq<BaguaCommunicatorInner>,
    send: Seq<BaguaTensorRaw>,
    recv: Seq<BaguaTensorRaw>,
) -> Seq<DeviceCall> {
    Seq::new(ranks.len(), |i: int| ranks[i].allgather_call(send[i], recv[i]))
}

/// An all-gather fills the receiving tensor of every rank: element `j` comes
/// from element `j` of the sending tensor of the rank in whose share `j` lies,
/// where the shares are equal and in the order of the ranks.
pub proof fn allgather_collects_every_element(
    ranks: Seq<BaguaCommunicatorInner>,
    send: Seq<BaguaTensorRaw>,
    recv: Seq<BaguaTensorRaw>,
    before: Seq<Memory>,
    after: Seq<Memory>,
    sizes: Sizes,
    r: int,
    s: int,
    j: int,
)
    requires
        ranks_of_one(ranks, send, sizes),
        recv.len() == send.len(),
        forall|i: int| 0 <= i < ranks.len() ==> (#[trigger] ranks[i]).gathers(send[i], recv[i]),
        0 <= r < ranks.len(),
        0 <= s < ranks.len(),
        s * send[0].num_elem_allocated <= j * ranks.len() < (s + 1) * send[0].num_elem_allocated,
        forall|k: int|
            #[trigger] all_gathers(
                handles(ranks),
                gather_calls(ranks, send, recv),
                before,
                after,
                sizes,
                r,
                s,
                k,
            ),
    ensures
        0 <= j < recv[r].num_elem_allocated,
        element(after[r], recv[r], j) == element(before[s], send[s], j),
{
    let n = ranks.len() as int;
    let num = send[0].num_elem_allocated as int;
    let bytes = send[0].dtype.element_bytes as int;
    let c = num / n;
    assert(ranks[s].gathers(send[s], recv[s]));
    assert(ranks[r].gathers(send[r], recv[r]));
    assert(num == n * c) by {
        vstd::arithmetic::div_mod::lemma_fundamental_div_mod(num, n);
    }
    assert(s * c <= j < (s + 1) * c && 0 <= j < num) by (nonlinear_arith)
        requires
            num == n * c,
            0 < n,
            0 <= s < n,
            s * num <= j * n < (s + 1) * num,
            0 <= num,
    ;
    let k = j - s * c;
    assert((s + 1) * c == s * c + c) by (nonlinear_arith);
    let calls = gather_calls(ranks, send, recv);
    assert(all_gathers(handles(ranks), calls, before, after, sizes, r, s, k));
    assert forall|i: int| 0 <= i < calls.len() implies {
        &&& #[trigger] calls[i] is AllGather
        &&& calls[i]->AllGather_comm == handles(ranks)[i]
        &&& calls[i]->AllGather_count == c
        &&& calls[i]->AllGather_datatype == calls[r]->AllGather_datatype
    } by {
        assert(ranks[i].nranks == n);
        assert(send[i].num_elem_allocated == num);
        assert(c <= num) by (nonlinear_arith)
            requires
                num == n * c,
                0 < n,
                0 <= num,
        ;
        assert(0 <= c) by (nonlinear_arith)
            requires
                num == n * c,
                0 < n,
                0 <= num,
        ;
    }
    assert(calls[s]->AllGather_send_buf + k * bytes == send[s].ptr + j * bytes) by {
        assert(s * c * bytes >= 0) by (nonlinear_arith)
            requires
                0 <= s,
                0 <= c,
                0 <= bytes,
        ;
        assert(s * c * bytes + k * bytes == j * bytes) by (nonlinear_arith)
            requires
                k == j - s * c,
        ;
    }
}

/// If each rank calls `ncclAllToAll` on its handle with its own rank, the
/// number of ranks, one count and one type, rank `r` receives in place `s`, as
/// element `k` there, what rank `s` sends in place `r` as element `k`.
pub open spec fn all_to_all(
    comms: Seq<u64>,
    calls: Seq<DeviceCall>,
    before: Seq<Memory>,
    after: Seq<Memory>,
    sizes: Sizes,
    r: int,
    s: int,
    k: int,
) -> bool {
    (calls.len() == comms.len() && 0 <= r < calls.len() && 0 <= s < calls.len() && 0 <= k
        < calls[s]->AllToAll_count && (forall|i: int|
        0 <= i < calls.len() ==> {
            &&& #[trigger] calls[i] is AllToAll
            &&& calls[i]->AllToAll_comm == comms[i]
            &&& calls[i]->AllToAll_nranks == calls.len()
            &&& calls[i]->AllToAll_rank == i
            &&& calls[i]->AllToAll_count == calls[r]->AllToAll_count
            &&& calls[i]->AllToAll_datatype == calls[r]->AllToAll_datatype
        })) ==> after[r](
        calls[r]->AllToAll_recv_buf + (s * calls[r]->AllToAll_count + k) * sizes(
            calls[r]->AllToAll_datatype,
        ),
    ) == before[s](
        calls[s]->AllToAll_send_buf + (r * calls[s]->AllToAll_count + k) * sizes(
            calls[s]->AllToAll_datatype,
        ),
    )
}

/// An all-to-all transposes shares: cut each tensor into one equal share per
/// rank, of `c` elements. What rank `r` receives as share `s` is what rank `s`
/// sends as share `r`, element by element.
pub proof fn alltoall_transposes_every_share(
    ranks: Seq<BaguaCommunicatorInner>,
    send: Seq<BaguaTensorRaw>,
    recv: Seq<BaguaTensorRaw>,
    before: Seq<Memory>,
    after: Seq<Memory>,
    sizes: Sizes,
    c: int,
    r: int,
    s: int,
    k: int,
)
    requires
        ranks_of_one(ranks, send, sizes),
        recv.len() == send.len(),
        ranks.len() <= i32::MAX,
        send[0].num_elem_allocated == ranks.len() * c,
        recv[r].dtype == send[r].dtype,
        0 <= r < ranks.len(),
        0 <= s < ranks.len(),
        0 <= k < c,
        all_to_all(
            handles(ranks),
            Seq::new(ranks.len(), |i: int| ranks[i].alltoall_call(send[i], recv[i])),
            before,
            after,
            sizes,
            r,
            s,
            k,
        ),
    ensures
        element(after[r], recv[r], s * c + k) == element(before[s], send[s], r * c + k),
{
    let n = ranks.len() as int;
    let num = send[0].num_elem_allocated as int;
    assert(num / n == c) by {
        vstd::arithmetic::div_mod::lemma_div_multiples_vanish(c, n);
    }
    assert(c <= num) by (nonlinear_arith)
        requires
            num == n * c,
            0 < n,
            0 <= num,
    ;
    let calls = Seq::new(ranks.len(), |i: int| ranks[i].alltoall_call(send[i], recv[i]));
    assert forall|i: int| 0 <= i < calls.len() implies {
        &&& #[trigger] calls[i] is AllToAll
        &&& calls[i]->AllToAll_comm == handles(ranks)[i]
        &&& calls[i]->AllToAll_nranks == n
        &&& calls[i]->AllToAll_rank == i
        &&& calls[i]->AllToAll_count == c
        &&& calls[i]->AllToAll_datatype == calls[r]->AllToAll_datatype
    } by {
        assert(ranks[i].nranks == n && ranks[i].rank == i);
        assert(send[i].num_elem_allocated == num);
    }
}

/// If one rank calls `ncclSend` to `to` and that rank calls `ncclRecv` from
/// `from`, with one count and one type, element `k` that is received is
/// element `k` that was sent.
pub open spec fn transfers(
    sending: DeviceCall,
    receiving: DeviceCall,
    from: int,
    to: int,
    sender_comm: u64,
    receiver_comm: u64,
    before: Memory,
    after: Memory,
    sizes: Sizes,
    k: int,
) -> bool {
    (sending is Send && receiving is Recv && sending->Send_peer == to && receiving->Recv_peer
        == from && sending->Send_comm == sender_comm && receiving->Recv_comm == receiver_comm
        && sending->Send_count == receiving->Recv_count && sending->Send_datatype
        == receiving->Recv_datatype && 0 <= k < receiving->Recv_count) ==> after(
        receiving->Recv_buf + k * sizes(receiving->Recv_datatype),
    ) == before(sending->Send_buf + k * sizes(sending->Send_datatype))
}

/// A send and the matching receive carry every element of the sender's tensor
/// over to the receiver's.
pub proof fn send_and_recv_carry_every_element(
    sender: BaguaCommunicatorInner,
    receiver: BaguaCommunicatorInner,
    sent: BaguaTensorRaw,
    received: BaguaTensorRaw,
    from: i32,
    to: i32,
    before: Memory,
    after: Memory,
    sizes: Sizes,
    k: int,
)
    requires
        sent.num_elem_allocated == received.num_elem_allocated,
        sent.dtype == received.dtype,
        sizes(NcclDatatype::Code(sent.dtype.nccl_datatype)) == sent.dtype.element_bytes,
        0 <= k < received.num_elem_allocated,
        transfers(
            sender.send_call(sent, to),
            receiver.recv_call(received, from),
            from as int,
            to as int,
            sender.comm_ptr,
            receiver.comm_ptr,
            before,
            after,
            sizes,
            k,
        ),
    ensures
        element(after, received, k) == element(before, sent, k),
{
}

/// A division in place leaves in element `k` the quotient: the value which,
/// taken `divisor` times, makes up what was there before.
pub open spec fn divides_in_place(
    call: DeviceCall,
    stream: u64,
    before: Memory,
    after: Memory,
    k: int,
) -> bool {
    (call is DivideInplace && call->DivideInplace_stream == stream && 0 <= k
        < call->DivideInplace_tensor.num_elem_allocated) ==> element(
        after,
        call->DivideInplace_tensor,
        k,
    ) * call->DivideInplace_divisor == element(before, call->DivideInplace_tensor, k)
}

/// The intranode communicators of a node's ranks: the leader's, and those of
/// the workers, in order.
pub open spec fn node(
    leader: BaguaHierarchicalCommunicatorLeader,
    workers: Seq<BaguaHierarchicalCommunicatorWorker>,
) -> Seq<BaguaCommunicatorInner> {
    Seq::new(
        workers.len() + 1,
        |r: int|
            if r == 0 {
                *leader.intranode.inner
            } else {
                *workers[r - 1].intranode.inner
            },
    )
}

/// What the ranks of a node call first before the leaders communicate.
pub open spec fn node_pre(
    leader: BaguaHierarchicalCommunicatorLeader,
    workers: Seq<BaguaHierarchicalCommunicatorWorker>,
    tensors: Seq<BaguaTensorRaw>,
    average: bool,
) -> Seq<DeviceCall> {
    Seq::new(
        workers.len() + 1,
        |r: int|
            if r == 0 {
                leader.pre_calls(tensors[r], average)[0]
            } else {
                workers[r - 1].pre_call(tensors[r])
            },
    )
}

/// What the ranks of a node call after the leaders have communicated.
pub open spec fn node_post(
    leader: BaguaHierarchicalCommunicatorLeader,
    workers: Seq<BaguaHierarchicalCommunicatorWorker>,
    tensors: Seq<BaguaTensorRaw>,
) -> Seq<DeviceCall> {
    Seq::new(
        workers.len() + 1,
        |r: int|
            if r == 0 {
                leader.post_call(tensors[r])
            } else {
                workers[r - 1].post_call(tensors[r])
            },
    )
}

/// Before the leaders communicate, the leader of a node gets the sum of the
/// node's tensors, in every element; and no call follows if it is not to
/// average.
pub proof fn node_sums_onto_its_leader(
    leader: BaguaHierarchicalCommunicatorLeader,
    workers: Seq<BaguaHierarchicalCommunicatorWorker>,
    tensors: Seq<BaguaTensorRaw>,
    average: bool,
    before: Seq<Memory>,
    summed: Seq<Memory>,
    sizes: Sizes,
    k: int,
)
    requires
        ranks_of_one(node(leader, workers), tensors, sizes),
        0 <= k < tensors[0].num_elem_allocated,
        reduces(
            handles(node(leader, workers)),
            node_pre(leader, workers, tensors, average),
            before,
            summed,
            sizes,
            0,
            k,
        ),
    ensures
        element(summed[0], tensors[0], k) == total(elements(before, tensors, k)),
        leader.pre_calls(tensors[0], average).len() == if average {
            2int
        } else {
            1int
        },
{
    let ranks = node(leader, workers);
    assert(node_pre(leader, workers, tensors, average) =~= Seq::new(
        ranks.len(),
        |s: int| ranks[s].reduce_call(tensors[s], 0),
    ));
    reduce_sums_every_element_on_the_root(ranks, tensors, 0, before, summed, sizes, k);
}

/// With averaging, the leader of a node ends up with the mean of the node's
/// tensors, in every element: taken as many times as the node has ranks, it is
/// their sum.
pub proof fn node_averages_on_its_leader(
    leader: BaguaHierarchicalCommunicatorLeader,
    workers: Seq<BaguaHierarchicalCommunicatorWorker>,
    tensors: Seq<BaguaTensorRaw>,
    before: Seq<Memory>,
    summed: Seq<Memory>,
    averaged: Memory,
    sizes: Sizes,
    k: int,
)
    requires
        ranks_of_one(node(leader, workers), tensors, sizes),
        0 <= k < tensors[0].num_elem_allocated,
        reduces(
            handles(node(leader, workers)),
            node_pre(leader, workers, tensors, true),
            before,
            summed,
            sizes,
            0,
            k,
        ),
        divides_in_place(
            leader.pre_calls(tensors[0], true)[1],
            leader.intranode.inner.stream_ptr,
            summed[0],
            averaged,
            k,
        ),
    ensures
        element(averaged, tensors[0], k) * tensors.len() == total(elements(before, tensors, k)),
{
    node_sums_onto_its_leader(leader, workers, tensors, true, before, summed, sizes, k);
    assert(node(leader, workers)[0].nranks == tensors.len());
}

/// After the leaders have communicated, every rank of a node gets what its
/// leader has, in every element.
pub proof fn node_takes_over_from_its_leader(
    leader: BaguaHierarchicalCommunicatorLeader,
    workers: Seq<BaguaHierarchicalCommunicatorWorker>,
    tensors: Seq<BaguaTensorRaw>,
    before: Seq<Memory>,
    after: Seq<Memory>,
    sizes: Sizes,
    r: int,
    k: int,
)
    requires
        ranks_of_one(node(leader, workers), tensors, sizes),
        0 <= r < tensors.len(),
        0 <= k < tensors[r].num_elem_allocated,
        broadcasts(
            handles(node(leader, workers)),
            node_post(leader, workers, tensors),
            before,
            after,
            sizes,
            0,
            r,
            k,
        ),
    ensures
        element(after[r], tensors[r], k) == element(before[0], tensors[0], k),
{
    let ranks = node(leader, workers);
    assert(node_post(leader, workers, tensors) =~= Seq::new(
        ranks.len(),
        |s: int| ranks[s].broadcast_call(tensors[s], 0),
    ));
    broadcast_copies_every_element_of_the_root(ranks, tensors, 0, before, after, sizes, r, k);
}

} // verus!
