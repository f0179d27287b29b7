//! What holds of the results of operations, alone and together.
//!
//! Each law is about values that operations returned: `call_ensures(f, args,
//! result)` says that `f` can have returned `result` for `args`.
use crate::calls::{DeviceCall, NcclDatatype, NcclReduceOp};
use crate::communicator::{BaguaCommunicator, CommunicationAction, CommunicationStage};
use crate::datatypes::{BaguaCommunicationTensor, BaguaTensor, BaguaTensorDtype, BaguaTensorRaw};
use crate::error::BaguaCoreError;
use crate::group::NCCLGroupGuard;
use crate::hierarchical::{
    BaguaHierarchicalCommunicator, BaguaHierarchicalCommunicatorLeader,
    BaguaHierarchicalCommunicatorWorker,
};
use crate::inner::{BaguaCommunicatorInner, ScratchMemory};
use crate::operands::{
    allgather_sends_the_share_of_its_rank, alltoall_moves_equal_shares, bytes_keep_the_bits_of_chars,
    division_is_even, gathering_is_decided_by_the_operands, setup_hands_over_its_arguments,
};
use crate::single::{BaguaSingleCommunicator, CommunicatorSetup, SetupStep};
use crate::unique_id::{
    base64_decoded, id_bytes, take_unique_id, Base64Error, UniqueIdError, NCCL_UNIQUE_ID_BYTES,
};
use vstd::prelude::*;

verus! {

/// An all-reduce covers the whole tensor in place and sums, on the
/// communicator's own handle and stream, and a flat communicator's is that of
/// the communicator in it.
pub proof fn allreduce_result(
    communicator: BaguaSingleCommunicator,
    tensor: BaguaTensor,
    call: DeviceCall,
)
    requires
        call_ensures(
            BaguaCommunicatorInner::allreduce,
            (&*communicator.inner, &tensor.raw),
            call,
        ) || call_ensures(BaguaSingleCommunicator::allreduce, (&communicator, &tensor), call),
    ensures
        call matches DeviceCall::AllReduce {
            send_buf,
            recv_buf,
            count,
            datatype,
            op,
            comm,
            stream,
        } && send_buf == tensor.raw.ptr && recv_buf == tensor.raw.ptr && count
            == tensor.raw.num_elem_allocated && datatype == NcclDatatype::Code(
            tensor.raw.dtype.nccl_datatype,
        ) && op == NcclReduceOp::Sum && comm == communicator.inner.comm_ptr && stream
            == communicator.inner.stream_ptr,
{
}

/// A broadcast covers the whole tensor in place, from the root asked for.
pub proof fn broadcast_result(
    communicator: BaguaSingleCommunicator,
    tensor: BaguaTensor,
    root_rank: i32,
    call: DeviceCall,
)
    requires
        call_ensures(
            BaguaCommunicatorInner::broadcast,
            (&*communicator.inner, &tensor.raw, root_rank),
            call,
        ) || call_ensures(
            BaguaSingleCommunicator::broadcast,
            (&communicator, &tensor, root_rank),
            call,
        ),
    ensures
        call matches DeviceCall::Broadcast {
            send_buf,
            recv_buf,
            count,
            datatype,
            root,
            comm,
            stream,
        } && send_buf == tensor.raw.ptr && recv_buf == tensor.raw.ptr && count
            == tensor.raw.num_elem_allocated && datatype == NcclDatatype::Code(
            tensor.raw.dtype.nccl_datatype,
        ) && root == root_rank && comm == communicator.inner.comm_ptr && stream
            == communicator.inner.stream_ptr,
{
}

/// A reduction covers the whole tensor in place and sums, onto the root asked
/// for.
pub proof fn reduce_result(
    inner: BaguaCommunicatorInner,
    tensor: BaguaTensorRaw,
    root_rank: i32,
    call: DeviceCall,
)
    requires
        call_ensures(BaguaCommunicatorInner::reduce, (&inner, &tensor, root_rank), call),
    ensures
        call matches DeviceCall::Reduce {
            send_buf,
            recv_buf,
            count,
            datatype,
            op,
            root,
            comm,
            stream,
        } && send_buf == tensor.ptr && recv_buf == tensor.ptr && count == tensor.num_elem_allocated
            && datatype == NcclDatatype::Code(tensor.dtype.nccl_datatype) && op == NcclReduceOp::Sum
            && root == root_rank && comm == inner.comm_ptr && stream == inner.stream_ptr,
{
}

/// A send covers the whole tensor and goes to the peer asked for.
pub proof fn send_result(
    communicator: BaguaSingleCommunicator,
    tensor: BaguaTensor,
    peer_rank: i32,
    call: DeviceCall,
)
    requires
        call_ensures(
            BaguaCommunicatorInner::send,
            (&*communicator.inner, &tensor.raw, peer_rank),
            call,
        ) || call_ensures(
            BaguaSingleCommunicator::send,
            (&communicator, &tensor, peer_rank),
            call,
        ),
    ensures
        call matches DeviceCall::Send { buf, count, datatype, peer, comm, stream } && buf
            == tensor.raw.ptr && count == tensor.raw.num_elem_allocated && datatype
            == NcclDatatype::Code(tensor.raw.dtype.nccl_datatype) && peer == peer_rank && comm
            == communicator.inner.comm_ptr && stream == communicator.inner.stream_ptr,
{
}

/// A receive covers the whole tensor and comes from the peer asked for.
pub proof fn recv_result(
    communicator: BaguaSingleCommunicator,
    tensor: BaguaTensor,
    peer_rank: i32,
    call: DeviceCall,
)
    requires
        call_ensures(
            BaguaCommunicatorInner::recv,
            (&*communicator.inner, &tensor.raw, peer_rank),
            call,
        ) || call_ensures(
            BaguaSingleCommunicator::recv,
            (&communicator, &tensor, peer_rank),
            call,
        ),
    ensures
        call matches DeviceCall::Recv { buf, count, datatype, peer, comm, stream } && buf
            == tensor.raw.ptr && count == tensor.raw.num_elem_allocated && datatype
            == NcclDatatype::Code(tensor.raw.dtype.nccl_datatype) && peer == peer_rank && comm
            == communicator.inner.comm_ptr && stream == communicator.inner.stream_ptr,
{
}

/// The block that an all-gather sends is the share of its rank, `share`
/// elements of the tensor's own size, and is received from the start of the
/// receiving tensor. Operands of one size and type whose share starts at an
/// address are accepted.
pub proof fn allgather_result(
    inner: BaguaCommunicatorInner,
    send_tensor: BaguaTensorRaw,
    recv_tensor: BaguaTensorRaw,
    share: int,
    call: DeviceCall,
)
    requires
        inner.nranks > 0,
        inner.nranks * share == send_tensor.num_elem_allocated,
        recv_tensor.num_elem_allocated == send_tensor.num_elem_allocated,
        recv_tensor.dtype == send_tensor.dtype,
        inner.rank * share <= u64::MAX,
        send_tensor.ptr + inner.rank * share * send_tensor.dtype.element_bytes <= u64::MAX,
        call_ensures(BaguaCommunicatorInner::allgather, (&inner, &send_tensor, &recv_tensor), call),
    ensures
        call_requires(BaguaCommunicatorInner::allgather, (&inner, &send_tensor, &recv_tensor)),
        call matches DeviceCall::AllGather { send_buf, recv_buf, count, datatype, comm, stream }
            && send_buf == send_tensor.ptr + inner.rank * share * send_tensor.dtype.element_bytes
            && count == share && recv_buf == recv_tensor.ptr && datatype == NcclDatatype::Code(
            send_tensor.dtype.nccl_datatype,
        ) && comm == inner.comm_ptr && stream == inner.stream_ptr,
{
    gathering_is_decided_by_the_operands(inner, send_tensor, recv_tensor, share);
    division_is_even(inner, send_tensor, share);
    allgather_sends_the_share_of_its_rank(inner, send_tensor, recv_tensor);
}

/// An all-to-all moves `share` elements per rank from the start of one tensor
/// to the start of the other. Every tensor that equal shares make up is
/// accepted.
pub proof fn alltoall_result(
    communicator: BaguaSingleCommunicator,
    send_tensor: BaguaTensor,
    recv_tensor: BaguaTensor,
    share: int,
    call: DeviceCall,
)
    requires
        communicator.inner.nranks > 0,
        communicator.inner.nranks * share == send_tensor.raw.num_elem_allocated,
        call_ensures(
            BaguaCommunicatorInner::alltoall,
            (&*communicator.inner, &send_tensor.raw, &recv_tensor.raw),
            call,
        ) || call_ensures(
            BaguaSingleCommunicator::alltoall,
            (&communicator, &send_tensor, &recv_tensor),
            call,
        ),
    ensures
        call_requires(
            BaguaCommunicatorInner::alltoall,
            (&*communicator.inner, &send_tensor.raw, &recv_tensor.raw),
        ),
        call_requires(
            BaguaSingleCommunicator::alltoall,
            (&communicator, &send_tensor, &recv_tensor),
        ),
        call matches DeviceCall::AllToAll {
            send_buf,
            recv_buf,
            count,
            datatype,
            comm,
            nranks,
            rank,
            stream,
        } && send_buf == send_tensor.raw.ptr && recv_buf == recv_tensor.raw.ptr && count == share
            && datatype == NcclDatatype::Code(send_tensor.raw.dtype.nccl_datatype) && comm
            == communicator.inner.comm_ptr && (communicator.inner.nranks <= i32::MAX ==> nranks
            == communicator.inner.nranks) && (communicator.inner.rank <= i32::MAX ==> rank
            == communicator.inner.rank) && stream == communicator.inner.stream_ptr,
{
    division_is_even(*communicator.inner, send_tensor.raw, share);
    alltoall_moves_equal_shares(*communicator.inner, send_tensor.raw, recv_tensor.raw);
}

/// A barrier exchanges, in place and from rank zero, exactly the bytes that it
/// asks for on the rank's own device.
pub proof fn barrier_result(
    inner: BaguaCommunicatorInner,
    scratch: ScratchMemory,
    scratch_ptr: u64,
    call: DeviceCall,
)
    requires
        call_ensures(BaguaCommunicatorInner::barrier_scratch, (&inner,), scratch),
        call_ensures(BaguaCommunicatorInner::barrier, (&inner, scratch_ptr), call),
    ensures
        scratch.device_id == inner.device_id,
        scratch.bytes == 1,
        call matches DeviceCall::Broadcast {
            send_buf,
            recv_buf,
            count,
            datatype,
            root,
            comm,
            stream,
        } && send_buf == scratch_ptr && recv_buf == scratch_ptr && count == scratch.bytes
            && datatype == NcclDatatype::Uint8 && root == 0 && comm == inner.comm_ptr && stream
            == inner.stream_ptr,
{
}

/// An element type reports the code and the size that it has.
pub proof fn dtype_result(dtype: BaguaTensorDtype, code: i32, size: usize)
    requires
        call_ensures(BaguaTensorDtype::to_nccl_datatype, (&dtype,), code),
        call_ensures(BaguaTensorDtype::bytes, (&dtype,), size),
    ensures
        code == dtype.nccl_datatype,
        size == dtype.element_bytes,
{
}

/// The tests of operands tell exactly which ones the operations accept.
pub proof fn operand_tests_decide(
    inner: BaguaCommunicatorInner,
    send_tensor: BaguaTensorRaw,
    recv_tensor: BaguaTensorRaw,
    share: int,
    divided: bool,
    gatherable: bool,
)
    requires
        call_ensures(BaguaCommunicatorInner::is_divided, (&inner, &send_tensor), divided),
        call_ensures(
            BaguaCommunicatorInner::is_gatherable,
            (&inner, &send_tensor, &recv_tensor),
            gatherable,
        ),
    ensures
        divided ==> call_requires(
            BaguaCommunicatorInner::alltoall,
            (&inner, &send_tensor, &recv_tensor),
        ),
        gatherable ==> call_requires(
            BaguaCommunicatorInner::allgather,
            (&inner, &send_tensor, &recv_tensor),
        ),
        inner.nranks == 0 ==> !divided && !gatherable,
        inner.nranks > 0 && inner.nranks * share == send_tensor.num_elem_allocated ==> divided,
        divided ==> inner.nranks * (send_tensor.num_elem_allocated as int / inner.nranks as int)
            == send_tensor.num_elem_allocated,
        inner.nranks > 0 && inner.nranks * share == send_tensor.num_elem_allocated ==> (gatherable
            <==> recv_tensor.num_elem_allocated == send_tensor.num_elem_allocated
            && recv_tensor.dtype == send_tensor.dtype && inner.rank * share <= u64::MAX
            && send_tensor.ptr + inner.rank * share * send_tensor.dtype.element_bytes <= u64::MAX),
        gatherable ==> divided,
{
    division_is_even(inner, send_tensor, share);
    if inner.nranks > 0 && inner.nranks * share == send_tensor.num_elem_allocated {
        gathering_is_decided_by_the_operands(inner, send_tensor, recv_tensor, share);
    }
}

/// A communicator that is set up reports what it was set up with, and the
/// handle that NCCL gave.
pub proof fn setup_and_completion_agree(
    rank: usize,
    nranks: usize,
    device_id: usize,
    stream_ptr: u64,
    text: &str,
    comm_ptr: u64,
    setup: CommunicatorSetup,
    communicator: BaguaSingleCommunicator,
    reported: (usize, usize, usize),
)
    requires
        call_ensures(
            BaguaSingleCommunicator::new,
            (rank, nranks, device_id, stream_ptr, text),
            setup,
        ),
        call_ensures(CommunicatorSetup::complete, (setup, comm_ptr), communicator),
        call_ensures(BaguaSingleCommunicator::rank, (&communicator,), reported.0),
        call_ensures(BaguaSingleCommunicator::nranks, (&communicator,), reported.1),
        call_ensures(BaguaSingleCommunicator::device_id, (&communicator,), reported.2),
    ensures
        communicator.inner.rank == rank,
        communicator.inner.nranks == nranks,
        communicator.inner.device_id == device_id,
        communicator.inner.stream_ptr == stream_ptr,
        communicator.inner.comm_ptr == comm_ptr,
        reported == (rank, nranks, device_id),
{
}

/// The text of an identifier sets up a communicator with that identifier: the
/// device is selected, and `ncclCommInitRank` gets the number of ranks and the
/// rank that were given, and bytes that have the bits of NCCL's own.
pub proof fn generated_text_sets_up_the_identifier(
    chars: [i8; NCCL_UNIQUE_ID_BYTES],
    text: String,
    read: &str,
    rank: usize,
    nranks: usize,
    device_id: usize,
    stream_ptr: u64,
    setup: CommunicatorSetup,
    i: int,
)
    requires
        call_ensures(BaguaSingleCommunicator::generate_nccl_unique_id_str, (&chars,), text),
        read@ == text@,
        call_ensures(
            BaguaSingleCommunicator::new,
            (rank, nranks, device_id, stream_ptr, read),
            setup,
        ),
        0 <= i < 128,
    ensures
        text@.len() == 172,
        base64_decoded(text@) matches Ok(bytes) && bytes.len() == 128 && (bytes[i] - chars@[i])
            % 256 == 0,
        setup.outcome is Ok,
        call_requires(CommunicatorSetup::complete, (setup, stream_ptr)),
        setup.steps@.len() == 2,
        setup.steps@[0] matches SetupStep::Launch(call) && call matches DeviceCall::SetDevice {
            device,
        } && (device_id <= i32::MAX ==> device == device_id),
        setup.steps@[1] matches SetupStep::InitRank(init) && init.id@.len() == 128 && (
        init.id@[i] - chars@[i]) % 256 == 0 && (nranks <= i32::MAX ==> init.nranks == nranks) && (
        rank <= i32::MAX ==> init.rank == rank),
{
    let seen = setup.steps@.map_values(|step: SetupStep| step@);
    assert(seen.len() == setup.steps@.len());
    setup_hands_over_its_arguments(rank, nranks, device_id, id_bytes(chars@));
    bytes_keep_the_bits_of_chars(chars@, i);
    assert(seen[0] == setup.steps@[0]@);
    assert(seen[1] == setup.steps@[1]@);
}

/// Whatever the text, a setup selects the device first. If it fails, it does
/// nothing else, and it fails exactly if the text does not decode to at least
/// 128 bytes; if it does not fail, its identifier is the first 128, and all ranks that set up from one text initialise
/// with the same number of ranks and the same identifier, each as itself.
pub proof fn setups_from_one_text_meet(
    one: usize,
    other: usize,
    nranks: usize,
    device_id: usize,
    device_id2: usize,
    stream_ptr: u64,
    stream_ptr2: u64,
    text: &str,
    first: CommunicatorSetup,
    second: CommunicatorSetup,
)
    requires
        one < nranks <= i32::MAX,
        other < nranks,
        call_ensures(
            BaguaSingleCommunicator::new,
            (one, nranks, device_id, stream_ptr, text),
            first,
        ),
        call_ensures(
            BaguaSingleCommunicator::new,
            (other, nranks, device_id2, stream_ptr2, text),
            second,
        ),
    ensures
        first.outcome is Ok <==> second.outcome is Ok,
        first.steps@.len() >= 1,
        first.steps@[0] matches SetupStep::Launch(call) && call matches DeviceCall::SetDevice {
            device,
        } && (device_id <= i32::MAX ==> device == device_id),
        first.outcome is Err ==> first.steps@.len() == 1,
        first.outcome is Ok <==> (base64_decoded(text@) matches Ok(bytes) && bytes.len() >= 128),
        first.outcome is Ok ==> first.steps@[1]->InitRank_0.id@
            == base64_decoded(text@)->Ok_0.subrange(0, 128),
        base64_decoded(text@) matches Err(error) ==> (first.outcome matches Err(reported)
            && reported matches UniqueIdError::Encoding(reason) && reason == error),
        first.outcome is Ok ==> first.steps@.len() == 2 && second.steps@.len() == 2
            && first.steps@[1] is InitRank && second.steps@[1] is InitRank,
        first.outcome is Ok ==> {
            let mine = first.steps@[1]->InitRank_0;
            let theirs = second.steps@[1]->InitRank_0;
            &&& mine.nranks == nranks
            &&& theirs.nranks == nranks
            &&& mine.rank == one
            &&& theirs.rank == other
            &&& mine.id@ == theirs.id@
        },
{
    let seen = first.steps@.map_values(|step: SetupStep| step@);
    let seen2 = second.steps@.map_values(|step: SetupStep| step@);
    assert(seen.len() == first.steps@.len() && seen2.len() == second.steps@.len());
    assert(seen[0] == first.steps@[0]@);
    if first.outcome is Ok {
        assert(seen[1] == first.steps@[1]@ && seen2[1] == second.steps@[1]@);
    }
}

/// What is taken out of decoded bytes is their first 128, in order; fewer are
/// refused with their number, and an error is passed on.
pub proof fn taken_identifier_is_the_first_bytes(
    bytes: Vec<u8>,
    error: Base64Error,
    id: Result<Vec<u8>, UniqueIdError>,
    failed: Result<Vec<u8>, UniqueIdError>,
    i: int,
)
    requires
        bytes@.len() <= usize::MAX,
        call_ensures(take_unique_id, (Ok(bytes),), id),
        call_ensures(take_unique_id, (Err(error),), failed),
        0 <= i < 128,
    ensures
        bytes@.len() >= 128 ==> (id matches Ok(taken) && taken@.len() == 128 && taken@[i]
            == bytes@[i]),
        bytes@.len() < 128 ==> (id matches Err(reported) && reported matches UniqueIdError::TooShort(
            len,
        ) && len == bytes@.len()),
        failed matches Err(reported) && reported matches UniqueIdError::Encoding(reason) && reason
            == error,
{
}

/// A guard's calls start and end a group.
pub proof fn guard_results(opened: (NCCLGroupGuard, DeviceCall), closing: DeviceCall)
    requires
        call_ensures(NCCLGroupGuard::new, (), opened),
        call_ensures(NCCLGroupGuard::end, (opened.0,), closing),
    ensures
        opened.1 == DeviceCall::GroupStart,
        closing == DeviceCall::GroupEnd,
{
}

/// A flat communicator is the internode one that was given, whatever the
/// intranode one, and works on its stream.
pub proof fn flat_result(
    internode: BaguaSingleCommunicator,
    intranode: Option<&BaguaSingleCommunicator>,
    made: Result<BaguaCommunicator, BaguaCoreError>,
    stream: u64,
)
    requires
        call_ensures(BaguaCommunicator::new, (Some(&internode), intranode, false), made),
        made is Ok ==> call_ensures(BaguaCommunicator::stream_ptr, (&made->Ok_0,), stream),
    ensures
        call_requires(BaguaCommunicator::new, (Some(&internode), intranode, false)),
        made matches Ok(communicator) && communicator matches BaguaCommunicator::SingleCommunicator(
            single,
        ) && single == internode,
        stream == internode.inner.stream_ptr,
{
}

/// A rank other than zero of its node becomes a worker over the intranode
/// communicator that was given, whatever the internode one, and works on its
/// stream.
pub proof fn worker_result(
    internode: Option<&BaguaSingleCommunicator>,
    intranode: BaguaSingleCommunicator,
    made: Result<BaguaCommunicator, BaguaCoreError>,
    stream: u64,
)
    requires
        intranode.inner.rank != 0,
        call_ensures(BaguaCommunicator::new, (internode, Some(&intranode), true), made),
        made is Ok ==> call_ensures(BaguaCommunicator::stream_ptr, (&made->Ok_0,), stream),
    ensures
        call_requires(BaguaCommunicator::new, (internode, Some(&intranode), true)),
        made matches Ok(communicator)
            && communicator matches BaguaCommunicator::HierarchicalCommunicator(part)
            && part matches BaguaHierarchicalCommunicator::Worker(worker) && worker.intranode
            == intranode,
        stream == intranode.inner.stream_ptr,
{
}

/// Rank zero of a node becomes its leader over the two communicators that were
/// given, each in its place, if they use one stream, which is the one it works
/// on; if they do not, it is refused with a message.
pub proof fn leader_result(
    internode: BaguaSingleCommunicator,
    intranode: BaguaSingleCommunicator,
    made: Result<BaguaCommunicator, BaguaCoreError>,
    stream: u64,
)
    requires
        intranode.inner.rank == 0,
        intranode.inner.stream_ptr == internode.inner.stream_ptr ==> intranode.inner.device_id
            == internode.inner.device_id,
        call_ensures(BaguaCommunicator::new, (Some(&internode), Some(&intranode), true), made),
        made is Ok ==> call_ensures(BaguaCommunicator::stream_ptr, (&made->Ok_0,), stream),
    ensures
        call_requires(BaguaCommunicator::new, (Some(&internode), Some(&intranode), true)),
        made is Ok <==> intranode.inner.stream_ptr == internode.inner.stream_ptr,
        made matches Ok(communicator)
            ==> communicator matches BaguaCommunicator::HierarchicalCommunicator(part)
            && part matches BaguaHierarchicalCommunicator::Leader(leader) && leader.internode
            == internode && leader.intranode == intranode && stream == internode.inner.stream_ptr
            && stream == intranode.inner.stream_ptr,
        made matches Err(error) ==> error matches BaguaCoreError::CommunicatorError(message)
            && message@
            == "intra node communicator should use the same stream as the inter node communicator"@,
{
}

/// The test of what a rank was given tells exactly whether a communicator can
/// be put together from it.
pub proof fn sufficiency_test_decides(
    internode: Option<&BaguaSingleCommunicator>,
    intranode: Option<&BaguaSingleCommunicator>,
    hierarchical: bool,
    sufficient: bool,
)
    requires
        call_ensures(
            BaguaCommunicator::is_sufficient,
            (internode, intranode, hierarchical),
            sufficient,
        ),
    ensures
        sufficient ==> call_requires(BaguaCommunicator::new, (internode, intranode, hierarchical)),
        !hierarchical ==> (sufficient <==> internode is Some),
        hierarchical && intranode is None ==> !sufficient,
        hierarchical && intranode is Some && intranode->Some_0.inner.rank != 0 ==> sufficient,
        hierarchical && intranode is Some && intranode->Some_0.inner.rank == 0 ==> (sufficient
            <==> internode is Some && (intranode->Some_0.inner.stream_ptr
            == internode->Some_0.inner.stream_ptr ==> intranode->Some_0.inner.device_id
            == internode->Some_0.inner.device_id)),
{
}

/// A leader is made of the two communicators given, each in its place, and two
/// are accepted exactly if they use one stream and one device.
pub proof fn leader_is_made_of_its_two(
    internode: BaguaSingleCommunicator,
    intranode: BaguaSingleCommunicator,
    pair: bool,
    leader: BaguaHierarchicalCommunicatorLeader,
)
    requires
        call_ensures(
            BaguaHierarchicalCommunicatorLeader::is_pair,
            (&internode, &intranode),
            pair,
        ),
        call_ensures(BaguaHierarchicalCommunicatorLeader::new, (internode, intranode), leader),
    ensures
        pair <==> internode.inner.stream_ptr == intranode.inner.stream_ptr
            && internode.inner.device_id == intranode.inner.device_id,
        pair ==> call_requires(
            BaguaHierarchicalCommunicatorLeader::new,
            (internode, intranode),
        ),
        leader.internode == internode,
        leader.intranode == intranode,
{
}

/// Before the leaders communicate, a leader reduces its tensor onto rank zero
/// of its node and, if it is to average, divides the same tensor by the number
/// of ranks on its node. It takes every tensor on its node's stream.
pub proof fn leader_pre_result(
    leader: BaguaHierarchicalCommunicatorLeader,
    tensor: BaguaCommunicationTensor,
    average: bool,
    accepted: bool,
    calls: Vec<DeviceCall>,
)
    requires
        call_ensures(
            BaguaHierarchicalCommunicatorLeader::is_accepted,
            (&leader, &tensor),
            accepted,
        ),
        call_ensures(
            BaguaHierarchicalCommunicatorLeader::hierarchical_pre,
            (&leader, &tensor, average),
            calls,
        ),
    ensures
        accepted <==> tensor.stream_ptr == leader.intranode.inner.stream_ptr,
        accepted ==> call_requires(
            BaguaHierarchicalCommunicatorLeader::hierarchical_pre,
            (&leader, &tensor, average),
        ),
        accepted ==> call_requires(
            BaguaHierarchicalCommunicatorLeader::hierarchical_post,
            (&leader, &tensor),
        ),
        calls@.len() == if average {
            2int
        } else {
            1int
        },
        calls@[0] matches DeviceCall::Reduce {
            send_buf,
            recv_buf,
            count,
            datatype,
            op,
            root,
            comm,
            stream,
        } && send_buf == tensor.raw.ptr && recv_buf == tensor.raw.ptr && count
            == tensor.raw.num_elem_allocated && datatype == NcclDatatype::Code(
            tensor.raw.dtype.nccl_datatype,
        ) && op == NcclReduceOp::Sum && root == 0 && comm == leader.intranode.inner.comm_ptr
            && stream == leader.intranode.inner.stream_ptr,
        average ==> (calls@[1] matches DeviceCall::DivideInplace { tensor: divided, stream, divisor }
            && divided == tensor.raw && stream == leader.intranode.inner.stream_ptr && divisor
            == leader.intranode.inner.nranks),
{
}

/// A worker reduces its tensor onto rank zero of its node. Afterwards leader
/// and worker broadcast theirs from rank zero.
pub proof fn node_exchange_results(
    leader: BaguaHierarchicalCommunicatorLeader,
    worker: BaguaHierarchicalCommunicatorWorker,
    tensor: BaguaCommunicationTensor,
    reducing: DeviceCall,
    leading: DeviceCall,
    following: DeviceCall,
)
    requires
        call_ensures(
            BaguaHierarchicalCommunicatorWorker::hierarchical_worker_pre,
            (&worker, &tensor),
            reducing,
        ),
        call_ensures(
            BaguaHierarchicalCommunicatorLeader::hierarchical_post,
            (&leader, &tensor),
            leading,
        ),
        call_ensures(
            BaguaHierarchicalCommunicatorWorker::hierarchical_worker_post,
            (&worker, &tensor),
            following,
        ),
    ensures
        reducing matches DeviceCall::Reduce {
            send_buf,
            recv_buf,
            count,
            datatype,
            op,
            root,
            comm,
            stream,
        } && send_buf == tensor.raw.ptr && recv_buf == tensor.raw.ptr && count
            == tensor.raw.num_elem_allocated && datatype == NcclDatatype::Code(
            tensor.raw.dtype.nccl_datatype,
        ) && op == NcclReduceOp::Sum && root == 0 && comm == worker.intranode.inner.comm_ptr
            && stream == worker.intranode.inner.stream_ptr,
        leading matches DeviceCall::Broadcast {
            send_buf,
            recv_buf,
            count,
            datatype,
            root,
            comm,
            stream,
        } && send_buf == tensor.raw.ptr && recv_buf == tensor.raw.ptr && count
            == tensor.raw.num_elem_allocated && datatype == NcclDatatype::Code(
            tensor.raw.dtype.nccl_datatype,
        ) && root == 0 && comm == leader.intranode.inner.comm_ptr && stream
            == leader.intranode.inner.stream_ptr,
        following matches DeviceCall::Broadcast {
            send_buf,
            recv_buf,
            count,
            datatype,
            root,
            comm,
            stream,
        } && send_buf == tensor.raw.ptr && recv_buf == tensor.raw.ptr && count
            == tensor.raw.num_elem_allocated && datatype == NcclDatatype::Code(
            tensor.raw.dtype.nccl_datatype,
        ) && root == 0 && comm == worker.intranode.inner.comm_ptr && stream
            == worker.intranode.inner.stream_ptr,
        call_requires(
            BaguaHierarchicalCommunicatorWorker::hierarchical_worker_pre,
            (&worker, &tensor),
        ),
        call_requires(
            BaguaHierarchicalCommunicatorWorker::hierarchical_worker_post,
            (&worker, &tensor),
        ),
{
}

/// The three steps of a communication: the stages that `execute_communication`
/// goes through from the first, with the tensor as it is at each.
pub open spec fn steps_of(
    communicator: BaguaCommunicator,
    tensor: BaguaCommunicationTensor,
    hooked: BaguaCommunicationTensor,
    flags: (bool, bool, bool),
    first: (CommunicationAction, CommunicationStage),
    second: (CommunicationAction, CommunicationStage),
    third: (CommunicationAction, CommunicationStage),
) -> bool {
    &&& call_ensures(
        BaguaCommunicator::execute_communication,
        (&communicator, &tensor, flags.0, flags.1, flags.2, CommunicationStage::Pre),
        first,
    )
    &&& call_ensures(
        BaguaCommunicator::execute_communication,
        (&communicator, &tensor, flags.0, flags.1, flags.2, first.1),
        second,
    )
    &&& call_ensures(
        BaguaCommunicator::execute_communication,
        (&communicator, &hooked, flags.0, flags.1, flags.2, second.1),
        third,
    )
}

/// A flat communicator's three steps: nothing, the training program with the
/// communicator itself, nothing.
pub proof fn flat_steps(
    single: BaguaSingleCommunicator,
    tensor: BaguaCommunicationTensor,
    hooked: BaguaCommunicationTensor,
    flags: (bool, bool, bool),
    first: (CommunicationAction, CommunicationStage),
    second: (CommunicationAction, CommunicationStage),
    third: (CommunicationAction, CommunicationStage),
)
    requires
        steps_of(
            BaguaCommunicator::SingleCommunicator(single),
            tensor,
            hooked,
            flags,
            first,
            second,
            third,
        ),
    ensures
        first.0 is Nothing,
        second.0 matches CommunicationAction::Hook(inner) && *inner == *single.inner,
        third.0 is Nothing,
        third.1 == CommunicationStage::Done,
{
}

/// A leader's three steps: with the first exchange switched on, what
/// `hierarchical_pre` gives for the tensor; the training program with the
/// internode communicator; with the last exchange switched on, what
/// `hierarchical_post` gives for the tensor as the training program left it.
pub proof fn leader_steps(
    leader: BaguaHierarchicalCommunicatorLeader,
    tensor: BaguaCommunicationTensor,
    hooked: BaguaCommunicationTensor,
    flags: (bool, bool, bool),
    first: (CommunicationAction, CommunicationStage),
    second: (CommunicationAction, CommunicationStage),
    third: (CommunicationAction, CommunicationStage),
    pre: Vec<DeviceCall>,
    post: DeviceCall,
)
    requires
        steps_of(
            BaguaCommunicator::HierarchicalCommunicator(
                BaguaHierarchicalCommunicator::Leader(leader),
            ),
            tensor,
            hooked,
            flags,
            first,
            second,
            third,
        ),
        call_ensures(
            BaguaHierarchicalCommunicatorLeader::hierarchical_pre,
            (&leader, &tensor, flags.0),
            pre,
        ),
        call_ensures(
            BaguaHierarchicalCommunicatorLeader::hierarchical_post,
            (&leader, &hooked),
            post,
        ),
    ensures
        flags.1 ==> (first.0 matches CommunicationAction::Launch(calls) && calls@ == pre@),
        !flags.1 ==> first.0 is Nothing,
        second.0 matches CommunicationAction::Hook(inner) && *inner == *leader.internode.inner,
        flags.2 ==> (third.0 matches CommunicationAction::Launch(calls) && calls@ == seq![post]),
        !flags.2 ==> third.0 is Nothing,
        third.1 == CommunicationStage::Done,
{
}

/// A worker's three steps: with the first exchange switched on, what
/// `hierarchical_worker_pre` gives; nothing; with the last exchange switched
/// on, what `hierarchical_worker_post` gives.
pub proof fn worker_steps(
    worker: BaguaHierarchicalCommunicatorWorker,
    tensor: BaguaCommunicationTensor,
    hooked: BaguaCommunicationTensor,
    flags: (bool, bool, bool),
    first: (CommunicationAction, CommunicationStage),
    second: (CommunicationAction, CommunicationStage),
    third: (CommunicationAction, CommunicationStage),
    pre: DeviceCall,
    post: DeviceCall,
)
    requires
        steps_of(
            BaguaCommunicator::HierarchicalCommunicator(
                BaguaHierarchicalCommunicator::Worker(worker),
            ),
            tensor,
            hooked,
            flags,
            first,
            second,
            third,
        ),
        call_ensures(
            BaguaHierarchicalCommunicatorWorker::hierarchical_worker_pre,
            (&worker, &tensor),
            pre,
        ),
        call_ensures(
            BaguaHierarchicalCommunicatorWorker::hierarchical_worker_post,
            (&worker, &hooked),
            post,
        ),
    ensures
        flags.1 ==> (first.0 matches CommunicationAction::Launch(calls) && calls@ == seq![pre]),
        !flags.1 ==> first.0 is Nothing,
        second.0 is Nothing,
        flags.2 ==> (third.0 matches CommunicationAction::Launch(calls) && calls@ == seq![post]),
        !flags.2 ==> third.0 is Nothing,
        third.1 == CommunicationStage::Done,
{
}

/// The test of a tensor tells exactly where it can be communicated: everywhere
/// but where a leader would exchange it within its node from another stream.
pub proof fn admission_test_decides(
    communicator: BaguaCommunicator,
    tensor: BaguaCommunicationTensor,
    average: bool,
    pre: bool,
    post: bool,
    stage: CommunicationStage,
    admitted: bool,
)
    requires
        call_ensures(
            BaguaCommunicator::is_admitted,
            (&communicator, &tensor, pre, post, stage),
            admitted,
        ),
    ensures
        admitted ==> call_requires(
            BaguaCommunicator::execute_communication,
            (&communicator, &tensor, average, pre, post, stage),
        ),
        !admitted <==> (communicator matches BaguaCommunicator::HierarchicalCommunicator(part)
            && part matches BaguaHierarchicalCommunicator::Leader(leader) && tensor.stream_ptr
            != leader.intranode.inner.stream_ptr && (stage == CommunicationStage::Pre && pre
            || stage == CommunicationStage::Post && post)),
{
}

/// A clone is the same communicator.
pub proof fn clones_are_equal(
    single: BaguaSingleCommunicator,
    cloned_single: BaguaSingleCommunicator,
    communicator: BaguaCommunicator,
    cloned_communicator: BaguaCommunicator,
)
    requires
        call_ensures(BaguaSingleCommunicator::clone, (&single,), cloned_single),
        call_ensures(BaguaCommunicator::clone, (&communicator,), cloned_communicator),
    ensures
        cloned_single == single,
        cloned_communicator == communicator,
{
}

} // verus!
