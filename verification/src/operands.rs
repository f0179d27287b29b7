//! What the arguments of calls, and the parts of communicators, are made of.
use crate::calls::{c_int, DeviceCall, NcclDatatype};
use crate::communicator::{
    assembled, suffices, ActionView, BaguaCommunicator, CommunicationAction, CommunicationStage,
};
use crate::datatypes::{BaguaCommunicationTensor, BaguaTensorRaw};
use crate::hierarchical::{
    BaguaHierarchicalCommunicator, BaguaHierarchicalCommunicatorLeader,
    BaguaHierarchicalCommunicatorWorker,
};
use crate::inner::BaguaCommunicatorInner;
use crate::single::{
    setup_steps, BaguaSingleCommunicator, SetupStep, SetupStepView,
};
use crate::unique_id::{
    char_bits, content, id_bytes, leading_id, Base64Error, UniqueIdError,
};
use vstd::prelude::*;

verus! {

/// A tensor divides among the ranks exactly if it is some number of elements
/// for each of them.
pub proof fn division_is_even(inner: BaguaCommunicatorInner, tensor: BaguaTensorRaw, share: int)
    ensures
        inner.divides(tensor) ==> inner.nranks > 0 && inner.nranks * (
        tensor.num_elem_allocated as int / inner.nranks as int) == tensor.num_elem_allocated,
        inner.nranks > 0 && inner.nranks * share == tensor.num_elem_allocated ==> inner.divides(
            tensor,
        ) && inner.chunk_len(tensor) == share,
{
    let n = inner.nranks as int;
    let num = tensor.num_elem_allocated as int;
    if inner.nranks > 0 {
        vstd::arithmetic::div_mod::lemma_fundamental_div_mod(num, n);
        if n * share == num {
            vstd::arithmetic::div_mod::lemma_div_multiples_vanish(share, n);
            vstd::arithmetic::div_mod::lemma_mod_multiples_basic(share, n);
            assert(share * n == n * share) by (nonlinear_arith);
        }
    }
}

/// An all-gather sends the share of this rank, in the tensor's own element
/// size and type, and all shares make up the tensor.
pub proof fn allgather_sends_the_share_of_its_rank(
    inner: BaguaCommunicatorInner,
    send_tensor: BaguaTensorRaw,
    recv_tensor: BaguaTensorRaw,
)
    requires
        inner.gathers(send_tensor, recv_tensor),
    ensures
        inner.allgather_call(send_tensor, recv_tensor) matches DeviceCall::AllGather {
            send_buf,
            recv_buf,
            count,
            datatype,
            comm,
            stream,
        } && send_buf == send_tensor.ptr + inner.rank * count * send_tensor.dtype.element_bytes
            && inner.nranks * count == send_tensor.num_elem_allocated && recv_buf == recv_tensor.ptr
            && datatype == NcclDatatype::Code(send_tensor.dtype.nccl_datatype) && comm
            == inner.comm_ptr && stream == inner.stream_ptr,
        inner.rank < inner.nranks ==> (inner.allgather_call(
            send_tensor,
            recv_tensor,
        ) matches DeviceCall::AllGather { send_buf, count, .. } && send_tensor.ptr <= send_buf
            && send_buf + count * send_tensor.dtype.element_bytes <= send_tensor.ptr
            + send_tensor.num_elem_allocated * send_tensor.dtype.element_bytes),
{
    let n = inner.nranks as int;
    let num = send_tensor.num_elem_allocated as int;
    let rank = inner.rank as int;
    let bytes = send_tensor.dtype.element_bytes as int;
    let c = num / n;
    vstd::arithmetic::div_mod::lemma_fundamental_div_mod(num, n);
    assert(0 <= c <= num) by (nonlinear_arith)
        requires
            num == n * c,
            0 < n,
            0 <= num,
    ;
    assert(0 <= rank * c * bytes) by (nonlinear_arith)
        requires
            0 <= rank,
            0 <= c,
            0 <= bytes,
    ;
    if rank < n {
        assert(rank * c * bytes + c * bytes <= num * bytes) by (nonlinear_arith)
            requires
                num == n * c,
                rank + 1 <= n,
                0 <= c,
                0 <= bytes,
        ;
    }
}

/// The blocks that two neighbouring ranks hand to an all-gather adjoin: where
/// the block of one ends, relative to its tensor, the block of the next starts.
pub proof fn neighbours_send_adjoining_blocks(
    one: BaguaCommunicatorInner,
    next: BaguaCommunicatorInner,
    send_tensor: BaguaTensorRaw,
    recv_tensor: BaguaTensorRaw,
)
    requires
        one.gathers(send_tensor, recv_tensor),
        next.gathers(send_tensor, recv_tensor),
        next.nranks == one.nranks,
        next.rank == one.rank + 1,
    ensures
        one.allgather_call(send_tensor, recv_tensor)->AllGather_send_buf + one.allgather_call(
            send_tensor,
            recv_tensor,
        )->AllGather_count * send_tensor.dtype.element_bytes == next.allgather_call(
            send_tensor,
            recv_tensor,
        )->AllGather_send_buf,
{
    allgather_sends_the_share_of_its_rank(one, send_tensor, recv_tensor);
    allgather_sends_the_share_of_its_rank(next, send_tensor, recv_tensor);
    let c = one.chunk_len(send_tensor);
    let bytes = send_tensor.dtype.element_bytes as int;
    assert(one.rank * c * bytes + c * bytes == next.rank * c * bytes) by (nonlinear_arith)
        requires
            next.rank == one.rank + 1,
    ;
}

/// Exactly those operands are accepted by an all-gather that are equal in size
/// and type, that some share for every rank makes up, and of which the share
/// of this rank starts at an address.
pub proof fn gathering_is_decided_by_the_operands(
    inner: BaguaCommunicatorInner,
    send_tensor: BaguaTensorRaw,
    recv_tensor: BaguaTensorRaw,
    share: int,
)
    requires
        inner.nranks > 0,
        inner.nranks * share == send_tensor.num_elem_allocated,
    ensures
        inner.gathers(send_tensor, recv_tensor) <==> {
            &&& recv_tensor.num_elem_allocated == send_tensor.num_elem_allocated
            &&& recv_tensor.dtype == send_tensor.dtype
            &&& inner.rank * share <= u64::MAX
            &&& send_tensor.ptr + inner.rank * share * send_tensor.dtype.element_bytes <= u64::MAX
        },
{
    division_is_even(inner, send_tensor, share);
}

/// An all-to-all starts both buffers where the tensors do, moves an equal
/// share of the sent tensor per rank, in its own type, and tells NCCL this
/// rank's place, on the communicator's handle and stream.
pub proof fn alltoall_moves_equal_shares(
    inner: BaguaCommunicatorInner,
    send_tensor: BaguaTensorRaw,
    recv_tensor: BaguaTensorRaw,
)
    requires
        inner.divides(send_tensor),
    ensures
        inner.alltoall_call(send_tensor, recv_tensor) matches DeviceCall::AllToAll {
            send_buf,
            recv_buf,
            count,
            datatype,
            comm,
            nranks,
            rank,
            stream,
        } && send_buf == send_tensor.ptr && recv_buf == recv_tensor.ptr && inner.nranks * count
            == send_tensor.num_elem_allocated && datatype == NcclDatatype::Code(
            send_tensor.dtype.nccl_datatype,
        ) && comm == inner.comm_ptr && (inner.nranks <= i32::MAX ==> nranks == inner.nranks) && (
        inner.rank <= i32::MAX ==> rank == inner.rank) && stream == inner.stream_ptr,
{
    let n = inner.nranks as int;
    let num = send_tensor.num_elem_allocated as int;
    let c = num / n;
    vstd::arithmetic::div_mod::lemma_fundamental_div_mod(num, n);
    assert(0 <= c <= num) by (nonlinear_arith)
        requires
            num == n * c,
            0 < n,
            0 <= num,
    ;
}

/// A size that a C `int` holds reaches it unchanged, and any other one loses a
/// multiple of two to the power of thirty-two.
pub proof fn narrowing_keeps_the_low_bits(size: usize)
    ensures
        size <= i32::MAX ==> c_int(size) == size,
        (size - c_int(size)) % 0x1_0000_0000 == 0,
{
    let wide = size as u64;
    assert((wide - (wide as i32)) % 0x1_0000_0000 == 0) by (bit_vector);
    assert(wide as i32 == size as i32);
}

/// The byte that a C `char` is written as differs from it by a multiple of two
/// to the power of eight.
pub proof fn bytes_keep_the_bits_of_chars(chars: Seq<i8>, i: int)
    requires
        0 <= i < chars.len(),
    ensures
        id_bytes(chars).len() == chars.len(),
        (id_bytes(chars)[i] - chars[i]) % 256 == 0,
{
    assert(id_bytes(chars)[i] == char_bits(chars[i]));
}

/// A decoded text of at least 128 bytes holds an identifier, its first 128
/// bytes in order; a shorter one is reported with its length, and a text that
/// could not be decoded with the reason.
pub proof fn identifiers_are_the_first_bytes(bytes: Seq<u8>, i: int, error: Base64Error)
    requires
        bytes.len() <= usize::MAX,
    ensures
        leading_id(Ok::<Seq<u8>, Base64Error>(bytes)) is Ok <==> bytes.len() >= 128,
        leading_id(Ok::<Seq<u8>, Base64Error>(bytes)) matches Ok(id) ==> id.len() == 128 && (0 <= i
            < 128 ==> id[i] == bytes[i]),
        leading_id(Ok::<Seq<u8>, Base64Error>(bytes)) matches Err(reported) ==> reported matches
            UniqueIdError::TooShort(len) && len == bytes.len(),
        leading_id(Err::<Seq<u8>, Base64Error>(error)) matches Err(reported) && reported matches
            UniqueIdError::Encoding(reason) && reason == error,
{
}

/// The contents of a result are those of the vector in it, or its error.
pub proof fn contents_are_kept(bytes: Vec<u8>, error: Base64Error)
    ensures
        content(Ok::<Vec<u8>, Base64Error>(bytes)) matches Ok(held) && held == bytes@,
        content(Err::<Vec<u8>, Base64Error>(error)) matches Err(reported) && reported == error,
{
}

/// A setup whose identifier can be read selects the device that was given
/// and then initialises with the number of ranks, the identifier and the rank
/// that were given, each as it is where a C `int` holds it.
pub proof fn setup_hands_over_its_arguments(
    rank: usize,
    nranks: usize,
    device_id: usize,
    given: Seq<u8>,
)
    ensures
        ({
            let steps = setup_steps(rank, nranks, device_id, Ok(given));
            &&& steps.len() == 2
            &&& steps[0] matches SetupStepView::Launch(call)
            &&& call matches DeviceCall::SetDevice { device }
            &&& device_id <= i32::MAX ==> device == device_id
            &&& (device_id - device) % 0x1_0000_0000 == 0
        }),
        setup_steps(rank, nranks, device_id, Ok(given))[1] matches SetupStepView::InitRank {
            nranks: ranks,
            id,
            rank: own,
        } && id == given && (nranks <= i32::MAX ==> ranks == nranks) && (rank <= i32::MAX ==> own
            == rank) && (nranks - ranks) % 0x1_0000_0000 == 0 && (rank - own) % 0x1_0000_0000 == 0,
{
    narrowing_keeps_the_low_bits(rank);
    narrowing_keeps_the_low_bits(nranks);
    narrowing_keeps_the_low_bits(device_id);
}

/// A setup whose identifier cannot be read selects the device that was given
/// and does nothing else.
pub proof fn failed_setup_only_selects_the_device(
    rank: usize,
    nranks: usize,
    device_id: usize,
    error: UniqueIdError,
)
    ensures
        setup_steps(rank, nranks, device_id, Err(error)).len() == 1,
        setup_steps(rank, nranks, device_id, Err(error))[0] matches SetupStepView::Launch(call)
            && call matches DeviceCall::SetDevice { device } && (device_id <= i32::MAX ==> device
            == device_id) && (device_id - device) % 0x1_0000_0000 == 0,
{
    narrowing_keeps_the_low_bits(device_id);
}

/// A setup step is seen as what it is.
pub proof fn steps_are_seen_whole(step: SetupStep)
    ensures
        step matches SetupStep::Launch(call) ==> step@ == SetupStepView::Launch(call),
        step matches SetupStep::InitRank(init) ==> step@ matches SetupStepView::InitRank {
            nranks,
            id,
            rank,
        } && nranks == init.nranks && id == init.id@ && rank == init.rank,
{
}

/// An action is seen as what it is.
pub proof fn actions_are_seen_whole(action: CommunicationAction)
    ensures
        action matches CommunicationAction::Launch(calls) ==> action@ == ActionView::Launch(calls@),
        action matches CommunicationAction::Hook(inner) ==> action@ == ActionView::Hook(*inner),
        action is Nothing ==> action@ == ActionView::Nothing,
{
}

/// Flat or leading, what the training program gets to communicate through is
/// the internode communicator that was given; a worker's gets nothing.
pub proof fn training_program_gets_the_internode_communicator(
    internode: BaguaSingleCommunicator,
    intranode: Option<&BaguaSingleCommunicator>,
    hierarchical: bool,
    tensor: BaguaCommunicationTensor,
    intranode_average: bool,
    hierarchical_pre: bool,
    hierarchical_post: bool,
)
    requires
        suffices(Some(&internode), intranode, hierarchical),
    ensures
        assembled(Some(&internode), intranode, hierarchical) matches Some(made) ==> made.action(
            tensor,
            intranode_average,
            hierarchical_pre,
            hierarchical_post,
            CommunicationStage::Hook,
        ) == if hierarchical && intranode->Some_0.inner.rank != 0 {
            ActionView::Nothing
        } else {
            ActionView::Hook(*internode.inner)
        },
{
}

/// A communicator works on the stream of each communicator in it.
pub proof fn stream_is_that_of_the_parts(
    single: BaguaSingleCommunicator,
    leader: BaguaHierarchicalCommunicatorLeader,
    worker: BaguaHierarchicalCommunicatorWorker,
)
    ensures
        BaguaCommunicator::SingleCommunicator(single).stream() == single.inner.stream_ptr,
        BaguaCommunicator::HierarchicalCommunicator(
            BaguaHierarchicalCommunicator::Leader(leader),
        ).stream() == leader.internode.inner.stream_ptr,
        BaguaCommunicator::HierarchicalCommunicator(
            BaguaHierarchicalCommunicator::Worker(worker),
        ).stream() == worker.intranode.inner.stream_ptr,
{
}

/// Two communicators can be a leader's exactly if they use one stream and one
/// device, and a leader is well formed exactly if its own two can.
pub proof fn leaders_share_stream_and_device(leader: BaguaHierarchicalCommunicatorLeader)
    ensures
        BaguaHierarchicalCommunicatorLeader::pairs(leader.internode, leader.intranode) <==> (
        leader.internode.inner.stream_ptr == leader.intranode.inner.stream_ptr
            && leader.internode.inner.device_id == leader.intranode.inner.device_id),
        leader.wf() <==> BaguaHierarchicalCommunicatorLeader::pairs(
            leader.internode,
            leader.intranode,
        ),
        BaguaCommunicator::HierarchicalCommunicator(
            BaguaHierarchicalCommunicator::Leader(leader),
        ).wf() <==> leader.wf(),
{
}

/// Every communication goes through the three stages once, in order, and
/// nothing is done once it is over.
pub proof fn stages_come_in_order(
    communicator: BaguaCommunicator,
    tensor: BaguaCommunicationTensor,
    intranode_average: bool,
    hierarchical_pre: bool,
    hierarchical_post: bool,
)
    ensures
        CommunicationStage::Pre.successor() == CommunicationStage::Hook,
        CommunicationStage::Hook.successor() == CommunicationStage::Post,
        CommunicationStage::Post.successor() == CommunicationStage::Done,
        CommunicationStage::Done.successor() == CommunicationStage::Done,
        communicator.action(
            tensor,
            intranode_average,
            hierarchical_pre,
            hierarchical_post,
            CommunicationStage::Done,
        ) == ActionView::Nothing,
{
}

/// Averaging changes nothing where all ranks of a node agree: the sum of as
/// many equal values as the node has ranks, divided by the divisor, is the
/// value.
pub proof fn average_of_equals_is_their_value(
    leader: BaguaHierarchicalCommunicatorLeader,
    raw: BaguaTensorRaw,
    value: int,
)
    requires
        leader.intranode.inner.nranks > 0,
    ensures
        leader.intranode.inner.nranks * value / (leader.pre_calls(
            raw,
            true,
        )[1]->DivideInplace_divisor as int) == value,
{
    vstd::arithmetic::div_mod::lemma_div_multiples_vanish(
        value,
        leader.intranode.inner.nranks as int,
    );
}

} // verus!
