//! One NCCL communicator as seen from one rank, and its collectives.
use crate::calls::{c_int, to_c_int, DeviceCall, NcclDatatype, NcclReduceOp};
use crate::datatypes::BaguaTensorRaw;
use vstd::prelude::*;

verus! {

/// An NCCL communicator handle together with this process's place in it.
#[derive(Clone, Copy, Debug, PartialEq, Eq, Structural)]
pub struct BaguaCommunicatorInner {
    /// The CUDA stream that the communicator's operations are queued on.
    pub stream_ptr: u64,
    /// The `ncclComm_t` handle.
    pub comm_ptr: u64,
    /// The rank of this process.
    pub rank: usize,
    /// How many ranks take part.
    pub nranks: usize,
    /// The CUDA device that this rank works on.
    pub device_id: usize,
}

/// Device memory that an operation needs besides its tensors.
#[derive(Clone, Copy, Debug, PartialEq, Eq, Structural)]
pub struct ScratchMemory {
    /// The device on which the memory has to be.
    pub device_id: usize,
    /// How many bytes there have to be.
    pub bytes: usize,
}

impl BaguaCommunicatorInner {
    /// The tensor divides evenly among the ranks.
    pub open spec fn divides(self, tensor: BaguaTensorRaw) -> bool {
        self.nranks != 0 && tensor.num_elem_allocated as int % self.nranks as int == 0
    }

    /// How many elements of the tensor one rank accounts for.
    pub open spec fn chunk_len(self, tensor: BaguaTensorRaw) -> int {
        tensor.num_elem_allocated as int / self.nranks as int
    }

    /// The address at which the chunk of `rank` starts.
    pub open spec fn chunk_start(self, tensor: BaguaTensorRaw, rank: int) -> int {
        tensor.ptr + rank * self.chunk_len(tensor) * tensor.dtype.element_bytes
    }

    /// The operands of an all-gather fit together: equal sizes and element
    /// types, an even division, and a chunk address that the address space
    /// holds.
    pub open spec fn gathers(self, send_tensor: BaguaTensorRaw, recv_tensor: BaguaTensorRaw) -> bool {
        &&& send_tensor.num_elem_allocated == recv_tensor.num_elem_allocated
        &&& send_tensor.dtype == recv_tensor.dtype
        &&& self.divides(send_tensor)
        &&& self.rank * self.chunk_len(send_tensor) <= u64::MAX
        &&& self.chunk_start(send_tensor, self.rank as int) <= u64::MAX
    }

    /// The broadcast of a whole tensor from `root_rank`, in place.
    pub open spec fn broadcast_call(self, tensor: BaguaTensorRaw, root_rank: i32) -> DeviceCall {
        DeviceCall::Broadcast {
            send_buf: tensor.ptr,
            recv_buf: tensor.ptr,
            count: tensor.num_elem_allocated,
            datatype: NcclDatatype::Code(tensor.dtype.nccl_datatype),
            root: root_rank,
            comm: self.comm_ptr,
            stream: self.stream_ptr,
        }
    }

    /// The sum of a whole tensor onto `root_rank`, in place.
    pub open spec fn reduce_call(self, tensor: BaguaTensorRaw, root_rank: i32) -> DeviceCall {
        DeviceCall::Reduce {
            send_buf: tensor.ptr,
            recv_buf: tensor.ptr,
            count: tensor.num_elem_allocated,
            datatype: NcclDatatype::Code(tensor.dtype.nccl_datatype),
            op: NcclReduceOp::Sum,
            root: root_rank,
            comm: self.comm_ptr,
            stream: self.stream_ptr,
        }
    }

    /// The sum of a whole tensor onto every rank, in place.
    pub open spec fn allreduce_call(self, tensor: BaguaTensorRaw) -> DeviceCall {
        DeviceCall::AllReduce {
            send_buf: tensor.ptr,
            recv_buf: tensor.ptr,
            count: tensor.num_elem_allocated,
            datatype: NcclDatatype::Code(tensor.dtype.nccl_datatype),
            op: NcclReduceOp::Sum,
            comm: self.comm_ptr,
            stream: self.stream_ptr,
        }
    }

    /// The exchange in which every rank sends its n-th chunk to rank n.
    pub open spec fn alltoall_call(
        self,
        send_tensor: BaguaTensorRaw,
        recv_tensor: BaguaTensorRaw,
    ) -> DeviceCall {
        DeviceCall::AllToAll {
            send_buf: send_tensor.ptr,
            recv_buf: recv_tensor.ptr,
            count: self.chunk_len(send_tensor) as usize,
            datatype: NcclDatatype::Code(send_tensor.dtype.nccl_datatype),
            comm: self.comm_ptr,
            nranks: c_int(self.nranks),
            rank: c_int(self.rank),
            stream: self.stream_ptr,
        }
    }

    /// The exchange in which every rank sends its own chunk to all ranks.
    pub open spec fn allgather_call(
        self,
        send_tensor: BaguaTensorRaw,
        recv_tensor: BaguaTensorRaw,
    ) -> DeviceCall {
        DeviceCall::AllGather {
            send_buf: self.chunk_start(send_tensor, self.rank as int) as u64,
            recv_buf: recv_tensor.ptr,
            count: self.chunk_len(send_tensor) as usize,
            datatype: NcclDatatype::Code(send_tensor.dtype.nccl_datatype),
            comm: self.comm_ptr,
            stream: self.stream_ptr,
        }
    }

    /// The transfer of a whole tensor to `peer_rank`.
    pub open spec fn send_call(self, send_tensor: BaguaTensorRaw, peer_rank: i32) -> DeviceCall {
        DeviceCall::Send {
            buf: send_tensor.ptr,
            count: send_tensor.num_elem_allocated,
            datatype: NcclDatatype::Code(send_tensor.dtype.nccl_datatype),
            peer: peer_rank,
            comm: self.comm_ptr,
            stream: self.stream_ptr,
        }
    }

    /// The transfer of a whole tensor from `peer_rank`.
    pub open spec fn recv_call(self, recv_tensor: BaguaTensorRaw, peer_rank: i32) -> DeviceCall {
        DeviceCall::Recv {
            buf: recv_tensor.ptr,
            count: recv_tensor.num_elem_allocated,
            datatype: NcclDatatype::Code(recv_tensor.dtype.nccl_datatype),
            peer: peer_rank,
            comm: self.comm_ptr,
            stream: self.stream_ptr,
        }
    }

    /// The one-byte broadcast from rank zero that no rank passes before all
    /// have reached it.
    pub open spec fn barrier_call(self, scratch_ptr: u64) -> DeviceCall {
        DeviceCall::Broadcast {
            send_buf: scratch_ptr,
            recv_buf: scratch_ptr,
            count: 1,
            datatype: NcclDatatype::Uint8,
            root: 0,
            comm: self.comm_ptr,
            stream: self.stream_ptr,
        }
    }

    /// Tests whether a tensor can be exchanged chunk by chunk.
    pub fn is_divided(&self, tensor: &BaguaTensorRaw) -> (divided: bool)
        ensures
            divided == self.divides(*tensor),
    {
        self.nranks != 0 && tensor.num_elem_allocated % self.nranks == 0
    }

    /// Tests whether two tensors can be the operands of an all-gather.
    pub fn is_gatherable(&self, send_tensor: &BaguaTensorRaw, recv_tensor: &BaguaTensorRaw) -> (
    gatherable: bool)
        ensures
            gatherable == self.gathers(*send_tensor, *recv_tensor),
    {
        if send_tensor.num_elem_allocated != recv_tensor.num_elem_allocated || send_tensor.dtype
            != recv_tensor.dtype || !self.is_divided(send_tensor) {
            return false;
        }
        let send_chunk_size: usize = send_tensor.num_elem_allocated / self.nranks;
        match (self.rank as u64).checked_mul(send_chunk_size as u64) {
            None => false,
            Some(elements) => match elements.checked_mul(send_tensor.dtype.bytes() as u64) {
                None => false,
                Some(offset) => send_tensor.ptr.checked_add(offset).is_some(),
            },
        }
    }

    /// Gathers the chunks of all ranks of `send_tensor` into `recv_tensor`.
    pub fn allgather(&self, send_tensor: &BaguaTensorRaw, recv_tensor: &BaguaTensorRaw) -> (call:
        DeviceCall)
        requires
            self.gathers(*send_tensor, *recv_tensor),
        ensures
            call == self.allgather_call(*send_tensor, *recv_tensor),
    {
        let send_chunk_size: usize = send_tensor.num_elem_allocated / self.nranks;
        let bytes: usize = send_tensor.dtype.bytes();
        let rank: u64 = self.rank as u64;
        assert(rank * send_chunk_size * bytes >= 0) by (nonlinear_arith);
        let send_buf_ptr: u64 = send_tensor.ptr + rank * send_chunk_size as u64 * bytes as u64;
        DeviceCall::AllGather {
            send_buf: send_buf_ptr,
            recv_buf: recv_tensor.ptr,
            count: send_chunk_size,
            datatype: NcclDatatype::Code(send_tensor.dtype.to_nccl_datatype()),
            comm: self.comm_ptr,
            stream: self.stream_ptr,
        }
    }

    /// Sends the n-th chunk of `send_tensor` to rank n, for every rank, and
    /// receives one chunk from each into `recv_tensor`.
    pub fn alltoall(&self, send_tensor: &BaguaTensorRaw, recv_tensor: &BaguaTensorRaw) -> (call:
        DeviceCall)
        requires
            self.divides(*send_tensor),
        ensures
            call == self.alltoall_call(*send_tensor, *recv_tensor),
    {
        let send_chunk_size: usize = send_tensor.num_elem_allocated / self.nranks;
        DeviceCall::AllToAll {
            send_buf: send_tensor.ptr,
            recv_buf: recv_tensor.ptr,
            count: send_chunk_size,
            datatype: NcclDatatype::Code(send_tensor.dtype.to_nccl_datatype()),
            comm: self.comm_ptr,
            nranks: to_c_int(self.nranks),
            rank: to_c_int(self.rank),
            stream: self.stream_ptr,
        }
    }

    /// Sends the whole tensor of `root_rank` to all ranks.
    pub fn broadcast(&self, tensor: &BaguaTensorRaw, root_rank: i32) -> (call: DeviceCall)
        ensures
            call == self.broadcast_call(*tensor, root_rank),
    {
        DeviceCall::Broadcast {
            send_buf: tensor.ptr,
            recv_buf: tensor.ptr,
            count: tensor.num_elem_allocated,
            datatype: NcclDatatype::Code(tensor.dtype.to_nccl_datatype()),
            root: root_rank,
            comm: self.comm_ptr,
            stream: self.stream_ptr,
        }
    }

    /// Sums the tensors of all ranks into the one of `root_rank`.
    pub fn reduce(&self, tensor: &BaguaTensorRaw, root_rank: i32) -> (call: DeviceCall)
        ensures
            call == self.reduce_call(*tensor, root_rank),
    {
        DeviceCall::Reduce {
            send_buf: tensor.ptr,
            recv_buf: tensor.ptr,
            count: tensor.num_elem_allocated,
            datatype: NcclDatatype::Code(tensor.dtype.to_nccl_datatype()),
            op: NcclReduceOp::Sum,
            root: root_rank,
            comm: self.comm_ptr,
            stream: self.stream_ptr,
        }
    }

    /// Sums the tensors of all ranks into the one of every rank.
    pub fn allreduce(&self, tensor: &BaguaTensorRaw) -> (call: DeviceCall)
        ensures
            call == self.allreduce_call(*tensor),
    {
        DeviceCall::AllReduce {
            send_buf: tensor.ptr,
            recv_buf: tensor.ptr,
            count: tensor.num_elem_allocated,
            datatype: NcclDatatype::Code(tensor.dtype.to_nccl_datatype()),
            op: NcclReduceOp::Sum,
            comm: self.comm_ptr,
            stream: self.stream_ptr,
        }
    }

    /// Sends the whole tensor to `peer_rank`.
    pub fn send(&self, send_tensor: &BaguaTensorRaw, peer_rank: i32) -> (call: DeviceCall)
        ensures
            call == self.send_call(*send_tensor, peer_rank),
    {
        DeviceCall::Send {
            buf: send_tensor.ptr,
            count: send_tensor.num_elem_allocated,
            datatype: NcclDatatype::Code(send_tensor.dtype.to_nccl_datatype()),
            peer: peer_rank,
            comm: self.comm_ptr,
            stream: self.stream_ptr,
        }
    }

    /// Receives the whole tensor from `peer_rank`.
    pub fn recv(&self, recv_tensor: &BaguaTensorRaw, peer_rank: i32) -> (call: DeviceCall)
        ensures
            call == self.recv_call(*recv_tensor, peer_rank),
    {
        DeviceCall::Recv {
            buf: recv_tensor.ptr,
            count: recv_tensor.num_elem_allocated,
            datatype: NcclDatatype::Code(recv_tensor.dtype.to_nccl_datatype()),
            peer: peer_rank,
            comm: self.comm_ptr,
            stream: self.stream_ptr,
        }
    }

    /// The memory that the host has to provide for a barrier: one byte on the
    /// device of this rank.
    pub fn barrier_scratch(&self) -> (scratch: ScratchMemory)
        ensures
            scratch == (ScratchMemory { device_id: self.device_id, bytes: 1 }),
    {
        ScratchMemory { device_id: self.device_id, bytes: 1 }
    }

    /// Waits on the stream until every rank has come this far. The ranks
    /// exchange what is at `scratch_ptr`, the address of the memory that
    /// [`BaguaCommunicatorInner::barrier_scratch`] asks for.
    pub fn barrier(&self, scratch_ptr: u64) -> (call: DeviceCall)
        ensures
            call == self.barrier_call(scratch_ptr),
    {
        DeviceCall::Broadcast {
            send_buf: scratch_ptr,
            recv_buf: scratch_ptr,
            count: 1,
            datatype: NcclDatatype::Uint8,
            root: 0,
            comm: self.comm_ptr,
            stream: self.stream_ptr,
        }
    }
}

} // verus!
