//! The operations that a communicator asks the host program to launch.
use crate::datatypes::BaguaTensorRaw;
use vstd::prelude::*;

verus! {

/// An element type as an NCCL function takes it.
#[derive(Clone, Copy, Debug, PartialEq, Eq, Structural)]
pub enum NcclDatatype {
    /// The constant `ncclUint8`.
    Uint8,
    /// The type code of a tensor's elements.
    Code(i32),
}

/// A reduction as an NCCL function takes it.
#[derive(Clone, Copy, Debug, PartialEq, Eq, Structural)]
pub enum NcclReduceOp {
    /// The constant `ncclSum`.
    Sum,
}

/// One call of a device function, with its arguments.
///
/// Buffers, communicators and streams are device addresses and opaque
/// handles. Counts are in elements.
#[derive(Clone, Copy, Debug, PartialEq, Eq, Structural)]
pub enum DeviceCall {
    /// `cudaSetDevice`.
    SetDevice { device: i32 },
    /// `ncclGroupStart`.
    GroupStart,
    /// `ncclGroupEnd`.
    GroupEnd,
    /// `ncclBroadcast`.
    Broadcast {
        send_buf: u64,
        recv_buf: u64,
        count: usize,
        datatype: NcclDatatype,
        root: i32,
        comm: u64,
        stream: u64,
    },
    /// `ncclReduce`.
    Reduce {
        send_buf: u64,
        recv_buf: u64,
        count: usize,
        datatype: NcclDatatype,
        op: NcclReduceOp,
        root: i32,
        comm: u64,
        stream: u64,
    },
    /// `ncclAllReduce`.
    AllReduce {
        send_buf: u64,
        recv_buf: u64,
        count: usize,
        datatype: NcclDatatype,
        op: NcclReduceOp,
        comm: u64,
        stream: u64,
    },
    /// `ncclAllGather`; `count` elements are sent by each rank.
    AllGather {
        send_buf: u64,
        recv_buf: u64,
        count: usize,
        datatype: NcclDatatype,
        comm: u64,
        stream: u64,
    },
    /// `ncclAllToAll`; `count` elements go from each rank to each rank.
    AllToAll {
        send_buf: u64,
        recv_buf: u64,
        count: usize,
        datatype: NcclDatatype,
        comm: u64,
        nranks: i32,
        rank: i32,
        stream: u64,
    },
    /// `ncclSend`.
    Send { buf: u64, count: usize, datatype: NcclDatatype, peer: i32, comm: u64, stream: u64 },
    /// `ncclRecv`.
    Recv { buf: u64, count: usize, datatype: NcclDatatype, peer: i32, comm: u64, stream: u64 },
    /// Divides every element of `tensor` by `divisor`, in place.
    DivideInplace { tensor: BaguaTensorRaw, stream: u64, divisor: usize },
}

impl DeviceCall {
    /// The stream that the call is queued on, if it is queued on one.
    pub open spec fn stream(self) -> Option<u64> {
        match self {
            DeviceCall::SetDevice { .. } | DeviceCall::GroupStart | DeviceCall::GroupEnd => None,
            DeviceCall::Broadcast { stream, .. } => Some(stream),
            DeviceCall::Reduce { stream, .. } => Some(stream),
            DeviceCall::AllReduce { stream, .. } => Some(stream),
            DeviceCall::AllGather { stream, .. } => Some(stream),
            DeviceCall::AllToAll { stream, .. } => Some(stream),
            DeviceCall::Send { stream, .. } => Some(stream),
            DeviceCall::Recv { stream, .. } => Some(stream),
            DeviceCall::DivideInplace { stream, .. } => Some(stream),
        }
    }
}

/// A size as a C `int` parameter receives it: the low bits, as a signed
/// number. A size that an `int` can hold is unchanged.
pub open spec fn c_int(size: usize) -> i32 {
    size as i32
}

/// Narrows a size to a C `int`.
pub(crate) fn to_c_int(size: usize) -> (narrowed: i32)
    ensures
        narrowed == c_int(size),
        size <= i32::MAX ==> narrowed == size,
{
    #[verifier::truncate]
    (size as i32)
}

} // verus!
