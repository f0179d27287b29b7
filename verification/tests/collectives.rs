use bagua_communicators::calls::{DeviceCall, NcclDatatype, NcclReduceOp};
use bagua_communicators::datatypes::{BaguaTensor, BaguaTensorDtype, BaguaTensorRaw};
use bagua_communicators::inner::{BaguaCommunicatorInner, ScratchMemory};
use bagua_communicators::single::BaguaSingleCommunicator;
use std::sync::Arc;

const FLOAT32: BaguaTensorDtype = BaguaTensorDtype {
    nccl_datatype: 7,
    element_bytes: 4,
};

fn inner(rank: usize, nranks: usize) -> BaguaCommunicatorInner {
    BaguaCommunicatorInner {
        stream_ptr: 0x51,
        comm_ptr: 0xc0,
        rank,
        nranks,
        device_id: 3,
    }
}

fn raw(ptr: u64, num_elem_allocated: usize) -> BaguaTensorRaw {
    BaguaTensorRaw {
        ptr,
        num_elem_allocated,
        dtype: FLOAT32,
    }
}

fn single(rank: usize, nranks: usize) -> BaguaSingleCommunicator {
    BaguaSingleCommunicator {
        inner: Arc::new(inner(rank, nranks)),
    }
}

#[test]
fn dtype_reports_its_code_and_size() {
    assert_eq!(FLOAT32.to_nccl_datatype(), 7);
    assert_eq!(FLOAT32.bytes(), 4);
}

#[test]
fn broadcast_is_in_place_over_the_whole_tensor() {
    assert_eq!(
        inner(1, 4).broadcast(&raw(4096, 10), 2),
        DeviceCall::Broadcast {
            send_buf: 4096,
            recv_buf: 4096,
            count: 10,
            datatype: NcclDatatype::Code(7),
            root: 2,
            comm: 0xc0,
            stream: 0x51,
        }
    );
}

#[test]
fn reduce_sums_onto_the_root() {
    assert_eq!(
        inner(1, 4).reduce(&raw(4096, 10), -1),
        DeviceCall::Reduce {
            send_buf: 4096,
            recv_buf: 4096,
            count: 10,
            datatype: NcclDatatype::Code(7),
            op: NcclReduceOp::Sum,
            root: -1,
            comm: 0xc0,
            stream: 0x51,
        }
    );
}

#[test]
fn allreduce_sums_in_place() {
    assert_eq!(
        inner(0, 1).allreduce(&raw(8, 0)),
        DeviceCall::AllReduce {
            send_buf: 8,
            recv_buf: 8,
            count: 0,
            datatype: NcclDatatype::Code(7),
            op: NcclReduceOp::Sum,
            comm: 0xc0,
            stream: 0x51,
        }
    );
}

#[test]
fn send_and_recv_move_the_whole_tensor() {
    assert_eq!(
        inner(0, 2).send(&raw(64, 5), 1),
        DeviceCall::Send {
            buf: 64,
            count: 5,
            datatype: NcclDatatype::Code(7),
            peer: 1,
            comm: 0xc0,
            stream: 0x51,
        }
    );
    assert_eq!(
        inner(1, 2).recv(&raw(128, 5), 0),
        DeviceCall::Recv {
            buf: 128,
            count: 5,
            datatype: NcclDatatype::Code(7),
            peer: 0,
            comm: 0xc0,
            stream: 0x51,
        }
    );
}

#[test]
fn alltoall_sends_one_chunk_to_each_rank() {
    assert_eq!(
        inner(2, 4).alltoall(&raw(1000, 16), &raw(5000, 3)),
        DeviceCall::AllToAll {
            send_buf: 1000,
            recv_buf: 5000,
            count: 4,
            datatype: NcclDatatype::Code(7),
            comm: 0xc0,
            nranks: 4,
            rank: 2,
            stream: 0x51,
        }
    );
}

#[test]
fn alltoall_narrows_large_ranks_to_their_low_bits() {
    let nranks: usize = (1 << 32) + 2;
    let call = inner(1 << 31, nranks).alltoall(&raw(0, 0), &raw(0, 0));
    match call {
        DeviceCall::AllToAll { nranks, rank, .. } => {
            assert_eq!(nranks, 2);
            assert_eq!(rank, i32::MIN);
        }
        _ => unreachable!(),
    }
}

#[test]
fn allgather_sends_the_chunk_of_this_rank() {
    assert_eq!(
        inner(2, 4).allgather(&raw(1000, 16), &raw(5000, 16)),
        DeviceCall::AllGather {
            send_buf: 1000 + 2 * 4 * 4,
            recv_buf: 5000,
            count: 4,
            datatype: NcclDatatype::Code(7),
            comm: 0xc0,
            stream: 0x51,
        }
    );
}

#[test]
fn allgather_chunks_tile_the_tensor() {
    let mut expected: u64 = 1000;
    for rank in 0..6 {
        match inner(rank, 6).allgather(&raw(1000, 18), &raw(0, 18)) {
            DeviceCall::AllGather {
                send_buf, count, ..
            } => {
                assert_eq!(send_buf, expected);
                expected += count as u64 * 4;
            }
            _ => unreachable!(),
        }
    }
    assert_eq!(expected, 1000 + 18 * 4);
}

#[test]
fn allgather_reaches_the_last_address() {
    let call = inner(1, 2).allgather(&raw(u64::MAX - 8, 4), &raw(0, 4));
    match call {
        DeviceCall::AllGather { send_buf, .. } => assert_eq!(send_buf, u64::MAX),
        _ => unreachable!(),
    }
}

#[test]
fn barrier_needs_one_byte_on_its_device() {
    assert_eq!(
        inner(3, 4).barrier_scratch(),
        ScratchMemory {
            device_id: 3,
            bytes: 1,
        }
    );
}

#[test]
fn barrier_exchanges_one_byte_from_rank_zero() {
    assert_eq!(
        inner(3, 4).barrier(0xbeef),
        DeviceCall::Broadcast {
            send_buf: 0xbeef,
            recv_buf: 0xbeef,
            count: 1,
            datatype: NcclDatatype::Uint8,
            root: 0,
            comm: 0xc0,
            stream: 0x51,
        }
    );
}

#[test]
fn single_communicator_reports_its_place() {
    let communicator = single(1, 8);
    assert_eq!(communicator.rank(), 1);
    assert_eq!(communicator.nranks(), 8);
    assert_eq!(communicator.device_id(), 3);
}

#[test]
fn single_communicator_makes_the_calls_of_its_inner() {
    let communicator = single(1, 2);
    let own = inner(1, 2);
    let tensor = BaguaTensor { raw: raw(4096, 6) };
    let other = BaguaTensor { raw: raw(8192, 6) };
    assert_eq!(communicator.allreduce(&tensor), own.allreduce(&tensor.raw));
    assert_eq!(
        communicator.broadcast(&tensor, 1),
        own.broadcast(&tensor.raw, 1)
    );
    assert_eq!(communicator.send(&tensor, 0), own.send(&tensor.raw, 0));
    assert_eq!(communicator.recv(&tensor, 0), own.recv(&tensor.raw, 0));
    assert_eq!(
        communicator.alltoall(&tensor, &other),
        own.alltoall(&tensor.raw, &other.raw)
    );
}

#[test]
fn clones_share_the_communicator() {
    let communicator = single(1, 2);
    let clone = communicator.clone();
    assert!(Arc::ptr_eq(&communicator.inner, &clone.inner));
}

#[test]
fn division_among_ranks_is_tested() {
    assert!(inner(0, 4).is_divided(&raw(0, 16)));
    assert!(inner(0, 4).is_divided(&raw(0, 0)));
    assert!(!inner(0, 4).is_divided(&raw(0, 15)));
    assert!(!inner(0, 0).is_divided(&raw(0, 0)));
}

#[test]
fn operands_of_allgather_are_tested() {
    let gatherer = inner(1, 2);
    assert!(gatherer.is_gatherable(&raw(1000, 16), &raw(5000, 16)));
    assert!(!gatherer.is_gatherable(&raw(1000, 16), &raw(5000, 18)));
    assert!(!gatherer.is_gatherable(&raw(1000, 15), &raw(5000, 15)));
    let mut halves = raw(5000, 16);
    halves.dtype.element_bytes = 2;
    assert!(!gatherer.is_gatherable(&raw(1000, 16), &halves));
    assert!(gatherer.is_gatherable(&raw(u64::MAX - 8, 4), &raw(0, 4)));
    assert!(!gatherer.is_gatherable(&raw(u64::MAX - 7, 4), &raw(0, 4)));
    assert!(!inner(usize::MAX, 2).is_gatherable(&raw(0, 4), &raw(0, 4)));
}

#[test]
fn alltoall_chunks_make_up_the_tensor() {
    let send = raw(1000, 24);
    match inner(5, 6).alltoall(&send, &raw(5000, 24)) {
        DeviceCall::AllToAll { count, nranks, .. } => {
            assert_eq!(count, 4);
            assert_eq!(count * nranks as usize * 4, 24 * 4);
        }
        _ => unreachable!(),
    }
}
