//! A communicator over one flat group of ranks.
use crate::calls::{c_int, to_c_int, DeviceCall};
use crate::datatypes::BaguaTensor;
use crate::inner::BaguaCommunicatorInner;
use crate::unique_id::{
    base64_decoded, base64_encoded, base64_symbol, decode_unique_id, encode_unique_id, id_bytes,
    leading_id, UniqueIdError, NCCL_UNIQUE_ID_BYTES,
};
use std::sync::Arc;
use vstd::prelude::*;

verus! {

/// A shared NCCL communicator.
#[derive(Debug)]
pub struct BaguaSingleCommunicator {
    /// The communicator; clones share it.
    pub inner: Arc<BaguaCommunicatorInner>,
}

/// The arguments of `ncclCommInitRank`.
#[derive(Debug)]
pub struct CommInitRank {
    /// How many ranks will meet.
    pub nranks: i32,
    /// The bytes of the `ncclUniqueId` that they share.
    pub id: Vec<u8>,
    /// The rank of this process.
    pub rank: i32,
}

/// One thing that the host does to set up a communicator.
#[derive(Debug)]
pub enum SetupStep {
    /// Launch this call.
    Launch(DeviceCall),
    /// Call `ncclCommInitRank` with these arguments.
    InitRank(CommInitRank),
}

/// A [`SetupStep`] by its contents.
pub enum SetupStepView {
    /// Launch this call.
    Launch(DeviceCall),
    /// Call `ncclCommInitRank` with these arguments.
    InitRank { nranks: i32, id: Seq<u8>, rank: i32 },
}

impl View for SetupStep {
    type V = SetupStepView;

    open spec fn view(&self) -> SetupStepView {
        match self {
            SetupStep::Launch(call) => SetupStepView::Launch(*call),
            SetupStep::InitRank(init) => SetupStepView::InitRank {
                nranks: init.nranks,
                id: init.id@,
                rank: init.rank,
            },
        }
    }
}

/// A communicator that NCCL has not initialised yet.
///
/// The host takes all of `steps`, in order, and fails if `outcome` is an
/// error. It hands the handle that `ncclCommInitRank` gave it to
/// [`CommunicatorSetup::complete`].
#[derive(Debug)]
pub struct CommunicatorSetup {
    /// The rank of this process.
    pub rank: usize,
    /// How many ranks will meet.
    pub nranks: usize,
    /// The CUDA device that this rank works on.
    pub device_id: usize,
    /// The CUDA stream for the communicator's operations.
    pub stream_ptr: u64,
    /// What the host does, in order.
    pub steps: Vec<SetupStep>,
    /// Whether the steps end in a communicator, or why not.
    pub outcome: Result<(), UniqueIdError>,
}

/// What is done to set up a communicator, in order: its device is selected,
/// and NCCL initialises it with the identifier. Where the identifier cannot be
/// read, the device is selected all the same.
pub open spec fn setup_steps(
    rank: usize,
    nranks: usize,
    device_id: usize,
    id: Result<Seq<u8>, UniqueIdError>,
) -> Seq<SetupStepView> {
    let select = SetupStepView::Launch(DeviceCall::SetDevice { device: c_int(device_id) });
    match id {
        Ok(id) => seq![
            select,
            SetupStepView::InitRank { nranks: c_int(nranks), id, rank: c_int(rank) },
        ],
        Err(_) => seq![select],
    }
}

/// Clones the pointer with `Arc::clone`: the clone points to the same value.
#[verifier::external_body]
pub(crate) fn share(inner: &Arc<BaguaCommunicatorInner>) -> (shared: Arc<BaguaCommunicatorInner>)
    ensures
        shared == *inner,
{
    inner.clone()
}

impl Clone for BaguaSingleCommunicator {
    /// A second owner of the same communicator.
    fn clone(&self) -> (communicator: Self)
        ensures
            communicator == *self,
    {
        BaguaSingleCommunicator { inner: share(&self.inner) }
    }
}

impl CommunicatorSetup {
    /// The communicator, with the handle that `ncclCommInitRank` returned.
    pub fn complete(self, comm_ptr: u64) -> (communicator: BaguaSingleCommunicator)
        requires
            self.outcome is Ok,
        ensures
            *communicator.inner == (BaguaCommunicatorInner {
                stream_ptr: self.stream_ptr,
                comm_ptr,
                rank: self.rank,
                nranks: self.nranks,
                device_id: self.device_id,
            }),
    {
        BaguaSingleCommunicator {
            inner: Arc::new(
                BaguaCommunicatorInner {
                    stream_ptr: self.stream_ptr,
                    comm_ptr,
                    rank: self.rank,
                    nranks: self.nranks,
                    device_id: self.device_id,
                },
            ),
        }
    }
}

impl BaguaSingleCommunicator {
    /// Starts to set up a communicator of `nranks` ranks whose identifier is
    /// written in `nccl_unique_id_str`.
    pub fn new(
        rank: usize,
        nranks: usize,
        device_id: usize,
        stream_ptr: u64,
        nccl_unique_id_str: &str,
    ) -> (setup: CommunicatorSetup)
        ensures
            setup.rank == rank,
            setup.nranks == nranks,
            setup.device_id == device_id,
            setup.stream_ptr == stream_ptr,
            setup.steps@.map_values(|step: SetupStep| step@) == setup_steps(
                rank,
                nranks,
                device_id,
                leading_id(base64_decoded(nccl_unique_id_str@)),
            ),
            match leading_id(base64_decoded(nccl_unique_id_str@)) {
                Ok(_) => setup.outcome is Ok,
                Err(error) => setup.outcome matches Err(reported) && reported == error,
            },
    {
        let mut steps: Vec<SetupStep> = Vec::new();
        steps.push(SetupStep::Launch(DeviceCall::SetDevice { device: to_c_int(device_id) }));
        let outcome: Result<(), UniqueIdError> = match decode_unique_id(nccl_unique_id_str) {
            Ok(id) => {
                steps.push(
                    SetupStep::InitRank(
                        CommInitRank { nranks: to_c_int(nranks), id, rank: to_c_int(rank) },
                    ),
                );
                Ok(())
            },
            Err(error) => Err(error),
        };
        CommunicatorSetup { rank, nranks, device_id, stream_ptr, steps, outcome }
    }

    /// How many ranks take part.
    pub fn nranks(&self) -> (nranks: usize)
        ensures
            nranks == self.inner.nranks,
    {
        self.inner.nranks
    }

    /// The rank of this process.
    pub fn rank(&self) -> (rank: usize)
        ensures
            rank == self.inner.rank,
    {
        self.inner.rank
    }

    /// The CUDA device that this rank works on.
    pub fn device_id(&self) -> (device_id: usize)
        ensures
            device_id == self.inner.device_id,
    {
        self.inner.device_id
    }

    /// Sums the tensors of all ranks into the one of every rank.
    pub fn allreduce(&self, tensor: &BaguaTensor) -> (call: DeviceCall)
        ensures
            call == self.inner.allreduce_call(tensor.raw),
    {
        self.inner.allreduce(&tensor.raw)
    }

    /// Sends the whole tensor of `root_rank` to all ranks.
    pub fn broadcast(&self, tensor: &BaguaTensor, root_rank: i32) -> (call: DeviceCall)
        ensures
            call == self.inner.broadcast_call(tensor.raw, root_rank),
    {
        self.inner.broadcast(&tensor.raw, root_rank)
    }

    /// Sends the whole tensor to `peer_rank`.
    pub fn send(&self, tensor: &BaguaTensor, peer_rank: i32) -> (call: DeviceCall)
        ensures
            call == self.inner.send_call(tensor.raw, peer_rank),
    {
        self.inner.send(&tensor.raw, peer_rank)
    }

    /// Receives the whole tensor from `peer_rank`.
    pub fn recv(&self, tensor: &BaguaTensor, peer_rank: i32) -> (call: DeviceCall)
        ensures
            call == self.inner.recv_call(tensor.raw, peer_rank),
    {
        self.inner.recv(&tensor.raw, peer_rank)
    }

    /// Sends the n-th chunk of `send_tensor` to rank n, for every rank, and
    /// receives one chunk from each into `recv_tensor`.
    pub fn alltoall(&self, send_tensor: &BaguaTensor, recv_tensor: &BaguaTensor) -> (call:
        DeviceCall)
        requires
            self.inner.divides(send_tensor.raw),
        ensures
            call == self.inner.alltoall_call(send_tensor.raw, recv_tensor.raw),
    {
        self.inner.alltoall(&send_tensor.raw, &recv_tensor.raw)
    }

    /// The text of an identifier that `ncclGetUniqueId` filled in: its base64,
    /// 171 symbols and one `=`. The text decodes to exactly the identifier's
    /// bytes, and a communicator that is set up from it gets them.
    pub fn generate_nccl_unique_id_str(unique_id: &[i8; NCCL_UNIQUE_ID_BYTES]) -> (id_str: String)
        ensures
            id_str@ == base64_encoded(id_bytes(unique_id@)),
            id_str@.len() == 172,
            forall|i: int| 0 <= i < 171 ==> base64_symbol(#[trigger] id_str@[i]),
            id_str@[171] == '=',
            base64_decoded(id_str@) is Ok,
            base64_decoded(id_str@)->Ok_0 == id_bytes(unique_id@),
            leading_id(base64_decoded(id_str@)) is Ok,
            leading_id(base64_decoded(id_str@))->Ok_0 == id_bytes(unique_id@),
    {
        encode_unique_id(unique_id)
    }
}

} // verus!
