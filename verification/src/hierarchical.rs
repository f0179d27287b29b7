//! The two parts that the ranks of a node play in hierarchical communication.
//!
//! On every node the ranks sum their tensors onto one of them, the leader; the
//! leaders of all nodes communicate with one another; each leader sends the
//! outcome back to the ranks of its node.
use crate::calls::DeviceCall;
use crate::datatypes::{BaguaCommunicationTensor, BaguaTensorRaw};
use crate::inner::BaguaCommunicatorInner;
use crate::single::BaguaSingleCommunicator;
use vstd::prelude::*;

verus! {

/// The rank that leads its node.
#[derive(Debug)]
pub struct BaguaHierarchicalCommunicatorLeader {
    /// Connects the leaders of all nodes.
    pub internode: BaguaSingleCommunicator,
    /// Connects the ranks of this node.
    pub intranode: BaguaSingleCommunicator,
}

/// A rank that follows the leader of its node.
#[derive(Debug)]
pub struct BaguaHierarchicalCommunicatorWorker {
    /// Connects the ranks of this node.
    pub intranode: BaguaSingleCommunicator,
}

/// Either part.
#[derive(Debug)]
pub enum BaguaHierarchicalCommunicator {
    /// Leads its node.
    Leader(BaguaHierarchicalCommunicatorLeader),
    /// Follows the leader of its node.
    Worker(BaguaHierarchicalCommunicatorWorker),
}

impl Clone for BaguaHierarchicalCommunicatorLeader {
    /// A second owner of the same communicators.
    fn clone(&self) -> (communicator: Self)
        ensures
            communicator == *self,
    {
        BaguaHierarchicalCommunicatorLeader {
            internode: self.internode.clone(),
            intranode: self.intranode.clone(),
        }
    }
}

impl Clone for BaguaHierarchicalCommunicatorWorker {
    /// A second owner of the same communicator.
    fn clone(&self) -> (communicator: Self)
        ensures
            communicator == *self,
    {
        BaguaHierarchicalCommunicatorWorker { intranode: self.intranode.clone() }
    }
}

impl Clone for BaguaHierarchicalCommunicator {
    /// A second owner of the same communicators.
    fn clone(&self) -> (communicator: Self)
        ensures
            communicator == *self,
    {
        match self {
            BaguaHierarchicalCommunicator::Leader(leader) => BaguaHierarchicalCommunicator::Leader(
                leader.clone(),
            ),
            BaguaHierarchicalCommunicator::Worker(worker) => BaguaHierarchicalCommunicator::Worker(
                worker.clone(),
            ),
        }
    }
}

/// The division of a node's sum by the number of its ranks, in place.
pub open spec fn average_call(intranode: BaguaCommunicatorInner, raw: BaguaTensorRaw) -> DeviceCall {
    DeviceCall::DivideInplace {
        tensor: raw,
        stream: intranode.stream_ptr,
        divisor: intranode.nranks,
    }
}

impl BaguaHierarchicalCommunicatorLeader {
    /// Both communicators use one stream and one device.
    pub open spec fn wf(self) -> bool {
        Self::pairs(self.internode, self.intranode)
    }

    /// The communicators can be a leader's two: one stream, one device.
    pub open spec fn pairs(
        internode: BaguaSingleCommunicator,
        intranode: BaguaSingleCommunicator,
    ) -> bool {
        &&& intranode.inner.stream_ptr == internode.inner.stream_ptr
        &&& intranode.inner.device_id == internode.inner.device_id
    }

    /// The tensor is on the stream of the node's exchanges.
    pub open spec fn accepts(self, communication_tensor: BaguaCommunicationTensor) -> bool {
        communication_tensor.stream_ptr == self.intranode.inner.stream_ptr
    }

    /// What the leader launches before the leaders communicate.
    pub open spec fn pre_calls(self, raw: BaguaTensorRaw, average: bool) -> Seq<DeviceCall> {
        let intranode = *self.intranode.inner;
        if average {
            seq![intranode.reduce_call(raw, 0), average_call(intranode, raw)]
        } else {
            seq![intranode.reduce_call(raw, 0)]
        }
    }

    /// What the leader launches after the leaders have communicated.
    pub open spec fn post_call(self, raw: BaguaTensorRaw) -> DeviceCall {
        self.intranode.inner.broadcast_call(raw, 0)
    }

    /// Tests whether two communicators can be a leader's.
    pub fn is_pair(internode: &BaguaSingleCommunicator, intranode: &BaguaSingleCommunicator) -> (
    pair: bool)
        ensures
            pair == Self::pairs(*internode, *intranode),
    {
        intranode.inner.stream_ptr == internode.inner.stream_ptr && intranode.inner.device_id
            == internode.inner.device_id
    }

    /// Tests whether the leader can exchange a tensor within its node.
    pub fn is_accepted(&self, communication_tensor: &BaguaCommunicationTensor) -> (accepted: bool)
        ensures
            accepted == self.accepts(*communication_tensor),
    {
        communication_tensor.stream_ptr == self.intranode.inner.stream_ptr
    }

    /// A leader over two communicators that share a stream and a device.
    pub fn new(internode: BaguaSingleCommunicator, intranode: BaguaSingleCommunicator) -> (leader:
        Self)
        requires
            Self::pairs(internode, intranode),
        ensures
            leader.internode == internode,
            leader.intranode == intranode,
            leader.wf(),
    {
        BaguaHierarchicalCommunicatorLeader { internode, intranode }
    }

    /// Sums the node's tensors onto the leader and, if asked to, divides the
    /// sum by the number of ranks on the node. The calls are in launch order.
    pub fn hierarchical_pre(
        &self,
        communication_tensor: &BaguaCommunicationTensor,
        average: bool,
    ) -> (calls: Vec<DeviceCall>)
        requires
            self.accepts(*communication_tensor),
        ensures
            calls@ == self.pre_calls(communication_tensor.raw, average),
    {
        let mut calls: Vec<DeviceCall> = Vec::new();
        calls.push(self.intranode.inner.reduce(&communication_tensor.raw, 0));
        if average {
            calls.push(
                DeviceCall::DivideInplace {
                    tensor: communication_tensor.raw,
                    stream: self.intranode.inner.stream_ptr,
                    divisor: self.intranode.inner.nranks,
                },
            );
        }
        calls
    }

    /// Sends the leader's tensor to the ranks of its node.
    pub fn hierarchical_post(&self, communication_tensor: &BaguaCommunicationTensor) -> (call:
        DeviceCall)
        requires
            self.accepts(*communication_tensor),
        ensures
            call == self.post_call(communication_tensor.raw),
    {
        self.intranode.inner.broadcast(&communication_tensor.raw, 0)
    }
}

impl BaguaHierarchicalCommunicatorWorker {
    /// What the worker launches before the leaders communicate.
    pub open spec fn pre_call(self, raw: BaguaTensorRaw) -> DeviceCall {
        self.intranode.inner.reduce_call(raw, 0)
    }

    /// What the worker launches after the leaders have communicated.
    pub open spec fn post_call(self, raw: BaguaTensorRaw) -> DeviceCall {
        self.intranode.inner.broadcast_call(raw, 0)
    }

    /// Adds this rank's tensor to the sum on the leader.
    pub fn hierarchical_worker_pre(&self, communication_tensor: &BaguaCommunicationTensor) -> (call:
        DeviceCall)
        ensures
            call == self.pre_call(communication_tensor.raw),
    {
        self.intranode.inner.reduce(&communication_tensor.raw, 0)
    }

    /// Takes over the leader's tensor.
    pub fn hierarchical_worker_post(&self, communication_tensor: &BaguaCommunicationTensor) -> (call:
        DeviceCall)
        ensures
            call == self.post_call(communication_tensor.raw),
    {
        self.intranode.inner.broadcast(&communication_tensor.raw, 0)
    }
}

} // verus!
