//! The communicator that a training program communicates through.
use crate::calls::DeviceCall;
use crate::datatypes::BaguaCommunicationTensor;
use crate::error::BaguaCoreError;
use crate::hierarchical::{
    BaguaHierarchicalCommunicator, BaguaHierarchicalCommunicatorLeader,
    BaguaHierarchicalCommunicatorWorker,
};
use crate::inner::BaguaCommunicatorInner;
use crate::single::{share, BaguaSingleCommunicator};
use std::sync::Arc;
use vstd::prelude::*;

verus! {

/// A flat communicator, or this rank's part in a hierarchical one.
#[derive(Debug)]
pub enum BaguaCommunicator {
    /// All ranks communicate directly.
    SingleCommunicator(BaguaSingleCommunicator),
    /// Ranks communicate within their node, leaders across nodes.
    HierarchicalCommunicator(BaguaHierarchicalCommunicator),
}

impl Clone for BaguaCommunicator {
    /// A second owner of the same communicators.
    fn clone(&self) -> (communicator: Self)
        ensures
            communicator == *self,
    {
        match self {
            BaguaCommunicator::SingleCommunicator(single) => BaguaCommunicator::SingleCommunicator(
                single.clone(),
            ),
            BaguaCommunicator::HierarchicalCommunicator(part) =>
                BaguaCommunicator::HierarchicalCommunicator(part.clone()),
        }
    }
}

/// How far one communication of a tensor has come: what is up next.
#[derive(Clone, Copy, Debug, PartialEq, Eq, Structural)]
pub enum CommunicationStage {
    /// The exchange within the node that comes first.
    Pre,
    /// The exchange that the training program performs itself.
    Hook,
    /// The exchange within the node that comes last.
    Post,
    /// Nothing.
    Done,
}

/// What the host has to do at a stage.
#[derive(Debug)]
pub enum CommunicationAction {
    /// Launch these calls, in this order.
    Launch(Vec<DeviceCall>),
    /// Let the training program communicate through this communicator. It may
    /// change the tensor.
    Hook(Arc<BaguaCommunicatorInner>),
    /// Nothing.
    Nothing,
}

/// A [`CommunicationAction`] by its contents.
pub enum ActionView {
    /// Launch these calls, in this order.
    Launch(Seq<DeviceCall>),
    /// Let the training program communicate through this communicator.
    Hook(BaguaCommunicatorInner),
    /// Nothing.
    Nothing,
}

impl View for CommunicationAction {
    type V = ActionView;

    open spec fn view(&self) -> ActionView {
        match self {
            CommunicationAction::Launch(calls) => ActionView::Launch(calls@),
            CommunicationAction::Hook(inner) => ActionView::Hook(**inner),
            CommunicationAction::Nothing => ActionView::Nothing,
        }
    }
}

impl CommunicationStage {
    /// How many stages are left.
    pub open spec fn left(self) -> nat {
        match self {
            CommunicationStage::Pre => 3,
            CommunicationStage::Hook => 2,
            CommunicationStage::Post => 1,
            CommunicationStage::Done => 0,
        }
    }

    /// The stage after this one.
    pub open spec fn successor(self) -> CommunicationStage {
        match self {
            CommunicationStage::Pre => CommunicationStage::Hook,
            CommunicationStage::Hook => CommunicationStage::Post,
            CommunicationStage::Post => CommunicationStage::Done,
            CommunicationStage::Done => CommunicationStage::Done,
        }
    }
}

/// What `BaguaCommunicator::new` reports for communicators on two streams.
pub const STREAM_MISMATCH: &'static str =
    "intra node communicator should use the same stream as the inter node communicator";

/// The communicators that a rank was given are enough for the one it wants.
///
/// A flat communicator takes the internode one, a hierarchical one the
/// intranode one. Rank zero of a node takes the internode one too, and on one
/// stream the two have to be on one device.
pub open spec fn suffices(
    internode: Option<&BaguaSingleCommunicator>,
    intranode: Option<&BaguaSingleCommunicator>,
    hierarchical: bool,
) -> bool {
    if !hierarchical {
        internode is Some
    } else {
        &&& intranode is Some
        &&& intranode->Some_0.inner.rank == 0 ==> internode is Some
        &&& intranode->Some_0.inner.rank == 0 && intranode->Some_0.inner.stream_ptr
            == internode->Some_0.inner.stream_ptr ==> intranode->Some_0.inner.device_id
            == internode->Some_0.inner.device_id
    }
}

/// The communicator that a rank gets from those it was given: the internode
/// one itself where it is to be flat, the leader's part for rank zero of a
/// node, a worker's part for the others. A leader on two streams gets none.
pub open spec fn assembled(
    internode: Option<&BaguaSingleCommunicator>,
    intranode: Option<&BaguaSingleCommunicator>,
    hierarchical: bool,
) -> Option<BaguaCommunicator> {
    if !hierarchical {
        Some(BaguaCommunicator::SingleCommunicator(*internode->Some_0))
    } else if intranode->Some_0.inner.rank != 0 {
        Some(
            BaguaCommunicator::HierarchicalCommunicator(
                BaguaHierarchicalCommunicator::Worker(
                    BaguaHierarchicalCommunicatorWorker { intranode: *intranode->Some_0 },
                ),
            ),
        )
    } else if intranode->Some_0.inner.stream_ptr == internode->Some_0.inner.stream_ptr {
        Some(
            BaguaCommunicator::HierarchicalCommunicator(
                BaguaHierarchicalCommunicator::Leader(
                    BaguaHierarchicalCommunicatorLeader {
                        internode: *internode->Some_0,
                        intranode: *intranode->Some_0,
                    },
                ),
            ),
        )
    } else {
        None
    }
}

impl BaguaCommunicator {
    /// A leader's two communicators share a stream and a device.
    pub open spec fn wf(self) -> bool {
        match self {
            BaguaCommunicator::HierarchicalCommunicator(
                BaguaHierarchicalCommunicator::Leader(leader),
            ) => leader.wf(),
            _ => true,
        }
    }

    /// The stream that the communicator works on.
    pub open spec fn stream(self) -> u64 {
        match self {
            BaguaCommunicator::SingleCommunicator(single) => single.inner.stream_ptr,
            BaguaCommunicator::HierarchicalCommunicator(
                BaguaHierarchicalCommunicator::Leader(leader),
            ) => leader.internode.inner.stream_ptr,
            BaguaCommunicator::HierarchicalCommunicator(
                BaguaHierarchicalCommunicator::Worker(worker),
            ) => worker.intranode.inner.stream_ptr,
        }
    }

    /// What is to be done for `tensor` at `stage`.
    pub open spec fn action(
        self,
        tensor: BaguaCommunicationTensor,
        intranode_average: bool,
        hierarchical_pre: bool,
        hierarchical_post: bool,
        stage: CommunicationStage,
    ) -> ActionView {
        match (self, stage) {
            (BaguaCommunicator::SingleCommunicator(single), CommunicationStage::Hook) =>
                ActionView::Hook(*single.inner),
            (
                BaguaCommunicator::HierarchicalCommunicator(
                    BaguaHierarchicalCommunicator::Leader(leader),
                ),
                CommunicationStage::Pre,
            ) if hierarchical_pre => ActionView::Launch(
                leader.pre_calls(tensor.raw, intranode_average),
            ),
            (
                BaguaCommunicator::HierarchicalCommunicator(
                    BaguaHierarchicalCommunicator::Leader(leader),
                ),
                CommunicationStage::Hook,
            ) => ActionView::Hook(*leader.internode.inner),
            (
                BaguaCommunicator::HierarchicalCommunicator(
                    BaguaHierarchicalCommunicator::Leader(leader),
                ),
                CommunicationStage::Post,
            ) if hierarchical_post => ActionView::Launch(seq![leader.post_call(tensor.raw)]),
            (
                BaguaCommunicator::HierarchicalCommunicator(
                    BaguaHierarchicalCommunicator::Worker(worker),
                ),
                CommunicationStage::Pre,
            ) if hierarchical_pre => ActionView::Launch(seq![worker.pre_call(tensor.raw)]),
            (
                BaguaCommunicator::HierarchicalCommunicator(
                    BaguaHierarchicalCommunicator::Worker(worker),
                ),
                CommunicationStage::Post,
            ) if hierarchical_post => ActionView::Launch(seq![worker.post_call(tensor.raw)]),
            _ => ActionView::Nothing,
        }
    }

    /// A leader exchanges within its node only tensors that are on the stream
    /// of its intranode communicator.
    pub open spec fn admits(
        self,
        tensor: BaguaCommunicationTensor,
        hierarchical_pre: bool,
        hierarchical_post: bool,
        stage: CommunicationStage,
    ) -> bool {
        match self {
            BaguaCommunicator::HierarchicalCommunicator(
                BaguaHierarchicalCommunicator::Leader(leader),
            ) => {
                ||| leader.accepts(tensor)
                ||| stage == CommunicationStage::Hook
                ||| stage == CommunicationStage::Done
                ||| stage == CommunicationStage::Pre && !hierarchical_pre
                ||| stage == CommunicationStage::Post && !hierarchical_post
            },
            _ => true,
        }
    }

    /// Tests whether a rank was given what it needs for its communicator.
    pub fn is_sufficient(
        communicator_internode: Option<&BaguaSingleCommunicator>,
        communicator_intranode: Option<&BaguaSingleCommunicator>,
        hierarchical: bool,
    ) -> (sufficient: bool)
        ensures
            sufficient == suffices(communicator_internode, communicator_intranode, hierarchical),
    {
        if !hierarchical {
            return communicator_internode.is_some();
        }
        match (communicator_intranode, communicator_internode) {
            (None, _) => false,
            (Some(intra), None) => intra.rank() != 0,
            (Some(intra), Some(inter)) => intra.rank() != 0 || intra.inner.stream_ptr
                != inter.inner.stream_ptr || intra.inner.device_id == inter.inner.device_id,
        }
    }

    /// Tests whether a tensor can be communicated at a stage.
    pub fn is_admitted(
        &self,
        tensor: &BaguaCommunicationTensor,
        hierarchical_pre: bool,
        hierarchical_post: bool,
        stage: CommunicationStage,
    ) -> (admitted: bool)
        ensures
            admitted == self.admits(*tensor, hierarchical_pre, hierarchical_post, stage),
    {
        match self {
            BaguaCommunicator::HierarchicalCommunicator(
                BaguaHierarchicalCommunicator::Leader(leader),
            ) => leader.is_accepted(tensor) || match stage {
                CommunicationStage::Pre => !hierarchical_pre,
                CommunicationStage::Post => !hierarchical_post,
                CommunicationStage::Hook | CommunicationStage::Done => true,
            },
            _ => true,
        }
    }

    /// Puts a communicator together from those that this rank belongs to.
    ///
    /// A flat communicator needs the internode one. A hierarchical one needs
    /// the intranode one, whose rank zero leads the node; the leader needs
    /// both, on one stream and one device.
    pub fn new(
        communicator_internode: Option<&BaguaSingleCommunicator>,
        communicator_intranode: Option<&BaguaSingleCommunicator>,
        hierarchical: bool,
    ) -> (communicator: Result<Self, BaguaCoreError>)
        requires
            suffices(communicator_internode, communicator_intranode, hierarchical),
        ensures
            match assembled(communicator_internode, communicator_intranode, hierarchical) {
                Some(made) => communicator matches Ok(given) && given == made && given.wf(),
                None => communicator matches Err(error)
                    && error matches BaguaCoreError::CommunicatorError(message) && message@
                    == STREAM_MISMATCH@,
            },
    {
        if !hierarchical {
            return Ok(
                BaguaCommunicator::SingleCommunicator(communicator_internode.unwrap().clone()),
            );
        }
        let intra: &BaguaSingleCommunicator = communicator_intranode.unwrap();
        if intra.rank() == 0 {
            let inter: &BaguaSingleCommunicator = communicator_internode.unwrap();
            if intra.inner.stream_ptr != inter.inner.stream_ptr {
                return Err(BaguaCoreError::CommunicatorError(STREAM_MISMATCH.to_owned()));
            }
            Ok(
                BaguaCommunicator::HierarchicalCommunicator(
                    BaguaHierarchicalCommunicator::Leader(
                        BaguaHierarchicalCommunicatorLeader::new(inter.clone(), intra.clone()),
                    ),
                ),
            )
        } else {
            Ok(
                BaguaCommunicator::HierarchicalCommunicator(
                    BaguaHierarchicalCommunicator::Worker(
                        BaguaHierarchicalCommunicatorWorker { intranode: intra.clone() },
                    ),
                ),
            )
        }
    }

    /// The stream that the communicator works on.
    pub fn stream_ptr(&self) -> (stream_ptr: u64)
        ensures
            stream_ptr == self.stream(),
    {
        match self {
            BaguaCommunicator::SingleCommunicator(x) => x.inner.stream_ptr,
            BaguaCommunicator::HierarchicalCommunicator(x) => match x {
                BaguaHierarchicalCommunicator::Leader(x) => x.internode.inner.stream_ptr,
                BaguaHierarchicalCommunicator::Worker(x) => x.intranode.inner.stream_ptr,
            },
        }
    }

    /// One step of communicating `tensor`: what to do at `stage`, and the
    /// stage that follows once it is done.
    ///
    /// The host starts at [`CommunicationStage::Pre`] and goes on until
    /// [`CommunicationStage::Done`], each time with the tensor as it then is.
    pub fn execute_communication(
        &self,
        tensor: &BaguaCommunicationTensor,
        intranode_average: bool,
        hierarchical_pre: bool,
        hierarchical_post: bool,
        stage: CommunicationStage,
    ) -> (step: (CommunicationAction, CommunicationStage))
        requires
            self.admits(*tensor, hierarchical_pre, hierarchical_post, stage),
        ensures
            step.0@ == self.action(
                *tensor,
                intranode_average,
                hierarchical_pre,
                hierarchical_post,
                stage,
            ),
            step.1 == stage.successor(),
    {
        match stage {
            CommunicationStage::Pre => {
                let mut calls: Vec<DeviceCall> = Vec::new();
                if let BaguaCommunicator::HierarchicalCommunicator(part) = self {
                    if hierarchical_pre {
                        match part {
                            BaguaHierarchicalCommunicator::Leader(leader) => {
                                calls = leader.hierarchical_pre(tensor, intranode_average);
                            },
                            BaguaHierarchicalCommunicator::Worker(worker) => {
                                calls.push(worker.hierarchical_worker_pre(tensor));
                            },
                        }
                        return (CommunicationAction::Launch(calls), CommunicationStage::Hook);
                    }
                }
                (CommunicationAction::Nothing, CommunicationStage::Hook)
            },
            CommunicationStage::Hook => {
                let action: CommunicationAction = match self {
                    BaguaCommunicator::SingleCommunicator(single) => CommunicationAction::Hook(
                        share(&single.inner),
                    ),
                    BaguaCommunicator::HierarchicalCommunicator(part) => match part {
                        BaguaHierarchicalCommunicator::Leader(leader) => CommunicationAction::Hook(
                            share(&leader.internode.inner),
                        ),
                        BaguaHierarchicalCommunicator::Worker(_) => CommunicationAction::Nothing,
                    },
                };
                (action, CommunicationStage::Post)
            },
            CommunicationStage::Post => {
                if let BaguaCommunicator::HierarchicalCommunicator(part) = self {
                    if hierarchical_post {
                        let call: DeviceCall = match part {
                            BaguaHierarchicalCommunicator::Leader(leader) => leader.hierarchical_post(
                                tensor,
                            ),
                            BaguaHierarchicalCommunicator::Worker(worker) =>
                                worker.hierarchical_worker_post(tensor),
                        };
                        let mut calls: Vec<DeviceCall> = Vec::new();
                        calls.push(call);
                        assert(calls@ =~= seq![call]);
                        return (CommunicationAction::Launch(calls), CommunicationStage::Done);
                    }
                }
                (CommunicationAction::Nothing, CommunicationStage::Done)
            },
            CommunicationStage::Done => (CommunicationAction::Nothing, CommunicationStage::Done),
        }
    }
}

} // verus!
