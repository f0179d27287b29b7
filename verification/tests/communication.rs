use bagua_communicators::calls::DeviceCall;
use bagua_communicators::communicator::{
    BaguaCommunicator, CommunicationAction, CommunicationStage,
};
use bagua_communicators::datatypes::{BaguaCommunicationTensor, BaguaTensorDtype, BaguaTensorRaw};
use bagua_communicators::error::BaguaCoreError;
use bagua_communicators::hierarchical::{
    BaguaHierarchicalCommunicator, BaguaHierarchicalCommunicatorLeader,
    BaguaHierarchicalCommunicatorWorker,
};
use bagua_communicators::inner::BaguaCommunicatorInner;
use bagua_communicators::single::BaguaSingleCommunicator;
use std::sync::Arc;

#[derive(Debug, PartialEq)]
enum Event {
    Call(DeviceCall),
    Hook(u64),
}

fn single(comm_ptr: u64, stream_ptr: u64, rank: usize, device_id: usize) -> BaguaSingleCommunicator {
    BaguaSingleCommunicator {
        inner: Arc::new(BaguaCommunicatorInner {
            stream_ptr,
            comm_ptr,
            rank,
            nranks: 8,
            device_id,
        }),
    }
}

fn tensor(ptr: u64) -> BaguaCommunicationTensor {
    BaguaCommunicationTensor {
        stream_ptr: 7,
        raw: BaguaTensorRaw {
            ptr,
            num_elem_allocated: 24,
            dtype: BaguaTensorDtype {
                nccl_datatype: 6,
                element_bytes: 2,
            },
        },
    }
}

/// Carries out all steps. The hook moves the tensor to address 9000.
fn run(communicator: &BaguaCommunicator, average: bool, pre: bool, post: bool) -> Vec<Event> {
    let mut events: Vec<Event> = vec![];
    let mut current = tensor(1000);
    let mut stage = CommunicationStage::Pre;
    while stage != CommunicationStage::Done {
        let (action, next) =
            communicator.execute_communication(&current, average, pre, post, stage);
        match action {
            CommunicationAction::Launch(calls) => {
                for call in calls {
                    events.push(Event::Call(call));
                }
            }
            CommunicationAction::Hook(inner) => {
                events.push(Event::Hook(inner.comm_ptr));
                current = tensor(9000);
            }
            CommunicationAction::Nothing => {}
        }
        stage = next;
    }
    events
}

fn leader() -> BaguaCommunicator {
    BaguaCommunicator::new(Some(&single(20, 7, 5, 1)), Some(&single(10, 7, 0, 1)), true).unwrap()
}

fn worker() -> BaguaCommunicator {
    BaguaCommunicator::new(None, Some(&single(10, 7, 3, 1)), true).unwrap()
}

#[test]
fn flat_communicator_is_the_internode_one() {
    let internode = single(20, 7, 5, 1);
    let communicator = BaguaCommunicator::new(Some(&internode), None, false).unwrap();
    match &communicator {
        BaguaCommunicator::SingleCommunicator(x) => {
            assert!(Arc::ptr_eq(&x.inner, &internode.inner))
        }
        _ => unreachable!(),
    }
    assert_eq!(communicator.stream_ptr(), 7);
}

#[test]
fn rank_zero_of_a_node_leads() {
    match leader() {
        BaguaCommunicator::HierarchicalCommunicator(BaguaHierarchicalCommunicator::Leader(x)) => {
            assert_eq!(x.internode.inner.comm_ptr, 20);
            assert_eq!(x.intranode.inner.comm_ptr, 10);
        }
        _ => unreachable!(),
    }
    assert_eq!(leader().stream_ptr(), 7);
}

#[test]
fn other_ranks_of_a_node_work() {
    match worker() {
        BaguaCommunicator::HierarchicalCommunicator(BaguaHierarchicalCommunicator::Worker(x)) => {
            assert_eq!(x.intranode.inner.comm_ptr, 10);
        }
        _ => unreachable!(),
    }
    assert_eq!(worker().stream_ptr(), 7);
}

#[test]
fn worker_needs_no_common_stream() {
    let made = BaguaCommunicator::new(Some(&single(20, 8, 5, 2)), Some(&single(10, 7, 3, 1)), true);
    assert_eq!(made.unwrap().stream_ptr(), 7);
}

#[test]
fn leader_on_two_streams_is_refused() {
    let made = BaguaCommunicator::new(Some(&single(20, 8, 5, 2)), Some(&single(10, 7, 0, 1)), true);
    assert_eq!(
        made.unwrap_err(),
        BaguaCoreError::CommunicatorError(
            "intra node communicator should use the same stream as the inter node communicator"
                .to_string()
        )
    );
}

#[test]
fn flat_communicator_only_hooks() {
    let communicator = BaguaCommunicator::new(Some(&single(20, 7, 5, 1)), None, false).unwrap();
    assert_eq!(run(&communicator, true, true, true), vec![Event::Hook(20)]);
    assert_eq!(run(&communicator, false, false, false), vec![Event::Hook(20)]);
}

#[test]
fn leader_reduces_averages_hooks_and_broadcasts() {
    let intranode = *single(10, 7, 0, 1).inner;
    let reduce = Event::Call(intranode.reduce(&tensor(1000).raw, 0));
    let average = Event::Call(DeviceCall::DivideInplace {
        tensor: tensor(1000).raw,
        stream: 7,
        divisor: 8,
    });
    let broadcast = Event::Call(intranode.broadcast(&tensor(9000).raw, 0));
    assert_eq!(
        run(&leader(), true, true, true),
        vec![reduce, average, Event::Hook(20), broadcast]
    );
}

#[test]
fn leader_can_leave_out_each_exchange() {
    let intranode = *single(10, 7, 0, 1).inner;
    let reduce = intranode.reduce(&tensor(1000).raw, 0);
    let broadcast = intranode.broadcast(&tensor(9000).raw, 0);
    assert_eq!(
        run(&leader(), false, true, false),
        vec![Event::Call(reduce), Event::Hook(20)]
    );
    assert_eq!(
        run(&leader(), true, false, true),
        vec![Event::Hook(20), Event::Call(broadcast)]
    );
    assert_eq!(run(&leader(), true, false, false), vec![Event::Hook(20)]);
}

#[test]
fn worker_follows_without_hook_or_average() {
    let intranode = *single(10, 7, 3, 1).inner;
    let reduce = intranode.reduce(&tensor(1000).raw, 0);
    let broadcast = intranode.broadcast(&tensor(1000).raw, 0);
    assert_eq!(
        run(&worker(), true, true, true),
        vec![Event::Call(reduce), Event::Call(broadcast)]
    );
    assert_eq!(run(&worker(), true, true, false), vec![Event::Call(reduce)]);
    assert_eq!(run(&worker(), true, false, true), vec![Event::Call(broadcast)]);
    assert_eq!(run(&worker(), true, false, false), vec![]);
}

#[test]
fn worker_takes_tensors_from_any_stream() {
    let worker = BaguaHierarchicalCommunicatorWorker {
        intranode: single(10, 7, 3, 1),
    };
    let mut elsewhere = tensor(1000);
    elsewhere.stream_ptr = 99;
    assert_eq!(
        worker.hierarchical_worker_pre(&elsewhere),
        worker.intranode.inner.reduce(&elsewhere.raw, 0)
    );
    assert_eq!(
        worker.hierarchical_worker_post(&elsewhere),
        worker.intranode.inner.broadcast(&elsewhere.raw, 0)
    );
}

#[test]
fn leader_steps_are_in_launch_order() {
    let leader = BaguaHierarchicalCommunicatorLeader::new(single(20, 7, 5, 1), single(10, 7, 0, 1));
    let calls = leader.hierarchical_pre(&tensor(1000), true);
    assert_eq!(calls.len(), 2);
    assert!(matches!(calls[0], DeviceCall::Reduce { root: 0, comm: 10, .. }));
    assert!(matches!(calls[1], DeviceCall::DivideInplace { divisor: 8, .. }));
    assert_eq!(leader.hierarchical_pre(&tensor(1000), false).len(), 1);
    assert!(matches!(
        leader.hierarchical_post(&tensor(1000)),
        DeviceCall::Broadcast { root: 0, comm: 10, .. }
    ));
}

#[test]
fn finished_communication_stays_finished() {
    let (action, next) =
        leader().execute_communication(&tensor(1000), true, true, true, CommunicationStage::Done);
    assert!(matches!(action, CommunicationAction::Nothing));
    assert_eq!(next, CommunicationStage::Done);
}

#[test]
fn clones_of_a_communicator_act_alike() {
    let original = leader();
    let clone = original.clone();
    assert_eq!(run(&original, true, true, true), run(&clone, true, true, true));
    let original = worker();
    let clone = original.clone();
    assert_eq!(run(&original, true, true, true), run(&clone, true, true, true));
}

#[test]
fn everything_happens_on_one_stream() {
    for event in run(&leader(), true, true, true) {
        match event {
            Event::Call(DeviceCall::Reduce { stream, .. })
            | Event::Call(DeviceCall::DivideInplace { stream, .. })
            | Event::Call(DeviceCall::Broadcast { stream, .. }) => {
                assert_eq!(stream, leader().stream_ptr())
            }
            Event::Call(_) => unreachable!(),
            Event::Hook(comm_ptr) => assert_eq!(comm_ptr, 20),
        }
    }
}

#[test]
fn leader_and_worker_take_part_in_the_same_exchanges() {
    let led = run(&leader(), true, true, true);
    let followed = run(&worker(), true, true, true);
    match (&led[0], &followed[0]) {
        (
            Event::Call(DeviceCall::Reduce {
                count: a,
                datatype: b,
                op: c,
                root: d,
                comm: e,
                ..
            }),
            Event::Call(DeviceCall::Reduce {
                count,
                datatype,
                op,
                root,
                comm,
                ..
            }),
        ) => assert_eq!((a, b, c, d, e), (count, datatype, op, root, comm)),
        _ => unreachable!(),
    }
    match (&led[3], &followed[1]) {
        (
            Event::Call(DeviceCall::Broadcast {
                count: a,
                datatype: b,
                root: c,
                comm: d,
                ..
            }),
            Event::Call(DeviceCall::Broadcast {
                count,
                datatype,
                root,
                comm,
                ..
            }),
        ) => assert_eq!((a, b, c, d), (count, datatype, root, comm)),
        _ => unreachable!(),
    }
}

#[test]
fn sufficiency_of_communicators_is_tested() {
    let inter = single(20, 7, 5, 1);
    let other_stream = single(20, 8, 5, 2);
    let other_device = single(20, 7, 5, 2);
    let first = single(10, 7, 0, 1);
    let later = single(10, 7, 3, 1);
    assert!(BaguaCommunicator::is_sufficient(Some(&inter), None, false));
    assert!(!BaguaCommunicator::is_sufficient(None, Some(&first), false));
    assert!(!BaguaCommunicator::is_sufficient(Some(&inter), None, true));
    assert!(BaguaCommunicator::is_sufficient(None, Some(&later), true));
    assert!(!BaguaCommunicator::is_sufficient(None, Some(&first), true));
    assert!(BaguaCommunicator::is_sufficient(Some(&inter), Some(&first), true));
    assert!(BaguaCommunicator::is_sufficient(Some(&other_stream), Some(&first), true));
    assert!(!BaguaCommunicator::is_sufficient(Some(&other_device), Some(&first), true));
    assert!(BaguaCommunicator::is_sufficient(Some(&other_device), Some(&later), true));
}

#[test]
fn pairs_of_communicators_are_tested() {
    let intra = single(10, 7, 0, 1);
    assert!(BaguaHierarchicalCommunicatorLeader::is_pair(&single(20, 7, 5, 1), &intra));
    assert!(!BaguaHierarchicalCommunicatorLeader::is_pair(&single(20, 8, 5, 1), &intra));
    assert!(!BaguaHierarchicalCommunicatorLeader::is_pair(&single(20, 7, 5, 2), &intra));
}

#[test]
fn leader_admits_other_streams_only_where_it_exchanges_nothing() {
    let here = tensor(1000);
    let mut elsewhere = here;
    elsewhere.stream_ptr = 99;
    assert!(leader().is_admitted(&here, true, true, CommunicationStage::Pre));
    assert!(!leader().is_admitted(&elsewhere, true, true, CommunicationStage::Pre));
    assert!(leader().is_admitted(&elsewhere, false, true, CommunicationStage::Pre));
    assert!(leader().is_admitted(&elsewhere, true, true, CommunicationStage::Hook));
    assert!(!leader().is_admitted(&elsewhere, true, true, CommunicationStage::Post));
    assert!(leader().is_admitted(&elsewhere, true, false, CommunicationStage::Post));
    assert!(leader().is_admitted(&elsewhere, true, true, CommunicationStage::Done));
    assert!(worker().is_admitted(&elsewhere, true, true, CommunicationStage::Pre));
}
