use bagua_communicators::calls::DeviceCall;
use bagua_communicators::group::NCCLGroupGuard;
use bagua_communicators::inner::BaguaCommunicatorInner;
use bagua_communicators::single::{BaguaSingleCommunicator, SetupStep};
use bagua_communicators::unique_id::{take_unique_id, Base64Error, UniqueIdError};

fn some_id() -> [i8; 128] {
    let mut id = [0_i8; 128];
    for (i, c) in id.iter_mut().enumerate() {
        *c = (i as i32 * 2 - 128) as i8;
    }
    id
}

#[test]
fn generated_text_is_standard_base64() {
    let text = BaguaSingleCommunicator::generate_nccl_unique_id_str(&[0_i8; 128]);
    assert_eq!(text, format!("{}A=", "A".repeat(170)));
    let text = BaguaSingleCommunicator::generate_nccl_unique_id_str(&[-1_i8; 128]);
    assert_eq!(text, format!("{}8=", "/".repeat(170)));
}

#[test]
fn generated_text_has_one_padding_character() {
    let text = BaguaSingleCommunicator::generate_nccl_unique_id_str(&some_id());
    assert_eq!(text.len(), 172);
    assert_eq!(text.find('='), Some(171));
    assert!(text[..171]
        .chars()
        .all(|c| c.is_ascii_alphanumeric() || c == '+' || c == '/'));
}

#[test]
fn generated_text_decodes_to_nothing_but_the_identifier() {
    let id = some_id();
    let text = BaguaSingleCommunicator::generate_nccl_unique_id_str(&id);
    let expected: Vec<u8> = id.iter().map(|c| *c as u8).collect();
    assert_eq!(base64::decode(&text), Ok(expected));
}

#[test]
fn identifier_survives_the_trip_through_text() {
    let id = some_id();
    let text = BaguaSingleCommunicator::generate_nccl_unique_id_str(&id);
    let setup = BaguaSingleCommunicator::new(3, 4, 1, 0x51, &text);
    assert_eq!(setup.outcome, Ok(()));
    let init = match &setup.steps[1] {
        SetupStep::InitRank(init) => init,
        SetupStep::Launch(_) => unreachable!(),
    };
    let expected: Vec<u8> = id.iter().map(|c| *c as u8).collect();
    assert_eq!(init.id, expected);
    assert_eq!(init.id[0], 128);
    assert_eq!(init.id[127], 126);
    assert_eq!(init.nranks, 4);
    assert_eq!(init.rank, 3);
}

#[test]
fn different_identifiers_have_different_texts() {
    let mut other = some_id();
    other[127] = -other[127];
    assert_ne!(
        BaguaSingleCommunicator::generate_nccl_unique_id_str(&some_id()),
        BaguaSingleCommunicator::generate_nccl_unique_id_str(&other)
    );
}

#[test]
fn setup_selects_the_device_and_initialises() {
    let text = BaguaSingleCommunicator::generate_nccl_unique_id_str(&[5_i8; 128]);
    let setup = BaguaSingleCommunicator::new(3, 4, 1, 0x51, &text);
    assert_eq!(setup.steps.len(), 2);
    assert!(matches!(
        setup.steps[0],
        SetupStep::Launch(DeviceCall::SetDevice { device: 1 })
    ));
    match &setup.steps[1] {
        SetupStep::InitRank(init) => {
            assert_eq!(init.nranks, 4);
            assert_eq!(init.id, vec![5_u8; 128]);
            assert_eq!(init.rank, 3);
        }
        SetupStep::Launch(_) => unreachable!(),
    }
}

#[test]
fn setup_keeps_its_arguments() {
    let text = BaguaSingleCommunicator::generate_nccl_unique_id_str(&some_id());
    let setup = BaguaSingleCommunicator::new(3, 4, 1, 0x51, &text);
    assert_eq!(setup.outcome, Ok(()));
    let communicator = setup.complete(0xc0);
    assert_eq!(
        *communicator.inner,
        BaguaCommunicatorInner {
            stream_ptr: 0x51,
            comm_ptr: 0xc0,
            rank: 3,
            nranks: 4,
            device_id: 1,
        }
    );
}

#[test]
fn setup_selects_the_device_before_it_fails() {
    let setup = BaguaSingleCommunicator::new(0, 1, 2, 0, "not base64");
    assert_eq!(setup.steps.len(), 1);
    assert!(matches!(
        setup.steps[0],
        SetupStep::Launch(DeviceCall::SetDevice { device: 2 })
    ));
    assert_eq!(
        setup.outcome.unwrap_err(),
        UniqueIdError::Encoding(Base64Error::InvalidByte(3, b' '))
    );
}

#[test]
fn text_of_impossible_length_is_refused() {
    let setup = BaguaSingleCommunicator::new(0, 1, 0, 0, "AAAAA");
    assert_eq!(
        setup.outcome.unwrap_err(),
        UniqueIdError::Encoding(Base64Error::InvalidLength)
    );
}

#[test]
fn text_with_stray_bits_is_refused() {
    let setup = BaguaSingleCommunicator::new(0, 1, 0, 0, "AB==");
    assert_eq!(
        setup.outcome.unwrap_err(),
        UniqueIdError::Encoding(Base64Error::InvalidLastSymbol(1, b'B'))
    );
}

#[test]
fn short_identifier_is_refused() {
    let setup = BaguaSingleCommunicator::new(0, 1, 0, 0, "aGVsbG8=");
    assert_eq!(setup.outcome.unwrap_err(), UniqueIdError::TooShort(5));
    let setup = BaguaSingleCommunicator::new(0, 1, 0, 0, "");
    assert_eq!(setup.outcome.unwrap_err(), UniqueIdError::TooShort(0));
}

#[test]
fn bytes_behind_the_identifier_are_ignored() {
    let mut bytes: Vec<u8> = vec![9; 128];
    assert_eq!(take_unique_id(Ok(bytes.clone())), Ok(vec![9; 128]));
    bytes.push(1);
    assert_eq!(take_unique_id(Ok(bytes)), Ok(vec![9; 128]));
    assert_eq!(
        take_unique_id(Ok(vec![9; 127])),
        Err(UniqueIdError::TooShort(127))
    );
    assert_eq!(
        take_unique_id(Err(Base64Error::InvalidLength)),
        Err(UniqueIdError::Encoding(Base64Error::InvalidLength))
    );
}

#[test]
fn guard_opens_and_closes_one_group() {
    let (guard, opening) = NCCLGroupGuard::new();
    assert_eq!(opening, DeviceCall::GroupStart);
    assert_eq!(guard.end(), DeviceCall::GroupEnd);
}

#[test]
fn nested_guards_end_only_their_own_groups() {
    let (outer, first) = NCCLGroupGuard::new();
    let (nested, second) = NCCLGroupGuard::new();
    let calls = vec![first, second, nested.end(), outer.end()];
    let mut depth = 0;
    let mut depths: Vec<i32> = vec![];
    for call in calls {
        match call {
            DeviceCall::GroupStart => depth += 1,
            DeviceCall::GroupEnd => depth -= 1,
            _ => unreachable!(),
        }
        depths.push(depth);
    }
    assert_eq!(depths, vec![1, 2, 1, 0]);
}
