use nx::ipc::cmif::client::write_request_command_on_msg_buffer;
use nx::ipc::cmif::rc::{ResultInvalidHeaderSize, ResultInvalidOutputHeader};
use nx::ipc::cmif::DomainCommandType;
use nx::ipc::rc::{ResultInvalidDomainObject, ResultInvalidProtocol};
use nx::ipc::sf::Session;
use nx::ipc::{CommandContext, CommandProtocol, ObjectInfo, ObjectState};
use nx::result::{ResultBase, ResultCode};

fn domain_reply(result: u32, object_id: u32) -> Vec<u8> {
    let mut msg: Vec<u8> = Vec::new();
    msg.extend_from_slice(&0u32.to_le_bytes());
    msg.extend_from_slice(&9u32.to_le_bytes());
    msg.extend_from_slice(&[0u8; 8]);
    msg.extend_from_slice(&0x4F434653u32.to_le_bytes());
    msg.extend_from_slice(&0u32.to_le_bytes());
    msg.extend_from_slice(&result.to_le_bytes());
    msg.extend_from_slice(&0u32.to_le_bytes());
    msg.extend_from_slice(&object_id.to_le_bytes());
    msg.extend_from_slice(&[0u8; 8]);
    msg
}

#[test]
fn new_session_is_invalid() {
    let session = Session::new();
    assert_eq!(session.object_info.get_state(), ObjectState::Invalid);
    assert!(!session.object_info.is_valid());
    assert_eq!(session.object_info, ObjectInfo::new());
    let by_default = Session::default();
    assert_eq!(by_default.object_info, ObjectInfo::new());
}

#[test]
fn session_from_handle_is_plain_and_owns() {
    let session = Session::from_handle(0x1234);
    assert_eq!(session.object_info.handle, 0x1234);
    assert_eq!(session.object_info.domain_object_id, 0);
    assert!(session.object_info.owns_handle);
    assert_eq!(session.object_info.protocol, CommandProtocol::Cmif);
    assert_eq!(session.object_info.get_state(), ObjectState::Plain);
    assert!(session.object_info.uses_cmif_protocol());
    assert!(!session.object_info.uses_tipc_protocol());
}

#[test]
fn get_info_and_set_info_reach_the_record() {
    let mut session = Session::new();
    session.set_info(ObjectInfo::from_handle(9));
    assert_eq!(session.object_info.handle, 9);
    session.get_info().handle = 11;
    assert_eq!(session.object_info.handle, 11);
    let from = Session::from(ObjectInfo::from_domain_object_id(5, 6));
    assert_eq!(from.object_info.get_state(), ObjectState::Domain);
    assert!(!from.object_info.owns_handle);
}

#[test]
fn close_owned_cmif_session_sends_close_and_releases() {
    let mut session = Session::from_handle(0x1234);
    let actions = session.close();
    assert_eq!(actions.handle, 0x1234);
    assert_eq!(actions.message, Some(vec![2, 0, 0, 0, 0, 0, 0, 0]));
    assert!(actions.close_handle);
    assert_eq!(session.object_info, ObjectInfo::new());
}

#[test]
fn close_twice_does_nothing_the_second_time() {
    let mut session = Session::from_handle(0x1234);
    let first = session.close();
    assert!(first.message.is_some());
    assert!(first.close_handle);
    let second = session.close();
    assert_eq!(second.message, None);
    assert!(!second.close_handle);
    assert_eq!(session.object_info, ObjectInfo::new());
    let third = session.close();
    assert_eq!(third.message, None);
    assert!(!third.close_handle);
}

#[test]
fn close_invalid_session_is_a_no_op() {
    let mut session = Session::from(ObjectInfo {
        handle: 0,
        domain_object_id: 5,
        owns_handle: true,
        protocol: CommandProtocol::Tipc,
    });
    let before = session.object_info;
    let actions = session.close();
    assert_eq!(actions.message, None);
    assert!(!actions.close_handle);
    assert_eq!(session.object_info, before);
}

#[test]
fn close_tipc_session_sends_close_session() {
    let mut session = Session::from(ObjectInfo {
        handle: 0x77,
        domain_object_id: 0,
        owns_handle: true,
        protocol: CommandProtocol::Tipc,
    });
    let actions = session.close();
    assert_eq!(actions.message, Some(vec![15, 0, 0, 0, 0, 0, 0, 0]));
    assert!(actions.close_handle);
    assert_eq!(actions.handle, 0x77);
}

#[test]
fn close_borrowed_session_sends_nothing() {
    let mut session = Session::from(ObjectInfo {
        handle: 0x77,
        domain_object_id: 0,
        owns_handle: false,
        protocol: CommandProtocol::Cmif,
    });
    let actions = session.close();
    assert_eq!(actions.message, None);
    assert!(!actions.close_handle);
    assert_eq!(session.object_info, ObjectInfo::new());
}

#[test]
fn close_domain_object_sends_domain_close_and_keeps_the_handle() {
    let mut session = Session::from(ObjectInfo::from_domain_object_id(0x55, 7));
    let actions = session.close();
    let mut expected: Vec<u8> = vec![4, 0, 0, 0, 8, 0, 0, 0];
    expected.extend_from_slice(&[0u8; 8]);
    expected.extend_from_slice(&[2, 0, 0, 0, 7, 0, 0, 0, 0, 0, 0, 0, 0, 0, 0, 0]);
    expected.extend_from_slice(&[0u8; 8]);
    assert_eq!(actions.message, Some(expected));
    assert!(!actions.close_handle);
    assert_eq!(actions.handle, 0x55);
    assert_eq!(session.object_info.get_state(), ObjectState::Invalid);
}

#[test]
fn close_converted_session_closes_the_object_not_the_handle() {
    let mut session = Session::from_handle(0x1234);
    assert!(session.convert_to_domain(Ok(domain_reply(0, 3))).is_ok());
    let actions = session.close();
    assert!(actions.message.is_some());
    assert_eq!(actions.message.unwrap()[16], 2);
    assert!(!actions.close_handle);
}

#[test]
fn plain_session_request_then_drop_closes_the_handle_once() {
    let mut session = Session::from_handle(0x1234);
    let mut ctx = CommandContext::new_client(session.object_info);
    let mut msg: Vec<u8> = Vec::new();
    write_request_command_on_msg_buffer(&mut ctx, &mut msg, Some(3), DomainCommandType::SendMessage);
    let mut expected: Vec<u8> = vec![4, 0, 0, 0, 8, 0, 0, 0];
    expected.extend_from_slice(&[0u8; 8]);
    expected.extend_from_slice(&[0x53, 0x46, 0x43, 0x49, 0, 0, 0, 0, 3, 0, 0, 0, 0, 0, 0, 0]);
    expected.extend_from_slice(&[0u8; 8]);
    assert_eq!(msg, expected);
    assert_eq!(ctx.in_params.data_words_offset, 8);
    assert_eq!(ctx.in_params.data_offset, 32);

    let mut releases = 0;
    let mut commands = 0;
    for _ in 0..2 {
        let actions = session.close();
        if actions.message.is_some() {
            commands += 1;
        }
        if actions.close_handle {
            assert_eq!(actions.handle, 0x1234);
            releases += 1;
        }
    }
    assert_eq!(releases, 1);
    assert_eq!(commands, 1);
}

#[test]
fn converted_session_addresses_requests_to_its_object() {
    let mut session = Session::from_handle(0x1234);
    let mut request: Vec<u8> = Vec::new();
    assert!(session.convert_to_domain_request(&mut request).is_ok());
    let mut expected: Vec<u8> = vec![5, 0, 0, 0, 8, 0, 0, 0];
    expected.extend_from_slice(&[0u8; 8]);
    expected.extend_from_slice(&[0x53, 0x46, 0x43, 0x49, 0, 0, 0, 0, 0, 0, 0, 0, 0, 0, 0, 0]);
    expected.extend_from_slice(&[0u8; 8]);
    assert_eq!(request, expected);

    assert_eq!(session.convert_to_domain(Ok(domain_reply(0, 7))), Ok(()));
    assert_eq!(session.object_info.get_state(), ObjectState::Domain);
    assert_eq!(session.object_info.domain_object_id, 7);
    assert_eq!(session.object_info.handle, 0x1234);
    assert!(session.object_info.owns_handle);

    let mut ctx = CommandContext::new_client(session.object_info);
    let mut msg: Vec<u8> = Vec::new();
    write_request_command_on_msg_buffer(&mut ctx, &mut msg, Some(3), DomainCommandType::SendMessage);
    let mut expected: Vec<u8> = vec![4, 0, 0, 0, 12, 0, 0, 0];
    expected.extend_from_slice(&[0u8; 8]);
    expected.extend_from_slice(&[1, 0, 16, 0, 7, 0, 0, 0, 0, 0, 0, 0, 0, 0, 0, 0]);
    expected.extend_from_slice(&[0x53, 0x46, 0x43, 0x49, 0, 0, 0, 0, 3, 0, 0, 0, 0, 0, 0, 0]);
    expected.extend_from_slice(&[0u8; 8]);
    assert_eq!(msg, expected);
    assert_eq!(ctx.in_params.data_offset, 48);
    assert_eq!(ctx.in_params.objects_offset, 48);
}

#[test]
fn failed_conversion_leaves_the_session_as_it_was() {
    let mut session = Session::from_handle(0x1234);
    let before = session.object_info;

    let kernel_error = ResultCode::new(0xE401);
    assert_eq!(session.convert_to_domain(Err(kernel_error)), Err(kernel_error));
    assert_eq!(session.object_info, before);

    assert_eq!(session.convert_to_domain(Ok(domain_reply(0x1234, 7))), Err(ResultCode::new(0x1234)));
    assert_eq!(session.object_info, before);

    let mut bad_magic = domain_reply(0, 7);
    bad_magic[16] = 0;
    assert_eq!(session.convert_to_domain(Ok(bad_magic)), Err(ResultInvalidOutputHeader::make()));
    assert_eq!(session.object_info, before);

    assert_eq!(session.convert_to_domain(Ok(vec![0, 0, 0])), Err(ResultInvalidHeaderSize::make()));
    assert_eq!(session.object_info, before);

    let mut short = domain_reply(0, 7);
    short[4] = 6;
    short.truncate(32);
    assert_eq!(session.convert_to_domain(Ok(short)), Err(ResultInvalidHeaderSize::make()));
    assert_eq!(session.object_info, before);
    assert_eq!(session.object_info.get_state(), ObjectState::Plain);
}

#[test]
fn thin_protocol_has_no_domains() {
    let session = Session::from(ObjectInfo {
        handle: 0x77,
        domain_object_id: 0,
        owns_handle: true,
        protocol: CommandProtocol::Tipc,
    });
    let mut msg: Vec<u8> = vec![1, 2, 3];
    assert_eq!(session.convert_to_domain_request(&mut msg), Err(ResultInvalidProtocol::make()));
    assert_eq!(msg, vec![1, 2, 3]);
}

#[test]
fn conversion_reply_is_read_by_the_object_info() {
    let info = ObjectInfo::from_handle(1);
    assert_eq!(info.convert_current_object_to_domain_reply(&domain_reply(0, 0x0102_0304)), Ok(0x0102_0304));
    assert_eq!(
        info.convert_current_object_to_domain_reply(&domain_reply(5, 1)),
        Err(ResultCode::new(5))
    );
}

#[test]
fn reply_that_names_no_object_is_refused() {
    let mut session = Session::from_handle(0x1234);
    let before = session.object_info;
    assert_eq!(session.convert_to_domain(Ok(domain_reply(0, 0))), Err(ResultInvalidDomainObject::make()));
    assert_eq!(session.object_info, before);
    assert_eq!(session.object_info.get_state(), ObjectState::Plain);
    assert_eq!(
        before.convert_current_object_to_domain_reply(&domain_reply(0, 0)),
        Err(ResultInvalidDomainObject::make())
    );
    assert_eq!(ResultInvalidDomainObject::make().get_description(), 604);
}
