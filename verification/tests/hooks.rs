use nx::ipc::client::{RequestCommandParameter, ResponseCommandParameter};
use nx::ipc::rc::{ResultCopyHandlesFull, ResultMoveHandlesFull};
use nx::ipc::server;
use nx::ipc::server::ServerContext;
use nx::ipc::sf::nfp::{DebugCommand, SystemCommand, UserCommand, UserManagerCommand};
use nx::ipc::sf::{AppletResourceUserId, CopyHandle, MoveHandle, ProcessId};
use nx::ipc::{CommandContext, DataWalker, ObjectInfo};
use nx::result::ResultBase;
use nx::util::{ArrayString, ArrayWideString};

fn client() -> CommandContext {
    CommandContext::new_client(ObjectInfo::from_handle(0x1234))
}

#[test]
fn raw_values_are_arguments_in_declared_order() {
    let mut ctx = client();
    let mut plan = DataWalker::empty();
    assert!(u8::before_request_write(&1, &mut plan, &mut ctx).is_ok());
    assert!(u32::before_request_write(&2, &mut plan, &mut ctx).is_ok());
    assert!(bool::before_request_write(&true, &mut plan, &mut ctx).is_ok());
    assert!(u64::before_request_write(&3, &mut plan, &mut ctx).is_ok());
    assert_eq!(plan.get_offset(), 24);

    let mut msg: Vec<u8> = vec![0xEE; 28];
    let mut writer = DataWalker::new(4);
    assert!(u8::before_send_sync_request(&1, &mut writer, &mut ctx, &mut msg).is_ok());
    assert!(u32::before_send_sync_request(&2, &mut writer, &mut ctx, &mut msg).is_ok());
    assert!(bool::before_send_sync_request(&true, &mut writer, &mut ctx, &mut msg).is_ok());
    assert!(u64::before_send_sync_request(&3, &mut writer, &mut ctx, &mut msg).is_ok());
    assert_eq!(writer.get_offset(), 24);
    assert_eq!(
        msg,
        vec![
            0xEE, 0xEE, 0xEE, 0xEE, 1, 0xEE, 0xEE, 0xEE, 2, 0, 0, 0, 1, 0xEE, 0xEE, 0xEE, 0xEE,
            0xEE, 0xEE, 0xEE, 3, 0, 0, 0, 0, 0, 0, 0
        ]
    );

    let mut reader = DataWalker::new(4);
    assert_eq!(<u8 as ResponseCommandParameter<u8>>::after_response_read(&mut reader, &mut ctx, &msg), Ok(1));
    assert_eq!(<u32 as ResponseCommandParameter<u32>>::after_response_read(&mut reader, &mut ctx, &msg), Ok(2));
    assert_eq!(<bool as ResponseCommandParameter<bool>>::after_response_read(&mut reader, &mut ctx, &msg), Ok(true));
    assert_eq!(<u64 as ResponseCommandParameter<u64>>::after_response_read(&mut reader, &mut ctx, &msg), Ok(3));
    assert_eq!(reader.get_offset(), 24);
}

#[test]
fn raw_values_are_served_in_declared_order() {
    let ctx = CommandContext::new_server(ObjectInfo::from_handle(1), 0);
    let mut server_ctx = ServerContext::new(ctx, DataWalker::new(0), vec![7, 0, 0x34, 0x12, 9, 9, 9, 9]);
    assert_eq!(<u8 as server::RequestCommandParameter<u8>>::after_request_read(&mut server_ctx), Ok(7));
    assert_eq!(<u16 as server::RequestCommandParameter<u16>>::after_request_read(&mut server_ctx), Ok(0x1234));
    assert_eq!(server_ctx.raw_data_walker.get_offset(), 4);
    server_ctx.raw_data_walker.reset();
    assert!(<u16 as server::ResponseCommandParameter>::before_response_write(&5, &mut server_ctx).is_ok());
    assert!(<u32 as server::ResponseCommandParameter>::before_response_write(&6, &mut server_ctx).is_ok());
    assert_eq!(server_ctx.raw_data_walker.get_offset(), 8);
    server_ctx.raw_data_walker.reset();
    assert!(<u16 as server::ResponseCommandParameter>::after_response_write(5, (), &mut server_ctx).is_ok());
    assert!(<u32 as server::ResponseCommandParameter>::after_response_write(6, (), &mut server_ctx).is_ok());
    assert_eq!(server_ctx.msg, vec![5, 0, 0x34, 0x12, 6, 0, 0, 0]);
}

#[test]
fn handles_join_their_list_in_call_order() {
    let mut ctx = client();
    let mut walker = DataWalker::empty();
    assert!(CopyHandle::before_request_write(&CopyHandle::from(1), &mut walker, &mut ctx).is_ok());
    assert!(MoveHandle::before_request_write(&MoveHandle::from(2), &mut walker, &mut ctx).is_ok());
    assert!(CopyHandle::before_request_write(&CopyHandle::from(3), &mut walker, &mut ctx).is_ok());
    assert_eq!(walker.get_offset(), 0);
    assert_eq!(ctx.in_params.copy_handles, vec![1, 3]);
    assert_eq!(ctx.in_params.move_handles, vec![2]);
    let mut msg: Vec<u8> = vec![1, 2, 3];
    assert!(CopyHandle::before_send_sync_request(&CopyHandle::from(1), &mut walker, &mut ctx, &mut msg).is_ok());
    assert_eq!(msg, vec![1, 2, 3]);
    assert_eq!(walker.get_offset(), 0);
    for _ in 0..6 {
        assert!(CopyHandle::before_request_write(&CopyHandle::from(9), &mut walker, &mut ctx).is_ok());
    }
    assert_eq!(
        CopyHandle::before_request_write(&CopyHandle::from(9), &mut walker, &mut ctx),
        Err(ResultCopyHandlesFull::make())
    );
    assert_eq!(ctx.in_params.copy_handles.len(), 8);
    for _ in 0..7 {
        assert!(MoveHandle::before_request_write(&MoveHandle::from(9), &mut walker, &mut ctx).is_ok());
    }
    assert_eq!(
        MoveHandle::before_request_write(&MoveHandle::from(9), &mut walker, &mut ctx),
        Err(ResultMoveHandlesFull::make())
    );
}

#[test]
fn process_id_asks_the_kernel_to_fill_it_in() {
    let mut ctx = client();
    let mut plan = DataWalker::empty();
    plan.advance::<u8>();
    assert!(!ctx.in_params.send_process_id);
    assert!(ProcessId::before_request_write(&ProcessId::new(), &mut plan, &mut ctx).is_ok());
    assert!(ctx.in_params.send_process_id);
    assert_eq!(plan.get_offset(), 16);
    let mut msg: Vec<u8> = vec![0xEE; 16];
    let mut writer = DataWalker::new(0);
    writer.advance::<u8>();
    assert!(ProcessId::before_send_sync_request(&ProcessId::from(0x0102), &mut writer, &mut ctx, &mut msg).is_ok());
    assert_eq!(msg, vec![0xEE, 0xEE, 0xEE, 0xEE, 0xEE, 0xEE, 0xEE, 0xEE, 2, 1, 0, 0, 0, 0, 0, 0]);
}

#[test]
fn applet_resource_user_id_travels_and_asks_for_the_process_id() {
    let mut ctx = client();
    let mut plan = DataWalker::empty();
    let aruid = AppletResourceUserId::new(0x55);
    assert!(AppletResourceUserId::before_request_write(&aruid, &mut plan, &mut ctx).is_ok());
    assert!(ctx.in_params.send_process_id);
    assert_eq!(plan.get_offset(), 8);
    let mut msg: Vec<u8> = vec![0xEE; 12];
    let mut writer = DataWalker::new(4);
    assert!(AppletResourceUserId::before_send_sync_request(&aruid, &mut writer, &mut ctx, &mut msg).is_ok());
    assert_eq!(msg, vec![0xEE, 0xEE, 0xEE, 0xEE, 0x55, 0, 0, 0, 0, 0, 0, 0]);
    assert_eq!(writer.get_offset(), 8);
}

#[test]
fn array_string_is_cut_and_terminated() {
    assert_eq!(ArrayString::<8>::new().c_str, [0u8; 8]);
    assert_eq!(ArrayString::<8>::from_str("abc").c_str, *b"abc\0\0\0\0\0");
    assert_eq!(ArrayString::<4>::from_str("abcdef").c_str, *b"abc\0");
    assert_eq!(ArrayString::<4>::from_str("abc").c_str, *b"abc\0");
    assert_eq!(ArrayString::<1>::from_str("abc").c_str, *b"\0");
    assert_eq!(ArrayString::<8>::from_str("abc").len(), 3);
    assert_eq!(ArrayString::<8>::new().len(), 0);
    assert_eq!(ArrayString::<2> { c_str: *b"ab" }.len(), 2);
    assert_eq!(ArrayWideString::<3>::new().c_wstr, [0u16; 3]);
}

#[test]
fn commands_have_their_request_ids() {
    assert_eq!(UserCommand::Initialize.value(), 0);
    assert_eq!(UserCommand::RecreateApplicationArea.value(), 24);
    assert_eq!(UserCommand::from_value(13), Some(UserCommand::GetTagInfo));
    assert_eq!(UserCommand::from_value(25), None);
    assert_eq!(SystemCommand::Format.value(), 100);
    assert_eq!(SystemCommand::ExistsApplicationArea.value(), 106);
    assert_eq!(SystemCommand::from_value(7), None);
    assert_eq!(DebugCommand::WriteNtf.value(), 206);
    assert_eq!(DebugCommand::GetAll.value(), 200);
    assert_eq!(UserManagerCommand::CreateUserInterface.value(), 0);
    assert_eq!(UserCommand::AttachAvailabilityChangeEvent.since(), Some((3, 0, 0)));
    assert_eq!(UserCommand::Initialize.since(), None);
    assert_eq!(DebugCommand::RecreateApplicationArea.since(), Some((3, 0, 0)));
    assert_eq!(DebugCommand::BreakTag.since(), None);
}
