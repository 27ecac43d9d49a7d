use core::time::Duration;
use nx::ipc::client::{RequestCommandParameter, ResponseCommandParameter};
use nx::ipc::raw::{push_u16, push_u32, push_u64, read_u16, read_u32, read_u64, write_at, RawValue};
use nx::ipc::rc::ResultInvalidDuration;
use nx::ipc::server;
use nx::ipc::server::ServerContext;
use nx::ipc::sf::nfc::MifareCommand;
use nx::ipc::sf::EnumAsPrimitiveType;
use nx::ipc::{CommandContext, DataWalker, ObjectInfo};
use nx::result::ResultBase;

#[test]
fn little_endian_bytes_have_the_least_significant_first() {
    let mut out: Vec<u8> = vec![0xEE];
    push_u16(&mut out, 0x0102);
    push_u32(&mut out, 0x0304_0506);
    push_u64(&mut out, 0x0708_090A_0B0C_0D0E);
    assert_eq!(
        out,
        vec![0xEE, 2, 1, 6, 5, 4, 3, 0x0E, 0x0D, 0x0C, 0x0B, 0x0A, 9, 8, 7]
    );
    assert_eq!(read_u16(&out, 1), 0x0102);
    assert_eq!(read_u32(&out, 3), 0x0304_0506);
    assert_eq!(read_u64(&out, 7), 0x0708_090A_0B0C_0D0E);
    assert_eq!(u64::MAX.to_bytes(), vec![0xFF; 8]);
    assert_eq!(true.to_bytes(), vec![1]);
    assert_eq!(false.to_bytes(), vec![0]);
    assert!(bool::read_at(&vec![0, 2], 1));
    assert_eq!(u8::read_at(&vec![0, 2], 1), 2);
}

#[test]
fn write_at_replaces_only_its_range() {
    let mut buf: Vec<u8> = vec![1, 2, 3, 4, 5];
    write_at(&mut buf, 1, &vec![9, 8]);
    assert_eq!(buf, vec![1, 9, 8, 4, 5]);
    write_at(&mut buf, 5, &vec![]);
    assert_eq!(buf, vec![1, 9, 8, 4, 5]);
}

#[test]
fn cursor_aligns_each_value() {
    let mut walker = DataWalker::empty();
    walker.advance::<u8>();
    assert_eq!(walker.get_offset(), 1);
    walker.advance::<u32>();
    assert_eq!(walker.get_offset(), 8);
    walker.advance::<u16>();
    assert_eq!(walker.get_offset(), 10);
    walker.advance::<u64>();
    assert_eq!(walker.get_offset(), 24);
    walker.advance::<bool>();
    assert_eq!(walker.get_offset(), 25);
    walker.reset();
    assert_eq!(walker.get_offset(), 0);
    walker.reset_with(16);
    assert_eq!(walker.base, 16);
    assert_eq!(walker.get_offset(), 0);
}

#[test]
fn reader_sees_what_the_writer_wrote() {
    let mut plan = DataWalker::empty();
    plan.advance::<u8>();
    plan.advance::<u64>();
    plan.advance::<u16>();
    plan.advance::<u32>();

    let mut msg: Vec<u8> = vec![0xCC; 4 + plan.get_offset() + 4];
    let mut writer = DataWalker::new(4);
    writer.advance_set::<u8>(&mut msg, 0x11);
    writer.advance_set::<u64>(&mut msg, 0x2222_3333_4444_5555);
    writer.advance_set::<u16>(&mut msg, 0x6677);
    writer.advance_set::<u32>(&mut msg, 0x8899_AABB);
    assert_eq!(writer.get_offset(), plan.get_offset());
    assert_eq!(&msg[..4], &[0xCC; 4]);
    assert_eq!(&msg[msg.len() - 4..], &[0xCC; 4]);
    assert_eq!(msg[4], 0x11);
    assert_eq!(&msg[12..20], &0x2222_3333_4444_5555u64.to_le_bytes());

    let mut reader = DataWalker::new(4);
    assert_eq!(reader.advance_get::<u8>(&msg), 0x11);
    assert_eq!(reader.advance_get::<u64>(&msg), 0x2222_3333_4444_5555);
    assert_eq!(reader.advance_get::<u16>(&msg), 0x6677);
    assert_eq!(reader.advance_get::<u32>(&msg), 0x8899_AABB);
    assert_eq!(reader.get_offset(), plan.get_offset());
}

#[test]
fn duration_travels_as_seconds_and_nanoseconds() {
    let duration = Duration::new(5, 700);
    let mut ctx = CommandContext::new_client(ObjectInfo::from_handle(1));
    let mut plan = DataWalker::empty();
    plan.advance::<u8>();
    assert!(<Duration as RequestCommandParameter>::before_request_write(&duration, &mut plan, &mut ctx).is_ok());
    assert_eq!(plan.get_offset(), 24);

    let mut msg: Vec<u8> = vec![0xCC; 32];
    let mut writer = DataWalker::new(4);
    writer.advance::<u8>();
    assert!(<Duration as RequestCommandParameter>::before_send_sync_request(&duration, &mut writer, &mut ctx, &mut msg).is_ok());
    assert_eq!(writer.get_offset(), 24);
    let mut expected: Vec<u8> = vec![0xCC; 12];
    expected.extend_from_slice(&5u64.to_le_bytes());
    expected.extend_from_slice(&700u64.to_le_bytes());
    expected.extend_from_slice(&[0xCC; 4]);
    assert_eq!(msg, expected);
}

#[test]
fn duration_is_read_back_by_the_server() {
    let duration = Duration::new(1_000_000, 999_999_999);
    let mut client_ctx = CommandContext::new_client(ObjectInfo::from_handle(1));
    let mut msg: Vec<u8> = vec![0; 32];
    let mut writer = DataWalker::new(8);
    assert!(<Duration as RequestCommandParameter>::before_send_sync_request(&duration, &mut writer, &mut client_ctx, &mut msg).is_ok());
    assert_eq!(writer.get_offset(), 16);
    assert_eq!(&msg[8..16], &1_000_000u64.to_le_bytes());
    assert_eq!(&msg[16..24], &999_999_999u64.to_le_bytes());

    let ctx = CommandContext::new_server(ObjectInfo::from_handle(1), 0);
    let mut server_ctx = ServerContext::new(ctx, DataWalker::new(8), msg);
    let read = <Duration as server::RequestCommandParameter<Duration>>::after_request_read(&mut server_ctx);
    assert_eq!(read, Ok(duration));
    assert_eq!(server_ctx.raw_data_walker.get_offset(), 16);
}

#[test]
fn nanoseconds_beyond_a_second_are_carried() {
    let mut msg: Vec<u8> = Vec::new();
    msg.extend_from_slice(&3u64.to_le_bytes());
    msg.extend_from_slice(&(2_500_000_000u64 + (1u64 << 32)).to_le_bytes());
    let ctx = CommandContext::new_server(ObjectInfo::from_handle(1), 0);
    let mut server_ctx = ServerContext::new(ctx, DataWalker::new(0), msg);
    let read = <Duration as server::RequestCommandParameter<Duration>>::after_request_read(&mut server_ctx);
    assert_eq!(read, Ok(Duration::new(5, 500_000_000)));
}

#[test]
fn duration_that_does_not_fit_is_refused() {
    let mut msg: Vec<u8> = Vec::new();
    msg.extend_from_slice(&u64::MAX.to_le_bytes());
    msg.extend_from_slice(&1_000_000_000u64.to_le_bytes());
    let ctx = CommandContext::new_server(ObjectInfo::from_handle(1), 0);
    let mut server_ctx = ServerContext::new(ctx, DataWalker::new(0), msg);
    let read = <Duration as server::RequestCommandParameter<Duration>>::after_request_read(&mut server_ctx);
    assert_eq!(read, Err(ResultInvalidDuration::make()));
    assert_eq!(server_ctx.raw_data_walker.get_offset(), 16);

    let mut fits: Vec<u8> = Vec::new();
    fits.extend_from_slice(&u64::MAX.to_le_bytes());
    fits.extend_from_slice(&999_999_999u64.to_le_bytes());
    let ctx = CommandContext::new_server(ObjectInfo::from_handle(1), 0);
    let mut server_ctx = ServerContext::new(ctx, DataWalker::new(0), fits);
    let read = <Duration as server::RequestCommandParameter<Duration>>::after_request_read(&mut server_ctx);
    assert_eq!(read, Ok(Duration::new(u64::MAX, 999_999_999)));
}

#[test]
fn enum_travels_as_its_primitive() {
    type Wide = EnumAsPrimitiveType<MifareCommand, u32>;
    let mut wide = Wide::from_val(0x60);
    assert_eq!(wide.get_value(), 0x60);
    wide.set_value(0xC2);
    assert_eq!(wide.get_value(), 0xC2);

    let mut narrow = EnumAsPrimitiveType::<MifareCommand, u8>::from(MifareCommand::Read);
    assert_eq!(narrow.get_value(), 0x30);
    assert_eq!(narrow.get(), Some(MifareCommand::Read));
    narrow.set(MifareCommand::Increment);
    assert_eq!(narrow.get_value(), 0xC1);
    assert_eq!(narrow.get(), Some(MifareCommand::Increment));
    narrow.set_value(0x31);
    assert_eq!(narrow.get(), None);

    let mut ctx = CommandContext::new_client(ObjectInfo::from_handle(1));
    let mut plan = DataWalker::empty();
    plan.advance::<u8>();
    assert!(<Wide as RequestCommandParameter>::before_request_write(&wide, &mut plan, &mut ctx).is_ok());
    assert_eq!(plan.get_offset(), 8);

    let mut msg: Vec<u8> = vec![0; 12];
    let mut writer = DataWalker::new(0);
    writer.advance::<u8>();
    assert!(<Wide as RequestCommandParameter>::before_send_sync_request(&wide, &mut writer, &mut ctx, &mut msg).is_ok());
    assert_eq!(msg, vec![0, 0, 0, 0, 0xC2, 0, 0, 0, 0, 0, 0, 0]);

    let mut reader = DataWalker::new(0);
    reader.advance::<u8>();
    let read = <Wide as ResponseCommandParameter<Wide>>::after_response_read(&mut reader, &mut ctx, &msg);
    assert_eq!(read.ok().map(|w| w.get_value()), Some(0xC2));
    assert_eq!(reader.get_offset(), 8);
}

#[test]
fn enum_is_served_as_its_primitive() {
    type Wide = EnumAsPrimitiveType<MifareCommand, u16>;
    let ctx = CommandContext::new_server(ObjectInfo::from_handle(1), 0);
    let mut server_ctx = ServerContext::new(ctx, DataWalker::new(2), vec![0xAA, 0xBB, 0x61, 0x00, 0xCC, 0xDD]);
    let read = <Wide as server::RequestCommandParameter<Wide>>::after_request_read(&mut server_ctx);
    assert_eq!(read.ok().map(|w| w.get_value()), Some(0x61));
    assert_eq!(server_ctx.raw_data_walker.get_offset(), 2);

    let answer = Wide::from_val(0x0102);
    server_ctx.raw_data_walker.reset();
    let carry = <Wide as server::ResponseCommandParameter>::before_response_write(&answer, &mut server_ctx);
    assert!(carry.is_ok());
    assert_eq!(server_ctx.raw_data_walker.get_offset(), 2);
    assert_eq!(server_ctx.msg, vec![0xAA, 0xBB, 0x61, 0x00, 0xCC, 0xDD]);
    server_ctx.raw_data_walker.reset();
    assert!(<Wide as server::ResponseCommandParameter>::after_response_write(answer, (), &mut server_ctx).is_ok());
    assert_eq!(server_ctx.msg, vec![0xAA, 0xBB, 0x02, 0x01, 0xCC, 0xDD]);
}

#[test]
fn signed_values_travel_as_their_two_complement() {
    assert_eq!((-1i8).to_bytes(), vec![0xFF]);
    assert_eq!((-2i16).to_bytes(), vec![0xFE, 0xFF]);
    assert_eq!(i32::MIN.to_bytes(), vec![0, 0, 0, 0x80]);
    assert_eq!((-3i64).to_bytes(), vec![0xFD, 0xFF, 0xFF, 0xFF, 0xFF, 0xFF, 0xFF, 0xFF]);
    let mut msg: Vec<u8> = vec![0; 16];
    let mut writer = DataWalker::new(0);
    writer.advance_set::<i8>(&mut msg, -5);
    writer.advance_set::<i16>(&mut msg, -300);
    writer.advance_set::<i32>(&mut msg, -70_000);
    writer.advance_set::<i64>(&mut msg, i64::MIN + 1);
    assert_eq!(writer.get_offset(), 16);
    let mut reader = DataWalker::new(0);
    assert_eq!(reader.advance_get::<i8>(&msg), -5);
    assert_eq!(reader.advance_get::<i16>(&msg), -300);
    assert_eq!(reader.advance_get::<i32>(&msg), -70_000);
    assert_eq!(reader.advance_get::<i64>(&msg), i64::MIN + 1);
}
