use nx::ipc::cmif::client as cmif_client;
use nx::ipc::cmif::{CommandType, ControlRequestId, DomainCommandType};
use nx::ipc::message::{read_head, write_head};
use nx::ipc::rc::{
    ResultCopyHandlesFull, ResultDomainObjectsFull, ResultExchangeBuffersFull,
    ResultInvalidBufferAttributes, ResultMoveHandlesFull, ResultPointerSizesFull,
    ResultReceiveBuffersFull, ResultReceiveStaticsFull, ResultSendBuffersFull,
    ResultSendStaticsFull,
};
use nx::ipc::cmif::rc::{
    ResultInvalidHeaderSize, ResultInvalidOutObjectCount, ResultInvalidOutputHeader,
};
use nx::ipc::sf::{
    Buffer, CopyHandle, InAutoSelectBuffer, InFixedPointerBuffer, InMapAliasBuffer,
    InNonSecureMapAliasBuffer, InOutAutoSelectBuffer, InPointerBuffer, MoveHandle,
    OutAutoSelectBuffer, OutFixedPointerBuffer, OutMapAliasBuffer, OutPointerBuffer,
};
use nx::ipc::tipc::client as tipc_client;
use nx::ipc::{
    plan_buffer, BufferCaps, BufferDescriptor, BufferFlags, CommandContext, CommandOut,
    CommandProtocol, ObjectInfo, ReceiveStaticDescriptor, SendStaticDescriptor,
};
use nx::result::{ResultBase, ResultCode};

fn client() -> CommandContext {
    CommandContext::new_client(ObjectInfo::from_handle(0x1234))
}

#[test]
fn fresh_context_holds_nothing() {
    let ctx = client();
    assert_eq!(ctx.object_info, ObjectInfo::from_handle(0x1234));
    assert!(ctx.send_buffers.is_empty() && ctx.receive_buffers.is_empty());
    assert!(ctx.exchange_buffers.is_empty());
    assert!(ctx.send_statics.is_empty() && ctx.receive_statics.is_empty());
    assert!(ctx.in_params.copy_handles.is_empty() && ctx.in_params.move_handles.is_empty());
    assert!(!ctx.in_params.send_process_id);
    assert_eq!(ctx.pointer_buffer_size, 0);
    let server = CommandContext::new_server(ObjectInfo::from_handle(1), 0x400);
    assert_eq!(server.pointer_buffer_size, 0x400);
    assert!(server.send_buffers.is_empty());
}

#[test]
fn mapped_buffers_go_to_the_list_of_their_direction() {
    let mut ctx = client();
    let input = InMapAliasBuffer::<u8>::from_array(0x1000, &[1, 2, 3]);
    let output = OutMapAliasBuffer::<u32>::from_ptr(0x2000, vec![0; 4]);
    let non_secure = InNonSecureMapAliasBuffer::<u8>::from_array(0x3000, &[1]);
    let both = Buffer::<true, true, true, false, false, false, false, true, u8>::from_ptr(0x4000, vec![0; 2]);
    assert!(ctx.add_buffer(&input).is_ok());
    assert!(ctx.add_buffer(&output).is_ok());
    assert!(ctx.add_buffer(&non_secure).is_ok());
    assert!(ctx.add_buffer(&both).is_ok());
    assert_eq!(
        ctx.send_buffers,
        vec![
            BufferDescriptor { address: 0x1000, size: 3, flags: BufferFlags::Normal },
            BufferDescriptor { address: 0x3000, size: 1, flags: BufferFlags::NonSecure },
        ]
    );
    assert_eq!(
        ctx.receive_buffers,
        vec![BufferDescriptor { address: 0x2000, size: 16, flags: BufferFlags::Normal }]
    );
    assert_eq!(
        ctx.exchange_buffers,
        vec![BufferDescriptor { address: 0x4000, size: 2, flags: BufferFlags::NonDevice }]
    );
    assert!(ctx.send_statics.is_empty() && ctx.receive_statics.is_empty());
    assert!(ctx.in_params.out_pointer_sizes.is_empty());
}

#[test]
fn pointer_buffers_go_to_the_static_lists() {
    let mut ctx = client();
    let first = InPointerBuffer::<u8>::from_array(0x1000, &[1, 2, 3]);
    let second = InFixedPointerBuffer::<u16>::from_array(0x2000, &[1, 2]);
    let out = OutPointerBuffer::<u8>::from_ptr(0x3000, vec![0; 5]);
    let fixed_out = OutFixedPointerBuffer::<u8>::from_ptr(0x4000, vec![0; 6]);
    assert!(ctx.add_buffer(&first).is_ok());
    assert!(ctx.add_buffer(&second).is_ok());
    assert!(ctx.add_buffer(&out).is_ok());
    assert!(ctx.add_buffer(&fixed_out).is_ok());
    assert_eq!(
        ctx.send_statics,
        vec![
            SendStaticDescriptor { address: 0x1000, size: 3, index: 0 },
            SendStaticDescriptor { address: 0x2000, size: 4, index: 1 },
        ]
    );
    assert_eq!(
        ctx.receive_statics,
        vec![
            ReceiveStaticDescriptor { address: 0x3000, size: 5 },
            ReceiveStaticDescriptor { address: 0x4000, size: 6 },
        ]
    );
    assert_eq!(ctx.in_params.out_pointer_sizes, vec![5]);
    assert!(ctx.send_buffers.is_empty() && ctx.receive_buffers.is_empty());
}

#[test]
fn auto_select_without_a_pointer_buffer_is_mapped() {
    let mut ctx = client();
    let input = InAutoSelectBuffer::<u8>::from_array(0x1000, &[1, 2, 3]);
    let output = OutAutoSelectBuffer::<u8>::from_ptr(0x2000, vec![0; 4]);
    assert!(ctx.add_buffer(&input).is_ok());
    assert!(ctx.add_buffer(&output).is_ok());
    assert_eq!(
        ctx.send_buffers,
        vec![BufferDescriptor { address: 0x1000, size: 3, flags: BufferFlags::Normal }]
    );
    assert_eq!(ctx.send_statics, vec![SendStaticDescriptor { address: 0, size: 0, index: 0 }]);
    assert_eq!(
        ctx.receive_buffers,
        vec![BufferDescriptor { address: 0x2000, size: 4, flags: BufferFlags::Normal }]
    );
    assert_eq!(ctx.receive_statics, vec![ReceiveStaticDescriptor { address: 0, size: 0 }]);
    assert_eq!(ctx.in_params.out_pointer_sizes, vec![0]);
    assert_eq!(ctx.in_pointer_buffer_offset, 0);
}

#[test]
fn auto_select_that_fits_the_pointer_buffer_is_copied() {
    let mut ctx = client();
    ctx.pointer_buffer_size = 8;
    let small = InAutoSelectBuffer::<u8>::from_array(0x1000, &[1, 2, 3, 4, 5]);
    let next = InOutAutoSelectBuffer::<u8>::from_ptr(0x2000, vec![0; 3]);
    let large = InAutoSelectBuffer::<u8>::from_array(0x3000, &[1]);
    assert!(ctx.add_buffer(&small).is_ok());
    assert_eq!(ctx.in_pointer_buffer_offset, 5);
    assert!(ctx.add_buffer(&next).is_ok());
    assert_eq!(ctx.in_pointer_buffer_offset, 8);
    assert!(ctx.add_buffer(&large).is_ok());
    assert_eq!(ctx.in_pointer_buffer_offset, 8);
    let empty = BufferDescriptor { address: 0, size: 0, flags: BufferFlags::Normal };
    assert_eq!(
        ctx.send_buffers,
        vec![
            empty,
            empty,
            BufferDescriptor { address: 0x3000, size: 1, flags: BufferFlags::Normal }
        ]
    );
    assert_eq!(
        ctx.send_statics,
        vec![
            SendStaticDescriptor { address: 0x1000, size: 5, index: 0 },
            SendStaticDescriptor { address: 0x2000, size: 3, index: 1 },
            SendStaticDescriptor { address: 0, size: 0, index: 2 },
        ]
    );
    assert_eq!(ctx.receive_buffers, vec![empty]);
    assert_eq!(ctx.receive_statics, vec![ReceiveStaticDescriptor { address: 0x2000, size: 3 }]);
    assert_eq!(ctx.in_params.out_pointer_sizes, vec![3]);
}

#[test]
fn buffer_without_a_mode_or_a_direction_is_refused() {
    let mut ctx = client();
    let no_mode = Buffer::<true, false, false, false, false, false, false, false, u8>::from_ptr(0x1000, vec![1]);
    let no_direction = Buffer::<false, false, true, false, false, false, false, false, u8>::from_ptr(0x1000, vec![1]);
    assert_eq!(ctx.add_buffer(&no_mode), Err(ResultInvalidBufferAttributes::make()));
    assert_eq!(ctx.add_buffer(&no_direction), Err(ResultInvalidBufferAttributes::make()));
    assert!(ctx.send_buffers.is_empty());
    let caps = BufferCaps {
        is_in: false,
        is_out: false,
        map_alias: false,
        pointer: true,
        fixed_size: false,
        auto_select: false,
        allow_non_secure: false,
        allow_non_device: false,
    };
    let plan = plan_buffer(caps, 0x1000, 4, 0, 0).unwrap();
    assert!(plan.send_static.is_none() && plan.receive_static.is_none());
    assert!(plan.out_pointer_size.is_none());
}

#[test]
fn ninth_entry_of_a_list_is_refused_and_changes_nothing() {
    let mut ctx = client();
    let input = InMapAliasBuffer::<u8>::from_array(0x1000, &[1]);
    let output = OutMapAliasBuffer::<u8>::from_ptr(0x1000, vec![1]);
    let exchange = Buffer::<true, true, true, false, false, false, false, false, u8>::from_ptr(0x1000, vec![1]);
    let send_static = InPointerBuffer::<u8>::from_array(0x1000, &[1]);
    let receive_static = OutFixedPointerBuffer::<u8>::from_ptr(0x1000, vec![1]);
    for _ in 0..8 {
        assert!(ctx.add_buffer(&input).is_ok());
        assert!(ctx.add_buffer(&output).is_ok());
        assert!(ctx.add_buffer(&exchange).is_ok());
        assert!(ctx.add_buffer(&send_static).is_ok());
        assert!(ctx.add_buffer(&receive_static).is_ok());
    }
    assert_eq!(ctx.add_buffer(&input), Err(ResultSendBuffersFull::make()));
    assert_eq!(ctx.add_buffer(&output), Err(ResultReceiveBuffersFull::make()));
    assert_eq!(ctx.add_buffer(&exchange), Err(ResultExchangeBuffersFull::make()));
    assert_eq!(ctx.add_buffer(&send_static), Err(ResultSendStaticsFull::make()));
    assert_eq!(ctx.add_buffer(&receive_static), Err(ResultReceiveStaticsFull::make()));
    assert_eq!(ctx.send_buffers.len(), 8);
    assert_eq!(ctx.receive_statics.len(), 8);
    assert_eq!(ctx.send_statics[7].index, 7);
}

#[test]
fn full_pointer_sizes_refuse_the_whole_buffer() {
    let mut ctx = client();
    for size in 0..8u16 {
        assert!(ctx.in_params.add_out_pointer_size(size).is_ok());
    }
    assert_eq!(ctx.in_params.add_out_pointer_size(9), Err(ResultPointerSizesFull::make()));
    let out = OutPointerBuffer::<u8>::from_ptr(0x3000, vec![0; 5]);
    assert_eq!(ctx.add_buffer(&out), Err(ResultPointerSizesFull::make()));
    assert!(ctx.receive_statics.is_empty());
    assert_eq!(ctx.in_params.out_pointer_sizes, vec![0, 1, 2, 3, 4, 5, 6, 7]);
}

#[test]
fn handles_keep_their_kind_and_order() {
    let mut ctx = client();
    assert!(ctx.in_params.add_handle(CopyHandle::from(1)).is_ok());
    assert!(ctx.in_params.add_handle(MoveHandle::from(2)).is_ok());
    assert!(ctx.in_params.add_copy_handle(3).is_ok());
    assert!(ctx.in_params.add_move_handle(4).is_ok());
    assert!(ctx.in_params.add_domain_object(5).is_ok());
    assert_eq!(ctx.in_params.copy_handles, vec![1, 3]);
    assert_eq!(ctx.in_params.move_handles, vec![2, 4]);
    assert_eq!(ctx.in_params.objects, vec![5]);
    for _ in 0..6 {
        assert!(ctx.in_params.add_copy_handle(9).is_ok());
        assert!(ctx.in_params.add_move_handle(9).is_ok());
    }
    assert_eq!(ctx.in_params.add_handle(CopyHandle::from(1)), Err(ResultCopyHandlesFull::make()));
    assert_eq!(ctx.in_params.add_handle(MoveHandle::from(1)), Err(ResultMoveHandlesFull::make()));
    for _ in 0..7 {
        assert!(ctx.in_params.add_domain_object(6).is_ok());
    }
    assert_eq!(ctx.in_params.add_domain_object(7), Err(ResultDomainObjectsFull::make()));
    assert_eq!(ctx.in_params.objects.len(), 8);
}

#[test]
fn descriptors_split_addresses_and_sizes_over_their_words() {
    let mut out: Vec<u8> = Vec::new();
    BufferDescriptor::new(0x0000_00AB_1234_5678, 0x3_0000_0010, BufferFlags::NonDevice).write(&mut out);
    let words: Vec<u32> = out.chunks(4).map(|c| u32::from_le_bytes([c[0], c[1], c[2], c[3]])).collect();
    assert_eq!(words, vec![0x0000_0010, 0x1234_5678, 3 | (0xA << 2) | (3 << 24) | (0xB << 28)]);

    let mut out: Vec<u8> = Vec::new();
    SendStaticDescriptor::new(0x0000_00AB_1234_5678, 0x1_0020, 5).write(&mut out);
    let words: Vec<u32> = out.chunks(4).map(|c| u32::from_le_bytes([c[0], c[1], c[2], c[3]])).collect();
    assert_eq!(words, vec![5 | (0xA << 6) | (0xB << 12) | (0x20 << 16), 0x1234_5678]);

    let mut out: Vec<u8> = Vec::new();
    ReceiveStaticDescriptor::new(0x0000_BEEF_1234_5678, 0x40).write(&mut out);
    let words: Vec<u32> = out.chunks(4).map(|c| u32::from_le_bytes([c[0], c[1], c[2], c[3]])).collect();
    assert_eq!(words, vec![0x1234_5678, 0xBEEF | (0x40 << 16)]);
    assert_eq!(BufferFlags::Invalid.value(), 2);
}

fn words_of(msg: &[u8]) -> Vec<u32> {
    assert_eq!(msg.len() % 4, 0);
    msg.chunks(4).map(|c| u32::from_le_bytes([c[0], c[1], c[2], c[3]])).collect()
}

#[test]
fn request_lists_handles_and_descriptors_in_call_order() {
    let mut ctx = client();
    ctx.in_params.send_process_id = true;
    ctx.in_params.add_copy_handle(0xC1).unwrap();
    ctx.in_params.add_copy_handle(0xC2).unwrap();
    ctx.in_params.add_move_handle(0xD1).unwrap();
    ctx.add_buffer(&InPointerBuffer::<u8>::from_array(0x1000, &[1, 2, 3])).unwrap();
    ctx.add_buffer(&InMapAliasBuffer::<u8>::from_array(0x2000, &[1, 2])).unwrap();
    ctx.add_buffer(&OutMapAliasBuffer::<u8>::from_ptr(0x3000, vec![0; 4])).unwrap();
    ctx.add_buffer(&OutPointerBuffer::<u8>::from_ptr(0x4000, vec![0; 6])).unwrap();
    ctx.in_params.data_size = 6;
    let mut msg: Vec<u8> = vec![0xFF; 3];
    cmif_client::write_request_command_on_msg_buffer(&mut ctx, &mut msg, Some(0x2A), DomainCommandType::SendMessage);
    let words = words_of(&msg);
    let data_words = (16 + 16 + 6 + 2 + 3) / 4;
    assert_eq!(words[0], 4 | (1 << 16) | (1 << 20) | (1 << 24));
    assert_eq!(words[1], data_words | (3 << 10) | (1 << 31));
    assert_eq!(words[2], 1 | (2 << 1) | (1 << 5));
    assert_eq!(&words[3..5], &[0, 0]);
    assert_eq!(&words[5..8], &[0xC1, 0xC2, 0xD1]);
    assert_eq!(&words[8..10], &[3 << 16, 0x1000]);
    assert_eq!(&words[10..13], &[2, 0x2000, 0]);
    assert_eq!(&words[13..16], &[4, 0x3000, 0]);
    assert_eq!(ctx.in_params.data_words_offset, 64);
    assert_eq!(ctx.in_params.data_offset, 80);
    assert_eq!(&words[16..20], &[0x49434653, 0, 0x2A, 0]);
    assert_eq!(&msg[80..86], &[0; 6]);
    assert_eq!(&msg[64 + 38..64 + 40], &[6, 0]);
    let end = 64 + 4 * data_words as usize;
    assert_eq!(&words[end / 4..], &[0x4000, 6 << 16]);
    assert_eq!(msg.len(), end + 8);
}

#[test]
fn domain_request_carries_the_object_ids_after_the_arguments() {
    let mut ctx = CommandContext::new_client(ObjectInfo::from_domain_object_id(0x55, 9));
    ctx.in_params.add_domain_object(0x21).unwrap();
    ctx.in_params.add_domain_object(0x22).unwrap();
    ctx.in_params.data_size = 4;
    let mut msg: Vec<u8> = Vec::new();
    cmif_client::write_request_command_on_msg_buffer(&mut ctx, &mut msg, Some(1), DomainCommandType::SendMessage);
    let words = words_of(&msg);
    assert_eq!(words[0], 4);
    assert_eq!(words[1], (16 + 16 + 16 + 4 + 8) / 4);
    assert_eq!(&msg[16..20], &[1, 2, 20, 0]);
    assert_eq!(words[5], 9);
    assert_eq!(&words[8..12], &[0x49434653, 0, 1, 0]);
    assert_eq!(ctx.in_params.data_offset, 48);
    assert_eq!(ctx.in_params.objects_offset, 52);
    assert_eq!(&words[13..15], &[0x21, 0x22]);
    assert_eq!(msg.len(), 8 + 60);
}

#[test]
fn bare_commands_have_zeroed_data_words() {
    let mut ctx = client();
    ctx.add_buffer(&OutFixedPointerBuffer::<u8>::from_ptr(0x4000, vec![0; 6])).unwrap();
    let mut msg: Vec<u8> = Vec::new();
    cmif_client::write_command_on_msg_buffer(&mut ctx, &mut msg, CommandType::LegacyRequest, 5);
    assert_eq!(words_of(&msg), vec![1, 2 | (3 << 10), 0, 0, 0x4000, 6 << 16]);
    assert_eq!(ctx.in_params.data_words_offset, 8);
    cmif_client::write_close_command_on_msg_buffer(&mut ctx, &mut msg);
    assert_eq!(words_of(&msg), vec![2, 3 << 10, 0x4000, 6 << 16]);
    assert_eq!(CommandType::ControlWithContext.value(), 7);
    assert_eq!(DomainCommandType::Close.value(), 2);
}

#[test]
fn control_request_has_a_data_header_and_no_domain_header() {
    let mut ctx = CommandContext::new_client(ObjectInfo::from_domain_object_id(0x55, 9));
    ctx.in_params.data_size = 4;
    let mut msg: Vec<u8> = Vec::new();
    cmif_client::write_control_command_on_msg_buffer(&mut ctx, &mut msg, ControlRequestId::CloneCurrentObjectEx);
    assert_eq!(
        words_of(&msg),
        vec![5, 9, 0, 0, 0x49434653, 0, 4, 0, 0, 0, 0]
    );
    assert_eq!(ctx.in_params.data_offset, 32);
    assert_eq!(ControlRequestId::QueryPointerBufferSize.value(), 3);
}

#[test]
fn thin_protocol_puts_the_request_id_in_the_command_type() {
    let mut ctx = CommandContext::new_client(ObjectInfo {
        handle: 1,
        domain_object_id: 0,
        owns_handle: true,
        protocol: CommandProtocol::Tipc,
    });
    ctx.add_buffer(&InPointerBuffer::<u8>::from_array(0x1000, &[1, 2, 3])).unwrap();
    ctx.add_buffer(&InMapAliasBuffer::<u8>::from_array(0x2000, &[1, 2])).unwrap();
    ctx.in_params.data_size = 5;
    let mut msg: Vec<u8> = Vec::new();
    tipc_client::write_request_command_on_msg_buffer(&mut ctx, &mut msg, 7);
    assert_eq!(words_of(&msg), vec![23 | (1 << 20), 2, 2, 0x2000, 0, 0, 0]);
    assert_eq!(ctx.in_params.data_words_offset, 20);
    assert_eq!(ctx.in_params.data_offset, 20);
    tipc_client::write_close_command_on_msg_buffer(&mut ctx, &mut msg);
    assert_eq!(words_of(&msg), vec![15 | (1 << 20), 0, 2, 0x2000, 0]);
    tipc_client::write_command_on_msg_buffer(&mut ctx, &mut msg, 16, 0);
    assert_eq!(words_of(&msg)[0], 16 | (1 << 20));
}

#[test]
fn head_of_a_received_message_is_read() {
    let mut msg: Vec<u8> = Vec::new();
    for word in [
        (1u32 << 16) | (1 << 20),
        3 | (1 << 31),
        1 | (2 << 1) | (1 << 5),
        0x1122_3344,
        0x5566_7788,
        0xC1,
        0xC2,
        0xD1,
        0,
        0,
        0,
        0,
        0,
        0xAAAA_AAAA,
        0xBBBB_BBBB,
        0xCCCC_CCCC,
    ] {
        msg.extend_from_slice(&word.to_le_bytes());
    }
    let mut out = CommandOut::empty();
    assert_eq!(read_head(&mut out, &msg), Ok(0));
    assert!(out.send_process_id);
    assert_eq!(out.process_id, 0x5566_7788_1122_3344);
    assert_eq!(out.copy_handles, vec![0xC1, 0xC2]);
    assert_eq!(out.move_handles, vec![0xD1]);
    assert_eq!(out.data_words_offset, 52);
    assert_eq!(out.data_size, 12);

    msg.truncate(60);
    let mut short = CommandOut::empty();
    assert_eq!(read_head(&mut short, &msg), Err(ResultInvalidHeaderSize::make()));
    assert!(short.copy_handles.is_empty());
    assert_eq!(read_head(&mut short, &vec![0; 7]), Err(ResultInvalidHeaderSize::make()));
    let mut plain = CommandOut::empty();
    assert_eq!(read_head(&mut plain, &vec![5, 0, 0, 0, 0, 0, 0, 0]), Ok(5));
    assert_eq!(plain.data_words_offset, 8);
    assert!(!plain.send_process_id);
}

#[test]
fn control_response_is_read() {
    let mut ctx = client();
    let mut msg: Vec<u8> = Vec::new();
    for word in [0u32, 10, 0, 0, 0x4F434653, 0, 0, 0, 0x400, 0, 0, 0] {
        msg.extend_from_slice(&word.to_le_bytes());
    }
    assert_eq!(cmif_client::read_control_command_response_from_msg_buffer(&mut ctx, &msg), Ok(()));
    assert_eq!(ctx.out_params.data_offset, 32);
    assert_eq!(ctx.out_params.data_size, 16);
    assert_eq!(ctx.out_params.data_words_offset, 8);
}

fn message(words: &[u32]) -> Vec<u8> {
    let mut msg: Vec<u8> = Vec::new();
    for word in words {
        msg.extend_from_slice(&word.to_le_bytes());
    }
    msg
}

#[test]
fn request_response_is_read() {
    let mut ctx = client();
    ctx.out_params.data_size = 8;
    let msg = message(&[0, 10, 0, 0, 0x4F434653, 0, 0, 0, 0x11, 0x22, 0, 0]);
    assert_eq!(cmif_client::read_request_command_response_from_msg_buffer(&mut ctx, &msg), Ok(()));
    assert_eq!(ctx.out_params.data_offset, 32);
    assert_eq!(ctx.out_params.data_size, 8);
    assert_eq!(ctx.out_params.data_words_offset, 8);
    assert!(ctx.out_params.objects.is_empty());
    assert!(ctx.out_params.copy_handles.is_empty());
}

#[test]
fn request_response_carries_handles() {
    let mut ctx = client();
    ctx.out_params.data_size = 0;
    let msg = message(&[0, 8 | (1 << 31), (1 << 1) | (2 << 5), 0xC1, 0xD1, 0xD2, 0, 0, 0x4F434653, 0, 0, 0, 0, 0]);
    assert_eq!(cmif_client::read_request_command_response_from_msg_buffer(&mut ctx, &msg), Ok(()));
    assert_eq!(ctx.out_params.copy_handles, vec![0xC1]);
    assert_eq!(ctx.out_params.move_handles, vec![0xD1, 0xD2]);
    assert_eq!(ctx.out_params.data_words_offset, 24);
    assert_eq!(ctx.out_params.data_offset, 48);
}

#[test]
fn domain_response_carries_object_ids() {
    let mut ctx = CommandContext::new_client(ObjectInfo::from_domain_object_id(0x55, 9));
    ctx.out_params.data_size = 4;
    let msg = message(&[0, 15, 0, 0, 2, 0, 0, 0, 0x4F434653, 0, 0, 0, 0x99, 0x31, 0x32, 0, 0]);
    assert_eq!(cmif_client::read_request_command_response_from_msg_buffer(&mut ctx, &msg), Ok(()));
    assert_eq!(ctx.out_params.data_offset, 48);
    assert_eq!(ctx.out_params.objects, vec![0x31, 0x32]);

    let mut many = CommandContext::new_client(ObjectInfo::from_domain_object_id(0x55, 9));
    let msg = message(&[0, 15, 0, 0, 9, 0, 0, 0, 0x4F434653, 0, 0, 0, 0x99, 0x31, 0x32, 0, 0]);
    assert_eq!(
        cmif_client::read_request_command_response_from_msg_buffer(&mut many, &msg),
        Err(ResultInvalidOutObjectCount::make())
    );
    assert!(many.out_params.objects.is_empty());

    let mut short = CommandContext::new_client(ObjectInfo::from_domain_object_id(0x55, 9));
    short.out_params.data_size = 4;
    let msg = message(&[0, 12, 0, 0, 2, 0, 0, 0, 0x4F434653, 0, 0, 0, 0x99, 0x31]);
    assert_eq!(
        cmif_client::read_request_command_response_from_msg_buffer(&mut short, &msg),
        Err(ResultInvalidHeaderSize::make())
    );
}

#[test]
fn failed_request_response_changes_nothing() {
    let mut ctx = client();
    ctx.out_params.data_size = 4;
    ctx.out_params.data_offset = 77;
    let failed = message(&[0, 9 | (1 << 31), 1 << 1, 0xC1, 0x4F434653, 0, 0xE401, 0, 0, 0, 0, 0, 0]);
    assert_eq!(
        cmif_client::read_request_command_response_from_msg_buffer(&mut ctx, &failed),
        Err(ResultCode::new(0xE401))
    );
    assert_eq!(ctx.out_params.data_offset, 77);
    assert!(ctx.out_params.copy_handles.is_empty());
    let bad_magic = message(&[0, 10, 0, 0, 0x49434653, 0, 0, 0, 0, 0, 0, 0]);
    assert_eq!(
        cmif_client::read_request_command_response_from_msg_buffer(&mut ctx, &bad_magic),
        Err(ResultInvalidOutputHeader::make())
    );
    let too_small = message(&[0, 6, 0, 0, 0x4F434653, 0, 0, 0]);
    assert_eq!(
        cmif_client::read_request_command_response_from_msg_buffer(&mut ctx, &too_small),
        Err(ResultInvalidHeaderSize::make())
    );
    assert_eq!(
        cmif_client::read_control_command_response_from_msg_buffer(&mut ctx, &failed),
        Err(ResultCode::new(0xE401))
    );
    assert_eq!(ctx.out_params.data_offset, 77);
}

#[test]
fn thin_response_starts_with_its_result() {
    let mut ctx = client();
    let msg = message(&[16, 3, 0, 0x11, 0x22]);
    assert_eq!(tipc_client::read_request_command_response_from_msg_buffer(&mut ctx, &msg), Ok(()));
    assert_eq!(ctx.out_params.data_words_offset, 8);
    assert_eq!(ctx.out_params.data_offset, 12);
    assert_eq!(ctx.out_params.data_size, 8);

    let mut failed = client();
    let msg = message(&[16, 1, 0xE401]);
    assert_eq!(
        tipc_client::read_request_command_response_from_msg_buffer(&mut failed, &msg),
        Err(ResultCode::new(0xE401))
    );
    assert_eq!(failed.out_params.data_offset, 0);
    let msg = message(&[16, 0]);
    assert_eq!(
        tipc_client::read_request_command_response_from_msg_buffer(&mut failed, &msg),
        Err(ResultInvalidHeaderSize::make())
    );
}

#[test]
fn written_head_is_read_back() {
    let mut ctx = client();
    ctx.in_params.send_process_id = true;
    ctx.in_params.add_copy_handle(0xC1).unwrap();
    ctx.in_params.add_move_handle(0xD1).unwrap();
    ctx.in_params.add_move_handle(0xD2).unwrap();
    ctx.add_buffer(&InPointerBuffer::<u8>::from_array(0x1000, &[1, 2, 3])).unwrap();
    ctx.add_buffer(&InMapAliasBuffer::<u8>::from_array(0x2000, &[1, 2])).unwrap();
    ctx.add_buffer(&OutMapAliasBuffer::<u8>::from_ptr(0x3000, vec![0; 4])).unwrap();
    let mut msg: Vec<u8> = Vec::new();
    write_head(&ctx, &mut msg, 0x1234, 3, true);
    let head_len = msg.len();
    assert_eq!(head_len, 8 + 4 + 8 + 12 + 8 + 24);
    msg.extend_from_slice(&[0xAB; 12]);
    let mut out = CommandOut::empty();
    assert_eq!(read_head(&mut out, &msg), Ok(0x1234));
    assert!(out.send_process_id);
    assert_eq!(out.process_id, 0);
    assert_eq!(out.copy_handles, vec![0xC1]);
    assert_eq!(out.move_handles, vec![0xD1, 0xD2]);
    assert_eq!(out.data_words_offset, head_len);
    assert_eq!(out.data_size, 12);

    let mut thin: Vec<u8> = Vec::new();
    write_head(&ctx, &mut thin, 16, 0, false);
    assert_eq!(thin.len(), head_len - 8);
    let mut out = CommandOut::empty();
    assert_eq!(read_head(&mut out, &thin), Ok(16));
    assert_eq!(out.data_words_offset, thin.len());
    assert_eq!(out.copy_handles, vec![0xC1]);
}
