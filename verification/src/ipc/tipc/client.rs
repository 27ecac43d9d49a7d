//! The client's side of the secondary protocol: writing requests.

use crate::ipc::cmif::rc::ResultInvalidHeaderSize;
use crate::ipc::message::{
    head_len, head_section, lemma_head_len, read_head, received_head, word_at, write_head,
    MSG_BUFFER_SIZE,
};
use crate::ipc::raw::{push_zeros, read_u32, zeros};
use crate::result::{code_of, ResultBase, ResultCode};
use crate::ipc::tipc::{CommandType, REQUEST_BASE};
use crate::ipc::{CommandContext, CommandIn, CommandOut};
use vstd::prelude::*;

verus! {

/// The number of 32-bit words that take `bytes` bytes.
pub open spec fn words_for(bytes: nat) -> nat {
    (bytes + 3) / 4
}

/// The message of a command of `ctx`: the head, without send statics, and
/// `data_size` bytes of zeroed data rounded up to whole words.
pub open spec fn command_message(ctx: &CommandContext, command_type: u32, data_size: u32) -> Seq<
    u8,
> {
    head_section(ctx, command_type, words_for(data_size as nat) as u32, false) + zeros(
        4 * words_for(data_size as nat),
    )
}

/// Writes the message of a command of `ctx` into `msg`, and notes in `ctx`
/// where the data words start.
#[verifier::rlimit(50)]
pub fn write_command_on_msg_buffer(
    ctx: &mut CommandContext,
    msg: &mut Vec<u8>,
    command_type: u32,
    data_size: u32,
)
    requires
        old(ctx).wf(),
        data_size <= MSG_BUFFER_SIZE,
    ensures
        final(msg)@ == command_message(old(ctx), command_type, data_size),
        final(msg)@.len() == head_len(old(ctx), false) + 4 * words_for(data_size as nat),
        *final(ctx) == (CommandContext {
            in_params: CommandIn {
                data_words_offset: head_len(old(ctx), false) as usize,
                ..old(ctx).in_params
            },
            ..*old(ctx)
        }),
{
    let words: u32 = (data_size + 3) / 4;
    write_head(ctx, msg, command_type, words, false);
    proof {
        lemma_head_len(ctx, command_type, words, false);
    }
    ctx.in_params.data_words_offset = msg.len();
    push_zeros(msg, 4 * (words as usize));
}

/// Writes the message of the request `request_id` of `ctx` into `msg`. The
/// raw arguments start with the data words; they are zero, to be written by
/// a cursor.
#[verifier::rlimit(50)]
pub fn write_request_command_on_msg_buffer(
    ctx: &mut CommandContext,
    msg: &mut Vec<u8>,
    request_id: u32,
)
    requires
        old(ctx).wf(),
        old(ctx).in_params.data_size <= MSG_BUFFER_SIZE,
        request_id + REQUEST_BASE <= u32::MAX,
    ensures
        final(msg)@ == command_message(
            old(ctx),
            (request_id + REQUEST_BASE) as u32,
            old(ctx).in_params.data_size,
        ),
        *final(ctx) == (CommandContext {
            in_params: CommandIn {
                data_words_offset: head_len(old(ctx), false) as usize,
                data_offset: head_len(old(ctx), false) as usize,
                ..old(ctx).in_params
            },
            ..*old(ctx)
        }),
        head_len(old(ctx), false) + old(ctx).in_params.data_size <= final(msg)@.len(),
{
    let data_size = ctx.in_params.data_size;
    write_command_on_msg_buffer(ctx, msg, request_id + REQUEST_BASE, data_size);
    ctx.in_params.data_offset = ctx.in_params.data_words_offset;
}

/// Writes the message that closes the session of `ctx` into `msg`.
pub fn write_close_command_on_msg_buffer(ctx: &mut CommandContext, msg: &mut Vec<u8>)
    requires
        old(ctx).wf(),
    ensures
        final(msg)@ == command_message(old(ctx), CommandType::CloseSession.spec_value(), 0),
        *final(ctx) == (CommandContext {
            in_params: CommandIn {
                data_words_offset: head_len(old(ctx), false) as usize,
                ..old(ctx).in_params
            },
            ..*old(ctx)
        }),
{
    write_command_on_msg_buffer(ctx, msg, CommandType::CloseSession.value(), 0);
}

/// What a response to a request says: where its raw results start, or the
/// error that it carries or that its form amounts to. The result stands in
/// the first data word, and the raw results follow it.
///
/// A message too short for its head, or without a data word, is
/// `ResultInvalidHeaderSize`. A result other than zero is that result.
pub open spec fn request_response(msg: Seq<u8>) -> Result<nat, ResultCode> {
    match received_head(msg) {
        None => Err(code_of::<ResultInvalidHeaderSize>()),
        Some(head) => if head.data_words == 0 {
            Err(code_of::<ResultInvalidHeaderSize>())
        } else if word_at(msg, head.data_words_offset as int) != 0 {
            Err(ResultCode { value: word_at(msg, head.data_words_offset as int) })
        } else {
            Ok(head.data_words_offset + 4)
        },
    }
}

/// Reads the response to a request from `msg`: notes in `ctx` the process
/// id and the handles that came, and where the raw results stand and how
/// many bytes they take. Fails as `request_response` says, and then changes
/// nothing.
#[verifier::rlimit(50)]
pub fn read_request_command_response_from_msg_buffer(ctx: &mut CommandContext, msg: &Vec<u8>) -> (r:
    Result<(), ResultCode>)
    ensures
        *final(ctx) == (CommandContext { out_params: final(ctx).out_params, ..*old(ctx) }),
        match r {
            Ok(()) => {
                let head = received_head(msg@).unwrap();
                &&& received_head(msg@).is_some()
                &&& request_response(msg@) == Ok::<nat, ResultCode>(
                    final(ctx).out_params.data_offset as nat,
                )
                &&& final(ctx).out_params.data_offset + final(ctx).out_params.data_size
                    == head.data_words_offset + 4 * head.data_words
                &&& head.data_words_offset + 4 * head.data_words <= msg@.len()
                &&& final(ctx).out_params.data_words_offset == head.data_words_offset
                &&& final(ctx).out_params.send_process_id == head.send_process_id
                &&& final(ctx).out_params.process_id == head.process_id
                &&& final(ctx).out_params.copy_handles@ == head.copy_handles
                &&& final(ctx).out_params.move_handles@ == head.move_handles
                &&& final(ctx).out_params.objects == old(ctx).out_params.objects
            },
            Err(rc) => request_response(msg@) == Err::<nat, ResultCode>(rc) && *final(ctx) == *old(ctx),
        },
{
    let _len: usize = msg.len();
    let mut out = CommandOut::empty();
    match read_head(&mut out, msg) {
        Err(rc) => Err(rc),
        Ok(_) => {
            if out.data_size < 4 {
                return ResultInvalidHeaderSize::make_err();
            }
            let value = read_u32(msg, out.data_words_offset);
            if value != 0 {
                return Err(ResultCode::new(value));
            }
            ctx.out_params.send_process_id = out.send_process_id;
            ctx.out_params.process_id = out.process_id;
            ctx.out_params.copy_handles = out.copy_handles;
            ctx.out_params.move_handles = out.move_handles;
            ctx.out_params.data_words_offset = out.data_words_offset;
            ctx.out_params.data_offset = out.data_words_offset + 4;
            ctx.out_params.data_size = out.data_size - 4;
            Ok(())
        },
    }
}

/// The command with no arguments of a context that holds nothing is the two
/// header words: the command type, and zero.
#[verifier::rlimit(50)]
pub proof fn lemma_command_message_of_fresh(info: crate::ipc::ObjectInfo, command_type: u32)
    requires
        command_type < 0x1_0000,
    ensures
        forall|ctx: CommandContext|
            ctx.is_fresh(info, 0) ==> #[trigger] command_message(&ctx, command_type, 0)
                == crate::ipc::raw::le_bytes_u32(command_type) + crate::ipc::raw::le_bytes_u32(0),
{
    assert forall|ctx: CommandContext| ctx.is_fresh(info, 0) implies #[trigger] command_message(
        &ctx,
        command_type,
        0,
    ) == crate::ipc::raw::le_bytes_u32(command_type) + crate::ipc::raw::le_bytes_u32(0) by {
        crate::ipc::cmif::client::lemma_head_of_fresh(&ctx, info, command_type, 0, false);
        assert(words_for(0) == 0);
        assert(command_message(&ctx, command_type, 0) =~= crate::ipc::raw::le_bytes_u32(
            command_type,
        ) + crate::ipc::raw::le_bytes_u32(0));
    }
}

} // verus!
