//! The client's side of the primary protocol: writing requests.

use crate::ipc::cmif::rc::{
    ResultInvalidHeaderSize, ResultInvalidOutObjectCount, ResultInvalidOutputHeader,
};
use crate::ipc::cmif::{
    CommandType, ControlRequestId, DomainCommandType, DATA_HEADER_SIZE, DATA_PADDING,
    DOMAIN_HEADER_SIZE, IN_DATA_HEADER_MAGIC, OUT_DATA_HEADER_MAGIC,
};
use crate::ipc::message::{
    head_len, head_section, lemma_head_len, lemma_receive_statics_len, lemma_words_len, read_head,
    read_words, received_head, word_at, write_head, MSG_BUFFER_SIZE,
};
use crate::ipc::raw::read_u32;
use crate::result::{code_of, ResultBase, ResultCode};
use crate::ipc::raw::{
    le_bytes_u16, le_bytes_u32, lemma_wire_all_len, push_u16, push_u32, push_zeros, wire_all,
    write_all, zeros,
};
use crate::ipc::{
    aligned_offset, CommandContext, CommandIn, CommandOut, DomainObjectId,
    INVALID_DOMAIN_OBJECT_ID, MAX_COUNT,
};
use vstd::prelude::*;

verus! {

/// The number of 32-bit words that take `bytes` bytes.
pub open spec fn words_for(bytes: nat) -> nat {
    (bytes + 3) / 4
}

/// The sixteen bytes that address a domain object: the command, the number
/// of objects sent along, the size of what follows for the object, the
/// object's id, four bytes of padding and a zero token.
pub open spec fn domain_header(
    command: DomainCommandType,
    object_count: nat,
    data_size: nat,
    object_id: DomainObjectId,
) -> Seq<u8> {
    seq![command.spec_value(), (object_count % 256) as u8] + le_bytes_u16(
        (data_size % 0x1_0000) as u16,
    ) + le_bytes_u32(object_id) + zeros(4) + le_bytes_u32(0)
}

/// The sixteen bytes of a data header: the magic number, a zero version,
/// the request id or result, a zero token.
pub open spec fn data_header(magic: u32, value: u32) -> Seq<u8> {
    le_bytes_u32(magic) + le_bytes_u32(0) + le_bytes_u32(value) + le_bytes_u32(0)
}

/// The message of a bare command of `ctx`: the head, `data_size` bytes of
/// zeroed data rounded up to whole words, the receive-static descriptors.
pub open spec fn command_message(
    ctx: &CommandContext,
    command_type: CommandType,
    data_size: u32,
) -> Seq<u8> {
    head_section(ctx, command_type.spec_value(), words_for(data_size as nat) as u32, true)
        + zeros(4 * words_for(data_size as nat)) + wire_all(ctx.receive_statics@)
}

/// Whether the request of `ctx` addresses a domain object.
pub open spec fn addresses_domain(ctx: &CommandContext) -> bool {
    ctx.object_info.domain_object_id != INVALID_DOMAIN_OBJECT_ID
}

/// The bytes of a request that are meant for the object: the data header,
/// where there is one, and the raw arguments.
pub open spec fn object_data_len(ctx: &CommandContext, has_data_header: bool) -> nat {
    ((if has_data_header {
        DATA_HEADER_SIZE as nat
    } else {
        0
    }) + ctx.in_params.data_size) as nat
}

/// The bytes of the data words of a request up to the out-pointer sizes: the
/// padding, the domain header and the ids of the objects sent along where a
/// domain object is addressed, and the object's data, rounded up to an even
/// number.
pub open spec fn request_body_len(ctx: &CommandContext, has_data_header: bool) -> nat {
    let len = DATA_PADDING + object_data_len(ctx, has_data_header) + (if addresses_domain(ctx) {
        DOMAIN_HEADER_SIZE + 4 * ctx.in_params.objects@.len()
    } else {
        0
    });
    (len + len % 2) as nat
}

/// The bytes of the data words of a request: the body and two bytes for each
/// out-pointer size.
pub open spec fn request_data_len(ctx: &CommandContext, has_data_header: bool) -> nat {
    (request_body_len(ctx, has_data_header) + 2 * ctx.in_params.out_pointer_sizes@.len()) as nat
}

/// The zero bytes between the head and the first header of the data, which
/// starts at the next multiple of sixteen.
pub open spec fn data_padding(ctx: &CommandContext) -> nat {
    (aligned_offset(head_len(ctx, true) as int, 16) - head_len(ctx, true)) as nat
}

/// The headers of the data of a request: the domain header where a domain
/// object is addressed, then the data header where the request has an id.
pub open spec fn request_headers(
    ctx: &CommandContext,
    request_id: Option<u32>,
    domain_command: DomainCommandType,
) -> Seq<u8> {
    (if addresses_domain(ctx) {
        domain_header(
            domain_command,
            ctx.in_params.objects@.len(),
            object_data_len(ctx, request_id.is_some()),
            ctx.object_info.domain_object_id,
        )
    } else {
        Seq::<u8>::empty()
    }) + (match request_id {
        Some(id) => data_header(IN_DATA_HEADER_MAGIC, id),
        None => Seq::<u8>::empty(),
    })
}

/// The front of the data words of a request before any raw argument is
/// written: padding up to a multiple of sixteen, the headers, zeros in place
/// of the raw arguments, and the ids of the objects sent along where a
/// domain object is addressed.
pub open spec fn request_front(
    ctx: &CommandContext,
    request_id: Option<u32>,
    domain_command: DomainCommandType,
) -> Seq<u8> {
    zeros(data_padding(ctx)) + request_headers(ctx, request_id, domain_command) + zeros(
        ctx.in_params.data_size as nat,
    ) + (if addresses_domain(ctx) {
        wire_all(ctx.in_params.objects@)
    } else {
        Seq::<u8>::empty()
    })
}

/// The data words of a request: the front, zeros up to the end of the body,
/// the out-pointer sizes, zeros up to a whole word.
pub open spec fn request_data_section(
    ctx: &CommandContext,
    request_id: Option<u32>,
    domain_command: DomainCommandType,
) -> Seq<u8> {
    let front = request_front(ctx, request_id, domain_command);
    let body = front + zeros((request_body_len(ctx, request_id.is_some()) - front.len()) as nat);
    let data = body + wire_all(ctx.in_params.out_pointer_sizes@);
    data + zeros((4 * words_for(request_data_len(ctx, request_id.is_some())) - data.len()) as nat)
}

/// The message of a request of `ctx`: the head, the data words, the
/// receive-static descriptors.
pub open spec fn request_message(
    ctx: &CommandContext,
    request_id: Option<u32>,
    domain_command: DomainCommandType,
) -> Seq<u8> {
    head_section(
        ctx,
        CommandType::Request.spec_value(),
        words_for(request_data_len(ctx, request_id.is_some())) as u32,
        true,
    ) + request_data_section(ctx, request_id, domain_command) + wire_all(ctx.receive_statics@)
}

/// Where the raw arguments of a request of `ctx` start in its message.
pub open spec fn request_data_offset(ctx: &CommandContext, has_data_header: bool) -> nat {
    (head_len(ctx, true) + data_padding(ctx) + (if addresses_domain(ctx) {
        DOMAIN_HEADER_SIZE as nat
    } else {
        0
    }) + (if has_data_header {
        DATA_HEADER_SIZE as nat
    } else {
        0
    })) as nat
}

/// The data words of a control request: padding up to a multiple of
/// sixteen, the data header with the request's id, zeros in place of the raw
/// arguments and up to a whole word.
pub open spec fn control_data_section(ctx: &CommandContext, request_id: ControlRequestId) -> Seq<
    u8,
> {
    let len = (DATA_PADDING + DATA_HEADER_SIZE + ctx.in_params.data_size) as nat;
    let front = zeros(data_padding(ctx)) + data_header(
        IN_DATA_HEADER_MAGIC,
        request_id.spec_value(),
    );
    front + zeros((4 * words_for(len) - front.len()) as nat)
}

/// The message of a control request of `ctx`: the head, the data words, the
/// receive-static descriptors.
pub open spec fn control_message(ctx: &CommandContext, request_id: ControlRequestId) -> Seq<u8> {
    head_section(
        ctx,
        CommandType::Control.spec_value(),
        words_for((DATA_PADDING + DATA_HEADER_SIZE + ctx.in_params.data_size) as nat) as u32,
        true,
    ) + control_data_section(ctx, request_id) + wire_all(ctx.receive_statics@)
}

/// Writes the message of a bare command of `ctx` into `msg`, and notes in
/// `ctx` where the data words start.
#[verifier::rlimit(50)]
pub fn write_command_on_msg_buffer(
    ctx: &mut CommandContext,
    msg: &mut Vec<u8>,
    command_type: CommandType,
    data_size: u32,
)
    requires
        old(ctx).wf(),
        data_size <= MSG_BUFFER_SIZE,
    ensures
        final(msg)@ == command_message(old(ctx), command_type, data_size),
        final(msg)@.len() == head_len(old(ctx), true) + 4 * words_for(data_size as nat) + 8 * old(ctx).receive_statics@.len(),
        *final(ctx) == (CommandContext {
            in_params: CommandIn {
                data_words_offset: head_len(old(ctx), true) as usize,
                ..old(ctx).in_params
            },
            ..*old(ctx)
        }),
{
    let words: u32 = (data_size + 3) / 4;
    write_head(ctx, msg, command_type.value(), words, true);
    proof {
        lemma_head_len(ctx, command_type.spec_value(), words, true);
    }
    ctx.in_params.data_words_offset = msg.len();
    push_zeros(msg, 4 * (words as usize));
    write_all(&ctx.receive_statics, msg);
    proof {
        lemma_receive_statics_len(ctx.receive_statics@);
    }
}

/// Writes the message that closes the session of `ctx` into `msg`.
pub fn write_close_command_on_msg_buffer(ctx: &mut CommandContext, msg: &mut Vec<u8>)
    requires
        old(ctx).wf(),
    ensures
        final(msg)@ == command_message(old(ctx), CommandType::Close, 0),
        *final(ctx) == (CommandContext {
            in_params: CommandIn {
                data_words_offset: head_len(old(ctx), true) as usize,
                ..old(ctx).in_params
            },
            ..*old(ctx)
        }),
{
    write_command_on_msg_buffer(ctx, msg, CommandType::Close, 0);
}

/// A domain header and a data header take sixteen bytes each.
pub proof fn lemma_header_lens(
    command: DomainCommandType,
    object_count: nat,
    data_size: nat,
    object_id: DomainObjectId,
    magic: u32,
    value: u32,
)
    ensures
        domain_header(command, object_count, data_size, object_id).len() == 16,
        data_header(magic, value).len() == 16,
{
}

/// The headers of the data of a request take sixteen bytes each.
pub proof fn lemma_request_headers_len(
    ctx: &CommandContext,
    request_id: Option<u32>,
    domain_command: DomainCommandType,
)
    ensures
        request_headers(ctx, request_id, domain_command).len() == (if addresses_domain(ctx) {
            16nat
        } else {
            0nat
        }) + (if request_id.is_some() {
            16nat
        } else {
            0nat
        }),
{
    lemma_header_lens(
        domain_command,
        ctx.in_params.objects@.len(),
        object_data_len(ctx, request_id.is_some()),
        ctx.object_info.domain_object_id,
        IN_DATA_HEADER_MAGIC,
        0,
    );
    if request_id.is_some() {
        lemma_header_lens(
            domain_command,
            0,
            0,
            0,
            IN_DATA_HEADER_MAGIC,
            request_id.unwrap(),
        );
    }
}

fn domain_header_bytes(
    command: DomainCommandType,
    object_count: usize,
    data_size: usize,
    object_id: DomainObjectId,
) -> (bytes: Vec<u8>)
    ensures
        bytes@ == domain_header(command, object_count as nat, data_size as nat, object_id),
        bytes@.len() == 16,
{
    let mut bytes: Vec<u8> = Vec::new();
    bytes.push(command.value());
    bytes.push((object_count % 256) as u8);
    push_u16(&mut bytes, (data_size % 0x1_0000) as u16);
    push_u32(&mut bytes, object_id);
    push_zeros(&mut bytes, 4);
    push_u32(&mut bytes, 0);
    assert(bytes@ =~= domain_header(command, object_count as nat, data_size as nat, object_id));
    bytes
}

fn data_header_bytes(magic: u32, value: u32) -> (bytes: Vec<u8>)
    ensures
        bytes@ == data_header(magic, value),
        bytes@.len() == 16,
{
    let mut bytes: Vec<u8> = Vec::new();
    push_u32(&mut bytes, magic);
    push_u32(&mut bytes, 0);
    push_u32(&mut bytes, value);
    push_u32(&mut bytes, 0);
    assert(bytes@ =~= data_header(magic, value));
    bytes
}

#[verifier::rlimit(50)]
fn request_headers_bytes(
    ctx: &CommandContext,
    request_id: Option<u32>,
    domain_command: DomainCommandType,
) -> (bytes: Vec<u8>)
    requires
        ctx.in_params.data_size <= MSG_BUFFER_SIZE,
    ensures
        bytes@ == request_headers(ctx, request_id, domain_command),
        bytes@.len() == (if addresses_domain(ctx) {
            16nat
        } else {
            0nat
        }) + (if request_id.is_some() {
            16nat
        } else {
            0nat
        }),
{
    let mut bytes: Vec<u8> = Vec::new();
    if ctx.object_info.is_domain() {
        let object_data: usize = ctx.in_params.data_size as usize + if request_id.is_some() {
            DATA_HEADER_SIZE as usize
        } else {
            0
        };
        let mut header = domain_header_bytes(
            domain_command,
            ctx.in_params.objects.len(),
            object_data,
            ctx.object_info.domain_object_id,
        );
        bytes.append(&mut header);
    }
    if let Some(id) = request_id {
        let mut header = data_header_bytes(IN_DATA_HEADER_MAGIC, id);
        bytes.append(&mut header);
    }
    assert(bytes@ =~= request_headers(ctx, request_id, domain_command));
    bytes
}

fn padding_for(offset: usize) -> (pad: usize)
    requires
        offset <= 0x1000,
    ensures
        pad == aligned_offset(offset as int, 16) - offset,
        pad < 16,
{
    let rem = offset % 16;
    if rem == 0 {
        0
    } else {
        16 - rem
    }
}

/// The length of the front of the data words of a request: all that stands
/// before the zeros that fill the body.
pub open spec fn request_front_len(ctx: &CommandContext, has_data_header: bool) -> nat {
    (data_padding(ctx) + (if addresses_domain(ctx) {
        16 + 4 * ctx.in_params.objects@.len()
    } else {
        0
    }) + object_data_len(ctx, has_data_header)) as nat
}

#[verifier::rlimit(50)]
fn request_front_bytes(
    ctx: &CommandContext,
    request_id: Option<u32>,
    domain_command: DomainCommandType,
) -> (bytes: Vec<u8>)
    requires
        ctx.wf(),
        ctx.in_params.data_size <= MSG_BUFFER_SIZE,
    ensures
        bytes@ == request_front(ctx, request_id, domain_command),
        bytes@.len() == request_front_len(ctx, request_id.is_some()),
{
    proof {
        lemma_head_len(ctx, 0, 0, true);
        lemma_words_len(ctx.in_params.objects@);
    }
    let pad = padding_for(head_len_of(ctx));
    let mut bytes: Vec<u8> = Vec::new();
    push_zeros(&mut bytes, pad);
    let mut headers = request_headers_bytes(ctx, request_id, domain_command);
    bytes.append(&mut headers);
    push_zeros(&mut bytes, ctx.in_params.data_size as usize);
    if ctx.object_info.is_domain() {
        write_all(&ctx.in_params.objects, &mut bytes);
    }
    assert(bytes@ =~= request_front(ctx, request_id, domain_command));
    bytes
}

/// The front of the data words of a request ends inside the body.
#[verifier::rlimit(50)]
pub proof fn lemma_front_fits(ctx: &CommandContext, has_data_header: bool)
    requires
        ctx.wf(),
    ensures
        data_padding(ctx) < 16,
        request_front_len(ctx, has_data_header) <= request_body_len(ctx, has_data_header),
        request_body_len(ctx, has_data_header) <= request_data_len(ctx, has_data_header),
        request_data_len(ctx, has_data_header) <= 4 * words_for(
            request_data_len(ctx, has_data_header),
        ),
{
    lemma_head_len(ctx, 0, 0, true);
}

#[verifier::rlimit(50)]
fn request_sizes(ctx: &CommandContext, has_data_header: bool) -> (sizes: (usize, usize))
    requires
        ctx.wf(),
        ctx.in_params.data_size <= MSG_BUFFER_SIZE,
    ensures
        sizes.0 == request_body_len(ctx, has_data_header),
        sizes.1 == 4 * words_for(request_data_len(ctx, has_data_header)),
        sizes.1 <= 0x400,
{
    let mut body: usize = DATA_PADDING as usize + ctx.in_params.data_size as usize;
    if has_data_header {
        body = body + DATA_HEADER_SIZE as usize;
    }
    if ctx.object_info.is_domain() {
        body = body + DOMAIN_HEADER_SIZE as usize + 4 * ctx.in_params.objects.len();
    }
    body = body + body % 2;
    let total: usize = body + 2 * ctx.in_params.out_pointer_sizes.len();
    (body, 4 * ((total + 3) / 4))
}

#[verifier::rlimit(50)]
fn request_data_section_bytes(
    ctx: &CommandContext,
    request_id: Option<u32>,
    domain_command: DomainCommandType,
) -> (bytes: Vec<u8>)
    requires
        ctx.wf(),
        ctx.in_params.data_size <= MSG_BUFFER_SIZE,
    ensures
        bytes@ == request_data_section(ctx, request_id, domain_command),
        bytes@.len() == 4 * words_for(request_data_len(ctx, request_id.is_some())),
        bytes@.len() <= 0x400,
{
    let (body, whole) = request_sizes(ctx, request_id.is_some());
    proof {
        lemma_front_fits(ctx, request_id.is_some());
        lemma_wire_all_len(ctx.in_params.out_pointer_sizes@, 2);
    }
    let mut bytes = request_front_bytes(ctx, request_id, domain_command);
    let fill: usize = body - bytes.len();
    push_zeros(&mut bytes, fill);
    write_all(&ctx.in_params.out_pointer_sizes, &mut bytes);
    let rest: usize = whole - bytes.len();
    push_zeros(&mut bytes, rest);
    bytes
}

fn head_len_of(ctx: &CommandContext) -> (len: usize)
    requires
        ctx.wf(),
    ensures
        len == head_len(ctx, true),
{
    let mut len: usize = 8;
    if ctx.in_params.send_process_id || ctx.in_params.copy_handles.len() > 0
        || ctx.in_params.move_handles.len() > 0 {
        len = len + 4;
        if ctx.in_params.send_process_id {
            len = len + 8;
        }
        len = len + 4 * ctx.in_params.copy_handles.len() + 4 * ctx.in_params.move_handles.len();
    }
    len + 8 * ctx.send_statics.len() + 12 * ctx.send_buffers.len() + 12
        * ctx.receive_buffers.len() + 12 * ctx.exchange_buffers.len()
}

/// Writes the message of a request of `ctx` into `msg`: a request with the
/// id `request_id`, or with no data header where there is none; to the
/// domain object that `ctx` addresses, with `domain_command_type`, where it
/// addresses one. Notes in `ctx` where the data words, the raw arguments and
/// the object ids stand in `msg`. The raw arguments are zero, to be written
/// by a cursor.
#[verifier::rlimit(50)]
pub fn write_request_command_on_msg_buffer(
    ctx: &mut CommandContext,
    msg: &mut Vec<u8>,
    request_id: Option<u32>,
    domain_command_type: DomainCommandType,
)
    requires
        old(ctx).wf(),
        old(ctx).in_params.data_size <= MSG_BUFFER_SIZE,
    ensures
        final(msg)@ == request_message(old(ctx), request_id, domain_command_type),
        *final(ctx) == (CommandContext {
            in_params: CommandIn {
                data_words_offset: head_len(old(ctx), true) as usize,
                data_offset: request_data_offset(old(ctx), request_id.is_some()) as usize,
                objects_offset: if addresses_domain(old(ctx)) {
                    (request_data_offset(old(ctx), request_id.is_some()) + old(ctx).in_params.data_size) as usize
                } else {
                    old(ctx).in_params.objects_offset
                },
                ..old(ctx).in_params
            },
            ..*old(ctx)
        }),
        request_data_offset(old(ctx), request_id.is_some()) + old(ctx).in_params.data_size
            <= final(msg)@.len(),
{
    let mut section = request_data_section_bytes(ctx, request_id, domain_command_type);
    let words: usize = section.len() / 4;
    write_head(ctx, msg, CommandType::Request.value(), words as u32, true);
    proof {
        lemma_head_len(ctx, CommandType::Request.spec_value(), words as u32, true);
    }
    let data_words_offset = msg.len();
    let pad = padding_for(data_words_offset);
    msg.append(&mut section);
    write_all(&ctx.receive_statics, msg);
    let mut data_offset = data_words_offset + pad;
    if ctx.object_info.is_domain() {
        data_offset = data_offset + DOMAIN_HEADER_SIZE as usize;
    }
    if request_id.is_some() {
        data_offset = data_offset + DATA_HEADER_SIZE as usize;
    }
    ctx.in_params.data_words_offset = data_words_offset;
    ctx.in_params.data_offset = data_offset;
    if ctx.object_info.is_domain() {
        ctx.in_params.objects_offset = data_offset + ctx.in_params.data_size as usize;
    }
}

#[verifier::rlimit(50)]
fn control_data_section_bytes(ctx: &CommandContext, request_id: ControlRequestId) -> (bytes: Vec<
    u8,
>)
    requires
        ctx.wf(),
        ctx.in_params.data_size <= MSG_BUFFER_SIZE,
    ensures
        bytes@ == control_data_section(ctx, request_id),
        bytes@.len() == 4 * words_for(
            (DATA_PADDING + DATA_HEADER_SIZE + ctx.in_params.data_size) as nat,
        ),
{
    let total: usize = DATA_PADDING as usize + DATA_HEADER_SIZE as usize
        + ctx.in_params.data_size as usize;
    let words: usize = (total + 3) / 4;
    proof {
        lemma_head_len(ctx, 0, 0, true);
    }
    let pad = padding_for(head_len_of(ctx));
    let mut bytes: Vec<u8> = Vec::new();
    push_zeros(&mut bytes, pad);
    let mut header = data_header_bytes(IN_DATA_HEADER_MAGIC, request_id.value());
    bytes.append(&mut header);
    assert(bytes@ =~= zeros(data_padding(ctx)) + data_header(
        IN_DATA_HEADER_MAGIC,
        request_id.spec_value(),
    ));
    let rest: usize = 4 * words - bytes.len();
    push_zeros(&mut bytes, rest);
    bytes
}

/// Writes the message of the control request `request_id` of `ctx` into
/// `msg`, and notes in `ctx` where the data words and the raw arguments
/// stand in `msg`.
#[verifier::rlimit(50)]
pub fn write_control_command_on_msg_buffer(
    ctx: &mut CommandContext,
    msg: &mut Vec<u8>,
    request_id: ControlRequestId,
)
    requires
        old(ctx).wf(),
        old(ctx).in_params.data_size <= MSG_BUFFER_SIZE,
    ensures
        final(msg)@ == control_message(old(ctx), request_id),
        *final(ctx) == (CommandContext {
            in_params: CommandIn {
                data_words_offset: head_len(old(ctx), true) as usize,
                data_offset: (head_len(old(ctx), true) + data_padding(old(ctx))
                    + DATA_HEADER_SIZE) as usize,
                ..old(ctx).in_params
            },
            ..*old(ctx)
        }),
        head_len(old(ctx), true) + data_padding(old(ctx)) + DATA_HEADER_SIZE + old(ctx).in_params.data_size <= final(msg)@.len(),
{
    let mut section = control_data_section_bytes(ctx, request_id);
    let words: usize = section.len() / 4;
    write_head(ctx, msg, CommandType::Control.value(), words as u32, true);
    proof {
        lemma_head_len(ctx, CommandType::Control.spec_value(), words as u32, true);
    }
    let data_words_offset = msg.len();
    let pad = padding_for(data_words_offset);
    msg.append(&mut section);
    write_all(&ctx.receive_statics, msg);
    ctx.in_params.data_words_offset = data_words_offset;
    ctx.in_params.data_offset = data_words_offset + pad + DATA_HEADER_SIZE as usize;
}

/// Where the data header of a response stands whose data words start at
/// `data_words_offset`: at the next multiple of sixteen.
pub open spec fn response_header_offset(data_words_offset: nat) -> nat {
    aligned_offset(data_words_offset as int, 16) as nat
}

/// What a response to a control request says: where its raw results start,
/// or the error that it carries or that its form amounts to.
///
/// A message too short for its head, or whose data words have no room for a
/// data header at a multiple of sixteen, is `ResultInvalidHeaderSize`. A data
/// header without the response magic is `ResultInvalidOutputHeader`. A
/// result other than zero in the data header is that result.
pub open spec fn control_response(msg: Seq<u8>) -> Result<nat, ResultCode> {
    match received_head(msg) {
        None => Err(code_of::<ResultInvalidHeaderSize>()),
        Some(head) => {
            let at = response_header_offset(head.data_words_offset);
            if at + DATA_HEADER_SIZE > head.data_words_offset + 4 * head.data_words {
                Err(code_of::<ResultInvalidHeaderSize>())
            } else if word_at(msg, at as int) != OUT_DATA_HEADER_MAGIC {
                Err(code_of::<ResultInvalidOutputHeader>())
            } else if word_at(msg, (at + 8) as int) != 0 {
                Err(ResultCode { value: word_at(msg, (at + 8) as int) })
            } else {
                Ok((at + DATA_HEADER_SIZE) as nat)
            }
        },
    }
}

/// Reads the response to a control request from `msg`: notes in `ctx` the
/// process id and the handles that came, and where the raw results stand and
/// how many bytes they take. Fails as `control_response` says, and then
/// changes nothing.
#[verifier::rlimit(50)]
pub fn read_control_command_response_from_msg_buffer(ctx: &mut CommandContext, msg: &Vec<u8>) -> (r:
    Result<(), ResultCode>)
    ensures
        *final(ctx) == (CommandContext { out_params: final(ctx).out_params, ..*old(ctx) }),
        match r {
            Ok(()) => {
                let head = received_head(msg@).unwrap();
                &&& received_head(msg@).is_some()
                &&& control_response(msg@) == Ok::<nat, ResultCode>(
                    final(ctx).out_params.data_offset as nat,
                )
                &&& final(ctx).out_params.data_offset + final(ctx).out_params.data_size
                    == head.data_words_offset + 4 * head.data_words
                &&& head.data_words_offset + 4 * head.data_words <= msg@.len()
                &&& final(ctx).out_params.data_words_offset == head.data_words_offset
                &&& final(ctx).out_params.send_process_id == head.send_process_id
                &&& final(ctx).out_params.process_id == head.process_id
                &&& final(ctx).out_params.copy_handles@ == head.copy_handles
                &&& final(ctx).out_params.move_handles@ == head.move_handles
                &&& final(ctx).out_params.objects == old(ctx).out_params.objects
            },
            Err(rc) => control_response(msg@) == Err::<nat, ResultCode>(rc) && *final(ctx) == *old(ctx),
        },
{
    let _len: usize = msg.len();
    let mut out = CommandOut::empty();
    match read_head(&mut out, msg) {
        Err(rc) => Err(rc),
        Ok(_) => {
            let data_words_offset = out.data_words_offset;
            let end = data_words_offset + out.data_size as usize;
            let rem = data_words_offset % 16;
            let at = if rem == 0 {
                data_words_offset
            } else {
                data_words_offset + (16 - rem)
            };
            if at + DATA_HEADER_SIZE as usize > end {
                return ResultInvalidHeaderSize::make_err();
            }
            if read_u32(msg, at) != OUT_DATA_HEADER_MAGIC {
                return ResultInvalidOutputHeader::make_err();
            }
            let value = read_u32(msg, at + 8);
            if value != 0 {
                return Err(ResultCode::new(value));
            }
            ctx.out_params.send_process_id = out.send_process_id;
            ctx.out_params.process_id = out.process_id;
            ctx.out_params.copy_handles = out.copy_handles;
            ctx.out_params.move_handles = out.move_handles;
            ctx.out_params.data_words_offset = data_words_offset;
            ctx.out_params.data_offset = at + DATA_HEADER_SIZE as usize;
            ctx.out_params.data_size = (end - (at + DATA_HEADER_SIZE as usize)) as u32;
            Ok(())
        },
    }
}

/// What the response to a request holds for the caller.
pub struct ResponseInfo {
    /// Where the raw results start.
    pub data_offset: nat,
    /// The domain objects that came along, in wire order.
    pub objects: Seq<DomainObjectId>,
}

/// Where the raw results of a response stand and how many domain objects
/// come along, for a response whose data words start at `data_words_offset`
/// and end before `end`; or the error that the response carries or that its
/// form amounts to.
pub open spec fn located_response(
    msg: Seq<u8>,
    data_words_offset: nat,
    end: nat,
    domain: bool,
    data_size: nat,
) -> Result<(nat, nat), ResultCode> {
    let start = response_header_offset(data_words_offset);
    let at = if domain {
        start + DOMAIN_HEADER_SIZE
    } else {
        start as int
    };
    let count = if domain {
        word_at(msg, start as int) as nat
    } else {
        0
    };
    if at + DATA_HEADER_SIZE > end {
        Err(code_of::<ResultInvalidHeaderSize>())
    } else if word_at(msg, at) != OUT_DATA_HEADER_MAGIC {
        Err(code_of::<ResultInvalidOutputHeader>())
    } else if word_at(msg, at + 8) != 0 {
        Err(ResultCode { value: word_at(msg, at + 8) })
    } else if count > MAX_COUNT {
        Err(code_of::<ResultInvalidOutObjectCount>())
    } else if at + DATA_HEADER_SIZE + data_size + 4 * count > end {
        Err(code_of::<ResultInvalidHeaderSize>())
    } else {
        Ok(((at + DATA_HEADER_SIZE) as nat, count))
    }
}

/// What a response to a request says, where `data_size` bytes of raw
/// results are expected: where the raw results start and which domain
/// objects came along, or the error that the response carries or that its
/// form amounts to.
///
/// The data starts at the next multiple of sixteen after the head. In the
/// response of a domain object it starts with sixteen bytes whose first word
/// is the number of objects that come along; their ids stand behind the raw
/// results. Then comes the data header, then the raw results.
///
/// A message too short for its head, the headers, the raw results or the
/// object ids is `ResultInvalidHeaderSize`. A data header without the
/// response magic is `ResultInvalidOutputHeader`. A result other than zero
/// in the data header is that result. More objects than a command can carry
/// are `ResultInvalidOutObjectCount`.
pub open spec fn request_response(msg: Seq<u8>, domain: bool, data_size: nat) -> Result<
    ResponseInfo,
    ResultCode,
> {
    match received_head(msg) {
        None => Err(code_of::<ResultInvalidHeaderSize>()),
        Some(head) => match located_response(
            msg,
            head.data_words_offset,
            head.data_words_offset + 4 * head.data_words,
            domain,
            data_size,
        ) {
            Err(rc) => Err(rc),
            Ok((data_offset, count)) => Ok(
                ResponseInfo {
                    data_offset,
                    objects: Seq::new(
                        count,
                        |i: int| word_at(msg, data_offset + data_size + 4 * i),
                    ),
                },
            ),
        },
    }
}

#[verifier::rlimit(50)]
fn locate_response(
    msg: &Vec<u8>,
    data_words_offset: usize,
    end: usize,
    domain: bool,
    data_size: usize,
) -> (r: Result<(usize, usize), ResultCode>)
    requires
        data_words_offset <= end <= msg@.len(),
    ensures
        match r {
            Ok((data_offset, count)) => located_response(
                msg@,
                data_words_offset as nat,
                end as nat,
                domain,
                data_size as nat,
            ) == Ok::<(nat, nat), ResultCode>((data_offset as nat, count as nat))
                && data_offset + data_size + 4 * count <= end,
            Err(rc) => located_response(
                msg@,
                data_words_offset as nat,
                end as nat,
                domain,
                data_size as nat,
            ) == Err::<(nat, nat), ResultCode>(rc),
        },
{
    let _len: usize = msg.len();
    let rem = data_words_offset % 16;
    let pad: usize = if rem == 0 {
        0
    } else {
        16 - rem
    };
    let headers: usize = if domain {
        (DOMAIN_HEADER_SIZE + DATA_HEADER_SIZE) as usize
    } else {
        DATA_HEADER_SIZE as usize
    };
    if end - data_words_offset < pad || end - data_words_offset - pad < headers {
        return ResultInvalidHeaderSize::make_err();
    }
    let start = data_words_offset + pad;
    let data_offset = start + headers;
    let at = data_offset - DATA_HEADER_SIZE as usize;
    if read_u32(msg, at) != OUT_DATA_HEADER_MAGIC {
        return ResultInvalidOutputHeader::make_err();
    }
    let value = read_u32(msg, at + 8);
    if value != 0 {
        return Err(ResultCode::new(value));
    }
    let count: usize = if domain {
        read_u32(msg, start) as usize
    } else {
        0
    };
    if count > MAX_COUNT {
        return ResultInvalidOutObjectCount::make_err();
    }
    if data_size > end - data_offset || 4 * count > end - data_offset - data_size {
        return ResultInvalidHeaderSize::make_err();
    }
    Ok((data_offset, count))
}

/// Reads the response to a request from `msg`, where `ctx` says how many
/// bytes of raw results are expected: notes in `ctx` the process id, the
/// handles and the domain objects that came, and where the raw results
/// stand. Fails as `request_response` says, and then changes nothing.
#[verifier::rlimit(50)]
pub fn read_request_command_response_from_msg_buffer(ctx: &mut CommandContext, msg: &Vec<u8>) -> (r:
    Result<(), ResultCode>)
    ensures
        *final(ctx) == (CommandContext { out_params: final(ctx).out_params, ..*old(ctx) }),
        match r {
            Ok(()) => {
                let head = received_head(msg@).unwrap();
                let info = request_response(
                    msg@,
                    addresses_domain(old(ctx)),
                    old(ctx).out_params.data_size as nat,
                ).unwrap();
                &&& received_head(msg@).is_some()
                &&& request_response(
                    msg@,
                    addresses_domain(old(ctx)),
                    old(ctx).out_params.data_size as nat,
                ).is_ok()
                &&& final(ctx).out_params.data_offset == info.data_offset
                &&& final(ctx).out_params.data_size == old(ctx).out_params.data_size
                &&& final(ctx).out_params.data_offset + final(ctx).out_params.data_size
                    <= msg@.len()
                &&& final(ctx).out_params.objects@ == info.objects
                &&& final(ctx).out_params.data_words_offset == head.data_words_offset
                &&& final(ctx).out_params.send_process_id == head.send_process_id
                &&& final(ctx).out_params.process_id == head.process_id
                &&& final(ctx).out_params.copy_handles@ == head.copy_handles
                &&& final(ctx).out_params.move_handles@ == head.move_handles
            },
            Err(rc) => request_response(
                msg@,
                addresses_domain(old(ctx)),
                old(ctx).out_params.data_size as nat,
            ) == Err::<ResponseInfo, ResultCode>(rc) && *final(ctx) == *old(ctx),
        },
{
    let mut out = CommandOut::empty();
    match read_head(&mut out, msg) {
        Err(rc) => Err(rc),
        Ok(_) => {
            let data_size = ctx.out_params.data_size as usize;
            let located = locate_response(
                msg,
                out.data_words_offset,
                out.data_words_offset + out.data_size as usize,
                ctx.object_info.is_domain(),
                data_size,
            );
            match located {
                Err(rc) => Err(rc),
                Ok((data_offset, count)) => {
                    let objects = read_words(msg, data_offset + data_size, count);
                    ctx.out_params.send_process_id = out.send_process_id;
                    ctx.out_params.process_id = out.process_id;
                    ctx.out_params.copy_handles = out.copy_handles;
                    ctx.out_params.move_handles = out.move_handles;
                    ctx.out_params.objects = objects;
                    ctx.out_params.data_words_offset = out.data_words_offset;
                    ctx.out_params.data_offset = data_offset;
                    Ok(())
                },
            }
        },
    }
}

/// The data of a request starts at a multiple of sixteen, less than sixteen
/// bytes behind the head.
pub proof fn lemma_padding_aligns(ctx: &CommandContext)
    ensures
        data_padding(ctx) < 16,
        (head_len(ctx, true) + data_padding(ctx)) % 16 == 0,
{
}

/// The data words of a request stand in its message behind the head.
#[verifier::rlimit(50)]
pub proof fn lemma_section_in_request(
    ctx: &CommandContext,
    request_id: Option<u32>,
    domain_command: DomainCommandType,
)
    requires
        ctx.wf(),
    ensures
        ({
            let msg = request_message(ctx, request_id, domain_command);
            let section = request_data_section(ctx, request_id, domain_command);
            let h = head_len(ctx, true) as int;
            &&& h + section.len() <= msg.len()
            &&& msg.subrange(h, h + section.len()) == section
        }),
{
    let words = words_for(request_data_len(ctx, request_id.is_some())) as u32;
    let head = head_section(ctx, CommandType::Request.spec_value(), words, true);
    let section = request_data_section(ctx, request_id, domain_command);
    let statics = wire_all(ctx.receive_statics@);
    lemma_head_len(ctx, CommandType::Request.spec_value(), words, true);
    crate::ipc::raw::lemma_concat_part(head, section, statics);
}

/// The headers of a request stand in the front of its data behind the
/// padding.
#[verifier::rlimit(50)]
pub proof fn lemma_headers_in_front(
    ctx: &CommandContext,
    request_id: Option<u32>,
    domain_command: DomainCommandType,
)
    ensures
        ({
            let front = request_front(ctx, request_id, domain_command);
            let headers = request_headers(ctx, request_id, domain_command);
            let p = data_padding(ctx) as int;
            &&& p + headers.len() + ctx.in_params.data_size <= front.len()
            &&& front.subrange(p, p + headers.len()) == headers
        }),
{
    let front = request_front(ctx, request_id, domain_command);
    let headers = request_headers(ctx, request_id, domain_command);
    let pad = zeros(data_padding(ctx));
    let raw = zeros(ctx.in_params.data_size as nat);
    let objects = if addresses_domain(ctx) {
        wire_all(ctx.in_params.objects@)
    } else {
        Seq::<u8>::empty()
    };
    crate::ipc::raw::lemma_concat_part(pad, headers, raw + objects);
    assert(pad + headers + (raw + objects) =~= front);
}

/// The headers of a request stand in its message behind the head and the
/// padding.
#[verifier::rlimit(50)]
pub proof fn lemma_headers_in_request(
    ctx: &CommandContext,
    request_id: Option<u32>,
    domain_command: DomainCommandType,
)
    requires
        ctx.wf(),
        ctx.in_params.data_size <= MSG_BUFFER_SIZE,
    ensures
        ({
            let msg = request_message(ctx, request_id, domain_command);
            let headers = request_headers(ctx, request_id, domain_command);
            let at = (head_len(ctx, true) + data_padding(ctx)) as int;
            &&& at % 16 == 0
            &&& at + headers.len() + ctx.in_params.data_size <= msg.len()
            &&& msg.subrange(at, at + headers.len()) == headers
        }),
{
    let msg = request_message(ctx, request_id, domain_command);
    let section = request_data_section(ctx, request_id, domain_command);
    let front = request_front(ctx, request_id, domain_command);
    let headers = request_headers(ctx, request_id, domain_command);
    let h = head_len(ctx, true) as int;
    let p = data_padding(ctx) as int;
    lemma_padding_aligns(ctx);
    lemma_section_in_request(ctx, request_id, domain_command);
    lemma_front_in_section(ctx, request_id, domain_command);
    lemma_headers_in_front(ctx, request_id, domain_command);
    crate::ipc::raw::lemma_subrange_twice(msg, h, h + section.len(), 0, front.len() as int);
    crate::ipc::raw::lemma_subrange_twice(msg, h, h + front.len(), p, p + headers.len());
}

/// The data words of a request start with the front.
#[verifier::rlimit(50)]
pub proof fn lemma_front_in_section(
    ctx: &CommandContext,
    request_id: Option<u32>,
    domain_command: DomainCommandType,
)
    requires
        ctx.wf(),
    ensures
        ({
            let section = request_data_section(ctx, request_id, domain_command);
            let front = request_front(ctx, request_id, domain_command);
            &&& front.len() == request_front_len(ctx, request_id.is_some())
            &&& front.len() <= section.len()
            &&& section.len() == 4 * words_for(request_data_len(ctx, request_id.is_some()))
            &&& section.subrange(0, front.len() as int) == front
        }),
{
    let section = request_data_section(ctx, request_id, domain_command);
    let front = request_front(ctx, request_id, domain_command);
    lemma_front_fits(ctx, request_id.is_some());
    lemma_request_headers_len(ctx, request_id, domain_command);
    lemma_words_len(ctx.in_params.objects@);
    lemma_wire_all_len(ctx.in_params.out_pointer_sizes@, 2);
    assert(front.len() == request_front_len(ctx, request_id.is_some()));
    assert(section.subrange(0, front.len() as int) =~= front);
}

/// A request says in its data whom it is for. Where the context addresses a
/// domain object, the data starts, at a multiple of sixteen, with the domain
/// header that names the command and the object's id; a request to a session
/// has no such header. The data header, where the request has an id, stands
/// right before the raw arguments.
#[verifier::rlimit(50)]
pub proof fn lemma_request_addresses_its_object(
    ctx: &CommandContext,
    request_id: Option<u32>,
    domain_command: DomainCommandType,
)
    requires
        ctx.wf(),
        ctx.in_params.data_size <= MSG_BUFFER_SIZE,
    ensures
        ({
            let msg = request_message(ctx, request_id, domain_command);
            let at = (head_len(ctx, true) + data_padding(ctx)) as int;
            let data = request_data_offset(ctx, request_id.is_some()) as int;
            &&& at % 16 == 0
            &&& data + ctx.in_params.data_size <= msg.len()
            &&& addresses_domain(ctx) ==> msg.subrange(at, at + 16) == domain_header(
                domain_command,
                ctx.in_params.objects@.len(),
                object_data_len(ctx, request_id.is_some()),
                ctx.object_info.domain_object_id,
            )
            &&& !addresses_domain(ctx) ==> data == at + (if request_id.is_some() {
                16int
            } else {
                0int
            })
            &&& match request_id {
                Some(id) => msg.subrange(data - 16, data) == data_header(IN_DATA_HEADER_MAGIC, id),
                None => true,
            }
        }),
{
    let msg = request_message(ctx, request_id, domain_command);
    let headers = request_headers(ctx, request_id, domain_command);
    let at = (head_len(ctx, true) + data_padding(ctx)) as int;
    let n = headers.len() as int;
    lemma_headers_in_request(ctx, request_id, domain_command);
    lemma_request_headers_len(ctx, request_id, domain_command);
    let domain = domain_header(
        domain_command,
        ctx.in_params.objects@.len(),
        object_data_len(ctx, request_id.is_some()),
        ctx.object_info.domain_object_id,
    );
    lemma_header_lens(
        domain_command,
        ctx.in_params.objects@.len(),
        object_data_len(ctx, request_id.is_some()),
        ctx.object_info.domain_object_id,
        IN_DATA_HEADER_MAGIC,
        0,
    );
    if addresses_domain(ctx) {
        match request_id {
            Some(id) => {
                lemma_header_lens(domain_command, 0, 0, 0, IN_DATA_HEADER_MAGIC, id);
                let header = data_header(IN_DATA_HEADER_MAGIC, id);
                assert(headers == domain + header);
                crate::ipc::raw::lemma_concat_part(domain, header, Seq::<u8>::empty());
                assert(domain + header + Seq::<u8>::empty() =~= headers);
                crate::ipc::raw::lemma_subrange_twice(msg, at, at + n, 0, 16);
                crate::ipc::raw::lemma_subrange_twice(msg, at, at + n, 16, 32);
            },
            None => {
                assert(headers =~= domain);
            },
        }
    } else {
        match request_id {
            Some(id) => {
                lemma_header_lens(domain_command, 0, 0, 0, IN_DATA_HEADER_MAGIC, id);
                assert(headers =~= data_header(IN_DATA_HEADER_MAGIC, id));
            },
            None => {},
        }
    }
}

/// The message of a control request with no arguments: the two header
/// words, eight bytes of padding, the data header, eight zero bytes.
pub open spec fn bare_control_message(request_id: ControlRequestId) -> Seq<u8> {
    le_bytes_u32(CommandType::Control.spec_value()) + le_bytes_u32(8) + zeros(8) + data_header(
        IN_DATA_HEADER_MAGIC,
        request_id.spec_value(),
    ) + zeros(8)
}

/// The message of a request with no data header and no arguments to the
/// domain object `object_id`: the two header words, eight bytes of padding,
/// the domain header, eight zero bytes.
pub open spec fn bare_domain_message(
    domain_command: DomainCommandType,
    object_id: DomainObjectId,
) -> Seq<u8> {
    le_bytes_u32(CommandType::Request.spec_value()) + le_bytes_u32(8) + zeros(8) + domain_header(
        domain_command,
        0,
        0,
        object_id,
    ) + zeros(8)
}

/// The message of a bare command with no arguments: the two header words.
pub open spec fn bare_command_message(command_type: u32) -> Seq<u8> {
    le_bytes_u32(command_type) + le_bytes_u32(0)
}

/// The head of a message of a context that holds nothing is the two header
/// words: the command type, and the number of data words.
#[verifier::rlimit(50)]
pub proof fn lemma_head_of_fresh(
    ctx: &CommandContext,
    info: crate::ipc::ObjectInfo,
    command_type: u32,
    data_words: u32,
    statics: bool,
)
    requires
        ctx.is_fresh(info, 0),
        command_type < 0x1_0000,
        data_words < 0x400,
    ensures
        head_section(ctx, command_type, data_words, statics) == le_bytes_u32(command_type)
            + le_bytes_u32(data_words),
        head_len(ctx, statics) == 8,
        wire_all(ctx.receive_statics@) == Seq::<u8>::empty(),
        wire_all(ctx.in_params.objects@) == Seq::<u8>::empty(),
        wire_all(ctx.in_params.out_pointer_sizes@) == Seq::<u8>::empty(),
{
    reveal(crate::ipc::message::header_word_1);
    reveal(crate::ipc::message::header_word_2);
    assert(crate::ipc::message::special_section(ctx) =~= Seq::<u8>::empty());
    assert(crate::ipc::message::descriptor_section(ctx, statics) =~= Seq::<u8>::empty());
    assert(crate::ipc::message::header_words(ctx, command_type, data_words, statics)
        =~= le_bytes_u32(command_type) + le_bytes_u32(data_words));
    assert(head_section(ctx, command_type, data_words, statics) =~= le_bytes_u32(command_type)
        + le_bytes_u32(data_words));
    assert(wire_all(ctx.receive_statics@) =~= Seq::<u8>::empty());
    assert(wire_all(ctx.in_params.objects@) =~= Seq::<u8>::empty());
    assert(wire_all(ctx.in_params.out_pointer_sizes@) =~= Seq::<u8>::empty());
}

/// The control request of a context that holds nothing is the bare control
/// message.
#[verifier::rlimit(50)]
pub proof fn lemma_control_message_of_fresh(info: crate::ipc::ObjectInfo, request_id: ControlRequestId)
    ensures
        forall|ctx: CommandContext|
            ctx.is_fresh(info, 0) ==> #[trigger] control_message(&ctx, request_id)
                == bare_control_message(request_id),
{
    assert forall|ctx: CommandContext| ctx.is_fresh(info, 0) implies #[trigger] control_message(
        &ctx,
        request_id,
    ) == bare_control_message(request_id) by {
        lemma_head_of_fresh(&ctx, info, CommandType::Control.spec_value(), 8, true);
        lemma_header_lens(DomainCommandType::Close, 0, 0, 0, IN_DATA_HEADER_MAGIC, request_id.spec_value());
        assert(words_for(32) == 8);
        assert(data_padding(&ctx) == 8);
        assert(control_data_section(&ctx, request_id) =~= zeros(8) + data_header(
            IN_DATA_HEADER_MAGIC,
            request_id.spec_value(),
        ) + zeros(8));
        assert(control_message(&ctx, request_id) =~= bare_control_message(request_id));
    }
}

/// The request with no data header of a context that holds nothing and
/// addresses a domain object is the bare domain message.
#[verifier::rlimit(50)]
pub proof fn lemma_domain_message_of_fresh(
    info: crate::ipc::ObjectInfo,
    domain_command: DomainCommandType,
)
    requires
        info.domain_object_id != INVALID_DOMAIN_OBJECT_ID,
    ensures
        forall|ctx: CommandContext|
            ctx.is_fresh(info, 0) ==> #[trigger] request_message(&ctx, None, domain_command)
                == bare_domain_message(domain_command, info.domain_object_id),
{
    assert forall|ctx: CommandContext| ctx.is_fresh(info, 0) implies #[trigger] request_message(
        &ctx,
        None,
        domain_command,
    ) == bare_domain_message(domain_command, info.domain_object_id) by {
        lemma_head_of_fresh(&ctx, info, CommandType::Request.spec_value(), 8, true);
        lemma_header_lens(domain_command, 0, 0, info.domain_object_id, 0, 0);
        assert(request_body_len(&ctx, false) == 32);
        assert(request_data_len(&ctx, false) == 32);
        assert(words_for(32) == 8);
        assert(data_padding(&ctx) == 8);
        assert(request_headers(&ctx, None, domain_command) =~= domain_header(
            domain_command,
            0,
            0,
            info.domain_object_id,
        ));
        assert(request_front(&ctx, None, domain_command) =~= zeros(8) + domain_header(
            domain_command,
            0,
            0,
            info.domain_object_id,
        ));
        assert(request_data_section(&ctx, None, domain_command) =~= zeros(8) + domain_header(
            domain_command,
            0,
            0,
            info.domain_object_id,
        ) + zeros(8));
        assert(request_message(&ctx, None, domain_command) =~= bare_domain_message(
            domain_command,
            info.domain_object_id,
        ));
    }
}

/// The bare command of a context that holds nothing is the bare command
/// message.
#[verifier::rlimit(50)]
pub proof fn lemma_command_message_of_fresh(info: crate::ipc::ObjectInfo, command_type: CommandType)
    ensures
        forall|ctx: CommandContext|
            ctx.is_fresh(info, 0) ==> #[trigger] command_message(&ctx, command_type, 0)
                == bare_command_message(command_type.spec_value()),
{
    assert forall|ctx: CommandContext| ctx.is_fresh(info, 0) implies #[trigger] command_message(
        &ctx,
        command_type,
        0,
    ) == bare_command_message(command_type.spec_value()) by {
        lemma_head_of_fresh(&ctx, info, command_type.spec_value(), 0, true);
        assert(words_for(0) == 0);
        assert(command_message(&ctx, command_type, 0) =~= bare_command_message(
            command_type.spec_value(),
        ));
    }
}

} // verus!
