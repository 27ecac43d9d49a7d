//! The head of a message, which both protocols share: the two header words,
//! the special header with the handles, and the buffer descriptors.

use crate::ipc::raw::{
    le_bytes_u32, le_value_u32, le_value_u64, lemma_wire_all_len, push_u32, push_zeros, read_u32,
    read_u64, wire_all, write_all, zeros,
};
use crate::ipc::cmif::rc::ResultInvalidHeaderSize;
use crate::ipc::CommandOut;
use crate::result::{code_of, ResultBase, ResultCode};
use crate::svc::Handle;
use crate::ipc::raw::Wire;
use crate::ipc::{
    BufferDescriptor, CommandContext, ReceiveStaticDescriptor, SendStaticDescriptor,
};
use vstd::prelude::*;

verus! {

/// Size in bytes of the buffer in which the kernel takes and hands over a
/// message.
pub const MSG_BUFFER_SIZE: usize = 0x100;

/// How the number of receive-static descriptors is written in the header:
/// zero for none, else two more than the number.
pub open spec fn receive_static_type(count: nat) -> nat {
    if count == 0 {
        0
    } else if count == 0xFF {
        2
    } else {
        2 + count
    }
}

/// First header word: the command type in bits 0 to 15, then four bits each
/// for the numbers of send-static, send, receive and exchange descriptors.
#[verifier::opaque]
pub open spec fn header_word_1(
    command_type: u32,
    send_statics: nat,
    send_buffers: nat,
    receive_buffers: nat,
    exchange_buffers: nat,
) -> u32 {
    (command_type % 0x1_0000 + (send_statics % 16) * 0x1_0000 + (send_buffers % 16) * 0x10_0000 + (
    receive_buffers % 16) * 0x100_0000 + (exchange_buffers % 16) * 0x1000_0000) as u32
}

/// Second header word: the number of data words in bits 0 to 9, the
/// receive-static type in bits 10 to 13, the special-header flag in bit 31.
#[verifier::opaque]
pub open spec fn header_word_2(data_words: u32, receive_statics: nat, special: bool) -> u32 {
    (data_words % 0x400 + (receive_static_type(receive_statics) % 16) * 0x400 + (if special {
        0x8000_0000int
    } else {
        0int
    })) as u32
}

/// The special header word: the process-id flag in bit 0, the number of copy
/// handles in bits 1 to 4, the number of move handles in bits 5 to 8.
#[verifier::opaque]
pub open spec fn special_word(send_process_id: bool, copy_handles: nat, move_handles: nat) -> u32 {
    ((if send_process_id {
        1int
    } else {
        0int
    }) + (copy_handles % 16) * 2 + (move_handles % 16) * 32) as u32
}

/// Whether the message of `ctx` has a special header: it sends a process id
/// or a handle.
pub open spec fn has_special_header(ctx: &CommandContext) -> bool {
    ctx.in_params.send_process_id || ctx.in_params.copy_handles@.len() > 0
        || ctx.in_params.move_handles@.len() > 0
}

/// The special header of `ctx` with what it announces: the word, eight bytes
/// of room for the process id where one is sent, the copy handles, the move
/// handles. Empty where the message has no special header.
pub open spec fn special_section(ctx: &CommandContext) -> Seq<u8> {
    if has_special_header(ctx) {
        le_bytes_u32(
            special_word(
                ctx.in_params.send_process_id,
                ctx.in_params.copy_handles@.len(),
                ctx.in_params.move_handles@.len(),
            ),
        ) + process_id_room(ctx) + wire_all(ctx.in_params.copy_handles@) + wire_all(
            ctx.in_params.move_handles@,
        )
    } else {
        Seq::<u8>::empty()
    }
}

/// The two header words of a message of `ctx`.
pub open spec fn header_words(
    ctx: &CommandContext,
    command_type: u32,
    data_words: u32,
    statics: bool,
) -> Seq<u8> {
    le_bytes_u32(first_word(ctx, command_type, statics)) + le_bytes_u32(
        second_word(ctx, data_words, statics),
    )
}

/// The descriptors of `ctx` by kind, each kind in call order: send statics
/// (where the protocol has them), send, receive and exchange buffers.
pub open spec fn descriptor_section(ctx: &CommandContext, statics: bool) -> Seq<u8> {
    (if statics {
        wire_all(ctx.send_statics@)
    } else {
        Seq::<u8>::empty()
    }) + wire_all(ctx.send_buffers@) + wire_all(ctx.receive_buffers@) + wire_all(
        ctx.exchange_buffers@,
    )
}

/// The head of a message of `ctx`: the two header words, the special
/// section, then the descriptors. The data words follow it.
pub open spec fn head_section(
    ctx: &CommandContext,
    command_type: u32,
    data_words: u32,
    statics: bool,
) -> Seq<u8> {
    header_words(ctx, command_type, data_words, statics) + special_section(ctx)
        + descriptor_section(ctx, statics)
}

/// The length of the head of a message of `ctx`.
pub open spec fn head_len(ctx: &CommandContext, statics: bool) -> nat {
    8 + (if has_special_header(ctx) {
        4 + (if ctx.in_params.send_process_id {
            8nat
        } else {
            0nat
        }) + 4 * ctx.in_params.copy_handles@.len() + 4 * ctx.in_params.move_handles@.len()
    } else {
        0
    }) + (if statics {
        8 * ctx.send_statics@.len()
    } else {
        0
    }) + 12 * ctx.send_buffers@.len() + 12 * ctx.receive_buffers@.len() + 12
        * ctx.exchange_buffers@.len()
}

/// A list of 32-bit words takes four bytes a word.
pub proof fn lemma_words_len(words: Seq<u32>)
    ensures
        wire_all(words).len() == 4 * words.len(),
{
    assert forall|i: int| 0 <= i < words.len() implies (#[trigger] words[i]).spec_wire().len()
        == 4 by {}
    lemma_wire_all_len(words, 4);
}

/// A list of send-static descriptors takes eight bytes a descriptor.
pub proof fn lemma_send_statics_len(list: Seq<SendStaticDescriptor>)
    ensures
        wire_all(list).len() == 8 * list.len(),
{
    assert forall|i: int| 0 <= i < list.len() implies (#[trigger] list[i]).spec_wire().len()
        == 8 by {}
    lemma_wire_all_len(list, 8);
}

/// A list of receive-static descriptors takes eight bytes a descriptor.
pub proof fn lemma_receive_statics_len(list: Seq<ReceiveStaticDescriptor>)
    ensures
        wire_all(list).len() == 8 * list.len(),
{
    assert forall|i: int| 0 <= i < list.len() implies (#[trigger] list[i]).spec_wire().len()
        == 8 by {}
    lemma_wire_all_len(list, 8);
}

/// A list of buffer descriptors takes twelve bytes a descriptor.
pub proof fn lemma_buffers_len(list: Seq<BufferDescriptor>)
    ensures
        wire_all(list).len() == 12 * list.len(),
{
    assert forall|i: int| 0 <= i < list.len() implies (#[trigger] list[i]).spec_wire().len()
        == 12 by {}
    lemma_wire_all_len(list, 12);
}

/// The special section takes four bytes for its word, eight for the process
/// id, and four a handle.
#[verifier::rlimit(50)]
pub proof fn lemma_special_len(ctx: &CommandContext)
    ensures
        special_section(ctx).len() == if has_special_header(ctx) {
            4 + (if ctx.in_params.send_process_id {
                8nat
            } else {
                0nat
            }) + 4 * ctx.in_params.copy_handles@.len() + 4 * ctx.in_params.move_handles@.len()
        } else {
            0
        },
{
    lemma_words_len(ctx.in_params.copy_handles@);
    lemma_words_len(ctx.in_params.move_handles@);
}

/// The descriptors take eight bytes a send static and twelve a buffer.
#[verifier::rlimit(50)]
pub proof fn lemma_descriptors_len(ctx: &CommandContext, statics: bool)
    ensures
        descriptor_section(ctx, statics).len() == (if statics {
            8 * ctx.send_statics@.len()
        } else {
            0
        }) + 12 * ctx.send_buffers@.len() + 12 * ctx.receive_buffers@.len() + 12
            * ctx.exchange_buffers@.len(),
{
    lemma_send_statics_len(ctx.send_statics@);
    lemma_buffers_len(ctx.send_buffers@);
    lemma_buffers_len(ctx.receive_buffers@);
    lemma_buffers_len(ctx.exchange_buffers@);
}

/// The head of a message is as long as `head_len` says: a multiple of four,
/// and at most 0x1b4 bytes.
#[verifier::rlimit(50)]
pub proof fn lemma_head_len(ctx: &CommandContext, command_type: u32, data_words: u32, statics: bool)
    requires
        ctx.wf(),
    ensures
        head_section(ctx, command_type, data_words, statics).len() == head_len(ctx, statics),
        head_len(ctx, statics) % 4 == 0,
        head_len(ctx, statics) <= 0x1b4,
{
    lemma_special_len(ctx);
    lemma_descriptors_len(ctx, statics);
    lemma_header_words_len(ctx, command_type, data_words, statics);
    lemma_head_len_bound(ctx, statics);
}

/// The two header words take eight bytes.
pub proof fn lemma_header_words_len(
    ctx: &CommandContext,
    command_type: u32,
    data_words: u32,
    statics: bool,
)
    ensures
        header_words(ctx, command_type, data_words, statics).len() == 8,
{
}

/// The head of a message is a whole number of words and at most 0x1b4 bytes
/// long.
pub proof fn lemma_head_len_bound(ctx: &CommandContext, statics: bool)
    requires
        ctx.wf(),
    ensures
        head_len(ctx, statics) % 4 == 0,
        head_len(ctx, statics) <= 0x1b4,
{
}

fn make_word_1(
    command_type: u32,
    send_statics: usize,
    send_buffers: usize,
    receive_buffers: usize,
    exchange_buffers: usize,
) -> (word: u32)
    ensures
        word == header_word_1(
            command_type,
            send_statics as nat,
            send_buffers as nat,
            receive_buffers as nat,
            exchange_buffers as nat,
        ),
{
    reveal(header_word_1);
    let word: u64 = (command_type % 0x1_0000) as u64 + (send_statics as u64 % 16) * 0x1_0000 + (
    send_buffers as u64 % 16) * 0x10_0000 + (receive_buffers as u64 % 16) * 0x100_0000 + (
    exchange_buffers as u64 % 16) * 0x1000_0000;
    word as u32
}

fn make_word_2(data_words: u32, receive_statics: usize, special: bool) -> (word: u32)
    ensures
        word == header_word_2(data_words, receive_statics as nat, special),
{
    reveal(header_word_2);
    let static_type: u64 = if receive_statics == 0 {
        0
    } else if receive_statics == 0xFF {
        2
    } else {
        (2 + receive_statics % 16) as u64
    };
    let word: u64 = (data_words % 0x400) as u64 + (static_type % 16) * 0x400 + (if special {
        0x8000_0000u64
    } else {
        0u64
    });
    word as u32
}

fn make_special_word(send_process_id: bool, copy_handles: usize, move_handles: usize) -> (word:
    u32)
    ensures
        word == special_word(send_process_id, copy_handles as nat, move_handles as nat),
{
    reveal(special_word);
    let word: u64 = (if send_process_id {
        1u64
    } else {
        0u64
    }) + (copy_handles as u64 % 16) * 2 + (move_handles as u64 % 16) * 32;
    word as u32
}

#[verifier::rlimit(50)]
fn write_special(ctx: &CommandContext, msg: &mut Vec<u8>)
    ensures
        final(msg)@ == old(msg)@ + special_section(ctx),
{
    let special = ctx.in_params.send_process_id || ctx.in_params.copy_handles.len() > 0
        || ctx.in_params.move_handles.len() > 0;
    if special {
        let word = make_special_word(
            ctx.in_params.send_process_id,
            ctx.in_params.copy_handles.len(),
            ctx.in_params.move_handles.len(),
        );
        push_u32(msg, word);
        if ctx.in_params.send_process_id {
            push_zeros(msg, 8);
        }
        write_all(&ctx.in_params.copy_handles, msg);
        write_all(&ctx.in_params.move_handles, msg);
    }
    assert(msg@ =~= old(msg)@ + special_section(ctx));
}

#[verifier::rlimit(50)]
fn write_descriptors(ctx: &CommandContext, msg: &mut Vec<u8>, statics: bool)
    ensures
        final(msg)@ == old(msg)@ + descriptor_section(ctx, statics),
{
    if statics {
        write_all(&ctx.send_statics, msg);
    }
    write_all(&ctx.send_buffers, msg);
    write_all(&ctx.receive_buffers, msg);
    write_all(&ctx.exchange_buffers, msg);
    assert(msg@ =~= old(msg)@ + descriptor_section(ctx, statics));
}

/// Writes the head of a message of `ctx` into the emptied `msg`.
#[verifier::rlimit(50)]
pub fn write_head(
    ctx: &CommandContext,
    msg: &mut Vec<u8>,
    command_type: u32,
    data_words: u32,
    statics: bool,
)
    requires
        ctx.wf(),
    ensures
        final(msg)@ == head_section(ctx, command_type, data_words, statics),
        final(msg)@.len() == head_len(ctx, statics),
{
    msg.clear();
    let special = ctx.in_params.send_process_id || ctx.in_params.copy_handles.len() > 0
        || ctx.in_params.move_handles.len() > 0;
    let word_1 = make_word_1(
        command_type,
        if statics {
            ctx.send_statics.len()
        } else {
            0
        },
        ctx.send_buffers.len(),
        ctx.receive_buffers.len(),
        ctx.exchange_buffers.len(),
    );
    let word_2 = make_word_2(
        data_words,
        if statics {
            ctx.receive_statics.len()
        } else {
            0
        },
        special,
    );
    push_u32(msg, word_1);
    push_u32(msg, word_2);
    assert(msg@ =~= header_words(ctx, command_type, data_words, statics));
    write_special(ctx, msg);
    write_descriptors(ctx, msg, statics);
    proof {
        lemma_head_len(ctx, command_type, data_words, statics);
    }
}

/// The 32-bit word at `at` in `msg`.
pub open spec fn word_at(msg: Seq<u8>, at: int) -> u32 {
    le_value_u32(msg.subrange(at, at + 4))
}

/// What the head of a received message announces.
pub struct HeadInfo {
    /// The command type.
    pub command_type: u32,
    /// Whether a process id travels with the message.
    pub send_process_id: bool,
    /// The process id, or zero where none travels.
    pub process_id: u64,
    /// The handles that the kernel duplicated for this side.
    pub copy_handles: Seq<Handle>,
    /// The handles that passed to this side.
    pub move_handles: Seq<Handle>,
    /// Where the data words start.
    pub data_words_offset: nat,
    /// How many data words there are.
    pub data_words: nat,
}

/// Whether the message has a special header: bit 31 of the second word.
pub open spec fn received_special(msg: Seq<u8>) -> bool {
    word_at(msg, 4) >= 0x8000_0000
}

/// The length of the special section that the special word at offset 8
/// announces, its word included.
pub open spec fn received_special_len(msg: Seq<u8>) -> nat {
    let word = word_at(msg, 8);
    (4 + (if word % 2 == 1 {
        8int
    } else {
        0int
    }) + 4 * ((word / 2) % 16) + 4 * ((word / 32) % 16)) as nat
}

/// The length of the descriptors that the first header word announces.
pub open spec fn received_descriptors_len(msg: Seq<u8>) -> nat {
    let word = word_at(msg, 0);
    (8 * ((word / 0x1_0000) % 16) + 12 * ((word / 0x10_0000) % 16) + 12 * ((word / 0x100_0000)
        % 16) + 12 * ((word / 0x1000_0000) % 16)) as nat
}

/// Where the handles stand in a message with a special header.
pub open spec fn received_handles_offset(msg: Seq<u8>) -> int {
    if word_at(msg, 8) % 2 == 1 {
        20
    } else {
        12
    }
}

/// What the head of `msg` announces, or nothing where `msg` is too short for
/// its own head and data words.
pub open spec fn received_head(msg: Seq<u8>) -> Option<HeadInfo> {
    if msg.len() < 8 {
        None
    } else if received_special(msg) && msg.len() < 12 {
        None
    } else {
        let special = received_special(msg);
        let special_len = if special {
            received_special_len(msg)
        } else {
            0
        };
        let data_words_offset = 8 + special_len + received_descriptors_len(msg);
        let data_words = (word_at(msg, 4) % 0x400) as nat;
        if msg.len() < data_words_offset + 4 * data_words {
            None
        } else {
            let word = word_at(msg, 8);
            let at = received_handles_offset(msg);
            let copies = if special {
                ((word / 2) % 16) as nat
            } else {
                0
            };
            let moves = if special {
                ((word / 32) % 16) as nat
            } else {
                0
            };
            Some(
                HeadInfo {
                    command_type: word_at(msg, 0) % 0x1_0000,
                    send_process_id: special && word % 2 == 1,
                    process_id: if special && word % 2 == 1 {
                        le_value_u64(msg.subrange(12, 20))
                    } else {
                        0
                    },
                    copy_handles: Seq::new(copies, |i: int| word_at(msg, at + 4 * i)),
                    move_handles: Seq::new(moves, |i: int| word_at(msg, at + 4 * copies + 4 * i)),
                    data_words_offset,
                    data_words,
                },
            )
        }
    }
}

/// The `count` 32-bit words that stand at `at` in `msg`.
#[verifier::rlimit(50)]
pub fn read_words(msg: &Vec<u8>, at: usize, count: usize) -> (handles: Vec<u32>)
    requires
        at + 4 * count <= msg@.len(),
    ensures
        handles@ == Seq::new(count as nat, |i: int| word_at(msg@, at + 4 * i)),
{
    let mut handles: Vec<u32> = Vec::new();
    let mut i: usize = 0;
    while i < count
        invariant
            i <= count,
            at + 4 * count <= msg@.len(),
            handles@ == Seq::new(i as nat, |j: int| word_at(msg@, at + 4 * j)),
        decreases count - i,
    {
        let _len: usize = msg.len();
        let handle = read_u32(msg, at + 4 * i);
        handles.push(handle);
        i = i + 1;
        assert(handles@ =~= Seq::new(i as nat, |j: int| word_at(msg@, at + 4 * j)));
    }
    handles
}

/// Reads the head of the received `msg` into `out`: the process id, the
/// handles, and where the data words stand. Fails with
/// `ResultInvalidHeaderSize`, changing nothing, exactly when `msg` is too
/// short for its own head and data words.
#[verifier::rlimit(50)]
pub fn read_head(out: &mut CommandOut, msg: &Vec<u8>) -> (r: Result<u32, ResultCode>)
    ensures
        match r {
            Ok(command_type) => {
                &&& received_head(msg@).is_some()
                &&& command_type == received_head(msg@).unwrap().command_type
                &&& final(out).send_process_id == received_head(msg@).unwrap().send_process_id
                &&& final(out).process_id == received_head(msg@).unwrap().process_id
                &&& final(out).copy_handles@ == received_head(msg@).unwrap().copy_handles
                &&& final(out).move_handles@ == received_head(msg@).unwrap().move_handles
                &&& final(out).data_words_offset == received_head(msg@).unwrap().data_words_offset
                &&& final(out).data_offset == received_head(msg@).unwrap().data_words_offset
                &&& final(out).data_size == 4 * received_head(msg@).unwrap().data_words
                &&& final(out).data_words_offset + final(out).data_size <= msg@.len()
                &&& final(out).objects@ == old(out).objects@
            },
            Err(rc) => {
                &&& received_head(msg@).is_none()
                &&& rc == code_of::<ResultInvalidHeaderSize>()
                &&& *final(out) == *old(out)
            },
        },
{
    let len = msg.len();
    if len < 8 {
        return ResultInvalidHeaderSize::make_err();
    }
    let word_1 = read_u32(msg, 0);
    let word_2 = read_u32(msg, 4);
    let special = word_2 >= 0x8000_0000;
    if special && len < 12 {
        return ResultInvalidHeaderSize::make_err();
    }
    let mut offset: usize = 8;
    let mut send_process_id = false;
    let mut copies: usize = 0;
    let mut moves: usize = 0;
    let mut handles_at: usize = 12;
    if special {
        let word = read_u32(msg, 8);
        send_process_id = word % 2 == 1;
        copies = ((word / 2) % 16) as usize;
        moves = ((word / 32) % 16) as usize;
        if send_process_id {
            handles_at = 20;
        }
        offset = handles_at + 4 * copies + 4 * moves;
    }
    offset = offset + 8 * (((word_1 / 0x1_0000) % 16) as usize) + 12 * (((word_1 / 0x10_0000)
        % 16) as usize) + 12 * (((word_1 / 0x100_0000) % 16) as usize) + 12 * (((word_1
        / 0x1000_0000) % 16) as usize);
    let data_words: usize = (word_2 % 0x400) as usize;
    if len < offset + 4 * data_words {
        return ResultInvalidHeaderSize::make_err();
    }
    out.send_process_id = send_process_id;
    out.process_id = if send_process_id {
        read_u64(msg, 12)
    } else {
        0
    };
    if special {
        out.copy_handles = read_words(msg, handles_at, copies);
        out.move_handles = read_words(msg, handles_at + 4 * copies, moves);
    } else {
        out.copy_handles = Vec::new();
        out.move_handles = Vec::new();
    }
    out.data_words_offset = offset;
    out.data_offset = offset;
    out.data_size = (4 * data_words) as u32;
    proof {
        let at = received_handles_offset(msg@);
        assert(out.copy_handles@ =~= Seq::new(copies as nat, |i: int| word_at(msg@, at + 4 * i)));
        assert(out.move_handles@ =~= Seq::new(
            moves as nat,
            |i: int| word_at(msg@, at + 4 * copies + 4 * i),
        ));
    }
    Ok(word_1 % 0x1_0000)
}

/// A word that was written is the word that is read at its place.
pub proof fn lemma_word_at_of_le(prefix: Seq<u8>, x: u32, suffix: Seq<u8>)
    ensures
        word_at(prefix + le_bytes_u32(x) + suffix, prefix.len() as int) == x,
{
    let msg = prefix + le_bytes_u32(x) + suffix;
    crate::ipc::raw::lemma_le_u32_round_trip(x);
    crate::ipc::raw::lemma_concat_part(prefix, le_bytes_u32(x), suffix);
}

/// A word of a list that was written is the word that is read at its place.
pub proof fn lemma_word_at_in_words(prefix: Seq<u8>, words: Seq<u32>, suffix: Seq<u8>, i: int)
    requires
        0 <= i < words.len(),
    ensures
        word_at(prefix + wire_all(words) + suffix, prefix.len() + 4 * i) == words[i],
    decreases words.len(),
{
    let front = words.drop_last();
    let last = le_bytes_u32(words.last());
    lemma_words_len(front);
    assert(wire_all(words) == wire_all(front) + last);
    if i == words.len() - 1 {
        assert(prefix + wire_all(words) + suffix =~= (prefix + wire_all(front)) + last + suffix);
        lemma_word_at_of_le(prefix + wire_all(front), words.last(), suffix);
    } else {
        assert(prefix + wire_all(words) + suffix =~= prefix + wire_all(front) + (last + suffix));
        lemma_word_at_in_words(prefix, front, last + suffix, i);
    }
}

/// The fields of the first header word are found again in it.
pub proof fn lemma_header_word_1_fields(
    command_type: u32,
    send_statics: nat,
    send_buffers: nat,
    receive_buffers: nat,
    exchange_buffers: nat,
)
    requires
        command_type < 0x1_0000,
        send_statics < 16,
        send_buffers < 16,
        receive_buffers < 16,
        exchange_buffers < 16,
    ensures
        ({
            let word = header_word_1(
                command_type,
                send_statics,
                send_buffers,
                receive_buffers,
                exchange_buffers,
            );
            &&& word % 0x1_0000 == command_type
            &&& (word / 0x1_0000) % 16 == send_statics
            &&& (word / 0x10_0000) % 16 == send_buffers
            &&& (word / 0x100_0000) % 16 == receive_buffers
            &&& (word / 0x1000_0000) % 16 == exchange_buffers
        }),
{
    reveal(header_word_1);
    let t = command_type as int;
    let a = send_statics as int;
    let b = send_buffers as int;
    let c = receive_buffers as int;
    let d = exchange_buffers as int;
    let word: int = t + a * 0x1_0000 + b * 0x10_0000 + c * 0x100_0000 + d * 0x1000_0000;
    assert(header_word_1(
        command_type,
        send_statics,
        send_buffers,
        receive_buffers,
        exchange_buffers,
    ) == word);
    lemma_split(word, 0x1_0000, a + 16 * b + 256 * c + 4096 * d, t);
    lemma_split(a + 16 * b + 256 * c + 4096 * d, 16, b + 16 * c + 256 * d, a);
    lemma_split(word, 0x10_0000, b + 16 * c + 256 * d, t + a * 0x1_0000);
    lemma_split(b + 16 * c + 256 * d, 16, c + 16 * d, b);
    lemma_split(word, 0x100_0000, c + 16 * d, t + a * 0x1_0000 + b * 0x10_0000);
    lemma_split(c + 16 * d, 16, d, c);
    lemma_split(word, 0x1000_0000, d, t + a * 0x1_0000 + b * 0x10_0000 + c * 0x100_0000);
    lemma_split(d, 16, 0, d);
}

/// A number that is a multiple of `d` plus a remainder below `d` divides
/// into that multiple and that remainder.
pub proof fn lemma_split(x: int, d: int, q: int, r: int)
    requires
        d > 0,
        0 <= r < d,
        x == q * d + r,
    ensures
        x / d == q,
        x % d == r,
{
    vstd::arithmetic::div_mod::lemma_fundamental_div_mod_converse(x, d, q, r);
}

/// The fields of the second header word are found again in it.
pub proof fn lemma_header_word_2_fields(data_words: u32, receive_statics: nat, special: bool)
    requires
        data_words < 0x400,
    ensures
        ({
            let word = header_word_2(data_words, receive_statics, special);
            &&& word % 0x400 == data_words
            &&& (word >= 0x8000_0000) == special
        }),
{
    reveal(header_word_2);
    let s = (receive_static_type(receive_statics) % 16) as int;
    let top: int = if special {
        0x8000_0000
    } else {
        0
    };
    let word: int = data_words + s * 0x400 + top;
    assert(header_word_2(data_words, receive_statics, special) == word);
    lemma_split(word, 0x400, s + (top / 0x400), data_words as int);
}

/// The fields of the special word are found again in it.
pub proof fn lemma_special_word_fields(send_process_id: bool, copy_handles: nat, move_handles: nat)
    requires
        copy_handles < 16,
        move_handles < 16,
    ensures
        ({
            let word = special_word(send_process_id, copy_handles, move_handles);
            &&& (word % 2 == 1) == send_process_id
            &&& (word / 2) % 16 == copy_handles
            &&& (word / 32) % 16 == move_handles
        }),
{
    reveal(special_word);
    let p: int = if send_process_id {
        1
    } else {
        0
    };
    let c = copy_handles as int;
    let m = move_handles as int;
    let word: int = p + c * 2 + m * 32;
    assert(special_word(send_process_id, copy_handles, move_handles) == word);
    lemma_split(word, 2, c + 16 * m, p);
    lemma_split(c + 16 * m, 16, m, c);
    lemma_split(word, 32, m, p + c * 2);
    lemma_split(m, 16, 0, m);
}

/// The first header word of a message of `ctx`.
pub open spec fn first_word(ctx: &CommandContext, command_type: u32, statics: bool) -> u32 {
    header_word_1(
        command_type,
        if statics {
            ctx.send_statics@.len()
        } else {
            0
        },
        ctx.send_buffers@.len(),
        ctx.receive_buffers@.len(),
        ctx.exchange_buffers@.len(),
    )
}

/// The second header word of a message of `ctx`.
pub open spec fn second_word(ctx: &CommandContext, data_words: u32, statics: bool) -> u32 {
    header_word_2(
        data_words,
        if statics {
            ctx.receive_statics@.len()
        } else {
            0
        },
        has_special_header(ctx),
    )
}

/// The special word of a message of `ctx`.
pub open spec fn third_word(ctx: &CommandContext) -> u32 {
    special_word(
        ctx.in_params.send_process_id,
        ctx.in_params.copy_handles@.len(),
        ctx.in_params.move_handles@.len(),
    )
}

/// The room for the process id in the special section of `ctx`.
pub open spec fn process_id_room(ctx: &CommandContext) -> Seq<u8> {
    if ctx.in_params.send_process_id {
        zeros(8)
    } else {
        Seq::<u8>::empty()
    }
}

/// A written message, part by part: the first word, the second word, and
/// what follows them.
pub proof fn lemma_head_shape(
    ctx: &CommandContext,
    command_type: u32,
    data_words: u32,
    statics: bool,
    rest: Seq<u8>,
)
    ensures
        head_section(ctx, command_type, data_words, statics) + rest == le_bytes_u32(
            first_word(ctx, command_type, statics),
        ) + le_bytes_u32(second_word(ctx, data_words, statics)) + (special_section(ctx) + (
        descriptor_section(ctx, statics) + rest)),
{
    let w1 = le_bytes_u32(first_word(ctx, command_type, statics));
    let w2 = le_bytes_u32(second_word(ctx, data_words, statics));
    let special = special_section(ctx);
    let desc = descriptor_section(ctx, statics);
    assert(header_words(ctx, command_type, data_words, statics) == w1 + w2);
    crate::ipc::raw::lemma_concat_assoc(w1 + w2 + special, desc, rest);
    crate::ipc::raw::lemma_concat_assoc(w1 + w2, special, desc + rest);
}

/// A written message with a special header, part by part: the three words,
/// the room for the process id, the copy handles, the move handles, and what
/// follows them.
pub proof fn lemma_special_shape(
    ctx: &CommandContext,
    command_type: u32,
    data_words: u32,
    statics: bool,
    rest: Seq<u8>,
)
    requires
        has_special_header(ctx),
    ensures
        head_section(ctx, command_type, data_words, statics) + rest == le_bytes_u32(
            first_word(ctx, command_type, statics),
        ) + le_bytes_u32(second_word(ctx, data_words, statics)) + le_bytes_u32(third_word(ctx))
            + process_id_room(ctx) + wire_all(ctx.in_params.copy_handles@) + wire_all(
            ctx.in_params.move_handles@,
        ) + (descriptor_section(ctx, statics) + rest),
{
    let w12 = le_bytes_u32(first_word(ctx, command_type, statics)) + le_bytes_u32(
        second_word(ctx, data_words, statics),
    );
    let w3 = le_bytes_u32(third_word(ctx));
    let room = process_id_room(ctx);
    let copies = wire_all(ctx.in_params.copy_handles@);
    let moves = wire_all(ctx.in_params.move_handles@);
    let tail = descriptor_section(ctx, statics) + rest;
    lemma_head_shape(ctx, command_type, data_words, statics, rest);
    assert(special_section(ctx) == w3 + room + copies + moves);
    crate::ipc::raw::lemma_concat_assoc(w12, w3 + room + copies + moves, tail);
    crate::ipc::raw::lemma_concat_assoc(w12, w3 + room + copies, moves);
    crate::ipc::raw::lemma_concat_assoc(w12, w3 + room, copies);
    crate::ipc::raw::lemma_concat_assoc(w12, w3, room);
}

/// The words that head a written message are read at their places.
pub proof fn lemma_received_words(
    ctx: &CommandContext,
    command_type: u32,
    data_words: u32,
    statics: bool,
    rest: Seq<u8>,
)
    ensures
        ({
            let msg = head_section(ctx, command_type, data_words, statics) + rest;
            &&& msg.len() >= 8
            &&& word_at(msg, 0) == first_word(ctx, command_type, statics)
            &&& word_at(msg, 4) == second_word(ctx, data_words, statics)
            &&& has_special_header(ctx) ==> msg.len() >= 12 && word_at(msg, 8) == third_word(ctx)
        }),
{
    let x1 = first_word(ctx, command_type, statics);
    let x2 = second_word(ctx, data_words, statics);
    let w1 = le_bytes_u32(x1);
    let w2 = le_bytes_u32(x2);
    let after = special_section(ctx) + (descriptor_section(ctx, statics) + rest);
    lemma_head_shape(ctx, command_type, data_words, statics, rest);
    crate::ipc::raw::lemma_concat_assoc(w1, w2, after);
    crate::ipc::raw::lemma_concat_assoc(w1, w2 + after, Seq::<u8>::empty());
    lemma_word_at_of_le(Seq::<u8>::empty(), x1, w2 + after);
    lemma_word_at_of_le(w1, x2, after);
    if has_special_header(ctx) {
        let x3 = third_word(ctx);
        let w3 = le_bytes_u32(x3);
        let room = process_id_room(ctx);
        let copies = wire_all(ctx.in_params.copy_handles@);
        let moves = wire_all(ctx.in_params.move_handles@);
        let tail = descriptor_section(ctx, statics) + rest;
        lemma_special_shape(ctx, command_type, data_words, statics, rest);
        crate::ipc::raw::lemma_concat_assoc(w1 + w2 + w3 + room + copies, moves, tail);
        crate::ipc::raw::lemma_concat_assoc(w1 + w2 + w3 + room, copies, moves + tail);
        crate::ipc::raw::lemma_concat_assoc(w1 + w2 + w3, room, copies + (moves + tail));
        lemma_word_at_of_le(w1 + w2, x3, room + (copies + (moves + tail)));
    }
}

/// The handles of a written message are read at their places, and the room
/// for the process id reads as zero.
pub proof fn lemma_received_handles(
    ctx: &CommandContext,
    command_type: u32,
    data_words: u32,
    statics: bool,
    rest: Seq<u8>,
)
    requires
        has_special_header(ctx),
    ensures
        ({
            let msg = head_section(ctx, command_type, data_words, statics) + rest;
            let at: int = if ctx.in_params.send_process_id {
                20
            } else {
                12
            };
            let copies = ctx.in_params.copy_handles@;
            let moves = ctx.in_params.move_handles@;
            &&& Seq::new(copies.len(), |i: int| word_at(msg, at + 4 * i)) == copies
            &&& Seq::new(moves.len(), |i: int| word_at(msg, at + 4 * copies.len() + 4 * i))
                == moves
            &&& ctx.in_params.send_process_id ==> msg.len() >= 20 && le_value_u64(
                msg.subrange(12, 20),
            ) == 0
        }),
{
    let msg = head_section(ctx, command_type, data_words, statics) + rest;
    let w1 = le_bytes_u32(first_word(ctx, command_type, statics));
    let w2 = le_bytes_u32(second_word(ctx, data_words, statics));
    let w3 = le_bytes_u32(third_word(ctx));
    let room = process_id_room(ctx);
    let copies = ctx.in_params.copy_handles@;
    let moves = ctx.in_params.move_handles@;
    let tail = descriptor_section(ctx, statics) + rest;
    let at: int = if ctx.in_params.send_process_id {
        20
    } else {
        12
    };
    let words = w1 + w2 + w3;
    let before = words + room;
    lemma_special_shape(ctx, command_type, data_words, statics, rest);
    assert(msg == before + wire_all(copies) + wire_all(moves) + tail);
    assert(before.len() == at);
    lemma_words_len(copies);
    crate::ipc::raw::lemma_concat_assoc(before + wire_all(copies), wire_all(moves), tail);
    assert forall|i: int| 0 <= i < copies.len() implies word_at(msg, at + 4 * i) == copies[i] by {
        lemma_word_at_in_words(before, copies, wire_all(moves) + tail, i);
    }
    assert forall|i: int| 0 <= i < moves.len() implies word_at(msg, at + 4 * copies.len() + 4 * i)
        == moves[i] by {
        lemma_word_at_in_words(before + wire_all(copies), moves, tail, i);
    }
    assert(Seq::new(copies.len(), |i: int| word_at(msg, at + 4 * i)) =~= copies);
    assert(Seq::new(moves.len(), |i: int| word_at(msg, at + 4 * copies.len() + 4 * i)) =~= moves);
    if ctx.in_params.send_process_id {
        crate::ipc::raw::lemma_concat_assoc(words + room, wire_all(copies), wire_all(moves) + tail);
        crate::ipc::raw::lemma_concat_part(words, room, wire_all(copies) + (wire_all(moves) + tail));
        lemma_zero_value();
    }
}

/// Eight zero bytes stand for zero.
pub proof fn lemma_zero_value()
    ensures
        le_value_u64(zeros(8)) == 0,
{
    assert(zeros(8).subrange(0, 4) =~= zeros(4));
    assert(zeros(8).subrange(4, 8) =~= zeros(4));
}

/// What `write_head` writes, `read_head` reads: the head of a message that
/// was written for `ctx`, with its data words behind it, is read as the
/// command type, the process-id flag and the handles of `ctx`, in their
/// order, and the data words are found where they were put. The room for
/// the process id, which the kernel fills in, reads as zero.
#[verifier::rlimit(50)]
pub proof fn lemma_head_round_trip(
    ctx: &CommandContext,
    command_type: u32,
    data_words: u32,
    statics: bool,
    rest: Seq<u8>,
)
    requires
        ctx.wf(),
        command_type < 0x1_0000,
        data_words < 0x400,
        rest.len() >= 4 * data_words,
    ensures
        ({
            let msg = head_section(ctx, command_type, data_words, statics) + rest;
            let head = received_head(msg);
            &&& head.is_some()
            &&& head.unwrap().command_type == command_type
            &&& head.unwrap().send_process_id == ctx.in_params.send_process_id
            &&& head.unwrap().process_id == 0
            &&& head.unwrap().copy_handles == ctx.in_params.copy_handles@
            &&& head.unwrap().move_handles == ctx.in_params.move_handles@
            &&& head.unwrap().data_words_offset == head_len(ctx, statics)
            &&& head.unwrap().data_words == data_words
        }),
{
    let msg = head_section(ctx, command_type, data_words, statics) + rest;
    lemma_received_words(ctx, command_type, data_words, statics, rest);
    lemma_head_len(ctx, command_type, data_words, statics);
    lemma_header_word_1_fields(
        command_type,
        if statics {
            ctx.send_statics@.len()
        } else {
            0
        },
        ctx.send_buffers@.len(),
        ctx.receive_buffers@.len(),
        ctx.exchange_buffers@.len(),
    );
    lemma_header_word_2_fields(
        data_words,
        if statics {
            ctx.receive_statics@.len()
        } else {
            0
        },
        has_special_header(ctx),
    );
    assert(received_special(msg) == has_special_header(ctx));
    assert(received_descriptors_len(msg) == (if statics {
        8 * ctx.send_statics@.len()
    } else {
        0
    }) + 12 * ctx.send_buffers@.len() + 12 * ctx.receive_buffers@.len() + 12
        * ctx.exchange_buffers@.len());
    if has_special_header(ctx) {
        lemma_special_word_fields(
            ctx.in_params.send_process_id,
            ctx.in_params.copy_handles@.len(),
            ctx.in_params.move_handles@.len(),
        );
        lemma_received_handles(ctx, command_type, data_words, statics, rest);
        assert(received_special_len(msg) == 4 + (if ctx.in_params.send_process_id {
            8int
        } else {
            0int
        }) + 4 * ctx.in_params.copy_handles@.len() + 4 * ctx.in_params.move_handles@.len());
    } else {
        assert(ctx.in_params.copy_handles@ =~= Seq::<u32>::empty());
        assert(ctx.in_params.move_handles@ =~= Seq::<u32>::empty());
    }
    assert(msg.len() == head_len(ctx, statics) + rest.len());
    let head = received_head(msg);
    assert(head.is_some());
    assert(head.unwrap().copy_handles =~= ctx.in_params.copy_handles@);
    assert(head.unwrap().move_handles =~= ctx.in_params.move_handles@);
}

} // verus!
