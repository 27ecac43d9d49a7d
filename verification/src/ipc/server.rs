//! How an argument takes part in serving a call: how it is read from the
//! request, and what it adds to the response.

use crate::ipc::raw::{put, RawValue};
use crate::ipc::{lemma_value_start, value_end, value_start, CommandContext, DataWalker};
use crate::result::ResultCode;
use vstd::prelude::*;

verus! {

/// The context of a call that is being served: the command context, the
/// message, and the cursor over the message's raw data.
pub struct ServerContext {
    /// The command context of the call.
    pub ctx: CommandContext,
    /// The cursor over the raw data of the message.
    pub raw_data_walker: DataWalker,
    /// The message: the request as it came, then the response.
    pub msg: Vec<u8>,
}

impl ServerContext {
    /// The context of serving the call of `ctx` whose message is `msg`, with
    /// the cursor `raw_data_walker` over its raw data.
    pub fn new(ctx: CommandContext, raw_data_walker: DataWalker, msg: Vec<u8>) -> (s: Self)
        ensures
            s.ctx == ctx,
            s.raw_data_walker == raw_data_walker,
            s.msg == msg,
    {
        Self { ctx, raw_data_walker, msg }
    }

    /// Whether raw data up to the offset `end` of the cursor's region lies
    /// inside the message.
    pub open spec fn holds(&self, end: int) -> bool {
        self.raw_data_walker.base + end <= self.msg@.len()
    }
}

/// An argument of type `O` that a server reads from a request.
pub trait RequestCommandParameter<O>: Sized {
    /// Where the cursor stands after the argument's raw data, coming from
    /// `offset`.
    spec fn raw_end(offset: int) -> int;

    /// An argument never moves the cursor back.
    proof fn lemma_raw_end(offset: int)
        requires
            offset >= 0,
        ensures
            Self::raw_end(offset) >= offset,
    ;

    /// Reads the argument from the request; the message stays as it is.
    fn after_request_read(ctx: &mut ServerContext) -> (r: Result<O, ResultCode>)
        requires
            old(ctx).ctx.wf(),
            old(ctx).holds(Self::raw_end(old(ctx).raw_data_walker.cur_offset as int)),
        ensures
            final(ctx).ctx.wf(),
            final(ctx).msg@ == old(ctx).msg@,
            final(ctx).raw_data_walker.base == old(ctx).raw_data_walker.base,
            r.is_ok() ==> final(ctx).raw_data_walker.cur_offset == Self::raw_end(
                old(ctx).raw_data_walker.cur_offset as int,
            ),
    ;
}

/// A result that a server sends. Serving goes over the results twice, in the
/// order in which the command declares them: first to lay out the raw data,
/// then, once the response is written, to store it. What the first pass
/// computed for the second travels in `CarryState`.
pub trait ResponseCommandParameter: Sized {
    type CarryState;

    /// Where the cursor stands after the result's raw data, coming from
    /// `offset`.
    spec fn raw_end(offset: int) -> int;

    /// A result never moves the cursor back.
    proof fn lemma_raw_end(offset: int)
        requires
            offset >= 0,
        ensures
            Self::raw_end(offset) >= offset,
    ;

    /// Reserves the room of the result's raw data.
    fn before_response_write(raw: &Self, ctx: &mut ServerContext) -> (r: Result<
        Self::CarryState,
        ResultCode,
    >)
        requires
            old(ctx).ctx.wf(),
            Self::raw_end(old(ctx).raw_data_walker.cur_offset as int) <= usize::MAX,
        ensures
            final(ctx).ctx.wf(),
            final(ctx).msg@ == old(ctx).msg@,
            final(ctx).raw_data_walker.base == old(ctx).raw_data_walker.base,
            r.is_ok() ==> final(ctx).raw_data_walker.cur_offset == Self::raw_end(
                old(ctx).raw_data_walker.cur_offset as int,
            ),
    ;

    /// Stores the result's raw data in the message, in the room that the
    /// first pass reserved.
    fn after_response_write(raw: Self, carry_state: Self::CarryState, ctx: &mut ServerContext) -> (r:
        Result<(), ResultCode>)
        requires
            old(ctx).ctx.wf(),
            old(ctx).holds(Self::raw_end(old(ctx).raw_data_walker.cur_offset as int)),
        ensures
            final(ctx).ctx.wf(),
            final(ctx).msg@.len() == old(ctx).msg@.len(),
            final(ctx).raw_data_walker.base == old(ctx).raw_data_walker.base,
            r.is_ok() ==> final(ctx).raw_data_walker.cur_offset == Self::raw_end(
                old(ctx).raw_data_walker.cur_offset as int,
            ),
    ;
}

/// A value with a byte form is an argument: it is read from its place in
/// the raw data.
impl<T: RawValue> RequestCommandParameter<T> for T {
    open spec fn raw_end(offset: int) -> int {
        value_end::<T>(offset)
    }

    proof fn lemma_raw_end(offset: int) {
        lemma_value_start::<T>(offset);
    }

    fn after_request_read(ctx: &mut ServerContext) -> (r: Result<T, ResultCode>)
        ensures
            final(ctx).ctx == old(ctx).ctx,
            r == Ok::<T, ResultCode>(
                T::spec_value(
                    old(ctx).msg@.subrange(
                        old(ctx).raw_data_walker.base + value_start::<T>(
                            old(ctx).raw_data_walker.cur_offset as int,
                        ),
                        old(ctx).raw_data_walker.base + value_end::<T>(
                            old(ctx).raw_data_walker.cur_offset as int,
                        ),
                    ),
                ),
            ),
    {
        Ok(ctx.raw_data_walker.advance_get::<T>(&ctx.msg))
    }
}

/// A value with a byte form is a result: it takes its place in the raw data
/// and adds nothing else to the response.
impl<T: RawValue> ResponseCommandParameter for T {
    type CarryState = ();

    open spec fn raw_end(offset: int) -> int {
        value_end::<T>(offset)
    }

    proof fn lemma_raw_end(offset: int) {
        lemma_value_start::<T>(offset);
    }

    fn before_response_write(raw: &Self, ctx: &mut ServerContext) -> (r: Result<(), ResultCode>)
        ensures
            r.is_ok(),
            final(ctx).ctx == old(ctx).ctx,
    {
        ctx.raw_data_walker.advance::<T>();
        Ok(())
    }

    fn after_response_write(raw: Self, carry_state: (), ctx: &mut ServerContext) -> (r: Result<
        (),
        ResultCode,
    >)
        ensures
            r.is_ok(),
            final(ctx).ctx == old(ctx).ctx,
            final(ctx).msg@ == put(
                old(ctx).msg@,
                old(ctx).raw_data_walker.base + value_start::<T>(
                    old(ctx).raw_data_walker.cur_offset as int,
                ),
                raw.spec_bytes(),
            ),
    {
        ctx.raw_data_walker.advance_set::<T>(&mut ctx.msg, raw);
        Ok(())
    }
}

} // verus!
