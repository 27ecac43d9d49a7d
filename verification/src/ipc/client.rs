//! How an argument takes part in a client's call: what it adds to the
//! request, and how it is read from the response.

use crate::ipc::raw::{put, RawValue};
use crate::ipc::{
    lemma_set_frame, lemma_value_start, value_end, value_start, CommandContext, DataWalker,
};
use crate::result::ResultCode;
use vstd::prelude::*;

verus! {

/// An argument that a client sends. A call goes over its arguments twice, in
/// the order in which the command declares them: first to lay out the raw
/// data and to collect buffers and handles, then, once the message is
/// written, to store the raw data.
pub trait RequestCommandParameter: Sized {
    /// Where the cursor stands after the argument's raw data, coming from
    /// `offset`.
    spec fn raw_end(offset: int) -> int;

    /// An argument never moves the cursor back.
    proof fn lemma_raw_end(offset: int)
        requires
            offset >= 0,
        ensures
            Self::raw_end(offset) >= offset,
    ;

    /// Reserves the room of the argument's raw data, and adds its buffers
    /// and handles to `ctx`.
    fn before_request_write(var: &Self, walker: &mut DataWalker, ctx: &mut CommandContext) -> (r:
        Result<(), ResultCode>)
        requires
            old(ctx).wf(),
            Self::raw_end(old(walker).cur_offset as int) <= usize::MAX,
        ensures
            final(ctx).wf(),
            final(walker).base == old(walker).base,
            r.is_ok() ==> final(walker).cur_offset == Self::raw_end(old(walker).cur_offset as int),
    ;

    /// Stores the argument's raw data in `msg`, in the room that the first
    /// pass reserved; no byte outside that room changes.
    fn before_send_sync_request(
        var: &Self,
        walker: &mut DataWalker,
        ctx: &mut CommandContext,
        msg: &mut Vec<u8>,
    ) -> (r: Result<(), ResultCode>)
        requires
            old(ctx).wf(),
            old(walker).base + Self::raw_end(old(walker).cur_offset as int) <= old(msg)@.len(),
        ensures
            final(ctx).wf(),
            final(walker).base == old(walker).base,
            final(msg)@.len() == old(msg)@.len(),
            final(msg)@.subrange(0, old(walker).base + old(walker).cur_offset) == old(msg)@.subrange(0, old(walker).base + old(walker).cur_offset),
            final(msg)@.subrange(
                old(walker).base + Self::raw_end(old(walker).cur_offset as int),
                old(msg)@.len() as int,
            ) == old(msg)@.subrange(
                old(walker).base + Self::raw_end(old(walker).cur_offset as int),
                old(msg)@.len() as int,
            ),
            r.is_ok() ==> final(walker).cur_offset == Self::raw_end(old(walker).cur_offset as int),
    ;
}

/// A result of type `O` that a client reads from a response.
pub trait ResponseCommandParameter<O>: Sized {
    /// Where the cursor stands after the result's raw data, coming from
    /// `offset`.
    spec fn raw_end(offset: int) -> int;

    /// A result never moves the cursor back.
    proof fn lemma_raw_end(offset: int)
        requires
            offset >= 0,
        ensures
            Self::raw_end(offset) >= offset,
    ;

    /// Reads the result from `msg` and from what `ctx` holds of the
    /// response.
    fn after_response_read(walker: &mut DataWalker, ctx: &mut CommandContext, msg: &Vec<u8>) -> (r:
        Result<O, ResultCode>)
        requires
            old(ctx).wf(),
            old(walker).base + Self::raw_end(old(walker).cur_offset as int) <= msg@.len(),
        ensures
            final(ctx).wf(),
            final(walker).base == old(walker).base,
            r.is_ok() ==> final(walker).cur_offset == Self::raw_end(old(walker).cur_offset as int),
    ;
}

/// A value with a byte form is an argument: it takes its place in the raw
/// data and adds nothing else to the request.
impl<T: RawValue> RequestCommandParameter for T {
    open spec fn raw_end(offset: int) -> int {
        value_end::<T>(offset)
    }

    proof fn lemma_raw_end(offset: int) {
        lemma_value_start::<T>(offset);
    }

    fn before_request_write(var: &Self, walker: &mut DataWalker, ctx: &mut CommandContext) -> (r:
        Result<(), ResultCode>)
        ensures
            r.is_ok(),
            *final(ctx) == *old(ctx),
    {
        walker.advance::<T>();
        Ok(())
    }

    fn before_send_sync_request(
        var: &Self,
        walker: &mut DataWalker,
        ctx: &mut CommandContext,
        msg: &mut Vec<u8>,
    ) -> (r: Result<(), ResultCode>)
        ensures
            r.is_ok(),
            *final(ctx) == *old(ctx),
            final(msg)@ == put(
                old(msg)@,
                old(walker).base + value_start::<T>(old(walker).cur_offset as int),
                var.spec_bytes(),
            ),
    {
        proof {
            lemma_set_frame::<T>(msg@, *walker, *var);
        }
        walker.advance_set::<T>(msg, *var);
        Ok(())
    }
}

/// A value with a byte form is a result: it is read from its place in the
/// raw data.
impl<T: RawValue> ResponseCommandParameter<T> for T {
    open spec fn raw_end(offset: int) -> int {
        value_end::<T>(offset)
    }

    proof fn lemma_raw_end(offset: int) {
        lemma_value_start::<T>(offset);
    }

    fn after_response_read(walker: &mut DataWalker, ctx: &mut CommandContext, msg: &Vec<u8>) -> (r:
        Result<T, ResultCode>)
        ensures
            *final(ctx) == *old(ctx),
            r == Ok::<T, ResultCode>(
                T::spec_value(
                    msg@.subrange(
                        old(walker).base + value_start::<T>(old(walker).cur_offset as int),
                        old(walker).base + value_end::<T>(old(walker).cur_offset as int),
                    ),
                ),
            ),
    {
        Ok(walker.advance_get::<T>(msg))
    }
}

} // verus!
