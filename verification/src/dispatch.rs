//! The dispatcher: what one call of a contract function on the monitored
//! account yields. Only `submit` and `submit_with_args` carry a transaction
//! whose hash can be had, so only they yield events.

use vstd::prelude::*;
use crate::decode::{decode_call, decode_transaction, transaction_decoding};
use crate::engine::{
    decode_submit_args, decode_submit_result, submit_args_transaction, submit_result_status,
};
use crate::event::{assemble_event, assembled_event};
use crate::receipt::{ExecutionStatus, ExecutionStatusView};
use crate::text::text_is;
use crate::types::{option_view, AuroraTransactionEvent, EventContext, EventContextView, EventView};

verus! {

/// The methods of the engine that the dispatcher tells apart.
#[derive(Clone, Copy, Debug, PartialEq, Eq)]
pub enum Method {
    /// Carries a raw transaction inside a structure of arguments.
    SubmitWithArgs,
    /// Carries a raw transaction as its whole argument.
    Submit,
    /// Calls a contract of the embedded chain directly.
    Call,
    /// Deploys code to the embedded chain directly.
    DeployCode,
    /// Any other method.
    Other,
}

/// The method that a name stands for. Names are compared as they are.
pub open spec fn method_of(name: Seq<char>) -> Method {
    if name == "submit_with_args"@ {
        Method::SubmitWithArgs
    } else if name == "submit"@ {
        Method::Submit
    } else if name == "call"@ {
        Method::Call
    } else if name == "deploy_code"@ {
        Method::DeployCode
    } else {
        Method::Other
    }
}

/// Classifies a call by the name of its method.
pub fn classify_method(name: &str) -> (method: Method)
    ensures
        method == method_of(name@),
{
    if text_is(name, "submit_with_args") {
        Method::SubmitWithArgs
    } else if text_is(name, "submit") {
        Method::Submit
    } else if text_is(name, "call") {
        Method::Call
    } else if text_is(name, "deploy_code") {
        Method::DeployCode
    } else {
        Method::Other
    }
}

/// The raw transaction that a call carries, if it carries one that can be
/// had: the whole argument of `submit`, the `tx_data` of the decoded
/// arguments of `submit_with_args`.
pub open spec fn carried_transaction(method: Method, args: Seq<u8>) -> Option<Seq<u8>> {
    match method {
        Method::Submit => Some(args),
        Method::SubmitWithArgs => submit_args_transaction(args),
        _ => None,
    }
}

/// The event of a raw transaction whose wrapping call ended with `status`.
/// There is one exactly if the transaction decodes, the wrapping call
/// succeeded with a value, and that value decodes as the engine's result.
pub open spec fn transaction_event(
    ctx: EventContextView,
    raw: Seq<u8>,
    status: ExecutionStatusView,
) -> Option<EventView> {
    match (transaction_decoding(raw), status) {
        (Some(tx), ExecutionStatusView::SuccessValue(value)) => match submit_result_status(value) {
            Some(inner) => Some(assembled_event(ctx, tx, inner)),
            None => None,
        },
        _ => None,
    }
}

/// The event of one call of a contract function, if it yields one.
pub open spec fn call_event(
    ctx: EventContextView,
    method_name: Seq<char>,
    args: Seq<u8>,
    status: ExecutionStatusView,
) -> Option<EventView> {
    match carried_transaction(method_of(method_name), args) {
        Some(raw) => transaction_event(ctx, raw, status),
        None => None,
    }
}

/// Decodes a raw transaction and the result of its wrapping call, one stage
/// after the other, and assembles the event. The first stage that fails ends
/// the attempt: there is no event then, and no error.
pub fn event_of_transaction(ctx: &EventContext, raw: &[u8], status: &ExecutionStatus) -> (event:
    Option<AuroraTransactionEvent>)
    ensures
        option_view(event) == transaction_event(ctx@, raw@, status@),
{
    let tx = match decode_transaction(raw) {
        Some(tx) => tx,
        None => {
            return None;
        },
    };
    let value = match status {
        ExecutionStatus::SuccessValue(value) => value,
        _ => {
            return None;
        },
    };
    let inner = match decode_submit_result(value.as_slice()) {
        Some(inner) => inner,
        None => {
            return None;
        },
    };
    Some(assemble_event(ctx, tx, inner))
}

/// Handles one call of a contract function on the monitored account.
/// `submit` and `submit_with_args` yield the event of the transaction they
/// carry, where every stage of decoding succeeds. `call` is decoded too, but
/// the hash of the transaction it stands for cannot be had from the call, so
/// it yields nothing, and neither does `deploy_code` or any other method.
pub fn dispatch(
    ctx: &EventContext,
    method_name: &str,
    args: &[u8],
    status: &ExecutionStatus,
) -> (event: Option<AuroraTransactionEvent>)
    ensures
        option_view(event) == call_event(ctx@, method_name@, args@, status@),
{
    match classify_method(method_name) {
        Method::SubmitWithArgs => match decode_submit_args(args) {
            Some(raw) => event_of_transaction(ctx, raw.as_slice(), status),
            None => None,
        },
        Method::Submit => event_of_transaction(ctx, args, status),
        Method::Call => {
            let _request = decode_call(args, ctx.predecessor_id.as_str());
            None
        },
        Method::DeployCode => None,
        Method::Other => None,
    }
}

} // verus!
