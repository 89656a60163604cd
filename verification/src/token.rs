//! Marshaling of input-readiness tokens into their boundary representation.
//!
//! Before every input-rule call the runtime produces one token per input
//! port: not ready, or ready with a payload and a timestamp. The adapter
//! flattens each into a boundary record carrying status, a default advisory
//! action, the port identity, the serialized payload and the timestamp.

use vstd::prelude::*;

use crate::boundary::ZFCxxToken;
use crate::boundary::ZFCxxTokenAction;
use crate::boundary::ZFCxxTokenStatus;
use crate::data::ZFDataMessage;
use crate::data::ZFDataTrait;
use crate::errors::ZFError;

verus! {

/// Advisory action the runtime may take on a token.
#[derive(Clone, Copy, Debug, PartialEq, Eq, Structural)]
pub enum TokenAction {
    /// Consume the port's data in this run.
    Consume,
    /// Discard the port's data.
    Drop,
    /// Keep the port's data for the next run.
    KeepRun,
    /// Keep the port's data.
    Keep,
    /// Wait for more data before running.
    Wait,
}

/// Per-port input-readiness token, produced by the runtime before every
/// input-rule call and read (never mutated) by the adapter.
pub enum Token<D> {
    /// The port has no data available yet.
    NotReady,
    /// The port has data available, with its timestamp.
    Ready(ZFDataMessage<D>),
}

/// The boundary action each runtime action maps to. The runtime's two keep
/// variants collapse into the boundary's single `Keep` value.
pub open spec fn action_to_boundary(action: TokenAction) -> ZFCxxTokenAction {
    match action {
        TokenAction::Consume => ZFCxxTokenAction::Consume,
        TokenAction::Drop => ZFCxxTokenAction::Drop,
        TokenAction::KeepRun => ZFCxxTokenAction::Keep,
        TokenAction::Keep => ZFCxxTokenAction::Keep,
        TokenAction::Wait => ZFCxxTokenAction::Wait,
    }
}

impl ZFCxxTokenAction {
    /// Converts a runtime action into its boundary value.
    pub fn from(action: TokenAction) -> (r: Self)
        ensures
            r == action_to_boundary(action),
    {
        match action {
            TokenAction::Consume => ZFCxxTokenAction::Consume,
            TokenAction::Drop => ZFCxxTokenAction::Drop,
            TokenAction::KeepRun => ZFCxxTokenAction::Keep,
            TokenAction::Keep => ZFCxxTokenAction::Keep,
            TokenAction::Wait => ZFCxxTokenAction::Wait,
        }
    }
}

/// Whether marshaling this token succeeds: a not-ready token always does,
/// a ready one exactly when its payload serializes.
pub open spec fn token_serializable<D: ZFDataTrait>(token: Token<D>) -> bool {
    match token {
        Token::NotReady => true,
        Token::Ready(dm) => dm.data.serializable(),
    }
}

/// What the boundary record of a token must hold:
/// a not-ready token yields status `Pending`, action `Wait`, an empty
/// payload and timestamp zero; a ready token yields status `Ready`, action
/// `Consume`, its serialized payload and its timestamp.
pub open spec fn boundary_token_matches<D: ZFDataTrait>(
    b: ZFCxxToken,
    port: Seq<char>,
    token: Token<D>,
) -> bool {
    match token {
        Token::NotReady => b.status is Pending && b.action is Wait && b.port_id@ == port
            && b.data@ == Seq::<u8>::empty() && b.timestamp == 0,
        Token::Ready(dm) => b.status is Ready && b.action is Consume && b.port_id@ == port
            && b.data@ == dm.data.serialized() && b.timestamp == dm.timestamp,
    }
}

impl ZFCxxToken {
    /// Flattens one port's token into its boundary record, serializing the
    /// payload of a ready token and propagating that step's failure.
    pub fn from_token<D: ZFDataTrait>(token: &Token<D>, port_id: &str) -> (r: Result<
        Self,
        ZFError,
    >)
        ensures
            token_serializable(*token) ==> (r is Ok && boundary_token_matches(
                r->Ok_0,
                port_id@,
                *token,
            )),
            !token_serializable(*token) ==> r is Err,
    {
        match token {
            Token::NotReady => Ok(Self {
                status: ZFCxxTokenStatus::Pending,
                action: ZFCxxTokenAction::Wait,
                port_id: port_id.to_owned(),
                data: Vec::new(),
                timestamp: 0,
            }),
            Token::Ready(dm) => match dm.data.serialize() {
                Ok(data) => Ok(Self {
                    status: ZFCxxTokenStatus::Ready,
                    action: ZFCxxTokenAction::Consume,
                    port_id: port_id.to_owned(),
                    data,
                    timestamp: dm.timestamp,
                }),
                Err(e) => Err(e),
            },
        }
    }
}

/// Whether marshaling a whole token set succeeds: every token must.
pub open spec fn tokens_serializable<D: ZFDataTrait>(tokens: Seq<(String, Token<D>)>) -> bool {
    forall|i: int| 0 <= i < tokens.len() ==> token_serializable(#[trigger] tokens[i].1)
}

/// Converts the full token set of one invocation — one (port, token) pair
/// per input port — into a list of boundary records, one per pair and in
/// the pairs' order, propagating the first conversion failure.
pub fn tokens_to_boundary<D: ZFDataTrait>(tokens: &Vec<(String, Token<D>)>) -> (r: Result<
    Vec<ZFCxxToken>,
    ZFError,
>)
    ensures
        tokens_serializable(tokens@) ==> (r is Ok && r->Ok_0@.len() == tokens@.len() && forall|
            i: int,
        |
            0 <= i < tokens@.len() ==> boundary_token_matches(
                #[trigger] r->Ok_0@[i],
                tokens@[i].0@,
                tokens@[i].1,
            )),
        !tokens_serializable(tokens@) ==> r is Err,
{
    let mut out: Vec<ZFCxxToken> = Vec::new();
    let n = tokens.len();
    let mut i: usize = 0;
    while i < n
        invariant
            n == tokens@.len(),
            i <= n,
            out@.len() == i,
            forall|t: int| 0 <= t < i ==> token_serializable(#[trigger] tokens@[t].1),
            forall|t: int| 0 <= t < i ==> boundary_token_matches(
                #[trigger] out@[t],
                tokens@[t].0@,
                tokens@[t].1,
            ),
        decreases n - i,
    {
        match ZFCxxToken::from_token(&tokens[i].1, tokens[i].0.as_str()) {
            Ok(b) => out.push(b),
            Err(e) => {
                proof {
                    assert(!token_serializable(tokens@[i as int].1));
                }
                return Err(e);
            },
        }
        i += 1;
    }
    Ok(out)
}

} // verus!
