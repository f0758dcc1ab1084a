//! Copy requests of the result window: tokens, bounded retries and stale timers.
use crate::format::ColorFormat;
use vstd::prelude::*;

verus! {

/// Retries after the first attempt of one request.
pub const MAX_RETRIES: u8 = 3;

/// Delay before a retry, and how long a success is shown, in milliseconds.
pub const RETRY_MS: u32 = 50;

pub const COPIED_FEEDBACK_MS: u32 = 1600;

/// What to copy, and the button that asked for it.
#[derive(Debug, Clone, Copy, PartialEq, Eq, Structural)]
pub struct CopyTarget {
    pub format: ColorFormat,
    pub button_id: usize,
}

/// A copy that is not finished.
#[derive(Debug, Clone, Copy, PartialEq, Eq, Structural)]
pub struct CopyRequest {
    pub token: usize,
    pub target: CopyTarget,
    pub retries_left: u8,
}

/// The copy in progress, if any.
#[derive(Debug, Clone, Copy, PartialEq, Eq, Structural)]
pub struct CopyState {
    pub request: Option<CopyRequest>,
}

/// A retry of the current request: whether one is left, and the state after it.
pub open spec fn retried(state: CopyState, token: usize) -> (bool, CopyState) {
    match state.request {
        Some(request) => if request.token != token {
            (false, state)
        } else if request.retries_left == 0 {
            (false, CopyState { request: None })
        } else {
            (
                true,
                CopyState {
                    request: Some(
                        CopyRequest { retries_left: (request.retries_left - 1) as u8, ..request },
                    ),
                },
            )
        },
        None => (false, state),
    }
}

impl Default for CopyState {
    fn default() -> (r: Self)
        ensures
            r.request is None,
    {
        CopyState { request: None }
    }
}

impl CopyState {
    /// The request with this token, while it is current.
    pub open spec fn current(self, token: usize) -> Option<CopyRequest> {
        match self.request {
            Some(request) => if request.token == token {
                Some(request)
            } else {
                None
            },
            None => None,
        }
    }

    /// Starts a request in place of any other.
    pub fn replace(&mut self, token: usize, target: CopyTarget)
        ensures
            final(self).request == Some(CopyRequest { token, target, retries_left: MAX_RETRIES }),
    {
        self.request = Some(CopyRequest { token, target, retries_left: MAX_RETRIES });
    }

    pub fn matching(&self, token: usize) -> (r: Option<CopyRequest>)
        ensures
            r == self.current(token),
    {
        match self.request {
            Some(request) => {
                if request.token == token {
                    Some(request)
                } else {
                    None
                }
            },
            None => None,
        }
    }

    /// Uses up one retry of the request with this token. Without one left the
    /// request is over.
    pub fn reserve_retry(&mut self, token: usize) -> (r: bool)
        ensures
            (r, *final(self)) == retried(*old(self), token),
    {
        match self.request {
            Some(request) => {
                if request.token != token {
                    return false;
                }
                if request.retries_left == 0 {
                    self.request = None;
                    return false;
                }
                self.request = Some(
                    CopyRequest {
                        token: request.token,
                        target: request.target,
                        retries_left: request.retries_left - 1,
                    },
                );
                true
            },
            None => false,
        }
    }
}

/// The state after `n` retries of a request.
pub open spec fn after_retries(state: CopyState, token: usize, n: nat) -> CopyState
    decreases n,
{
    if n == 0 {
        state
    } else {
        retried(after_retries(state, token, (n - 1) as nat), token).1
    }
}

/// A busy clipboard is retried exactly three times. The next refusal ends the
/// request, and the machine is idle.
pub proof fn three_retries_then_idle(state: CopyState, token: usize, target: CopyTarget)
    requires
        state.request == Some(CopyRequest { token, target, retries_left: MAX_RETRIES }),
    ensures
        retried(after_retries(state, token, 0), token).0,
        retried(after_retries(state, token, 1), token).0,
        retried(after_retries(state, token, 2), token).0,
        !retried(after_retries(state, token, 3), token).0,
        after_retries(state, token, 4).request is None,
{
    reveal_with_fuel(after_retries, 5);
}

/// A replaced request is gone: its token neither matches nor retries, and the new
/// request is not touched by it.
pub proof fn replaced_requests_are_stale(state: CopyState, old_token: usize, token: usize, target: CopyTarget)
    requires
        state.request == Some(CopyRequest { token, target, retries_left: MAX_RETRIES }),
        old_token != token,
    ensures
        state.current(old_token) is None,
        retried(state, old_token) == (false, state),
        state.current(token) == state.request,
{
}

/// Hands out the numbers of requests and timers.
#[derive(Debug, Clone, Copy, PartialEq, Eq, Structural)]
pub struct CopyTokens {
    pub next: usize,
}

/// Every number has been used.
#[derive(Debug, Clone, Copy, PartialEq, Eq, Structural)]
pub struct TokensExhausted;

impl Default for CopyTokens {
    fn default() -> (r: Self)
        ensures
            r.next == 1,
    {
        CopyTokens { next: 1 }
    }
}

impl CopyTokens {
    /// The next number; numbers are never used twice.
    pub fn next_copy_token(&mut self) -> (r: Result<usize, TokensExhausted>)
        ensures
            old(self).next == usize::MAX ==> r == Err::<usize, TokensExhausted>(TokensExhausted)
                && final(self).next == old(self).next,
            old(self).next < usize::MAX ==> r == Ok::<usize, TokensExhausted>(old(self).next)
                && final(self).next == old(self).next + 1,
    {
        if self.next == usize::MAX {
            return Err(TokensExhausted);
        }
        let token: usize = self.next;
        self.next = token + 1;
        Ok(token)
    }
}

/// The generator after `n` numbers were taken.
pub open spec fn tokens_after(first: int, n: nat) -> int {
    first + n
}

/// Numbers taken at different times differ, and none is zero: a timer armed with
/// one is never mistaken for another or for no timer.
pub proof fn tokens_are_distinct(first: int, earlier: nat, later: nat)
    requires
        first >= 1,
        earlier < later,
    ensures
        tokens_after(first, earlier) != tokens_after(first, later),
        tokens_after(first, earlier) != 0,
{
}

/// A retry keeps what is to be copied, and uses up exactly one of those left.
pub proof fn retries_keep_their_target(state: CopyState, request: CopyRequest)
    requires
        state.request == Some(request),
    ensures
        request.retries_left > 0 ==> retried(state, request.token).0 && retried(
            state,
            request.token,
        ).1.request == Some(
            CopyRequest { retries_left: (request.retries_left - 1) as u8, ..request },
        ),
        request.retries_left == 0 ==> retried(state, request.token) == (
            false,
            CopyState { request: None },
        ),
        MAX_RETRIES == 3,
{
}

} // verus!
