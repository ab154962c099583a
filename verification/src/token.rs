//! The cancellation token: a flag that goes from live to cancelled and never
//! back, shared between the controller and one session.
//!
//! The shared flag is a `tokio_util::sync::CancellationToken`. It can be set
//! through any clone at any time, so nothing is claimed of what it holds;
//! what is stated of it is which flag a handle is on: a clone is on the flag
//! of the handle it was cloned from, and a newly made flag is another than
//! any that is held at that moment. Beside the flag every [`Token`] keeps a
//! mark of its own that records what was requested through this very handle:
//! a handle through which cancellation has been requested reports it from
//! then on, while a handle through which it has not may still report it.

use tokio_util::sync::CancellationToken;
use vstd::prelude::*;

verus! {

#[verifier::external_type_specification]
#[verifier::external_body]
pub struct ExCancellationToken(tokio_util::sync::CancellationToken);

/// Calls `CancellationToken::new`, which allocates a flag of its own. The
/// result is therefore another flag than `beside`, a flag that the caller
/// holds while the call is made: equality of the outside type compares the
/// shared allocation. Nothing is claimed of what the new flag holds.
#[verifier::external_body]
fn mint(beside: Option<&CancellationToken>) -> (shared: CancellationToken)
    ensures
        beside matches Some(held) ==> shared != *held,
{
    CancellationToken::new()
}

/// Calls `CancellationToken::cancel`, which sets the shared flag and returns
/// at once when it is set already. Nothing is claimed of its effect.
#[verifier::external_body]
fn signal(shared: &CancellationToken) {
    shared.cancel();
}

/// Calls `CancellationToken::is_cancelled`, which reads the shared flag.
/// Another holder of the flag may set it between any two calls, so nothing is
/// claimed of the answer.
#[verifier::external_body]
fn fired(shared: &CancellationToken) -> (cancelled: bool) {
    shared.is_cancelled()
}

/// Calls `CancellationToken::clone`, which hands out another reference to
/// the same shared allocation: the copy is the flag that was cloned, as the
/// equality of the outside type has it.
#[verifier::external_body]
fn duplicate(shared: &CancellationToken) -> (copy: CancellationToken)
    ensures
        copy == *shared,
{
    shared.clone()
}

/// A handle on a cancellation flag.
#[derive(Debug)]
pub struct Token {
    shared: CancellationToken,
    requested: bool,
}

/// The contents of a [`Token`].
pub struct TokenView {
    /// The shared flag that the handle is on.
    pub flag: CancellationToken,
    /// Whether cancellation has been requested through this handle, or
    /// through the handle it was shared from before it was shared.
    pub requested: bool,
}

impl View for Token {
    type V = TokenView;

    closed spec fn view(&self) -> TokenView {
        TokenView { flag: self.shared, requested: self.requested }
    }
}

impl Token {
    /// Whether cancellation has been requested through this handle, or
    /// through the handle it was shared from before it was shared.
    pub open spec fn cancel_requested(&self) -> bool {
        self@.requested
    }

    /// The shared flag that the handle is on.
    pub open spec fn flag(&self) -> CancellationToken {
        self@.flag
    }

    /// A live token with a flag of its own.
    pub fn new() -> (token: Token)
        ensures
            !token.cancel_requested(),
    {
        Token { shared: mint(None), requested: false }
    }

    /// A handle on a flag that was made elsewhere. Nothing has been requested
    /// through the new handle.
    pub fn wrap(shared: CancellationToken) -> (token: Token)
        ensures
            !token.cancel_requested(),
            token.flag() == shared,
    {
        Token { shared, requested: false }
    }

    /// The shared flag, for code that waits on it.
    pub fn shared(&self) -> (shared: &CancellationToken)
        ensures
            *shared == self.flag(),
    {
        &self.shared
    }

    /// Another handle on the same flag. What has been requested through this
    /// handle holds of the other too.
    pub fn share(&self) -> (other: Token)
        ensures
            other@ == self@,
    {
        Token { shared: duplicate(&self.shared), requested: self.requested }
    }

    /// Requests cancellation. This may be done any number of times; every
    /// request after the first changes nothing.
    pub fn cancel(&mut self)
        ensures
            final(self).cancel_requested(),
            final(self).flag() == old(self).flag(),
    {
        signal(&self.shared);
        self.requested = true;
    }

    /// Whether the token is cancelled: the shared flag is read, and the
    /// answer is that of [`Token::cancelled_when`]. Any handle may find that
    /// another handle has requested cancellation.
    pub fn is_cancelled(&self) -> (cancelled: bool)
        ensures
            self.cancel_requested() ==> cancelled,
    {
        let flag_set = fired(&self.shared);
        self.cancelled_when(flag_set)
    }

    /// Whether the token is cancelled, given what the shared flag holds: it
    /// is if cancellation was requested through this handle or the flag is
    /// set.
    pub fn cancelled_when(&self, flag_set: bool) -> (cancelled: bool)
        ensures
            cancelled == (self.cancel_requested() || flag_set),
    {
        self.requested || flag_set
    }

    /// Retires the session bound to this token and binds the handle to a
    /// token of its own for the next session: cancellation is requested
    /// through the old flag, which is handed back, and a token on a new flag
    /// takes its place. Exactly the previous session is cancelled, and the
    /// two tokens are never on the same flag.
    pub fn supersede(&mut self) -> (retired: Token)
        ensures
            retired@ == (TokenView { flag: old(self).flag(), requested: true }),
            !final(self).cancel_requested(),
            final(self).flag() != old(self).flag(),
            retired != *final(self),
    {
        self.cancel();
        let mut other = Token { shared: mint(Some(&self.shared)), requested: false };
        std::mem::swap(self, &mut other);
        other
    }
}

} // verus!
