//! The "copied" indicator of one displayed entry: a state machine with the
//! states idle and copied, driven by copy requests and by a reset timer.
//!
//! The machine decides; its owner acts. A copy request hands back what is to
//! be done: the text for the clipboard, the timer to cancel and the timer to
//! start. Each timer carries a token, and a timer that fires is heeded only
//! if its token is the pending one, so a timer that a later request has
//! superseded changes nothing.

use vstd::prelude::*;

verus! {

/// How long the indicator stays on after a copy request, in seconds.
pub const RESET_DELAY_SECS: u64 = 2;

/// What a `CopyFeedback` holds: whether the indicator is on, and the token
/// of the timer started last.
pub ghost struct CopyFeedbackView {
    pub copied: bool,
    pub generation: u64,
}

impl CopyFeedbackView {
    /// The token of the pending reset timer: there is one exactly while the
    /// indicator is on.
    pub open spec fn pending(self) -> Option<u64> {
        if self.copied {
            Some(self.generation)
        } else {
            None
        }
    }

    /// The token that the next timer gets. It differs from that of the
    /// timer started last.
    pub open spec fn next_token(self) -> u64 {
        if self.generation == u64::MAX {
            0
        } else {
            (self.generation + 1) as u64
        }
    }

    /// The state after a copy request: the indicator is on, and a new timer
    /// is pending.
    pub open spec fn after_request(self) -> CopyFeedbackView {
        CopyFeedbackView { copied: true, generation: self.next_token() }
    }

    /// The state after the timer with the given token has fired: idle if
    /// that timer was the pending one, else unchanged.
    pub open spec fn after_timer(self, token: u64) -> CopyFeedbackView {
        if self.pending() == Some(token) {
            CopyFeedbackView { copied: false, generation: self.generation }
        } else {
            self
        }
    }
}

/// The "copied" indicator of one entry.
#[derive(Clone, Copy, Debug, PartialEq, Eq)]
pub struct CopyFeedback {
    copied: bool,
    generation: u64,
}

/// What the owner of a `CopyFeedback` is to do after a copy request.
#[derive(Debug, PartialEq, Eq)]
pub struct CopyAction {
    /// The text to hand to the clipboard. Whether the clipboard took it is
    /// of no concern.
    pub text: String,
    /// The token of the timer to cancel, if one was pending.
    pub cancel: Option<u64>,
    /// The token of the timer to start.
    pub token: u64,
    /// The delay of the timer to start, in seconds.
    pub delay_secs: u64,
}

impl View for CopyFeedback {
    type V = CopyFeedbackView;

    closed spec fn view(&self) -> CopyFeedbackView {
        CopyFeedbackView { copied: self.copied, generation: self.generation }
    }
}

impl CopyFeedback {
    /// The initial state: idle, no timer pending.
    pub fn new() -> (state: Self)
        ensures
            state@ == (CopyFeedbackView { copied: false, generation: 0 }),
    {
        CopyFeedback { copied: false, generation: 0 }
    }

    /// Tells whether the indicator is on.
    pub fn is_copied(&self) -> (copied: bool)
        ensures
            copied == self@.copied,
    {
        self.copied
    }

    /// The token of the pending reset timer, if there is one.
    pub fn pending_reset(&self) -> (token: Option<u64>)
        ensures
            token == self@.pending(),
    {
        if self.copied {
            Some(self.generation)
        } else {
            None
        }
    }

    /// A copy request: the indicator goes on, or stays on, and a fresh timer
    /// replaces the pending one, if any. The action names the text for the
    /// clipboard, the timer to cancel and the timer to start.
    pub fn request_copy(&mut self, text: String) -> (action: CopyAction)
        ensures
            final(self)@ == old(self)@.after_request(),
            action.text == text,
            action.cancel == old(self)@.pending(),
            action.token == old(self)@.next_token(),
            action.delay_secs == RESET_DELAY_SECS,
    {
        let cancel = self.pending_reset();
        let token: u64 = if self.generation == u64::MAX {
            0
        } else {
            self.generation + 1
        };
        self.copied = true;
        self.generation = token;
        CopyAction { text, cancel, token, delay_secs: RESET_DELAY_SECS }
    }

    /// The timer with the given token has fired. If it was the pending one
    /// the indicator goes off and the result is true; a timer that was
    /// superseded changes nothing.
    pub fn timer_elapsed(&mut self, token: u64) -> (reset: bool)
        ensures
            final(self)@ == old(self)@.after_timer(token),
            reset == (old(self)@.pending() == Some(token)),
    {
        if self.copied && self.generation == token {
            self.copied = false;
            true
        } else {
            false
        }
    }

    /// The entry leaves the display. The result is the token of the timer
    /// to cancel, if one was pending; the state is gone.
    pub fn destroy(self) -> (cancel: Option<u64>)
        ensures
            cancel == self@.pending(),
    {
        self.pending_reset()
    }
}

/// After a copy request the indicator is on and a timer is pending; when
/// that timer fires with no request in between, the indicator is off and
/// no timer is pending.
pub proof fn lemma_copy_then_expiry(state: CopyFeedbackView)
    ensures
        state.after_request().copied,
        state.after_request().pending() == Some(state.next_token()),
        !state.after_request().after_timer(state.next_token()).copied,
        state.after_request().after_timer(state.next_token()).pending() is None,
{
}

/// A second copy request before the timer of the first has fired keeps the
/// indicator on and starts a timer with another token. The first timer is
/// the one to cancel; should it fire all the same, nothing changes. Only the
/// second timer turns the indicator off.
pub proof fn lemma_second_copy_restarts_delay(state: CopyFeedbackView)
    ensures
        ({
            let first = state.after_request();
            let second = first.after_request();
            &&& first.copied
            &&& second.copied
            &&& first.pending() is Some
            &&& second.pending() is Some
            &&& second.pending() != first.pending()
            &&& second.after_timer(first.generation) == second
            &&& !second.after_timer(second.generation).copied
        }),
{
}

/// A timer whose token is not the pending one changes nothing, and no timer
/// changes an idle state.
pub proof fn lemma_stale_timer_ignored(state: CopyFeedbackView, token: u64)
    requires
        state.pending() != Some(token),
    ensures
        state.after_timer(token) == state,
{
}

} // verus!
