//! Outcome of putting transcribed text where the user is typing.

use vstd::prelude::*;

use crate::error::{prefixed, AppError};
use crate::text::{chars_eq_str, chars_of};

verus! {

/// Outcome of a paste attempt, used to decide what the user is told.
#[derive(Clone, Copy, Debug, PartialEq, Eq)]
pub enum PasteOutcome {
    /// Text was copied to the clipboard. The user must paste manually.
    CopiedOnly,
    /// Text was copied to the clipboard and the paste keystroke was sent.
    CopiedAndPasted,
}

/// What a paste does once the text is on the clipboard.
#[derive(Clone, Copy, Debug, PartialEq, Eq)]
pub enum PastePlan {
    /// Leave the text on the clipboard only (automatic paste is off).
    ClipboardOnly,
    /// Send the paste keystrokes; with `terminal_first`, the terminal shortcut
    /// is tried before the standard one.
    SendKeys { terminal_first: bool },
}

/// Decides how to paste: nothing beyond the clipboard when automatic paste is
/// off; otherwise keystrokes, starting with the terminal shortcut when the
/// paste mode is "terminal" and the platform has that shortcut.
pub fn plan_paste(auto_paste: bool, paste_mode: &str, terminal_shortcut_supported: bool) -> (p:
    PastePlan)
    ensures
        !auto_paste ==> p == PastePlan::ClipboardOnly,
        auto_paste ==> p == (PastePlan::SendKeys {
            terminal_first: terminal_shortcut_supported && paste_mode@ == "terminal"@,
        }),
{
    if !auto_paste {
        PastePlan::ClipboardOnly
    } else {
        let mode = chars_of(paste_mode);
        PastePlan::SendKeys {
            terminal_first: terminal_shortcut_supported && chars_eq_str(&mode, "terminal"),
        }
    }
}

} // verus!

verus! {

/// What using the keyboard-input controller takes right now.
#[derive(Clone, Copy, Debug, PartialEq, Eq)]
pub enum InputAccess {
    /// An earlier initialisation failed; do not retry.
    Unavailable,
    /// Not initialised yet: initialise it first.
    NeedsInit,
    /// Initialised and ready.
    Ready,
}

/// Keeps one keyboard-input controller for the lifetime of the application.
///
/// The controller is created on first use and then reused, so the desktop asks
/// for input permission at most once. If creating it fails, the failure is
/// remembered and no further attempt is made until `reset`.
pub struct PasteController<H> {
    input: Option<H>,
    init_failed: bool,
}

impl<H> PasteController<H> {
    /// The controller held, if any.
    pub closed spec fn input(&self) -> Option<H> {
        self.input
    }

    /// Whether an initialisation failed since the last reset.
    pub closed spec fn has_failed(&self) -> bool {
        self.init_failed
    }

    /// What using the controller takes in a given state.
    pub open spec fn access_spec(&self) -> InputAccess {
        if self.has_failed() {
            InputAccess::Unavailable
        } else if self.input() is Some {
            InputAccess::Ready
        } else {
            InputAccess::NeedsInit
        }
    }

    /// A controller holder with nothing initialised.
    pub fn new() -> (c: PasteController<H>)
        ensures
            c.input() is None,
            !c.has_failed(),
    {
        PasteController { input: None, init_failed: false }
    }

    /// Drops the controller and forgets any failure.
    pub fn reset(&mut self)
        ensures
            final(self).input() is None,
            !final(self).has_failed(),
    {
        self.input = None;
        self.init_failed = false;
    }

    /// What using the controller takes now.
    pub fn access(&self) -> (a: InputAccess)
        ensures
            a == self.access_spec(),
    {
        if self.init_failed {
            InputAccess::Unavailable
        } else if self.input.is_some() {
            InputAccess::Ready
        } else {
            InputAccess::NeedsInit
        }
    }

    /// Records the result of creating the controller: keeps it, or remembers
    /// the failure so that it is not retried.
    pub fn record_init(&mut self, result: Result<H, String>) -> (r: Result<(), AppError>)
        ensures
            match result {
                Ok(h) => r is Ok && final(self).input() == Some(h) && final(self).has_failed()
                    == old(self).has_failed(),
                Err(e) => final(self).has_failed() && final(self).input() is None && (r matches Err(
                    AppError::PasteFailed(m),
                ) && m@ == "Input controller init failed: "@ + e@),
            },
    {
        match result {
            Ok(h) => {
                self.input = Some(h);
                Ok(())
            },
            Err(e) => {
                self.input = None;
                self.init_failed = true;
                Err(AppError::PasteFailed(prefixed("Input controller init failed: ", e.as_str())))
            },
        }
    }

    /// Takes the controller out to use it; `restore_input` puts it back.
    pub fn take_input(&mut self) -> (h: Option<H>)
        ensures
            h == old(self).input(),
            final(self).input() is None,
            final(self).has_failed() == old(self).has_failed(),
    {
        let mut taken = None;
        std::mem::swap(&mut taken, &mut self.input);
        taken
    }

    /// Puts the controller back after use.
    pub fn restore_input(&mut self, h: H)
        ensures
            final(self).input() == Some(h),
            final(self).has_failed() == old(self).has_failed(),
    {
        self.input = Some(h);
    }
}

/// The error reported when the controller is unavailable.
pub fn input_unavailable_error() -> (e: AppError)
    ensures
        e matches AppError::PasteFailed(m) && m@
            == "Input controller unavailable (permission denied or init failed)"@,
{
    AppError::PasteFailed(
        String::from_str("Input controller unavailable (permission denied or init failed)"),
    )
}

/// A holder whose controller failed to initialise answers "unavailable",
/// whatever it holds; only `reset` clears the failure (the other operations
/// keep `has_failed` as it was).
pub proof fn lemma_failure_is_sticky<H>(c: PasteController<H>)
    requires
        c.has_failed(),
    ensures
        c.access_spec() == InputAccess::Unavailable,
{
}

} // verus!
