//! The terminal-session discipline.
//!
//! The surrounding binary owns the real terminal; this module owns the
//! rule book. A session is entered at most once at a time, left only
//! while engaged, suspended only in the middle of an engaged session,
//! and a prompt bracket resumes unconditionally, whatever the prompt
//! returned. The binary performs the actual mode switches and steps this
//! machine in lockstep, so a verified caller cannot double-enter or
//! leave a suspension dangling.

use vstd::prelude::*;

verus! {

/// The mode the terminal is in.
#[derive(Clone, Copy, PartialEq, Eq, Structural, Debug)]
pub enum SessionMode {
    /// The user's ordinary terminal: cooked input, main screen buffer.
    Released,
    /// Raw input, alternate screen, mouse capture.
    Engaged,
    /// Temporarily back in the ordinary terminal, in the middle of an
    /// engaged session, while a blocking prompt runs.
    Suspended,
}

/// The session state machine.
pub struct TerminalSession {
    pub mode: SessionMode,
}

impl TerminalSession {
    /// A fresh session: the terminal is still the user's own.
    pub fn new() -> (s: TerminalSession)
        ensures
            s.mode == SessionMode::Released,
    {
        TerminalSession { mode: SessionMode::Released }
    }

    /// Engages raw mode, the alternate screen and mouse capture.
    /// Callers must not double-enter: the session must be released.
    pub fn enter(&mut self)
        requires
            old(self).mode == SessionMode::Released,
        ensures
            final(self).mode == SessionMode::Engaged,
    {
        self.mode = SessionMode::Engaged;
    }

    /// Restores the ordinary terminal; invoked on every exit path of the
    /// loop, normal or failed, so no raw mode is left dangling.
    pub fn leave(&mut self)
        requires
            old(self).mode == SessionMode::Engaged,
        ensures
            final(self).mode == SessionMode::Released,
    {
        self.mode = SessionMode::Released;
    }

    /// Steps out of the engaged session for a blocking prompt.
    pub fn suspend(&mut self)
        requires
            old(self).mode == SessionMode::Engaged,
        ensures
            final(self).mode == SessionMode::Suspended,
    {
        self.mode = SessionMode::Suspended;
    }

    /// Steps back into the engaged session after a prompt.
    pub fn resume(&mut self)
        requires
            old(self).mode == SessionMode::Suspended,
        ensures
            final(self).mode == SessionMode::Engaged,
    {
        self.mode = SessionMode::Engaged;
    }

    /// The scoped prompt bracket: suspend, let the prompt run, resume.
    /// The prompt's outcome is handed in as a value and passed through
    /// untouched; resumption does not depend on it, so after the bracket
    /// the session is engaged again even when the prompt failed.
    pub fn suspend_for_prompt<T>(&mut self, outcome: Result<T, String>) -> (r: Result<T, String>)
        requires
            old(self).mode == SessionMode::Engaged,
        ensures
            final(self).mode == SessionMode::Engaged,
            r == outcome,
    {
        self.suspend();
        let r = outcome;
        self.resume();
        r
    }
}

} // verus!
