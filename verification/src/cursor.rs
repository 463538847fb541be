//! The cursor protocol that the five enumerations share.
//!
//! The subsystem enumerates with three calls: `begin` opens a native context
//! and fills a record, `next` overwrites the record in place, `end` closes
//! the context. A `Cursor` holds what has to be remembered between those
//! calls and decides which of them is due. It makes no call itself: its
//! owner makes the call that a decision asks for and feeds the reply back.
//!
//! The sequence is finite, forward-only and cannot be restarted. It ends
//! silently: after the end `terminal_error` tells whether a failing status
//! ended it. A context that was opened is closed exactly once, whether the
//! sequence ran out, failed, or was given up early.

use vstd::prelude::*;
use crate::error::{
    cg_get_error, is_failure, spec_is_failure, CGroupError, C_GROUP_SUCCESS,
};

verus! {

/// Where a cursor stands.
#[derive(Debug)]
pub enum CursorState<T> {
    /// Nothing was begun yet.
    Created,
    /// The record is valid and waits to be taken.
    HasItem { handle: usize, record: T },
    /// The last record was handed out; the reply of `next` is awaited.
    Advancing { handle: usize },
    /// `begin` or `next` answered with `status`, which is not success: no
    /// record is left, and the context is still open.
    Drained { handle: usize, status: i32 },
    /// Nothing is open: `begin` failed, or the context was closed. `status`
    /// is the last one that `begin` or `next` gave.
    Ended { status: i32 },
}

/// What a pull gives.
#[derive(Debug)]
pub enum CursorStep<T> {
    /// The next item. `next` has to be called on `handle` now, and its reply
    /// fed to the cursor before the next pull.
    Item { item: T, handle: usize },
    /// The end of the sequence. Where `teardown` holds a handle, `end` has
    /// to be called on it now.
    End { teardown: Option<usize> },
}

impl<T> CursorState<T> {
    /// A native context is open, so that `end` is owed.
    pub open spec fn is_open(self) -> bool {
        self is HasItem || self is Advancing || self is Drained
    }

    /// The handle of the open context.
    pub open spec fn open_handle(self) -> Option<usize> {
        match self {
            CursorState::HasItem { handle, .. } => Some(handle),
            CursorState::Advancing { handle } => Some(handle),
            CursorState::Drained { handle, .. } => Some(handle),
            _ => None,
        }
    }

    /// The last status that `begin` or `next` gave; success before any.
    pub open spec fn last_status(self) -> i32 {
        match self {
            CursorState::Drained { status, .. } => status,
            CursorState::Ended { status } => status,
            _ => C_GROUP_SUCCESS,
        }
    }

    /// The state after the reply of `begin`. Only a cursor on which nothing
    /// was begun takes it. Success gives the first record; the end mark
    /// gives an open context without records; a failure leaves nothing open.
    pub open spec fn after_begin(self, handle: usize, status: i32, record: T) -> Self {
        if !(self is Created) {
            self
        } else if status == C_GROUP_SUCCESS {
            CursorState::HasItem { handle, record }
        } else if spec_is_failure(status) {
            CursorState::Ended { status }
        } else {
            CursorState::Drained { handle, status }
        }
    }

    /// What the caller learns from the reply of `begin`: whether a record
    /// waits, or why there is no cursor to use.
    pub open spec fn begin_outcome(self, status: i32) -> Result<bool, CGroupError> {
        if !(self is Created) {
            Err(CGroupError::OutOfTurn)
        } else if spec_is_failure(status) {
            Err(CGroupError::Status { code: status })
        } else {
            Ok(status == C_GROUP_SUCCESS)
        }
    }

    /// The state after the reply of `next`. Only a cursor that awaits it
    /// takes it.
    pub open spec fn after_next(self, status: i32, record: T) -> Self {
        match self {
            CursorState::Advancing { handle } => if status == C_GROUP_SUCCESS {
                CursorState::HasItem { handle, record }
            } else {
                CursorState::Drained { handle, status }
            },
            _ => self,
        }
    }

    /// The state after a teardown: nothing is open any more.
    pub open spec fn after_end(self) -> Self {
        if self.is_open() {
            CursorState::Ended { status: self.last_status() }
        } else {
            self
        }
    }

    /// The state after a pull: a waiting record is handed out and its
    /// successor awaited; in every other state the cursor is torn down.
    pub open spec fn after_pull(self) -> Self {
        match self {
            CursorState::HasItem { handle, .. } => CursorState::Advancing { handle },
            _ => self.after_end(),
        }
    }

    /// What a pull gives.
    pub open spec fn pulled(self) -> CursorStep<T> {
        match self {
            CursorState::HasItem { handle, record } => CursorStep::Item { item: record, handle },
            _ => CursorStep::End { teardown: self.open_handle() },
        }
    }

    /// The failure that ended the sequence, if one did.
    pub open spec fn terminal_error(self) -> Option<CGroupError> {
        if (self is Drained || self is Ended) && spec_is_failure(self.last_status()) {
            Some(CGroupError::Status { code: self.last_status() })
        } else {
            None
        }
    }
}

/// A cursor over records of type `T`.
pub struct Cursor<T> {
    state: CursorState<T>,
}

impl<T> View for Cursor<T> {
    type V = CursorState<T>;

    closed spec fn view(&self) -> CursorState<T> {
        self.state
    }
}

impl<T> Cursor<T> {
    /// A cursor on which nothing was begun.
    pub fn new() -> (cursor: Self)
        ensures
            cursor@ is Created,
    {
        Cursor { state: CursorState::Created }
    }

    /// Tells whether a native context is open.
    pub fn is_open(&self) -> (open: bool)
        ensures
            open == self@.is_open(),
    {
        match &self.state {
            CursorState::HasItem { .. } => true,
            CursorState::Advancing { .. } => true,
            CursorState::Drained { .. } => true,
            _ => false,
        }
    }

    /// Tells whether a record waits to be taken.
    pub fn has_item(&self) -> (waiting: bool)
        ensures
            waiting == (self@ is HasItem),
    {
        match &self.state {
            CursorState::HasItem { .. } => true,
            _ => false,
        }
    }

    /// The handle of the open context, if one is open.
    pub fn open_handle(&self) -> (handle: Option<usize>)
        ensures
            handle == self@.open_handle(),
    {
        match &self.state {
            CursorState::HasItem { handle, .. } => Some(*handle),
            CursorState::Advancing { handle } => Some(*handle),
            CursorState::Drained { handle, .. } => Some(*handle),
            _ => None,
        }
    }

    /// The last status that `begin` or `next` gave.
    pub fn last_status(&self) -> (status: i32)
        ensures
            status == self@.last_status(),
    {
        match &self.state {
            CursorState::Drained { status, .. } => *status,
            CursorState::Ended { status } => *status,
            _ => C_GROUP_SUCCESS,
        }
    }

    /// The failure that ended the sequence, if one did. The end mark is no
    /// failure.
    pub fn terminal_error(&self) -> (error: Option<CGroupError>)
        ensures
            error == self@.terminal_error(),
    {
        match &self.state {
            CursorState::Drained { status, .. } => if is_failure(*status) {
                Some(cg_get_error(*status))
            } else {
                None
            },
            CursorState::Ended { status } => if is_failure(*status) {
                Some(cg_get_error(*status))
            } else {
                None
            },
            _ => None,
        }
    }

    /// Takes the reply of `begin`: the handle of the context, the status and
    /// the record as the call left them. The record counts only with
    /// success. A failing status is the error of the construction, and then
    /// nothing is open. A cursor that was begun before refuses the reply
    /// and stays as it is.
    pub fn cg_begin(&mut self, handle: usize, status: i32, record: T) -> (outcome: Result<
        bool,
        CGroupError,
    >)
        ensures
            final(self)@ == old(self)@.after_begin(handle, status, record),
            outcome == old(self)@.begin_outcome(status),
    {
        match &self.state {
            CursorState::Created => {},
            _ => {
                return Err(CGroupError::OutOfTurn);
            },
        }
        if status == C_GROUP_SUCCESS {
            self.state = CursorState::HasItem { handle, record };
            Ok(true)
        } else if is_failure(status) {
            self.state = CursorState::Ended { status };
            Err(cg_get_error(status))
        } else {
            self.state = CursorState::Drained { handle, status };
            Ok(false)
        }
    }

    /// Takes the reply of `next`: the status and the record as the call left
    /// them. Tells whether a record waits now. A cursor that awaits no such
    /// reply ignores it.
    pub fn cg_next(&mut self, status: i32, record: T) -> (waiting: bool)
        ensures
            final(self)@ == old(self)@.after_next(status, record),
            waiting == (old(self)@ is Advancing && status == C_GROUP_SUCCESS),
    {
        let handle: usize = match &self.state {
            CursorState::Advancing { handle } => *handle,
            _ => {
                return false;
            },
        };
        if status == C_GROUP_SUCCESS {
            self.state = CursorState::HasItem { handle, record };
            true
        } else {
            self.state = CursorState::Drained { handle, status };
            false
        }
    }

    /// Tears the cursor down. Where a context is open, gives its handle, on
    /// which `end` has to be called now; after that nothing is open, so a
    /// second teardown gives nothing.
    pub fn cg_end(&mut self) -> (teardown: Option<usize>)
        ensures
            final(self)@ == old(self)@.after_end(),
            teardown == old(self)@.open_handle(),
    {
        let teardown = self.open_handle();
        if teardown.is_some() {
            let status: i32 = self.last_status();
            self.state = CursorState::Ended { status };
        }
        teardown
    }

    /// Pulls the next item. A waiting record is handed out, and `next` is
    /// due. In every other state the sequence is at its end and the cursor
    /// is torn down.
    pub fn next(&mut self) -> (step: CursorStep<T>)
        ensures
            final(self)@ == old(self)@.after_pull(),
            step == old(self)@.pulled(),
    {
        let handle: usize = match &self.state {
            CursorState::HasItem { handle, .. } => *handle,
            _ => {
                let teardown = self.cg_end();
                return CursorStep::End { teardown };
            },
        };
        let mut taken = CursorState::Advancing { handle };
        core::mem::swap(&mut self.state, &mut taken);
        match taken {
            CursorState::HasItem { handle, record } => CursorStep::Item { item: record, handle },
            _ => CursorStep::End { teardown: None },
        }
    }
}

} // verus!
