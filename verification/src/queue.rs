//! The request queue handle and its life.

use crate::listener::BindingInfo;
use crate::listener::UrlGroup;
use crate::listener::status_result;
use crate::listener::BINDING_PRESENT;
use crate::status::IoError;
use crate::status::ERROR_INVALID_HANDLE;
use crate::status::NO_ERROR;
use vstd::prelude::*;

verus! {

/// The request id that asks for the next available request of any connection.
pub const NEXT_AVAILABLE_REQUEST: u64 = 0;

/// The handle value of a closed queue.
pub const CLOSED_HANDLE: isize = 0;

/// Whether a handle value names a kernel object.
pub open spec fn handle_is_valid(handle: isize) -> bool {
    handle != 0 && handle != -1
}

/// The handle that closing a queue releases, if any.
pub open spec fn close_releases(handle: isize) -> Option<isize> {
    if handle_is_valid(handle) {
        Some(handle)
    } else {
        None
    }
}

/// The handle that a queue holds after it was closed.
pub open spec fn handle_after_close(handle: isize) -> isize {
    if handle_is_valid(handle) {
        CLOSED_HANDLE
    } else {
        handle
    }
}

/// The handle through which requests are pulled and responses are pushed.
pub struct RequestQueue {
    h: isize,
}

impl View for RequestQueue {
    type V = isize;

    closed spec fn view(&self) -> isize {
        self.h
    }
}

impl RequestQueue {
    /// Takes the status of the call that created the queue, and the handle
    /// that it wrote. A success that wrote no usable handle counts as a
    /// failure with `ERROR_INVALID_HANDLE`.
    pub fn new(status: u32, handle: isize) -> (queue: Result<RequestQueue, IoError>)
        ensures
            match queue {
                Ok(q) => status == NO_ERROR && handle_is_valid(handle) && q@ == handle,
                Err(error) => if status != NO_ERROR {
                    error == (IoError { code: status })
                } else {
                    !handle_is_valid(handle) && error == (IoError { code: ERROR_INVALID_HANDLE })
                },
            },
    {
        if status != NO_ERROR {
            Err(IoError { code: status })
        } else if handle == -1 || handle == 0 {
            Err(IoError { code: ERROR_INVALID_HANDLE })
        } else {
            Ok(RequestQueue { h: handle })
        }
    }

    pub fn handle(&self) -> (handle: isize)
        ensures
            handle == self@,
    {
        self.h
    }

    /// Whether the queue still holds its kernel handle.
    pub fn is_open(&self) -> (open: bool)
        ensures
            open == handle_is_valid(self@),
    {
        !(self.h == -1 || self.h == 0)
    }

    /// What a URL group is handed to bind this queue to it.
    pub fn binding_info(&self) -> (info: BindingInfo)
        ensures
            info == (BindingInfo { flags: BINDING_PRESENT, request_queue_handle: self@ }),
    {
        BindingInfo { flags: BINDING_PRESENT, request_queue_handle: self.h }
    }

    /// Binds the queue to a URL group: takes the status of the call that set
    /// the group's binding to `binding_info()`, and records a success in the
    /// group.
    pub fn bind_url_group(&self, url_group: &mut UrlGroup, status: u32) -> (result: Result<
        (),
        IoError,
    >)
        ensures
            result == status_result(status),
            result is Ok ==> final(url_group)@ == old(url_group)@.with_binding(self@),
            result is Err ==> final(url_group)@ == old(url_group)@,
    {
        let info = self.binding_info();
        url_group.set_binding_info(&info, status)
    }

    /// Closes the queue. The result is the handle to give back to the
    /// kernel; a queue that is closed already gives none and stays as it is.
    pub fn close(&mut self) -> (released: Option<isize>)
        ensures
            released == close_releases(old(self)@),
            final(self)@ == handle_after_close(old(self)@),
    {
        if self.h == -1 || self.h == 0 {
            return None;
        }
        let handle = self.h;
        self.h = CLOSED_HANDLE;
        Some(handle)
    }
}

/// Closing is idempotent: a second close releases nothing and changes
/// nothing, so no handle is ever given back twice.
pub proof fn lemma_close_is_idempotent(handle: isize)
    ensures
        !handle_is_valid(handle_after_close(handle)),
        close_releases(handle_after_close(handle)) is None,
        handle_after_close(handle_after_close(handle)) == handle_after_close(handle),
{
}

} // verus!
