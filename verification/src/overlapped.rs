//! Pending operations: the record that the kernel completes, and the
//! decisions taken when an operation is submitted, polled and completed.

use crate::bridge::AsyncWaitObject;
use crate::bridge::AwaitableToken;
use crate::bridge::WaitState;
use crate::status::lemma_hresult_negative;
use crate::status::win32_to_hresult;
use crate::status::IoError;
use crate::status::ERROR_IO_INCOMPLETE;
use crate::status::ERROR_IO_PENDING;
use crate::status::NO_ERROR;
use crate::status::STATUS_BUFFER_OVERFLOW;
use vstd::prelude::*;

verus! {

/// What a completed operation has recorded: the status code of a failure
/// (`NO_ERROR` while there is none) and the number of bytes transferred.
pub struct Completion {
    pub err: u32,
    pub len: u32,
}

/// Whether a completion status stands for a failure. A partially filled
/// buffer does not: its byte count is valid.
pub open spec fn completion_failed(code: u32) -> bool {
    code != NO_ERROR && code != STATUS_BUFFER_OVERFLOW
}

/// What a completion with the given status and byte count leaves in the
/// record: a failure keeps the byte count and stores the status, a success
/// keeps the status and stores the byte count.
pub open spec fn record_completion(before: Completion, code: u32, bytes: u32) -> Completion {
    if completion_failed(code) {
        Completion { err: code, len: before.len }
    } else {
        Completion { err: before.err, len: bytes }
    }
}

/// The result that the waiting task takes from a record.
pub open spec fn completion_result(record: Completion) -> Result<u32, IoError> {
    if record.err == NO_ERROR {
        Ok(record.len)
    } else {
        Err(IoError { code: record.err })
    }
}

/// The in-flight state of one asynchronous receive or send.
pub struct OverlappedWrap {
    as_obj: AsyncWaitObject,
    err: u32,
    len: u32,
}

impl View for OverlappedWrap {
    type V = Completion;

    closed spec fn view(&self) -> Completion {
        Completion { err: self.err, len: self.len }
    }
}

impl OverlappedWrap {
    /// The wait object of the operation.
    pub closed spec fn wait_object(&self) -> AsyncWaitObject {
        self.as_obj
    }

    /// An operation that has recorded nothing, with a wait object of its own
    /// whose state starts out not completed and without a waiter.
    pub fn new() -> (wrap: Self)
        ensures
            wrap@ == (Completion { err: NO_ERROR, len: 0 }),
            wrap.wait_object().initial_state() == WaitState::fresh(),
    {
        OverlappedWrap { as_obj: AsyncWaitObject::new(), err: NO_ERROR, len: 0 }
    }
}

/// The body of the completion callback: records the outcome that the kernel
/// reports, then wakes the waiter.
pub fn completion_callback(wrap: &mut OverlappedWrap, error_code: u32, bytes_transferred: u32)
    ensures
        final(wrap)@ == record_completion(old(wrap)@, error_code, bytes_transferred),
        final(wrap).wait_object() == old(wrap).wait_object(),
{
    let hr = win32_to_hresult(error_code);
    proof {
        lemma_hresult_negative(error_code);
    }
    if error_code != STATUS_BUFFER_OVERFLOW && hr < 0 {
        wrap.err = error_code;
    } else {
        wrap.len = bytes_transferred;
    }
    wrap.as_obj.wake();
}

/// A pending operation as the request queue holds it.
pub struct OverlappedObject {
    o: OverlappedWrap,
}

impl View for OverlappedObject {
    type V = Completion;

    closed spec fn view(&self) -> Completion {
        self.o@
    }
}

impl OverlappedObject {
    /// The wait object of the operation.
    pub closed spec fn wait_object(&self) -> AsyncWaitObject {
        self.o.wait_object()
    }

    pub fn new() -> (object: Self)
        ensures
            object@ == (Completion { err: NO_ERROR, len: 0 }),
            object.wait_object().initial_state() == WaitState::fresh(),
    {
        OverlappedObject { o: OverlappedWrap::new() }
    }

    /// Runs the completion callback on this operation.
    pub fn complete(&mut self, error_code: u32, bytes_transferred: u32)
        ensures
            final(self)@ == record_completion(old(self)@, error_code, bytes_transferred),
            final(self).wait_object() == old(self).wait_object(),
    {
        completion_callback(&mut self.o, error_code, bytes_transferred);
    }

    /// The token to await: it shares the state of this operation's wait
    /// object, so it is ready once the completion callback has run.
    pub fn wait(&self) -> (token: AwaitableToken)
        ensures
            token.mutex() == self.wait_object().mutex(),
    {
        self.o.as_obj.get_await_token()
    }

    /// The recorded failure status, `NO_ERROR` if there is none.
    pub fn get_ec(&self) -> (code: u32)
        ensures
            code == self@.err,
    {
        self.o.err
    }

    /// The recorded byte count.
    pub fn get_len(&self) -> (len: u32)
        ensures
            len == self@.len,
    {
        self.o.len
    }

    /// What the operation returns to its caller once the wait is over: the
    /// byte count, or the failure with its native status code.
    pub fn result(&self) -> (res: Result<u32, IoError>)
        ensures
            res == completion_result(self@),
    {
        let async_err = self.get_ec();
        if async_err == NO_ERROR {
            Ok(self.get_len())
        } else {
            Err(IoError { code: async_err })
        }
    }
}

/// What the status of a submitted kernel call asks for.
#[derive(Clone, Copy, Debug, PartialEq, Eq, Structural)]
pub enum Submission {
    /// The kernel took the operation; the completion callback will run.
    Pending,
    /// The call finished at once; the completion callback still delivers the
    /// outcome.
    Completed,
    /// The kernel refused the call. No callback will run.
    Failed(IoError),
}

/// What each submit status stands for.
pub open spec fn classify_submit(status: u32) -> Submission {
    if status == ERROR_IO_PENDING {
        Submission::Pending
    } else if status == NO_ERROR {
        Submission::Completed
    } else {
        Submission::Failed(IoError { code: status })
    }
}

impl Submission {
    /// Whether the kernel now holds a reference to the pending operation,
    /// which the completion callback gives back.
    pub open spec fn spec_handed_over(self) -> bool {
        !(self is Failed)
    }

    /// Reads the status that a submit call returned.
    pub fn from_status(status: u32) -> (submission: Submission)
        ensures
            submission == classify_submit(status),
    {
        if status == ERROR_IO_PENDING {
            Submission::Pending
        } else if status == NO_ERROR {
            Submission::Completed
        } else {
            Submission::Failed(IoError { code: status })
        }
    }

    #[verifier::when_used_as_spec(spec_handed_over)]
    pub fn handed_over(self) -> (kept: bool)
        ensures
            kept == self.spec_handed_over(),
    {
        match self {
            Submission::Failed(_) => false,
            _ => true,
        }
    }
}

/// What one look at an overlapped result means for the task that polls it.
#[derive(Clone, Copy, Debug, PartialEq, Eq, Structural)]
pub enum OverlappedPoll {
    /// The operation has finished.
    Ready,
    /// The operation is still running: wake the task again and stay pending.
    Rearm,
    /// The operation failed.
    Failed(IoError),
}

/// A handle whose overlapped result is polled.
pub struct OverlappedFuture {
    handle: isize,
}

impl OverlappedFuture {
    pub closed spec fn spec_handle(&self) -> isize {
        self.handle
    }

    pub fn new(handle: isize) -> (future: Self)
        ensures
            future.spec_handle() == handle,
    {
        OverlappedFuture { handle }
    }

    #[verifier::when_used_as_spec(spec_handle)]
    pub fn handle(&self) -> (handle: isize)
        ensures
            handle == self.spec_handle(),
    {
        self.handle
    }

    /// Decides one poll from what the kernel answered: `finished` is the
    /// answer of the overlapped-result check, `last_error` the thread's last
    /// error code after a negative answer.
    pub fn poll(&self, finished: bool, last_error: u32) -> (outcome: OverlappedPoll)
        ensures
            outcome == overlapped_poll(finished, last_error),
    {
        if finished {
            OverlappedPoll::Ready
        } else if last_error == ERROR_IO_INCOMPLETE {
            OverlappedPoll::Rearm
        } else {
            OverlappedPoll::Failed(IoError { code: last_error })
        }
    }
}

/// The meaning of one overlapped-result check.
pub open spec fn overlapped_poll(finished: bool, last_error: u32) -> OverlappedPoll {
    if finished {
        OverlappedPoll::Ready
    } else if last_error == ERROR_IO_INCOMPLETE {
        OverlappedPoll::Rearm
    } else {
        OverlappedPoll::Failed(IoError { code: last_error })
    }
}

/// A status that the kernel reports for an operation it has already finished
/// or timed out is neither "pending" nor "no error", so it surfaces as an
/// error that carries that status, at submission and at completion alike.
pub proof fn lemma_stale_operation_surfaces_error(status: u32, before: Completion, bytes: u32)
    requires
        status != NO_ERROR,
        status != ERROR_IO_PENDING,
    ensures
        classify_submit(status) == Submission::Failed(IoError { code: status }),
        !classify_submit(status).spec_handed_over(),
        status != STATUS_BUFFER_OVERFLOW ==> completion_result(
            record_completion(before, status, bytes),
        ) == Err::<u32, IoError>(IoError { code: status }),
{
}

} // verus!
