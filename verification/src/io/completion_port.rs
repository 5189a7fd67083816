//! Completion ports and the binding of I/O primitives to them.

use crate::io::error::result_view;
use crate::io::error::Error;
use crate::io::error::ErrorView;
use std::marker::PhantomData;
use std::rc::Rc;
use vstd::prelude::*;

verus! {

/// Completion key given with every association. Operations are told apart by their
/// control blocks, so the key is not used.
pub const COMPLETION_KEY: usize = 0;

/// Number of threads that may wait on a port at once: the worker that owns it.
pub const PORT_CONCURRENCY: u32 = 1;

/// Notification mode set on every bound handle: completions notify the port only, and
/// no event is signalled on the handle itself.
pub const FILE_SKIP_SET_EVENT_ON_HANDLE: u8 = 2;

/// An I/O primitive of the operating system (a socket, a file), held by its raw value
/// together with the record of the completion port it has been bound to.
#[derive(Debug)]
pub struct OwnedHandle {
    raw: usize,
    port: Option<usize>,
}

/// The mathematical value of an [`OwnedHandle`].
pub struct OwnedHandleView {
    /// The raw value of the handle.
    pub raw: usize,
    /// The raw value of the port that the handle is bound to, if it is bound.
    pub port: Option<usize>,
}

impl View for OwnedHandle {
    type V = OwnedHandleView;

    closed spec fn view(&self) -> OwnedHandleView {
        OwnedHandleView { raw: self.raw, port: self.port }
    }
}

/// How the two platform calls of a binding ended: the association of the handle with
/// the port, and then, only if that succeeded, the change of its notification mode.
#[derive(Debug)]
pub enum BindOutcome {
    /// The association failed; the mode was not touched.
    AssociationFailed(Error),
    /// The handle was associated, but its notification mode could not be set.
    ModeFailed(Error),
    /// Both calls succeeded.
    Completed,
}

/// The mathematical value of a [`BindOutcome`].
pub enum BindOutcomeView {
    AssociationFailed(ErrorView),
    ModeFailed(ErrorView),
    Completed,
}

impl View for BindOutcome {
    type V = BindOutcomeView;

    open spec fn view(&self) -> BindOutcomeView {
        match *self {
            BindOutcome::AssociationFailed(error) => BindOutcomeView::AssociationFailed(error@),
            BindOutcome::ModeFailed(error) => BindOutcomeView::ModeFailed(error@),
            BindOutcome::Completed => BindOutcomeView::Completed,
        }
    }
}

/// The arguments of the two platform calls that bind a handle to a port.
#[derive(Debug, Clone, Copy, PartialEq, Eq, Structural)]
pub struct BindRequest {
    /// The handle to associate.
    pub handle: usize,
    /// The port to associate it with.
    pub port: usize,
    /// The completion key of the association.
    pub completion_key: usize,
    /// The number of threads allowed to wait on the port.
    pub concurrency: u32,
    /// The notification mode to set on the handle once it is associated.
    pub notification_modes: u8,
}

impl OwnedHandleView {
    /// Whether the handle has been bound to a completion port.
    pub open spec fn is_bound(self) -> bool {
        self.port is Some
    }

    /// The handle after an attempt to bind it to `port` that ended with `outcome`.
    ///
    /// A handle that is already bound stays as it is. Otherwise the handle belongs to
    /// the port as soon as the association succeeded, whatever became of the mode.
    pub open spec fn after_bind(self, port: usize, outcome: BindOutcomeView) -> OwnedHandleView {
        if self.is_bound() {
            self
        } else {
            match outcome {
                BindOutcomeView::AssociationFailed(_) => self,
                _ => OwnedHandleView { port: Some(port), ..self },
            }
        }
    }
}

/// The message of the error for a second binding of one handle.
pub open spec fn already_bound_message() -> Seq<char> {
    "handle is already bound to a completion port"@
}

/// What a binding attempt reports: success only for a handle that was unbound and for
/// which both platform calls succeeded.
pub open spec fn bind_result(handle: OwnedHandleView, outcome: BindOutcomeView) -> Result<
    (),
    ErrorView,
> {
    if handle.is_bound() {
        Err(ErrorView::Internal(already_bound_message()))
    } else {
        match outcome {
            BindOutcomeView::AssociationFailed(error) => Err(error),
            BindOutcomeView::ModeFailed(error) => Err(error),
            BindOutcomeView::Completed => Ok(()),
        }
    }
}

impl OwnedHandle {
    /// Takes charge of a raw handle that nothing has bound yet.
    pub fn new(raw: usize) -> (handle: OwnedHandle)
        ensures
            handle@ == (OwnedHandleView { raw, port: None }),
    {
        OwnedHandle { raw, port: None }
    }

    /// The raw value of the handle.
    pub fn raw(&self) -> (raw: usize)
        ensures
            raw == self@.raw,
    {
        self.raw
    }

    /// The raw value of the port that the handle is bound to.
    pub fn port(&self) -> (port: Option<usize>)
        ensures
            port == self@.port,
    {
        self.port
    }

    /// Gives up the handle and hands out its raw value. Whoever takes it closes it:
    /// there is no other owner.
    pub fn into_raw(self) -> (raw: usize)
        ensures
            raw == self@.raw,
    {
        self.raw
    }

    /// Whether the handle has been bound to a completion port.
    pub fn is_bound(&self) -> (bound: bool)
        ensures
            bound == self@.is_bound(),
    {
        self.port.is_some()
    }
}

/// The completion port of one async worker: the place where the completions of every
/// handle bound to it arrive. Held by the raw value the operating system gave.
///
/// A port belongs to the thread of its worker: the type can neither be sent to another
/// thread nor be shared with one.
#[derive(Debug)]
pub struct CompletionPort {
    handle: usize,
    single_threaded: PhantomData<Rc<()>>,
}

impl View for CompletionPort {
    type V = usize;

    closed spec fn view(&self) -> usize {
        self.handle
    }
}

impl CompletionPort {
    /// Wraps the raw value of a port that the operating system created for this worker.
    pub fn new(handle: usize) -> (port: CompletionPort)
        ensures
            port@ == handle,
    {
        CompletionPort { handle, single_threaded: PhantomData }
    }

    /// The raw value of the port.
    pub fn handle(&self) -> (handle: usize)
        ensures
            handle == self@,
    {
        self.handle
    }

    /// The platform calls to make for binding `handle` to this port, or the error for a
    /// handle that is bound already: such a handle must not be offered to the operating
    /// system again.
    pub fn bind_request(&self, handle: &OwnedHandle) -> (request: Result<BindRequest, Error>)
        ensures
            handle@.is_bound() ==> result_view(request) == Err::<BindRequest, ErrorView>(
                ErrorView::Internal(already_bound_message()),
            ),
            !handle@.is_bound() ==> request == Ok::<BindRequest, Error>(
                (BindRequest {
                    handle: handle@.raw,
                    port: self@,
                    completion_key: COMPLETION_KEY,
                    concurrency: PORT_CONCURRENCY,
                    notification_modes: FILE_SKIP_SET_EVENT_ON_HANDLE,
                }),
            ),
    {
        if handle.is_bound() {
            Err(Error::internal("handle is already bound to a completion port"))
        } else {
            Ok(
                BindRequest {
                    handle: handle.raw,
                    port: self.handle,
                    completion_key: COMPLETION_KEY,
                    concurrency: PORT_CONCURRENCY,
                    notification_modes: FILE_SKIP_SET_EVENT_ON_HANDLE,
                },
            )
        }
    }

    /// Records how the binding of `handle` to this port ended, and reports it.
    ///
    /// A handle is bound at most once in its life: for one that is bound already the
    /// call changes nothing and reports an internal error.
    pub fn bind(&self, handle: &mut OwnedHandle, outcome: BindOutcome) -> (result: Result<
        (),
        Error,
    >)
        ensures
            final(handle)@ == old(handle)@.after_bind(self@, outcome@),
            result_view(result) == bind_result(old(handle)@, outcome@),
    {
        if handle.is_bound() {
            return Err(Error::internal("handle is already bound to a completion port"));
        }
        match outcome {
            BindOutcome::AssociationFailed(error) => Err(error),
            BindOutcome::ModeFailed(error) => {
                handle.port = Some(self.handle);
                Err(error)
            },
            BindOutcome::Completed => {
                handle.port = Some(self.handle);
                Ok(())
            },
        }
    }
}

/// A handle is bound to at most one completion port in its life: once an attempt has
/// bound it, no later attempt, on whatever port and however it ends, changes the port
/// it belongs to, and every later attempt is refused.
pub proof fn lemma_single_binding(
    handle: OwnedHandleView,
    first_port: usize,
    first: BindOutcomeView,
    second_port: usize,
    second: BindOutcomeView,
)
    requires
        handle.after_bind(first_port, first).is_bound(),
    ensures
        handle.after_bind(first_port, first).after_bind(second_port, second) == handle.after_bind(
            first_port,
            first,
        ),
        bind_result(handle.after_bind(first_port, first), second) is Err,
{
}

/// A binding attempt reports success exactly when it bound the handle to the port and
/// set its notification mode; a handle that it reports as bound belongs to that port.
pub proof fn lemma_bind_success(handle: OwnedHandleView, port: usize, outcome: BindOutcomeView)
    ensures
        bind_result(handle, outcome) is Ok <==> !handle.is_bound() && outcome
            == BindOutcomeView::Completed,
        bind_result(handle, outcome) is Ok ==> handle.after_bind(port, outcome).port == Some(port),
{
}

} // verus!
