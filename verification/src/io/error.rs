//! The errors of the runtime and the platform codes that the I/O core tells apart.

use vstd::prelude::*;

verus! {

/// Win32 code reported by an initiator whose operation was queued and will complete later.
pub const ERROR_IO_PENDING: i32 = 997;

/// `ERROR_IO_PENDING` in the form of an `HRESULT`.
pub const HRESULT_IO_PENDING: i32 = -2147023899;

/// Winsock code reported by an initiator whose operation was queued and will complete later.
pub const WSA_IO_PENDING: i32 = 997;

/// Win32 code of a wait that ended because its time was up.
pub const WAIT_TIMEOUT: i32 = 258;

/// `WAIT_TIMEOUT` in the form of an `HRESULT`.
pub const HRESULT_WAIT_TIMEOUT: i32 = -2147024638;

/// Winsock code: the socket was accessed in a way forbidden by its access permissions.
pub const WSAEACCES: i32 = 10013;

/// Winsock code: the operation is not supported for the type of object referenced.
pub const WSAEOPNOTSUPP: i32 = 10045;

/// The errors that cross the boundary of the runtime.
#[derive(Debug)]
pub enum Error {
    /// The caller configured something wrongly; the message says what.
    InvalidOptions(String),
    /// A part of the runtime failed in a way that callers cannot influence.
    Internal(String),
    /// The operating system refused or failed an operation; `code` is the platform code.
    Windows { code: i32 },
    /// The socket library refused or failed an operation; `detail` is the Winsock code.
    Winsock { code: i32, detail: i32 },
}

/// The mathematical value of an [`Error`]: messages are sequences of characters.
pub enum ErrorView {
    InvalidOptions(Seq<char>),
    Internal(Seq<char>),
    Windows { code: i32 },
    Winsock { code: i32, detail: i32 },
}

impl View for Error {
    type V = ErrorView;

    open spec fn view(&self) -> ErrorView {
        match *self {
            Error::InvalidOptions(message) => ErrorView::InvalidOptions(message@),
            Error::Internal(message) => ErrorView::Internal(message@),
            Error::Windows { code } => ErrorView::Windows { code },
            Error::Winsock { code, detail } => ErrorView::Winsock { code, detail },
        }
    }
}

/// The view of a result whose error is an [`Error`].
pub open spec fn result_view<T>(result: Result<T, Error>) -> Result<T, ErrorView> {
    match result {
        Ok(value) => Ok(value),
        Err(error) => Err(error@),
    }
}

impl ErrorView {
    /// Whether the error is the platform's way of saying "queued, not finished": the
    /// operation was started and its completion packet will arrive later.
    pub open spec fn is_io_pending(self) -> bool {
        match self {
            ErrorView::Windows { code } => code == ERROR_IO_PENDING || code == HRESULT_IO_PENDING,
            ErrorView::Winsock { code: _, detail } => detail == WSA_IO_PENDING,
            _ => false,
        }
    }

    /// Whether the error says no more than that a wait ended because its time was up:
    /// nothing arrived, and nothing failed.
    pub open spec fn is_wait_timeout(self) -> bool {
        match self {
            ErrorView::Windows { code } => code == WAIT_TIMEOUT || code == HRESULT_WAIT_TIMEOUT,
            _ => false,
        }
    }

    /// Whether the error is one of the two that a query for receive-side-scaling
    /// information gives when the adapter does not support or has not enabled it.
    pub open spec fn is_rss_unavailable(self) -> bool {
        match self {
            ErrorView::Winsock { code: _, detail } => detail == WSAEOPNOTSUPP || detail
                == WSAEACCES,
            _ => false,
        }
    }
}

impl Error {
    /// An `InvalidOptions` error with the given message.
    pub fn invalid_options(message: &str) -> (error: Error)
        ensures
            error@ == ErrorView::InvalidOptions(message@),
    {
        Error::InvalidOptions(message.to_owned())
    }

    /// An `Internal` error with the given message.
    pub fn internal(message: &str) -> (error: Error)
        ensures
            error@ == ErrorView::Internal(message@),
    {
        Error::Internal(message.to_owned())
    }

    /// The message of a configuration or internal error; the empty string for errors that
    /// carry a platform code instead.
    pub fn message(&self) -> (text: String)
        ensures
            text@ == match self@ {
                ErrorView::InvalidOptions(m) => m,
                ErrorView::Internal(m) => m,
                _ => Seq::<char>::empty(),
            },
    {
        match self {
            Error::InvalidOptions(message) => message.clone(),
            Error::Internal(message) => message.clone(),
            _ => String::new(),
        }
    }

    /// The platform code of an operating-system or socket-library error.
    pub fn os_code(&self) -> (code: Option<i32>)
        ensures
            code == match self@ {
                ErrorView::Windows { code } => Some(code),
                ErrorView::Winsock { code: _, detail } => Some(detail),
                _ => None::<i32>,
            },
    {
        match self {
            Error::Windows { code } => Some(*code),
            Error::Winsock { code: _, detail } => Some(*detail),
            _ => None,
        }
    }

    /// Tells a queued operation from a failed one.
    pub fn is_io_pending(&self) -> (pending: bool)
        ensures
            pending == self@.is_io_pending(),
    {
        match self {
            Error::Windows { code } => *code == ERROR_IO_PENDING || *code == HRESULT_IO_PENDING,
            Error::Winsock { code: _, detail } => *detail == WSA_IO_PENDING,
            _ => false,
        }
    }

    /// Tells a wait whose time was up from a failure.
    pub fn is_wait_timeout(&self) -> (timeout: bool)
        ensures
            timeout == self@.is_wait_timeout(),
    {
        match self {
            Error::Windows { code } => *code == WAIT_TIMEOUT || *code == HRESULT_WAIT_TIMEOUT,
            _ => false,
        }
    }

    /// Tells the harmless failures of a receive-side-scaling query from the others.
    pub fn is_rss_unavailable(&self) -> (unavailable: bool)
        ensures
            unavailable == self@.is_rss_unavailable(),
    {
        match self {
            Error::Winsock { code: _, detail } => *detail == WSAEOPNOTSUPP || *detail
                == WSAEACCES,
            _ => false,
        }
    }

    /// A copy of the error.
    pub fn duplicate(&self) -> (copy: Error)
        ensures
            copy@ == self@,
    {
        match self {
            Error::InvalidOptions(message) => Error::InvalidOptions(message.clone()),
            Error::Internal(message) => Error::Internal(message.clone()),
            Error::Windows { code } => Error::Windows { code: *code },
            Error::Winsock { code, detail } => Error::Winsock { code: *code, detail: *detail },
        }
    }
}

} // verus!
