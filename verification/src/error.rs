use vstd::prelude::*;

verus! {

/// What the core reports to its caller when an operation fails.
#[derive(Debug)]
pub enum CoreError {
    /// The notes directory could not be listed or one of its entries could
    /// not be inspected; `message` is the text of the OS error.
    IOError { message: String },
    /// The OS refused the subscription to file events; `message` is the
    /// text of its error. The session holds no watch afterwards.
    WatchInstallError { message: String },
}

/// The mathematical value of an [`CoreError`].
pub enum CoreErrorView {
    IOError { message: Seq<char> },
    WatchInstallError { message: Seq<char> },
}

impl View for CoreError {
    type V = CoreErrorView;

    open spec fn view(&self) -> CoreErrorView {
        match *self {
            CoreError::IOError { message } => CoreErrorView::IOError { message: message@ },
            CoreError::WatchInstallError { message } => CoreErrorView::WatchInstallError {
                message: message@,
            },
        }
    }
}

impl CoreError {
    /// The OS error text that the error carries.
    pub fn message(&self) -> (text: &String)
        ensures
            text@ == match self@ {
                CoreErrorView::IOError { message } => message,
                CoreErrorView::WatchInstallError { message } => message,
            },
    {
        match self {
            CoreError::IOError { message } => message,
            CoreError::WatchInstallError { message } => message,
        }
    }
}

} // verus!
