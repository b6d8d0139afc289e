use vstd::prelude::*;

verus! {

/// An error that a request can end in; each kind answers with its own HTTP status.
#[derive(Debug, Clone)]
pub enum AppError {
    /// The thing asked for does not exist (404).
    NotFound(String),
    /// The request was understood but its content is not acceptable (422).
    Unprocessable(String),
    /// Something failed on the server's side (500).
    Internal(String),
}

/// The kind of an `AppError` with its message, as plain values.
pub enum AppErrorView {
    NotFound(Seq<char>),
    Unprocessable(Seq<char>),
    Internal(Seq<char>),
}

impl View for AppError {
    type V = AppErrorView;

    open spec fn view(&self) -> AppErrorView {
        match self {
            AppError::NotFound(m) => AppErrorView::NotFound(m@),
            AppError::Unprocessable(m) => AppErrorView::Unprocessable(m@),
            AppError::Internal(m) => AppErrorView::Internal(m@),
        }
    }
}

/// The HTTP status code that answers an error of this kind.
pub open spec fn status_of(e: AppErrorView) -> u16 {
    match e {
        AppErrorView::NotFound(_) => 404,
        AppErrorView::Unprocessable(_) => 422,
        AppErrorView::Internal(_) => 500,
    }
}

impl AppError {
    /// The HTTP status code of this error.
    pub fn status_code(&self) -> (r: u16)
        ensures
            r == status_of(self@),
    {
        match self {
            AppError::NotFound(_) => 404,
            AppError::Unprocessable(_) => 422,
            AppError::Internal(_) => 500,
        }
    }

    /// The message that this error carries.
    pub fn message(&self) -> (r: &str)
        ensures
            r@ == match self@ {
                AppErrorView::NotFound(m) => m,
                AppErrorView::Unprocessable(m) => m,
                AppErrorView::Internal(m) => m,
            },
    {
        match self {
            AppError::NotFound(m) => m.as_str(),
            AppError::Unprocessable(m) => m.as_str(),
            AppError::Internal(m) => m.as_str(),
        }
    }
}

} // verus!
