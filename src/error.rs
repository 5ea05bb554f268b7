use vstd::prelude::*;

verus! {

/// A failure of the record service: the store failed (with its message), or
/// no record has the requested id.
#[derive(Debug)]
pub enum MyError {
    FirestoreError(String),
    UserNotFound(String),
}

/// The mathematical value of a [`MyError`].
pub enum ErrorView {
    Store(Seq<char>),
    NotFound(Seq<char>),
}

impl View for MyError {
    type V = ErrorView;

    open spec fn view(&self) -> ErrorView {
        match self {
            MyError::FirestoreError(m) => ErrorView::Store(m@),
            MyError::UserNotFound(id) => ErrorView::NotFound(id@),
        }
    }
}

pub open spec fn error_message(e: ErrorView) -> Seq<char> {
    match e {
        ErrorView::Store(m) => "Firestore error: "@ + m,
        ErrorView::NotFound(id) => "User not found with id: "@ + id,
    }
}

impl MyError {
    /// The human-readable description of the failure.
    pub fn message(&self) -> (r: String)
        ensures
            r@ == error_message(self@),
    {
        match self {
            MyError::FirestoreError(m) => {
                let mut s = String::from_str("Firestore error: ");
                s.append(m.as_str());
                s
            },
            MyError::UserNotFound(id) => {
                let mut s = String::from_str("User not found with id: ");
                s.append(id.as_str());
                s
            },
        }
    }
}

/// Why a request was refused before or while it reached the record service.
#[derive(Debug)]
pub enum RequestError {
    /// An update payload carries no string `id`.
    MissingIdentifier,
    /// An update payload names a field that records do not have.
    UnknownField(String),
    /// An update payload gives a non-string value to a record field.
    InvalidValue(String),
    /// No record has this id.
    UserNotFound(String),
    /// The store failed; the message describes how.
    StoreFailure(String),
}

/// The mathematical value of a [`RequestError`].
pub enum RequestErrorView {
    MissingIdentifier,
    UnknownField(Seq<char>),
    InvalidValue(Seq<char>),
    UserNotFound(Seq<char>),
    StoreFailure(Seq<char>),
}

impl View for RequestError {
    type V = RequestErrorView;

    open spec fn view(&self) -> RequestErrorView {
        match self {
            RequestError::MissingIdentifier => RequestErrorView::MissingIdentifier,
            RequestError::UnknownField(k) => RequestErrorView::UnknownField(k@),
            RequestError::InvalidValue(k) => RequestErrorView::InvalidValue(k@),
            RequestError::UserNotFound(id) => RequestErrorView::UserNotFound(id@),
            RequestError::StoreFailure(m) => RequestErrorView::StoreFailure(m@),
        }
    }
}

/// How a service failure reaches the handler layer: not-found stays
/// not-found, a store failure keeps its description.
pub open spec fn request_error_of(e: ErrorView) -> RequestErrorView {
    match e {
        ErrorView::NotFound(id) => RequestErrorView::UserNotFound(id),
        ErrorView::Store(_) => RequestErrorView::StoreFailure(error_message(e)),
    }
}

impl RequestError {
    pub fn from_service(e: &MyError) -> (r: RequestError)
        ensures
            r@ == request_error_of(e@),
    {
        match e {
            MyError::UserNotFound(id) => RequestError::UserNotFound(id.clone()),
            MyError::FirestoreError(_) => RequestError::StoreFailure(e.message()),
        }
    }
}

} // verus!
