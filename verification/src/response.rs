//! The request that the upload service accepts and the reply that it gives.

use crate::failure::{Failure, FailureView};
use crate::settings::{STATUS_INTERNAL_SERVER_ERROR, STATUS_OK, TAG_ERROR, TAG_SUCCESS};
use vstd::prelude::*;

verus! {

/// Body of an upload request.
#[derive(Debug, PartialEq, Eq)]
pub struct UploadRequest {
    /// The payload to store, taken as it is.
    pub persona_data: String,
}

/// Mathematical model of an [`UploadRequest`].
pub struct UploadRequestView {
    pub persona_data: Seq<char>,
}

impl View for UploadRequest {
    type V = UploadRequestView;

    open spec fn view(&self) -> UploadRequestView {
        UploadRequestView { persona_data: self.persona_data@ }
    }
}

impl Clone for UploadRequest {
    fn clone(&self) -> (copy: UploadRequest)
        ensures
            copy == *self,
    {
        UploadRequest { persona_data: self.persona_data.clone() }
    }
}

/// Body of the reply to an upload request.
#[derive(Debug, PartialEq, Eq)]
pub struct UploadResponse {
    pub status: String,
    pub file_id: String,
    pub error: Option<String>,
}

/// Mathematical model of an [`UploadResponse`].
pub struct UploadResponseView {
    pub status: Seq<char>,
    pub file_id: Seq<char>,
    pub error: Option<Seq<char>>,
}

impl View for UploadResponse {
    type V = UploadResponseView;

    open spec fn view(&self) -> UploadResponseView {
        UploadResponseView {
            status: self.status@,
            file_id: self.file_id@,
            error: self.error.deep_view(),
        }
    }
}

impl UploadResponseView {
    /// The body that reports a stored payload by its file identifier.
    pub open spec fn stored(file_id: Seq<char>) -> UploadResponseView {
        UploadResponseView { status: TAG_SUCCESS@, file_id, error: None }
    }

    /// The body that reports a failure by its message.
    pub open spec fn failed(message: Seq<char>) -> UploadResponseView {
        UploadResponseView { status: TAG_ERROR@, file_id: Seq::empty(), error: Some(message) }
    }

    /// The body names a file and no error.
    pub open spec fn names_file(self) -> bool {
        self.file_id.len() > 0 && self.error is None
    }

    /// The body names an error and no file.
    pub open spec fn names_error(self) -> bool {
        self.file_id.len() == 0 && self.error is Some
    }

    /// The body names either a file or an error, and not both.
    pub open spec fn names_exactly_one(self) -> bool {
        self.names_file() != self.names_error()
    }
}

impl UploadResponse {
    /// The body that reports a stored payload.
    pub fn stored(file_id: String) -> (body: UploadResponse)
        ensures
            body@ == UploadResponseView::stored(file_id@),
    {
        UploadResponse { status: String::from_str(TAG_SUCCESS), file_id, error: None }
    }

    /// The body that reports a failure.
    pub fn failed(message: String) -> (body: UploadResponse)
        ensures
            body@ == UploadResponseView::failed(message@),
    {
        UploadResponse {
            status: String::from_str(TAG_ERROR),
            file_id: String::new(),
            error: Some(message),
        }
    }
}

impl Clone for UploadResponse {
    fn clone(&self) -> (copy: UploadResponse)
        ensures
            copy == *self,
    {
        UploadResponse {
            status: self.status.clone(),
            file_id: self.file_id.clone(),
            error: match &self.error {
                Some(message) => Some(message.clone()),
                None => None,
            },
        }
    }
}

/// A complete reply: the HTTP status and the body.
#[derive(Debug, PartialEq, Eq)]
pub struct Reply {
    pub code: u16,
    pub body: UploadResponse,
}

/// Mathematical model of a [`Reply`].
pub struct ReplyView {
    pub code: u16,
    pub body: UploadResponseView,
}

impl View for Reply {
    type V = ReplyView;

    open spec fn view(&self) -> ReplyView {
        ReplyView { code: self.code, body: self.body@ }
    }
}

impl ReplyView {
    /// The reply to a request whose payload was stored under `file_id`.
    pub open spec fn stored(file_id: Seq<char>) -> ReplyView {
        ReplyView { code: STATUS_OK, body: UploadResponseView::stored(file_id) }
    }

    /// The reply to a request that ended with `failure`.
    pub open spec fn failed(failure: FailureView) -> ReplyView {
        ReplyView {
            code: STATUS_INTERNAL_SERVER_ERROR,
            body: UploadResponseView::failed(failure.message()),
        }
    }
}

impl Reply {
    /// The reply to a request whose payload was stored under `file_id`.
    pub fn stored(file_id: String) -> (reply: Reply)
        ensures
            reply@ == ReplyView::stored(file_id@),
    {
        Reply { code: STATUS_OK, body: UploadResponse::stored(file_id) }
    }

    /// The reply to a request that ended with `failure`.
    pub fn failed(failure: &Failure) -> (reply: Reply)
        ensures
            reply@ == ReplyView::failed(failure@),
    {
        Reply {
            code: STATUS_INTERNAL_SERVER_ERROR,
            body: UploadResponse::failed(failure.message()),
        }
    }
}

impl Clone for Reply {
    fn clone(&self) -> (copy: Reply)
        ensures
            copy == *self,
    {
        Reply { code: self.code, body: self.body.clone() }
    }
}

/// A body that reports a stored payload names the file, and with it
/// exactly one of file and error, if and only if the file identifier is
/// not empty.
pub proof fn lemma_stored_names_file(file_id: Seq<char>)
    ensures
        UploadResponseView::stored(file_id).names_file() <==> file_id.len() > 0,
        UploadResponseView::stored(file_id).names_exactly_one() <==> file_id.len() > 0,
{
}

/// A body that reports a failure names the error and no file.
pub proof fn lemma_failed_names_error(message: Seq<char>)
    ensures
        UploadResponseView::failed(message).names_error(),
        UploadResponseView::failed(message).names_exactly_one(),
{
}

} // verus!
