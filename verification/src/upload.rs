//! The upload service, as the decisions between the things that only a
//! driver can do: create a temporary file, write to it, call the network.
//!
//! A driver starts with [`UploadStep::begin`], and for as long as it is
//! handed a flow it does what [`UploadFlow::action`] says and reports the
//! outcome to [`UploadFlow::resume`]. The reply that ends the handling is
//! its to send, and the temporary file that comes with the reply its to
//! remove.

use crate::failure::{Failure, FailureView, LocalStep, Operation};
use crate::remote::{outcome_view, Config, ConfigView, Outcome, OutcomeView};
use crate::response::{Reply, ReplyView, UploadRequest, UploadRequestView, UploadResponseView};
use crate::settings::{ENDPOINT, STATUS_INTERNAL_SERVER_ERROR, STATUS_OK, UPLOAD_BUCKET};
use vstd::prelude::*;

verus! {

/// Where the handling of one request stands: what the driver is doing, and
/// what must be remembered over it.
#[derive(Debug, PartialEq, Eq)]
pub enum UploadFlow {
    /// A temporary file is being created.
    CreatingFile { mnemonic: String, payload: String },
    /// The payload is being written to the file at `path`.
    WritingFile { mnemonic: String, path: String, payload: String },
    /// The file at `path` is being uploaded.
    Uploading { mnemonic: String, path: String },
}

/// Mathematical model of an [`UploadFlow`].
pub enum UploadFlowView {
    CreatingFile { mnemonic: Seq<char>, payload: Seq<char> },
    WritingFile { mnemonic: Seq<char>, path: Seq<char>, payload: Seq<char> },
    Uploading { mnemonic: Seq<char>, path: Seq<char> },
}

impl View for UploadFlow {
    type V = UploadFlowView;

    open spec fn view(&self) -> UploadFlowView {
        match self {
            UploadFlow::CreatingFile { mnemonic, payload } => UploadFlowView::CreatingFile {
                mnemonic: mnemonic@,
                payload: payload@,
            },
            UploadFlow::WritingFile { mnemonic, path, payload } => UploadFlowView::WritingFile {
                mnemonic: mnemonic@,
                path: path@,
                payload: payload@,
            },
            UploadFlow::Uploading { mnemonic, path } => UploadFlowView::Uploading {
                mnemonic: mnemonic@,
                path: path@,
            },
        }
    }
}

/// What the driver is asked to do.
#[derive(Debug, PartialEq, Eq)]
pub enum UploadAction {
    /// Create a new, uniquely named temporary file and report its path.
    CreateTempFile,
    /// Write `contents` to the file at `path`. What is reported on success
    /// is not read.
    WriteTempFile { path: String, contents: String },
    /// Upload the file at `path` to `bucket` and report the file identifier
    /// that the storage network returns.
    Upload { config: Config, path: String, bucket: String },
}

/// Mathematical model of an [`UploadAction`].
pub enum UploadActionView {
    CreateTempFile,
    WriteTempFile { path: Seq<char>, contents: Seq<char> },
    Upload { config: ConfigView, path: Seq<char>, bucket: Seq<char> },
}

impl View for UploadAction {
    type V = UploadActionView;

    open spec fn view(&self) -> UploadActionView {
        match self {
            UploadAction::CreateTempFile => UploadActionView::CreateTempFile,
            UploadAction::WriteTempFile { path, contents } => UploadActionView::WriteTempFile {
                path: path@,
                contents: contents@,
            },
            UploadAction::Upload { config, path, bucket } => UploadActionView::Upload {
                config: config@,
                path: path@,
                bucket: bucket@,
            },
        }
    }
}

/// How the handling goes on.
#[derive(Debug, PartialEq, Eq)]
pub enum UploadStep {
    /// The driver has something to do.
    Continue { flow: UploadFlow },
    /// The handling is over: the driver removes the temporary file at
    /// `discard`, if there is one, and sends the reply.
    Respond { reply: Reply, discard: Option<String> },
}

/// Mathematical model of an [`UploadStep`].
pub enum UploadStepView {
    Continue { flow: UploadFlowView },
    Respond { reply: ReplyView, discard: Option<Seq<char>> },
}

impl View for UploadStep {
    type V = UploadStepView;

    open spec fn view(&self) -> UploadStepView {
        match self {
            UploadStep::Continue { flow } => UploadStepView::Continue { flow: flow@ },
            UploadStep::Respond { reply, discard } => UploadStepView::Respond {
                reply: reply@,
                discard: discard.deep_view(),
            },
        }
    }
}

impl UploadFlowView {
    /// What the driver is asked to do. The payload is written as it came,
    /// and the upload goes to the fixed endpoint and bucket, under the
    /// account of the mnemonic, from the file that was written.
    pub open spec fn action(self) -> UploadActionView {
        match self {
            UploadFlowView::CreatingFile { .. } => UploadActionView::CreateTempFile,
            UploadFlowView::WritingFile { path, payload, .. } => UploadActionView::WriteTempFile {
                path,
                contents: payload,
            },
            UploadFlowView::Uploading { mnemonic, path } => UploadActionView::Upload {
                config: ConfigView { endpoint: ENDPOINT@, mnemonic },
                path,
                bucket: UPLOAD_BUCKET@,
            },
        }
    }

    /// The failure that a failed action amounts to.
    pub open spec fn failure(self, cause: Seq<char>) -> FailureView {
        match self {
            UploadFlowView::CreatingFile { .. } => FailureView::LocalIoFailure {
                step: LocalStep::CreateTempFile,
                cause,
            },
            UploadFlowView::WritingFile { .. } => FailureView::LocalIoFailure {
                step: LocalStep::WriteTempFile,
                cause,
            },
            UploadFlowView::Uploading { .. } => FailureView::RemoteCallFailure {
                operation: Operation::Upload,
                cause,
            },
        }
    }

    /// The temporary file of the request, once it is created.
    pub open spec fn temp_file(self) -> Option<Seq<char>> {
        match self {
            UploadFlowView::CreatingFile { .. } => None,
            UploadFlowView::WritingFile { path, .. } => Some(path),
            UploadFlowView::Uploading { path, .. } => Some(path),
        }
    }

    /// How the handling goes on once the action has ended with `outcome`.
    /// A failure ends it with the reply that reports the failure. Otherwise
    /// the file that was created is written to, the file that was written is
    /// uploaded, and the identifier that the upload returned is replied.
    /// Whichever way it ends, the temporary file is discarded.
    pub open spec fn resume(self, outcome: OutcomeView) -> UploadStepView {
        match outcome {
            Err(cause) => UploadStepView::Respond {
                reply: ReplyView::failed(self.failure(cause)),
                discard: self.temp_file(),
            },
            Ok(text) => match self {
                UploadFlowView::CreatingFile { mnemonic, payload } => UploadStepView::Continue {
                    flow: UploadFlowView::WritingFile { mnemonic, path: text, payload },
                },
                UploadFlowView::WritingFile { mnemonic, path, .. } => UploadStepView::Continue {
                    flow: UploadFlowView::Uploading { mnemonic, path },
                },
                UploadFlowView::Uploading { .. } => UploadStepView::Respond {
                    reply: ReplyView::stored(text),
                    discard: self.temp_file(),
                },
            },
        }
    }
}

impl UploadStepView {
    /// The first step on a request: without a credential the reply that
    /// reports it, whatever the payload; with one, a temporary file.
    pub open spec fn begin(
        request: UploadRequestView,
        credential: Option<Seq<char>>,
    ) -> UploadStepView {
        match credential {
            None => UploadStepView::Respond {
                reply: ReplyView::failed(FailureView::MissingCredential),
                discard: None,
            },
            Some(mnemonic) => UploadStepView::Continue {
                flow: UploadFlowView::CreatingFile { mnemonic, payload: request.persona_data },
            },
        }
    }

    /// The step that follows once the action that is being taken has ended
    /// with `outcome`. Nothing follows a reply.
    pub open spec fn advance(self, outcome: OutcomeView) -> UploadStepView {
        match self {
            UploadStepView::Continue { flow } => flow.resume(outcome),
            UploadStepView::Respond { .. } => self,
        }
    }

    /// Whether the driver is asked to call the storage network.
    pub open spec fn calls_network(self) -> bool {
        self matches UploadStepView::Continue { flow } && flow.action() is Upload
    }
}

/// The steps of handling one request, in turn: the first step, and the one
/// after each of the three actions, where `created`, `written` and
/// `uploaded` are the outcomes of the actions as far as they are taken.
pub open spec fn upload_run(
    request: UploadRequestView,
    credential: Option<Seq<char>>,
    created: OutcomeView,
    written: OutcomeView,
    uploaded: OutcomeView,
) -> Seq<UploadStepView> {
    let first = UploadStepView::begin(request, credential);
    let second = first.advance(created);
    let third = second.advance(written);
    let last = third.advance(uploaded);
    seq![first, second, third, last]
}

/// The reply that ends the handling of one request: that there is no
/// credential; else that the first action to fail has failed; else that the
/// payload is stored, under the identifier that the upload returned. The
/// payload has no part in it.
pub open spec fn reply_to(
    credential: Option<Seq<char>>,
    created: OutcomeView,
    written: OutcomeView,
    uploaded: OutcomeView,
) -> ReplyView {
    match (credential, created, written, uploaded) {
        (None, _, _, _) => ReplyView::failed(FailureView::MissingCredential),
        (Some(_), Err(cause), _, _) => ReplyView::failed(
            FailureView::LocalIoFailure { step: LocalStep::CreateTempFile, cause },
        ),
        (Some(_), Ok(_), Err(cause), _) => ReplyView::failed(
            FailureView::LocalIoFailure { step: LocalStep::WriteTempFile, cause },
        ),
        (Some(_), Ok(_), Ok(_), Err(cause)) => ReplyView::failed(
            FailureView::RemoteCallFailure { operation: Operation::Upload, cause },
        ),
        (Some(_), Ok(_), Ok(_), Ok(file_id)) => ReplyView::stored(file_id),
    }
}

/// The temporary file that is discarded with the reply: the one that was
/// created, if one was.
pub open spec fn discarded_with_reply(
    credential: Option<Seq<char>>,
    created: OutcomeView,
) -> Option<Seq<char>> {
    match (credential, created) {
        (Some(_), Ok(path)) => Some(path),
        _ => None,
    }
}

impl UploadStep {
    /// Begins to handle a request. `credential` is the account mnemonic, if
    /// one is configured.
    pub fn begin(request: UploadRequest, credential: Option<String>) -> (step: UploadStep)
        ensures
            step@ == UploadStepView::begin(request@, credential.deep_view()),
    {
        match credential {
            None => UploadStep::Respond {
                reply: Reply::failed(&Failure::MissingCredential),
                discard: None,
            },
            Some(mnemonic) => UploadStep::Continue {
                flow: UploadFlow::CreatingFile { mnemonic, payload: request.persona_data },
            },
        }
    }
}

impl UploadFlow {
    /// What the driver is asked to do.
    pub fn action(&self) -> (action: UploadAction)
        ensures
            action@ == self@.action(),
    {
        match self {
            UploadFlow::CreatingFile { .. } => UploadAction::CreateTempFile,
            UploadFlow::WritingFile { path, payload, .. } => UploadAction::WriteTempFile {
                path: path.clone(),
                contents: payload.clone(),
            },
            UploadFlow::Uploading { mnemonic, path } => UploadAction::Upload {
                config: Config::new(ENDPOINT, mnemonic.as_str()),
                path: path.clone(),
                bucket: String::from_str(UPLOAD_BUCKET),
            },
        }
    }

    /// The failure that a failed action amounts to.
    pub fn failure(&self, cause: String) -> (failure: Failure)
        ensures
            failure@ == self@.failure(cause@),
    {
        match self {
            UploadFlow::CreatingFile { .. } => Failure::LocalIoFailure {
                step: LocalStep::CreateTempFile,
                cause,
            },
            UploadFlow::WritingFile { .. } => Failure::LocalIoFailure {
                step: LocalStep::WriteTempFile,
                cause,
            },
            UploadFlow::Uploading { .. } => Failure::RemoteCallFailure {
                operation: Operation::Upload,
                cause,
            },
        }
    }

    /// The temporary file of the request, once it is created.
    pub fn temp_file(self) -> (path: Option<String>)
        ensures
            path.deep_view() == self@.temp_file(),
    {
        match self {
            UploadFlow::CreatingFile { .. } => None,
            UploadFlow::WritingFile { path, .. } => Some(path),
            UploadFlow::Uploading { path, .. } => Some(path),
        }
    }

    /// Goes on once the driver has done what [`UploadFlow::action`] said.
    pub fn resume(self, outcome: Outcome) -> (step: UploadStep)
        ensures
            step@ == self@.resume(outcome_view(outcome)),
    {
        match outcome {
            Err(cause) => {
                let reply = Reply::failed(&self.failure(cause));
                UploadStep::Respond { reply, discard: self.temp_file() }
            },
            Ok(text) => match self {
                UploadFlow::CreatingFile { mnemonic, payload } => UploadStep::Continue {
                    flow: UploadFlow::WritingFile { mnemonic, path: text, payload },
                },
                UploadFlow::WritingFile { mnemonic, path, .. } => UploadStep::Continue {
                    flow: UploadFlow::Uploading { mnemonic, path },
                },
                UploadFlow::Uploading { path, .. } => UploadStep::Respond {
                    reply: Reply::stored(text),
                    discard: Some(path),
                },
            },
        }
    }
}

/// Every request is replied to, after three actions at most, and the reply
/// is [`reply_to`] of the credential and the outcomes. However the handling
/// ended, the temporary file is discarded with the reply if one was
/// created, and nothing is discarded if none was.
pub proof fn lemma_upload_ends_with_reply(
    request: UploadRequestView,
    credential: Option<Seq<char>>,
    created: OutcomeView,
    written: OutcomeView,
    uploaded: OutcomeView,
)
    ensures
        upload_run(request, credential, created, written, uploaded)[3]
            == (UploadStepView::Respond {
            reply: reply_to(credential, created, written, uploaded),
            discard: discarded_with_reply(credential, created),
        }),
{
}

/// The body of a reply names either a file or an error, and not both: a
/// file with status 200, an error with status 500. The one exception is the
/// reply to an upload that returned an empty identifier, which names
/// neither.
pub proof fn lemma_reply_names_file_or_error(
    credential: Option<Seq<char>>,
    created: OutcomeView,
    written: OutcomeView,
    uploaded: OutcomeView,
)
    requires
        !(credential is Some && created is Ok && written is Ok && uploaded is Ok
            && uploaded->Ok_0.len() == 0),
    ensures
        ({
            let reply = reply_to(credential, created, written, uploaded);
            &&& reply.body.names_exactly_one()
            &&& reply.code == STATUS_OK <==> reply.body.names_file()
            &&& reply.code == STATUS_INTERNAL_SERVER_ERROR <==> reply.body.names_error()
        }),
{
}

/// Without a credential the reply is the same whatever the payload: status
/// 500, no file identifier, the fixed message. It is given at once, so the
/// driver is asked for nothing, and the storage network is not called.
pub proof fn lemma_missing_credential_fails_at_once(
    request: UploadRequestView,
    created: OutcomeView,
    written: OutcomeView,
    uploaded: OutcomeView,
)
    ensures
        ({
            let run = upload_run(request, None, created, written, uploaded);
            let reply = ReplyView {
                code: 500,
                body: UploadResponseView {
                    status: "error"@,
                    file_id: Seq::empty(),
                    error: Some("Configuracao do servidor incompleta."@),
                },
            };
            &&& forall|i: int|
                0 <= i < run.len() ==> #[trigger] run[i] == (UploadStepView::Respond {
                    reply,
                    discard: None,
                })
            &&& reply_to(None, created, written, uploaded) == reply
        }),
{
}

/// With a credential, the payload is written as it came to the file that
/// was created, and that file is uploaded to the fixed bucket at the fixed
/// endpoint, under the account of the credential.
pub proof fn lemma_payload_is_written_and_uploaded(
    request: UploadRequestView,
    mnemonic: Seq<char>,
    path: Seq<char>,
    written: Seq<char>,
    uploaded: OutcomeView,
)
    ensures
        ({
            let run = upload_run(request, Some(mnemonic), Ok(path), Ok(written), uploaded);
            &&& run[0] matches UploadStepView::Continue { flow }
                && flow.action() == UploadActionView::CreateTempFile
            &&& run[1] matches UploadStepView::Continue { flow }
                && flow.action() == (UploadActionView::WriteTempFile {
                    path,
                    contents: request.persona_data,
                })
            &&& run[2] matches UploadStepView::Continue { flow }
                && flow.action() == (UploadActionView::Upload {
                    config: ConfigView { endpoint: ENDPOINT@, mnemonic },
                    path,
                    bucket: UPLOAD_BUCKET@,
                })
        }),
{
}

/// The storage network is called only once both local steps have
/// succeeded, and then for an upload.
pub proof fn lemma_network_is_called_last(
    request: UploadRequestView,
    credential: Option<Seq<char>>,
    created: OutcomeView,
    written: OutcomeView,
    uploaded: OutcomeView,
)
    ensures
        ({
            let run = upload_run(request, credential, created, written, uploaded);
            &&& !run[0].calls_network()
            &&& !run[1].calls_network()
            &&& !run[3].calls_network()
            &&& run[2].calls_network() <==> credential is Some && created is Ok && written is Ok
        }),
{
}

} // verus!
