use cess_uploader::failure::{Failure, LocalStep, Operation};
use cess_uploader::remote::{Config, Outcome};
use cess_uploader::response::{Reply, UploadRequest, UploadResponse};
use cess_uploader::upload::{UploadAction, UploadFlow, UploadStep};

fn request(payload: &str) -> UploadRequest {
    UploadRequest { persona_data: payload.to_string() }
}

fn failure_reply(message: &str) -> Reply {
    Reply {
        code: 500,
        body: UploadResponse {
            status: "error".to_string(),
            file_id: String::new(),
            error: Some(message.to_string()),
        },
    }
}

/// Handles one request, answering the actions in turn with `outcomes`, and
/// gives the actions that were asked for, the reply and the file to remove.
fn handle_all(
    payload: &str,
    credential: Option<&str>,
    outcomes: Vec<Outcome>,
) -> (Vec<UploadAction>, Reply, Option<String>) {
    let mut asked = Vec::new();
    let mut outcomes = outcomes.into_iter();
    let mut step = UploadStep::begin(request(payload), credential.map(|text| text.to_string()));
    loop {
        match step {
            UploadStep::Respond { reply, discard } => return (asked, reply, discard),
            UploadStep::Continue { flow } => {
                asked.push(flow.action());
                let outcome = outcomes.next().expect("an outcome for every action");
                step = flow.resume(outcome);
            }
        }
    }
}

/// As `handle_all`, without the file to remove.
fn handle(
    payload: &str,
    credential: Option<&str>,
    outcomes: Vec<Outcome>,
) -> (Vec<UploadAction>, Reply) {
    let (asked, reply, _) = handle_all(payload, credential, outcomes);
    (asked, reply)
}

fn ok(text: &str) -> Outcome {
    Ok(text.to_string())
}

fn err(cause: &str) -> Outcome {
    Err(cause.to_string())
}

fn names_file(body: &UploadResponse) -> bool {
    !body.file_id.is_empty() && body.error.is_none()
}

fn names_error(body: &UploadResponse) -> bool {
    body.file_id.is_empty() && body.error.is_some()
}

#[test]
fn missing_credential_is_answered_with_500_and_the_fixed_message() {
    for payload in ["hello", "", "{\"nested\": true}"] {
        let (asked, reply) = handle(payload, None, vec![]);
        assert!(asked.is_empty());
        assert_eq!(reply.code, 500);
        assert_eq!(reply.body.status, "error");
        assert_eq!(reply.body.file_id, "");
        assert_eq!(reply.body.error, Some("Configuracao do servidor incompleta.".to_string()));
    }
}

#[test]
fn missing_credential_ends_the_handling_at_the_first_step() {
    let step = UploadStep::begin(request("hello"), None);
    assert_eq!(
        step,
        UploadStep::Respond {
            reply: failure_reply("Configuracao do servidor incompleta."),
            discard: None,
        }
    );
}

#[test]
fn hello_is_written_to_the_temp_file_and_uploaded_to_vitrine_bucket() {
    let (asked, reply) = handle(
        "hello",
        Some("seed phrase"),
        vec![ok("/tmp/.tmpA1b2C3"), ok(""), ok("fid-0001")],
    );
    assert_eq!(
        asked,
        vec![
            UploadAction::CreateTempFile,
            UploadAction::WriteTempFile {
                path: "/tmp/.tmpA1b2C3".to_string(),
                contents: "hello".to_string(),
            },
            UploadAction::Upload {
                config: Config {
                    endpoint: "wss://testnet-rpc0.cess.cloud/ws/".to_string(),
                    mnemonic: "seed phrase".to_string(),
                },
                path: "/tmp/.tmpA1b2C3".to_string(),
                bucket: "vitrine_bucket".to_string(),
            },
        ]
    );
    assert_eq!(reply.code, 200);
}

#[test]
fn stored_payload_is_answered_with_200_and_the_file_identifier() {
    let (_, reply) =
        handle("hello", Some("seed"), vec![ok("/tmp/x"), ok("/tmp/x"), ok("fid-0001")]);
    assert_eq!(
        reply,
        Reply {
            code: 200,
            body: UploadResponse {
                status: "success".to_string(),
                file_id: "fid-0001".to_string(),
                error: None,
            },
        }
    );
}

#[test]
fn failed_upload_is_answered_with_500_and_the_cause() {
    let (asked, reply) = handle(
        "hello",
        Some("seed"),
        vec![ok("/tmp/x"), ok(""), err("Custom(\"insufficient space\")")],
    );
    assert_eq!(asked.len(), 3);
    assert_eq!(
        reply,
        failure_reply("Falha no upload para a CESS: Custom(\"insufficient space\")")
    );
}

#[test]
fn failed_file_creation_is_answered_with_500_and_nothing_is_uploaded() {
    let (asked, reply) = handle("hello", Some("seed"), vec![err("PermissionDenied")]);
    assert_eq!(asked, vec![UploadAction::CreateTempFile]);
    assert_eq!(reply, failure_reply("Falha ao criar arquivo temporario: PermissionDenied"));
}

#[test]
fn failed_file_write_is_answered_with_500_and_nothing_is_uploaded() {
    let (asked, reply) = handle("hello", Some("seed"), vec![ok("/tmp/x"), err("StorageFull")]);
    assert_eq!(asked.len(), 2);
    assert!(!asked.iter().any(|action| matches!(action, UploadAction::Upload { .. })));
    assert_eq!(reply, failure_reply("Falha ao escrever no arquivo temporario: StorageFull"));
}

#[test]
fn every_reply_names_either_a_file_or_an_error() {
    let runs: Vec<(Option<&str>, Vec<Outcome>)> = vec![
        (None, vec![]),
        (Some("seed"), vec![err("a")]),
        (Some("seed"), vec![ok("/tmp/x"), err("b")]),
        (Some("seed"), vec![ok("/tmp/x"), ok(""), err("c")]),
        (Some("seed"), vec![ok("/tmp/x"), ok(""), ok("fid")]),
        (Some("seed"), vec![ok(""), ok(""), ok("f")]),
    ];
    for (credential, outcomes) in runs {
        let (_, reply) = handle("hello", credential, outcomes);
        assert_ne!(names_file(&reply.body), names_error(&reply.body));
        assert_eq!(reply.code == 200, names_file(&reply.body));
        assert_eq!(reply.code == 500, names_error(&reply.body));
    }
}

#[test]
fn empty_file_identifier_is_passed_on_as_it_came() {
    let (_, reply) = handle("hello", Some("seed"), vec![ok("/tmp/x"), ok(""), ok("")]);
    assert_eq!(reply.code, 200);
    assert_eq!(reply.body.status, "success");
    assert_eq!(reply.body.file_id, "");
    assert_eq!(reply.body.error, None);
    assert!(!names_file(&reply.body));
    assert!(!names_error(&reply.body));
}

#[test]
fn payload_is_written_as_it_came() {
    for payload in ["", "hello", "line one\nline two", "caf\u{e9} \u{1f600}", "  spaced  "] {
        let (asked, _) = handle(payload, Some("seed"), vec![ok("/tmp/p"), ok(""), ok("fid")]);
        assert_eq!(
            asked[1],
            UploadAction::WriteTempFile {
                path: "/tmp/p".to_string(),
                contents: payload.to_string(),
            }
        );
    }
}

#[test]
fn upload_flow_states_follow_one_another() {
    let step = UploadStep::begin(request("hello"), Some("seed".to_string()));
    let flow = match step {
        UploadStep::Continue { flow } => flow,
        UploadStep::Respond { .. } => panic!("a reply before any action"),
    };
    assert_eq!(
        flow,
        UploadFlow::CreatingFile { mnemonic: "seed".to_string(), payload: "hello".to_string() }
    );
    let flow = match flow.resume(ok("/tmp/q")) {
        UploadStep::Continue { flow } => flow,
        UploadStep::Respond { .. } => panic!("a reply before the file is written"),
    };
    assert_eq!(
        flow,
        UploadFlow::WritingFile {
            mnemonic: "seed".to_string(),
            path: "/tmp/q".to_string(),
            payload: "hello".to_string(),
        }
    );
    let flow = match flow.resume(ok("ignored")) {
        UploadStep::Continue { flow } => flow,
        UploadStep::Respond { .. } => panic!("a reply before the upload"),
    };
    assert_eq!(
        flow,
        UploadFlow::Uploading { mnemonic: "seed".to_string(), path: "/tmp/q".to_string() }
    );
    assert_eq!(
        flow.resume(ok("fid-9")),
        UploadStep::Respond {
            reply: Reply::stored("fid-9".to_string()),
            discard: Some("/tmp/q".to_string()),
        }
    );
}

#[test]
fn upload_flow_names_the_failure_of_its_action() {
    let creating = UploadFlow::CreatingFile { mnemonic: "m".to_string(), payload: "p".to_string() };
    let writing = UploadFlow::WritingFile {
        mnemonic: "m".to_string(),
        path: "/tmp/w".to_string(),
        payload: "p".to_string(),
    };
    let uploading = UploadFlow::Uploading { mnemonic: "m".to_string(), path: "/tmp/w".to_string() };
    assert_eq!(
        creating.failure("c".to_string()),
        Failure::LocalIoFailure { step: LocalStep::CreateTempFile, cause: "c".to_string() }
    );
    assert_eq!(
        writing.failure("c".to_string()),
        Failure::LocalIoFailure { step: LocalStep::WriteTempFile, cause: "c".to_string() }
    );
    assert_eq!(
        uploading.failure("c".to_string()),
        Failure::RemoteCallFailure { operation: Operation::Upload, cause: "c".to_string() }
    );
}

#[test]
fn temp_file_is_discarded_however_the_handling_ends() {
    let path = Some("/tmp/t".to_string());
    let (_, _, discard) = handle_all("hello", Some("seed"), vec![ok("/tmp/t"), ok(""), ok("fid")]);
    assert_eq!(discard, path);
    let (_, _, discard) = handle_all("hello", Some("seed"), vec![ok("/tmp/t"), ok(""), err("x")]);
    assert_eq!(discard, path);
    let (_, _, discard) = handle_all("hello", Some("seed"), vec![ok("/tmp/t"), err("x")]);
    assert_eq!(discard, path);
}

#[test]
fn nothing_is_discarded_where_no_temp_file_was_created() {
    let (_, _, discard) = handle_all("hello", Some("seed"), vec![err("x")]);
    assert_eq!(discard, None);
    let (_, _, discard) = handle_all("hello", None, vec![]);
    assert_eq!(discard, None);
}

#[test]
fn upload_flow_knows_its_temp_file() {
    let creating = UploadFlow::CreatingFile { mnemonic: "m".to_string(), payload: "p".to_string() };
    let writing = UploadFlow::WritingFile {
        mnemonic: "m".to_string(),
        path: "/tmp/w".to_string(),
        payload: "p".to_string(),
    };
    let uploading = UploadFlow::Uploading { mnemonic: "m".to_string(), path: "/tmp/u".to_string() };
    assert_eq!(creating.temp_file(), None);
    assert_eq!(writing.temp_file(), Some("/tmp/w".to_string()));
    assert_eq!(uploading.temp_file(), Some("/tmp/u".to_string()));
}
