//! What can go wrong, and the text that reports it.

use vstd::prelude::*;

verus! {

/// The operations of the storage network's client.
#[derive(Clone, Copy, Debug, PartialEq, Eq, Structural)]
pub enum Operation {
    Authorize,
    BuySpace,
    CreateBucket,
    Upload,
}

/// The local steps that put a payload into a temporary file.
#[derive(Clone, Copy, Debug, PartialEq, Eq, Structural)]
pub enum LocalStep {
    CreateTempFile,
    WriteTempFile,
}

/// A failure of the upload service or of the account setup.
#[derive(Debug, PartialEq, Eq)]
pub enum Failure {
    /// The account mnemonic is not configured.
    MissingCredential,
    /// The storage network, or its client, refused an operation.
    RemoteCallFailure { operation: Operation, cause: String },
    /// The temporary file could not be prepared.
    LocalIoFailure { step: LocalStep, cause: String },
}

/// Mathematical model of a [`Failure`].
pub enum FailureView {
    MissingCredential,
    RemoteCallFailure { operation: Operation, cause: Seq<char> },
    LocalIoFailure { step: LocalStep, cause: Seq<char> },
}

impl View for Failure {
    type V = FailureView;

    open spec fn view(&self) -> FailureView {
        match self {
            Failure::MissingCredential => FailureView::MissingCredential,
            Failure::RemoteCallFailure { operation, cause } => FailureView::RemoteCallFailure {
                operation: *operation,
                cause: cause@,
            },
            Failure::LocalIoFailure { step, cause } => FailureView::LocalIoFailure {
                step: *step,
                cause: cause@,
            },
        }
    }
}

/// Text in front of the cause, in the message of a refused operation.
pub open spec fn remote_prefix(operation: Operation) -> Seq<char> {
    match operation {
        Operation::Authorize => "Erro ao autorizar: "@,
        Operation::BuySpace => "Erro fatal ao comprar espaco: "@,
        Operation::CreateBucket => "Erro ao criar bucket: "@,
        Operation::Upload => "Falha no upload para a CESS: "@,
    }
}

/// Text behind the cause, in the message of a refused operation.
pub open spec fn remote_suffix(operation: Operation) -> Seq<char> {
    match operation {
        Operation::Authorize => ". (Pode ignorar se a conta ja estava autorizada)"@,
        Operation::CreateBucket => ". (Pode ignorar se o bucket ja existia)"@,
        Operation::BuySpace | Operation::Upload => ""@,
    }
}

/// Text in front of the cause, in the message of a failed local step.
pub open spec fn local_prefix(step: LocalStep) -> Seq<char> {
    match step {
        LocalStep::CreateTempFile => "Falha ao criar arquivo temporario: "@,
        LocalStep::WriteTempFile => "Falha ao escrever no arquivo temporario: "@,
    }
}

impl FailureView {
    /// The text that reports the failure: fixed for a missing credential,
    /// and the cause between two fixed texts for the others.
    pub open spec fn message(self) -> Seq<char> {
        match self {
            FailureView::MissingCredential => "Configuracao do servidor incompleta."@,
            FailureView::RemoteCallFailure { operation, cause } => remote_prefix(operation) + cause
                + remote_suffix(operation),
            FailureView::LocalIoFailure { step, cause } => local_prefix(step) + cause,
        }
    }

    /// Whether the work goes on after the failure: so it does when the
    /// network refuses to authorize the account or to create the bucket,
    /// since both are refused to an account that was set up before.
    pub open spec fn tolerated(self) -> bool {
        match self {
            FailureView::RemoteCallFailure { operation, .. } => operation == Operation::Authorize
                || operation == Operation::CreateBucket,
            _ => false,
        }
    }
}

fn remote_prefix_text(operation: Operation) -> (text: &'static str)
    ensures
        text@ == remote_prefix(operation),
{
    match operation {
        Operation::Authorize => "Erro ao autorizar: ",
        Operation::BuySpace => "Erro fatal ao comprar espaco: ",
        Operation::CreateBucket => "Erro ao criar bucket: ",
        Operation::Upload => "Falha no upload para a CESS: ",
    }
}

fn remote_suffix_text(operation: Operation) -> (text: &'static str)
    ensures
        text@ == remote_suffix(operation),
{
    match operation {
        Operation::Authorize => ". (Pode ignorar se a conta ja estava autorizada)",
        Operation::CreateBucket => ". (Pode ignorar se o bucket ja existia)",
        Operation::BuySpace | Operation::Upload => "",
    }
}

fn local_prefix_text(step: LocalStep) -> (text: &'static str)
    ensures
        text@ == local_prefix(step),
{
    match step {
        LocalStep::CreateTempFile => "Falha ao criar arquivo temporario: ",
        LocalStep::WriteTempFile => "Falha ao escrever no arquivo temporario: ",
    }
}

impl Clone for Failure {
    fn clone(&self) -> (copy: Failure)
        ensures
            copy == *self,
    {
        match self {
            Failure::MissingCredential => Failure::MissingCredential,
            Failure::RemoteCallFailure { operation, cause } => Failure::RemoteCallFailure {
                operation: *operation,
                cause: cause.clone(),
            },
            Failure::LocalIoFailure { step, cause } => Failure::LocalIoFailure {
                step: *step,
                cause: cause.clone(),
            },
        }
    }
}

impl Failure {
    /// The text that reports the failure.
    pub fn message(&self) -> (text: String)
        ensures
            text@ == self@.message(),
    {
        match self {
            Failure::MissingCredential => String::from_str("Configuracao do servidor incompleta."),
            Failure::RemoteCallFailure { operation, cause } => {
                String::from_str(remote_prefix_text(*operation)).concat(cause.as_str()).concat(
                    remote_suffix_text(*operation),
                )
            },
            Failure::LocalIoFailure { step, cause } => {
                String::from_str(local_prefix_text(*step)).concat(cause.as_str())
            },
        }
    }

    /// Whether the work goes on after the failure.
    pub fn is_tolerated(&self) -> (tolerated: bool)
        ensures
            tolerated == self@.tolerated(),
    {
        match self {
            Failure::RemoteCallFailure { operation, .. } => match operation {
                Operation::Authorize | Operation::CreateBucket => true,
                Operation::BuySpace | Operation::Upload => false,
            },
            _ => false,
        }
    }
}

} // verus!
