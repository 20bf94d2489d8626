//! The account setup, as the decisions between three calls to the storage
//! network: authorize the account, buy space, create the bucket.
//!
//! A driver starts with [`SetupStep::begin`], and for as long as it is
//! handed a flow it waits and calls as [`SetupFlow::action`] says and
//! reports the outcome to [`SetupFlow::resume`]. It makes every call once:
//! nothing is tried again.

use crate::failure::{Failure, FailureView, Operation};
use crate::remote::{outcome_view, Config, ConfigView, Outcome, OutcomeView};
use crate::settings::{ENDPOINT, GIB_TO_BUY, PAUSE_SECONDS, SETUP_BUCKET};
use vstd::prelude::*;

verus! {

/// Where the setup stands: the call that the driver is making, under the
/// account of `mnemonic`.
#[derive(Debug, PartialEq, Eq)]
pub enum SetupFlow {
    Authorizing { mnemonic: String },
    Buying { mnemonic: String },
    CreatingBucket { mnemonic: String },
}

/// Mathematical model of a [`SetupFlow`].
pub enum SetupFlowView {
    Authorizing { mnemonic: Seq<char> },
    Buying { mnemonic: Seq<char> },
    CreatingBucket { mnemonic: Seq<char> },
}

impl View for SetupFlow {
    type V = SetupFlowView;

    open spec fn view(&self) -> SetupFlowView {
        match self {
            SetupFlow::Authorizing { mnemonic } => SetupFlowView::Authorizing {
                mnemonic: mnemonic@,
            },
            SetupFlow::Buying { mnemonic } => SetupFlowView::Buying { mnemonic: mnemonic@ },
            SetupFlow::CreatingBucket { mnemonic } => SetupFlowView::CreatingBucket {
                mnemonic: mnemonic@,
            },
        }
    }
}

/// A call to the storage network, with its arguments.
#[derive(Debug, PartialEq, Eq)]
pub enum SetupCall {
    Authorize { config: Config },
    BuySpace { config: Config, gib: u32 },
    CreateBucket { config: Config, name: String },
}

/// Mathematical model of a [`SetupCall`].
pub enum SetupCallView {
    Authorize { config: ConfigView },
    BuySpace { config: ConfigView, gib: u32 },
    CreateBucket { config: ConfigView, name: Seq<char> },
}

impl View for SetupCall {
    type V = SetupCallView;

    open spec fn view(&self) -> SetupCallView {
        match self {
            SetupCall::Authorize { config } => SetupCallView::Authorize { config: config@ },
            SetupCall::BuySpace { config, gib } => SetupCallView::BuySpace {
                config: config@,
                gib: *gib,
            },
            SetupCall::CreateBucket { config, name } => SetupCallView::CreateBucket {
                config: config@,
                name: name@,
            },
        }
    }
}

impl SetupCallView {
    /// The operation that the call asks for.
    pub open spec fn operation(self) -> Operation {
        match self {
            SetupCallView::Authorize { .. } => Operation::Authorize,
            SetupCallView::BuySpace { .. } => Operation::BuySpace,
            SetupCallView::CreateBucket { .. } => Operation::CreateBucket,
        }
    }
}

impl SetupCall {
    /// The operation that the call asks for.
    pub fn operation(&self) -> (operation: Operation)
        ensures
            operation == self@.operation(),
    {
        match self {
            SetupCall::Authorize { .. } => Operation::Authorize,
            SetupCall::BuySpace { .. } => Operation::BuySpace,
            SetupCall::CreateBucket { .. } => Operation::CreateBucket,
        }
    }
}

/// What the driver is asked to do: wait, then call, and report the
/// transaction hash that the storage network returns.
#[derive(Debug, PartialEq, Eq)]
pub struct SetupAction {
    pub pause_seconds: u64,
    pub call: SetupCall,
}

/// Mathematical model of a [`SetupAction`].
pub struct SetupActionView {
    pub pause_seconds: u64,
    pub call: SetupCallView,
}

impl View for SetupAction {
    type V = SetupActionView;

    open spec fn view(&self) -> SetupActionView {
        SetupActionView { pause_seconds: self.pause_seconds, call: self.call@ }
    }
}

/// How the setup goes on.
#[derive(Debug, PartialEq, Eq)]
pub enum SetupStep {
    /// The driver has a call to make. `tolerated` is the failure of the
    /// call before it, if that one failed.
    Continue { flow: SetupFlow, tolerated: Option<Failure> },
    /// All three calls were made. `tolerated` is the failure of the last
    /// one, if it failed.
    Completed { tolerated: Option<Failure> },
    /// The setup was given up, and no further call is made.
    Aborted { failure: Failure },
}

/// Mathematical model of a [`SetupStep`].
pub enum SetupStepView {
    Continue { flow: SetupFlowView, tolerated: Option<FailureView> },
    Completed { tolerated: Option<FailureView> },
    Aborted { failure: FailureView },
}

/// The model of a failure that may be there.
pub open spec fn failure_view(failure: Option<Failure>) -> Option<FailureView> {
    match failure {
        Some(failure) => Some(failure@),
        None => None,
    }
}

impl View for SetupStep {
    type V = SetupStepView;

    open spec fn view(&self) -> SetupStepView {
        match self {
            SetupStep::Continue { flow, tolerated } => SetupStepView::Continue {
                flow: flow@,
                tolerated: failure_view(*tolerated),
            },
            SetupStep::Completed { tolerated } => SetupStepView::Completed {
                tolerated: failure_view(*tolerated),
            },
            SetupStep::Aborted { failure } => SetupStepView::Aborted { failure: failure@ },
        }
    }
}

impl SetupFlowView {
    /// The mnemonic of the account that is set up.
    pub open spec fn mnemonic(self) -> Seq<char> {
        match self {
            SetupFlowView::Authorizing { mnemonic } => mnemonic,
            SetupFlowView::Buying { mnemonic } => mnemonic,
            SetupFlowView::CreatingBucket { mnemonic } => mnemonic,
        }
    }

    /// The operation that the driver is asked for.
    pub open spec fn operation(self) -> Operation {
        match self {
            SetupFlowView::Authorizing { .. } => Operation::Authorize,
            SetupFlowView::Buying { .. } => Operation::BuySpace,
            SetupFlowView::CreatingBucket { .. } => Operation::CreateBucket,
        }
    }

    /// What the driver is asked to do. Every call goes to the fixed
    /// endpoint under the account of the mnemonic; the first is made at
    /// once, the others after a pause; the space and the bucket's name are
    /// fixed.
    pub open spec fn action(self) -> SetupActionView {
        let config = ConfigView { endpoint: ENDPOINT@, mnemonic: self.mnemonic() };
        match self {
            SetupFlowView::Authorizing { .. } => SetupActionView {
                pause_seconds: 0,
                call: SetupCallView::Authorize { config },
            },
            SetupFlowView::Buying { .. } => SetupActionView {
                pause_seconds: PAUSE_SECONDS,
                call: SetupCallView::BuySpace { config, gib: GIB_TO_BUY },
            },
            SetupFlowView::CreatingBucket { .. } => SetupActionView {
                pause_seconds: PAUSE_SECONDS,
                call: SetupCallView::CreateBucket { config, name: SETUP_BUCKET@ },
            },
        }
    }

    /// How the setup goes on past the call, `tolerated` being the failure
    /// of the call if it failed: to the next call, and past the last one to
    /// the end.
    pub open spec fn proceed(self, tolerated: Option<FailureView>) -> SetupStepView {
        match self {
            SetupFlowView::Authorizing { mnemonic } => SetupStepView::Continue {
                flow: SetupFlowView::Buying { mnemonic },
                tolerated,
            },
            SetupFlowView::Buying { mnemonic } => SetupStepView::Continue {
                flow: SetupFlowView::CreatingBucket { mnemonic },
                tolerated,
            },
            SetupFlowView::CreatingBucket { .. } => SetupStepView::Completed { tolerated },
        }
    }

    /// How the setup goes on once the call has ended with `outcome`. A
    /// failure that is not tolerated ends the setup; after a success, and
    /// after a tolerated failure, it proceeds.
    pub open spec fn resume(self, outcome: OutcomeView) -> SetupStepView {
        match outcome {
            Ok(_) => self.proceed(None),
            Err(cause) => {
                let failure = FailureView::RemoteCallFailure { operation: self.operation(), cause };
                if failure.tolerated() {
                    self.proceed(Some(failure))
                } else {
                    SetupStepView::Aborted { failure }
                }
            },
        }
    }
}

impl SetupStepView {
    /// The first step: without a credential the setup is given up before
    /// any call; with one, the account is authorized.
    pub open spec fn begin(credential: Option<Seq<char>>) -> SetupStepView {
        match credential {
            None => SetupStepView::Aborted { failure: FailureView::MissingCredential },
            Some(mnemonic) => SetupStepView::Continue {
                flow: SetupFlowView::Authorizing { mnemonic },
                tolerated: None,
            },
        }
    }

    /// The step that follows once the call that is being made has ended
    /// with `outcome`. Where no call is being made, nothing follows.
    pub open spec fn advance(self, outcome: OutcomeView) -> SetupStepView {
        match self {
            SetupStepView::Continue { flow, .. } => flow.resume(outcome),
            _ => self,
        }
    }

    /// Whether the driver is asked for `operation`.
    pub open spec fn calls(self, operation: Operation) -> bool {
        self matches SetupStepView::Continue { flow, .. } && flow.operation() == operation
    }
}

/// The steps of one run of the setup, in turn: the first step, and the one
/// after each of the three calls, where `authorized`, `bought` and
/// `created` are the outcomes of the calls as far as they are made.
pub open spec fn setup_run(
    credential: Option<Seq<char>>,
    authorized: OutcomeView,
    bought: OutcomeView,
    created: OutcomeView,
) -> Seq<SetupStepView> {
    let first = SetupStepView::begin(credential);
    let second = first.advance(authorized);
    let third = second.advance(bought);
    let last = third.advance(created);
    seq![first, second, third, last]
}

impl SetupStep {
    /// Begins the setup. `credential` is the account mnemonic, if one is
    /// configured.
    pub fn begin(credential: Option<String>) -> (step: SetupStep)
        ensures
            step@ == SetupStepView::begin(credential.deep_view()),
    {
        match credential {
            None => SetupStep::Aborted { failure: Failure::MissingCredential },
            Some(mnemonic) => SetupStep::Continue {
                flow: SetupFlow::Authorizing { mnemonic },
                tolerated: None,
            },
        }
    }
}

impl SetupFlow {
    /// The operation that the driver is asked for.
    pub fn operation(&self) -> (operation: Operation)
        ensures
            operation == self@.operation(),
    {
        match self {
            SetupFlow::Authorizing { .. } => Operation::Authorize,
            SetupFlow::Buying { .. } => Operation::BuySpace,
            SetupFlow::CreatingBucket { .. } => Operation::CreateBucket,
        }
    }

    /// What the driver is asked to do.
    pub fn action(&self) -> (action: SetupAction)
        ensures
            action@ == self@.action(),
    {
        match self {
            SetupFlow::Authorizing { mnemonic } => SetupAction {
                pause_seconds: 0,
                call: SetupCall::Authorize { config: Config::new(ENDPOINT, mnemonic.as_str()) },
            },
            SetupFlow::Buying { mnemonic } => SetupAction {
                pause_seconds: PAUSE_SECONDS,
                call: SetupCall::BuySpace {
                    config: Config::new(ENDPOINT, mnemonic.as_str()),
                    gib: GIB_TO_BUY,
                },
            },
            SetupFlow::CreatingBucket { mnemonic } => SetupAction {
                pause_seconds: PAUSE_SECONDS,
                call: SetupCall::CreateBucket {
                    config: Config::new(ENDPOINT, mnemonic.as_str()),
                    name: String::from_str(SETUP_BUCKET),
                },
            },
        }
    }

    /// Goes on past the call.
    fn proceed(self, tolerated: Option<Failure>) -> (step: SetupStep)
        ensures
            step@ == self@.proceed(failure_view(tolerated)),
    {
        match self {
            SetupFlow::Authorizing { mnemonic } => SetupStep::Continue {
                flow: SetupFlow::Buying { mnemonic },
                tolerated,
            },
            SetupFlow::Buying { mnemonic } => SetupStep::Continue {
                flow: SetupFlow::CreatingBucket { mnemonic },
                tolerated,
            },
            SetupFlow::CreatingBucket { .. } => SetupStep::Completed { tolerated },
        }
    }

    /// Goes on once the driver has done what [`SetupFlow::action`] said.
    pub fn resume(self, outcome: Outcome) -> (step: SetupStep)
        ensures
            step@ == self@.resume(outcome_view(outcome)),
    {
        match outcome {
            Ok(_) => self.proceed(None),
            Err(cause) => {
                let failure = Failure::RemoteCallFailure { operation: self.operation(), cause };
                if failure.is_tolerated() {
                    self.proceed(Some(failure))
                } else {
                    SetupStep::Aborted { failure }
                }
            },
        }
    }
}

/// The calls are asked for in their order, one after the other: a step of
/// a run asks for nothing but the call of its place, and the call that it
/// hands out is for that operation.
pub proof fn lemma_setup_calls_in_order(
    credential: Option<Seq<char>>,
    authorized: OutcomeView,
    bought: OutcomeView,
    created: OutcomeView,
    operation: Operation,
)
    ensures
        ({
            let run = setup_run(credential, authorized, bought, created);
            &&& run.len() == 4
            &&& forall|i: int|
                0 <= i < 4 && (#[trigger] run[i]).calls(operation)
                    ==> run[i]->flow.action().call.operation() == operation
            &&& run[0].calls(operation) ==> operation == Operation::Authorize
            &&& run[1].calls(operation) ==> operation == Operation::BuySpace
            &&& run[2].calls(operation) ==> operation == Operation::CreateBucket
            &&& !run[3].calls(operation)
        }),
{
}

/// Where buying space fails, the setup is given up with that failure, and
/// no step of the run asks to create the bucket.
pub proof fn lemma_failed_purchase_stops_setup(
    credential: Option<Seq<char>>,
    authorized: OutcomeView,
    cause: Seq<char>,
    created: OutcomeView,
)
    ensures
        ({
            let run = setup_run(credential, authorized, Err(cause), created);
            &&& forall|i: int|
                0 <= i < run.len() ==> !(#[trigger] run[i]).calls(Operation::CreateBucket)
            &&& credential is Some ==> run[3] == (SetupStepView::Aborted {
                failure: FailureView::RemoteCallFailure { operation: Operation::BuySpace, cause },
            })
        }),
{
}

/// Where authorizing fails, the failure is tolerated and space is bought
/// all the same: after the pause, under the same account.
pub proof fn lemma_failed_authorization_is_tolerated(
    mnemonic: Seq<char>,
    cause: Seq<char>,
    bought: OutcomeView,
    created: OutcomeView,
)
    ensures
        ({
            let run = setup_run(Some(mnemonic), Err(cause), bought, created);
            let failure = FailureView::RemoteCallFailure { operation: Operation::Authorize, cause };
            &&& failure.tolerated()
            &&& run[1] == (SetupStepView::Continue {
                flow: SetupFlowView::Buying { mnemonic },
                tolerated: Some(failure),
            })
            &&& run[1].calls(Operation::BuySpace)
        }),
{
}

/// A run completes if and only if there is a credential and space was
/// bought, whatever became of the two other calls.
pub proof fn lemma_setup_completes_iff_space_bought(
    credential: Option<Seq<char>>,
    authorized: OutcomeView,
    bought: OutcomeView,
    created: OutcomeView,
)
    ensures
        setup_run(credential, authorized, bought, created)[3] is Completed <==> credential is Some
            && bought is Ok,
        !(setup_run(credential, authorized, bought, created)[3] is Continue),
{
}

/// A run against an account that is authorized and has its bucket, which
/// the network tells by refusing both calls, completes, and both failures
/// are tolerated. The setup keeps nothing from one run to the next: a
/// second run asks for the same calls as the first and completes as well,
/// whatever causes and transactions the network reports in either.
pub proof fn lemma_repeated_setup_completes(
    mnemonic: Seq<char>,
    first: (Seq<char>, Seq<char>, Seq<char>),
    second: (Seq<char>, Seq<char>, Seq<char>),
)
    ensures
        ({
            let once = setup_run(Some(mnemonic), Err(first.0), Ok(first.1), Err(first.2));
            let again = setup_run(Some(mnemonic), Err(second.0), Ok(second.1), Err(second.2));
            let unauthorized = FailureView::RemoteCallFailure {
                operation: Operation::Authorize,
                cause: first.0,
            };
            let unbucketed = FailureView::RemoteCallFailure {
                operation: Operation::CreateBucket,
                cause: first.2,
            };
            &&& unauthorized.tolerated()
            &&& unbucketed.tolerated()
            &&& once[1] == (SetupStepView::Continue {
                flow: SetupFlowView::Buying { mnemonic },
                tolerated: Some(unauthorized),
            })
            &&& once[2] == (SetupStepView::Continue {
                flow: SetupFlowView::CreatingBucket { mnemonic },
                tolerated: None,
            })
            &&& once[3] == (SetupStepView::Completed { tolerated: Some(unbucketed) })
            &&& again[3] is Completed
            &&& forall|i: int| 0 <= i < 3 ==> (#[trigger] again[i])->flow == once[i]->flow
        }),
{
}

} // verus!
