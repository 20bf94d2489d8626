//! What passes between the library and the driver that reaches the storage
//! network for it.

use vstd::prelude::*;

verus! {

/// How to reach the storage network: where, and as whom.
#[derive(Debug, PartialEq, Eq)]
pub struct Config {
    pub endpoint: String,
    pub mnemonic: String,
}

/// Mathematical model of a [`Config`].
pub struct ConfigView {
    pub endpoint: Seq<char>,
    pub mnemonic: Seq<char>,
}

impl View for Config {
    type V = ConfigView;

    open spec fn view(&self) -> ConfigView {
        ConfigView { endpoint: self.endpoint@, mnemonic: self.mnemonic@ }
    }
}

impl Config {
    /// The configuration that reaches `endpoint` as the account of
    /// `mnemonic`.
    pub fn new(endpoint: &str, mnemonic: &str) -> (config: Config)
        ensures
            config@ == (ConfigView { endpoint: endpoint@, mnemonic: mnemonic@ }),
    {
        Config { endpoint: String::from_str(endpoint), mnemonic: String::from_str(mnemonic) }
    }
}

impl Clone for Config {
    fn clone(&self) -> (copy: Config)
        ensures
            copy == *self,
    {
        Config { endpoint: self.endpoint.clone(), mnemonic: self.mnemonic.clone() }
    }
}

/// What a driver reports once it has done what it was asked to do: the text
/// that came back (a path, a transaction hash, a file identifier), or the
/// cause of the failure.
pub type Outcome = Result<String, String>;

/// Mathematical model of an [`Outcome`].
pub type OutcomeView = Result<Seq<char>, Seq<char>>;

/// The model of an outcome.
pub open spec fn outcome_view(outcome: Outcome) -> OutcomeView {
    match outcome {
        Ok(text) => Ok(text@),
        Err(cause) => Err(cause@),
    }
}

} // verus!
