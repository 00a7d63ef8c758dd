//! The configuration of a monitoring session.

use crate::classifier::{classified, classify_response, outcome_view, ClassificationResult};
use crate::error::MonitorError;
use crate::routers::{RouterAddressSet, UNISWAP_V2_ROUTER, UNISWAP_V3_ROUTER};
use crate::selectors::{standard_selectors, SelectorTable};
use vstd::prelude::*;

verus! {

/// What a session is set up with: the endpoint of the node, the routers
/// that are watched and the names of their functions.  Nothing of it changes
/// once it is made.
pub struct AlchemyConfig {
    api: String,
    routers: RouterAddressSet,
    selectors: SelectorTable,
}

impl AlchemyConfig {
    /// The address of the endpoint.
    pub closed spec fn endpoint(&self) -> Seq<char> {
        self.api@
    }

    /// The addresses of the routers that are watched.
    pub closed spec fn watched(&self) -> Seq<Seq<char>> {
        self.routers@
    }

    /// The names of the functions, by selector.
    pub closed spec fn names(&self) -> Map<Seq<char>, Seq<char>> {
        self.selectors@
    }

    /// The configuration for the endpoint `key`, with the standard routers
    /// and the standard selectors.
    pub fn init(key: &str) -> (config: Self)
        ensures
            config.endpoint() == key@,
            config.watched() == seq![UNISWAP_V2_ROUTER@, UNISWAP_V3_ROUTER@],
            config.names() == standard_selectors(),
    {
        AlchemyConfig {
            api: key.to_owned(),
            routers: RouterAddressSet::standard(),
            selectors: SelectorTable::standard(),
        }
    }

    /// The address of the endpoint.
    pub fn api(&self) -> (api: &str)
        ensures
            api@ == self.endpoint(),
    {
        self.api.as_str()
    }

    /// The routers that are watched.
    pub fn routers(&self) -> (routers: &RouterAddressSet)
        ensures
            routers@ == self.watched(),
    {
        &self.routers
    }

    /// The table of function names.
    pub fn selectors(&self) -> (selectors: &SelectorTable)
        ensures
            selectors@ == self.names(),
    {
        &self.selectors
    }

    /// Classifies the transaction with the given hash from the body of the
    /// response to its fetch, with the routers and names of this
    /// configuration.
    pub fn classify(&self, hash: &str, body: &str) -> (outcome: Result<
        Option<ClassificationResult>,
        MonitorError,
    >)
        ensures
            outcome_view(outcome) == classified(hash@, body@, self.watched(), self.names()),
    {
        classify_response(hash, body, &self.routers, &self.selectors)
    }
}

} // verus!
