//! The sequencer that submitted transactions are forwarded to.

use vstd::prelude::*;

verus! {

/// A handle to the sequencer of an Optimism network: the endpoint that
/// submitted transactions are forwarded to.
#[derive(Debug, PartialEq, Eq)]
pub struct SequencerClient {
    sequencer_endpoint: String,
}

impl View for SequencerClient {
    type V = Seq<char>;

    /// The address of the sequencer's endpoint.
    closed spec fn view(&self) -> Seq<char> {
        self.sequencer_endpoint@
    }
}

impl Clone for SequencerClient {
    fn clone(&self) -> (client: Self)
        ensures
            client == *self,
    {
        Self { sequencer_endpoint: self.sequencer_endpoint.clone() }
    }
}

impl SequencerClient {
    /// Creates a new handle to the sequencer at the given endpoint.
    pub fn new(sequencer_endpoint: String) -> (client: Self)
        ensures
            client@ == sequencer_endpoint@,
    {
        Self { sequencer_endpoint }
    }

    /// Returns the network of the client
    pub fn endpoint(&self) -> (endpoint: &str)
        ensures
            endpoint@ == self@,
    {
        self.sequencer_endpoint.as_str()
    }
}

} // verus!
