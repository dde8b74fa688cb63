//! The protocol-generic trade executor: its settings, and the checks it
//! makes before a trade is built.
use crate::codec::string_of;
use crate::error::ProviderError;
use vstd::prelude::*;

verus! {

/// Runs trades for one protocol with that protocol's instruction builder.
pub struct GenericTradeExecutor<B> {
    pub instruction_builder: B,
    pub protocol_name: &'static str,
}

impl<B> GenericTradeExecutor<B> {
    pub fn new(instruction_builder: B, protocol_name: &'static str) -> (r: Self)
        ensures
            r.instruction_builder == instruction_builder,
            r.protocol_name == protocol_name,
    {
        GenericTradeExecutor { instruction_builder, protocol_name }
    }

    pub fn protocol_name(&self) -> (r: &'static str)
        ensures
            r == self.protocol_name,
    {
        self.protocol_name
    }
}

/// The RPC handle a plain-RPC trade needs; its absence is a configuration error.
pub fn require_rpc<T>(rpc: Option<T>) -> (r: Result<T, ProviderError>)
    ensures
        rpc matches Some(c) ==> r == Ok::<T, ProviderError>(c),
        rpc is None ==> (r matches Err(ProviderError::Configuration(m)) && m@ == "RPC is not set"@),
{
    match rpc {
        Some(c) => Ok(c),
        None => Err(ProviderError::Configuration(string_of("RPC is not set"))),
    }
}

} // verus!
