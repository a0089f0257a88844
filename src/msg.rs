use vstd::prelude::*;

verus! {

/// Instantiates the integration contract with the contracts it talks to.
#[derive(Clone, Debug, PartialEq)]
pub struct InstantiateMsg {
    pub wormhole_contract: String,
    pub token_bridge_contract: String,
}

/// The actions the integration contract executes.
#[derive(Clone, Debug, PartialEq)]
pub enum ExecuteMsg {
    /// Completes a transfer with payload from the encoded attested message.
    CompleteTransferWithPayload { data: Vec<u8> },
}

/// Migrates the integration contract; it carries nothing.
#[derive(Clone, Debug, PartialEq)]
pub struct MigrateMsg {}

/// The queries the integration contract answers.
#[derive(Clone, Debug, PartialEq)]
pub enum QueryMsg {
    /// The local asset registered for a token of another chain.
    WrappedRegistry { chain: u16, address: Vec<u8> },
}

} // verus!
