use vstd::prelude::*;
use crate::address::Address;
use crate::error::BridgeError;
use crate::transfer::ExecutionContext;

verus! {

/// The configuration of the NFT bridge: the core bridge it relies on.
#[derive(Clone, Copy, Debug)]
pub struct NftConfig {
    pub wormhole_bridge: Address,
}

/// Instruction data of `initialize`.
#[derive(Clone, Copy, Debug, Default)]
pub struct InitializeData {
    pub bridge: Address,
}

/// The accounts of `initialize`: who pays, and the configuration account,
/// which holds nothing until it is created.
#[derive(Clone, Copy, Debug)]
pub struct Initialize {
    pub payer: Address,
    pub config: Option<NftConfig>,
}

/// Creates the configuration and records the core bridge in it. A
/// configuration is created once: a second call fails with
/// `AlreadyInitialized` and changes nothing.
pub fn initialize(ctx: &ExecutionContext, accs: &mut Initialize, data: InitializeData) -> (r: Result<(), BridgeError>)
    ensures
        old(accs).config is Some ==> r == Err::<(), BridgeError>(BridgeError::AlreadyInitialized)
            && *final(accs) == *old(accs),
        old(accs).config is None ==> r is Ok && final(accs).payer == old(accs).payer
            && final(accs).config is Some && final(accs).config->0.wormhole_bridge == data.bridge,
{
    if accs.config.is_some() {
        return Err(BridgeError::AlreadyInitialized);
    }
    accs.config = Some(NftConfig { wormhole_bridge: data.bridge });
    Ok(())
}

} // verus!
