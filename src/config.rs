use vstd::prelude::*;

use crate::identity::Identity;

verus! {

/// Maximum router fee rate, in basis points (10%).
pub const MAX_FEE_RATE: u16 = 1000;

/// Fee rate suggested for a fresh router, in basis points (0.3%).
pub const DEFAULT_FEE_RATE: u16 = 30;

/// Maximum slippage tolerance, in basis points (50%); reserved, not enforced.
pub const MAX_SLIPPAGE: u16 = 5000;

/// Smallest `amount_in` a swap may carry.
pub const MIN_SWAP_AMOUNT: u64 = 1;

/// Basis points in one whole.
pub const BPS_DENOMINATOR: u64 = 10000;

/// The trading venues a swap can be routed to.
#[derive(Clone, Copy, Debug, PartialEq, Eq, Structural)]
pub enum DexType {
    Orca,
    RaydiumRouter,
    RaydiumStable,
    MeteoraStable,
    MeteoraVault,
}

/// The settlement module identity expected for each venue tag.
///
/// Every tag has an entry by construction; `new` also demands that no two
/// venues share a module identity.
#[derive(Clone, Copy, Debug)]
pub struct VenueTable {
    pub orca: Identity,
    pub raydium_router: Identity,
    pub raydium_stable: Identity,
    pub meteora_stable: Identity,
    pub meteora_vault: Identity,
}

impl VenueTable {
    /// The five module identities, all pairwise distinct.
    pub open spec fn wf(&self) -> bool {
        &&& self.orca@ != self.raydium_router@
        &&& self.orca@ != self.raydium_stable@
        &&& self.orca@ != self.meteora_stable@
        &&& self.orca@ != self.meteora_vault@
        &&& self.raydium_router@ != self.raydium_stable@
        &&& self.raydium_router@ != self.meteora_stable@
        &&& self.raydium_router@ != self.meteora_vault@
        &&& self.raydium_stable@ != self.meteora_stable@
        &&& self.raydium_stable@ != self.meteora_vault@
        &&& self.meteora_stable@ != self.meteora_vault@
    }

    /// The module identity configured for `dex`.
    pub open spec fn spec_program_for(&self, dex: DexType) -> Identity {
        match dex {
            DexType::Orca => self.orca,
            DexType::RaydiumRouter => self.raydium_router,
            DexType::RaydiumStable => self.raydium_stable,
            DexType::MeteoraStable => self.meteora_stable,
            DexType::MeteoraVault => self.meteora_vault,
        }
    }

    /// Builds the table; `None` when two venues are given the same identity.
    pub fn new(
        orca: Identity,
        raydium_router: Identity,
        raydium_stable: Identity,
        meteora_stable: Identity,
        meteora_vault: Identity,
    ) -> (r: Option<VenueTable>)
        ensures
            ({
                let t = VenueTable { orca, raydium_router, raydium_stable, meteora_stable, meteora_vault };
                &&& t.wf() ==> r == Some(t)
                &&& !t.wf() ==> r is None
            }),
    {
        let t = VenueTable { orca, raydium_router, raydium_stable, meteora_stable, meteora_vault };
        if orca.same_as(&raydium_router) || orca.same_as(&raydium_stable) || orca.same_as(
            &meteora_stable,
        ) || orca.same_as(&meteora_vault) || raydium_router.same_as(&raydium_stable)
            || raydium_router.same_as(&meteora_stable) || raydium_router.same_as(&meteora_vault)
            || raydium_stable.same_as(&meteora_stable) || raydium_stable.same_as(&meteora_vault)
            || meteora_stable.same_as(&meteora_vault) {
            None
        } else {
            Some(t)
        }
    }

    /// The module identity configured for `dex`.
    pub fn program_for(&self, dex: DexType) -> (r: Identity)
        ensures
            r == self.spec_program_for(dex),
    {
        match dex {
            DexType::Orca => self.orca,
            DexType::RaydiumRouter => self.raydium_router,
            DexType::RaydiumStable => self.raydium_stable,
            DexType::MeteoraStable => self.meteora_stable,
            DexType::MeteoraVault => self.meteora_vault,
        }
    }
}

} // verus!
