//! Reading a primitive from the spend of a coin.
use vstd::prelude::*;
use crate::cat::{cat_spent, CATView, CAT};
use crate::codec::FromClvm;
use crate::coin::CoinSpend;
use crate::datalayer::DelegatedPuzzle;
use crate::datastore::{DataStore, DataStoreView};
use crate::datastore_child::spent;
use crate::error::DriverError;
use crate::metadata::MetadataWithRootHash;
use crate::modules::Modules;
use crate::nft::{Nft, NftView};
use crate::nft_child::nft_spent;

verus! {

/// Given a spend, tells of the coin that the spend creates.
///
/// Every reading runs the spend in the VM and takes the values back as trees
/// of the library: a value deeper than `MAX_DEPTH` pairs is refused as `Vm`,
/// as every failure of the VM is.
pub trait FromSpend<R, A> {
    /// Whether `r` is what the spend `cs` is read as.
    spec fn reads(
        modules: Modules,
        cs: CoinSpend,
        additional_info: A,
        r: Result<R, DriverError>,
    ) -> bool;

    /// Reads the spend.
    fn from_spend(modules: &Modules, cs: &CoinSpend, additional_info: A) -> (r: Result<
        R,
        DriverError,
    >)
        ensures
            Self::reads(*modules, *cs, additional_info, r),
    ;
}

impl<M: MetadataWithRootHash> FromSpend<Option<DataStore<M>>, Vec<DelegatedPuzzle>> for DataStore<
    M,
> {
    /// The result is `Vm` or the one that `spent` defines.
    open spec fn reads(
        modules: Modules,
        cs: CoinSpend,
        additional_info: Vec<DelegatedPuzzle>,
        r: Result<Option<DataStore<M>>, DriverError>,
    ) -> bool {
        let read = spent::<M>(cs.coin, cs.puzzle_reveal@, cs.solution@, additional_info@, modules);
        match r {
            Err(DriverError::Vm) => true,
            Ok(Some(store)) => read == Ok::<Option<DataStoreView>, DriverError>(Some(store@)),
            Ok(None) => read == Ok::<Option<DataStoreView>, DriverError>(None),
            Err(e) => read == Err::<Option<DataStoreView>, DriverError>(e),
        }
    }

    fn from_spend(modules: &Modules, cs: &CoinSpend, additional_info: Vec<DelegatedPuzzle>) -> (r:
        Result<Option<DataStore<M>>, DriverError>) {
        DataStore::<M>::from_spend(cs, additional_info, modules)
    }
}

impl<M: FromClvm> FromSpend<Option<Nft<M>>, ()> for Nft<M> {
    /// The result is `Vm` or the one that `nft_spent` defines.
    open spec fn reads(
        modules: Modules,
        cs: CoinSpend,
        additional_info: (),
        r: Result<Option<Nft<M>>, DriverError>,
    ) -> bool {
        let read = nft_spent::<M>(cs.coin, cs.puzzle_reveal@, cs.solution@, modules);
        match r {
            Err(DriverError::Vm) => true,
            Ok(Some(nft)) => read == Ok::<Option<NftView>, DriverError>(Some(nft@)),
            Ok(None) => read == Ok::<Option<NftView>, DriverError>(None),
            Err(e) => read == Err::<Option<NftView>, DriverError>(e),
        }
    }

    fn from_spend(modules: &Modules, cs: &CoinSpend, additional_info: ()) -> (r: Result<
        Option<Nft<M>>,
        DriverError,
    >) {
        Nft::<M>::from_spend(cs, modules)
    }
}

impl FromSpend<Option<CAT>, ()> for CAT {
    /// The result is `Vm` or the one that `cat_spent` defines.
    open spec fn reads(
        modules: Modules,
        cs: CoinSpend,
        additional_info: (),
        r: Result<Option<CAT>, DriverError>,
    ) -> bool {
        let read = cat_spent(cs.coin, cs.puzzle_reveal@, cs.solution@, modules);
        match r {
            Err(DriverError::Vm) => true,
            Ok(Some(cat)) => read == Ok::<Option<CATView>, DriverError>(Some(cat@)),
            Ok(None) => read == Ok::<Option<CATView>, DriverError>(None),
            Err(e) => read == Err::<Option<CATView>, DriverError>(e),
        }
    }

    fn from_spend(modules: &Modules, cs: &CoinSpend, additional_info: ()) -> (r: Result<
        Option<CAT>,
        DriverError,
    >) {
        CAT::from_parent_spend(cs, modules)
    }
}

} // verus!
