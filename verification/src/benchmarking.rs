//! Help for benchmarks of the pallet.

use vstd::prelude::*;

verus! {

/// Makes asset ids for benchmarks out of plain numbers.
pub trait BenchmarkHelper<Id> {
    /// The asset id that stands for `id`.
    fn convert_to_asset_id(id: u32) -> Id;
}

impl<Id: From<u32>> BenchmarkHelper<Id> for () {
    /// The asset id that `id` converts into.
    fn convert_to_asset_id(id: u32) -> (r: Id)
        ensures
            call_ensures(<Id as From<u32>>::from, (id,), r),
    {
        id.into()
    }
}

} // verus!
