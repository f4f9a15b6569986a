//! CPU samples: per-core readings and their aggregate.

use vstd::prelude::*;
use crate::process::{unknown_name, unknown_string};

verus! {

/// One core: its usage (of the caller's numeric type) and its frequency in MHz.
#[derive(Debug)]
pub struct CpuCoreData<U> {
    pub usage: U,
    pub frequency: u64,
}

impl<U> CpuCoreData<U> {
    pub fn new(usage: U, frequency: u64) -> (r: CpuCoreData<U>)
        ensures
            r.usage == usage,
            r.frequency == frequency,
    {
        CpuCoreData { usage, frequency }
    }
}

/// The aggregate: chip name, physical core count, global usage and the cores
/// in the order the operating system enumerates them.
#[derive(Debug)]
pub struct CpuData<U> {
    pub chip_name: String,
    pub physical_core_count: usize,
    pub global_usage: U,
    pub cores: Vec<CpuCoreData<U>>,
}

/// The chip name: the brand of the first core, or `"Unknown"` with no cores.
pub open spec fn chip_name_of(brands: Seq<String>) -> Seq<char> {
    if brands.len() > 0 {
        brands[0]@
    } else {
        unknown_name()
    }
}

/// The chip name of the cores whose brands are given in enumeration order.
pub fn chip_name(brands: &Vec<String>) -> (r: String)
    ensures
        r@ == chip_name_of(brands@),
{
    if brands.len() > 0 {
        brands[0].clone()
    } else {
        unknown_string()
    }
}

impl<U> CpuData<U> {
    /// Builds the aggregate from the cores' brands (in enumeration order), the
    /// physical core count if it could be determined (else 0), the global
    /// usage and the per-core readings.
    pub fn new(
        brands: &Vec<String>,
        physical_core_count: Option<usize>,
        global_usage: U,
        cores: Vec<CpuCoreData<U>>,
    ) -> (r: CpuData<U>)
        ensures
            r.chip_name@ == chip_name_of(brands@),
            r.physical_core_count == match physical_core_count {
                Some(c) => c,
                None => 0usize,
            },
            r.global_usage == global_usage,
            r.cores@ == cores@,
    {
        let physical_core_count = match physical_core_count {
            Some(c) => c,
            None => 0,
        };
        CpuData { chip_name: chip_name(brands), physical_core_count, global_usage, cores }
    }
}

} // verus!
