//! The assembled machine: the CPU (which owns the interconnect it
//! executes against) and a spare interconnect slot for a host that
//! builds the two separately.

use vstd::prelude::*;

use crate::cpu::Cpu;
use crate::interconnect::Interconnect;

verus! {

pub struct Ps {
    pub cpu: Cpu,
    pub interconnect: Interconnect,
}

impl Ps {
    pub fn new(cpu: Cpu, interconnect: Interconnect) -> (r: Ps)
        ensures
            r.cpu == cpu,
            r.interconnect == interconnect,
    {
        Ps { cpu, interconnect }
    }
}

} // verus!
