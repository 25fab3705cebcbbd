//! The long description of the system the host runs on.

use vstd::prelude::*;
use vstd::string::*;

use crate::commands::basic::host_version;

verus! {

/// The memory size that the host shows, in bytes: 16 GiB.
pub const MEMORY_TOTAL: u64 = 17179869184;

/// The long description of the system the host runs on.
#[derive(Debug)]
pub struct SystemInfo {
    pub platform: String,
    pub version: String,
    pub arch: String,
    pub memory_total: u64,
    pub cpu_cores: u32,
}

/// A count of processors as the description holds it: the low 32 bits.
pub open spec fn cores_shown(cpus: usize) -> u32 {
    (cpus as int % 0x1_0000_0000) as u32
}

/// Calls `num_cpus::get`, which returns the number of logical processors
/// that the current system offers this process. The number depends on the
/// machine, so nothing is stated of it.
#[verifier::external_body]
fn logical_cpus() -> (cpus: usize) {
    num_cpus::get()
}

/// The description of a system with this platform, architecture and number
/// of processors.
pub fn describe_system(platform: &str, arch: &str, cpus: usize) -> (info: SystemInfo)
    ensures
        info.platform@ == platform@,
        info.version@ == host_version(),
        info.arch@ == arch@,
        info.memory_total == MEMORY_TOTAL,
        info.cpu_cores == cores_shown(cpus),
{
    let wide: u64 = cpus as u64;
    let cores: u32 = (wide % 0x1_0000_0000) as u32;
    SystemInfo {
        platform: String::from_str(platform),
        version: String::from_str("0.1.0"),
        arch: String::from_str(arch),
        memory_total: MEMORY_TOTAL,
        cpu_cores: cores,
    }
}

/// The description of this system, given its platform and architecture: the
/// number of processors is asked of the machine.
pub fn get_system_info(platform: &str, arch: &str) -> (info: SystemInfo)
    ensures
        info.platform@ == platform@,
        info.version@ == host_version(),
        info.arch@ == arch@,
        info.memory_total == MEMORY_TOTAL,
{
    describe_system(platform, arch, logical_cpus())
}

} // verus!
