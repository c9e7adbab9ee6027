//! The validated provisioning request: the virtual machine's identity and
//! hardware profile, together with the checks that admit a raw configuration
//! into it.

use vstd::prelude::*;
use vstd::string::StringExecFns;
use crate::errors::ProvisionError;

verus! {

/// A validated description of the virtual machine to provision. Immutable
/// once constructed; the sequencer only reads it.
#[derive(Debug)]
pub struct VmDescription {
    /// Non-empty identifier; doubles as the hypervisor's VM identifier and as
    /// a path component of derived artifact names.
    pub name: String,
    /// Guest OS family as the hypervisor tool understands it; opaque here.
    pub os_type: String,
    /// Memory allocation in megabytes; positive.
    pub memory_mb: u32,
    /// Virtual CPU count; positive.
    pub cpu_count: u32,
    /// Capacity of the primary disk image in megabytes; positive.
    pub disk_size_mb: u32,
    /// Optional path of an installation or boot image; absence means no
    /// optical drive is attached.
    pub iso_path: Option<String>,
}

impl VmDescription {
    /// The description's invariant: the name is usable as an identifier and
    /// every hardware quantity is positive.
    pub open spec fn wf(self) -> bool {
        &&& self.name@.len() > 0
        &&& self.memory_mb > 0
        &&& self.cpu_count > 0
        &&& self.disk_size_mb > 0
    }
}

/// Whether raw configuration fields form a valid description: non-empty name
/// and each quantity positive and within the hypervisor tool's 32-bit range.
pub open spec fn fields_admissible(name: Seq<char>, memory: i64, cpus: i64, disk_size: i64) -> bool {
    &&& name.len() > 0
    &&& 1 <= memory <= u32::MAX
    &&& 1 <= cpus <= u32::MAX
    &&& 1 <= disk_size <= u32::MAX
}

/// Validates raw configuration fields and assembles the description.
/// Succeeds exactly on admissible fields and copies them through unchanged;
/// every rejection is a malformed-configuration error.
pub fn build_description(
    name: String,
    os_type: String,
    memory: i64,
    cpus: i64,
    disk_size: i64,
    iso_path: Option<String>,
) -> (r: Result<VmDescription, ProvisionError>)
    ensures
        r is Ok <==> fields_admissible(name@, memory, cpus, disk_size),
        r matches Ok(d) ==> {
            &&& d.wf()
            &&& d.name == name
            &&& d.os_type == os_type
            &&& d.memory_mb == memory
            &&& d.cpu_count == cpus
            &&& d.disk_size_mb == disk_size
            &&& d.iso_path == iso_path
        },
        r matches Err(e) ==> e is ConfigMalformed,
{
    if name.as_str().is_empty() {
        return Err(
            ProvisionError::ConfigMalformed {
                cause: String::from_str("the `name` field must not be empty"),
            },
        );
    }
    if memory < 1 || memory > u32::MAX as i64 {
        return Err(
            ProvisionError::ConfigMalformed {
                cause: String::from_str("the `memory` field must be a positive 32-bit integer"),
            },
        );
    }
    if cpus < 1 || cpus > u32::MAX as i64 {
        return Err(
            ProvisionError::ConfigMalformed {
                cause: String::from_str("the `cpus` field must be a positive 32-bit integer"),
            },
        );
    }
    if disk_size < 1 || disk_size > u32::MAX as i64 {
        return Err(
            ProvisionError::ConfigMalformed {
                cause: String::from_str("the `disk_size` field must be a positive 32-bit integer"),
            },
        );
    }
    Ok(
        VmDescription {
            name,
            os_type,
            memory_mb: memory as u32,
            cpu_count: cpus as u32,
            disk_size_mb: disk_size as u32,
            iso_path,
        },
    )
}

} // verus!
