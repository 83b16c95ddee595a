//! The stored configuration: defaults and the microVMs by name.

use vstd::prelude::*;
use crate::strmap::StringMap;

verus! {

/// One microVM.
pub struct VmConfig {
    pub name: String,
    pub cpus: u32,
    /// RAM in MiB.
    pub mem: u32,
    pub dns: String,
    /// The buildah container that holds the root file system.
    pub container: String,
    pub workdir: String,
    /// Host path to guest path.
    pub mapped_volumes: StringMap<String>,
    /// Host port to guest port.
    pub mapped_ports: StringMap<String>,
    /// gvproxy socket for virtio-net networking.
    pub net_socket: Option<String>,
    pub mac_address: Option<String>,
    pub rootfs_ro: bool,
    /// Capabilities dropped in the guest, without the `cap_` prefix.
    pub cap_drop: Vec<String>,
    /// Memory left resident at boot, in MiB, when the balloon is used.
    pub balloon_target_mb: Option<u32>,
    pub control_socket: Option<String>,
}

/// The whole configuration.
pub struct KrunvmConfig {
    pub default_cpus: u32,
    pub default_mem: u32,
    pub default_dns: String,
    pub storage_volume: String,
    pub vmconfig_map: StringMap<VmConfig>,
}

/// Every stored VM is found under its own name, and has a gvproxy socket
/// exactly when it has a MAC address.
pub open spec fn configs_consistent(vms: Map<Seq<char>, VmConfig>) -> bool {
    forall|k: Seq<char>|
        #[trigger] vms.dom().contains(k) ==> {
            &&& vms[k].name@ == k
            &&& (vms[k].net_socket is Some <==> vms[k].mac_address is Some)
        }
}

} // verus!
