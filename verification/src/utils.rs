//! The helpers that the commands share, gathered under one path.

pub use crate::balloon::{
    balloon_pages, balloon_set_cmd, balloon_stats_cmd, control_socket_path, parse_balloon_stats,
    validate_balloon,
};
pub use crate::buildah::{get_buildah_args, BuildahCommand};
pub use crate::capability::validate_capability;
pub use crate::mac::parse_mac;
pub use crate::pairs::{path_pairs_to_hash_map, port_pairs_to_hash_map, PathPair, PortPair};
pub use crate::shell::shell_escape;
