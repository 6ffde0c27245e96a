//! The init-system selection and the compile-time platform paths and names
//! that planning resolves from it.

use vstd::prelude::*;

verus! {

/// Which service-management subsystem the target platform runs.
#[derive(Clone, Copy, Debug, PartialEq, Eq)]
pub enum InitSystem {
    Launchd,
    Systemd,
    Unmanaged,
}

/// Destination of the generated launchd service descriptor.
pub open spec fn darwin_daemon_dest() -> Seq<char> {
    "/Library/LaunchDaemons/systems.determinate.nix-daemon.plist"@
}

/// Destination of the systemd unit file.
pub open spec fn systemd_service_dest() -> Seq<char> {
    "/etc/systemd/system/nix-daemon.service"@
}

/// Pre-staged source of the systemd unit file.
pub open spec fn determinate_service_src() -> Seq<char> {
    "/nix/determinate/nix-daemon.service"@
}

/// Registration name of the daemon under launchd.
pub open spec fn darwin_service_name() -> Seq<char> {
    "systems.determinate.nix-daemon"@
}

/// The `domain/name` pair by which launchd addresses the registered daemon
/// for unregistration.
pub open spec fn darwin_bootout_target() -> Seq<char> {
    "system/systems.determinate.nix-daemon"@
}

/// Service source path resolved by planning: pre-staged only for systemd;
/// under launchd the descriptor is generated in place at execute time.
pub open spec fn spec_service_src(init: InitSystem) -> Option<Seq<char>> {
    match init {
        InitSystem::Launchd => None,
        InitSystem::Systemd => Some(determinate_service_src()),
        InitSystem::Unmanaged => None,
    }
}

/// Service destination path resolved by planning.
pub open spec fn spec_service_dest(init: InitSystem) -> Option<Seq<char>> {
    match init {
        InitSystem::Launchd => Some(darwin_daemon_dest()),
        InitSystem::Systemd => Some(systemd_service_dest()),
        InitSystem::Unmanaged => None,
    }
}

/// Service registration name resolved by planning.
pub open spec fn spec_service_name(init: InitSystem) -> Option<Seq<char>> {
    match init {
        InitSystem::Launchd => Some(darwin_service_name()),
        InitSystem::Systemd => None,
        InitSystem::Unmanaged => None,
    }
}

} // verus!
