//! Fixed names: the operating modes and the programs that are run.

use vstd::prelude::*;

verus! {

/// Name of the mode that starts the client detached and returns at once.
pub const MODE_ONCE: &'static str = "once";

/// Name of the mode that waits until the client exits.
pub const MODE_WATCH: &'static str = "watch";

/// The environment file that is read where none is named.
pub const DEFAULT_ENV_FILE: &'static str = ".env";

/// Where the service descriptor is installed.
pub const LAUNCHD_PLIST_PATH: &'static str = "/Library/LaunchDaemons/com.moecm.vpn-helper.plist";

/// The VPN client.
pub const CLIENT_PROGRAM: &'static str = "openconnect";

/// The routing helper that the client runs as its script.
pub const ROUTING_HELPER: &'static str = "vpn-slice";

/// The service manager's control program.
pub const SERVICE_MANAGER: &'static str = "launchctl";

/// The program that signals processes by name.
pub const TERMINATOR: &'static str = "killall";

} // verus!
