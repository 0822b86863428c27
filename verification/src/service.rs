//! Registration with the service manager: the descriptor that is installed,
//! and how the service manager is told of it.

use crate::constant::{LAUNCHD_PLIST_PATH, SERVICE_MANAGER};
use crate::invocation::{Invocation, InvocationView};
use vstd::prelude::*;

verus! {

/// The service descriptor up to the path of the program.
pub const DESCRIPTOR_HEAD: &'static str = "<?xml version=\"1.0\" encoding=\"UTF-8\"?>\n\
    <!DOCTYPE plist PUBLIC \"-//Apple//DTD PLIST 1.0//EN\" \"http://www.apple.com/DTDs/PropertyList-1.0.dtd\">\n\
    <plist version=\"1.0\">\n\
    <dict>\n\
    \t<key>KeepAlive</key>\n\
    \t<true/>\n\
    \t<key>Label</key>\n\
    \t<string>com.moecm.vpn-helper</string>\n\
    \t<key>LimitLoadToSessionType</key>\n\
    \t<array>\n\
    \t\t<string>Aqua</string>\n\
    \t\t<string>Background</string>\n\
    \t\t<string>LoginWindow</string>\n\
    \t\t<string>StandardIO</string>\n\
    \t\t<string>System</string>\n\
    \t</array>\n\
    \t<key>ProgramArguments</key>\n\
    \t<array>\n\
    \t\t<string>";

/// The service descriptor between the path of the program and the path of
/// the environment file: the program is run as `connect --mode watch --env`.
pub const DESCRIPTOR_MIDDLE: &'static str = "</string>\n\
    \t\t<string>connect</string>\n\
    \t\t<string>--mode</string>\n\
    \t\t<string>watch</string>\n\
    \t\t<string>--env</string>\n\
    \t\t<string>";

/// The service descriptor after the path of the environment file. It sets
/// the search path that the service manager starts the program with.
pub const DESCRIPTOR_TAIL: &'static str = "</string>\n\
    \t</array>\n\
    \t<key>RunAtLoad</key>\n\
    \t<true/>\n\
    \t<key>EnvironmentVariables</key>\n\
    \t<dict>\n\
    \t\t<key>PATH</key>\n\
    \t\t<string>/opt/homebrew/bin:/opt/homebrew/sbin:/usr/local/bin:/usr/bin:/bin:/usr/sbin:/sbin</string>\n\
    \t</dict>\n\
    </dict>\n\
    </plist>";

/// Verb of the service manager that loads a descriptor.
pub const VERB_LOAD: &'static str = "bootstrap";

/// Verb of the service manager that unloads a descriptor.
pub const VERB_UNLOAD: &'static str = "bootout";

/// Domain of the service manager in which the service lives.
pub const SERVICE_DOMAIN: &'static str = "system";

/// What is said once the service was added.
pub const NOTICE_ADDED: &'static str = "VPN Helper has been added to launchd.";

/// What is said once the service was removed.
pub const NOTICE_REMOVED: &'static str = "VPN Helper has been removed from launchd.";

/// The descriptor of the service that runs `program` as
/// `connect --mode watch --env` with `env_file`. Both paths stand in it as
/// they are given.
pub open spec fn descriptor_text(program: Seq<char>, env_file: Seq<char>) -> Seq<char> {
    DESCRIPTOR_HEAD@ + program + DESCRIPTOR_MIDDLE@ + env_file + DESCRIPTOR_TAIL@
}

/// How the service manager is run with `verb` on the installed descriptor.
pub open spec fn manager_invocation(verb: Seq<char>) -> InvocationView {
    InvocationView {
        program: SERVICE_MANAGER@,
        args: seq![verb, SERVICE_DOMAIN@, LAUNCHD_PLIST_PATH@],
    }
}

/// The descriptor of the service for the program at `program` and the
/// environment file at `env_file`.
pub fn service_descriptor(program: &str, env_file: &str) -> (text: String)
    ensures
        text@ == descriptor_text(program@, env_file@),
{
    DESCRIPTOR_HEAD.to_owned().concat(program).concat(DESCRIPTOR_MIDDLE).concat(env_file).concat(
        DESCRIPTOR_TAIL,
    )
}

fn manager(verb: &str) -> (inv: Invocation)
    ensures
        inv@ == manager_invocation(verb@),
{
    let mut inv = Invocation::new(SERVICE_MANAGER);
    inv.arg(verb);
    inv.arg(SERVICE_DOMAIN);
    inv.arg(LAUNCHD_PLIST_PATH);
    assert(inv@.args =~= seq![verb@, SERVICE_DOMAIN@, LAUNCHD_PLIST_PATH@]);
    inv
}

/// The mathematical value of an [`Installation`].
pub ghost struct InstallationView {
    pub path: Seq<char>,
    pub descriptor: Seq<char>,
    pub load: InvocationView,
    pub notice: Seq<char>,
}

/// What adding the service takes, in this order: the descriptor is written
/// to `path`, the service manager is run as `load` says, whatever status it
/// ends with, and `notice` is shown.
#[derive(Debug, PartialEq, Eq)]
pub struct Installation {
    pub path: String,
    pub descriptor: String,
    pub load: Invocation,
    pub notice: String,
}

impl View for Installation {
    type V = InstallationView;

    open spec fn view(&self) -> InstallationView {
        InstallationView {
            path: self.path@,
            descriptor: self.descriptor@,
            load: self.load@,
            notice: self.notice@,
        }
    }
}

/// The mathematical value of a [`Removal`].
pub ghost struct RemovalView {
    pub unload: InvocationView,
    pub path: Seq<char>,
    pub notice: Seq<char>,
}

/// What removing the service takes, in this order: the service manager is
/// run as `unload` says, whatever status it ends with, the file at `path` is
/// removed, and `notice` is shown.
#[derive(Debug, PartialEq, Eq)]
pub struct Removal {
    pub unload: Invocation,
    pub path: String,
    pub notice: String,
}

impl View for Removal {
    type V = RemovalView;

    open spec fn view(&self) -> RemovalView {
        RemovalView { unload: self.unload@, path: self.path@, notice: self.notice@ }
    }
}

/// Plans the registration of the program at `program`, to be run with the
/// environment file at `env_file`.
pub fn add_launchd_service(program: &str, env_file: &str) -> (plan: Installation)
    ensures
        plan@ == (InstallationView {
            path: LAUNCHD_PLIST_PATH@,
            descriptor: descriptor_text(program@, env_file@),
            load: manager_invocation(VERB_LOAD@),
            notice: NOTICE_ADDED@,
        }),
{
    Installation {
        path: LAUNCHD_PLIST_PATH.to_owned(),
        descriptor: service_descriptor(program, env_file),
        load: manager(VERB_LOAD),
        notice: NOTICE_ADDED.to_owned(),
    }
}

/// Plans the removal of the service.
pub fn remove_launchd_service() -> (plan: Removal)
    ensures
        plan@ == (RemovalView {
            unload: manager_invocation(VERB_UNLOAD@),
            path: LAUNCHD_PLIST_PATH@,
            notice: NOTICE_REMOVED@,
        }),
{
    Removal {
        unload: manager(VERB_UNLOAD),
        path: LAUNCHD_PLIST_PATH.to_owned(),
        notice: NOTICE_REMOVED.to_owned(),
    }
}

} // verus!
