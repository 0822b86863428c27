use vpn_helper::disconnect::{disconnect, disconnect_outcome, Broadcast};
use vpn_helper::service::{add_launchd_service, remove_launchd_service, service_descriptor};

const PLIST_PATH: &str = "/Library/LaunchDaemons/com.moecm.vpn-helper.plist";

fn strings(items: &[&str]) -> Vec<String> {
    items.iter().map(|s| s.to_string()).collect()
}

#[test]
fn service_descriptor_embeds_both_paths() {
    let expected = "<?xml version=\"1.0\" encoding=\"UTF-8\"?>\n\
        <!DOCTYPE plist PUBLIC \"-//Apple//DTD PLIST 1.0//EN\" \"http://www.apple.com/DTDs/PropertyList-1.0.dtd\">\n\
        <plist version=\"1.0\">\n\
        <dict>\n\
        \t<key>KeepAlive</key>\n\
        \t<true/>\n\
        \t<key>Label</key>\n\
        \t<string>com.moecm.vpn-helper</string>\n\
        \t<key>LimitLoadToSessionType</key>\n\
        \t<array>\n\
        \t\t<string>Aqua</string>\n\
        \t\t<string>Background</string>\n\
        \t\t<string>LoginWindow</string>\n\
        \t\t<string>StandardIO</string>\n\
        \t\t<string>System</string>\n\
        \t</array>\n\
        \t<key>ProgramArguments</key>\n\
        \t<array>\n\
        \t\t<string>/usr/local/bin/vpn-helper</string>\n\
        \t\t<string>connect</string>\n\
        \t\t<string>--mode</string>\n\
        \t\t<string>watch</string>\n\
        \t\t<string>--env</string>\n\
        \t\t<string>/etc/vpn/.env</string>\n\
        \t</array>\n\
        \t<key>RunAtLoad</key>\n\
        \t<true/>\n\
        \t<key>EnvironmentVariables</key>\n\
        \t<dict>\n\
        \t\t<key>PATH</key>\n\
        \t\t<string>/opt/homebrew/bin:/opt/homebrew/sbin:/usr/local/bin:/usr/bin:/bin:/usr/sbin:/sbin</string>\n\
        \t</dict>\n\
        </dict>\n\
        </plist>";
    assert_eq!(service_descriptor("/usr/local/bin/vpn-helper", "/etc/vpn/.env"), expected);
}

#[test]
fn service_descriptor_runs_connect_in_watch_mode() {
    let text = service_descriptor("/opt/vpn-helper", "/root/.env");
    let arguments = "\t\t<string>/opt/vpn-helper</string>\n\
        \t\t<string>connect</string>\n\
        \t\t<string>--mode</string>\n\
        \t\t<string>watch</string>\n\
        \t\t<string>--env</string>\n\
        \t\t<string>/root/.env</string>\n";
    assert!(text.contains(arguments));
}

#[test]
fn service_descriptor_sets_the_search_path() {
    let text = service_descriptor("a", "b");
    assert!(text.contains(
        "\t\t<key>PATH</key>\n\
        \t\t<string>/opt/homebrew/bin:/opt/homebrew/sbin:/usr/local/bin:/usr/bin:/bin:/usr/sbin:/sbin</string>\n"
    ));
    assert!(text.starts_with("<?xml version=\"1.0\" encoding=\"UTF-8\"?>\n"));
    assert!(text.ends_with("</dict>\n</plist>"));
}

#[test]
fn service_descriptor_takes_paths_as_given() {
    let text = service_descriptor("/Applications/VPN Helper/vpn-helper", "");
    assert!(text.contains("<string>/Applications/VPN Helper/vpn-helper</string>"));
    assert!(text.contains("<string>--env</string>\n\t\t<string></string>"));
}

#[test]
fn add_launchd_service_plans_write_then_bootstrap() {
    let plan = add_launchd_service("/usr/local/bin/vpn-helper", "/etc/vpn/.env");
    assert_eq!(plan.path, PLIST_PATH);
    assert_eq!(plan.descriptor, service_descriptor("/usr/local/bin/vpn-helper", "/etc/vpn/.env"));
    assert_eq!(plan.load.program, "launchctl");
    assert_eq!(plan.load.args, strings(&["bootstrap", "system", PLIST_PATH]));
    assert_eq!(plan.notice, "VPN Helper has been added to launchd.");
}

#[test]
fn remove_launchd_service_plans_bootout_then_removal() {
    let plan = remove_launchd_service();
    assert_eq!(plan.unload.program, "launchctl");
    assert_eq!(plan.unload.args, strings(&["bootout", "system", PLIST_PATH]));
    assert_eq!(plan.path, PLIST_PATH);
    assert_eq!(plan.notice, "VPN Helper has been removed from launchd.");
}

#[test]
fn disconnect_signals_the_client_by_name() {
    let inv = disconnect();
    assert_eq!(inv.program, "killall");
    assert_eq!(inv.args, strings(&["openconnect"]));
}

#[test]
fn disconnect_without_a_matching_process_is_no_error() {
    // The terminator ends with status 1 where no process bears the name.
    assert_eq!(disconnect_outcome(Broadcast::Ended { code: Some(1) }), Ok(()));
}

#[test]
fn disconnect_goes_well_however_the_terminator_ended() {
    assert_eq!(disconnect_outcome(Broadcast::Ended { code: Some(0) }), Ok(()));
    assert_eq!(disconnect_outcome(Broadcast::Ended { code: Some(-1) }), Ok(()));
    assert_eq!(disconnect_outcome(Broadcast::Ended { code: Some(255) }), Ok(()));
    assert_eq!(disconnect_outcome(Broadcast::Ended { code: None }), Ok(()));
}

#[test]
fn disconnect_goes_well_where_the_terminator_cannot_be_started() {
    let cause = "No such file or directory (os error 2)".to_string();
    assert_eq!(disconnect_outcome(Broadcast::NotStarted { cause }), Ok(()));
}
