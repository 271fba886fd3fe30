use appwave::coords::{NormCoord, NormPoint};
use appwave::devices::{collect_simulators, DeviceEntry, RuntimeDevices};
use appwave::discovery::{first_existing, gesture_tool_candidates, lookup_result, mirror_tool_candidates, ToolSearch};
use appwave::error::ControlError;
use appwave::gestures::{not_found, swipe_args, tap_args, tool_launch_failed, tool_outcome};
use appwave::launch::{InstallAndLaunchRequest, InstallAndLaunchResponse, LaunchFlow, LaunchStage, LaunchStep, ToolReport};

fn dev(udid: &str, name: &str, state: &str) -> DeviceEntry {
    DeviceEntry { udid: udid.to_string(), name: name.to_string(), state: state.to_string() }
}

fn names(listing: Vec<RuntimeDevices>) -> Vec<(String, String)> {
    collect_simulators(&listing).into_iter().map(|s| (s.name, s.state)).collect()
}

#[test]
fn booted_devices_come_first() {
    let listing = vec![RuntimeDevices {
        runtime: "iOS-17".to_string(),
        devices: vec![dev("1", "B", "Shutdown"), dev("2", "A", "Booted")],
    }];
    assert_eq!(
        names(listing),
        vec![("A".to_string(), "Booted".to_string()), ("B".to_string(), "Shutdown".to_string())]
    );
}

#[test]
fn listing_filters_and_orders_by_name() {
    let listing = vec![
        RuntimeDevices {
            runtime: "iOS-17".to_string(),
            devices: vec![
                dev("1", "iPhone 15", "Shutdown"),
                dev("", "Ghost", "Booted"),
                dev("3", "iPad", "Unavailable"),
                dev("4", "iPhone 14", "Booted"),
            ],
        },
        RuntimeDevices {
            runtime: "iOS-18".to_string(),
            devices: vec![dev("5", "iPhone 15", "Shutdown"), dev("6", "Apple TV", "Shutdown"), dev("7", "iPhone 16", "Booted")],
        },
    ];
    let out = collect_simulators(&listing);
    let got: Vec<(&str, &str)> = out.iter().map(|s| (s.udid.as_str(), s.runtime.as_str())).collect();
    // booted by name, then the rest by name; equal names keep listing order
    assert_eq!(got, vec![("4", "iOS-17"), ("7", "iOS-18"), ("6", "iOS-18"), ("1", "iOS-17"), ("5", "iOS-18")]);
}

#[test]
fn empty_listing_gives_no_devices() {
    assert!(collect_simulators(&vec![]).is_empty());
}

#[test]
fn install_launch_with_given_bundle_id() {
    let (mut flow, step) = LaunchFlow::start(InstallAndLaunchRequest {
        udid: "U".to_string(),
        app_path: "/b/My.app".to_string(),
        bundle_id: Some("com.x.my".to_string()),
    });
    assert_run(&step, "xcrun", &["simctl", "boot", "U"]);
    // a failed boot (already booted) is tolerated
    let step = flow.advance(exited(false, "", "Unable to boot device in current state: Booted"));
    assert_run(&step, "xcrun", &["simctl", "install", "U", "/b/My.app"]);
    let step = flow.advance(exited(true, "", ""));
    assert_run(&step, "xcrun", &["simctl", "launch", "U", "com.x.my"]);
    match flow.advance(exited(true, "com.x.my: 123", "")) {
        LaunchStep::Done(Ok(m)) => assert_eq!(m, "App com.x.my launched successfully"),
        other => panic!("unexpected {:?}", other),
    }
    assert!(matches!(flow.stage, LaunchStage::Finished));
}

#[test]
fn install_launch_reads_bundle_id() {
    let (mut flow, _) = LaunchFlow::start(InstallAndLaunchRequest {
        udid: "U".to_string(),
        app_path: "/b/My.app".to_string(),
        bundle_id: None,
    });
    flow.advance(exited(true, "", ""));
    let step = flow.advance(exited(true, "", ""));
    assert_run(&step, "/usr/libexec/PlistBuddy", &["-c", "Print :CFBundleIdentifier", "/b/My.app/Info.plist"]);
    let step = flow.advance(exited(true, "com.x.my\n", ""));
    assert_run(&step, "xcrun", &["simctl", "launch", "U", "com.x.my"]);
}

#[test]
fn install_launch_failures() {
    let req = || InstallAndLaunchRequest { udid: "U".to_string(), app_path: "/a.app".to_string(), bundle_id: None };
    let (mut flow, _) = LaunchFlow::start(req());
    assert_failed(flow.advance(ToolReport::NotRun("no xcrun".to_string())), "Failed to boot simulator: no xcrun");
    let (mut flow, _) = LaunchFlow::start(req());
    flow.advance(exited(true, "", ""));
    assert_failed(flow.advance(exited(false, "", "bad app")), "Install failed: bad app");
    let (mut flow, _) = LaunchFlow::start(req());
    flow.advance(exited(true, "", ""));
    flow.advance(exited(true, "", ""));
    assert_failed(flow.advance(exited(false, "", "no plist")), "Failed to read bundle ID: no plist");
    let (mut flow, _) = LaunchFlow::start(req());
    flow.advance(exited(true, "", ""));
    flow.advance(exited(true, "", ""));
    flow.advance(exited(true, "id", ""));
    assert_failed(flow.advance(exited(false, "", "crashed")), "Launch failed: crashed");
    let r = InstallAndLaunchResponse::from_result(Err("Launch failed: crashed".to_string()));
    assert!(!r.success);
    assert_eq!(r.message, "Launch failed: crashed");
}

fn exited(success: bool, stdout: &str, stderr: &str) -> ToolReport {
    ToolReport::Exited { success, stdout: stdout.to_string(), stderr: stderr.to_string() }
}

fn assert_run(step: &LaunchStep, program: &str, args: &[&str]) {
    match step {
        LaunchStep::Run(t) => {
            assert_eq!(t.program, program);
            assert_eq!(t.args, args.iter().map(|a| a.to_string()).collect::<Vec<_>>());
        }
        other => panic!("unexpected {:?}", other),
    }
}

fn assert_failed(step: LaunchStep, text: &str) {
    match step {
        LaunchStep::Done(Err(m)) => assert_eq!(m, text),
        other => panic!("unexpected {:?}", other),
    }
}

#[test]
fn tap_in_device_points() {
    let at = NormPoint { x: NormCoord { micros: 500_000 }, y: NormCoord { micros: 250_000 } };
    // 1170 wide is scale 3: 390 x 844 points
    assert_eq!(tap_args("U", at, Some(1170), Some(2532)), vec!["tap", "-x", "195", "-y", "211", "--udid", "U"]);
    // defaults 393 x 852 at scale 1
    assert_eq!(tap_args("U", at, None, None), vec!["tap", "-x", "197", "-y", "213", "--udid", "U"]);
}

#[test]
fn swipe_in_device_points() {
    let a = NormPoint { x: NormCoord { micros: 100_000 }, y: NormCoord { micros: 900_000 } };
    let b = NormPoint { x: NormCoord { micros: 100_000 }, y: NormCoord { micros: 100_000 } };
    assert_eq!(
        swipe_args("U", a, b, Some(786), Some(1704), None),
        vec!["swipe", "--start-x", "39", "--start-y", "767", "--end-x", "39", "--end-y", "85", "--duration", "0.3", "--udid", "U"]
    );
    let args = swipe_args("U", a, b, None, None, Some(1500));
    assert_eq!(args[10], "1.5");
}

#[test]
fn gesture_tool_outcomes() {
    assert!(tool_outcome(true, Some(0), "").is_ok());
    let e = tool_outcome(false, Some(1), "device not found").unwrap_err();
    assert!(matches!(e, ControlError::ExternalToolFailure { exit_code: Some(1), .. }));
    assert_eq!(e.message(), "AXe command failed: device not found");
    assert_eq!(e.status_code(), 500);
    assert_eq!(tool_launch_failed("denied").message(), "Failed to execute AXe: denied");
    assert_eq!(not_found("AXe").message(), "AXe binary not found");
    assert_eq!(not_found("simulator-server").message(), "simulator-server binary not found");
}

#[test]
fn tool_search_order() {
    let s = ToolSearch {
        env_override: Some("/opt/axe".to_string()),
        project_root: Some("/src/proj".to_string()),
        crate_dir: "/src/proj/app".to_string(),
        bundle_root: Some("/Applications/X.app/Contents".to_string()),
    };
    assert_eq!(
        gesture_tool_candidates(&s),
        vec![
            "/opt/axe",
            "/src/proj/app/binaries/axe",
            "/src/proj/app/binaries/axe",
            "/Applications/X.app/Contents/Resources/binaries/axe"
        ]
    );
    let s = ToolSearch { env_override: None, project_root: Some("/p".to_string()), crate_dir: "/p/app".to_string(), bundle_root: None };
    assert_eq!(
        mirror_tool_candidates(&s),
        vec!["/p/swift/.build/debug/simulator-server", "/p/swift/.build/release/simulator-server"]
    );
    assert_eq!(first_existing(&vec![false, true, true]), Some(1));
    assert_eq!(first_existing(&vec![false, false]), None);
    assert_eq!(lookup_result(true, "/usr/local/bin/axe\n"), Some("/usr/local/bin/axe".to_string()));
    assert_eq!(lookup_result(true, "  \n"), None);
    assert_eq!(lookup_result(false, "/usr/local/bin/axe"), None);
}
