use zed_flutter::args::{
    args_after_fvm_flutter, collect_tool_args, is_handled_run_flag, launch_options_from_rest,
    parse_flag_value, parse_profile_mode, parse_target_path, parse_vm_service_uri,
    program_for_run, program_for_test, split_at_double_dash,
};
use zed_flutter::dap::{
    build_flutter_dap_configuration, flutter_mode, optional_str, plan_dap_binary,
    plan_dap_binary_for_config,
    resolve_vm_service_info_file, string_array,
};
use zed_flutter::devices::{
    device_store_json, devices_from_json, store_candidates_of, finish_device_resolution, parse_flutter_devices_machine,
    persisted_device_candidates, resolve_device_for_debug, shell_output_text, DeviceProbe,
};
use zed_flutter::launch::{
    flutter_invocation, flutter_scenario_config, fvm_config_value_names_sdk_version, flutter_sdk_workspace_configuration,
    fvm_config_names_sdk_version, is_dart_language_server, locate_flutter_task, TaskTemplate,
};
use zed_flutter::platform::{
    infer_platform, infer_platform_from_target_platform, json_platform_key, platform_for_device,
    DeviceInfo, HostOs,
};
use zed_flutter::quote::{ps_single_quote_escape, shell_single_quote};
use zed_flutter::text::{
    before_ch, contains_str, replace_str, starts_with, str_eq, strip_prefix, to_ascii_lowercase,
    trim_end_ch, trim_str,
};

fn json(text: &str) -> serde_json::Value {
    serde_json::from_str(text).unwrap()
}

fn strings(v: &[&str]) -> Vec<String> {
    v.iter().map(|s| s.to_string()).collect()
}

fn task(command: &str, args: &[&str], cwd: Option<&str>) -> TaskTemplate {
    TaskTemplate {
        command: command.to_string(),
        args: strings(args),
        cwd: cwd.map(str::to_string),
    }
}

fn device(id: &str, supported: bool, tp: Option<&str>) -> DeviceInfo {
    DeviceInfo {
        id: id.to_string(),
        name: None,
        is_supported: supported,
        target_platform: tp.map(str::to_string),
        emulator: None,
        sdk: None,
    }
}

const MACHINE: &[u8] = br#"[
  {"name":"Pixel","id":"emulator-5554","isSupported":false,"targetPlatform":"android-arm64","emulator":true},
  {"name":"Linux","id":"linux","targetPlatform":"linux-x64","sdk":"Ubuntu"},
  {"name":"no id here"},
  {"name":"Chrome","id":"chrome","isSupported":true,"targetPlatform":"web-javascript"}
]"#;

#[test]
fn text_helpers_follow_std() {
    assert!(str_eq("flutter", "flutter"));
    assert!(!str_eq("flutter", "flutte"));
    assert!(starts_with("--device-id=x", "--device-id="));
    assert!(!starts_with("-d", "--device-id"));
    assert_eq!(strip_prefix("--target=lib/a.dart", "--target="), Some("lib/a.dart"));
    assert_eq!(strip_prefix("-t", "--target="), None);
    assert!(contains_str("web-javascript", "web"));
    assert!(!contains_str("we", "web"));
    assert_eq!(to_ascii_lowercase("Darwin-ARM64 É"), "darwin-arm64 É");
    assert_eq!(trim_str("\t  a b \u{3000}\n"), "a b");
    assert_eq!(trim_str("   "), "");
    assert_eq!(trim_end_ch("/root///", '/'), "/root");
    assert_eq!(before_ch("test/a_test.dart?line=3", '?'), "test/a_test.dart");
    assert_eq!(before_ch("no-query", '?'), "no-query");
    assert_eq!(
        replace_str("$ZED_WORKTREE_ROOT/apps/$ZED_WORKTREE_ROOT", "$ZED_WORKTREE_ROOT", "/w"),
        "/w/apps//w"
    );
}

#[test]
fn shell_quoting_escapes_single_quotes() {
    assert_eq!(shell_single_quote("/home/me/app"), "'/home/me/app'");
    assert_eq!(shell_single_quote("it's"), "'it'\\''s'");
    assert_eq!(shell_single_quote(""), "''");
    assert_eq!(ps_single_quote_escape("C:\\it's"), "C:\\it''s");
    assert_eq!(ps_single_quote_escape("plain"), "plain");
}

#[test]
fn flag_values_in_every_spelling() {
    let rest = ["run", "-t", "lib/a.dart", "--target=lib/b.dart"];
    assert_eq!(parse_target_path(&rest), Some("lib/a.dart".to_string()));
    let rest = ["--target=lib/b.dart", "-t", "lib/a.dart"];
    assert_eq!(parse_target_path(&rest), Some("lib/b.dart".to_string()));
    let rest = ["run", "-t"];
    assert_eq!(parse_target_path(&rest), None);
    assert_eq!(parse_flag_value(&["--x=", "y"], "-x", "--x"), Some(String::new()));
    assert_eq!(
        parse_vm_service_uri(&["--host-vmservice-port=8181"]),
        Some("http://127.0.0.1:8181/".to_string())
    );
    assert_eq!(
        parse_vm_service_uri(&["--host-vmservice-port", "9000"]),
        Some("http://127.0.0.1:9000/".to_string())
    );
    assert_eq!(parse_vm_service_uri(&["--profile"]), None);
    assert_eq!(parse_profile_mode(&["--debug", "--release"]), Some("debug"));
    assert_eq!(parse_profile_mode(&["lib/main.dart"]), None);
    assert!(is_handled_run_flag("--device-id=chrome"));
    assert!(!is_handled_run_flag("--flavor"));
}

#[test]
fn tool_args_keep_flutter_flags_only() {
    let rest = [
        "-d",
        "linux",
        "--flavor=prod",
        "--web-port",
        "8080",
        "--release",
        "lib/main.dart",
        "--verbose",
        "--target=lib/x.dart",
        "--",
        "--dart-define",
        "A=1",
    ];
    assert_eq!(
        collect_tool_args(&rest),
        strings(&["--flavor=prod", "--web-port", "8080", "--verbose"])
    );
    assert_eq!(collect_tool_args(&["--flavor"]), strings(&["--flavor"]));
    assert_eq!(collect_tool_args(&["-d"]), Vec::<String>::new());
    assert_eq!(
        collect_tool_args(&["--flavor", "--"]),
        strings(&["--flavor", "--"])
    );
}

#[test]
fn double_dash_splits_tool_and_program_arguments() {
    let rest = ["a", "--", "b", "--", "c"];
    let (before, after) = split_at_double_dash(&rest);
    assert_eq!(before, &["a"]);
    assert_eq!(after, &["b", "--", "c"]);
    let rest = ["a", "b"];
    let (before, after) = split_at_double_dash(&rest);
    assert_eq!(before, &["a", "b"]);
    assert!(after.is_empty());
    let opts = launch_options_from_rest(&["--profile", "--flavor", "dev", "--", "--profile"]);
    assert_eq!(opts.profile.as_deref(), Some("profile"));
    assert_eq!(opts.tool_args, strings(&["--flavor", "dev"]));
    assert_eq!(opts.program_args, strings(&["--profile"]));
    assert_eq!(opts.vm_service_uri, None);
}

#[test]
fn programs_of_run_and_test_tasks() {
    assert_eq!(program_for_run(&["--release", "lib/app.dart"]), "lib/app.dart");
    assert_eq!(program_for_run(&["--", "lib/app.dart"]), "lib/main.dart");
    assert_eq!(program_for_run(&["-t", "lib/t.dart", "lib/app.dart"]), "lib/t.dart");
    assert_eq!(
        program_for_test(&["--plain-name", "test/a_test.dart?line=4"]),
        Some("test/a_test.dart".to_string())
    );
    assert_eq!(program_for_test(&["--coverage"]), None);
}

#[test]
fn flutter_invocations() {
    assert_eq!(args_after_fvm_flutter(&strings(&["flutter", "run"])), Some(&strings(&["run"])[..]));
    assert_eq!(args_after_fvm_flutter(&strings(&["dart", "run"])), None);
    let t = task("fvm", &["flutter", "test"], None);
    let (fvm, rest) = flutter_invocation(&t).unwrap();
    assert!(fvm);
    assert_eq!(rest, &strings(&["test"])[..]);
    assert!(flutter_invocation(&task("cargo", &["run"], None)).is_none());
    let t = task("flutter", &["run"], None);
    assert_eq!(flutter_invocation(&t).map(|(f, r)| (f, r.len())), Some((false, 1)));
}

#[test]
fn platforms_from_devices() {
    assert_eq!(infer_platform(Some("wasm_debug")), Some("web"));
    assert_eq!(infer_platform(Some("emulator-5554")), None);
    assert_eq!(infer_platform(None), None);
    assert_eq!(infer_platform_from_target_platform("Darwin"), Some("desktop"));
    assert_eq!(infer_platform_from_target_platform("WEB-javascript"), Some("web"));
    let devices = vec![device("pixel", true, Some("android-arm64")), device("macos", true, None)];
    assert_eq!(platform_for_device(Some("pixel"), &devices), None);
    assert_eq!(platform_for_device(Some("macos"), &devices), Some("desktop"));
    assert_eq!(platform_for_device(Some("edge"), &devices), Some("web"));
    assert_eq!(platform_for_device(None, &devices), None);
    assert_eq!(json_platform_key(HostOs::Mac), "mac");
    assert_eq!(json_platform_key(HostOs::Windows), "windows");
}

#[test]
fn machine_output_is_read_row_by_row() {
    let devices = parse_flutter_devices_machine(MACHINE);
    let ids: Vec<&str> = devices.iter().map(|d| d.id.as_str()).collect();
    assert_eq!(ids, vec!["emulator-5554", "linux", "chrome"]);
    assert!(!devices[0].is_supported);
    assert_eq!(devices[0].emulator, Some(true));
    assert!(devices[1].is_supported);
    assert_eq!(devices[1].sdk.as_deref(), Some("Ubuntu"));
    assert_eq!(devices[1].name.as_deref(), Some("Linux"));
    assert!(parse_flutter_devices_machine(b"flutter: command not found").is_empty());
    assert!(parse_flutter_devices_machine(br#"{"id":"linux"}"#).is_empty());
}

#[test]
fn command_output_text() {
    assert_eq!(shell_output_text(b"  emulator-5554 \n"), Some("emulator-5554".to_string()));
    assert_eq!(shell_output_text(b" \n\t"), None);
    assert_eq!(shell_output_text(b"a\xffb"), Some("a\u{fffd}b".to_string()));
}

#[test]
fn persisted_candidates_in_order() {
    let store = r#"{"default_device_id":"android","fallback_device_ids":{"linux":["linux","",7,"chrome"],"mac":["macos"],"all":["edge"]}}"#;
    assert_eq!(
        persisted_device_candidates(Some(store), Some("legacy"), HostOs::Linux),
        strings(&["android", "linux", "chrome", "edge", "legacy"])
    );
    assert_eq!(
        persisted_device_candidates(Some(store), None, HostOs::Mac),
        strings(&["android", "macos", "edge"])
    );
    assert_eq!(
        persisted_device_candidates(Some("not json"), Some("legacy"), HostOs::Linux),
        strings(&["legacy"])
    );
    assert_eq!(
        persisted_device_candidates(Some(r#"{"default_device_id":""}"#), None, HostOs::Windows),
        Vec::<String>::new()
    );
}

#[test]
fn device_resolution_steps() {
    match resolve_device_for_debug(Some("chrome".into()), Some("/p"), false) {
        DeviceProbe::Resolved(r) => {
            assert_eq!(r.id.as_deref(), Some("chrome"));
            assert!(r.devices.is_empty());
        }
        DeviceProbe::Probe { .. } => panic!("a device on the task stands"),
    }
    match resolve_device_for_debug(None, None, false) {
        DeviceProbe::Resolved(r) => assert_eq!(r.id, None),
        DeviceProbe::Probe { .. } => panic!("no directory, nothing to probe"),
    }
    match resolve_device_for_debug(None, Some("/p"), true) {
        DeviceProbe::Probe { cwd, use_fvm } => {
            assert_eq!(cwd, "/p");
            assert!(use_fvm);
        }
        DeviceProbe::Resolved(_) => panic!("the directory must be probed"),
    }
}

#[test]
fn persisted_device_is_preferred_while_listed() {
    let choice = finish_device_resolution(strings(&["gone", "chrome", "linux"]), None, Some(MACHINE));
    assert_eq!(choice.resolved.id.as_deref(), Some("chrome"));
    assert_eq!(choice.resolved.devices.len(), 3);
    let store: serde_json::Value = serde_json::from_str(choice.store.as_deref().unwrap()).unwrap();
    assert_eq!(store["default_device_id"], "chrome");
    assert_eq!(store["last_seen"]["linux"]["target_platform"], "linux-x64");
    assert_eq!(store["last_seen"]["emulator-5554"]["is_supported"], false);
    assert!(store["last_seen"]["chrome"]["sdk"].is_null());
}

#[test]
fn first_supported_device_without_persisted_choice() {
    let choice = finish_device_resolution(strings(&["gone"]), None, Some(MACHINE));
    assert_eq!(choice.resolved.id.as_deref(), Some("linux"));
    let only_unsupported = br#"[{"id":"a","isSupported":false},{"id":"b","isSupported":false}]"#;
    let choice = finish_device_resolution(Vec::new(), None, Some(only_unsupported));
    assert_eq!(choice.resolved.id.as_deref(), Some("a"));
    assert!(choice.store.is_some());
}

#[test]
fn no_listed_devices_keep_the_persisted_choice() {
    let choice = finish_device_resolution(strings(&["emu", "linux"]), None, None);
    assert_eq!(choice.resolved.id.as_deref(), Some("emu"));
    assert!(choice.resolved.devices.is_empty());
    assert!(choice.store.is_none());
    let choice = finish_device_resolution(strings(&["emu"]), None, Some(b"[]"));
    assert_eq!(choice.resolved.id.as_deref(), Some("emu"));
    assert!(choice.store.is_none());
    let choice = finish_device_resolution(Vec::new(), None, Some(b"error"));
    assert_eq!(choice.resolved.id, None);
}

#[test]
fn stored_choice_is_chosen_again_later() {
    let first = finish_device_resolution(strings(&["gone"]), None, Some(MACHINE));
    let text = first.store.unwrap();
    let candidates = persisted_device_candidates(Some(&text), Some("emulator-5554"), HostOs::Linux);
    assert_eq!(candidates[0], "linux");
    let second = finish_device_resolution(candidates, Some(&text), Some(MACHINE));
    assert_eq!(second.resolved.id.as_deref(), Some("linux"));
}

#[test]
fn device_store_text() {
    let devices = vec![device("linux", true, Some("linux-x64")), device("linux", false, None)];
    let text = device_store_json(None, "linux", &devices).unwrap();
    let v: serde_json::Value = serde_json::from_str(&text).unwrap();
    assert_eq!(v["default_device_id"], "linux");
    assert_eq!(v["last_seen"]["linux"]["is_supported"], false);
    assert!(v["last_seen"]["linux"]["target_platform"].is_null());
    assert!(text.contains('\n'));
}

#[test]
fn scenario_for_run_task_carries_device_and_target() {
    let t = task(
        "fvm",
        &["flutter", "run", "-d", "linux", "-t", "lib/main_dev.dart", "--flavor", "dev", "--profile", "--", "--seed=1"],
        Some("$ZED_WORKTREE_ROOT"),
    );
    let located = locate_flutter_task(&t, "Dart").unwrap();
    assert!(located.use_fvm);
    assert_eq!(located.subcommand, "run");
    assert_eq!(located.device_from_args.as_deref(), Some("linux"));
    let resolved = match resolve_device_for_debug(located.device_from_args.clone(), located.cwd.as_deref(), located.use_fvm) {
        DeviceProbe::Resolved(r) => r,
        DeviceProbe::Probe { .. } => panic!("device given on the task"),
    };
    let cfg = json(&flutter_scenario_config(&located, "Flutter: run", &resolved).unwrap());
    assert_eq!(cfg["adapter"], "Dart");
    assert_eq!(cfg["type"], "flutter");
    assert_eq!(cfg["request"], "launch");
    assert_eq!(cfg["label"], "Flutter: run");
    assert_eq!(cfg["program"], "lib/main_dev.dart");
    assert_eq!(cfg["device_id"], "linux");
    assert_eq!(cfg["platform"], "desktop");
    assert_eq!(cfg["useFvm"], true);
    assert_eq!(cfg["profile"], "profile");
    assert_eq!(cfg["flutterMode"], "profile");
    assert_eq!(cfg["cwd"], "$ZED_WORKTREE_ROOT");
    assert_eq!(cfg["toolArgs"], json(r#"["--flavor","dev"]"#));
    assert_eq!(cfg["args"], json(r#"["--seed=1"]"#));
    assert_eq!(cfg["vmServiceInfoFile"], ".zed/flutter/vmservice.json");
}

#[test]
fn scenarios_for_test_and_attach_tasks() {
    let resolved = match resolve_device_for_debug(None, None, false) {
        DeviceProbe::Resolved(r) => r,
        DeviceProbe::Probe { .. } => panic!("no directory"),
    };
    let located = locate_flutter_task(&task("flutter", &["test", "test/w_test.dart?name=x"], None), "Dart").unwrap();
    let cfg = json(&flutter_scenario_config(&located, "t", &resolved).unwrap());
    assert_eq!(cfg["program"], "test/w_test.dart");
    assert!(cfg.get("device_id").is_none());
    assert!(cfg.get("toolArgs").is_none());
    let located = locate_flutter_task(&task("flutter", &["test", "--coverage"], None), "Dart").unwrap();
    assert!(flutter_scenario_config(&located, "t", &resolved).is_none());
    let located = locate_flutter_task(&task("flutter", &["attach", "--debug-uri", "ws://h/ws"], None), "Dart").unwrap();
    let cfg = json(&flutter_scenario_config(&located, "a", &resolved).unwrap());
    assert_eq!(cfg["request"], "attach");
    assert_eq!(cfg["program"], "lib/main.dart");
    assert_eq!(cfg["vmServiceUri"], "ws://h/ws");
    assert!(cfg.get("vmServiceInfoFile").is_none());
    let located = locate_flutter_task(&task("flutter", &["build", "apk"], None), "Dart").unwrap();
    assert!(flutter_scenario_config(&located, "b", &resolved).is_none());
}

#[test]
fn locator_ignores_other_tasks() {
    assert!(locate_flutter_task(&task("flutter", &["run"], None), "CodeLLDB").is_none());
    assert!(locate_flutter_task(&task("flutter", &[], None), "Dart").is_none());
    assert!(locate_flutter_task(&task("fvm", &["dart", "run"], None), "Dart").is_none());
    assert!(locate_flutter_task(&task("npm", &["run"], None), "Dart").is_none());
}

#[test]
fn dap_configuration_fields() {
    let user = json(
        r#"{
            "deviceId": "macos",
            "device_id": "   ",
            "flutterMode": " ",
            "profile": "profile",
            "toolArgs": ["--flavor", 3, "x"],
            "sendLogsToClient": true,
            "debugSdkLibraries": null,
            "noDebug": "yes",
            "customTool": "fvm",
            "customToolReplacesArgs": 2,
            "vmServiceInfoFile": "/abs/vm.json"
        }"#,
    );
    let args = strings(&["--seed=1"]);
    let dap = build_flutter_dap_configuration(&user, "flutter.bat", "launch", "lib/m.dart", "/p/", &args);
    assert_eq!(dap["type"], "flutter.bat");
    assert_eq!(dap["program"], "lib/m.dart");
    assert_eq!(dap["cwd"], "/p/");
    assert_eq!(dap["args"], json(r#"["--seed=1"]"#));
    assert_eq!(dap["stopOnEntry"], false);
    assert_eq!(dap["deviceId"], "macos");
    assert_eq!(dap["flutterMode"], "profile");
    assert_eq!(dap["toolArgs"], json(r#"["--flavor","x"]"#));
    assert_eq!(dap["sendLogsToClient"], true);
    assert!(dap["debugSdkLibraries"].is_null());
    assert!(dap.as_object().unwrap().contains_key("debugSdkLibraries"));
    assert!(dap.get("noDebug").is_none());
    assert_eq!(dap["customTool"], "fvm");
    assert_eq!(dap["customToolReplacesArgs"], 2);
    assert_eq!(dap["vmServiceInfoFile"], "/abs/vm.json");
    let negative = json(r#"{"customToolReplacesArgs": -1}"#);
    let dap = build_flutter_dap_configuration(&negative, "dart", "launch", "p", "/", &[]);
    assert!(dap.get("customToolReplacesArgs").is_none());
}

#[test]
fn dap_configuration_helpers() {
    let user = json(r#"{"a":" x ","b":"  ","c":["p",true,"q"],"profile":"release"}"#);
    assert_eq!(optional_str(&user, "a"), Some(" x "));
    assert_eq!(optional_str(&user, "b"), None);
    assert_eq!(optional_str(&user, "z"), None);
    assert_eq!(string_array(&user, "c"), Some(strings(&["p", "q"])));
    assert_eq!(string_array(&user, "a"), None);
    assert_eq!(flutter_mode(&user), Some("release".to_string()));
    assert_eq!(resolve_vm_service_info_file("/root///", "vm.json"), "/root/vm.json");
    assert_eq!(resolve_vm_service_info_file("/root", "  $HOME/vm.json "), "$HOME/vm.json");
    assert_eq!(resolve_vm_service_info_file("/root", "/tmp/vm.json"), "/tmp/vm.json");
}

#[test]
fn dap_binary_for_debug_tasks() {
    let plan = plan_dap_binary(
        r#"{"type":"flutter","useFvm":true,"cwd":"$ZED_WORKTREE_ROOT/apps/m","request":"attach","args":["-v"]}"#,
        HostOs::Windows,
        "C:/w",
    )
    .unwrap();
    assert_eq!(plan.command, "fvm");
    assert_eq!(plan.arguments, strings(&["flutter.bat", "debug_adapter"]));
    assert_eq!(plan.cwd, "C:/w/apps/m");
    assert!(plan.attach);
    let cfg = json(&plan.configuration);
    assert_eq!(cfg["type"], "flutter.bat");
    assert_eq!(cfg["request"], "attach");
    assert_eq!(cfg["program"], "lib/main.dart");
    assert_eq!(cfg["cwd"], "C:/w/apps/m");
    assert_eq!(cfg["args"], json(r#"["-v"]"#));

    let plan = plan_dap_binary(r#"{"type":"dart","program":"bin/x.dart"}"#, HostOs::Linux, "/w").unwrap();
    assert_eq!(plan.command, "dart");
    assert_eq!(plan.arguments, strings(&["debug_adapter"]));
    assert_eq!(plan.cwd, "/w");
    assert!(!plan.attach);
    assert_eq!(json(&plan.configuration)["program"], "bin/x.dart");
}

#[test]
fn dap_binary_errors() {
    let err = plan_dap_binary("{not json", HostOs::Linux, "/w").err().unwrap();
    assert!(err.starts_with("Failed to parse debug config: "));
    assert!(err.len() > "Failed to parse debug config: ".len());
    assert_eq!(
        plan_dap_binary(r#"{"program":"lib/main.dart"}"#, HostOs::Linux, "/w").err(),
        Some("type is required and cannot be empty or null".to_string())
    );
    assert_eq!(
        plan_dap_binary(r#"{"type":"  "}"#, HostOs::Mac, "/w").err(),
        Some("type is required and cannot be empty or null".to_string())
    );
}

#[test]
fn fvm_workspace_configuration() {
    assert!(is_dart_language_server("dart"));
    assert!(!is_dart_language_server("rust-analyzer"));
    assert!(fvm_config_names_sdk_version(r#"{"flutterSdkVersion":"3.22.0"}"#));
    assert!(!fvm_config_names_sdk_version(r#"{"flutterSdkVersion":3}"#));
    assert!(!fvm_config_names_sdk_version("garbage"));
    let v = flutter_sdk_workspace_configuration("/sdk/flutter".to_string());
    assert_eq!(v, json(r#"{"dart":{"flutterSdkPath":"/sdk/flutter"}}"#));
}

#[test]
fn scenario_config_fields_survive_the_adapter() {
    let launch = launch_options_from_rest(&["--profile", "--flavor", "dev", "--debug-uri", "ws://h/ws", "--", "-v"]);
    let text = zed_flutter::launch::FlutterExtension::dart_flutter_config(
        "run", false, "lib/main.dart", None, "launch", Some("linux"), Some("desktop"), &launch,
    )
    .unwrap();
    let c = json(&text);
    let r = build_flutter_dap_configuration(&c, "flutter", "launch", "lib/main.dart", "/p", &launch.program_args);
    assert_eq!(r["deviceId"], "linux");
    assert_eq!(r["platform"], "desktop");
    assert_eq!(r["flutterMode"], "profile");
    assert_eq!(r["vmServiceUri"], "ws://h/ws");
    assert_eq!(r["toolArgs"], json(r#"["--flavor","dev","--debug-uri"]"#));
    assert_eq!(r["vmServiceInfoFile"], "/p/.zed/flutter/vmservice.json");
    let attach = zed_flutter::launch::FlutterExtension::dart_flutter_config(
        "a", false, "lib/main.dart", None, "attach", None, None, &zed_flutter::args::FlutterLaunchOptions::default(),
    )
    .unwrap();
    let r = build_flutter_dap_configuration(&json(&attach), "flutter", "attach", "lib/main.dart", "/p", &[]);
    assert!(r.get("vmServiceInfoFile").is_none());
    assert!(r.get("deviceId").is_none());
    assert!(r.get("toolArgs").is_none());
}

#[test]
fn resolving_info_file_twice_changes_nothing() {
    for path in [" .zed/vm.json ", "$ROOT/vm.json", "/abs/vm.json", ""] {
        let once = resolve_vm_service_info_file("/work//", path);
        assert_eq!(resolve_vm_service_info_file("/work//", &once), once);
    }
    assert_eq!(resolve_vm_service_info_file("/work//", " .zed/vm.json "), "/work/.zed/vm.json");
}

#[test]
fn program_args_split_off_at_double_dash() {
    let a = ["--release", "--flavor", "prod", "lib/main.dart"];
    let whole = ["--release", "--flavor", "prod", "lib/main.dart", "--", "--", "--profile"];
    let x = launch_options_from_rest(&whole);
    let y = launch_options_from_rest(&a);
    assert_eq!(x.program_args, strings(&["--", "--profile"]));
    assert!(y.program_args.is_empty());
    assert_eq!(x.profile, y.profile);
    assert_eq!(x.tool_args, y.tool_args);
    assert_eq!(x.vm_service_uri, y.vm_service_uri);
}

#[test]
fn device_store_keeps_fallbacks() {
    let prior = r#"{"default_device_id":"gone","fallback_device_ids":{"linux":["chrome"],"all":["edge"]},"note":7}"#;
    let choice = finish_device_resolution(strings(&["gone"]), Some(prior), Some(MACHINE));
    assert_eq!(choice.resolved.id.as_deref(), Some("linux"));
    let text = choice.store.unwrap();
    let v = json(&text);
    assert_eq!(v["default_device_id"], "linux");
    assert_eq!(v["fallback_device_ids"], json(r#"{"linux":["chrome"],"all":["edge"]}"#));
    assert_eq!(v["note"], 7);
    assert_eq!(v["last_seen"]["chrome"]["target_platform"], "web-javascript");
    assert_eq!(
        persisted_device_candidates(Some(&text), None, HostOs::Linux),
        strings(&["linux", "chrome", "edge"])
    );
    let fresh = json(&device_store_json(Some("[1, 2]"), "a", &[]).unwrap());
    assert_eq!(fresh, json(r#"{"default_device_id":"a","last_seen":{}}"#));
}

#[test]
fn parsed_values_reach_the_logic() {
    let rows = json(r#"[{"id":"web-server"},{"name":"x"},{"id":"macos","isSupported":false}]"#);
    let devices = devices_from_json(&rows);
    assert_eq!(devices.len(), 2);
    assert!(devices[0].is_supported);
    assert!(!devices[1].is_supported);
    assert!(devices_from_json(&json(r#"{"id":"a"}"#)).is_empty());
    let store = json(r#"{"default_device_id":"d","fallback_device_ids":{"windows":["w"],"all":["a",""]}}"#);
    assert_eq!(store_candidates_of(&store, HostOs::Windows), strings(&["d", "w", "a"]));
    assert_eq!(store_candidates_of(&json("[]"), HostOs::Windows), Vec::<String>::new());
    assert!(fvm_config_value_names_sdk_version(&json(r#"{"flutterSdkVersion":"stable"}"#)));
    assert!(!fvm_config_value_names_sdk_version(&json(r#"{"flutter":"stable"}"#)));
    let plan = plan_dap_binary_for_config(&json(r#"{"type":"flutter"}"#), HostOs::Mac, "/w").unwrap();
    assert_eq!(plan.command, "flutter");
    assert_eq!(
        plan_dap_binary_for_config(&json(r#"{"type":null}"#), HostOs::Mac, "/w").err(),
        Some("type is required and cannot be empty or null".to_string())
    );
}
