use zed_flutter::args::{
    collect_tool_args, launch_options_from_rest, parse_device_id, parse_profile_mode,
    FlutterLaunchOptions,
};
use zed_flutter::devices::parse_flutter_devices_machine;
use zed_flutter::launch::FlutterExtension;
use zed_flutter::platform::{
    infer_platform, infer_platform_from_target_platform, platform_for_device, DeviceInfo,
};

#[test]
fn parse_device_id_flags() {
    let v = vec!["run", "-d", "emu", "lib/main.dart"];
    let r: Vec<&str> = v.iter().copied().collect();
    assert_eq!(parse_device_id(&r[1..]), Some("emu".into()));

    let v2 = vec!["run", "--device-id=chrome"];
    let r2: Vec<&str> = v2.iter().copied().collect();
    assert_eq!(parse_device_id(&r2[1..]), Some("chrome".into()));
}

#[test]
fn parse_profile_flags() {
    let rest = vec!["--profile", "-t", "lib/main.dart"];
    let r: Vec<&str> = rest.iter().copied().collect();
    assert_eq!(parse_profile_mode(&r), Some("profile"));

    let release = vec!["--release"];
    assert_eq!(parse_profile_mode(&release), Some("release"));
}

#[test]
fn collect_flavor_and_dart_define() {
    let rest = vec![
        "--flavor",
        "dev",
        "--dart-define",
        "API_URL=https://dev.example",
        "-t",
        "lib/main_dev.dart",
    ];
    let r: Vec<&str> = rest.iter().copied().collect();
    let tool_args = collect_tool_args(&r);
    assert!(tool_args.contains(&"--flavor".to_string()));
    assert!(tool_args.contains(&"dev".to_string()));
    assert!(tool_args.contains(&"--dart-define".to_string()));
    assert!(tool_args.contains(&"API_URL=https://dev.example".to_string()));
}

#[test]
fn program_args_after_double_dash() {
    let rest = vec!["--debug", "lib/main.dart", "--", "--verbose"];
    let r: Vec<&str> = rest.iter().copied().collect();
    let opts = launch_options_from_rest(&r);
    assert_eq!(opts.profile.as_deref(), Some("debug"));
    assert_eq!(opts.program_args, vec!["--verbose".to_string()]);
}

#[test]
fn parse_devices_machine_json() {
    let json = br#"[
      {"name":"Linux","id":"linux","isSupported":true,"targetPlatform":"linux-x64"}
    ]"#;
    let d = parse_flutter_devices_machine(json);
    assert_eq!(d.len(), 1);
    assert_eq!(d[0].id, "linux");
    assert!(d[0].is_supported);
    assert_eq!(d[0].target_platform.as_deref(), Some("linux-x64"));
}

#[test]
fn infer_platform_from_target_platform_values() {
    assert_eq!(
        infer_platform_from_target_platform("linux-x64"),
        Some("desktop")
    );
    assert_eq!(
        infer_platform_from_target_platform("web-javascript"),
        Some("web")
    );
    assert_eq!(infer_platform_from_target_platform("android-arm64"), None);
}

#[test]
fn platform_for_device_uses_machine_metadata() {
    let devices = vec![DeviceInfo {
        id: "linux".into(),
        name: Some("Linux".into()),
        is_supported: true,
        target_platform: Some("linux-x64".into()),
        emulator: Some(false),
        sdk: None,
    }];
    assert_eq!(platform_for_device(Some("linux"), &devices), Some("desktop"));
}

#[test]
fn infer_platform_web() {
    assert_eq!(infer_platform(Some("chrome")), Some("web"));
    assert_eq!(infer_platform(Some("linux")), Some("desktop"));
}

#[test]
fn parse_attach_debug_uri() {
    let rest = vec!["--debug-uri", "ws://127.0.0.1:12345/ws"];
    let r: Vec<&str> = rest.iter().copied().collect();
    let opts = launch_options_from_rest(&r);
    assert_eq!(
        opts.vm_service_uri.as_deref(),
        Some("ws://127.0.0.1:12345/ws")
    );
}

#[test]
fn launch_config_includes_vmservice_info_file() {
    let launch = FlutterLaunchOptions::default();
    let cfg = FlutterExtension::dart_flutter_config(
        "test",
        false,
        "lib/main.dart",
        Some("$ZED_WORKTREE_ROOT".into()),
        "launch",
        None,
        None,
        &launch,
    )
    .unwrap();
    let v: serde_json::Value = serde_json::from_str(&cfg).unwrap();
    assert_eq!(
        v.get("vmServiceInfoFile").and_then(|x| x.as_str()),
        Some(".zed/flutter/vmservice.json")
    );
}

#[test]
fn parse_persisted_json_candidates_order() {
    let v: serde_json::Value = serde_json::from_str(
        r#"{
            "default_device_id": "android",
            "fallback_device_ids": {
                "linux": ["linux", "chrome"],
                "all": ["edge"]
            }
        }"#,
    )
    .unwrap();
    let txt = serde_json::to_string(&v).unwrap();
    let parsed: serde_json::Value = serde_json::from_str(&txt).unwrap();
    let mut out = Vec::new();
    if let Some(default_id) = parsed.get("default_device_id").and_then(|x| x.as_str()) {
        out.push(default_id.to_string());
    }
    if let Some(fallbacks) = parsed.get("fallback_device_ids").and_then(|x| x.as_object()) {
        if let Some(list) = fallbacks.get("linux").and_then(|x| x.as_array()) {
            out.extend(list.iter().filter_map(|x| x.as_str()).map(str::to_string));
        }
    }
    assert_eq!(out, vec!["android", "linux", "chrome"]);
}
