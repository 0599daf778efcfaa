use zed_flutter::dap::{build_flutter_dap_configuration, resolve_vm_service_info_file};

fn json(text: &str) -> serde_json::Value {
    serde_json::from_str(text).unwrap()
}

#[test]
fn passes_tool_args_and_profile_mode() {
    let user = json(
        r#"{
            "type": "flutter",
            "profile": "release",
            "toolArgs": ["--flavor", "prod", "--dart-define", "X=1"],
            "device_id": "linux",
            "platform": "desktop"
        }"#,
    );
    let dap = build_flutter_dap_configuration(
        &user,
        "flutter",
        "launch",
        "lib/main.dart",
        "/project",
        &[],
    );
    assert_eq!(dap["flutterMode"], "release");
    assert_eq!(dap["toolArgs"][0], "--flavor");
    assert_eq!(dap["deviceId"], "linux");
    assert_eq!(dap["platform"], "desktop");
}

#[test]
fn omits_device_when_not_in_user_config() {
    let user = json(r#"{ "type": "flutter" }"#);
    let dap = build_flutter_dap_configuration(
        &user,
        "flutter",
        "launch",
        "lib/main.dart",
        "/project",
        &[],
    );
    assert!(dap.get("deviceId").is_none());
    assert!(dap.get("platform").is_none());
    assert!(dap.get("flutterMode").is_none());
}

#[test]
fn attach_passes_vm_service_fields() {
    let user = json(
        r#"{
            "request": "attach",
            "vmServiceUri": "ws://127.0.0.1:1/ws",
            "vmServiceInfoFile": ".zed/flutter/vmservice.json"
        }"#,
    );
    let dap = build_flutter_dap_configuration(
        &user,
        "flutter",
        "attach",
        "lib/main.dart",
        "/project/apps/mobile",
        &[],
    );
    assert_eq!(dap["vmServiceUri"], "ws://127.0.0.1:1/ws");
    assert_eq!(
        dap["vmServiceInfoFile"],
        "/project/apps/mobile/.zed/flutter/vmservice.json"
    );
}

#[test]
fn resolve_relative_vmservice_path() {
    assert_eq!(
        resolve_vm_service_info_file("/root", ".zed/flutter/vmservice.json"),
        "/root/.zed/flutter/vmservice.json"
    );
}
