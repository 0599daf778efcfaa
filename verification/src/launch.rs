//! The debug locator: from a `flutter run` / `flutter test` / `flutter attach`
//! task (also through `fvm flutter`) to the configuration of a Dart adapter
//! debug scenario of type `flutter`.

use vstd::prelude::*;
use vstd::slice::slice_subrange;

use crate::args::{
    device_flag, launch_options, launch_options_from_rest, opt_str_view, opt_view,
    parse_device_id, parse_target_path, program_for_run, program_for_test, run_program,
    str_views, string_views, target_flag, test_program, FlutterLaunchOptions, LaunchOptionsView,
};
use crate::dap::{
    dap_configuration, dap_configuration_passes_fields_through, device_id_of, flutter_mode_of,
    opt_str_json, optional_str_of, put, str_array, string_array_of, strings_of,
};
use crate::devices::{str_field, ResolvedDevice, ResolvedView};
use crate::json::{
    json_bool, json_get, json_map_insert, json_map_new, json_map_view, json_object, json_parse,
    json_shallow, json_string, json_string_array, json_text, json_to_string, json_view,
    parsed_json, value_as_str, value_get, JsonView,
};
use crate::platform::{device_platform, platform_for_device};
use crate::text::{is_white, lemma_trim_unchanged, str_eq, trim};

verus! {

/// The name of the Dart extension's debug adapter.
pub open spec fn dart_adapter() -> Seq<char> {
    "Dart"@
}

/// Where the debug adapter writes the VM Service URI of a launched app.
pub open spec fn vm_service_info_path() -> Seq<char> {
    ".zed/flutter/vmservice.json"@
}

/// What the locator reads of a task: the command, its arguments, its directory.
pub struct TaskTemplate {
    pub command: String,
    pub args: Vec<String>,
    pub cwd: Option<String>,
}

/// The view of a [`TaskTemplate`].
pub struct TaskView {
    pub command: Seq<char>,
    pub args: Seq<Seq<char>>,
    pub cwd: Option<Seq<char>>,
}

impl View for TaskTemplate {
    type V = TaskView;

    open spec fn view(&self) -> TaskView {
        TaskView { command: self.command@, args: string_views(self.args@), cwd: opt_view(self.cwd) }
    }
}

/// The flutter invocation of a task: whether it goes through FVM, and the
/// arguments after `flutter`.
pub open spec fn invocation(task: TaskView) -> Option<(bool, Seq<Seq<char>>)> {
    if task.command == "flutter"@ {
        Some((false, task.args))
    } else if task.command == "fvm"@ {
        if task.args.len() > 0 && task.args[0] == "flutter"@ {
            Some((true, task.args.skip(1)))
        } else {
            None
        }
    } else {
        None
    }
}

/// The flutter invocation of a task: `flutter ...` directly, or `fvm flutter ...`.
pub fn flutter_invocation(task: &TaskTemplate) -> (r: Option<(bool, &[String])>)
    ensures
        match r {
            Some((fvm, args)) => invocation(task@) == Some((fvm, string_views(args@))),
            None => invocation(task@) is None,
        },
{
    if str_eq(task.command.as_str(), "flutter") {
        return Some((false, task.args.as_slice()));
    }
    if str_eq(task.command.as_str(), "fvm") {
        match crate::args::args_after_fvm_flutter(task.args.as_slice()) {
            Some(tail) => {
                assert(string_views(tail@) =~= string_views(task.args@).skip(1));
                return Some((true, tail));
            },
            None => return None,
        }
    }
    None
}

/// The editor-independent part of the Flutter extension.
pub struct FlutterExtension;

/// The configuration of a Dart adapter scenario of type `flutter`.
pub open spec fn flutter_config(
    label: Seq<char>,
    use_fvm: bool,
    program: Seq<char>,
    cwd: Option<Seq<char>>,
    request: Seq<char>,
    device_id: Option<Seq<char>>,
    platform: Option<Seq<char>>,
    launch: LaunchOptionsView,
) -> JsonView {
    let m = Map::<Seq<char>, JsonView>::empty().insert("adapter"@, JsonView::Str(dart_adapter())).insert(
        "type"@,
        JsonView::Str("flutter"@),
    ).insert("request"@, JsonView::Str(request)).insert("label"@, JsonView::Str(label)).insert(
        "program"@,
        JsonView::Str(program),
    ).insert("useFvm"@, JsonView::Bool(use_fvm)).insert("args"@, str_array(launch.program_args));
    let m = put(m, "cwd"@, opt_str_json(cwd));
    let m = put(m, "device_id"@, opt_str_json(device_id));
    let m = put(m, "platform"@, opt_str_json(platform));
    let m = match launch.profile {
        Some(p) => m.insert("profile"@, JsonView::Str(p)).insert("flutterMode"@, JsonView::Str(p)),
        None => m,
    };
    let m = put(m, "vmServiceUri"@, opt_str_json(launch.vm_service_uri));
    let m = if launch.tool_args.len() > 0 {
        m.insert("toolArgs"@, str_array(launch.tool_args))
    } else {
        m
    };
    let m = if request == "launch"@ {
        m.insert("vmServiceInfoFile"@, JsonView::Str(vm_service_info_path()))
    } else {
        m
    };
    JsonView::Object(m)
}

proof fn lemma_str_array_leaf(ss: Seq<Seq<char>>)
    ensures
        crate::json::json_leaf(str_array(ss)),
{
    if let JsonView::Array(items) = str_array(ss) {
        assert forall|i: int| 0 <= i < items.len() implies #[trigger] items[i] is Str by {}
    }
}

proof fn lemma_flutter_config_shallow(
    label: Seq<char>,
    use_fvm: bool,
    program: Seq<char>,
    cwd: Option<Seq<char>>,
    request: Seq<char>,
    device_id: Option<Seq<char>>,
    platform: Option<Seq<char>>,
    launch: LaunchOptionsView,
)
    ensures
        json_shallow(flutter_config(label, use_fvm, program, cwd, request, device_id, platform, launch)),
{
    lemma_str_array_leaf(launch.program_args);
    lemma_str_array_leaf(launch.tool_args);
    if let JsonView::Object(m) = flutter_config(
        label,
        use_fvm,
        program,
        cwd,
        request,
        device_id,
        platform,
        launch,
    ) {
        assert forall|k: Seq<char>| #[trigger] m.contains_key(k) implies crate::json::json_leaf(
            m[k],
        ) by {}
    }
}

fn put_opt_str(m: &mut serde_json::Map<String, serde_json::Value>, key: &str, v: Option<&str>)
    ensures
        json_map_view(*final(m)) == put(json_map_view(*old(m)), key@, opt_str_json(opt_str_view(v))),
{
    match v {
        Some(s) => {
            json_map_insert(m, String::from_str(key), json_string(String::from_str(s)));
        },
        None => {},
    }
}

impl FlutterExtension {
    /// The JSON configuration of a Dart adapter debug scenario of type `flutter`:
    /// label, program, request, FVM use and program arguments; the directory,
    /// device and platform where known; the build mode as both `profile` and
    /// `flutterMode`; the VM Service URI; the tool flags where there are any; and
    /// for a launch, the file where the adapter writes the VM Service URI.
    /// The text reads back as the configuration.
    pub fn dart_flutter_config(
        resolved_label: &str,
        use_fvm: bool,
        program: &str,
        cwd: Option<String>,
        request: &str,
        device_id: Option<&str>,
        platform: Option<&str>,
        launch: &FlutterLaunchOptions,
    ) -> (r: Option<String>)
        ensures
            r is Some,
            r matches Some(t) ==> t@ == json_text(
                flutter_config(
                    resolved_label@,
                    use_fvm,
                    program@,
                    opt_view(cwd),
                    request@,
                    opt_str_view(device_id),
                    opt_str_view(platform),
                    launch@,
                ),
            ),
            r matches Some(t) ==> parsed_json(t@) == Ok::<JsonView, Seq<char>>(
                flutter_config(
                    resolved_label@,
                    use_fvm,
                    program@,
                    opt_view(cwd),
                    request@,
                    opt_str_view(device_id),
                    opt_str_view(platform),
                    launch@,
                ),
            ),
    {
        let ghost want = flutter_config(
            resolved_label@,
            use_fvm,
            program@,
            opt_view(cwd),
            request@,
            opt_str_view(device_id),
            opt_str_view(platform),
            launch@,
        );
        let mut m = json_map_new();
        json_map_insert(&mut m, String::from_str("adapter"), json_string(String::from_str("Dart")));
        json_map_insert(&mut m, String::from_str("type"), json_string(String::from_str("flutter")));
        json_map_insert(&mut m, String::from_str("request"), json_string(String::from_str(request)));
        json_map_insert(&mut m, String::from_str("label"), json_string(String::from_str(resolved_label)));
        json_map_insert(&mut m, String::from_str("program"), json_string(String::from_str(program)));
        json_map_insert(&mut m, String::from_str("useFvm"), json_bool(use_fvm));
        let args = json_string_array(launch.program_args.as_slice());
        assert(launch.program_args@.map_values(|s: String| JsonView::Str(s@)) =~= string_views(
            launch.program_args@,
        ).map_values(|s: Seq<char>| JsonView::Str(s)));
        json_map_insert(&mut m, String::from_str("args"), args);
        let c = match &cwd {
            Some(c) => Some(c.as_str()),
            None => None,
        };
        put_opt_str(&mut m, "cwd", c);
        put_opt_str(&mut m, "device_id", device_id);
        put_opt_str(&mut m, "platform", platform);
        match &launch.profile {
            Some(profile) => {
                json_map_insert(&mut m, String::from_str("profile"), json_string(profile.clone()));
                json_map_insert(&mut m, String::from_str("flutterMode"), json_string(profile.clone()));
            },
            None => {},
        }
        let uri = match &launch.vm_service_uri {
            Some(u) => Some(u.as_str()),
            None => None,
        };
        put_opt_str(&mut m, "vmServiceUri", uri);
        if launch.tool_args.len() > 0 {
            let a = json_string_array(launch.tool_args.as_slice());
            assert(launch.tool_args@.map_values(|s: String| JsonView::Str(s@)) =~= string_views(
                launch.tool_args@,
            ).map_values(|s: Seq<char>| JsonView::Str(s)));
            json_map_insert(&mut m, String::from_str("toolArgs"), a);
        }
        if str_eq(request, "launch") {
            json_map_insert(
                &mut m,
                String::from_str("vmServiceInfoFile"),
                json_string(String::from_str(".zed/flutter/vmservice.json")),
            );
        }
        assert(json_map_view(m) =~= match want {
            JsonView::Object(w) => w,
            _ => Map::empty(),
        });
        let value = json_object(m);
        assert(json_view(value) == want);
        proof {
            lemma_flutter_config_shallow(
                resolved_label@,
                use_fvm,
                program@,
                opt_view(cwd),
                request@,
                opt_str_view(device_id),
                opt_str_view(platform),
                launch@,
            );
        }
        json_to_string(&value)
    }
}

/// A task the locator takes on, as far as the device is not yet known.
pub struct LocatedTask {
    pub use_fvm: bool,
    pub subcommand: String,
    pub rest: Vec<String>,
    pub cwd: Option<String>,
    pub device_from_args: Option<String>,
}

/// The view of a [`LocatedTask`].
pub struct LocatedView {
    pub use_fvm: bool,
    pub subcommand: Seq<char>,
    pub rest: Seq<Seq<char>>,
    pub cwd: Option<Seq<char>>,
    pub device_from_args: Option<Seq<char>>,
}

impl View for LocatedTask {
    type V = LocatedView;

    open spec fn view(&self) -> LocatedView {
        LocatedView {
            use_fvm: self.use_fvm,
            subcommand: self.subcommand@,
            rest: string_views(self.rest@),
            cwd: opt_view(self.cwd),
            device_from_args: opt_view(self.device_from_args),
        }
    }
}

/// The task as the locator takes it on: only for the Dart adapter and a flutter
/// invocation with a subcommand; the device named by `-d` / `--device-id`.
pub open spec fn located(task: TaskView, adapter: Seq<char>) -> Option<LocatedView> {
    if adapter != dart_adapter() {
        None
    } else {
        match invocation(task) {
            None => None,
            Some((fvm, sub)) => if sub.len() == 0 {
                None
            } else {
                Some(
                    LocatedView {
                        use_fvm: fvm,
                        subcommand: sub[0],
                        rest: sub.skip(1),
                        cwd: task.cwd,
                        device_from_args: device_flag(sub.skip(1)),
                    },
                )
            },
        }
    }
}

/// The configuration of the scenario for a located task and its device: a
/// launch for `run` (of [`run_program`]) and `test` (of [`test_program`], where
/// the task names a test), an attach for `attach` (to the `-t` / `--target`
/// value, else `lib/main.dart`); none for other subcommands.
pub open spec fn scenario_config(loc: LocatedView, label: Seq<char>, dev: ResolvedView) -> Option<
    JsonView,
> {
    let platform = device_platform(dev.id, dev.devices);
    let launch = launch_options(loc.rest);
    if loc.subcommand == "run"@ {
        Some(
            flutter_config(
                label,
                loc.use_fvm,
                run_program(loc.rest),
                loc.cwd,
                "launch"@,
                dev.id,
                platform,
                launch,
            ),
        )
    } else if loc.subcommand == "test"@ {
        match test_program(loc.rest) {
            Some(p) => Some(
                flutter_config(label, loc.use_fvm, p, loc.cwd, "launch"@, dev.id, platform, launch),
            ),
            None => None,
        }
    } else if loc.subcommand == "attach"@ {
        let program = match target_flag(loc.rest) {
            Some(t) => t,
            None => "lib/main.dart"@,
        };
        Some(
            flutter_config(label, loc.use_fvm, program, loc.cwd, "attach"@, dev.id, platform, launch),
        )
    } else {
        None
    }
}

fn borrow_all(v: &Vec<String>) -> (r: Vec<&str>)
    ensures
        str_views(r@) == string_views(v@),
{
    let mut out: Vec<&str> = Vec::new();
    let mut i: usize = 0;
    while i < v.len()
        invariant
            i <= v@.len(),
            str_views(out@) =~= string_views(v@).take(i as int),
        decreases v@.len() - i,
    {
        let ghost prev = out@;
        out.push(v[i].as_str());
        assert(str_views(out@) =~= str_views(prev).push(v@[i as int]@));
        i += 1;
    }
    assert(string_views(v@).take(v@.len() as int) =~= string_views(v@));
    out
}

/// Takes on a task for the Dart adapter that runs `flutter` (or `fvm flutter`)
/// with a subcommand, and reads the device it names.
pub fn locate_flutter_task(build_task: &TaskTemplate, debug_adapter_name: &str) -> (r: Option<
    LocatedTask,
>)
    ensures
        match r {
            Some(l) => located(build_task@, debug_adapter_name@) == Some(l@),
            None => located(build_task@, debug_adapter_name@) is None,
        },
{
    if !str_eq(debug_adapter_name, "Dart") {
        return None;
    }
    let (use_fvm, subargs) = match flutter_invocation(build_task) {
        Some(x) => x,
        None => return None,
    };
    if subargs.len() == 0 {
        return None;
    }
    let subcommand = subargs[0].clone();
    let tail = slice_subrange(subargs, 1, subargs.len());
    let mut rest: Vec<String> = Vec::new();
    let mut i: usize = 0;
    while i < tail.len()
        invariant
            i <= tail@.len(),
            string_views(rest@) =~= string_views(tail@).take(i as int),
        decreases tail@.len() - i,
    {
        let ghost prev = rest@;
        rest.push(tail[i].clone());
        assert(string_views(rest@) =~= string_views(prev).push(tail@[i as int]@));
        i += 1;
    }
    assert(string_views(tail@).take(tail@.len() as int) =~= string_views(tail@));
    assert(string_views(tail@) =~= string_views(subargs@).skip(1));
    let borrowed = borrow_all(&rest);
    let device_from_args = parse_device_id(borrowed.as_slice());
    let cwd = match &build_task.cwd {
        Some(c) => Some(c.clone()),
        None => None,
    };
    Some(LocatedTask { use_fvm, subcommand, rest, cwd, device_from_args })
}

/// The configuration text of the Dart adapter scenario for a located task on the
/// resolved device (see [`scenario_config`]); `None` exactly for a subcommand
/// the locator does not handle and a test task naming no test.
pub fn flutter_scenario_config(
    located: &LocatedTask,
    resolved_label: &str,
    resolved: &ResolvedDevice,
) -> (r: Option<String>)
    ensures
        r is Some <==> scenario_config(located@, resolved_label@, resolved@) is Some,
        r matches Some(t) ==> (scenario_config(located@, resolved_label@, resolved@) matches Some(
            v,
        ) && t@ == json_text(v) && parsed_json(t@) == Ok::<JsonView, Seq<char>>(v)),
{
    let rest = borrow_all(&located.rest);
    let rest = rest.as_slice();
    let device = match &resolved.id {
        Some(d) => Some(d.as_str()),
        None => None,
    };
    let platform = platform_for_device(device, resolved.devices.as_slice());
    let launch = launch_options_from_rest(rest);
    let cwd = match &located.cwd {
        Some(c) => Some(c.clone()),
        None => None,
    };
    let sub = located.subcommand.as_str();
    if str_eq(sub, "run") {
        let program = program_for_run(rest);
        FlutterExtension::dart_flutter_config(
            resolved_label,
            located.use_fvm,
            program.as_str(),
            cwd,
            "launch",
            device,
            platform,
            &launch,
        )
    } else if str_eq(sub, "test") {
        let program = match program_for_test(rest) {
            Some(p) => p,
            None => return None,
        };
        FlutterExtension::dart_flutter_config(
            resolved_label,
            located.use_fvm,
            program.as_str(),
            cwd,
            "launch",
            device,
            platform,
            &launch,
        )
    } else if str_eq(sub, "attach") {
        let program = match parse_target_path(rest) {
            Some(t) => t,
            None => String::from_str("lib/main.dart"),
        };
        FlutterExtension::dart_flutter_config(
            resolved_label,
            located.use_fvm,
            program.as_str(),
            cwd,
            "attach",
            device,
            platform,
            &launch,
        )
    } else {
        None
    }
}

/// Whether a language server is the Dart one, whose workspace configuration the
/// extension adds to.
pub fn is_dart_language_server(id: &str) -> (r: bool)
    ensures
        r == (id@ == "dart"@),
{
    str_eq(id, "dart")
}

/// The workspace configuration that points the Dart language server at a
/// Flutter SDK.
pub open spec fn sdk_configuration(flutter_sdk: Seq<char>) -> JsonView {
    JsonView::Object(
        Map::<Seq<char>, JsonView>::empty().insert(
            "dart"@,
            JsonView::Object(
                Map::<Seq<char>, JsonView>::empty().insert(
                    "flutterSdkPath"@,
                    JsonView::Str(flutter_sdk),
                ),
            ),
        ),
    )
}

/// `{"dart": {"flutterSdkPath": flutter_sdk}}`: the Dart language server's
/// workspace configuration for the Flutter SDK of an FVM project.
pub fn flutter_sdk_workspace_configuration(flutter_sdk: String) -> (r: serde_json::Value)
    ensures
        json_view(r) == sdk_configuration(flutter_sdk@),
{
    let ghost sdk = flutter_sdk@;
    let mut inner = json_map_new();
    json_map_insert(&mut inner, String::from_str("flutterSdkPath"), json_string(flutter_sdk));
    assert(json_map_view(inner) =~= Map::<Seq<char>, JsonView>::empty().insert(
        "flutterSdkPath"@,
        JsonView::Str(sdk),
    ));
    let inner = json_object(inner);
    let mut outer = json_map_new();
    json_map_insert(&mut outer, String::from_str("dart"), inner);
    assert(json_map_view(outer) =~= Map::<Seq<char>, JsonView>::empty().insert(
        "dart"@,
        json_view(inner),
    ));
    json_object(outer)
}

/// Whether a parsed `.fvm/fvm_config.json` names a string `flutterSdkVersion`.
pub fn fvm_config_value_names_sdk_version(config: &serde_json::Value) -> (r: bool)
    ensures
        r == (str_field(json_view(*config), "flutterSdkVersion"@) is Some),
{
    match value_get(config, "flutterSdkVersion") {
        Some(x) => match value_as_str(x) {
            Some(_) => true,
            None => false,
        },
        None => false,
    }
}

/// Whether the text of `.fvm/fvm_config.json` is JSON that names a
/// `flutterSdkVersion`, which marks an FVM project.
pub fn fvm_config_names_sdk_version(config_text: &str) -> (r: bool)
    ensures
        r == (parsed_json(config_text@) matches Ok(v) && str_field(v, "flutterSdkVersion"@) is Some),
{
    match json_parse(config_text) {
        Ok(v) => fvm_config_value_names_sdk_version(&v),
        Err(_) => false,
    }
}

/// A launch configuration names the file where the debug adapter writes the VM
/// Service URI; an attach configuration names none.
pub proof fn only_launch_config_names_vm_service_info_file(
    label: Seq<char>,
    use_fvm: bool,
    program: Seq<char>,
    cwd: Option<Seq<char>>,
    device_id: Option<Seq<char>>,
    platform: Option<Seq<char>>,
    launch: LaunchOptionsView,
)
    ensures
        json_get(
            flutter_config(label, use_fvm, program, cwd, "launch"@, device_id, platform, launch),
            "vmServiceInfoFile"@,
        ) == Some(JsonView::Str(vm_service_info_path())),
        json_get(
            flutter_config(label, use_fvm, program, cwd, "attach"@, device_id, platform, launch),
            "vmServiceInfoFile"@,
        ) is None,
{
    reveal_strlit("vmServiceInfoFile");
    reveal_strlit("attach");
    reveal_strlit("launch");
    reveal_strlit("adapter");
    reveal_strlit("type");
    reveal_strlit("request");
    reveal_strlit("label");
    reveal_strlit("program");
    reveal_strlit("useFvm");
    reveal_strlit("args");
    reveal_strlit("cwd");
    reveal_strlit("device_id");
    reveal_strlit("platform");
    reveal_strlit("profile");
    reveal_strlit("flutterMode");
    reveal_strlit("vmServiceUri");
    reveal_strlit("toolArgs");
    assert("attach"@[0] != "launch"@[0]);
    assert("vmServiceInfoFile"@.len() != "adapter"@.len());
    assert("vmServiceInfoFile"@.len() != "type"@.len());
    assert("vmServiceInfoFile"@.len() != "request"@.len());
    assert("vmServiceInfoFile"@.len() != "label"@.len());
    assert("vmServiceInfoFile"@.len() != "program"@.len());
    assert("vmServiceInfoFile"@.len() != "useFvm"@.len());
    assert("vmServiceInfoFile"@.len() != "args"@.len());
    assert("vmServiceInfoFile"@.len() != "cwd"@.len());
    assert("vmServiceInfoFile"@.len() != "device_id"@.len());
    assert("vmServiceInfoFile"@.len() != "platform"@.len());
    assert("vmServiceInfoFile"@.len() != "profile"@.len());
    assert("vmServiceInfoFile"@.len() != "flutterMode"@.len());
    assert("vmServiceInfoFile"@.len() != "vmServiceUri"@.len());
    assert("vmServiceInfoFile"@.len() != "toolArgs"@.len());
}

/// The device named by `-d` / `--device-id` and the entrypoint named by
/// `-t` / `--target` on a `flutter run` task reach its launch configuration as
/// `device_id` and `program`.
pub proof fn run_task_device_and_target_reach_config(task: TaskView, label: Seq<char>)
    requires
        located(task, dart_adapter()) matches Some(loc) && loc.subcommand == "run"@
            && loc.device_from_args is Some && target_flag(loc.rest) is Some,
    ensures
        located(task, dart_adapter()) matches Some(loc) && scenario_config(
            loc,
            label,
            ResolvedView { id: loc.device_from_args, devices: Seq::empty() },
        ) matches Some(c) && json_get(c, "device_id"@) == Some(
            JsonView::Str(loc.device_from_args.unwrap()),
        ) && json_get(c, "program"@) == Some(JsonView::Str(target_flag(loc.rest).unwrap())),
{
    reveal_strlit("vmServiceInfoFile");
    reveal_strlit("adapter");
    reveal_strlit("type");
    reveal_strlit("request");
    reveal_strlit("label");
    reveal_strlit("program");
    reveal_strlit("useFvm");
    reveal_strlit("args");
    reveal_strlit("cwd");
    reveal_strlit("device_id");
    reveal_strlit("platform");
    reveal_strlit("profile");
    reveal_strlit("flutterMode");
    reveal_strlit("vmServiceUri");
    reveal_strlit("toolArgs");
    assert("program"@[3] != "profile"@[3]);
    assert("device_id"@.len() != "useFvm"@.len());
    assert("device_id"@.len() != "args"@.len());
    assert("device_id"@.len() != "cwd"@.len());
    assert("device_id"@.len() != "platform"@.len());
    assert("device_id"@.len() != "profile"@.len());
    assert("device_id"@.len() != "flutterMode"@.len());
    assert("device_id"@.len() != "vmServiceUri"@.len());
    assert("device_id"@.len() != "toolArgs"@.len());
    assert("device_id"@.len() != "vmServiceInfoFile"@.len());
    assert("program"@.len() != "useFvm"@.len());
    assert("program"@.len() != "args"@.len());
    assert("program"@.len() != "cwd"@.len());
    assert("program"@.len() != "platform"@.len());
    assert("program"@.len() != "flutterMode"@.len());
    assert("program"@.len() != "vmServiceUri"@.len());
    assert("program"@.len() != "toolArgs"@.len());
    assert("program"@.len() != "vmServiceInfoFile"@.len());
    assert("program"@.len() != "device_id"@.len());
}

/// Text that is absent, or holds more than white space.
pub open spec fn absent_or_nonblank(o: Option<Seq<char>>) -> bool {
    o matches Some(s) ==> trim(s).len() > 0
}

/// The adapter configuration that [`build_flutter_dap_configuration`] makes of a
/// scenario configuration that [`FlutterExtension::dart_flutter_config`] made.
pub open spec fn config_through_adapter(
    label: Seq<char>,
    use_fvm: bool,
    program: Seq<char>,
    task_cwd: Option<Seq<char>>,
    request: Seq<char>,
    device_id: Option<Seq<char>>,
    platform: Option<Seq<char>>,
    launch: LaunchOptionsView,
    tool: Seq<char>,
    cwd: Seq<char>,
) -> JsonView {
    dap_configuration(
        flutter_config(label, use_fvm, program, task_cwd, request, device_id, platform, launch),
        tool,
        request,
        program,
        cwd,
        launch.program_args,
    )
}

proof fn lemma_strings_of_str_array(ss: Seq<Seq<char>>)
    ensures
        strings_of(ss.map_values(|s: Seq<char>| JsonView::Str(s))) == ss,
    decreases ss.len(),
{
    let items = ss.map_values(|s: Seq<char>| JsonView::Str(s));
    if ss.len() > 0 {
        lemma_strings_of_str_array(ss.drop_last());
        assert(items.drop_last() =~= ss.drop_last().map_values(|s: Seq<char>| JsonView::Str(s)));
        assert(ss.drop_last().push(ss.last()) =~= ss);
    } else {
        assert(items =~= Seq::<JsonView>::empty());
        assert(ss =~= Seq::<Seq<char>>::empty());
    }
}

/// What the locator puts into a scenario configuration reaches the debug adapter
/// through the Dart extension: device, platform, build mode, VM Service URI and
/// tool flags come out as they went in, and the VM Service info file is named
/// exactly for a launch.
pub proof fn scenario_fields_reach_the_adapter(
    label: Seq<char>,
    use_fvm: bool,
    program: Seq<char>,
    task_cwd: Option<Seq<char>>,
    request: Seq<char>,
    device_id: Option<Seq<char>>,
    platform: Option<Seq<char>>,
    launch: LaunchOptionsView,
    tool: Seq<char>,
    cwd: Seq<char>,
)
    requires
        absent_or_nonblank(device_id),
        absent_or_nonblank(platform),
        absent_or_nonblank(launch.profile),
        absent_or_nonblank(launch.vm_service_uri),
    ensures
        json_get(
            config_through_adapter(label, use_fvm, program, task_cwd, request, device_id, platform, launch, tool, cwd),
            "deviceId"@,
        ) == opt_str_json(device_id),
        json_get(
            config_through_adapter(label, use_fvm, program, task_cwd, request, device_id, platform, launch, tool, cwd),
            "platform"@,
        ) == opt_str_json(platform),
        json_get(
            config_through_adapter(label, use_fvm, program, task_cwd, request, device_id, platform, launch, tool, cwd),
            "flutterMode"@,
        ) == opt_str_json(launch.profile),
        json_get(
            config_through_adapter(label, use_fvm, program, task_cwd, request, device_id, platform, launch, tool, cwd),
            "vmServiceUri"@,
        ) == opt_str_json(launch.vm_service_uri),
        json_get(
            config_through_adapter(label, use_fvm, program, task_cwd, request, device_id, platform, launch, tool, cwd),
            "toolArgs"@,
        ) == (if launch.tool_args.len() > 0 {
            Some(str_array(launch.tool_args))
        } else {
            None
        }),
        json_get(
            config_through_adapter(label, use_fvm, program, task_cwd, request, device_id, platform, launch, tool, cwd),
            "vmServiceInfoFile"@,
        ) is Some <==> request == "launch"@,
{
    reveal_strlit("adapter");
    reveal_strlit("args");
    reveal_strlit("customTool");
    reveal_strlit("customToolReplacesArgs");
    reveal_strlit("cwd");
    reveal_strlit("debugExternalPackageLibraries");
    reveal_strlit("debugSdkLibraries");
    reveal_strlit("deviceId");
    reveal_strlit("device_id");
    reveal_strlit("flutterMode");
    reveal_strlit("label");
    reveal_strlit("noDebug");
    reveal_strlit("platform");
    reveal_strlit("profile");
    reveal_strlit("program");
    reveal_strlit("request");
    reveal_strlit("sendLogsToClient");
    reveal_strlit("stopOnEntry");
    reveal_strlit("toolArgs");
    reveal_strlit("type");
    reveal_strlit("useFvm");
    reveal_strlit("vmServiceInfoFile");
    reveal_strlit("vmServiceUri");
    assert("deviceId"@.len() != "adapter"@.len());
    assert("deviceId"@.len() != "args"@.len());
    assert("deviceId"@.len() != "cwd"@.len());
    assert("deviceId"@.len() != "device_id"@.len());
    assert("deviceId"@.len() != "flutterMode"@.len());
    assert("deviceId"@.len() != "label"@.len());
    assert("deviceId"@[0] != "platform"@[0]);
    assert("deviceId"@.len() != "profile"@.len());
    assert("deviceId"@.len() != "program"@.len());
    assert("deviceId"@.len() != "request"@.len());
    assert("deviceId"@[0] != "toolArgs"@[0]);
    assert("deviceId"@.len() != "type"@.len());
    assert("deviceId"@.len() != "useFvm"@.len());
    assert("deviceId"@.len() != "vmServiceInfoFile"@.len());
    assert("deviceId"@.len() != "vmServiceUri"@.len());
    assert("device_id"@.len() != "adapter"@.len());
    assert("device_id"@.len() != "args"@.len());
    assert("device_id"@.len() != "cwd"@.len());
    assert("device_id"@.len() != "flutterMode"@.len());
    assert("device_id"@.len() != "label"@.len());
    assert("device_id"@.len() != "platform"@.len());
    assert("device_id"@.len() != "profile"@.len());
    assert("device_id"@.len() != "program"@.len());
    assert("device_id"@.len() != "request"@.len());
    assert("device_id"@.len() != "toolArgs"@.len());
    assert("device_id"@.len() != "type"@.len());
    assert("device_id"@.len() != "useFvm"@.len());
    assert("device_id"@.len() != "vmServiceInfoFile"@.len());
    assert("device_id"@.len() != "vmServiceUri"@.len());
    assert("flutterMode"@.len() != "adapter"@.len());
    assert("flutterMode"@.len() != "args"@.len());
    assert("flutterMode"@.len() != "cwd"@.len());
    assert("flutterMode"@.len() != "device_id"@.len());
    assert("flutterMode"@.len() != "label"@.len());
    assert("flutterMode"@.len() != "platform"@.len());
    assert("flutterMode"@.len() != "profile"@.len());
    assert("flutterMode"@.len() != "program"@.len());
    assert("flutterMode"@.len() != "request"@.len());
    assert("flutterMode"@.len() != "toolArgs"@.len());
    assert("flutterMode"@.len() != "type"@.len());
    assert("flutterMode"@.len() != "useFvm"@.len());
    assert("flutterMode"@.len() != "vmServiceInfoFile"@.len());
    assert("flutterMode"@.len() != "vmServiceUri"@.len());
    assert("platform"@.len() != "adapter"@.len());
    assert("platform"@.len() != "args"@.len());
    assert("platform"@.len() != "cwd"@.len());
    assert("platform"@.len() != "device_id"@.len());
    assert("platform"@.len() != "flutterMode"@.len());
    assert("platform"@.len() != "label"@.len());
    assert("platform"@.len() != "profile"@.len());
    assert("platform"@.len() != "program"@.len());
    assert("platform"@.len() != "request"@.len());
    assert("platform"@[0] != "toolArgs"@[0]);
    assert("platform"@.len() != "type"@.len());
    assert("platform"@.len() != "useFvm"@.len());
    assert("platform"@.len() != "vmServiceInfoFile"@.len());
    assert("platform"@.len() != "vmServiceUri"@.len());
    assert("profile"@[0] != "adapter"@[0]);
    assert("profile"@.len() != "args"@.len());
    assert("profile"@.len() != "cwd"@.len());
    assert("profile"@.len() != "device_id"@.len());
    assert("profile"@.len() != "flutterMode"@.len());
    assert("profile"@.len() != "label"@.len());
    assert("profile"@.len() != "platform"@.len());
    assert("profile"@[3] != "program"@[3]);
    assert("profile"@[0] != "request"@[0]);
    assert("profile"@.len() != "toolArgs"@.len());
    assert("profile"@.len() != "type"@.len());
    assert("profile"@.len() != "useFvm"@.len());
    assert("profile"@.len() != "vmServiceInfoFile"@.len());
    assert("profile"@.len() != "vmServiceUri"@.len());
    assert("toolArgs"@.len() != "adapter"@.len());
    assert("toolArgs"@.len() != "args"@.len());
    assert("toolArgs"@.len() != "cwd"@.len());
    assert("toolArgs"@.len() != "device_id"@.len());
    assert("toolArgs"@.len() != "flutterMode"@.len());
    assert("toolArgs"@.len() != "label"@.len());
    assert("toolArgs"@[0] != "platform"@[0]);
    assert("toolArgs"@.len() != "profile"@.len());
    assert("toolArgs"@.len() != "program"@.len());
    assert("toolArgs"@.len() != "request"@.len());
    assert("toolArgs"@.len() != "type"@.len());
    assert("toolArgs"@.len() != "useFvm"@.len());
    assert("toolArgs"@.len() != "vmServiceInfoFile"@.len());
    assert("toolArgs"@.len() != "vmServiceUri"@.len());
    assert("vmServiceInfoFile"@.len() != "adapter"@.len());
    assert("vmServiceInfoFile"@.len() != "args"@.len());
    assert("vmServiceInfoFile"@.len() != "customTool"@.len());
    assert("vmServiceInfoFile"@.len() != "customToolReplacesArgs"@.len());
    assert("vmServiceInfoFile"@.len() != "cwd"@.len());
    assert("vmServiceInfoFile"@.len() != "debugExternalPackageLibraries"@.len());
    assert("vmServiceInfoFile"@[0] != "debugSdkLibraries"@[0]);
    assert("vmServiceInfoFile"@.len() != "deviceId"@.len());
    assert("vmServiceInfoFile"@.len() != "device_id"@.len());
    assert("vmServiceInfoFile"@.len() != "flutterMode"@.len());
    assert("vmServiceInfoFile"@.len() != "label"@.len());
    assert("vmServiceInfoFile"@.len() != "noDebug"@.len());
    assert("vmServiceInfoFile"@.len() != "platform"@.len());
    assert("vmServiceInfoFile"@.len() != "profile"@.len());
    assert("vmServiceInfoFile"@.len() != "program"@.len());
    assert("vmServiceInfoFile"@.len() != "request"@.len());
    assert("vmServiceInfoFile"@.len() != "sendLogsToClient"@.len());
    assert("vmServiceInfoFile"@.len() != "stopOnEntry"@.len());
    assert("vmServiceInfoFile"@.len() != "toolArgs"@.len());
    assert("vmServiceInfoFile"@.len() != "type"@.len());
    assert("vmServiceInfoFile"@.len() != "useFvm"@.len());
    assert("vmServiceInfoFile"@.len() != "vmServiceUri"@.len());
    assert("vmServiceUri"@.len() != "adapter"@.len());
    assert("vmServiceUri"@.len() != "args"@.len());
    assert("vmServiceUri"@.len() != "customTool"@.len());
    assert("vmServiceUri"@.len() != "customToolReplacesArgs"@.len());
    assert("vmServiceUri"@.len() != "cwd"@.len());
    assert("vmServiceUri"@.len() != "debugExternalPackageLibraries"@.len());
    assert("vmServiceUri"@.len() != "debugSdkLibraries"@.len());
    assert("vmServiceUri"@.len() != "deviceId"@.len());
    assert("vmServiceUri"@.len() != "device_id"@.len());
    assert("vmServiceUri"@.len() != "flutterMode"@.len());
    assert("vmServiceUri"@.len() != "label"@.len());
    assert("vmServiceUri"@.len() != "noDebug"@.len());
    assert("vmServiceUri"@.len() != "platform"@.len());
    assert("vmServiceUri"@.len() != "profile"@.len());
    assert("vmServiceUri"@.len() != "program"@.len());
    assert("vmServiceUri"@.len() != "request"@.len());
    assert("vmServiceUri"@.len() != "sendLogsToClient"@.len());
    assert("vmServiceUri"@.len() != "stopOnEntry"@.len());
    assert("vmServiceUri"@.len() != "toolArgs"@.len());
    assert("vmServiceUri"@.len() != "type"@.len());
    assert("vmServiceUri"@.len() != "useFvm"@.len());
    assert("vmServiceUri"@.len() != "vmServiceInfoFile"@.len());
    reveal_strlit(".zed/flutter/vmservice.json");
    let info = vm_service_info_path();
    assert(info[0] == '.' && info.last() == 'n');
    assert(!is_white('.')) by {
        assert(('.' as u32) == 0x2e);
    }
    assert(!is_white('n')) by {
        assert(('n' as u32) == 0x6e);
    }
    lemma_trim_unchanged(info);
    lemma_strings_of_str_array(launch.tool_args);
    let c = flutter_config(label, use_fvm, program, task_cwd, request, device_id, platform, launch);
    dap_configuration_passes_fields_through(c, tool, request, program, cwd, launch.program_args);
    assert(device_id_of(c) == device_id);
    assert(optional_str_of(c, "platform"@) == platform);
    assert(flutter_mode_of(c) == launch.profile);
    assert(optional_str_of(c, "vmServiceUri"@) == launch.vm_service_uri);
    assert(string_array_of(c, "toolArgs"@) == (if launch.tool_args.len() > 0 {
        Some(launch.tool_args)
    } else {
        None::<Seq<Seq<char>>>
    }));
    assert((optional_str_of(c, "vmServiceInfoFile"@) is Some) == (request == "launch"@));
}

/// What a scenario configuration holds: the Dart adapter, type `flutter`, the
/// request, label and program as given, `useFvm` exactly as given, the program
/// arguments as strings in order; the directory, device, platform and VM
/// Service URI exactly where given; the build mode under both `profile` and
/// `flutterMode` where given; the tool flags in order where there are any; and
/// the VM Service info file exactly for a launch.
pub proof fn flutter_config_fields(
    label: Seq<char>,
    use_fvm: bool,
    program: Seq<char>,
    cwd: Option<Seq<char>>,
    request: Seq<char>,
    device_id: Option<Seq<char>>,
    platform: Option<Seq<char>>,
    launch: LaunchOptionsView,
)
    ensures
        ({
            let c = flutter_config(label, use_fvm, program, cwd, request, device_id, platform, launch);
            &&& json_get(c, "adapter"@) == Some(JsonView::Str("Dart"@))
            &&& json_get(c, "type"@) == Some(JsonView::Str("flutter"@))
            &&& json_get(c, "request"@) == Some(JsonView::Str(request))
            &&& json_get(c, "label"@) == Some(JsonView::Str(label))
            &&& json_get(c, "program"@) == Some(JsonView::Str(program))
            &&& json_get(c, "useFvm"@) == Some(JsonView::Bool(use_fvm))
            &&& (json_get(c, "args"@) matches Some(JsonView::Array(items))
                && items.len() == launch.program_args.len()
                && forall|i: int| 0 <= i < items.len() ==> #[trigger] items[i] == JsonView::Str(launch.program_args[i]))
            &&& json_get(c, "cwd"@) == match cwd {
                Some(x) => Some(JsonView::Str(x)),
                None => None,
            }
            &&& json_get(c, "device_id"@) == match device_id {
                Some(x) => Some(JsonView::Str(x)),
                None => None,
            }
            &&& json_get(c, "platform"@) == match platform {
                Some(x) => Some(JsonView::Str(x)),
                None => None,
            }
            &&& json_get(c, "profile"@) == match launch.profile {
                Some(x) => Some(JsonView::Str(x)),
                None => None,
            }
            &&& json_get(c, "flutterMode"@) == match launch.profile {
                Some(x) => Some(JsonView::Str(x)),
                None => None,
            }
            &&& json_get(c, "vmServiceUri"@) == match launch.vm_service_uri {
                Some(x) => Some(JsonView::Str(x)),
                None => None,
            }
            &&& launch.tool_args.len() > 0 ==> (json_get(c, "toolArgs"@) matches Some(JsonView::Array(items))
                && items.len() == launch.tool_args.len()
                && forall|i: int| 0 <= i < items.len() ==> #[trigger] items[i] == JsonView::Str(launch.tool_args[i]))
            &&& launch.tool_args.len() == 0 ==> json_get(c, "toolArgs"@) is None
            &&& request == "launch"@ ==> json_get(c, "vmServiceInfoFile"@) == Some(
                JsonView::Str(".zed/flutter/vmservice.json"@),
            )
            &&& request != "launch"@ ==> json_get(c, "vmServiceInfoFile"@) is None
        }),
{
    reveal_strlit("adapter");
    reveal_strlit("type");
    reveal_strlit("request");
    reveal_strlit("label");
    reveal_strlit("program");
    reveal_strlit("useFvm");
    reveal_strlit("args");
    reveal_strlit("cwd");
    reveal_strlit("device_id");
    reveal_strlit("platform");
    reveal_strlit("profile");
    reveal_strlit("flutterMode");
    reveal_strlit("vmServiceUri");
    reveal_strlit("toolArgs");
    reveal_strlit("vmServiceInfoFile");
    assert("adapter"@.len() != "type"@.len());
    assert("adapter"@[0] != "request"@[0]);
    assert("adapter"@.len() != "label"@.len());
    assert("adapter"@[0] != "program"@[0]);
    assert("adapter"@.len() != "useFvm"@.len());
    assert("adapter"@.len() != "args"@.len());
    assert("adapter"@.len() != "cwd"@.len());
    assert("adapter"@.len() != "device_id"@.len());
    assert("adapter"@.len() != "platform"@.len());
    assert("adapter"@[0] != "profile"@[0]);
    assert("adapter"@.len() != "flutterMode"@.len());
    assert("adapter"@.len() != "vmServiceUri"@.len());
    assert("adapter"@.len() != "toolArgs"@.len());
    assert("adapter"@.len() != "vmServiceInfoFile"@.len());
    assert("type"@.len() != "request"@.len());
    assert("type"@.len() != "label"@.len());
    assert("type"@.len() != "program"@.len());
    assert("type"@.len() != "useFvm"@.len());
    assert("type"@[0] != "args"@[0]);
    assert("type"@.len() != "cwd"@.len());
    assert("type"@.len() != "device_id"@.len());
    assert("type"@.len() != "platform"@.len());
    assert("type"@.len() != "profile"@.len());
    assert("type"@.len() != "flutterMode"@.len());
    assert("type"@.len() != "vmServiceUri"@.len());
    assert("type"@.len() != "toolArgs"@.len());
    assert("type"@.len() != "vmServiceInfoFile"@.len());
    assert("request"@.len() != "label"@.len());
    assert("request"@[0] != "program"@[0]);
    assert("request"@.len() != "useFvm"@.len());
    assert("request"@.len() != "args"@.len());
    assert("request"@.len() != "cwd"@.len());
    assert("request"@.len() != "device_id"@.len());
    assert("request"@.len() != "platform"@.len());
    assert("request"@[0] != "profile"@[0]);
    assert("request"@.len() != "flutterMode"@.len());
    assert("request"@.len() != "vmServiceUri"@.len());
    assert("request"@.len() != "toolArgs"@.len());
    assert("request"@.len() != "vmServiceInfoFile"@.len());
    assert("label"@.len() != "program"@.len());
    assert("label"@.len() != "useFvm"@.len());
    assert("label"@.len() != "args"@.len());
    assert("label"@.len() != "cwd"@.len());
    assert("label"@.len() != "device_id"@.len());
    assert("label"@.len() != "platform"@.len());
    assert("label"@.len() != "profile"@.len());
    assert("label"@.len() != "flutterMode"@.len());
    assert("label"@.len() != "vmServiceUri"@.len());
    assert("label"@.len() != "toolArgs"@.len());
    assert("label"@.len() != "vmServiceInfoFile"@.len());
    assert("program"@.len() != "useFvm"@.len());
    assert("program"@.len() != "args"@.len());
    assert("program"@.len() != "cwd"@.len());
    assert("program"@.len() != "device_id"@.len());
    assert("program"@.len() != "platform"@.len());
    assert("program"@[3] != "profile"@[3]);
    assert("program"@.len() != "flutterMode"@.len());
    assert("program"@.len() != "vmServiceUri"@.len());
    assert("program"@.len() != "toolArgs"@.len());
    assert("program"@.len() != "vmServiceInfoFile"@.len());
    assert("useFvm"@.len() != "args"@.len());
    assert("useFvm"@.len() != "cwd"@.len());
    assert("useFvm"@.len() != "device_id"@.len());
    assert("useFvm"@.len() != "platform"@.len());
    assert("useFvm"@.len() != "profile"@.len());
    assert("useFvm"@.len() != "flutterMode"@.len());
    assert("useFvm"@.len() != "vmServiceUri"@.len());
    assert("useFvm"@.len() != "toolArgs"@.len());
    assert("useFvm"@.len() != "vmServiceInfoFile"@.len());
    assert("args"@.len() != "cwd"@.len());
    assert("args"@.len() != "device_id"@.len());
    assert("args"@.len() != "platform"@.len());
    assert("args"@.len() != "profile"@.len());
    assert("args"@.len() != "flutterMode"@.len());
    assert("args"@.len() != "vmServiceUri"@.len());
    assert("args"@.len() != "toolArgs"@.len());
    assert("args"@.len() != "vmServiceInfoFile"@.len());
    assert("cwd"@.len() != "device_id"@.len());
    assert("cwd"@.len() != "platform"@.len());
    assert("cwd"@.len() != "profile"@.len());
    assert("cwd"@.len() != "flutterMode"@.len());
    assert("cwd"@.len() != "vmServiceUri"@.len());
    assert("cwd"@.len() != "toolArgs"@.len());
    assert("cwd"@.len() != "vmServiceInfoFile"@.len());
    assert("device_id"@.len() != "platform"@.len());
    assert("device_id"@.len() != "profile"@.len());
    assert("device_id"@.len() != "flutterMode"@.len());
    assert("device_id"@.len() != "vmServiceUri"@.len());
    assert("device_id"@.len() != "toolArgs"@.len());
    assert("device_id"@.len() != "vmServiceInfoFile"@.len());
    assert("platform"@.len() != "profile"@.len());
    assert("platform"@.len() != "flutterMode"@.len());
    assert("platform"@.len() != "vmServiceUri"@.len());
    assert("platform"@[0] != "toolArgs"@[0]);
    assert("platform"@.len() != "vmServiceInfoFile"@.len());
    assert("profile"@.len() != "flutterMode"@.len());
    assert("profile"@.len() != "vmServiceUri"@.len());
    assert("profile"@.len() != "toolArgs"@.len());
    assert("profile"@.len() != "vmServiceInfoFile"@.len());
    assert("flutterMode"@.len() != "vmServiceUri"@.len());
    assert("flutterMode"@.len() != "toolArgs"@.len());
    assert("flutterMode"@.len() != "vmServiceInfoFile"@.len());
    assert("vmServiceUri"@.len() != "toolArgs"@.len());
    assert("vmServiceUri"@.len() != "vmServiceInfoFile"@.len());
    assert("toolArgs"@.len() != "vmServiceInfoFile"@.len());
}

} // verus!
