//! The configuration handed to `flutter debug_adapter` / `dart debug_adapter`:
//! the fields of the user's debug configuration are passed through instead of
//! being replaced by fixed defaults.

use vstd::prelude::*;

use crate::args::{opt_str_view, opt_view, string_views};
use crate::json::{
    json_bool, json_display, json_display_text, json_get, json_map_insert,
    json_map_new, json_map_view, json_object, json_parse, json_string, json_string_array,
    json_u64, json_view, json_views, parsed_json, value_as_array, value_as_bool, value_as_str,
    value_as_u64, value_clone, value_get, value_is_boolean, value_is_null, JsonView,
};
use crate::platform::HostOs;
use crate::text::{
    is_white, lemma_trim_end_char_prefix, lemma_trim_trimmed, lemma_trim_unchanged,
    replace_all, replace_str, starts_with_ch, starts_with_char, str_eq, trim, trim_end_ch,
    trim_end_char, trim_str,
};

verus! {

/// A string under `key` that is not blank.
pub open spec fn optional_str_of(cfg: JsonView, key: Seq<char>) -> Option<Seq<char>> {
    match json_get(cfg, key) {
        Some(JsonView::Str(s)) => if trim(s).len() > 0 {
            Some(s)
        } else {
            None
        },
        _ => None,
    }
}

/// The strings among `items`, in order.
pub open spec fn strings_of(items: Seq<JsonView>) -> Seq<Seq<char>>
    decreases items.len(),
{
    if items.len() == 0 {
        Seq::empty()
    } else {
        let init = strings_of(items.drop_last());
        match items.last() {
            JsonView::Str(s) => init.push(s),
            _ => init,
        }
    }
}

/// The strings of the array under `key`; `None` where `key` holds no array.
pub open spec fn string_array_of(cfg: JsonView, key: Seq<char>) -> Option<Seq<Seq<char>>> {
    match json_get(cfg, key) {
        Some(JsonView::Array(items)) => Some(strings_of(items)),
        _ => None,
    }
}

/// The build mode: `flutterMode`, else `profile`.
pub open spec fn flutter_mode_of(cfg: JsonView) -> Option<Seq<char>> {
    match optional_str_of(cfg, "flutterMode"@) {
        Some(m) => Some(m),
        None => optional_str_of(cfg, "profile"@),
    }
}

/// The device: `device_id`, else `deviceId`.
pub open spec fn device_id_of(cfg: JsonView) -> Option<Seq<char>> {
    match optional_str_of(cfg, "device_id"@) {
        Some(d) => Some(d),
        None => optional_str_of(cfg, "deviceId"@),
    }
}

/// `path` (trimmed) as it stands where it is absolute or starts with a variable,
/// else joined to `cwd` with one `/`.
pub open spec fn resolved_info_file(cwd: Seq<char>, path: Seq<char>) -> Seq<char> {
    let p = trim(path);
    if starts_with_char(p, '/') || starts_with_char(p, '$') {
        p
    } else {
        trim_end_char(cwd, '/') + seq!['/'] + p
    }
}

/// A JSON array of strings.
pub open spec fn str_array(ss: Seq<Seq<char>>) -> JsonView {
    JsonView::Array(ss.map_values(|s: Seq<char>| JsonView::Str(s)))
}

/// A string, where there is one.
pub open spec fn opt_str_json(o: Option<Seq<char>>) -> Option<JsonView> {
    match o {
        Some(s) => Some(JsonView::Str(s)),
        None => None,
    }
}

/// `m` with `key` set to `v`, where there is a `v`.
pub open spec fn put(m: Map<Seq<char>, JsonView>, key: Seq<char>, v: Option<JsonView>) -> Map<
    Seq<char>,
    JsonView,
> {
    match v {
        Some(x) => m.insert(key, x),
        None => m,
    }
}

/// The value under `key` where it is a boolean or `null`.
pub open spec fn flag_or_null(cfg: JsonView, key: Seq<char>) -> Option<JsonView> {
    match json_get(cfg, key) {
        Some(v) => if v is Bool || v is Null {
            Some(v)
        } else {
            None
        },
        None => None,
    }
}

/// The value under `key` where it is a non-negative integer.
pub open spec fn count_of(cfg: JsonView, key: Seq<char>) -> Option<JsonView> {
    match json_get(cfg, key) {
        Some(JsonView::Int(k)) => if k >= 0 {
            Some(JsonView::Int(k))
        } else {
            None
        },
        _ => None,
    }
}

/// The fields that every configuration has.
pub open spec fn base_fields(
    tool: Seq<char>,
    request: Seq<char>,
    program: Seq<char>,
    cwd: Seq<char>,
    program_args: Seq<Seq<char>>,
) -> Map<Seq<char>, JsonView> {
    Map::<Seq<char>, JsonView>::empty().insert("type"@, JsonView::Str(tool)).insert(
        "request"@,
        JsonView::Str(request),
    ).insert("program"@, JsonView::Str(program)).insert("cwd"@, JsonView::Str(cwd)).insert(
        "args"@,
        str_array(program_args),
    ).insert("stopOnEntry"@, JsonView::Bool(false))
}

/// The fields taken over from the user's configuration where it gives them.
pub open spec fn passed_fields(m: Map<Seq<char>, JsonView>, cfg: JsonView, cwd: Seq<char>) -> Map<
    Seq<char>,
    JsonView,
> {
    let m = put(m, "flutterMode"@, opt_str_json(flutter_mode_of(cfg)));
    let m = put(
        m,
        "toolArgs"@,
        match string_array_of(cfg, "toolArgs"@) {
            Some(a) => Some(str_array(a)),
            None => None,
        },
    );
    let m = put(m, "deviceId"@, opt_str_json(device_id_of(cfg)));
    let m = put(m, "platform"@, opt_str_json(optional_str_of(cfg, "platform"@)));
    let m = put(m, "vmServiceUri"@, opt_str_json(optional_str_of(cfg, "vmServiceUri"@)));
    let m = put(
        m,
        "vmServiceInfoFile"@,
        match optional_str_of(cfg, "vmServiceInfoFile"@) {
            Some(p) => Some(JsonView::Str(resolved_info_file(cwd, p))),
            None => None,
        },
    );
    let m = put(m, "sendLogsToClient"@, flag_or_null(cfg, "sendLogsToClient"@));
    let m = put(m, "debugSdkLibraries"@, flag_or_null(cfg, "debugSdkLibraries"@));
    let m = put(
        m,
        "debugExternalPackageLibraries"@,
        flag_or_null(cfg, "debugExternalPackageLibraries"@),
    );
    let m = put(m, "noDebug"@, flag_or_null(cfg, "noDebug"@));
    let m = put(m, "customTool"@, opt_str_json(optional_str_of(cfg, "customTool"@)));
    put(m, "customToolReplacesArgs"@, count_of(cfg, "customToolReplacesArgs"@))
}

/// The configuration for the Flutter debug adapter built from the user's
/// configuration `cfg` and the launch facts the editor decided.
pub open spec fn dap_configuration(
    cfg: JsonView,
    tool: Seq<char>,
    request: Seq<char>,
    program: Seq<char>,
    cwd: Seq<char>,
    program_args: Seq<Seq<char>>,
) -> JsonView {
    JsonView::Object(passed_fields(base_fields(tool, request, program, cwd, program_args), cfg, cwd))
}

/// The string under `key` where it is not blank.
pub fn optional_str<'a>(value: &'a serde_json::Value, key: &str) -> (r: Option<&'a str>)
    ensures
        opt_str_view(r) == optional_str_of(json_view(*value), key@),
{
    match value_get(value, key) {
        Some(v) => match value_as_str(v) {
            Some(s) => {
                if trim_str(s).unicode_len() == 0 {
                    None
                } else {
                    Some(s)
                }
            },
            None => None,
        },
        None => None,
    }
}

/// The strings of the array under `key`, or `None` where it holds no array.
pub fn string_array(value: &serde_json::Value, key: &str) -> (r: Option<Vec<String>>)
    ensures
        match r {
            Some(a) => string_array_of(json_view(*value), key@) == Some(string_views(a@)),
            None => string_array_of(json_view(*value), key@) is None,
        },
{
    let arr = match value_get(value, key) {
        Some(v) => match value_as_array(v) {
            Some(a) => a,
            None => return None,
        },
        None => return None,
    };
    let ghost items = json_views(arr@);
    let mut out: Vec<String> = Vec::new();
    let mut i: usize = 0;
    while i < arr.len()
        invariant
            items == json_views(arr@),
            i <= arr@.len(),
            string_views(out@) == strings_of(items.take(i as int)),
        decreases arr@.len() - i,
    {
        let ghost prev = out@;
        assert(items.take(i + 1).drop_last() =~= items.take(i as int));
        match value_as_str(&arr[i]) {
            Some(s) => {
                out.push(String::from_str(s));
                assert(string_views(out@) =~= string_views(prev).push(s@));
            },
            None => {},
        }
        i += 1;
    }
    assert(items.take(arr@.len() as int) =~= items);
    Some(out)
}

/// The build mode of the user's configuration: `flutterMode`, else `profile`.
pub fn flutter_mode(value: &serde_json::Value) -> (r: Option<String>)
    ensures
        opt_view(r) == flutter_mode_of(json_view(*value)),
{
    match optional_str(value, "flutterMode") {
        Some(m) => Some(String::from_str(m)),
        None => match optional_str(value, "profile") {
            Some(m) => Some(String::from_str(m)),
            None => None,
        },
    }
}

/// Resolves a relative `vmServiceInfoFile` against the launch `cwd`; a path that
/// is absolute or starts with a variable stands as it is (trimmed).
pub fn resolve_vm_service_info_file(cwd: &str, path: &str) -> (r: String)
    ensures
        r@ == resolved_info_file(cwd@, path@),
{
    let p = trim_str(path);
    if starts_with_ch(p, '/') || starts_with_ch(p, '$') {
        return String::from_str(p);
    }
    let base = trim_end_ch(cwd, '/');
    let mut out = String::from_str(base);
    out.append("/");
    proof {
        reveal_strlit("/");
    }
    out.append(p);
    assert(out@ =~= trim_end_char(cwd@, '/') + seq!['/'] + trim(path@));
    out
}

/// Resolving a `vmServiceInfoFile` twice against an absolute `cwd` gives what
/// resolving it once gave: the result is absolute or starts with a variable.
pub proof fn resolved_info_file_is_stable(cwd: Seq<char>, path: Seq<char>)
    requires
        starts_with_char(cwd, '/'),
    ensures
        resolved_info_file(cwd, resolved_info_file(cwd, path)) == resolved_info_file(cwd, path),
        starts_with_char(resolved_info_file(cwd, path), '/') || starts_with_char(trim(path), '$'),
{
    let p = trim(path);
    lemma_trim_trimmed(path);
    if starts_with_char(p, '/') || starts_with_char(p, '$') {
        assert(trim(p) == p);
    } else {
        let base = trim_end_char(cwd, '/');
        lemma_trim_end_char_prefix(cwd, '/');
        let r = base + seq!['/'] + p;
        if base.len() > 0 {
            assert(base[0] == cwd[0]);
        }
        assert(r[0] == '/');
        assert(!is_white('/')) by {
            assert(('/' as u32) == 0x2f);
        }
        if p.len() > 0 {
            assert(r.last() == p.last());
        } else {
            assert(r.last() == '/');
        }
        lemma_trim_unchanged(r);
        assert(resolved_info_file(cwd, path) == r);
    }
}

fn put_str(m: &mut serde_json::Map<String, serde_json::Value>, key: &str, v: Option<&str>)
    ensures
        json_map_view(*final(m)) == put(json_map_view(*old(m)), key@, opt_str_json(opt_str_view(v))),
{
    match v {
        Some(s) => {
            json_map_insert(m, String::from_str(key), json_string(String::from_str(s)));
        },
        None => {},
    }
}

fn put_flag(
    m: &mut serde_json::Map<String, serde_json::Value>,
    user_config: &serde_json::Value,
    key: &str,
)
    ensures
        json_map_view(*final(m)) == put(
            json_map_view(*old(m)),
            key@,
            flag_or_null(json_view(*user_config), key@),
        ),
{
    match value_get(user_config, key) {
        Some(v) => {
            if value_is_boolean(v) || value_is_null(v) {
                json_map_insert(m, String::from_str(key), value_clone(v));
            }
        },
        None => {},
    }
}

/// Builds the JSON configuration handed to `flutter debug_adapter` /
/// `dart debug_adapter`: the launch facts given here, plus the Flutter fields of
/// the user's configuration (tool flags, build mode, device, platform, VM Service
/// URI and info file, logging flags, custom tool) where it gives them.
pub fn build_flutter_dap_configuration(
    user_config: &serde_json::Value,
    tool: &str,
    request: &str,
    program: &str,
    cwd: &str,
    program_args: &[String],
) -> (r: serde_json::Value)
    ensures
        json_view(r) == dap_configuration(
            json_view(*user_config),
            tool@,
            request@,
            program@,
            cwd@,
            string_views(program_args@),
        ),
{
    let ghost cfg = json_view(*user_config);
    let mut dap = json_map_new();
    json_map_insert(&mut dap, String::from_str("type"), json_string(String::from_str(tool)));
    json_map_insert(&mut dap, String::from_str("request"), json_string(String::from_str(request)));
    json_map_insert(&mut dap, String::from_str("program"), json_string(String::from_str(program)));
    json_map_insert(&mut dap, String::from_str("cwd"), json_string(String::from_str(cwd)));
    let args = json_string_array(program_args);
    assert(json_view(args) == str_array(string_views(program_args@))) by {
        assert(program_args@.map_values(|s: String| JsonView::Str(s@)) =~= string_views(
            program_args@,
        ).map_values(|s: Seq<char>| JsonView::Str(s)));
    }
    json_map_insert(&mut dap, String::from_str("args"), args);
    json_map_insert(&mut dap, String::from_str("stopOnEntry"), json_bool(false));
    assert(json_map_view(dap) =~= base_fields(
        tool@,
        request@,
        program@,
        cwd@,
        string_views(program_args@),
    ));

    let mode = flutter_mode(user_config);
    match mode {
        Some(m) => {
            json_map_insert(&mut dap, String::from_str("flutterMode"), json_string(m));
        },
        None => {},
    }
    match string_array(user_config, "toolArgs") {
        Some(tool_args) => {
            let a = json_string_array(tool_args.as_slice());
            assert(json_view(a) == str_array(string_views(tool_args@))) by {
                assert(tool_args@.map_values(|s: String| JsonView::Str(s@)) =~= string_views(
                    tool_args@,
                ).map_values(|s: Seq<char>| JsonView::Str(s)));
            }
            json_map_insert(&mut dap, String::from_str("toolArgs"), a);
        },
        None => {},
    }
    let device = match optional_str(user_config, "device_id") {
        Some(d) => Some(d),
        None => optional_str(user_config, "deviceId"),
    };
    put_str(&mut dap, "deviceId", device);
    put_str(&mut dap, "platform", optional_str(user_config, "platform"));
    put_str(&mut dap, "vmServiceUri", optional_str(user_config, "vmServiceUri"));
    match optional_str(user_config, "vmServiceInfoFile") {
        Some(path) => {
            json_map_insert(
                &mut dap,
                String::from_str("vmServiceInfoFile"),
                json_string(resolve_vm_service_info_file(cwd, path)),
            );
        },
        None => {},
    }
    put_flag(&mut dap, user_config, "sendLogsToClient");
    put_flag(&mut dap, user_config, "debugSdkLibraries");
    put_flag(&mut dap, user_config, "debugExternalPackageLibraries");
    put_flag(&mut dap, user_config, "noDebug");
    put_str(&mut dap, "customTool", optional_str(user_config, "customTool"));
    match value_get(user_config, "customToolReplacesArgs") {
        Some(v) => match value_as_u64(v) {
            Some(n) => {
                json_map_insert(&mut dap, String::from_str("customToolReplacesArgs"), json_u64(n));
            },
            None => {},
        },
        None => {},
    }
    json_object(dap)
}

/// A Flutter field is in the adapter configuration exactly when the user's
/// configuration gives it: the device and platform are never defaulted, the build
/// mode comes from `flutterMode` or `profile`, and the tool flags are passed on
/// as they are.
pub proof fn dap_configuration_passes_fields_through(
    cfg: JsonView,
    tool: Seq<char>,
    request: Seq<char>,
    program: Seq<char>,
    cwd: Seq<char>,
    program_args: Seq<Seq<char>>,
)
    ensures
        json_get(dap_configuration(cfg, tool, request, program, cwd, program_args), "deviceId"@)
            == opt_str_json(device_id_of(cfg)),
        json_get(dap_configuration(cfg, tool, request, program, cwd, program_args), "platform"@)
            == opt_str_json(optional_str_of(cfg, "platform"@)),
        json_get(dap_configuration(cfg, tool, request, program, cwd, program_args), "flutterMode"@)
            == opt_str_json(flutter_mode_of(cfg)),
        json_get(dap_configuration(cfg, tool, request, program, cwd, program_args), "toolArgs"@)
            == match string_array_of(cfg, "toolArgs"@) {
            Some(a) => Some(str_array(a)),
            None => None,
        },
{
    reveal_strlit("type");
    reveal_strlit("request");
    reveal_strlit("program");
    reveal_strlit("cwd");
    reveal_strlit("args");
    reveal_strlit("stopOnEntry");
    reveal_strlit("flutterMode");
    reveal_strlit("toolArgs");
    reveal_strlit("deviceId");
    reveal_strlit("platform");
    reveal_strlit("vmServiceUri");
    reveal_strlit("vmServiceInfoFile");
    reveal_strlit("sendLogsToClient");
    reveal_strlit("debugSdkLibraries");
    reveal_strlit("debugExternalPackageLibraries");
    reveal_strlit("noDebug");
    reveal_strlit("customTool");
    reveal_strlit("customToolReplacesArgs");
    assert("flutterMode"@.len() != "type"@.len());
    assert("flutterMode"@.len() != "request"@.len());
    assert("flutterMode"@.len() != "program"@.len());
    assert("flutterMode"@.len() != "cwd"@.len());
    assert("flutterMode"@.len() != "args"@.len());
    assert("flutterMode"@[0] != "stopOnEntry"@[0]);
    assert("flutterMode"@.len() != "toolArgs"@.len());
    assert("flutterMode"@.len() != "deviceId"@.len());
    assert("flutterMode"@.len() != "platform"@.len());
    assert("flutterMode"@.len() != "vmServiceUri"@.len());
    assert("flutterMode"@.len() != "vmServiceInfoFile"@.len());
    assert("flutterMode"@.len() != "sendLogsToClient"@.len());
    assert("flutterMode"@.len() != "debugSdkLibraries"@.len());
    assert("flutterMode"@.len() != "debugExternalPackageLibraries"@.len());
    assert("flutterMode"@.len() != "noDebug"@.len());
    assert("flutterMode"@.len() != "customTool"@.len());
    assert("flutterMode"@.len() != "customToolReplacesArgs"@.len());
    assert("toolArgs"@.len() != "type"@.len());
    assert("toolArgs"@.len() != "request"@.len());
    assert("toolArgs"@.len() != "program"@.len());
    assert("toolArgs"@.len() != "cwd"@.len());
    assert("toolArgs"@.len() != "args"@.len());
    assert("toolArgs"@.len() != "stopOnEntry"@.len());
    assert("toolArgs"@.len() != "flutterMode"@.len());
    assert("toolArgs"@[0] != "deviceId"@[0]);
    assert("toolArgs"@[0] != "platform"@[0]);
    assert("toolArgs"@.len() != "vmServiceUri"@.len());
    assert("toolArgs"@.len() != "vmServiceInfoFile"@.len());
    assert("toolArgs"@.len() != "sendLogsToClient"@.len());
    assert("toolArgs"@.len() != "debugSdkLibraries"@.len());
    assert("toolArgs"@.len() != "debugExternalPackageLibraries"@.len());
    assert("toolArgs"@.len() != "noDebug"@.len());
    assert("toolArgs"@.len() != "customTool"@.len());
    assert("toolArgs"@.len() != "customToolReplacesArgs"@.len());
    assert("deviceId"@.len() != "type"@.len());
    assert("deviceId"@.len() != "request"@.len());
    assert("deviceId"@.len() != "program"@.len());
    assert("deviceId"@.len() != "cwd"@.len());
    assert("deviceId"@.len() != "args"@.len());
    assert("deviceId"@.len() != "stopOnEntry"@.len());
    assert("deviceId"@.len() != "flutterMode"@.len());
    assert("deviceId"@[0] != "toolArgs"@[0]);
    assert("deviceId"@[0] != "platform"@[0]);
    assert("deviceId"@.len() != "vmServiceUri"@.len());
    assert("deviceId"@.len() != "vmServiceInfoFile"@.len());
    assert("deviceId"@.len() != "sendLogsToClient"@.len());
    assert("deviceId"@.len() != "debugSdkLibraries"@.len());
    assert("deviceId"@.len() != "debugExternalPackageLibraries"@.len());
    assert("deviceId"@.len() != "noDebug"@.len());
    assert("deviceId"@.len() != "customTool"@.len());
    assert("deviceId"@.len() != "customToolReplacesArgs"@.len());
    assert("platform"@.len() != "type"@.len());
    assert("platform"@.len() != "request"@.len());
    assert("platform"@.len() != "program"@.len());
    assert("platform"@.len() != "cwd"@.len());
    assert("platform"@.len() != "args"@.len());
    assert("platform"@.len() != "stopOnEntry"@.len());
    assert("platform"@.len() != "flutterMode"@.len());
    assert("platform"@[0] != "toolArgs"@[0]);
    assert("platform"@[0] != "deviceId"@[0]);
    assert("platform"@.len() != "vmServiceUri"@.len());
    assert("platform"@.len() != "vmServiceInfoFile"@.len());
    assert("platform"@.len() != "sendLogsToClient"@.len());
    assert("platform"@.len() != "debugSdkLibraries"@.len());
    assert("platform"@.len() != "debugExternalPackageLibraries"@.len());
    assert("platform"@.len() != "noDebug"@.len());
    assert("platform"@.len() != "customTool"@.len());
    assert("platform"@.len() != "customToolReplacesArgs"@.len());
}

/// The build mode the user asked for reaches the adapter: a non-blank string
/// under `flutterMode` is passed on as it stands; where there is none, a
/// non-blank string under `profile` is passed on in its place; where neither
/// gives one, the adapter configuration has no `flutterMode` at all.
pub proof fn dap_configuration_keeps_build_mode(
    cfg: JsonView,
    tool: Seq<char>,
    request: Seq<char>,
    program: Seq<char>,
    cwd: Seq<char>,
    program_args: Seq<Seq<char>>,
)
    ensures
        ({
            let out = json_get(
                dap_configuration(cfg, tool, request, program, cwd, program_args),
                "flutterMode"@,
            );
            let mode_given = json_get(cfg, "flutterMode"@) matches Some(JsonView::Str(m))
                && trim(m).len() > 0;
            let profile_given = json_get(cfg, "profile"@) matches Some(JsonView::Str(p))
                && trim(p).len() > 0;
            &&& json_get(cfg, "flutterMode"@) matches Some(JsonView::Str(m)) ==> (trim(m).len()
                > 0 ==> out == Some(JsonView::Str(m)))
            &&& !mode_given ==> (json_get(cfg, "profile"@) matches Some(JsonView::Str(p)) ==> (
            trim(p).len() > 0 ==> out == Some(JsonView::Str(p))))
            &&& !mode_given && !profile_given ==> out is None
        }),
{
    dap_configuration_passes_fields_through(cfg, tool, request, program, cwd, program_args);
}

/// The device the user asked for reaches the adapter: a non-blank string under
/// `device_id` is passed on as `deviceId`; where there is none, a non-blank
/// string under `deviceId` is; where neither gives one, there is no `deviceId`.
pub proof fn dap_configuration_keeps_device(
    cfg: JsonView,
    tool: Seq<char>,
    request: Seq<char>,
    program: Seq<char>,
    cwd: Seq<char>,
    program_args: Seq<Seq<char>>,
)
    ensures
        ({
            let out = json_get(
                dap_configuration(cfg, tool, request, program, cwd, program_args),
                "deviceId"@,
            );
            let snake_given = json_get(cfg, "device_id"@) matches Some(JsonView::Str(d))
                && trim(d).len() > 0;
            let camel_given = json_get(cfg, "deviceId"@) matches Some(JsonView::Str(d))
                && trim(d).len() > 0;
            &&& json_get(cfg, "device_id"@) matches Some(JsonView::Str(d)) ==> (trim(d).len()
                > 0 ==> out == Some(JsonView::Str(d)))
            &&& !snake_given ==> (json_get(cfg, "deviceId"@) matches Some(JsonView::Str(d)) ==> (
            trim(d).len() > 0 ==> out == Some(JsonView::Str(d))))
            &&& !snake_given && !camel_given ==> out is None
        }),
{
    dap_configuration_passes_fields_through(cfg, tool, request, program, cwd, program_args);
}

/// The name of the flutter or dart tool on a host.
pub open spec fn tool_name(debug_mode: Seq<char>, os: HostOs) -> Seq<char> {
    if debug_mode == "flutter"@ {
        if os is Windows {
            "flutter.bat"@
        } else {
            "flutter"@
        }
    } else {
        if os is Windows {
            "dart.bat"@
        } else {
            "dart"@
        }
    }
}

/// How to start the debug adapter and what to send it.
pub struct DapBinaryPlan {
    pub command: String,
    pub arguments: Vec<String>,
    pub cwd: String,
    pub configuration: String,
    pub attach: bool,
}

/// The view of a [`DapBinaryPlan`].
pub struct DapPlanView {
    pub command: Seq<char>,
    pub arguments: Seq<Seq<char>>,
    pub cwd: Seq<char>,
    pub configuration: Seq<char>,
    pub attach: bool,
}

impl View for DapBinaryPlan {
    type V = DapPlanView;

    open spec fn view(&self) -> DapPlanView {
        DapPlanView {
            command: self.command@,
            arguments: string_views(self.arguments@),
            cwd: self.cwd@,
            configuration: self.configuration@,
            attach: self.attach,
        }
    }
}

/// A string under `key`, else `default`.
pub open spec fn str_or(cfg: JsonView, key: Seq<char>, default: Seq<char>) -> Seq<char> {
    match json_get(cfg, key) {
        Some(JsonView::Str(s)) => s,
        _ => default,
    }
}

/// The debug adapter launch for a user configuration `cfg` of type `debug_mode`.
pub open spec fn dap_plan(cfg: JsonView, debug_mode: Seq<char>, os: HostOs, worktree_root: Seq<
    char,
>) -> DapPlanView {
    let tool = tool_name(debug_mode, os);
    let use_fvm = match json_get(cfg, "useFvm"@) {
        Some(JsonView::Bool(b)) => b,
        _ => false,
    };
    let cwd = match json_get(cfg, "cwd"@) {
        Some(JsonView::Str(c)) => replace_all(c, "$ZED_WORKTREE_ROOT"@, worktree_root),
        _ => worktree_root,
    };
    let request = str_or(cfg, "request"@, "launch"@);
    let program_args = match string_array_of(cfg, "args"@) {
        Some(a) => a,
        None => Seq::empty(),
    };
    DapPlanView {
        command: if use_fvm {
            "fvm"@
        } else {
            tool
        },
        arguments: if use_fvm {
            seq![tool, "debug_adapter"@]
        } else {
            seq!["debug_adapter"@]
        },
        cwd,
        configuration: json_display_text(
            dap_configuration(
                cfg,
                tool,
                request,
                str_or(cfg, "program"@, "lib/main.dart"@),
                cwd,
                program_args,
            ),
        ),
        attach: request == "attach"@,
    }
}

fn str_or_default<'a>(value: &'a serde_json::Value, key: &str, default: &'a str) -> (r: &'a str)
    ensures
        r@ == str_or(json_view(*value), key@, default@),
{
    match value_get(value, key) {
        Some(v) => match value_as_str(v) {
            Some(s) => s,
            None => default,
        },
        None => default,
    }
}

/// Decides how the Dart extension starts the Flutter / Dart debug adapter for a
/// parsed debug configuration: the tool (through FVM where `useFvm` is set), its
/// working directory, and the adapter configuration of
/// [`build_flutter_dap_configuration`].  Fails where the configuration names no
/// `type`.
pub fn plan_dap_binary_for_config(
    user_config: &serde_json::Value,
    os: HostOs,
    worktree_root: &str,
) -> (r: Result<DapBinaryPlan, String>)
    ensures
        match optional_str_of(json_view(*user_config), "type"@) {
            None => r matches Err(m) && m@ == "type is required and cannot be empty or null"@,
            Some(mode) => r matches Ok(p) && p@ == dap_plan(
                json_view(*user_config),
                mode,
                os,
                worktree_root@,
            ),
        },
{
    let ghost cfg = json_view(*user_config);
    let program = str_or_default(user_config, "program", "lib/main.dart");
    let program_args = match string_array(user_config, "args") {
        Some(a) => a,
        None => {
            let empty: Vec<String> = Vec::new();
            assert(string_views(empty@) =~= Seq::<Seq<char>>::empty());
            empty
        },
    };
    let use_fvm = match value_get(user_config, "useFvm") {
        Some(v) => match value_as_bool(v) {
            Some(b) => b,
            None => false,
        },
        None => false,
    };
    let debug_mode = match optional_str(user_config, "type") {
        Some(m) => m,
        None => return Err(String::from_str("type is required and cannot be empty or null")),
    };
    let is_windows = match os {
        HostOs::Windows => true,
        _ => false,
    };
    let tool = if str_eq(debug_mode, "flutter") {
        if is_windows {
            "flutter.bat"
        } else {
            "flutter"
        }
    } else {
        if is_windows {
            "dart.bat"
        } else {
            "dart"
        }
    };
    let mut arguments: Vec<String> = Vec::new();
    let command = if use_fvm {
        arguments.push(String::from_str(tool));
        arguments.push(String::from_str("debug_adapter"));
        String::from_str("fvm")
    } else {
        arguments.push(String::from_str("debug_adapter"));
        String::from_str(tool)
    };
    let cwd = match value_get(user_config, "cwd") {
        Some(v) => match value_as_str(v) {
            Some(c) => {
                proof {
                    reveal_strlit("$ZED_WORKTREE_ROOT");
                }
                replace_str(c, "$ZED_WORKTREE_ROOT", worktree_root)
            },
            None => String::from_str(worktree_root),
        },
        None => String::from_str(worktree_root),
    };
    let request = str_or_default(user_config, "request", "launch");
    let dap_value = build_flutter_dap_configuration(
        user_config,
        tool,
        request,
        program,
        cwd.as_str(),
        program_args.as_slice(),
    );
    let configuration = json_display(&dap_value);
    let attach = str_eq(request, "attach");
    let plan = DapBinaryPlan { command, arguments, cwd, configuration, attach };
    assert(plan@.arguments =~= dap_plan(cfg, debug_mode@, os, worktree_root@).arguments);
    Ok(plan)
}

/// Decides how the Dart extension starts the Flutter / Dart debug adapter for a
/// debug configuration (`config_json`, as the editor hands it over): see
/// [`plan_dap_binary_for_config`].  Fails where the text is no JSON or names no
/// `type`.
pub fn plan_dap_binary(config_json: &str, os: HostOs, worktree_root: &str) -> (r: Result<
    DapBinaryPlan,
    String,
>)
    ensures
        match parsed_json(config_json@) {
            Err(e) => r matches Err(m) && m@ == "Failed to parse debug config: "@ + e,
            Ok(cfg) => match optional_str_of(cfg, "type"@) {
                None => r matches Err(m) && m@ == "type is required and cannot be empty or null"@,
                Some(mode) => r matches Ok(p) && p@ == dap_plan(cfg, mode, os, worktree_root@),
            },
        },
{
    match json_parse(config_json) {
        Ok(v) => plan_dap_binary_for_config(&v, os, worktree_root),
        Err(e) => {
            let m = String::from_str("Failed to parse debug config: ");
            Err(m.concat(e.as_str()))
        },
    }
}

} // verus!
