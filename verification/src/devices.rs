//! Choosing the device of a debug session when the task names none: the
//! persisted choice in `.zed/flutter_devices.json` (and the legacy
//! `.zed/flutter_device_id`), checked against `flutter devices --machine`.
//!
//! Reading the files, running `flutter devices` and writing the store are the
//! editor's I/O; the functions here decide what to read and run, parse what came
//! back, choose, and write the text to store.

use vstd::prelude::*;

use crate::args::{opt_str_view, opt_view, string_views};
use crate::json::{
    json_bool, json_get, value_into_object, json_map_insert, json_map_new, json_map_view, json_null, json_object,
    json_parse, json_pretty_text, json_shallow, json_string, json_to_string_pretty, json_view,
    json_views, lossy_utf8, parsed_json, utf8_lossy, value_as_array, value_as_bool, value_as_str,
    value_get, value_is_object, JsonView,
};
use crate::platform::{
    device_views, json_platform_key, platform_key, DeviceInfo, DeviceView, HostOs,
};
use crate::text::{str_eq, trim, trim_str};

verus! {

/// The string under `key`.
pub open spec fn str_field(v: JsonView, key: Seq<char>) -> Option<Seq<char>> {
    match json_get(v, key) {
        Some(JsonView::Str(s)) => Some(s),
        _ => None,
    }
}

/// The boolean under `key`.
pub open spec fn bool_field(v: JsonView, key: Seq<char>) -> Option<bool> {
    match json_get(v, key) {
        Some(JsonView::Bool(b)) => Some(b),
        _ => None,
    }
}

/// The device that a row of `flutter devices --machine` describes; rows without
/// a string `id` describe none.  A row that does not say `isSupported` counts as
/// supported.
pub open spec fn row_device(row: JsonView) -> Option<DeviceView> {
    match str_field(row, "id"@) {
        None => None,
        Some(id) => Some(
            DeviceView {
                id,
                name: str_field(row, "name"@),
                is_supported: match bool_field(row, "isSupported"@) {
                    Some(b) => b,
                    None => true,
                },
                target_platform: str_field(row, "targetPlatform"@),
                emulator: bool_field(row, "emulator"@),
                sdk: str_field(row, "sdk"@),
            },
        ),
    }
}

/// The devices that the rows describe, in order.
pub open spec fn rows_devices(rows: Seq<JsonView>) -> Seq<DeviceView>
    decreases rows.len(),
{
    if rows.len() == 0 {
        Seq::empty()
    } else {
        let init = rows_devices(rows.drop_last());
        match row_device(rows.last()) {
            Some(d) => init.push(d),
            None => init,
        }
    }
}

/// The text of command output: its bytes decoded, trimmed.
pub open spec fn output_text(stdout: Seq<u8>) -> Seq<char> {
    trim(lossy_utf8(stdout))
}

/// The devices that a parsed device list describes: none where it is no array.
pub open spec fn json_devices(v: JsonView) -> Seq<DeviceView> {
    match v {
        JsonView::Array(rows) => rows_devices(rows),
        _ => Seq::empty(),
    }
}

/// The devices listed in the output of `flutter devices --machine`: none where
/// the output is no JSON array.
pub open spec fn machine_devices(stdout: Seq<u8>) -> Seq<DeviceView> {
    match parsed_json(output_text(stdout)) {
        Ok(v) => json_devices(v),
        Err(_) => Seq::empty(),
    }
}

/// The non-empty strings among `items`, in order.
pub open spec fn nonempty_strings(items: Seq<JsonView>) -> Seq<Seq<char>>
    decreases items.len(),
{
    if items.len() == 0 {
        Seq::empty()
    } else {
        let init = nonempty_strings(items.drop_last());
        match items.last() {
            JsonView::Str(s) => if s.len() > 0 {
                init.push(s)
            } else {
                init
            },
            _ => init,
        }
    }
}

/// The fallback ids listed under `key` of the `fallback_device_ids` object.
pub open spec fn fallback_list(fallbacks: JsonView, key: Seq<char>) -> Seq<Seq<char>> {
    match json_get(fallbacks, key) {
        Some(JsonView::Array(items)) => nonempty_strings(items),
        _ => Seq::empty(),
    }
}

/// The candidates that a parsed `.zed/flutter_devices.json` names for a host:
/// `default_device_id`, then the fallbacks of the host's platform, then those
/// for `all`.
pub open spec fn store_candidates(store: JsonView, key: Seq<char>) -> Seq<Seq<char>> {
    let default = match str_field(store, "default_device_id"@) {
        Some(id) => if id.len() > 0 {
            seq![id]
        } else {
            Seq::empty()
        },
        None => Seq::empty(),
    };
    let fallbacks = match json_get(store, "fallback_device_ids"@) {
        Some(fb) => if fb is Object {
            fallback_list(fb, key) + fallback_list(fb, "all"@)
        } else {
            Seq::empty()
        },
        None => Seq::empty(),
    };
    default + fallbacks
}

/// The persisted candidates, in order of preference: those of the JSON store
/// (where its text parses), then the first line of the legacy file.
pub open spec fn device_candidates(
    store_text: Option<Seq<char>>,
    legacy_line: Option<Seq<char>>,
    key: Seq<char>,
) -> Seq<Seq<char>> {
    let from_store = match store_text {
        Some(t) => match parsed_json(t) {
            Ok(v) => store_candidates(v, key),
            Err(_) => Seq::empty(),
        },
        None => Seq::empty(),
    };
    match legacy_line {
        Some(l) => from_store.push(l),
        None => from_store,
    }
}

/// The ids of the listed devices.
pub open spec fn device_ids(devices: Seq<DeviceView>) -> Seq<Seq<char>> {
    devices.map_values(|d: DeviceView| d.id)
}

/// The first candidate from position `i` that is still listed.
pub open spec fn first_listed_from(cands: Seq<Seq<char>>, ids: Seq<Seq<char>>, i: int) -> Option<
    Seq<char>,
>
    decreases cands.len() - i,
{
    if i < 0 || i >= cands.len() {
        None
    } else if ids.contains(cands[i]) {
        Some(cands[i])
    } else {
        first_listed_from(cands, ids, i + 1)
    }
}

/// The id of the first supported device from position `i`.
pub open spec fn first_supported_from(devices: Seq<DeviceView>, i: int) -> Option<Seq<char>>
    decreases devices.len() - i,
{
    if i < 0 || i >= devices.len() {
        None
    } else if devices[i].is_supported {
        Some(devices[i].id)
    } else {
        first_supported_from(devices, i + 1)
    }
}

/// The device chosen from the persisted candidates and the listed devices: with
/// no devices listed, the first candidate; else the first candidate still
/// listed, else the first supported device, else the first device.
pub open spec fn chosen_device(cands: Seq<Seq<char>>, devices: Seq<DeviceView>) -> Option<
    Seq<char>,
> {
    if devices.len() == 0 {
        if cands.len() > 0 {
            Some(cands[0])
        } else {
            None
        }
    } else {
        match first_listed_from(cands, device_ids(devices), 0) {
            Some(c) => Some(c),
            None => match first_supported_from(devices, 0) {
                Some(id) => Some(id),
                None => Some(devices[0].id),
            },
        }
    }
}

/// A string, or `null`.
pub open spec fn str_or_null(o: Option<Seq<char>>) -> JsonView {
    match o {
        Some(s) => JsonView::Str(s),
        None => JsonView::Null,
    }
}

/// A boolean, or `null`.
pub open spec fn bool_or_null(o: Option<bool>) -> JsonView {
    match o {
        Some(b) => JsonView::Bool(b),
        None => JsonView::Null,
    }
}

/// What the store remembers of a listed device.
pub open spec fn device_entry(d: DeviceView) -> JsonView {
    JsonView::Object(
        Map::<Seq<char>, JsonView>::empty().insert("name"@, str_or_null(d.name)).insert(
            "is_supported"@,
            JsonView::Bool(d.is_supported),
        ).insert("target_platform"@, str_or_null(d.target_platform)).insert(
            "emulator"@,
            bool_or_null(d.emulator),
        ).insert("sdk"@, str_or_null(d.sdk)),
    )
}

/// The `last_seen` object: each listed device under its id (a later device with
/// the same id replaces an earlier one).
pub open spec fn last_seen(devices: Seq<DeviceView>) -> Map<Seq<char>, JsonView>
    decreases devices.len(),
{
    if devices.len() == 0 {
        Map::empty()
    } else {
        last_seen(devices.drop_last()).insert(devices.last().id, device_entry(devices.last()))
    }
}

/// The fields of the store as it was: those of its text where that is a JSON
/// object, else none.
pub open spec fn prior_fields(prior: Option<Seq<char>>) -> Map<Seq<char>, JsonView> {
    match prior {
        Some(t) => match parsed_json(t) {
            Ok(JsonView::Object(m)) => m,
            _ => Map::empty(),
        },
        None => Map::empty(),
    }
}

/// The contents of `.zed/flutter_devices.json` after choosing `selected`: the
/// store as it was (`prior`, its text), with `default_device_id` set to the
/// choice and `last_seen` to the listed devices; every other field, such as
/// `fallback_device_ids`, stays.
pub open spec fn device_store(
    prior: Option<Seq<char>>,
    selected: Seq<char>,
    devices: Seq<DeviceView>,
) -> JsonView {
    JsonView::Object(
        prior_fields(prior).insert("default_device_id"@, JsonView::Str(selected)).insert(
            "last_seen"@,
            JsonView::Object(last_seen(devices)),
        ),
    )
}

/// The trimmed text of command output, or `None` where it is blank.
pub fn shell_output_text(stdout: &[u8]) -> (r: Option<String>)
    ensures
        opt_view(r) == (if output_text(stdout@).len() == 0 {
            None
        } else {
            Some(output_text(stdout@))
        }),
{
    let s = utf8_lossy(stdout);
    let t = trim_str(s.as_str());
    if t.unicode_len() == 0 {
        None
    } else {
        Some(String::from_str(t))
    }
}

fn str_field_of(row: &serde_json::Value, key: &str) -> (r: Option<String>)
    ensures
        opt_view(r) == str_field(json_view(*row), key@),
{
    match value_get(row, key) {
        Some(v) => match value_as_str(v) {
            Some(s) => Some(String::from_str(s)),
            None => None,
        },
        None => None,
    }
}

fn bool_field_of(row: &serde_json::Value, key: &str) -> (r: Option<bool>)
    ensures
        r == bool_field(json_view(*row), key@),
{
    match value_get(row, key) {
        Some(v) => value_as_bool(v),
        None => None,
    }
}

/// The devices that a parsed `flutter devices --machine` list describes, in
/// order: each row with a string `id`; none where the value is no array.
pub fn devices_from_json(v: &serde_json::Value) -> (r: Vec<DeviceInfo>)
    ensures
        device_views(r@) == json_devices(json_view(*v)),
{
    let mut out: Vec<DeviceInfo> = Vec::new();
    let rows = match value_as_array(v) {
        Some(a) => a,
        None => {
            assert(device_views(out@) =~= Seq::<DeviceView>::empty());
            return out;
        },
    };
    let ghost rv = json_views(rows@);
    let mut i: usize = 0;
    while i < rows.len()
        invariant
            rv == json_views(rows@),
            i <= rows@.len(),
            device_views(out@) == rows_devices(rv.take(i as int)),
        decreases rows@.len() - i,
    {
        let row = &rows[i];
        assert(rv.take(i + 1).drop_last() =~= rv.take(i as int));
        assert(rv.take(i + 1).last() == json_view(*row));
        let ghost prev = out@;
        match str_field_of(row, "id") {
            Some(id) => {
                let is_supported = match bool_field_of(row, "isSupported") {
                    Some(b) => b,
                    None => true,
                };
                let d = DeviceInfo {
                    id,
                    name: str_field_of(row, "name"),
                    is_supported,
                    target_platform: str_field_of(row, "targetPlatform"),
                    emulator: bool_field_of(row, "emulator"),
                    sdk: str_field_of(row, "sdk"),
                };
                out.push(d);
                assert(device_views(out@) =~= device_views(prev).push(d@));
            },
            None => {},
        }
        i += 1;
    }
    assert(rv.take(rows@.len() as int) =~= rv);
    out
}

/// Reads the devices listed in the output of `flutter devices --machine`.
pub fn parse_flutter_devices_machine(stdout: &[u8]) -> (r: Vec<DeviceInfo>)
    ensures
        device_views(r@) == machine_devices(stdout@),
{
    let s = utf8_lossy(stdout);
    let t = trim_str(s.as_str());
    match json_parse(t) {
        Ok(v) => devices_from_json(&v),
        Err(_) => {
            let out: Vec<DeviceInfo> = Vec::new();
            assert(device_views(out@) =~= Seq::<DeviceView>::empty());
            out
        },
    }
}

fn push_nonempty_strings(out: &mut Vec<String>, list: Option<&serde_json::Value>)
    ensures
        string_views(final(out)@) == string_views(old(out)@) + match list {
            Some(l) => match json_view(*l) {
                JsonView::Array(items) => nonempty_strings(items),
                _ => Seq::empty(),
            },
            None => Seq::empty(),
        },
{
    let l = match list {
        Some(l) => l,
        None => {
            assert(string_views(out@) =~= string_views(out@) + Seq::<Seq<char>>::empty());
            return ;
        },
    };
    let items = match value_as_array(l) {
        Some(a) => a,
        None => {
            assert(string_views(out@) =~= string_views(out@) + Seq::<Seq<char>>::empty());
            return ;
        },
    };
    let ghost start = string_views(out@);
    let ghost iv = json_views(items@);
    let mut i: usize = 0;
    while i < items.len()
        invariant
            iv == json_views(items@),
            i <= items@.len(),
            string_views(out@) == start + nonempty_strings(iv.take(i as int)),
        decreases items@.len() - i,
    {
        assert(iv.take(i + 1).drop_last() =~= iv.take(i as int));
        let ghost prev = out@;
        match value_as_str(&items[i]) {
            Some(s) => {
                if s.unicode_len() > 0 {
                    out.push(String::from_str(s));
                    assert(string_views(out@) =~= string_views(prev).push(s@));
                }
            },
            None => {},
        }
        i += 1;
    }
    assert(iv.take(items@.len() as int) =~= iv);
}

/// The candidates that a parsed `.zed/flutter_devices.json` names for the host:
/// its non-empty `default_device_id`, then the non-empty fallbacks under
/// `fallback_device_ids` for the host's platform, then those for `all`.
pub fn store_candidates_of(store: &serde_json::Value, os: HostOs) -> (r: Vec<String>)
    ensures
        string_views(r@) == store_candidates(json_view(*store), platform_key(os)),
{
    let mut out: Vec<String> = Vec::new();
    let key = json_platform_key(os);
    match value_get(store, "default_device_id") {
        Some(d) => match value_as_str(d) {
            Some(id) => {
                if id.unicode_len() > 0 {
                    out.push(String::from_str(id));
                }
            },
            None => {},
        },
        None => {},
    }
    match value_get(store, "fallback_device_ids") {
        Some(fb) => {
            if value_is_object(fb) {
                push_nonempty_strings(&mut out, value_get(fb, key));
                push_nonempty_strings(&mut out, value_get(fb, "all"));
            }
        },
        None => {},
    }
    assert(string_views(out@) =~= store_candidates(json_view(*store), platform_key(os)));
    out
}

/// The persisted device candidates, in order of preference: from the text of
/// `.zed/flutter_devices.json` its `default_device_id`, the fallbacks of the
/// host's platform and those for `all`; then the first line of the legacy
/// `.zed/flutter_device_id`.
pub fn persisted_device_candidates(
    store_text: Option<&str>,
    legacy_line: Option<&str>,
    os: HostOs,
) -> (r: Vec<String>)
    ensures
        string_views(r@) == device_candidates(
            opt_str_view(store_text),
            opt_str_view(legacy_line),
            platform_key(os),
        ),
{
    let mut out: Vec<String> = match store_text {
        Some(txt) => match json_parse(txt) {
            Ok(v) => store_candidates_of(&v, os),
            Err(_) => Vec::new(),
        },
        None => Vec::new(),
    };
    assert(string_views(out@) =~= match opt_str_view(store_text) {
        Some(t) => match parsed_json(t) {
            Ok(v) => store_candidates(v, platform_key(os)),
            Err(_) => Seq::empty(),
        },
        None => Seq::<Seq<char>>::empty(),
    });
    match legacy_line {
        Some(l) => {
            let ghost prev = out@;
            out.push(String::from_str(l));
            assert(string_views(out@) =~= string_views(prev).push(l@));
        },
        None => {},
    }
    out
}

fn str_or_null_json(o: &Option<String>) -> (r: serde_json::Value)
    ensures
        json_view(r) == str_or_null(opt_view(*o)),
{
    match o {
        Some(s) => json_string(s.clone()),
        None => json_null(),
    }
}

fn bool_or_null_json(o: Option<bool>) -> (r: serde_json::Value)
    ensures
        json_view(r) == bool_or_null(o),
{
    match o {
        Some(b) => json_bool(b),
        None => json_null(),
    }
}

fn device_entry_json(d: &DeviceInfo) -> (r: serde_json::Value)
    ensures
        json_view(r) == device_entry(d@),
{
    let mut m = json_map_new();
    json_map_insert(&mut m, String::from_str("name"), str_or_null_json(&d.name));
    json_map_insert(&mut m, String::from_str("is_supported"), json_bool(d.is_supported));
    json_map_insert(&mut m, String::from_str("target_platform"), str_or_null_json(&d.target_platform));
    json_map_insert(&mut m, String::from_str("emulator"), bool_or_null_json(d.emulator));
    json_map_insert(&mut m, String::from_str("sdk"), str_or_null_json(&d.sdk));
    assert(json_map_view(m) =~= match device_entry(d@) {
        JsonView::Object(e) => e,
        _ => Map::empty(),
    });
    json_object(m)
}

/// Every field of an object nests no deeper than two levels of objects and
/// holds no floating-point number or array but of strings.
pub open spec fn nested_fields(m: Map<Seq<char>, JsonView>) -> bool {
    forall|k: Seq<char>| #[trigger] m.contains_key(k) ==> crate::json::json_nested(m[k])
}

proof fn lemma_device_store_shallow(
    prior: Option<Seq<char>>,
    selected: Seq<char>,
    devices: Seq<DeviceView>,
)
    requires
        nested_fields(prior_fields(prior)),
    ensures
        json_shallow(device_store(prior, selected, devices)),
{
    let ls = last_seen(devices);
    assert forall|k: Seq<char>| #[trigger] ls.contains_key(k) implies crate::json::json_flat(ls[k]) by {
        lemma_last_seen_entries(devices, k);
    }
    assert(crate::json::json_nested(JsonView::Object(ls)));
}

proof fn lemma_last_seen_entries(devices: Seq<DeviceView>, k: Seq<char>)
    ensures
        last_seen(devices).contains_key(k) ==> crate::json::json_flat(last_seen(devices)[k]),
    decreases devices.len(),
{
    if devices.len() > 0 {
        lemma_last_seen_entries(devices.drop_last(), k);
        let d = devices.last();
        let e = device_entry(d);
        if let JsonView::Object(m) = e {
            assert forall|j: Seq<char>| #[trigger] m.contains_key(j) implies crate::json::json_scalar(
                m[j],
            ) by {}
        }
    }
}

/// The text of `.zed/flutter_devices.json` after choosing `selected_id`: the
/// store as it was (`prior_store`, its text, where it is a JSON object) with
/// `default_device_id` set to the choice and `last_seen` to the listed devices;
/// its other fields, such as `fallback_device_ids`, stay.  Where the fields of
/// the old store nest no deeper than two levels of objects and hold no
/// floating-point number, the text reads back as the new contents.
pub fn device_store_json(prior_store: Option<&str>, selected_id: &str, devices: &[DeviceInfo]) -> (r:
    Option<String>)
    ensures
        r is Some,
        r matches Some(t) ==> t@ == json_pretty_text(
            device_store(opt_str_view(prior_store), selected_id@, device_views(devices@)),
        ),
        r matches Some(t) ==> (nested_fields(prior_fields(opt_str_view(prior_store))) ==> parsed_json(
            t@,
        ) == Ok::<JsonView, Seq<char>>(
            device_store(opt_str_view(prior_store), selected_id@, device_views(devices@)),
        )),
{
    let ghost dv = device_views(devices@);
    let ghost prior = opt_str_view(prior_store);
    let mut seen = json_map_new();
    let mut i: usize = 0;
    while i < devices.len()
        invariant
            dv == device_views(devices@),
            i <= devices@.len(),
            json_map_view(seen) == last_seen(dv.take(i as int)),
        decreases devices@.len() - i,
    {
        let d = &devices[i];
        json_map_insert(&mut seen, d.id.clone(), device_entry_json(d));
        assert(dv.take(i + 1).drop_last() =~= dv.take(i as int));
        assert(dv.take(i + 1).last() == d@);
        i += 1;
    }
    assert(dv.take(devices@.len() as int) =~= dv);
    let mut top = match prior_store {
        Some(t) => match json_parse(t) {
            Ok(v) => match value_into_object(v) {
                Some(m) => m,
                None => json_map_new(),
            },
            Err(_) => json_map_new(),
        },
        None => json_map_new(),
    };
    assert(json_map_view(top) =~= prior_fields(prior));
    json_map_insert(&mut top, String::from_str("default_device_id"), json_string(String::from_str(selected_id)));
    json_map_insert(&mut top, String::from_str("last_seen"), json_object(seen));
    let store = json_object(top);
    assert(json_view(store) == device_store(prior, selected_id@, dv)) by {
        assert(json_map_view(top) =~= match device_store(prior, selected_id@, dv) {
            JsonView::Object(m) => m,
            _ => Map::empty(),
        });
    }
    proof {
        if nested_fields(prior_fields(prior)) {
            lemma_device_store_shallow(prior, selected_id@, dv);
        }
    }
    json_to_string_pretty(&store)
}

/// The device a debug session uses, with the devices that were listed.
pub struct ResolvedDevice {
    pub id: Option<String>,
    pub devices: Vec<DeviceInfo>,
}

/// The view of a [`ResolvedDevice`].
pub struct ResolvedView {
    pub id: Option<Seq<char>>,
    pub devices: Seq<DeviceView>,
}

impl View for ResolvedDevice {
    type V = ResolvedView;

    open spec fn view(&self) -> ResolvedView {
        ResolvedView { id: opt_view(self.id), devices: device_views(self.devices@) }
    }
}

/// The first step of resolving a device: either the device is known, or the
/// editor has to read the persisted choice in `cwd` and list the devices there
/// (through FVM where `use_fvm`), then call [`finish_device_resolution`].
pub enum DeviceProbe {
    Resolved(ResolvedDevice),
    Probe { cwd: String, use_fvm: bool },
}

/// The outcome of a device resolution: the device, and the text to write to
/// `.zed/flutter_devices.json` where the choice is to be remembered.
pub struct DeviceChoice {
    pub resolved: ResolvedDevice,
    pub store: Option<String>,
}

/// Starts resolving the device of a debug session: a device named on the task
/// stands; without a task directory there is none; otherwise the persisted
/// choice and the device list of that directory decide.
pub fn resolve_device_for_debug(from_task_args: Option<String>, cwd: Option<&str>, use_fvm: bool) -> (r:
    DeviceProbe)
    ensures
        match from_task_args {
            Some(id) => r matches DeviceProbe::Resolved(d) && d@.id == Some(id@)
                && d@.devices.len() == 0,
            None => match cwd {
                None => r matches DeviceProbe::Resolved(d) && d@.id is None && d@.devices.len()
                    == 0,
                Some(c) => r matches DeviceProbe::Probe { cwd: dir, use_fvm: fvm } && dir@ == c@
                    && fvm == use_fvm,
            },
        },
{
    if let Some(id) = from_task_args {
        let devices: Vec<DeviceInfo> = Vec::new();
        return DeviceProbe::Resolved(ResolvedDevice { id: Some(id), devices });
    }
    match cwd {
        None => {
            let devices: Vec<DeviceInfo> = Vec::new();
            DeviceProbe::Resolved(ResolvedDevice { id: None, devices })
        },
        Some(c) => DeviceProbe::Probe { cwd: String::from_str(c), use_fvm },
    }
}

fn has_device(devices: &[DeviceInfo], id: &str) -> (r: bool)
    ensures
        r == device_ids(device_views(devices@)).contains(id@),
{
    let ghost ids = device_ids(device_views(devices@));
    let mut i: usize = 0;
    while i < devices.len()
        invariant
            ids == device_ids(device_views(devices@)),
            i <= devices@.len(),
            forall|j: int| 0 <= j < i ==> ids[j] != id@,
        decreases devices@.len() - i,
    {
        if str_eq(devices[i].id.as_str(), id) {
            assert(ids[i as int] == id@);
            return true;
        }
        i += 1;
    }
    false
}

fn first_of(v: &Vec<String>) -> (r: Option<String>)
    ensures
        opt_view(r) == (if v@.len() > 0 {
            Some(v@[0]@)
        } else {
            None
        }),
{
    if v.len() > 0 {
        Some(v[0].clone())
    } else {
        None
    }
}

/// Finishes resolving the device from the persisted candidates (in order of
/// preference) and the output of `flutter devices --machine` (`None` where it
/// could not be run): see [`chosen_device`].  Where devices are listed, the
/// choice is remembered in the store text, made from the store as it was
/// (`prior_store`, the text of `.zed/flutter_devices.json` where there is one).
pub fn finish_device_resolution(
    persisted: Vec<String>,
    prior_store: Option<&str>,
    machine_stdout: Option<&[u8]>,
) -> (r: DeviceChoice)
    ensures
        ({
            let devs = match machine_stdout {
                Some(o) => machine_devices(o@),
                None => Seq::empty(),
            };
            &&& r.resolved@.devices == devs
            &&& r.resolved@.id == chosen_device(string_views(persisted@), devs)
            &&& r.store is Some <==> devs.len() > 0
            &&& r.store matches Some(t) ==> (r.resolved@.id matches Some(sel) && t@
                == json_pretty_text(device_store(opt_str_view(prior_store), sel, devs)) && (
            nested_fields(prior_fields(opt_str_view(prior_store))) ==> parsed_json(t@) == Ok::<
                JsonView,
                Seq<char>,
            >(device_store(opt_str_view(prior_store), sel, devs))))
        }),
{
    let ghost cands = string_views(persisted@);
    let devices = match machine_stdout {
        Some(out) => parse_flutter_devices_machine(out),
        None => {
            let devices: Vec<DeviceInfo> = Vec::new();
            assert(device_views(devices@) =~= Seq::<DeviceView>::empty());
            return DeviceChoice {
                resolved: ResolvedDevice { id: first_of(&persisted), devices },
                store: None,
            };
        },
    };
    let ghost dv = device_views(devices@);
    let ghost devs = match machine_stdout {
        Some(o) => machine_devices(o@),
        None => Seq::empty(),
    };
    assert(dv == devs);
    if devices.len() == 0 {
        return DeviceChoice {
            resolved: ResolvedDevice { id: first_of(&persisted), devices },
            store: None,
        };
    }
    let mut j: usize = 0;
    while j < persisted.len()
        invariant
            cands == string_views(persisted@),
            dv == device_views(devices@),
            dv == devs,
            devs == match machine_stdout {
                Some(o) => machine_devices(o@),
                None => Seq::empty(),
            },
            dv.len() > 0,
            j <= persisted@.len(),
            first_listed_from(cands, device_ids(dv), 0) == first_listed_from(
                cands,
                device_ids(dv),
                j as int,
            ),
        decreases persisted@.len() - j,
    {
        let candidate = persisted[j].as_str();
        if has_device(devices.as_slice(), candidate) {
            let store = device_store_json(prior_store, candidate, devices.as_slice());
            let id = Some(String::from_str(candidate));
            return DeviceChoice { resolved: ResolvedDevice { id, devices }, store };
        }
        j += 1;
    }
    let mut k: usize = 0;
    while k < devices.len()
        invariant
            dv == device_views(devices@),
            dv == devs,
            devs == match machine_stdout {
                Some(o) => machine_devices(o@),
                None => Seq::empty(),
            },
            dv.len() > 0,
            cands == string_views(persisted@),
            first_listed_from(cands, device_ids(dv), 0) is None,
            k <= devices@.len(),
            first_supported_from(dv, 0) == first_supported_from(dv, k as int),
        decreases devices@.len() - k,
    {
        if devices[k].is_supported {
            let selected = devices[k].id.clone();
            let store = device_store_json(prior_store, selected.as_str(), devices.as_slice());
            return DeviceChoice { resolved: ResolvedDevice { id: Some(selected), devices }, store };
        }
        k += 1;
    }
    let selected = devices[0].id.clone();
    let store = device_store_json(prior_store, selected.as_str(), devices.as_slice());
    DeviceChoice { resolved: ResolvedDevice { id: Some(selected), devices }, store }
}

proof fn lemma_first_listed_from(cands: Seq<Seq<char>>, ids: Seq<Seq<char>>, i: int)
    requires
        0 <= i,
    ensures
        first_listed_from(cands, ids, i) matches Some(c) ==> ids.contains(c),
    decreases cands.len() - i,
{
    if i < cands.len() && !ids.contains(cands[i]) {
        lemma_first_listed_from(cands, ids, i + 1);
    }
}

proof fn lemma_first_supported_from(devices: Seq<DeviceView>, i: int)
    requires
        0 <= i,
    ensures
        first_supported_from(devices, i) matches Some(id) ==> device_ids(devices).contains(id),
    decreases devices.len() - i,
{
    if i < devices.len() {
        if devices[i].is_supported {
            assert(device_ids(devices)[i] == devices[i].id);
        } else {
            lemma_first_supported_from(devices, i + 1);
        }
    }
}

proof fn lemma_first_listed_none(cands: Seq<Seq<char>>, ids: Seq<Seq<char>>, i: int)
    requires
        0 <= i,
        forall|j: int| 0 <= j < cands.len() ==> !ids.contains(cands[j]),
    ensures
        first_listed_from(cands, ids, i) is None,
    decreases cands.len() - i,
{
    if i < cands.len() {
        lemma_first_listed_none(cands, ids, i + 1);
    }
}

proof fn lemma_first_supported_at(devices: Seq<DeviceView>, i: int, k: int)
    requires
        0 <= k <= i < devices.len(),
        devices[i].is_supported,
        forall|j: int| 0 <= j < i ==> !devices[j].is_supported,
    ensures
        first_supported_from(devices, k) == Some(devices[i].id),
    decreases i - k,
{
    if k < i {
        lemma_first_supported_at(devices, i, k + 1);
    }
}

proof fn lemma_first_supported_none(devices: Seq<DeviceView>, k: int)
    requires
        0 <= k,
        forall|j: int| 0 <= j < devices.len() ==> !devices[j].is_supported,
    ensures
        first_supported_from(devices, k) is None,
    decreases devices.len() - k,
{
    if k < devices.len() {
        lemma_first_supported_none(devices, k + 1);
    }
}

/// With no persisted candidate still listed, the device chosen is the first
/// listed device that `flutter devices` reports as supported, emulator or not;
/// only where none is supported, the first listed device.
pub proof fn unlisted_candidates_fall_back_to_first_supported(
    cands: Seq<Seq<char>>,
    devices: Seq<DeviceView>,
)
    requires
        devices.len() > 0,
        forall|i: int, j: int|
            0 <= i < devices.len() && 0 <= j < cands.len() ==> #[trigger] devices[i].id != #[trigger] cands[j],
    ensures
        forall|i: int|
            0 <= i < devices.len() && devices[i].is_supported && (forall|j: int|
                0 <= j < i ==> !devices[j].is_supported) ==> chosen_device(cands, devices) == Some(
                devices[i].id,
            ),
        (forall|i: int| 0 <= i < devices.len() ==> !devices[i].is_supported) ==> chosen_device(
            cands,
            devices,
        ) == Some(devices[0].id),
{
    let ids = device_ids(devices);
    assert forall|j: int| 0 <= j < cands.len() implies !ids.contains(cands[j]) by {
        if ids.contains(cands[j]) {
            let i = choose|i: int| 0 <= i < ids.len() && ids[i] == cands[j];
            assert(devices[i].id == cands[j]);
        }
    }
    lemma_first_listed_none(cands, ids, 0);
    assert forall|i: int|
        0 <= i < devices.len() && devices[i].is_supported && (forall|j: int|
            0 <= j < i ==> !devices[j].is_supported) implies chosen_device(cands, devices) == Some(
        devices[i].id,
    ) by {
        lemma_first_supported_at(devices, i, 0);
    }
    if forall|i: int| 0 <= i < devices.len() ==> !devices[i].is_supported {
        lemma_first_supported_none(devices, 0);
    }
}

/// Whenever devices are listed, the chosen device is one of them.
pub proof fn chosen_device_is_listed(cands: Seq<Seq<char>>, devices: Seq<DeviceView>)
    requires
        devices.len() > 0,
    ensures
        chosen_device(cands, devices) matches Some(id) && device_ids(devices).contains(id),
{
    lemma_first_listed_from(cands, device_ids(devices), 0);
    lemma_first_supported_from(devices, 0);
    assert(device_ids(devices)[0] == devices[0].id);
}

/// The most preferred persisted device is chosen whenever it is still listed.
pub proof fn listed_persisted_device_wins(cands: Seq<Seq<char>>, devices: Seq<DeviceView>)
    requires
        cands.len() > 0,
        device_ids(devices).contains(cands[0]),
    ensures
        chosen_device(cands, devices) == Some(cands[0]),
{
}

/// Writing the device store changes only `default_device_id` and `last_seen`:
/// every other field of the store as it was, such as `fallback_device_ids`,
/// stays as it was.
pub proof fn device_store_keeps_other_fields(
    prior: Option<Seq<char>>,
    selected: Seq<char>,
    devices: Seq<DeviceView>,
    key: Seq<char>,
)
    requires
        key != "default_device_id"@,
        key != "last_seen"@,
    ensures
        json_get(device_store(prior, selected, devices), key) == json_get(
            JsonView::Object(prior_fields(prior)),
            key,
        ),
{
}

/// The device store remembers the choice: read back, it names the chosen device
/// first, so that a later resolution chooses the same device while it is still
/// listed.
pub proof fn stored_choice_is_chosen_again(
    prior: Option<Seq<char>>,
    selected: Seq<char>,
    devices: Seq<DeviceView>,
    legacy_line: Option<Seq<char>>,
    key: Seq<char>,
    store_text: Seq<char>,
)
    requires
        parsed_json(store_text) == Ok::<JsonView, Seq<char>>(device_store(prior, selected, devices)),
        selected.len() > 0,
        device_ids(devices).contains(selected),
    ensures
        device_candidates(Some(store_text), legacy_line, key).len() > 0,
        device_candidates(Some(store_text), legacy_line, key)[0] == selected,
        chosen_device(device_candidates(Some(store_text), legacy_line, key), devices) == Some(
            selected,
        ),
{
    reveal_strlit("default_device_id");
    reveal_strlit("last_seen");
    let store = device_store(prior, selected, devices);
    assert("default_device_id"@.len() != "last_seen"@.len());
    assert(str_field(store, "default_device_id"@) == Some(selected));
    let sc = store_candidates(store, key);
    assert(sc.len() > 0 && sc[0] == selected);
    let cands = device_candidates(Some(store_text), legacy_line, key);
    assert(cands[0] == selected);
    listed_persisted_device_wins(cands, devices);
}

} // verus!
