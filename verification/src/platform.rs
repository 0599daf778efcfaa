//! Devices as `flutter devices --machine` lists them, and the debug adapter's
//! `platform` field inferred from a device.

use vstd::prelude::*;

use crate::args::opt_str_view;
use crate::text::{ascii_lower, contains_seq, contains_str, str_eq, to_ascii_lowercase};

verus! {

/// One row of `flutter devices --machine`.
#[derive(Clone, Debug)]
pub struct DeviceInfo {
    pub id: String,
    pub name: Option<String>,
    pub is_supported: bool,
    pub target_platform: Option<String>,
    pub emulator: Option<bool>,
    pub sdk: Option<String>,
}

/// The view of a [`DeviceInfo`].
pub struct DeviceView {
    pub id: Seq<char>,
    pub name: Option<Seq<char>>,
    pub is_supported: bool,
    pub target_platform: Option<Seq<char>>,
    pub emulator: Option<bool>,
    pub sdk: Option<Seq<char>>,
}

impl View for DeviceInfo {
    type V = DeviceView;

    open spec fn view(&self) -> DeviceView {
        DeviceView {
            id: self.id@,
            name: crate::args::opt_view(self.name),
            is_supported: self.is_supported,
            target_platform: crate::args::opt_view(self.target_platform),
            emulator: self.emulator,
            sdk: crate::args::opt_view(self.sdk),
        }
    }
}

/// The views of a list of devices.
pub open spec fn device_views(devices: Seq<DeviceInfo>) -> Seq<DeviceView> {
    devices.map_values(|d: DeviceInfo| d@)
}

/// The platform that a well-known device id stands for.
pub open spec fn platform_of_id(id: Seq<char>) -> Option<Seq<char>> {
    if id == "chrome"@ || id == "edge"@ || id == "web-server"@ || id == "wasm_release"@ || id
        == "wasm_debug"@ {
        Some("web"@)
    } else if id == "linux"@ || id == "windows"@ || id == "macos"@ {
        Some("desktop"@)
    } else {
        None
    }
}

/// The platform that a `targetPlatform` value stands for, ignoring ASCII case.
pub open spec fn platform_of_target(target_platform: Seq<char>) -> Option<Seq<char>> {
    let tp = ascii_lower(target_platform);
    if contains_seq(tp, "web"@) {
        Some("web"@)
    } else if contains_seq(tp, "linux"@) || contains_seq(tp, "windows"@) || contains_seq(
        tp,
        "darwin"@,
    ) || contains_seq(tp, "macos"@) {
        Some("desktop"@)
    } else {
        None
    }
}

/// The first device from position `i` whose id is `id`.
pub open spec fn find_device_from(devices: Seq<DeviceView>, id: Seq<char>, i: int) -> Option<
    DeviceView,
>
    decreases devices.len() - i,
{
    if i < 0 || i >= devices.len() {
        None
    } else if devices[i].id == id {
        Some(devices[i])
    } else {
        find_device_from(devices, id, i + 1)
    }
}

/// The first device whose id is `id`.
pub open spec fn find_device(devices: Seq<DeviceView>, id: Seq<char>) -> Option<DeviceView> {
    find_device_from(devices, id, 0)
}

/// The platform of the chosen device: from the `targetPlatform` of the first
/// listed device with that id where it names one, else from the id itself.
pub open spec fn device_platform(device_id: Option<Seq<char>>, devices: Seq<DeviceView>) -> Option<
    Seq<char>,
> {
    match device_id {
        None => None,
        Some(id) => match find_device(devices, id) {
            Some(d) => match d.target_platform {
                Some(tp) => match platform_of_target(tp) {
                    Some(p) => Some(p),
                    None => platform_of_id(id),
                },
                None => platform_of_id(id),
            },
            None => platform_of_id(id),
        },
    }
}

/// A device that `flutter devices --machine` does not list gets the platform
/// its id stands for: the desktop targets `linux`, `windows` and `macos` are
/// `desktop`, the browser targets `chrome`, `edge`, `web-server`,
/// `wasm_release` and `wasm_debug` are `web`, and every other id has none.
pub proof fn unlisted_device_platform(id: Seq<char>, devices: Seq<DeviceView>)
    requires
        forall|i: int| 0 <= i < devices.len() ==> devices[i].id != id,
    ensures
        (id == "linux"@ || id == "windows"@ || id == "macos"@) ==> device_platform(Some(id), devices) == Some("desktop"@),
        (id == "chrome"@ || id == "edge"@ || id == "web-server"@ || id == "wasm_release"@ || id == "wasm_debug"@) ==> device_platform(Some(id), devices) == Some("web"@),
        !(id == "linux"@ || id == "windows"@ || id == "macos"@ || id == "chrome"@ || id == "edge"@ || id == "web-server"@ || id == "wasm_release"@ || id == "wasm_debug"@) ==> device_platform(Some(id), devices) is None,
{
    reveal_strlit("chrome");
    reveal_strlit("edge");
    reveal_strlit("web-server");
    reveal_strlit("wasm_release");
    reveal_strlit("wasm_debug");
    reveal_strlit("linux");
    reveal_strlit("windows");
    reveal_strlit("macos");
    reveal_strlit("web");
    reveal_strlit("desktop");
    assert("web"@.len() != "desktop"@.len());
    assert("linux"@.len() != "chrome"@.len());
    assert("linux"@.len() != "edge"@.len());
    assert("linux"@.len() != "web-server"@.len());
    assert("linux"@.len() != "wasm_release"@.len());
    assert("linux"@.len() != "wasm_debug"@.len());
    assert("windows"@.len() != "chrome"@.len());
    assert("windows"@.len() != "edge"@.len());
    assert("windows"@.len() != "web-server"@.len());
    assert("windows"@.len() != "wasm_release"@.len());
    assert("windows"@.len() != "wasm_debug"@.len());
    assert("macos"@.len() != "chrome"@.len());
    assert("macos"@.len() != "edge"@.len());
    assert("macos"@.len() != "web-server"@.len());
    assert("macos"@.len() != "wasm_release"@.len());
    assert("macos"@.len() != "wasm_debug"@.len());
    lemma_find_device_absent(devices, id, 0);
}

proof fn lemma_find_device_absent(devices: Seq<DeviceView>, id: Seq<char>, i: int)
    requires
        0 <= i,
        forall|j: int| 0 <= j < devices.len() ==> devices[j].id != id,
    ensures
        find_device_from(devices, id, i) is None,
    decreases devices.len() - i,
{
    if i < devices.len() {
        lemma_find_device_absent(devices, id, i + 1);
    }
}

/// A listed device whose `targetPlatform` names a browser or a desktop system
/// (in any ASCII case) gets that platform, whatever its id.
pub proof fn listed_device_platform(id: Seq<char>, devices: Seq<DeviceView>, i: int)
    requires
        0 <= i < devices.len(),
        devices[i].id == id,
        forall|j: int| 0 <= j < i ==> devices[j].id != id,
        devices[i].target_platform matches Some(tp) && contains_seq(ascii_lower(tp), "web"@),
    ensures
        device_platform(Some(id), devices) == Some("web"@),
{
    lemma_find_device_first(devices, id, i, 0);
}

proof fn lemma_find_device_first(devices: Seq<DeviceView>, id: Seq<char>, i: int, k: int)
    requires
        0 <= k <= i < devices.len(),
        devices[i].id == id,
        forall|j: int| 0 <= j < i ==> devices[j].id != id,
    ensures
        find_device_from(devices, id, k) == Some(devices[i]),
    decreases i - k,
{
    if k < i {
        lemma_find_device_first(devices, id, i, k + 1);
    }
}

/// The platform that a well-known device id stands for: `web` for browsers,
/// `desktop` for desktop targets.
pub fn infer_platform(device: Option<&str>) -> (r: Option<&'static str>)
    ensures
        opt_str_view(r) == match device {
            Some(d) => platform_of_id(d@),
            None => None,
        },
{
    let d = match device {
        Some(d) => d,
        None => return None,
    };
    if str_eq(d, "chrome") || str_eq(d, "edge") || str_eq(d, "web-server") || str_eq(
        d,
        "wasm_release",
    ) || str_eq(d, "wasm_debug") {
        Some("web")
    } else if str_eq(d, "linux") || str_eq(d, "windows") || str_eq(d, "macos") {
        Some("desktop")
    } else {
        None
    }
}

/// The platform that a `targetPlatform` value of `flutter devices --machine`
/// stands for, ignoring ASCII case.
pub fn infer_platform_from_target_platform(target_platform: &str) -> (r: Option<&'static str>)
    ensures
        opt_str_view(r) == platform_of_target(target_platform@),
{
    let tp = to_ascii_lowercase(target_platform);
    let tp = tp.as_str();
    if contains_str(tp, "web") {
        Some("web")
    } else if contains_str(tp, "linux") || contains_str(tp, "windows") || contains_str(tp, "darwin")
        || contains_str(tp, "macos") {
        Some("desktop")
    } else {
        None
    }
}

/// The platform of the chosen device, preferring what `flutter devices --machine`
/// reported for it over what its id suggests.
pub fn platform_for_device(device_id: Option<&str>, devices: &[DeviceInfo]) -> (r: Option<
    &'static str,
>)
    ensures
        opt_str_view(r) == device_platform(opt_str_view(device_id), device_views(devices@)),
{
    let id = match device_id {
        Some(id) => id,
        None => return None,
    };
    let ghost dv = device_views(devices@);
    let mut i: usize = 0;
    while i < devices.len()
        invariant
            dv == device_views(devices@),
            device_id == Some(id),
            i <= devices@.len(),
            find_device(dv, id@) == find_device_from(dv, id@, i as int),
        decreases devices@.len() - i,
    {
        let d = &devices[i];
        if str_eq(d.id.as_str(), id) {
            assert(find_device(dv, id@) == Some(dv[i as int]));
            match &d.target_platform {
                Some(tp) => {
                    match infer_platform_from_target_platform(tp.as_str()) {
                        Some(p) => return Some(p),
                        None => {},
                    }
                },
                None => {},
            }
            return infer_platform(Some(id));
        }
        i += 1;
    }
    infer_platform(Some(id))
}

/// The operating system the editor runs on.
pub enum HostOs {
    Mac,
    Linux,
    Windows,
}

/// The key under `fallback_device_ids` that holds the fallbacks of a host.
pub open spec fn platform_key(os: HostOs) -> Seq<char> {
    match os {
        HostOs::Mac => "mac"@,
        HostOs::Linux => "linux"@,
        HostOs::Windows => "windows"@,
    }
}

/// The key under `fallback_device_ids` in `.zed/flutter_devices.json` that holds
/// the fallbacks of the host's platform.
pub fn json_platform_key(os: HostOs) -> (r: &'static str)
    ensures
        r@ == platform_key(os),
{
    match os {
        HostOs::Mac => "mac",
        HostOs::Linux => "linux",
        HostOs::Windows => "windows",
    }
}

/// ASCII case does not change the platform inferred from a `targetPlatform`.
pub proof fn platform_of_target_ignores_case(target_platform: Seq<char>)
    ensures
        platform_of_target(ascii_lower(target_platform)) == platform_of_target(target_platform),
{
    let l = ascii_lower(target_platform);
    assert forall|i: int| 0 <= i < l.len() implies #[trigger] ascii_lower(l)[i] == l[i] by {
        let c = target_platform[i];
        assert(l[i] == crate::text::ascii_lower_char(c));
        if 'A' <= c && c <= 'Z' {
            assert(!('A' <= l[i] && l[i] <= 'Z'));
        }
    }
    assert(ascii_lower(l) =~= l);
}

} // verus!
