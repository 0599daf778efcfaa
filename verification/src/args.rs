//! Reading the command line of a `flutter` task: device and target flags, the
//! build mode, the flags handed on to the flutter tool, and the program arguments.

use vstd::prelude::*;
use vstd::slice::slice_subrange;

use crate::text::{
    before_ch, before_char, contains_ch, has_prefix, push_char, starts_with, starts_with_ch,
    starts_with_char, str_eq, strip_prefix,
};

verus! {

/// The characters of each argument.
pub open spec fn str_views(args: Seq<&str>) -> Seq<Seq<char>> {
    args.map_values(|a: &str| a@)
}

/// The characters of each owned argument.
pub open spec fn string_views(args: Seq<String>) -> Seq<Seq<char>> {
    args.map_values(|a: String| a@)
}

/// The characters of an optional owned string.
pub open spec fn opt_view(o: Option<String>) -> Option<Seq<char>> {
    match o {
        Some(s) => Some(s@),
        None => None,
    }
}

/// The characters of an optional borrowed string.
pub open spec fn opt_str_view(o: Option<&str>) -> Option<Seq<char>> {
    match o {
        Some(s) => Some(s@),
        None => None,
    }
}

/// The value given to a flag, scanning from position `i`: the argument after the
/// first `short` or `long`, or the text after `long=`, whichever comes first.
pub open spec fn flag_value_from(
    rest: Seq<Seq<char>>,
    short: Seq<char>,
    long: Seq<char>,
    i: int,
) -> Option<Seq<char>>
    decreases rest.len() - i,
{
    if i < 0 || i >= rest.len() {
        None
    } else if rest[i] == short || rest[i] == long {
        if i + 1 < rest.len() {
            Some(rest[i + 1])
        } else {
            None
        }
    } else if has_prefix(rest[i], long.push('=')) {
        Some(rest[i].skip(long.len() + 1int))
    } else {
        flag_value_from(rest, short, long, i + 1)
    }
}

/// The value that `rest` gives to the flag with spellings `short` and `long`.
pub open spec fn flag_value(rest: Seq<Seq<char>>, short: Seq<char>, long: Seq<char>) -> Option<
    Seq<char>,
> {
    flag_value_from(rest, short, long, 0)
}

/// The value of `-d` / `--device-id`.
pub open spec fn device_flag(rest: Seq<Seq<char>>) -> Option<Seq<char>> {
    flag_value(rest, "-d"@, "--device-id"@)
}

/// The value of `-t` / `--target`.
pub open spec fn target_flag(rest: Seq<Seq<char>>) -> Option<Seq<char>> {
    flag_value(rest, "-t"@, "--target"@)
}

/// The VM Service URI: `--debug-uri`, else a local URI on the `--host-vmservice-port`.
pub open spec fn vm_service_uri_of(rest: Seq<Seq<char>>) -> Option<Seq<char>> {
    match flag_value(rest, ""@, "--debug-uri"@) {
        Some(u) => Some(u),
        None => match flag_value(rest, ""@, "--host-vmservice-port"@) {
            Some(p) => Some("http://127.0.0.1:"@ + p + "/"@),
            None => None,
        },
    }
}

/// The build mode named by the first of `--release`, `--profile`, `--debug` from position `i`.
pub open spec fn profile_mode_from(rest: Seq<Seq<char>>, i: int) -> Option<Seq<char>>
    decreases rest.len() - i,
{
    if i < 0 || i >= rest.len() {
        None
    } else if rest[i] == "--release"@ {
        Some("release"@)
    } else if rest[i] == "--profile"@ {
        Some("profile"@)
    } else if rest[i] == "--debug"@ {
        Some("debug"@)
    } else {
        profile_mode_from(rest, i + 1)
    }
}

/// The build mode that `rest` asks for.
pub open spec fn profile_mode(rest: Seq<Seq<char>>) -> Option<Seq<char>> {
    profile_mode_from(rest, 0)
}

/// The flags that this locator turns into launch fields of their own.
pub open spec fn handled_run_flag(arg: Seq<char>) -> bool {
    ||| arg == "-d"@
    ||| arg == "--device-id"@
    ||| arg == "-t"@
    ||| arg == "--target"@
    ||| arg == "--debug"@
    ||| arg == "--profile"@
    ||| arg == "--release"@
    ||| has_prefix(arg, "--device-id="@)
    ||| has_prefix(arg, "--target="@)
    ||| has_prefix(arg, "--debug-uri="@)
    ||| has_prefix(arg, "--host-vmservice-port="@)
}

/// Handled flags that are followed by a value of their own.
pub open spec fn handled_flag_with_value(arg: Seq<char>) -> bool {
    ||| arg == "-d"@
    ||| arg == "--device-id"@
    ||| arg == "-t"@
    ||| arg == "--target"@
    ||| arg == "--debug-uri"@
    ||| arg == "--host-vmservice-port"@
}

/// Flutter tool flags that take a value.
pub open spec fn tool_flag_takes_value(arg: Seq<char>) -> bool {
    ||| arg == "--flavor"@
    ||| arg == "--dart-define"@
    ||| arg == "--dart-define-from-file"@
    ||| arg == "--web-port"@
    ||| arg == "--web-hostname"@
    ||| arg == "--web-tls-cert-path"@
    ||| arg == "--web-tls-cert-key-path"@
    ||| arg == "--device-user"@
    ||| arg == "--build-number"@
    ||| arg == "--build-name"@
    ||| arg == "--split-debug-info"@
    ||| arg == "--enable-experiment"@
    ||| arg == "--dart-entrypoint-args"@
    ||| has_prefix(arg, "--dart-define="@)
    ||| has_prefix(arg, "--dart-define-from-file="@)
    ||| has_prefix(arg, "--flavor="@)
}

/// The flutter tool flags found from position `i` up to the first `--`: every
/// flag that is not a handled one, with the next argument where the flag takes a
/// value and carries no `=`; handled flags are dropped together with their value,
/// and positional arguments are dropped.
pub open spec fn tool_args_from(rest: Seq<Seq<char>>, i: int) -> Seq<Seq<char>>
    decreases rest.len() + 1 - i,
{
    if i < 0 || i >= rest.len() {
        Seq::empty()
    } else if rest[i] == "--"@ {
        Seq::empty()
    } else if handled_run_flag(rest[i]) {
        if handled_flag_with_value(rest[i]) {
            tool_args_from(rest, i + 2)
        } else {
            tool_args_from(rest, i + 1)
        }
    } else if starts_with_char(rest[i], '-') {
        if tool_flag_takes_value(rest[i]) && !rest[i].contains('=') && i + 1 < rest.len() {
            seq![rest[i], rest[i + 1]] + tool_args_from(rest, i + 2)
        } else {
            seq![rest[i]] + tool_args_from(rest, i + 1)
        }
    } else {
        tool_args_from(rest, i + 1)
    }
}

/// The flutter tool flags of `rest`.
pub open spec fn tool_args(rest: Seq<Seq<char>>) -> Seq<Seq<char>> {
    tool_args_from(rest, 0)
}

/// The position of the first `--` from position `i` on.
pub open spec fn double_dash_from(rest: Seq<Seq<char>>, i: int) -> Option<int>
    decreases rest.len() - i,
{
    if i < 0 || i >= rest.len() {
        None
    } else if rest[i] == "--"@ {
        Some(i)
    } else {
        double_dash_from(rest, i + 1)
    }
}

/// The position of the first `--` in `rest`.
pub open spec fn double_dash(rest: Seq<Seq<char>>) -> Option<int> {
    double_dash_from(rest, 0)
}

proof fn lemma_double_dash_from(rest: Seq<Seq<char>>, i: int)
    requires
        0 <= i,
    ensures
        double_dash_from(rest, i) matches Some(p) ==> i <= p < rest.len() && rest[p] == "--"@,
    decreases rest.len() - i,
{
    if i < rest.len() && rest[i] != "--"@ {
        lemma_double_dash_from(rest, i + 1);
    }
}

/// The first `--` of `rest`, where there is one, is an argument of `rest`.
pub proof fn lemma_double_dash(rest: Seq<Seq<char>>)
    ensures
        double_dash(rest) matches Some(p) ==> 0 <= p < rest.len() && rest[p] == "--"@,
{
    lemma_double_dash_from(rest, 0);
}

/// The arguments before the first `--` (all of them where there is none).
pub open spec fn before_double_dash<T>(rest: Seq<T>, views: Seq<Seq<char>>) -> Seq<T> {
    match double_dash(views) {
        Some(p) => rest.take(p),
        None => rest,
    }
}

/// The arguments after the first `--` (none where there is none).
pub open spec fn after_double_dash<T>(rest: Seq<T>, views: Seq<Seq<char>>) -> Seq<T> {
    match double_dash(views) {
        Some(p) => rest.skip(p + 1),
        None => Seq::empty(),
    }
}

/// The first argument from position `i` that does not start with `-`.
pub open spec fn first_positional_from(rest: Seq<Seq<char>>, i: int) -> Option<Seq<char>>
    decreases rest.len() - i,
{
    if i < 0 || i >= rest.len() {
        None
    } else if !starts_with_char(rest[i], '-') {
        Some(rest[i])
    } else {
        first_positional_from(rest, i + 1)
    }
}

/// The first argument of `rest` that does not start with `-`.
pub open spec fn first_positional(rest: Seq<Seq<char>>) -> Option<Seq<char>> {
    first_positional_from(rest, 0)
}

/// The program that `flutter run` starts: the `-t` / `--target` value, else the
/// first positional argument before `--`, else `lib/main.dart`.
pub open spec fn run_program(rest: Seq<Seq<char>>) -> Seq<char> {
    match target_flag(rest) {
        Some(t) => t,
        None => match first_positional(before_double_dash(rest, rest)) {
            Some(p) => p,
            None => "lib/main.dart"@,
        },
    }
}

/// The test file that `flutter test` runs: the first positional argument, cut at `?`.
pub open spec fn test_program(rest: Seq<Seq<char>>) -> Option<Seq<char>> {
    match first_positional(rest) {
        Some(p) => Some(before_char(p, '?')),
        None => None,
    }
}

/// What a flutter task asks of the debug launch, apart from device and program.
#[derive(Debug)]
pub struct FlutterLaunchOptions {
    pub profile: Option<String>,
    pub tool_args: Vec<String>,
    pub program_args: Vec<String>,
    pub vm_service_uri: Option<String>,
}

/// The view of [`FlutterLaunchOptions`].
pub struct LaunchOptionsView {
    pub profile: Option<Seq<char>>,
    pub tool_args: Seq<Seq<char>>,
    pub program_args: Seq<Seq<char>>,
    pub vm_service_uri: Option<Seq<char>>,
}

impl View for FlutterLaunchOptions {
    type V = LaunchOptionsView;

    open spec fn view(&self) -> LaunchOptionsView {
        LaunchOptionsView {
            profile: opt_view(self.profile),
            tool_args: string_views(self.tool_args@),
            program_args: string_views(self.program_args@),
            vm_service_uri: opt_view(self.vm_service_uri),
        }
    }
}

impl Default for FlutterLaunchOptions {
    fn default() -> (r: Self)
        ensures
            r@.profile is None,
            r@.tool_args.len() == 0,
            r@.program_args.len() == 0,
            r@.vm_service_uri is None,
    {
        FlutterLaunchOptions {
            profile: None,
            tool_args: Vec::new(),
            program_args: Vec::new(),
            vm_service_uri: None,
        }
    }
}

/// The launch options that `rest` (the arguments after the subcommand) asks for:
/// mode, URI and tool flags from the part before `--`, program arguments after it.
pub open spec fn launch_options(rest: Seq<Seq<char>>) -> LaunchOptionsView {
    let tool_part = before_double_dash(rest, rest);
    LaunchOptionsView {
        profile: profile_mode(tool_part),
        tool_args: tool_args(tool_part),
        program_args: after_double_dash(rest, rest),
        vm_service_uri: vm_service_uri_of(tool_part),
    }
}

proof fn lemma_double_dash_after(a: Seq<Seq<char>>, b: Seq<Seq<char>>, i: int)
    requires
        0 <= i <= a.len(),
        !a.contains("--"@),
    ensures
        double_dash_from(a + seq!["--"@] + b, i) == Some(a.len() as int),
    decreases a.len() - i,
{
    let v = a + seq!["--"@] + b;
    if i < a.len() {
        assert(v[i] == a[i]);
        lemma_double_dash_after(a, b, i + 1);
    } else {
        assert(v[i] == "--"@);
    }
}

proof fn lemma_no_double_dash(a: Seq<Seq<char>>, i: int)
    requires
        0 <= i,
        !a.contains("--"@),
    ensures
        double_dash_from(a, i) is None,
    decreases a.len() - i,
{
    if i < a.len() {
        assert(a[i] != "--"@);
        lemma_no_double_dash(a, i + 1);
    }
}

/// Splitting off program arguments with `--` leaves the launch options of the
/// arguments before it as they are: the arguments after the first `--` become
/// the program arguments verbatim (even where they hold `--` or flags), and
/// without `--` there are none.
pub proof fn double_dash_splits_off_program_args(a: Seq<Seq<char>>, b: Seq<Seq<char>>)
    requires
        !a.contains("--"@),
    ensures
        launch_options(a + seq!["--"@] + b).program_args == b,
        launch_options(a).program_args.len() == 0,
        launch_options(a + seq!["--"@] + b).profile == launch_options(a).profile,
        launch_options(a + seq!["--"@] + b).tool_args == launch_options(a).tool_args,
        launch_options(a + seq!["--"@] + b).vm_service_uri == launch_options(a).vm_service_uri,
{
    let v = a + seq!["--"@] + b;
    lemma_double_dash_after(a, b, 0);
    lemma_no_double_dash(a, 0);
    assert(v.take(a.len() as int) =~= a);
    assert(v.skip(a.len() + 1int) =~= b);
}

proof fn lemma_differs_at(s: Seq<char>, p: Seq<char>, i: int)
    requires
        0 <= i < p.len(),
        i < s.len(),
        s[i] != p[i],
    ensures
        !has_prefix(s, p),
{
    if has_prefix(s, p) {
        assert(s.subrange(0, p.len() as int)[i] == s[i]);
    }
}

/// A flutter tool flag that takes a value reaches the tool arguments together
/// with the argument after it, whatever that argument is.
pub proof fn value_flags_keep_their_value(flag: Seq<char>, value: Seq<char>)
    requires
        flag == "--flavor"@ || flag == "--dart-define"@ || flag == "--dart-define-from-file"@ || flag == "--web-port"@ || flag == "--web-hostname"@ || flag == "--web-tls-cert-path"@ || flag == "--web-tls-cert-key-path"@ || flag == "--device-user"@ || flag == "--build-number"@ || flag == "--build-name"@ || flag == "--split-debug-info"@ || flag == "--enable-experiment"@ || flag == "--dart-entrypoint-args"@,
    ensures
        tool_args(seq![flag, value]) == seq![flag, value],
{
    reveal_strlit("-d");
    reveal_strlit("--device-id");
    reveal_strlit("-t");
    reveal_strlit("--target");
    reveal_strlit("--debug");
    reveal_strlit("--profile");
    reveal_strlit("--release");
    reveal_strlit("--device-id=");
    reveal_strlit("--target=");
    reveal_strlit("--debug-uri=");
    reveal_strlit("--host-vmservice-port=");
    reveal_strlit("--");
    if flag == "--flavor"@ {
        reveal_strlit("--flavor");
        assert(!flag.contains('='));
        assert(flag.len() != "-d"@.len());
        assert(flag.len() != "--device-id"@.len());
        assert(flag.len() != "-t"@.len());
        assert(flag[2] != "--target"@[2]);
        assert(flag.len() != "--debug"@.len());
        assert(flag.len() != "--profile"@.len());
        assert(flag.len() != "--release"@.len());
        assert(flag.len() != "--"@.len());
        assert(!has_prefix(flag, "--device-id="@));
        assert(!has_prefix(flag, "--target="@));
        assert(!has_prefix(flag, "--debug-uri="@));
        assert(!has_prefix(flag, "--host-vmservice-port="@));
    }
    if flag == "--dart-define"@ {
        reveal_strlit("--dart-define");
        assert(!flag.contains('='));
        assert(flag.len() != "-d"@.len());
        assert(flag.len() != "--device-id"@.len());
        assert(flag.len() != "-t"@.len());
        assert(flag.len() != "--target"@.len());
        assert(flag.len() != "--debug"@.len());
        assert(flag.len() != "--profile"@.len());
        assert(flag.len() != "--release"@.len());
        assert(flag.len() != "--"@.len());
        lemma_differs_at(flag, "--device-id="@, 3);
        lemma_differs_at(flag, "--target="@, 2);
        lemma_differs_at(flag, "--debug-uri="@, 3);
        assert(!has_prefix(flag, "--host-vmservice-port="@));
    }
    if flag == "--dart-define-from-file"@ {
        reveal_strlit("--dart-define-from-file");
        assert(!flag.contains('='));
        assert(flag.len() != "-d"@.len());
        assert(flag.len() != "--device-id"@.len());
        assert(flag.len() != "-t"@.len());
        assert(flag.len() != "--target"@.len());
        assert(flag.len() != "--debug"@.len());
        assert(flag.len() != "--profile"@.len());
        assert(flag.len() != "--release"@.len());
        assert(flag.len() != "--"@.len());
        lemma_differs_at(flag, "--device-id="@, 3);
        lemma_differs_at(flag, "--target="@, 2);
        lemma_differs_at(flag, "--debug-uri="@, 3);
        lemma_differs_at(flag, "--host-vmservice-port="@, 2);
    }
    if flag == "--web-port"@ {
        reveal_strlit("--web-port");
        assert(!flag.contains('='));
        assert(flag.len() != "-d"@.len());
        assert(flag.len() != "--device-id"@.len());
        assert(flag.len() != "-t"@.len());
        assert(flag.len() != "--target"@.len());
        assert(flag.len() != "--debug"@.len());
        assert(flag.len() != "--profile"@.len());
        assert(flag.len() != "--release"@.len());
        assert(flag.len() != "--"@.len());
        assert(!has_prefix(flag, "--device-id="@));
        lemma_differs_at(flag, "--target="@, 2);
        assert(!has_prefix(flag, "--debug-uri="@));
        assert(!has_prefix(flag, "--host-vmservice-port="@));
    }
    if flag == "--web-hostname"@ {
        reveal_strlit("--web-hostname");
        assert(!flag.contains('='));
        assert(flag.len() != "-d"@.len());
        assert(flag.len() != "--device-id"@.len());
        assert(flag.len() != "-t"@.len());
        assert(flag.len() != "--target"@.len());
        assert(flag.len() != "--debug"@.len());
        assert(flag.len() != "--profile"@.len());
        assert(flag.len() != "--release"@.len());
        assert(flag.len() != "--"@.len());
        lemma_differs_at(flag, "--device-id="@, 2);
        lemma_differs_at(flag, "--target="@, 2);
        lemma_differs_at(flag, "--debug-uri="@, 2);
        assert(!has_prefix(flag, "--host-vmservice-port="@));
    }
    if flag == "--web-tls-cert-path"@ {
        reveal_strlit("--web-tls-cert-path");
        assert(!flag.contains('='));
        assert(flag.len() != "-d"@.len());
        assert(flag.len() != "--device-id"@.len());
        assert(flag.len() != "-t"@.len());
        assert(flag.len() != "--target"@.len());
        assert(flag.len() != "--debug"@.len());
        assert(flag.len() != "--profile"@.len());
        assert(flag.len() != "--release"@.len());
        assert(flag.len() != "--"@.len());
        lemma_differs_at(flag, "--device-id="@, 2);
        lemma_differs_at(flag, "--target="@, 2);
        lemma_differs_at(flag, "--debug-uri="@, 2);
        assert(!has_prefix(flag, "--host-vmservice-port="@));
    }
    if flag == "--web-tls-cert-key-path"@ {
        reveal_strlit("--web-tls-cert-key-path");
        assert(!flag.contains('='));
        assert(flag.len() != "-d"@.len());
        assert(flag.len() != "--device-id"@.len());
        assert(flag.len() != "-t"@.len());
        assert(flag.len() != "--target"@.len());
        assert(flag.len() != "--debug"@.len());
        assert(flag.len() != "--profile"@.len());
        assert(flag.len() != "--release"@.len());
        assert(flag.len() != "--"@.len());
        lemma_differs_at(flag, "--device-id="@, 2);
        lemma_differs_at(flag, "--target="@, 2);
        lemma_differs_at(flag, "--debug-uri="@, 2);
        lemma_differs_at(flag, "--host-vmservice-port="@, 2);
    }
    if flag == "--device-user"@ {
        reveal_strlit("--device-user");
        assert(!flag.contains('='));
        assert(flag.len() != "-d"@.len());
        assert(flag.len() != "--device-id"@.len());
        assert(flag.len() != "-t"@.len());
        assert(flag.len() != "--target"@.len());
        assert(flag.len() != "--debug"@.len());
        assert(flag.len() != "--profile"@.len());
        assert(flag.len() != "--release"@.len());
        assert(flag.len() != "--"@.len());
        lemma_differs_at(flag, "--device-id="@, 9);
        lemma_differs_at(flag, "--target="@, 2);
        lemma_differs_at(flag, "--debug-uri="@, 4);
        assert(!has_prefix(flag, "--host-vmservice-port="@));
    }
    if flag == "--build-number"@ {
        reveal_strlit("--build-number");
        assert(!flag.contains('='));
        assert(flag.len() != "-d"@.len());
        assert(flag.len() != "--device-id"@.len());
        assert(flag.len() != "-t"@.len());
        assert(flag.len() != "--target"@.len());
        assert(flag.len() != "--debug"@.len());
        assert(flag.len() != "--profile"@.len());
        assert(flag.len() != "--release"@.len());
        assert(flag.len() != "--"@.len());
        lemma_differs_at(flag, "--device-id="@, 2);
        lemma_differs_at(flag, "--target="@, 2);
        lemma_differs_at(flag, "--debug-uri="@, 2);
        assert(!has_prefix(flag, "--host-vmservice-port="@));
    }
    if flag == "--build-name"@ {
        reveal_strlit("--build-name");
        assert(!flag.contains('='));
        assert(flag.len() != "-d"@.len());
        assert(flag.len() != "--device-id"@.len());
        assert(flag.len() != "-t"@.len());
        assert(flag.len() != "--target"@.len());
        assert(flag.len() != "--debug"@.len());
        assert(flag.len() != "--profile"@.len());
        assert(flag.len() != "--release"@.len());
        assert(flag.len() != "--"@.len());
        lemma_differs_at(flag, "--device-id="@, 2);
        lemma_differs_at(flag, "--target="@, 2);
        lemma_differs_at(flag, "--debug-uri="@, 2);
        assert(!has_prefix(flag, "--host-vmservice-port="@));
    }
    if flag == "--split-debug-info"@ {
        reveal_strlit("--split-debug-info");
        assert(!flag.contains('='));
        assert(flag.len() != "-d"@.len());
        assert(flag.len() != "--device-id"@.len());
        assert(flag.len() != "-t"@.len());
        assert(flag.len() != "--target"@.len());
        assert(flag.len() != "--debug"@.len());
        assert(flag.len() != "--profile"@.len());
        assert(flag.len() != "--release"@.len());
        assert(flag.len() != "--"@.len());
        lemma_differs_at(flag, "--device-id="@, 2);
        lemma_differs_at(flag, "--target="@, 2);
        lemma_differs_at(flag, "--debug-uri="@, 2);
        assert(!has_prefix(flag, "--host-vmservice-port="@));
    }
    if flag == "--enable-experiment"@ {
        reveal_strlit("--enable-experiment");
        assert(!flag.contains('='));
        assert(flag.len() != "-d"@.len());
        assert(flag.len() != "--device-id"@.len());
        assert(flag.len() != "-t"@.len());
        assert(flag.len() != "--target"@.len());
        assert(flag.len() != "--debug"@.len());
        assert(flag.len() != "--profile"@.len());
        assert(flag.len() != "--release"@.len());
        assert(flag.len() != "--"@.len());
        lemma_differs_at(flag, "--device-id="@, 2);
        lemma_differs_at(flag, "--target="@, 2);
        lemma_differs_at(flag, "--debug-uri="@, 2);
        assert(!has_prefix(flag, "--host-vmservice-port="@));
    }
    if flag == "--dart-entrypoint-args"@ {
        reveal_strlit("--dart-entrypoint-args");
        assert(!flag.contains('='));
        assert(flag.len() != "-d"@.len());
        assert(flag.len() != "--device-id"@.len());
        assert(flag.len() != "-t"@.len());
        assert(flag.len() != "--target"@.len());
        assert(flag.len() != "--debug"@.len());
        assert(flag.len() != "--profile"@.len());
        assert(flag.len() != "--release"@.len());
        assert(flag.len() != "--"@.len());
        lemma_differs_at(flag, "--device-id="@, 3);
        lemma_differs_at(flag, "--target="@, 2);
        lemma_differs_at(flag, "--debug-uri="@, 3);
        lemma_differs_at(flag, "--host-vmservice-port="@, 2);
    }
    let rest = seq![flag, value];
    assert(rest[0] == flag && rest[1] == value);
    assert(!handled_run_flag(flag));
    assert(starts_with_char(flag, '-'));
    assert(tool_flag_takes_value(flag));
    assert(tool_args_from(rest, 2) =~= Seq::<Seq<char>>::empty());
    assert(tool_args(rest) =~= seq![flag, value]);
}

/// Copies borrowed arguments into owned strings.
fn to_strings(args: &[&str]) -> (r: Vec<String>)
    ensures
        string_views(r@) == str_views(args@),
{
    let mut out: Vec<String> = Vec::new();
    let mut i: usize = 0;
    while i < args.len()
        invariant
            i <= args@.len(),
            string_views(out@) =~= str_views(args@).take(i as int),
        decreases args@.len() - i,
    {
        let a: &str = args[i];
        let s = String::from_str(a);
        assert(s@ == str_views(args@)[i as int]);
        let ghost prev = out@;
        out.push(s);
        assert(string_views(out@) =~= string_views(prev).push(s@));
        assert(string_views(out@) =~= str_views(args@).take(i + 1));
        i += 1;
    }
    assert(str_views(args@).take(args@.len() as int) =~= str_views(args@));
    out
}

/// The arguments after a leading `flutter`, or `None` where the first is not `flutter`.
pub fn args_after_fvm_flutter(args: &[String]) -> (r: Option<&[String]>)
    ensures
        match r {
            Some(tail) => args@.len() > 0 && args@[0]@ == "flutter"@ && tail@ == args@.skip(1),
            None => args@.len() == 0 || args@[0]@ != "flutter"@,
        },
{
    if args.len() > 0 && str_eq(args[0].as_str(), "flutter") {
        Some(slice_subrange(args, 1, args.len()))
    } else {
        None
    }
}

/// Splits `rest` at the first `--`: the arguments before it and those after it.
pub fn split_at_double_dash<'a>(rest: &'a [&'a str]) -> (r: (&'a [&'a str], &'a [&'a str]))
    ensures
        r.0@ == before_double_dash(rest@, str_views(rest@)),
        r.1@ == after_double_dash(rest@, str_views(rest@)),
{
    let ghost v = str_views(rest@);
    let n = rest.len();
    let mut i: usize = 0;
    while i < n
        invariant
            n == rest@.len(),
            v == str_views(rest@),
            i <= n,
            double_dash(v) == double_dash_from(v, i as int),
        decreases n - i,
    {
        if str_eq(rest[i], "--") {
            let before = slice_subrange(rest, 0, i);
            let after = slice_subrange(rest, i + 1, n);
            assert(before@ =~= rest@.take(i as int));
            assert(after@ =~= rest@.skip(i + 1));
            return (before, after);
        }
        i += 1;
    }
    assert(rest@.subrange(0, n as int) =~= rest@);
    (slice_subrange(rest, 0, n), slice_subrange(rest, n, n))
}

/// The value given to the flag spelt `short` or `long`: the argument after its
/// first occurrence, or the text after `long=`.
pub fn parse_flag_value(rest: &[&str], short: &str, long: &str) -> (r: Option<String>)
    ensures
        opt_view(r) == flag_value(str_views(rest@), short@, long@),
{
    let ghost v = str_views(rest@);
    let mut key = String::from_str(long);
    push_char(&mut key, '=');
    let mut i: usize = 0;
    while i < rest.len()
        invariant
            v == str_views(rest@),
            key@ == long@.push('='),
            i <= rest@.len(),
            flag_value(v, short@, long@) == flag_value_from(v, short@, long@, i as int),
        decreases rest@.len() - i,
    {
        let arg = rest[i];
        if str_eq(arg, short) || str_eq(arg, long) {
            if i + 1 < rest.len() {
                return Some(String::from_str(rest[i + 1]));
            } else {
                return None;
            }
        }
        match strip_prefix(arg, key.as_str()) {
            Some(val) => {
                return Some(String::from_str(val));
            },
            None => {},
        }
        i += 1;
    }
    None
}

/// The value of `-d` / `--device-id`.
pub fn parse_device_id(rest: &[&str]) -> (r: Option<String>)
    ensures
        opt_view(r) == device_flag(str_views(rest@)),
{
    parse_flag_value(rest, "-d", "--device-id")
}

/// The value of `-t` / `--target`.
pub fn parse_target_path(rest: &[&str]) -> (r: Option<String>)
    ensures
        opt_view(r) == target_flag(str_views(rest@)),
{
    parse_flag_value(rest, "-t", "--target")
}

/// The VM Service URI of an attach: `--debug-uri`, or a local URI on the port of
/// `--host-vmservice-port`.
pub fn parse_vm_service_uri(rest: &[&str]) -> (r: Option<String>)
    ensures
        opt_view(r) == vm_service_uri_of(str_views(rest@)),
{
    match parse_flag_value(rest, "", "--debug-uri") {
        Some(u) => Some(u),
        None => match parse_flag_value(rest, "", "--host-vmservice-port") {
            Some(p) => {
                let uri = String::from_str("http://127.0.0.1:");
                let uri = uri.concat(p.as_str());
                Some(uri.concat("/"))
            },
            None => None,
        },
    }
}

/// The build mode asked for by the first of `--release`, `--profile`, `--debug`.
pub fn parse_profile_mode(rest: &[&str]) -> (r: Option<&'static str>)
    ensures
        opt_str_view(r) == profile_mode(str_views(rest@)),
{
    let ghost v = str_views(rest@);
    let mut i: usize = 0;
    while i < rest.len()
        invariant
            v == str_views(rest@),
            i <= rest@.len(),
            profile_mode(v) == profile_mode_from(v, i as int),
        decreases rest@.len() - i,
    {
        let arg = rest[i];
        if str_eq(arg, "--release") {
            return Some("release");
        } else if str_eq(arg, "--profile") {
            return Some("profile");
        } else if str_eq(arg, "--debug") {
            return Some("debug");
        }
        i += 1;
    }
    None
}

/// Whether `arg` is one of the flags that become launch fields of their own.
pub fn is_handled_run_flag(arg: &str) -> (r: bool)
    ensures
        r == handled_run_flag(arg@),
{
    str_eq(arg, "-d") || str_eq(arg, "--device-id") || str_eq(arg, "-t") || str_eq(arg, "--target")
        || str_eq(arg, "--debug") || str_eq(arg, "--profile") || str_eq(arg, "--release")
        || starts_with(arg, "--device-id=") || starts_with(arg, "--target=") || starts_with(
        arg,
        "--debug-uri=",
    ) || starts_with(arg, "--host-vmservice-port=")
}

fn is_handled_flag_with_value(arg: &str) -> (r: bool)
    ensures
        r == handled_flag_with_value(arg@),
{
    str_eq(arg, "-d") || str_eq(arg, "--device-id") || str_eq(arg, "-t") || str_eq(arg, "--target")
        || str_eq(arg, "--debug-uri") || str_eq(arg, "--host-vmservice-port")
}

fn takes_value(arg: &str) -> (r: bool)
    ensures
        r == tool_flag_takes_value(arg@),
{
    str_eq(arg, "--flavor") || str_eq(arg, "--dart-define") || str_eq(arg, "--dart-define-from-file")
        || str_eq(arg, "--web-port") || str_eq(arg, "--web-hostname") || str_eq(
        arg,
        "--web-tls-cert-path",
    ) || str_eq(arg, "--web-tls-cert-key-path") || str_eq(arg, "--device-user") || str_eq(
        arg,
        "--build-number",
    ) || str_eq(arg, "--build-name") || str_eq(arg, "--split-debug-info") || str_eq(
        arg,
        "--enable-experiment",
    ) || str_eq(arg, "--dart-entrypoint-args") || starts_with(arg, "--dart-define=")
        || starts_with(arg, "--dart-define-from-file=") || starts_with(arg, "--flavor=")
}

/// The flutter tool flags (flavor, dart-define, web options and the like) that
/// go into `toolArgs`, read up to the first `--`.
pub fn collect_tool_args(rest: &[&str]) -> (r: Vec<String>)
    ensures
        string_views(r@) == tool_args(str_views(rest@)),
{
    let ghost v = str_views(rest@);
    let n = rest.len();
    let mut out: Vec<String> = Vec::new();
    let mut i: usize = 0;
    while i < n
        invariant
            n == rest@.len(),
            v == str_views(rest@),
            string_views(out@) + tool_args_from(v, i as int) == tool_args(v),
        decreases n + 1 - i,
    {
        let arg = rest[i];
        let ghost before = string_views(out@);
        if str_eq(arg, "--") {
            assert(tool_args_from(v, i as int) =~= Seq::<Seq<char>>::empty());
            assert(before + tool_args_from(v, i as int) =~= before);
            return out;
        }
        if is_handled_run_flag(arg) {
            if is_handled_flag_with_value(arg) {
                if n - i < 2 {
                    assert(tool_args_from(v, i + 2) =~= Seq::<Seq<char>>::empty());
                    assert(before + tool_args_from(v, i as int) =~= before);
                    return out;
                }
                i += 2;
                continue ;
            }
            i += 1;
            continue ;
        }
        if starts_with_ch(arg, '-') {
            out.push(String::from_str(arg));
            if takes_value(arg) && !contains_ch(arg, '=') && i + 1 < n {
                out.push(String::from_str(rest[i + 1]));
                assert(string_views(out@) =~= before + seq![v[i as int], v[i + 1]]);
                assert(before + (seq![v[i as int], v[i + 1]] + tool_args_from(v, i + 2))
                    =~= string_views(out@) + tool_args_from(v, i + 2));
                if n - i < 3 {
                    assert(tool_args_from(v, i + 2) =~= Seq::<Seq<char>>::empty());
                    assert(string_views(out@) + tool_args_from(v, i + 2) =~= string_views(
                        out@,
                    ));
                    return out;
                }
                i += 2;
                continue ;
            }
            assert(string_views(out@) =~= before + seq![v[i as int]]);
            assert(before + (seq![v[i as int]] + tool_args_from(v, i + 1)) =~= string_views(out@)
                + tool_args_from(v, i + 1));
            i += 1;
            continue ;
        }
        i += 1;
    }
    assert(tool_args_from(v, i as int) =~= Seq::<Seq<char>>::empty());
    assert(string_views(out@) + tool_args_from(v, i as int) =~= string_views(out@));
    out
}

/// The launch options of a flutter task: mode, VM Service URI and tool flags from
/// the arguments before `--`, program arguments from those after it.
pub fn launch_options_from_rest(rest: &[&str]) -> (r: FlutterLaunchOptions)
    ensures
        r@ == launch_options(str_views(rest@)),
{
    let (tool_part, program_part) = split_at_double_dash(rest);
    proof {
        let v = str_views(rest@);
        lemma_double_dash(v);
        match double_dash(v) {
            Some(p) => {
                assert(str_views(tool_part@) =~= v.take(p));
                assert(str_views(program_part@) =~= v.skip(p + 1));
            },
            None => {
                assert(str_views(program_part@) =~= Seq::<Seq<char>>::empty());
            },
        }
    }
    let profile = match parse_profile_mode(tool_part) {
        Some(m) => Some(String::from_str(m)),
        None => None,
    };
    FlutterLaunchOptions {
        profile,
        tool_args: collect_tool_args(tool_part),
        program_args: to_strings(program_part),
        vm_service_uri: parse_vm_service_uri(tool_part),
    }
}

/// The program a `flutter run` task starts: the `-t` / `--target` value, else
/// the first positional argument before `--`, else `lib/main.dart`.
pub fn program_for_run(rest: &[&str]) -> (r: String)
    ensures
        r@ == run_program(str_views(rest@)),
{
    if let Some(target) = parse_target_path(rest) {
        return target;
    }
    let (tool_part, _) = split_at_double_dash(rest);
    let ghost v = str_views(rest@);
    let ghost tv = str_views(tool_part@);
    proof {
        lemma_double_dash(v);
        match double_dash(v) {
            Some(p) => {
                assert(tv =~= v.take(p));
            },
            None => {},
        }
        assert(tv == before_double_dash(v, v));
    }
    let mut i: usize = 0;
    while i < tool_part.len()
        invariant
            tv == str_views(tool_part@),
            v == str_views(rest@),
            target_flag(v) is None,
            tv == before_double_dash(v, v),
            i <= tool_part@.len(),
            first_positional(tv) == first_positional_from(tv, i as int),
        decreases tool_part@.len() - i,
    {
        let a: &str = tool_part[i];
        if !starts_with_ch(a, '-') {
            assert(first_positional(tv) == Some(tv[i as int]));
            assert(a@ == tv[i as int]);
            assert(target_flag(v) is None);
            assert(run_program(v) == a@);
            return String::from_str(a);
        }
        i += 1;
    }
    String::from_str("lib/main.dart")
}

/// The test file a `flutter test` task runs: its first positional argument, cut
/// at `?`; `None` where there is none.
pub fn program_for_test(rest: &[&str]) -> (r: Option<String>)
    ensures
        opt_view(r) == test_program(str_views(rest@)),
{
    let ghost v = str_views(rest@);
    let mut i: usize = 0;
    while i < rest.len()
        invariant
            v == str_views(rest@),
            i <= rest@.len(),
            first_positional(v) == first_positional_from(v, i as int),
        decreases rest@.len() - i,
    {
        if !starts_with_ch(rest[i], '-') {
            return Some(String::from_str(before_ch(rest[i], '?')));
        }
        i += 1;
    }
    None
}

} // verus!
