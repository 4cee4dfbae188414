use insta_cmd::cargo::{
    add_profile_dir, bin_env_var, build_dir, cargo_inferred_target_dir, find_exe, find_exe_start,
    get_cargo_bin, get_cargo_example, metadata_command, primary_target_dir, select_build_dir, Event,
    Lookup, Search, Step,
};
use insta_cmd::environ::EnvMap;
use insta_cmd::info::{collect_env, describe_program};
use insta_cmd::order::{key_order, KeyOrder};
use insta_cmd::snapshot::{exit_code, format_snapshot, render_snapshot};
use insta_cmd::spawn::{
    command_from_strings, command_from_strs, conclude, hand_over, spawn_list, Launch, Report,
    SpawnError,
};
use insta_cmd::text::{to_decimal, without_suffix};
use insta_cmd::{Command, Info, Output, Spawn, SpawnExt, StdinCommand};

fn text_pairs(pairs: &[(&str, &str)]) -> Vec<(String, String)> {
    pairs.iter().map(|(k, v)| (k.to_string(), v.to_string())).collect()
}

fn texts(items: &[&str]) -> Vec<String> {
    items.iter().map(|s| s.to_string()).collect()
}

fn described<S: Spawn>(runnable: &mut S, stdin: Option<Vec<u8>>) -> (Info, Launch) {
    match runnable.spawn_with_info(stdin, "") {
        Ok(pair) => pair,
        Err(e) => panic!("{}", e.message()),
    }
}

fn refused<S: Spawn>(runnable: &mut S) -> SpawnError {
    match runnable.spawn_with_info(None, "") {
        Ok(_) => panic!("the runnable was accepted"),
        Err(e) => e,
    }
}

fn same_info(a: &Info, b: &Info) {
    assert_eq!(a.program(), b.program());
    assert_eq!(a.args(), b.args());
    assert_eq!(a.env().to_vec(), b.env().to_vec());
    assert_eq!(a.stdin(), b.stdin());
}

fn same_launch(a: &Launch, b: &Launch) {
    assert_eq!(a.command.get_program(), b.command.get_program());
    assert_eq!(a.command.get_args(), b.command.get_args());
    assert_eq!(a.command.get_envs(), b.command.get_envs());
    assert_eq!(a.stdin, b.stdin);
}

fn exited(code: i32, stdout: &[u8], stderr: &[u8]) -> Output {
    Output { success: code == 0, code: Some(code), stdout: stdout.to_vec(), stderr: stderr.to_vec() }
}

#[test]
fn key_order_is_the_order_of_strings() {
    let names = ["", "A", "AB", "B", "Z", "_", "a", "ab", "b", "é", "\u{10000}"];
    for (i, a) in names.iter().enumerate() {
        for (j, b) in names.iter().enumerate() {
            let expected = if i < j {
                KeyOrder::Less
            } else if i == j {
                KeyOrder::Equal
            } else {
                KeyOrder::Greater
            };
            assert_eq!(key_order(a, b), expected, "{:?} against {:?}", a, b);
            assert_eq!(key_order(a, b) == KeyOrder::Less, a < b);
        }
    }
}

#[test]
fn env_map_lists_by_name() {
    let mut env = EnvMap::new();
    assert!(env.is_empty());
    assert_eq!(env.len(), 0);
    env.insert("K".to_string(), "V".to_string());
    env.insert("A".to_string(), "B".to_string());
    env.insert("Y".to_string(), "Z".to_string());
    assert_eq!(env.len(), 3);
    assert!(!env.is_empty());
    assert_eq!(env.to_vec(), text_pairs(&[("A", "B"), ("K", "V"), ("Y", "Z")]));
    assert_eq!(env.get("K"), Some(&"V".to_string()));
    assert_eq!(env.get("k"), None);
    assert_eq!(env.get(""), None);
}

#[test]
fn env_map_insert_replaces() {
    let mut env = EnvMap::new();
    env.insert("PATH".to_string(), "/bin".to_string());
    env.insert("HOME".to_string(), "/root".to_string());
    env.insert("PATH".to_string(), "/usr/bin".to_string());
    assert_eq!(env.len(), 2);
    assert_eq!(env.to_vec(), text_pairs(&[("HOME", "/root"), ("PATH", "/usr/bin")]));
    assert_eq!(env.get("PATH"), Some(&"/usr/bin".to_string()));
}

#[test]
fn env_rendering_is_order_independent() {
    let mut forward = EnvMap::new();
    forward.insert("A".to_string(), "1".to_string());
    forward.insert("B".to_string(), "2".to_string());
    let mut backward = EnvMap::new();
    backward.insert("B".to_string(), "2".to_string());
    backward.insert("A".to_string(), "1".to_string());
    assert_eq!(forward.to_vec(), text_pairs(&[("A", "1"), ("B", "2")]));
    assert_eq!(backward.to_vec(), text_pairs(&[("A", "1"), ("B", "2")]));

    let mut first = Command::new("env");
    first.env("B", "2").env("A", "1");
    let mut second = Command::new("env");
    second.env("A", "1").env("B", "2");
    let (a, _) = described(&mut first, None);
    let (b, _) = described(&mut second, None);
    same_info(&a, &b);
    assert_eq!(a.env().to_vec(), text_pairs(&[("A", "1"), ("B", "2")]));
}

#[test]
fn env_settings_later_counts_and_removed_is_empty() {
    let mut cmd = Command::new("env");
    cmd.env("A", "1").env_remove("GONE").env("A", "2").env("B", "").env_remove("B");
    assert_eq!(
        cmd.get_envs(),
        &vec![
            ("A".to_string(), Some("1".to_string())),
            ("GONE".to_string(), None),
            ("A".to_string(), Some("2".to_string())),
            ("B".to_string(), Some(String::new())),
            ("B".to_string(), None),
        ]
    );
    let env = collect_env(cmd.get_envs());
    assert_eq!(env.to_vec(), text_pairs(&[("A", "2"), ("B", ""), ("GONE", "")]));
}

#[test]
fn suffix_is_removed_once() {
    assert_eq!(without_suffix("hello.exe", ".exe"), "hello");
    assert_eq!(without_suffix("hello", ".exe"), "hello");
    assert_eq!(without_suffix("hello", ""), "hello");
    assert_eq!(without_suffix("hello.exe", ""), "hello.exe");
    assert_eq!(without_suffix(".exe", ".exe"), "");
    assert_eq!(without_suffix("exe", ".exe"), "exe");
    assert_eq!(without_suffix("", ".exe"), "");
    assert_eq!(without_suffix("", ""), "");
    assert_eq!(without_suffix("hello.exe.bak", ".exe"), "hello.exe.bak");
    assert_eq!(without_suffix("héllo.exe", ".exe"), "héllo");
    assert_eq!(without_suffix("naïve", "ïve"), "na");
    assert_eq!(without_suffix("a.exe.exe", ".exe"), "a.exe");
}

#[test]
fn suffix_removal_is_idempotent() {
    for name in ["hello.exe", "hello", "", "a.b.exe", "exe"] {
        let once = without_suffix(name, ".exe");
        assert_eq!(without_suffix(&once, ".exe"), once);
        let kept = without_suffix(name, "");
        assert_eq!(kept, name);
        assert_eq!(without_suffix(&kept, ""), kept);
    }
}

#[test]
fn decimal_of_integers() {
    assert_eq!(to_decimal(0), "0");
    assert_eq!(to_decimal(7), "7");
    assert_eq!(to_decimal(10), "10");
    assert_eq!(to_decimal(42), "42");
    assert_eq!(to_decimal(101), "101");
    assert_eq!(to_decimal(-1), "-1");
    assert_eq!(to_decimal(-120), "-120");
    assert_eq!(to_decimal(i32::MAX), "2147483647");
    assert_eq!(to_decimal(i32::MIN), "-2147483648");
    for n in [-1000, -999, -11, -10, -9, 9, 11, 99, 100, 65535, 1 << 30] {
        assert_eq!(to_decimal(n), n.to_string());
    }
}

#[test]
fn program_is_described_by_its_file_name() {
    assert_eq!(describe_program("/bin/echo", ""), Some("echo".to_string()));
    assert_eq!(describe_program("echo", ""), Some("echo".to_string()));
    assert_eq!(describe_program("./target/debug/hello", ""), Some("hello".to_string()));
    assert_eq!(describe_program("/usr/bin/", ""), Some("bin".to_string()));
    assert_eq!(describe_program("tools/run.sh", ""), Some("run.sh".to_string()));
    assert_eq!(describe_program("/opt/tool/hello.exe", ".exe"), Some("hello".to_string()));
    assert_eq!(describe_program("/opt/tool/hello.exe", ""), Some("hello.exe".to_string()));
    assert_eq!(describe_program("/opt/tool/hello", ".exe"), Some("hello".to_string()));
}

#[test]
fn program_without_a_file_name_is_not_described() {
    assert_eq!(describe_program("", ""), None);
    assert_eq!(describe_program("/", ""), None);
    assert_eq!(describe_program("..", ""), None);
    assert_eq!(describe_program("bin/..", ""), None);
}

#[test]
fn program_name_normalization_is_idempotent() {
    for (path, suffix) in [("/bin/echo", ""), ("/opt/hello.exe", ".exe"), ("run.sh", ".exe")] {
        let once = describe_program(path, suffix).unwrap();
        assert_eq!(describe_program(&once, suffix), Some(once.clone()));
    }
}

#[test]
fn descriptor_of_a_command() {
    let mut cmd = Command::new("/usr/bin/env");
    cmd.arg("-i").arg("b").arg("a").env("Z", "26").env("A", "1");
    let info = Info::from_command(&cmd, None, "").unwrap();
    assert_eq!(info.program(), "env");
    assert_eq!(info.args(), &texts(&["-i", "b", "a"]));
    assert_eq!(info.env().to_vec(), text_pairs(&[("A", "1"), ("Z", "26")]));
    assert_eq!(info.stdin(), None);

    let info = Info::from_command(&cmd, Some(b"Hello World!"), "").unwrap();
    assert_eq!(info.stdin(), Some("Hello World!"));
    let info = Info::from_command(&cmd, Some(b""), "").unwrap();
    assert_eq!(info.stdin(), Some(""));
    let info = Info::from_command(&cmd, Some("grüß".as_bytes()), "").unwrap();
    assert_eq!(info.stdin(), Some("grüß"));

    assert!(Info::from_command(&Command::new(".."), None, "").is_none());
}

#[test]
fn descriptor_reads_the_payload_leniently() {
    let cmd = Command::new("cat");
    let info = Info::from_command(&cmd, Some(b"ok\xffend"), "").unwrap();
    assert_eq!(info.stdin(), Some("ok\u{fffd}end"));
    let info = Info::from_command(&cmd, Some(b"\xe2\x82"), "").unwrap();
    assert_eq!(info.stdin(), Some("\u{fffd}"));
}

#[test]
fn descriptor_from_parts() {
    let mut cmd = Command::new("/ignored/path");
    cmd.arg("x").env("K", "V");
    let info = Info::assemble("tool.exe", &cmd, Some("in".to_string()), ".exe");
    assert_eq!(info.program(), "tool");
    assert_eq!(info.args(), &texts(&["x"]));
    assert_eq!(info.env().to_vec(), text_pairs(&[("K", "V")]));
    assert_eq!(info.stdin(), Some("in"));

    let mut env = EnvMap::new();
    env.insert("B".to_string(), "2".to_string());
    env.insert("A".to_string(), "1".to_string());
    let info = Info::new("p".to_string(), texts(&["1", "2"]), env, None);
    assert_eq!(info.program(), "p");
    assert_eq!(info.args(), &texts(&["1", "2"]));
    assert_eq!(info.env().to_vec(), text_pairs(&[("A", "1"), ("B", "2")]));
    assert_eq!(info.stdin(), None);
}

#[test]
fn command_keeps_what_it_is_given() {
    let mut cmd = Command::new("/bin/sh");
    cmd.arg("-c").arg("exit 3");
    assert_eq!(cmd.get_program(), "/bin/sh");
    assert_eq!(cmd.get_args(), &texts(&["-c", "exit 3"]));
    assert!(cmd.get_envs().is_empty());
    let copy = cmd.duplicate();
    cmd.arg("later");
    assert_eq!(copy.get_program(), "/bin/sh");
    assert_eq!(copy.get_args(), &texts(&["-c", "exit 3"]));
    assert_eq!(cmd.get_args(), &texts(&["-c", "exit 3", "later"]));
}

#[test]
fn list_resolves_to_program_and_arguments() {
    let cmd = command_from_strs(&["/bin/echo", "Hello", "World"]).unwrap();
    assert_eq!(cmd.get_program(), "/bin/echo");
    assert_eq!(cmd.get_args(), &texts(&["Hello", "World"]));
    assert!(cmd.get_envs().is_empty());
    let cmd = command_from_strings(&texts(&["true"])).unwrap();
    assert_eq!(cmd.get_program(), "true");
    assert!(cmd.get_args().is_empty());
    assert!(command_from_strs(&[]).is_none());
    assert!(command_from_strings(&[]).is_none());

    let (info, launch) = described(&mut ["/bin/echo", "a", "b"], None);
    assert_eq!(info.program(), "echo");
    assert_eq!(info.args(), &texts(&["a", "b"]));
    assert_eq!(launch.command.get_program(), "/bin/echo");
    assert_eq!(launch.command.get_args(), &texts(&["a", "b"]));
    assert_eq!(launch.stdin, None);
}

#[test]
fn empty_list_is_an_invalid_invocation() {
    let none: [&str; 0] = [];
    assert_eq!(refused(&mut &none[..]), SpawnError::InvalidInvocation);
    assert_eq!(refused(&mut [""; 0]), SpawnError::InvalidInvocation);
    assert_eq!(refused(&mut Vec::<&str>::new()), SpawnError::InvalidInvocation);
    assert_eq!(refused(&mut Vec::<String>::new()), SpawnError::InvalidInvocation);
    let no_strings: [String; 0] = [];
    assert_eq!(refused(&mut &no_strings[..]), SpawnError::InvalidInvocation);
    assert_eq!(refused(&mut [String::new(); 0]), SpawnError::InvalidInvocation);
    assert!(matches!(spawn_list(None, None, ""), Err(SpawnError::InvalidInvocation)));
    let mut list: Vec<&str> = Vec::new();
    assert_eq!(refused(&mut list.pass_stdin(b"x".to_vec())), SpawnError::InvalidInvocation);
}

#[test]
fn program_without_a_name_is_an_invalid_invocation() {
    assert_eq!(refused(&mut Command::new("")), SpawnError::InvalidInvocation);
    assert_eq!(refused(&mut ["..", "x"]), SpawnError::InvalidInvocation);
    assert_eq!(refused(&mut StdinCommand::new("/", Vec::new())), SpawnError::InvalidInvocation);
}

#[test]
fn every_list_shape_is_described_alike() {
    let mut command = Command::new("prog");
    command.arg("one").arg("two");
    let (info, launch) = described(&mut command, Some(b"in".to_vec()));

    let strs = ["prog", "one", "two"];
    let strings = texts(&strs);
    let strings_array = [strings[0].clone(), strings[1].clone(), strings[2].clone()];
    let mut shapes: Vec<(Info, Launch)> = Vec::new();
    shapes.push(described(&mut strs.clone(), Some(b"in".to_vec())));
    shapes.push(described(&mut &strs[..], Some(b"in".to_vec())));
    shapes.push(described(&mut strs.to_vec(), Some(b"in".to_vec())));
    shapes.push(described(&mut strings.clone(), Some(b"in".to_vec())));
    shapes.push(described(&mut &strings[..], Some(b"in".to_vec())));
    shapes.push(described(&mut strings_array.clone(), Some(b"in".to_vec())));
    shapes.push(described(&mut &mut command, Some(b"in".to_vec())));
    for (other_info, other_launch) in shapes.iter() {
        same_info(&info, other_info);
        same_launch(&launch, other_launch);
    }
    assert_eq!(info.stdin(), Some("in"));
    assert_eq!(launch.stdin, Some(b"in".to_vec()));
}

#[test]
fn spawning_twice_gives_the_same_descriptor() {
    let mut cmd = Command::new("/bin/echo");
    cmd.arg("x").env("K", "V");
    let (first, first_launch) = described(&mut cmd, Some(b"p".to_vec()));
    let (second, second_launch) = described(&mut cmd, Some(b"p".to_vec()));
    same_info(&first, &second);
    same_launch(&first_launch, &second_launch);

    let mut list = vec!["echo", "x"];
    let (first, _) = described(&mut list, None);
    let (second, _) = described(&mut list, None);
    same_info(&first, &second);

    let mut wrapped = list.pass_stdin(b"payload".to_vec());
    let (first, _) = described(&mut wrapped, Some(b"given".to_vec()));
    let (second, _) = described(&mut wrapped, Some(b"given".to_vec()));
    same_info(&first, &second);
}

#[test]
fn held_payload_is_handed_over_once() {
    let mut cmd = Command::new("cat");
    let mut wrapped = cmd.pass_stdin(b"Hello World!".to_vec());
    let (first, first_launch) = described(&mut wrapped, None);
    assert_eq!(first.stdin(), Some("Hello World!"));
    assert_eq!(first_launch.stdin, Some(b"Hello World!".to_vec()));
    let (second, second_launch) = described(&mut wrapped, None);
    assert_eq!(second.stdin(), Some(""));
    assert_eq!(second_launch.stdin, Some(Vec::new()));

    let mut held = StdinCommand::new("cat", b"abc".to_vec());
    let (first, _) = described(&mut held, None);
    assert_eq!(first.stdin(), Some("abc"));
    let (second, _) = described(&mut held, None);
    assert_eq!(second.stdin(), Some(""));

    let mut buffer = b"held".to_vec();
    assert_eq!(hand_over(&mut buffer, None), b"held".to_vec());
    assert!(buffer.is_empty());
    let mut buffer = b"held".to_vec();
    assert_eq!(hand_over(&mut buffer, Some(b"given".to_vec())), b"given".to_vec());
    assert!(buffer.is_empty());
}

#[test]
fn given_payload_goes_before_held_payload() {
    let mut cmd = Command::new("cat");
    let mut wrapped = cmd.pass_stdin(b"held".to_vec());
    let (info, launch) = described(&mut wrapped, Some(b"given".to_vec()));
    assert_eq!(info.stdin(), Some("given"));
    assert_eq!(launch.stdin, Some(b"given".to_vec()));
    let (info, launch) = described(&mut wrapped, None);
    assert_eq!(info.stdin(), Some(""));
    assert_eq!(launch.stdin, Some(Vec::new()));

    let mut held = StdinCommand::new("cat", b"held".to_vec());
    let (info, launch) = described(&mut held, Some(b"given".to_vec()));
    assert_eq!(info.stdin(), Some("given"));
    assert_eq!(launch.stdin, Some(b"given".to_vec()));

    let mut inner = StdinCommand::new("cat", b"inner".to_vec());
    let mut outer = inner.pass_stdin(b"outer".to_vec());
    let (info, _) = described(&mut outer, None);
    assert_eq!(info.stdin(), Some("outer"));
    let (info, _) = described(&mut inner, None);
    assert_eq!(info.stdin(), Some(""));
}

#[test]
fn adapter_composes_with_the_inner_runnable() {
    let mut direct = Command::new("/usr/bin/wc");
    direct.arg("-c").env("LC_ALL", "C");
    let mut inner = direct.duplicate();
    let (plain_info, plain_launch) = described(&mut direct, Some(b"Hello World!\n".to_vec()));
    let (info, launch) = described(&mut inner.pass_stdin(b"Hello World!\n".to_vec()), None);
    same_info(&plain_info, &info);
    same_launch(&plain_launch, &launch);
    assert_eq!(info.program(), "wc");
    assert_eq!(info.args(), &texts(&["-c"]));
    assert_eq!(info.stdin(), Some("Hello World!\n"));
    assert_eq!(inner.get_program(), "/usr/bin/wc");
    assert_eq!(inner.get_args(), &texts(&["-c"]));

    let mut list = ["wc", "-l"];
    let (plain_info, _) = described(&mut list, Some(b"x".to_vec()));
    let (info, _) = described(&mut list.pass_stdin(b"x".to_vec()), None);
    same_info(&plain_info, &info);
}

#[test]
fn stdin_command_is_a_command() {
    let mut cmd = StdinCommand::new("cat", b"Hello World!".to_vec());
    cmd.arg("-b").env("K", "V");
    assert_eq!(cmd.get_program(), "cat");
    assert_eq!(cmd.get_args(), &texts(&["-b"]));
    let (info, launch) = described(&mut cmd, None);
    assert_eq!(info.program(), "cat");
    assert_eq!(info.args(), &texts(&["-b"]));
    assert_eq!(info.env().to_vec(), text_pairs(&[("K", "V")]));
    assert_eq!(info.stdin(), Some("Hello World!"));
    assert_eq!(launch.stdin, Some(b"Hello World!".to_vec()));
    assert_eq!(launch.command.get_args(), &texts(&["-b"]));
}

#[test]
fn executable_suffix_is_stripped_from_the_descriptor_only() {
    let mut cmd = Command::new("C:/tools/hello.exe");
    let (info, launch) = match cmd.spawn_with_info(None, ".exe") {
        Ok(pair) => pair,
        Err(e) => panic!("{}", e.message()),
    };
    assert_eq!(info.program(), "hello");
    assert_eq!(launch.command.get_program(), "C:/tools/hello.exe");
}

#[test]
fn run_ends_with_the_output_or_the_first_failure() {
    let with_payload = Launch { command: Command::new("cat"), stdin: Some(b"x".to_vec()) };
    let without = Launch { command: Command::new("true"), stdin: None };
    let out = || Some(exited(0, b"x", b""));

    let r = conclude(&with_payload, Report { started: true, stdin_written: true, output: out() });
    let output = r.ok().unwrap();
    assert!(output.success);
    assert_eq!(output.code, Some(0));
    assert_eq!(output.stdout, b"x".to_vec());
    assert_eq!(output.stderr, Vec::<u8>::new());

    let r = conclude(&with_payload, Report { started: false, stdin_written: true, output: out() });
    assert_eq!(r.err(), Some(SpawnError::SpawnFailure));
    let r = conclude(&without, Report { started: false, stdin_written: false, output: None });
    assert_eq!(r.err(), Some(SpawnError::SpawnFailure));

    let r = conclude(&with_payload, Report { started: true, stdin_written: false, output: out() });
    assert_eq!(r.err(), Some(SpawnError::StdinWriteFailure));
    let r = conclude(&with_payload, Report { started: true, stdin_written: false, output: None });
    assert_eq!(r.err(), Some(SpawnError::StdinWriteFailure));

    let r = conclude(&with_payload, Report { started: true, stdin_written: true, output: None });
    assert_eq!(r.err(), Some(SpawnError::OutputCaptureFailure));
    let r = conclude(&without, Report { started: true, stdin_written: false, output: None });
    assert_eq!(r.err(), Some(SpawnError::OutputCaptureFailure));

    let r = conclude(&without, Report { started: true, stdin_written: false, output: out() });
    assert!(r.is_ok());
}

#[test]
fn errors_say_what_went_wrong() {
    assert_eq!(SpawnError::InvalidInvocation.message(), "expected program name as first item");
    assert_eq!(SpawnError::SpawnFailure.message(), "Failed to spawn process");
    assert_eq!(SpawnError::StdinWriteFailure.message(), "Failed to write to stdin");
    assert_eq!(SpawnError::OutputCaptureFailure.message(), "Failed to capture output");
}

#[test]
fn snapshot_text_has_the_fixed_format() {
    assert_eq!(
        format_snapshot(true, 0, "42\n", ""),
        "success: true\nexit_code: 0\n----- stdout -----\n42\n\n----- stderr -----\n"
    );
    assert_eq!(
        format_snapshot(false, 101, "", "boom\n"),
        "success: false\nexit_code: 101\n----- stdout -----\n\n----- stderr -----\nboom\n"
    );
    assert_eq!(
        format_snapshot(false, -1, "a", "b"),
        "success: false\nexit_code: -1\n----- stdout -----\na\n----- stderr -----\nb"
    );
}

#[test]
fn snapshot_of_an_output() {
    assert_eq!(
        render_snapshot(&exited(0, b"42\n", b"")),
        "success: true\nexit_code: 0\n----- stdout -----\n42\n\n----- stderr -----\n"
    );
    assert_eq!(
        render_snapshot(&exited(1, b"", b"")),
        "success: false\nexit_code: 1\n----- stdout -----\n\n----- stderr -----\n"
    );
    assert_eq!(
        render_snapshot(&exited(2, "grüß\n".as_bytes(), b"warn\n")),
        "success: false\nexit_code: 2\n----- stdout -----\ngrüß\n\n----- stderr -----\nwarn\n"
    );
}

#[test]
fn snapshot_without_an_exit_code() {
    let killed = Output { success: false, code: None, stdout: Vec::new(), stderr: Vec::new() };
    assert_eq!(
        render_snapshot(&killed),
        "success: false\nexit_code: -1\n----- stdout -----\n\n----- stderr -----\n"
    );
    assert_eq!(exit_code(None), -1);
    assert_eq!(exit_code(None), !0);
    assert_eq!(exit_code(Some(0)), 0);
    assert_eq!(exit_code(Some(-7)), -7);
    assert_eq!(exit_code(Some(255)), 255);
}

#[test]
fn snapshot_reads_output_leniently() {
    assert_eq!(
        render_snapshot(&exited(0, b"a\xffb", b"\xc3")),
        "success: true\nexit_code: 0\n----- stdout -----\na\u{fffd}b\n----- stderr -----\n\u{fffd}"
    );
}

#[test]
fn stdin_round_trip() {
    let mut cmd = Command::new("cat");
    let (info, launch) = described(&mut cmd.pass_stdin(b"Hello World!".to_vec()), None);
    let echoed = exited(0, &launch.stdin.clone().unwrap(), b"");
    let report = Report { started: true, stdin_written: true, output: Some(echoed) };
    let output = conclude(&launch, report).ok().unwrap();
    assert_eq!(output.stdout, b"Hello World!".to_vec());
    assert_eq!(info.stdin(), Some("Hello World!"));
}

#[test]
fn profile_directory() {
    assert_eq!(add_profile_dir("/work/target", true), "/work/target/debug");
    assert_eq!(add_profile_dir("/work/target", false), "/work/target/release");
    assert_eq!(add_profile_dir("target/", true), "target/debug");
    assert_eq!(add_profile_dir("", false), "release");
    assert_eq!(cargo_inferred_target_dir("/w/target", true), "/w/target/debug");
    assert_eq!(cargo_inferred_target_dir("/w/target", false), "/w/target/release");
}

#[test]
fn build_directory_of_an_executable() {
    assert_eq!(build_dir("/w/target/debug/deps/it-0123abcd"), "/w/target/debug");
    assert_eq!(build_dir("/w/target/debug/examples/hello"), "/w/target/debug");
    assert_eq!(build_dir("/w/target/debug/hello"), "/w/target/debug");
    assert_eq!(build_dir("/w/target/release/deps/it"), "/w/target/release");
    assert_eq!(build_dir("/w/mydeps/it"), "/w/mydeps");
    assert_eq!(build_dir("/deps/it"), "/");
    assert_eq!(build_dir("/"), "/");
}

#[test]
fn build_directory_is_above_deps_and_examples() {
    let pick = |among_deps, among_examples| {
        select_build_dir("/t/debug/x".to_string(), among_deps, among_examples, "/t/debug".to_string())
    };
    assert_eq!(pick(false, false), "/t/debug/x");
    assert_eq!(pick(true, false), "/t/debug");
    assert_eq!(pick(false, true), "/t/debug");
    assert_eq!(pick(true, true), "/t/debug");
}

#[test]
fn primary_target_directory() {
    let exe = Some("/w/target/debug/deps/it-1");
    assert_eq!(primary_target_dir(Some("/t/debug"), true, exe), Some("/t/debug".to_string()));
    assert_eq!(primary_target_dir(Some("/t/debug"), false, exe), Some("/w/target/debug".to_string()));
    assert_eq!(primary_target_dir(None, false, exe), Some("/w/target/debug".to_string()));
    assert_eq!(primary_target_dir(None, true, exe), Some("/w/target/debug".to_string()));
    assert_eq!(primary_target_dir(Some("/t/debug"), true, None), Some("/t/debug".to_string()));
    assert_eq!(primary_target_dir(Some("/t/debug"), false, None), None);
    assert_eq!(primary_target_dir(None, false, None), None);
}

// Runs the search for `name` where `files` are the files that exist.
fn search(name: &str, primary: &str, inferred: &str, files: &[&str]) -> Result<String, String> {
    let mut step = find_exe_start();
    let mut asked = Vec::new();
    loop {
        let event = match step {
            Step::Resolve(Search::Primary) => Event::Dir(Search::Primary, primary.to_string()),
            Step::Resolve(Search::Inferred) => Event::Dir(Search::Inferred, inferred.to_string()),
            Step::Probe(place, candidate) => {
                asked.push(candidate.clone());
                let is_file = files.contains(&candidate.as_str());
                Event::Probed(place, candidate, is_file)
            }
            Step::Found(path) => return Ok(path),
            Step::Missing(text) => {
                assert_eq!(asked.len(), 2);
                return Err(text);
            }
        };
        step = find_exe(name, event);
    }
}

#[test]
fn executable_is_searched_in_two_places() {
    let both = ["/p/debug/hello", "/i/debug/hello"];
    assert_eq!(search("hello", "/p/debug", "/i/debug", &both), Ok("/p/debug/hello".to_string()));
    let second = ["/i/debug/hello"];
    assert_eq!(search("hello", "/p/debug", "/i/debug", &second), Ok("/i/debug/hello".to_string()));
    assert_eq!(
        search("hello", "/p/debug", "/i/debug", &[]),
        Err("Cannot determine path to executable 'hello'".to_string())
    );
    let example = ["/i/debug/examples/hello"];
    assert_eq!(
        search(&get_cargo_example("hello", ""), "/p/debug", "/i/debug", &example),
        Ok("/i/debug/examples/hello".to_string())
    );
}

#[test]
fn search_steps() {
    assert!(matches!(find_exe_start(), Step::Resolve(Search::Primary)));
    match find_exe("hello", Event::Dir(Search::Inferred, "/t".to_string())) {
        Step::Probe(Search::Inferred, candidate) => assert_eq!(candidate, "/t/hello"),
        _ => panic!("a directory is followed by a probe of its candidate"),
    }
    match find_exe("x", Event::Probed(Search::Primary, "/t/x".to_string(), true)) {
        Step::Found(path) => assert_eq!(path, "/t/x"),
        _ => panic!("a candidate that is a file is the executable"),
    }
    match find_exe("x", Event::Probed(Search::Inferred, "/t/x".to_string(), true)) {
        Step::Found(path) => assert_eq!(path, "/t/x"),
        _ => panic!("a candidate that is a file is the executable"),
    }
    assert!(matches!(
        find_exe("x", Event::Probed(Search::Primary, "/t/x".to_string(), false)),
        Step::Resolve(Search::Inferred)
    ));
    match find_exe("bin/x", Event::Probed(Search::Inferred, "/t/x".to_string(), false)) {
        Step::Missing(text) => assert_eq!(text, "Cannot determine path to executable 'bin/x'"),
        _ => panic!("the second place is the last"),
    }
}

#[test]
fn cargo_binaries_and_examples() {
    assert_eq!(bin_env_var("hello"), "CARGO_BIN_EXE_hello");
    assert_eq!(bin_env_var(""), "CARGO_BIN_EXE_");
    match get_cargo_bin("hello", Some("/t/debug/hello".to_string()), ".exe") {
        Lookup::Path(path) => assert_eq!(path, "/t/debug/hello"),
        Lookup::Find(_) => panic!("the path was known"),
    }
    match get_cargo_bin("hello", None, ".exe") {
        Lookup::Find(file) => assert_eq!(file, "hello.exe"),
        Lookup::Path(_) => panic!("no path was known"),
    }
    match get_cargo_bin("hello", None, "") {
        Lookup::Find(file) => assert_eq!(file, "hello"),
        Lookup::Path(_) => panic!("no path was known"),
    }
    assert_eq!(get_cargo_example("hello", ""), "examples/hello");
    assert_eq!(get_cargo_example("hello", ".exe"), "examples/hello.exe");
}

#[test]
fn cargo_metadata_invocation() {
    let cmd = metadata_command(None);
    assert_eq!(cmd.get_program(), "cargo");
    assert_eq!(cmd.get_args(), &texts(&["metadata"]));
    assert!(cmd.get_envs().is_empty());
    let cmd = metadata_command(Some("/opt/rust/bin/cargo"));
    assert_eq!(cmd.get_program(), "/opt/rust/bin/cargo");
    assert_eq!(cmd.get_args(), &texts(&["metadata"]));
}
