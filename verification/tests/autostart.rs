use steady_ink::autostart::{
    change_with_backend, classify_state, decode_registry_string, format_run_command,
    helper_mode_argument, helper_run_result, parse_helper_mode, parse_registered_command,
    paths_equal_for_windows, query, registry_string_bytes, query_machine_autostart, query_with_backend, registry_error,
    request_machine_autostart_change, run_helper, run_helper_if_requested, to_wide_string,
    AutostartError, HelperRun, MachineAutostartState, RegistryChange, HELPER_SWITCH,
};

/// An in-memory stand-in for the Run value that applies the planned changes.
#[derive(Default)]
struct MemoryRegistry {
    value: Option<String>,
}

impl MemoryRegistry {
    fn read_value(&self) -> Result<Option<String>, String> {
        Ok(self.value.clone())
    }

    fn apply(&mut self, change: RegistryChange) {
        match change {
            RegistryChange::Write(command) => self.value = Some(command),
            RegistryChange::Delete => self.value = None,
        }
    }
}

fn change(registry: &mut MemoryRegistry, enabled: bool, executable: &str) -> Result<(), AutostartError> {
    let planned = change_with_backend(enabled, executable)?;
    registry.apply(planned);
    Ok(())
}

#[test]
fn run_command_quotes_unicode_path() {
    let path = r"C:\Program Files\Steady Ink\中文\steady-ink.exe";
    assert_eq!(
        format_run_command(path).expect("absolute path should be accepted"),
        r#""C:\Program Files\Steady Ink\中文\steady-ink.exe""#
    );
    assert_eq!(
        parse_registered_command(
            r#""C:\Program Files\Steady Ink\中文\steady-ink.exe" --machine-autostart"#
        ),
        Some(path.to_owned())
    );
}

#[test]
fn matching_path_is_enabled() {
    let registry = MemoryRegistry {
        value: Some(r#""c:/PROGRAM FILES/STEADY INK/steady-ink.exe""#.to_owned()),
    };
    let state = query_with_backend(
        registry.read_value(),
        r"C:\Program Files\Steady Ink\steady-ink.exe",
    )
    .expect("memory query should succeed");
    assert_eq!(state, MachineAutostartState::Enabled);
}

#[test]
fn mismatched_path_remains_enabled_for_repair() {
    let registry = MemoryRegistry {
        value: Some(r#""C:\Old Steady Ink\steady-ink.exe""#.to_owned()),
    };
    let state = query_with_backend(
        registry.read_value(),
        r"C:\Program Files\Steady Ink\steady-ink.exe",
    )
    .expect("memory query should succeed");
    assert_eq!(state, MachineAutostartState::EnabledPathMismatch);
    assert!(state.enabled());
}

#[test]
fn memory_backend_change_is_idempotent() {
    let mut registry = MemoryRegistry::default();
    let executable = r"C:\Program Files\Steady Ink\steady-ink.exe";
    change(&mut registry, false, executable).expect("disabling an absent value should succeed");
    change(&mut registry, true, executable).expect("enable should succeed");
    change(&mut registry, true, executable).expect("repeat enable should succeed");
    assert_eq!(
        query_with_backend(registry.read_value(), executable).expect("query should succeed"),
        MachineAutostartState::Enabled
    );
    change(&mut registry, false, executable).expect("disable should succeed");
    assert_eq!(
        query_with_backend(registry.read_value(), executable).expect("query should succeed"),
        MachineAutostartState::Disabled
    );
}

fn arguments(values: &[&str]) -> Vec<Option<String>> {
    values.iter().map(|value| Some((*value).to_owned())).collect()
}

#[test]
fn helper_arguments_are_strictly_whitelisted() {
    let ordinary = arguments(&["steady-ink.exe"]);
    assert_eq!(parse_helper_mode(&ordinary).expect("ordinary args are valid"), None);

    let enable = arguments(&["steady-ink.exe", "--machine-autostart", "enable"]);
    assert_eq!(parse_helper_mode(&enable).expect("enable args are valid"), Some(true));

    let invalid = arguments(&["steady-ink.exe", "--machine-autostart", "enable", "extra"]);
    assert!(matches!(
        parse_helper_mode(&invalid),
        Err(AutostartError::InvalidHelperArguments)
    ));
}

#[test]
fn helper_mode_rejects_unknown_and_non_unicode_modes() {
    let disable = arguments(&["steady-ink.exe", "--machine-autostart", "disable"]);
    assert_eq!(parse_helper_mode(&disable), Ok(Some(false)));
    let unknown = arguments(&["steady-ink.exe", "--machine-autostart", "toggle"]);
    assert_eq!(parse_helper_mode(&unknown), Err(AutostartError::InvalidHelperArguments));
    let mut garbled = arguments(&["steady-ink.exe", "--machine-autostart"]);
    garbled.push(None);
    assert_eq!(parse_helper_mode(&garbled), Err(AutostartError::InvalidHelperArguments));
    let other = arguments(&["steady-ink.exe", "--other", "enable"]);
    assert_eq!(parse_helper_mode(&other), Ok(None));
    assert_eq!(helper_mode_argument(true), "enable");
    assert_eq!(helper_mode_argument(false), "disable");
}

#[test]
fn relative_or_quoted_paths_are_refused() {
    assert_eq!(
        format_run_command(r"steady-ink.exe"),
        Err(AutostartError::InvalidExecutablePath("steady-ink.exe".to_owned()))
    );
    assert_eq!(
        format_run_command(""),
        Err(AutostartError::InvalidExecutablePath(String::new()))
    );
    assert!(format_run_command(r#"C:\odd"name.exe"#).is_err());
    assert_eq!(format_run_command(r"\\server\share\a.exe"), Ok(r#""\\server\share\a.exe""#.to_owned()));
}

#[test]
fn registered_commands_are_read_without_shell_parsing() {
    assert_eq!(parse_registered_command("   "), None);
    assert_eq!(parse_registered_command(r#""C:\unterminated"#), None);
    assert_eq!(
        parse_registered_command("  C:\\app.exe --flag "),
        Some("C:\\app.exe".to_owned())
    );
    assert!(paths_equal_for_windows("C:/A/b.exe", "c:\\a\\B.EXE"));
    assert!(paths_equal_for_windows("C:\\dir\\", "c:/dir"));
    assert!(!paths_equal_for_windows("C:\\dir\\a.exe", "C:\\dir\\b.exe"));
    assert_eq!(classify_state(None, "C:\\a.exe"), MachineAutostartState::Disabled);
    assert_eq!(
        classify_state(Some("\"unterminated"), "C:\\a.exe"),
        MachineAutostartState::EnabledPathMismatch
    );
}

#[test]
fn registry_failures_are_reported() {
    assert_eq!(
        query_with_backend(Err("denied".to_owned()), "C:\\a.exe"),
        Err(AutostartError::Registry("denied".to_owned()))
    );
    assert_eq!(registry_error("读取自启动值", 5), "读取自启动值失败 (Win32 错误码 5)");
    assert_eq!(registry_error("写入自启动值", 1_234), "写入自启动值失败 (Win32 错误码 1234)");
}

#[test]
fn platform_without_registry_is_unsupported() {
    assert_eq!(
        query_machine_autostart(false, Ok("C:\\a.exe".to_owned()), Ok(None)),
        Err(AutostartError::UnsupportedPlatform)
    );
    assert_eq!(
        request_machine_autostart_change(true, false, Ok("C:\\a.exe".to_owned())),
        Err(AutostartError::UnsupportedPlatform)
    );
    let enable = arguments(&["steady-ink.exe", "--machine-autostart", "enable"]);
    assert_eq!(
        run_helper_if_requested(&enable, false),
        Some(Err(AutostartError::UnsupportedPlatform))
    );
    assert_eq!(run_helper_if_requested(&enable, true), Some(Ok(true)));
    assert_eq!(run_helper_if_requested(&arguments(&["steady-ink.exe"]), true), None);
}

#[test]
fn machine_query_classifies_against_the_current_executable() {
    assert_eq!(
        query_machine_autostart(
            true,
            Ok("C:\\a.exe".to_owned()),
            Ok(Some("\"C:\\A.EXE\"".to_owned()))
        ),
        Ok(MachineAutostartState::Enabled)
    );
    assert_eq!(
        query(Err("no path".to_owned()), Ok(None)),
        Err(AutostartError::CurrentExecutable("no path".to_owned()))
    );
}

#[test]
fn elevation_request_uses_fixed_parameters() {
    let launch = request_machine_autostart_change(false, true, Ok("C:\\a.exe".to_owned()))
        .expect("the request is prepared");
    assert_eq!(launch.executable, "C:\\a.exe");
    assert_eq!(launch.parameters, format!("{HELPER_SWITCH} disable"));
    let launch = request_machine_autostart_change(true, true, Ok("C:\\a.exe".to_owned()))
        .expect("the request is prepared");
    assert_eq!(launch.parameters, "--machine-autostart enable");
}

#[test]
fn helper_outcomes_map_to_errors() {
    assert_eq!(helper_run_result(HelperRun::Exited(0)), Ok(()));
    assert_eq!(
        helper_run_result(HelperRun::Exited(2)),
        Err(AutostartError::HelperExitCode(2))
    );
    assert_eq!(
        helper_run_result(HelperRun::LaunchFailed("cancelled".to_owned())),
        Err(AutostartError::Elevation("cancelled".to_owned()))
    );
    assert_eq!(
        helper_run_result(HelperRun::NoProcessHandle),
        Err(AutostartError::Elevation("提权辅助进程没有返回有效句柄".to_owned()))
    );
    assert_eq!(
        helper_run_result(HelperRun::WaitFailed("WAIT_FAILED".to_owned())),
        Err(AutostartError::Elevation("等待辅助进程失败: WAIT_FAILED".to_owned()))
    );
    assert_eq!(
        helper_run_result(HelperRun::ExitCodeUnavailable("gone".to_owned())),
        Err(AutostartError::Elevation("gone".to_owned()))
    );
}

#[test]
fn helper_writes_or_deletes_the_value() {
    assert_eq!(
        run_helper(true, Ok("C:\\a.exe".to_owned())),
        Ok(RegistryChange::Write("\"C:\\a.exe\"".to_owned()))
    );
    assert_eq!(run_helper(false, Ok("C:\\a.exe".to_owned())), Ok(RegistryChange::Delete));
    assert_eq!(
        run_helper(true, Err("gone".to_owned())),
        Err(AutostartError::CurrentExecutable("gone".to_owned()))
    );
}

#[test]
fn error_texts_match_the_settings_page() {
    assert_eq!(
        AutostartError::HelperExitCode(3).message(),
        "提权辅助进程退出码为 3"
    );
    assert_eq!(
        AutostartError::Registry("x".to_owned()).message(),
        "注册表操作失败: x"
    );
    assert_eq!(AutostartError::InvalidHelperArguments.message(), "开机启动辅助参数无效");
    assert_eq!(MachineAutostartState::Disabled.label(), "当前已关闭");
    assert_eq!(MachineAutostartState::Enabled.label(), "当前已开启");
    assert!(!MachineAutostartState::Disabled.enabled());
}

#[test]
fn registry_strings_decode_up_to_the_first_nul() {
    let mut bytes = Vec::new();
    for unit in "C:\\a".encode_utf16().chain([0, 0x41]) {
        bytes.extend_from_slice(&unit.to_le_bytes());
    }
    assert_eq!(decode_registry_string(&bytes), Ok("C:\\a".to_owned()));
    assert_eq!(
        decode_registry_string(&[0x41]),
        Err("注册表字符串字节数不是偶数".to_owned())
    );
    let lone_surrogate = 0xD800u16.to_le_bytes();
    let error = decode_registry_string(&lone_surrogate).expect_err("a lone surrogate is invalid");
    assert!(error.starts_with("注册表字符串不是有效 UTF-16: "));
    assert_eq!(to_wide_string("中a"), vec![0x4E2D, 0x61, 0]);
}

#[test]
fn registered_command_splits_on_unicode_white_space() {
    let separators = ['\t', '\u{0b}', ' ', '\u{85}', '\u{a0}', '\u{1680}', '\u{2007}', '\u{2028}', '\u{3000}'];
    for separator in separators {
        assert!(separator.is_whitespace());
        let command = format!("{separator}C:\\app.exe{separator}--flag{separator}");
        assert_eq!(parse_registered_command(&command), Some("C:\\app.exe".to_owned()));
    }
    let joined = ['\u{180e}', '\u{200b}', 'x'];
    for joiner in joined {
        assert!(!joiner.is_whitespace());
        let command = format!("C:\\a{joiner}b.exe --flag");
        assert_eq!(parse_registered_command(&command), Some(format!("C:\\a{joiner}b.exe")));
    }
}

#[test]
fn enabled_command_reads_back_as_enabled() {
    let executable = "D:\\Tools\\墨迹 Ink\\steady-ink.exe";
    let mut registry = MemoryRegistry::default();
    change(&mut registry, true, executable).expect("enable should succeed");
    let command = registry.read_value().unwrap().expect("enabling writes the value");
    assert_eq!(parse_registered_command(&command), Some(executable.to_owned()));
    assert_eq!(
        query_with_backend(registry.read_value(), executable),
        Ok(MachineAutostartState::Enabled)
    );
    change(&mut registry, false, executable).expect("disable should succeed");
    assert_eq!(
        query_with_backend(registry.read_value(), executable),
        Ok(MachineAutostartState::Disabled)
    );
}

#[test]
fn registry_string_bytes_read_back() {
    assert_eq!(registry_string_bytes("A中"), vec![0x41, 0x00, 0x2d, 0x4e, 0x00, 0x00]);
    let command = "\"C:\\Program Files\\Steady Ink\\中文\\steady-ink.exe\" 😀";
    let bytes = registry_string_bytes(command);
    assert_eq!(bytes.len(), 2 * (command.encode_utf16().count() + 1));
    assert_eq!(decode_registry_string(&bytes), Ok(command.to_owned()));
}

#[test]
fn unc_paths_need_a_server_and_a_share() {
    for refused in [r"\\server", r"\\server\", r"\\", r"\\\share\a.exe", r"\\server\\a.exe", "C:", "C:a.exe"] {
        assert_eq!(
            format_run_command(refused),
            Err(AutostartError::InvalidExecutablePath(refused.to_owned())),
            "{refused}"
        );
    }
    for accepted in [r"\\server\share", "//server/share/a.exe", r"\\?\C:\a.exe", r"\\?\", r"\\.\pipe\x", "D:/a.exe"] {
        assert_eq!(format_run_command(accepted), Ok(format!("\"{accepted}\"")), "{accepted}");
    }
}
