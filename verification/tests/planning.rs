use brew_manager::is_valid_pkg_name;
use brew_manager::stream::PlanError;
use brew_manager::stream::plan_stream_command;
use brew_manager::stream::plan_error_response;
use brew_manager::stream::brew_not_found_response;
use brew_manager::stream::spawn_failed_response;
use brew_manager::stream::pipe_failed_response;
use brew_manager::stream::wait_failed_response;
use brew_manager::stream::stream_final_response;
use brew_manager::stream::stream_preflight;
use brew_manager::SourceKind;
use brew_manager::ApiResponse;

#[test]
fn package_name_validation() {
    assert!(is_valid_pkg_name("wget"));
    assert!(is_valid_pkg_name("node@18"));
    assert!(is_valid_pkg_name("homebrew/cask/firefox"));
    assert!(is_valid_pkg_name("gcc-13"));
    assert!(is_valid_pkg_name("lib_x.y+z"));
    assert!(!is_valid_pkg_name(""));
    assert!(!is_valid_pkg_name("bad name"));
    assert!(!is_valid_pkg_name("rm;rf"));
    assert!(!is_valid_pkg_name("a!b"));
}

#[test]
fn doctor_and_upgrade_all_take_no_name() {
    assert_eq!(
        plan_stream_command("doctor", None, None).unwrap(),
        vec![String::from("doctor")]
    );
    assert_eq!(
        plan_stream_command("upgrade_all", None, None).unwrap(),
        vec![String::from("upgrade")]
    );
}

#[test]
fn tap_and_untap_take_a_tap_name() {
    assert_eq!(
        plan_stream_command("tap", Some(String::from("homebrew/cask")), None).unwrap(),
        vec![String::from("tap"), String::from("homebrew/cask")]
    );
    assert_eq!(
        plan_stream_command("untap", Some(String::from("homebrew/cask")), None).unwrap(),
        vec![String::from("untap"), String::from("homebrew/cask")]
    );
    assert_eq!(
        plan_stream_command("tap", None, None).unwrap_err(),
        PlanError::MissingTapName
    );
    assert_eq!(
        plan_stream_command("tap", Some(String::from("  \t ")), None).unwrap_err(),
        PlanError::EmptyTapName
    );
}

#[test]
fn package_actions_shape_their_arguments() {
    assert_eq!(
        plan_stream_command("install", Some(String::from("wget")), None).unwrap(),
        vec![String::from("install"), String::from("wget")]
    );
    assert_eq!(
        plan_stream_command("install", Some(String::from("firefox")), Some(String::from("cask")))
            .unwrap(),
        vec![
            String::from("install"),
            String::from("--cask"),
            String::from("firefox")
        ]
    );
    assert_eq!(
        plan_stream_command("uninstall", Some(String::from("wget")), Some(String::from("formula")))
            .unwrap(),
        vec![String::from("uninstall"), String::from("wget")]
    );
    assert_eq!(
        plan_stream_command("upgrade", Some(String::from("iterm2")), Some(String::from("cask")))
            .unwrap(),
        vec![
            String::from("upgrade"),
            String::from("--cask"),
            String::from("iterm2")
        ]
    );
    assert_eq!(
        plan_stream_command("info", Some(String::from("wget")), None).unwrap(),
        vec![String::from("info"), String::from("wget")]
    );
}

#[test]
fn package_actions_reject_bad_requests() {
    assert_eq!(
        plan_stream_command("install", None, None).unwrap_err(),
        PlanError::MissingPkgName
    );
    assert_eq!(
        plan_stream_command("install", Some(String::from("bad name")), None).unwrap_err(),
        PlanError::InvalidPkgName
    );
    assert_eq!(
        plan_stream_command("install", Some(String::from("wget")), Some(String::from("keg")))
            .unwrap_err(),
        PlanError::InvalidKind
    );
    assert_eq!(
        plan_stream_command("dance", None, None).unwrap_err(),
        PlanError::InvalidAction
    );
}

#[test]
fn refusal_responses_carry_their_codes() {
    let cases = [
        (PlanError::MissingTapName, "INVALID_NAME", "缺少 tap 名称"),
        (PlanError::EmptyTapName, "INVALID_NAME", "tap 名称不能为空"),
        (PlanError::MissingPkgName, "INVALID_NAME", "缺少包名"),
        (PlanError::InvalidPkgName, "INVALID_NAME", "包名不合法"),
        (PlanError::InvalidKind, "INVALID_KIND", "kind 仅支持 formula 或 cask"),
        (
            PlanError::InvalidAction,
            "INVALID_ACTION",
            "action 仅支持 info / doctor / install / uninstall / upgrade / upgrade_all",
        ),
    ];
    for (e, code, message) in cases {
        let r: ApiResponse<bool> = plan_error_response(e);
        assert!(!r.ok);
        assert!(r.data.is_none());
        assert_eq!(r.error_code.as_deref(), Some(code));
        assert_eq!(r.message, message);
    }
}

#[test]
fn run_edge_responses() {
    let r: ApiResponse<bool> = brew_not_found_response();
    assert!(!r.ok);
    assert_eq!(r.error_code.as_deref(), Some("BREW_NOT_FOUND"));
    assert_eq!(r.message, "未找到 brew");

    let r: ApiResponse<bool> = spawn_failed_response("permission denied");
    assert_eq!(r.error_code.as_deref(), Some("SPAWN_FAILED"));
    assert_eq!(r.message, "启动 brew 失败: permission denied");

    let r: ApiResponse<bool> = pipe_failed_response(SourceKind::Stdout);
    assert_eq!(r.error_code.as_deref(), Some("STDOUT_PIPE_FAILED"));
    assert_eq!(r.message, "无法读取 stdout");
    let r: ApiResponse<bool> = pipe_failed_response(SourceKind::Stderr);
    assert_eq!(r.error_code.as_deref(), Some("STDERR_PIPE_FAILED"));
    assert_eq!(r.message, "无法读取 stderr");

    let r: ApiResponse<bool> = wait_failed_response("interrupted");
    assert_eq!(r.error_code.as_deref(), Some("WAIT_FAILED"));
    assert_eq!(r.message, "等待命令结束失败: interrupted");
}

#[test]
fn missing_executable_refuses_before_any_event() {
    // no executable: the run is refused with BREW_NOT_FOUND and nothing is
    // spawned or emitted for it
    let r = stream_preflight(None, "doctor", None, None);
    let refusal = r.err().expect("no executable refuses the run");
    assert!(!refusal.ok);
    assert_eq!(refusal.error_code.as_deref(), Some("BREW_NOT_FOUND"));

    // with an executable the same request goes through with its arguments
    let r = stream_preflight(Some(String::from("/usr/local/bin/brew")), "doctor", None, None);
    let (brew, args) = r.ok().expect("a valid request goes through");
    assert_eq!(brew, "/usr/local/bin/brew");
    assert_eq!(args, vec![String::from("doctor")]);

    // a refused request is also caught before anything runs
    let r = stream_preflight(
        Some(String::from("brew")),
        "install",
        Some(String::from("bad name")),
        None,
    );
    let refusal = r.err().expect("an invalid name refuses the run");
    assert_eq!(refusal.error_code.as_deref(), Some("INVALID_NAME"));
}

#[test]
fn final_response_mirrors_exit_success() {
    let r = stream_final_response(true);
    assert!(r.ok);
    assert_eq!(r.data, Some(true));
    assert!(r.error_code.is_none());
    assert_eq!(r.message, "命令执行完成");

    let r = stream_final_response(false);
    assert!(!r.ok);
    assert!(r.data.is_none());
    assert_eq!(r.error_code.as_deref(), Some("COMMAND_FAILED"));
    assert_eq!(r.message, "命令执行失败，请查看输出");
}
