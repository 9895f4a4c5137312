use brew_manager::respond::CaptureOutcome;
use brew_manager::respond::capture_to_result;
use brew_manager::respond::one_shot_preflight;
use brew_manager::respond::status_not_found_response;
use brew_manager::respond::brew_status_response;
use brew_manager::respond::list_installed_response;
use brew_manager::respond::outdated_response;
use brew_manager::respond::search_response;
use brew_manager::respond::tap_list_response;
use brew_manager::respond::command_result_response;
use brew_manager::detect::brew_candidates;
use brew_manager::err;
use brew_manager::ok;

fn captured(success: bool, stdout: &str, stderr: &str) -> CaptureOutcome {
    CaptureOutcome::Captured {
        success,
        stdout: String::from(stdout),
        stderr: String::from(stderr),
    }
}

#[test]
fn capture_maps_to_result() {
    assert_eq!(
        capture_to_result(captured(true, "out text", "ignored")),
        Ok(String::from("out text"))
    );
    assert_eq!(
        capture_to_result(captured(false, "ignored", "err text")),
        Err(String::from("err text"))
    );
    assert_eq!(
        capture_to_result(CaptureOutcome::LaunchFailed {
            message: String::from("no such file")
        }),
        Err(String::from("failed to execute brew: no such file"))
    );
}

#[test]
fn status_response_reports_version_banner() {
    let r = brew_status_response(
        String::from("/usr/local/bin/brew"),
        captured(true, "Homebrew 4.2.0\nmore", ""),
    );
    assert!(r.ok);
    let status = r.data.expect("successful probe carries the status");
    assert_eq!(status.brew_path, "/usr/local/bin/brew");
    assert_eq!(status.version, "Homebrew 4.2.0");

    let r = brew_status_response(String::from("brew"), captured(false, "", "broken"));
    assert!(!r.ok);
    assert_eq!(r.error_code.as_deref(), Some("BREW_VERSION_FAILED"));
    assert_eq!(r.message, "broken");

    let r = brew_status_response(
        String::from("brew"),
        CaptureOutcome::LaunchFailed {
            message: String::from("not found"),
        },
    );
    assert_eq!(r.error_code.as_deref(), Some("BREW_EXEC_FAILED"));
    assert_eq!(r.message, "执行 brew 失败: not found");

    let r = status_not_found_response();
    assert!(!r.ok);
    assert_eq!(r.error_code.as_deref(), Some("BREW_NOT_FOUND"));
    assert_eq!(r.message, "未找到 brew，请先确认 Linuxbrew 安装路径");
}

#[test]
fn one_shot_runs_refuse_without_an_executable() {
    assert_eq!(one_shot_preflight(None), Err(String::from("brew not found")));
    assert_eq!(
        one_shot_preflight(Some(String::from("/usr/local/bin/brew"))),
        Ok(String::from("/usr/local/bin/brew"))
    );
}

#[test]
fn installed_listing_is_merged_and_sorted() {
    let r = list_installed_response(
        Ok(String::from("wget 1.21\nzsh 5.9\n")),
        Ok(String::from("alacritty 0.13\n")),
    );
    assert!(r.ok);
    let pkgs = r.data.expect("both listings parsed");
    let shape: Vec<(String, Option<String>, String)> = pkgs
        .iter()
        .map(|p| (p.name.clone(), p.version.clone(), p.kind.clone()))
        .collect();
    assert_eq!(
        shape,
        vec![
            (
                String::from("alacritty"),
                Some(String::from("0.13")),
                String::from("cask")
            ),
            (
                String::from("wget"),
                Some(String::from("1.21")),
                String::from("formula")
            ),
            (String::from("zsh"), Some(String::from("5.9")), String::from("formula")),
        ]
    );
}

#[test]
fn equal_names_keep_formula_before_cask() {
    let r = list_installed_response(
        Ok(String::from("twin 1.0\n")),
        Ok(String::from("twin 2.0\n")),
    );
    let pkgs = r.data.expect("both listings parsed");
    assert_eq!(pkgs.len(), 2);
    assert_eq!(pkgs[0].name, "twin");
    assert_eq!(pkgs[0].kind, "formula");
    assert_eq!(pkgs[1].name, "twin");
    assert_eq!(pkgs[1].kind, "cask");
}

#[test]
fn installed_listing_failures_win_in_order() {
    let r = list_installed_response(Err(String::from("boom")), Ok(String::from("")));
    assert!(!r.ok);
    assert_eq!(r.error_code.as_deref(), Some("BREW_LIST_FORMULA_FAILED"));
    assert_eq!(r.message, "boom");

    let r = list_installed_response(Ok(String::from("")), Err(String::from("casks broke")));
    assert_eq!(r.error_code.as_deref(), Some("BREW_LIST_CASK_FAILED"));
    assert_eq!(r.message, "casks broke");
}

#[test]
fn outdated_listing_has_no_versions() {
    let r = outdated_response(
        Ok(String::from("wget 1.21 1.22\n")),
        Ok(String::from("firefox\n")),
    );
    assert!(r.ok);
    let pkgs = r.data.expect("both listings parsed");
    assert_eq!(pkgs.len(), 2);
    assert_eq!(pkgs[0].name, "firefox");
    assert_eq!(pkgs[0].kind, "cask");
    assert!(pkgs[0].version.is_none());
    assert_eq!(pkgs[1].name, "wget");
    assert!(pkgs[1].version.is_none());

    let r = outdated_response(Err(String::from("nope")), Ok(String::from("")));
    assert_eq!(r.error_code.as_deref(), Some("BREW_OUTDATED_FORMULA_FAILED"));
    let r = outdated_response(Ok(String::from("")), Err(String::from("nope")));
    assert_eq!(r.error_code.as_deref(), Some("BREW_OUTDATED_CASK_FAILED"));
}

#[test]
fn search_keeps_listing_order_and_kinds() {
    let r = search_response("==> Formulae\nwget\nwget2\n", "wget-cask\n");
    assert!(r.ok);
    let pkgs = r.data.expect("matches found");
    let shape: Vec<(String, String)> = pkgs
        .iter()
        .map(|p| (p.name.clone(), p.kind.clone()))
        .collect();
    assert_eq!(
        shape,
        vec![
            (String::from("wget"), String::from("formula")),
            (String::from("wget2"), String::from("formula")),
            (String::from("wget-cask"), String::from("cask")),
        ]
    );
    assert!(pkgs.iter().all(|p| p.version.is_none()));
}

#[test]
fn search_with_no_matches_is_an_error() {
    let r = search_response("==> Formulae\n", "   \n");
    assert!(!r.ok);
    assert!(r.data.is_none());
    assert_eq!(r.error_code.as_deref(), Some("NO_RESULTS"));
}

#[test]
fn tap_list_responses() {
    let r = tap_list_response(Ok(String::from("homebrew/core\n homebrew/cask \n\n")));
    assert!(r.ok);
    assert_eq!(
        r.data.expect("taps parsed"),
        vec![String::from("homebrew/core"), String::from("homebrew/cask")]
    );

    let r = tap_list_response(Err(String::from("tap broke")));
    assert_eq!(r.error_code.as_deref(), Some("TAP_LIST_FAILED"));
    assert_eq!(r.message, "tap broke");
}

#[test]
fn command_results_wrap_output_or_error() {
    let r = command_result_response(Ok(String::from("installed fine")), "install finished", "INSTALL_FAILED");
    assert!(r.ok);
    assert_eq!(r.data.as_deref(), Some("installed fine"));
    assert_eq!(r.message, "install finished");

    let r = command_result_response(Err(String::from("conflict")), "install finished", "INSTALL_FAILED");
    assert!(!r.ok);
    assert_eq!(r.error_code.as_deref(), Some("INSTALL_FAILED"));
    assert_eq!(r.message, "conflict");
}

#[test]
fn candidate_paths_in_priority_order() {
    assert_eq!(
        brew_candidates(),
        vec![
            String::from("/home/linuxbrew/.linuxbrew/bin/brew"),
            String::from("/linuxbrew/.linuxbrew/bin/brew"),
            String::from("/usr/local/bin/brew"),
            String::from("/opt/homebrew/bin/brew"),
            String::from("brew"),
        ]
    );
}

#[test]
fn envelope_builders() {
    let r = ok(41_u32, "all good");
    assert!(r.ok);
    assert_eq!(r.data, Some(41));
    assert!(r.error_code.is_none());
    assert_eq!(r.message, "all good");

    let r: brew_manager::ApiResponse<u32> = err("SOME_CODE", "went wrong");
    assert!(!r.ok);
    assert!(r.data.is_none());
    assert_eq!(r.error_code.as_deref(), Some("SOME_CODE"));
    assert_eq!(r.message, "went wrong");
}
