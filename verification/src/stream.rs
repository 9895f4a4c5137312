//! Validation and argument shaping for one streamed run, and the responses
//! the executor returns to its immediate caller. The argument plan decides,
//! from the requested action, optional package or tap name and optional
//! kind, either the exact argument list handed to the spawned process or
//! the exact error to report — before anything is spawned or emitted.

use vstd::prelude::*;

use crate::pkg::valid_pkg_name;
use crate::pkg::is_valid_pkg_name;
use crate::text::blank;
use crate::text::is_blank;
use crate::text::str_eq;
use crate::types::ApiResponse;
use crate::types::err;
use crate::types::ok;

verus! {

/// Why a streamed run was refused before spawning anything.
#[derive(Clone, Copy, PartialEq, Eq, Structural, Debug)]
pub enum PlanError {
    MissingTapName,
    EmptyTapName,
    MissingPkgName,
    InvalidPkgName,
    InvalidKind,
    InvalidAction,
}

/// The actions that take a package name and a kind.
pub open spec fn pkg_verb(action: Seq<char>) -> bool {
    action == "info"@ || action == "install"@ || action == "uninstall"@ || action
        == "upgrade"@
}

/// View of an optional owned string.
pub open spec fn opt_str_view(o: Option<String>) -> Option<Seq<char>> {
    match o {
        Some(s) => Some(s@),
        None => None,
    }
}

/// View of an argument list.
pub open spec fn args_view(v: Seq<String>) -> Seq<Seq<char>> {
    v.map_values(|s: String| s@)
}

/// The exact argument list, or the exact refusal, for one requested
/// streamed action: `doctor` and `upgrade_all` take no name; `tap` and
/// `untap` take a non-blank tap name; `info`, `install`, `uninstall` and
/// `upgrade` take a valid package name and a kind of `formula` (the
/// default) or `cask`, the latter adding `--cask` before the name.
pub open spec fn plan_spec(
    action: Seq<char>,
    name: Option<Seq<char>>,
    kind: Option<Seq<char>>,
) -> Result<Seq<Seq<char>>, PlanError> {
    if action == "doctor"@ {
        Ok(seq!["doctor"@])
    } else if action == "upgrade_all"@ {
        Ok(seq!["upgrade"@])
    } else if action == "tap"@ || action == "untap"@ {
        match name {
            None => Err(PlanError::MissingTapName),
            Some(n) => if is_blank(n) {
                Err(PlanError::EmptyTapName)
            } else {
                Ok(seq![action, n])
            },
        }
    } else if pkg_verb(action) {
        match name {
            None => Err(PlanError::MissingPkgName),
            Some(n) => if !valid_pkg_name(n) {
                Err(PlanError::InvalidPkgName)
            } else {
                let k = match kind {
                    Some(k) => k,
                    None => "formula"@,
                };
                if k == "cask"@ {
                    Ok(seq![action, "--cask"@, n])
                } else if k == "formula"@ {
                    Ok(seq![action, n])
                } else {
                    Err(PlanError::InvalidKind)
                }
            },
        }
    } else {
        Err(PlanError::InvalidAction)
    }
}

/// Builds the argument list for one streamed action, or reports exactly why
/// the request is refused; nothing is spawned and no event is emitted on
/// refusal.
pub fn plan_stream_command(action: &str, name: Option<String>, kind: Option<String>) -> (r:
    Result<Vec<String>, PlanError>)
    ensures
        r is Ok <==> plan_spec(action@, opt_str_view(name), opt_str_view(kind)) is Ok,
        r is Ok ==> args_view(r->Ok_0@) == plan_spec(
            action@,
            opt_str_view(name),
            opt_str_view(kind),
        )->Ok_0,
        r is Err ==> r->Err_0 == plan_spec(
            action@,
            opt_str_view(name),
            opt_str_view(kind),
        )->Err_0,
{
    if str_eq(action, "doctor") {
        let args: Vec<String> = vec!["doctor".to_owned()];
        proof {
            assert(args_view(args@) =~= seq!["doctor"@]);
            assert(plan_spec(action@, opt_str_view(name), opt_str_view(kind)) == Ok::<Seq<Seq<char>>, PlanError>(args_view(args@)));
        }
        Ok(args)
    } else if str_eq(action, "upgrade_all") {
        let args: Vec<String> = vec!["upgrade".to_owned()];
        proof {
            assert(args_view(args@) =~= seq!["upgrade"@]);
            assert(plan_spec(action@, opt_str_view(name), opt_str_view(kind)) == Ok::<Seq<Seq<char>>, PlanError>(args_view(args@)));
        }
        Ok(args)
    } else if str_eq(action, "tap") || str_eq(action, "untap") {
        match name {
            None => Err(PlanError::MissingTapName),
            Some(n) => {
                if blank(n.as_str()) {
                    Err(PlanError::EmptyTapName)
                } else {
                    let args: Vec<String> = vec![action.to_owned(), n];
                    proof {
                        assert(args_view(args@) =~= seq![action@, args@[1]@]);
                        assert(plan_spec(action@, opt_str_view(name), opt_str_view(kind)) == Ok::<Seq<Seq<char>>, PlanError>(args_view(args@)));
                    }
                    Ok(args)
                }
            },
        }
    } else if str_eq(action, "info") || str_eq(action, "install") || str_eq(action, "uninstall")
        || str_eq(action, "upgrade") {
        match name {
            None => Err(PlanError::MissingPkgName),
            Some(n) => {
                if !is_valid_pkg_name(n.as_str()) {
                    Err(PlanError::InvalidPkgName)
                } else {
                    let cask = match &kind {
                        Some(k) => str_eq(k.as_str(), "cask"),
                        None => false,
                    };
                    let formula = match &kind {
                        Some(k) => str_eq(k.as_str(), "formula"),
                        None => true,
                    };
                    if cask {
                        let args: Vec<String> = vec![
                            action.to_owned(),
                            "--cask".to_owned(),
                            n,
                        ];
                        proof {
                            assert(args_view(args@) =~= seq![action@, "--cask"@, args@[2]@]);
                            assert(plan_spec(action@, opt_str_view(name), opt_str_view(kind)) == Ok::<Seq<Seq<char>>, PlanError>(args_view(args@)));
                        }
                        Ok(args)
                    } else if formula {
                        let args: Vec<String> = vec![action.to_owned(), n];
                        proof {
                            reveal_strlit("formula");
                            reveal_strlit("cask");
                            assert("formula"@.len() != "cask"@.len());
                            assert(args_view(args@) =~= seq![action@, args@[1]@]);
                            assert(plan_spec(action@, opt_str_view(name), opt_str_view(kind)) == Ok::<Seq<Seq<char>>, PlanError>(args_view(args@)));
                        }
                        Ok(args)
                    } else {
                        Err(PlanError::InvalidKind)
                    }
                }
            },
        }
    } else {
        Err(PlanError::InvalidAction)
    }
}

/// The whole pre-spawn decision of one streamed run: with no executable
/// found the run is refused with `BREW_NOT_FOUND`; with a refused request
/// it is refused with that refusal's code; otherwise the executable and the
/// exact argument list are handed back. A refused run spawns nothing and
/// emits no event: its publisher is never created.
pub fn stream_preflight(
    detected: Option<String>,
    action: &str,
    name: Option<String>,
    kind: Option<String>,
) -> (r: Result<(String, Vec<String>), ApiResponse<bool>>)
    ensures
        detected is None ==> r is Err && !r->Err_0.ok && r->Err_0.data is None
            && r->Err_0.error_code is Some && r->Err_0.error_code->0@ == "BREW_NOT_FOUND"@,
        detected matches Some(b) ==> {
            let plan = plan_spec(action@, opt_str_view(name), opt_str_view(kind));
            &&& (r is Ok <==> plan is Ok)
            &&& (r is Ok ==> r->Ok_0.0@ == b@ && args_view(r->Ok_0.1@) == plan->Ok_0)
            &&& (r is Err ==> !r->Err_0.ok && r->Err_0.data is None
                && r->Err_0.error_code is Some && r->Err_0.error_code->0@ == plan_error_code(
                plan->Err_0,
            ) && r->Err_0.message@ == plan_error_message(plan->Err_0))
        },
{
    let brew = match detected {
        Some(b) => b,
        None => {
            return Err(brew_not_found_response());
        },
    };
    match plan_stream_command(action, name, kind) {
        Ok(args) => Ok((brew, args)),
        Err(e) => Err(plan_error_response(e)),
    }
}

/// Error code of one refusal, as it appears in the response envelope.
pub open spec fn plan_error_code(e: PlanError) -> Seq<char> {
    match e {
        PlanError::MissingTapName => "INVALID_NAME"@,
        PlanError::EmptyTapName => "INVALID_NAME"@,
        PlanError::MissingPkgName => "INVALID_NAME"@,
        PlanError::InvalidPkgName => "INVALID_NAME"@,
        PlanError::InvalidKind => "INVALID_KIND"@,
        PlanError::InvalidAction => "INVALID_ACTION"@,
    }
}

/// Message of one refusal.
pub open spec fn plan_error_message(e: PlanError) -> Seq<char> {
    match e {
        PlanError::MissingTapName => "缺少 tap 名称"@,
        PlanError::EmptyTapName => "tap 名称不能为空"@,
        PlanError::MissingPkgName => "缺少包名"@,
        PlanError::InvalidPkgName => "包名不合法"@,
        PlanError::InvalidKind => "kind 仅支持 formula 或 cask"@,
        PlanError::InvalidAction => "action 仅支持 info / doctor / install / uninstall / upgrade / upgrade_all"@,
    }
}

/// Builds the failing response for one refused streamed request.
pub fn plan_error_response<T>(e: PlanError) -> (r: ApiResponse<T>)
    ensures
        r.ok == false,
        r.data is None,
        r.error_code is Some && r.error_code->0@ == plan_error_code(e),
        r.message@ == plan_error_message(e),
{
    match e {
        PlanError::MissingTapName => err("INVALID_NAME", "缺少 tap 名称"),
        PlanError::EmptyTapName => err("INVALID_NAME", "tap 名称不能为空"),
        PlanError::MissingPkgName => err("INVALID_NAME", "缺少包名"),
        PlanError::InvalidPkgName => err("INVALID_NAME", "包名不合法"),
        PlanError::InvalidKind => err("INVALID_KIND", "kind 仅支持 formula 或 cask"),
        PlanError::InvalidAction => err(
            "INVALID_ACTION",
            "action 仅支持 info / doctor / install / uninstall / upgrade / upgrade_all",
        ),
    }
}

/// Builds the failing response for a run whose executable was not found; no
/// `Start` or `End` event belongs to such a run.
pub fn brew_not_found_response<T>() -> (r: ApiResponse<T>)
    ensures
        r.ok == false,
        r.data is None,
        r.error_code is Some && r.error_code->0@ == "BREW_NOT_FOUND"@,
        r.message@ == "未找到 brew"@,
{
    err("BREW_NOT_FOUND", "未找到 brew")
}

/// Builds the failing response for a run whose process could not be
/// launched, carrying the launcher's own report.
pub fn spawn_failed_response<T>(detail: &str) -> (r: ApiResponse<T>)
    ensures
        r.ok == false,
        r.data is None,
        r.error_code is Some && r.error_code->0@ == "SPAWN_FAILED"@,
        r.message@ == "启动 brew 失败: "@ + detail@,
{
    let mut m = "启动 brew 失败: ".to_owned();
    m.append(detail);
    err("SPAWN_FAILED", m.as_str())
}

/// Builds the failing response for a run whose stdout or stderr handle
/// could not be obtained after a successful spawn.
pub fn pipe_failed_response<T>(source: crate::events::SourceKind) -> (r: ApiResponse<T>)
    ensures
        r.ok == false,
        r.data is None,
        r.error_code is Some,
        source is Stdout ==> r.error_code->0@ == "STDOUT_PIPE_FAILED"@ && r.message@
            == "无法读取 stdout"@,
        source is Stderr ==> r.error_code->0@ == "STDERR_PIPE_FAILED"@ && r.message@
            == "无法读取 stderr"@,
{
    match source {
        crate::events::SourceKind::Stdout => err("STDOUT_PIPE_FAILED", "无法读取 stdout"),
        crate::events::SourceKind::Stderr => err("STDERR_PIPE_FAILED", "无法读取 stderr"),
    }
}

/// Builds the failing response for a run whose final status could not be
/// obtained, carrying the OS's own report.
pub fn wait_failed_response<T>(detail: &str) -> (r: ApiResponse<T>)
    ensures
        r.ok == false,
        r.data is None,
        r.error_code is Some && r.error_code->0@ == "WAIT_FAILED"@,
        r.message@ == "等待命令结束失败: "@ + detail@,
{
    let mut m = "等待命令结束失败: ".to_owned();
    m.append(detail);
    err("WAIT_FAILED", m.as_str())
}

/// Builds the caller's immediate result once the event sequence has
/// completed: it mirrors the `End` event's success flag, which reflects the
/// exit status only.
pub fn stream_final_response(success: bool) -> (r: ApiResponse<bool>)
    ensures
        r.ok == success,
        success ==> r.data == Some(true) && r.error_code is None && r.message@
            == "命令执行完成"@,
        !success ==> r.data is None && r.error_code is Some && r.error_code->0@
            == "COMMAND_FAILED"@ && r.message@ == "命令执行失败，请查看输出"@,
{
    if success {
        ok(true, "命令执行完成")
    } else {
        err("COMMAND_FAILED", "命令执行失败，请查看输出")
    }
}

} // verus!
