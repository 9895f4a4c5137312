//! The decision halves of the one-shot commands: each takes the plain
//! values the process runner captured — exit success and the full output
//! text — and builds the exact response the caller receives. Spawning and
//! capturing are I/O and stay outside the library; these functions are
//! verified for every outcome that can come back.

use vstd::prelude::*;

use crate::order::pkg_record_view;
use crate::order::records_view;
use crate::order::sort_packages_by_name;
use crate::order::sorted_records;
use crate::parse::first_line;
use crate::parse::first_line_spec;
use crate::parse::package_entries;
use crate::parse::parse_package_lines;
use crate::parse::parse_search_lines;
use crate::parse::parse_tap_lines;
use crate::parse::search_entries;
use crate::parse::tap_entries;
use crate::text::split_lines_spec;
use crate::types::ApiResponse;
use crate::types::BrewPackage;
use crate::types::BrewStatus;
use crate::types::err;
use crate::types::ok;

verus! {

/// What came back from running the process to completion: the exit
/// success flag with the captured output texts, or the launcher's failure
/// report.
pub enum CaptureOutcome {
    Captured { success: bool, stdout: String, stderr: String },
    LaunchFailed { message: String },
}

/// The one-shot commands' own pre-run decision: with no executable found
/// nothing is launched and the run's result is the fixed error text;
/// otherwise the found executable is handed back to be run.
pub fn one_shot_preflight(detected: Option<String>) -> (r: Result<String, String>)
    ensures
        detected is None ==> r is Err && r->Err_0@ == "brew not found"@,
        detected matches Some(b) ==> r is Ok && r->Ok_0@ == b@,
{
    match detected {
        Some(b) => Ok(b),
        None => Err("brew not found".to_owned()),
    }
}

/// Maps a completed capture to the one-shot result: captured stdout on
/// success, captured stderr on a failing exit, and the launcher's report —
/// prefixed — when the process never ran.
pub fn capture_to_result(outcome: CaptureOutcome) -> (r: Result<String, String>)
    ensures
        outcome matches CaptureOutcome::Captured { success: true, stdout, stderr } ==> r is Ok
            && r->Ok_0@ == stdout@,
        outcome matches CaptureOutcome::Captured { success: false, stdout, stderr } ==> r is Err
            && r->Err_0@ == stderr@,
        outcome matches CaptureOutcome::LaunchFailed { message } ==> r is Err && r->Err_0@
            == "failed to execute brew: "@ + message@,
{
    match outcome {
        CaptureOutcome::Captured { success, stdout, stderr } => {
            if success {
                Ok(stdout)
            } else {
                Err(stderr)
            }
        },
        CaptureOutcome::LaunchFailed { message } => {
            let mut m = "failed to execute brew: ".to_owned();
            m.append(message.as_str());
            Err(m)
        },
    }
}

/// Builds the status response from the probe of `brew --version` at
/// `path`: on a successful exit the first output line is the version
/// banner; a failing exit or a failed launch is reported with its own
/// error code.
pub fn brew_status_response(path: String, probe: CaptureOutcome) -> (r: ApiResponse<BrewStatus>)
    ensures
        probe matches CaptureOutcome::Captured { success: true, stdout, stderr } ==> r.ok
            && r.data is Some && r.data->0.brew_path@ == path@ && r.data->0.version@
            == first_line_spec(stdout@) && r.error_code is None && r.message@ == "brew 可用"@,
        probe matches CaptureOutcome::Captured { success: false, stdout, stderr } ==> !r.ok
            && r.data is None && r.error_code is Some && r.error_code->0@
            == "BREW_VERSION_FAILED"@ && r.message@ == stderr@,
        probe matches CaptureOutcome::LaunchFailed { message } ==> !r.ok && r.data is None
            && r.error_code is Some && r.error_code->0@ == "BREW_EXEC_FAILED"@ && r.message@
            == "执行 brew 失败: "@ + message@,
{
    match probe {
        CaptureOutcome::Captured { success, stdout, stderr } => {
            if success {
                let version = first_line(stdout.as_str());
                ok(BrewStatus { brew_path: path, version }, "brew 可用")
            } else {
                err("BREW_VERSION_FAILED", stderr.as_str())
            }
        },
        CaptureOutcome::LaunchFailed { message } => {
            let mut m = "执行 brew 失败: ".to_owned();
            m.append(message.as_str());
            err("BREW_EXEC_FAILED", m.as_str())
        },
    }
}

/// Builds the status response for a machine where no candidate location
/// holds the executable.
pub fn status_not_found_response() -> (r: ApiResponse<BrewStatus>)
    ensures
        !r.ok,
        r.data is None,
        r.error_code is Some && r.error_code->0@ == "BREW_NOT_FOUND"@,
        r.message@ == "未找到 brew，请先确认 Linuxbrew 安装路径"@,
{
    err("BREW_NOT_FOUND", "未找到 brew，请先确认 Linuxbrew 安装路径")
}

/// The records of an installed listing: the formula lines then the cask
/// lines, each non-blank line giving a name and an optional version.
pub open spec fn installed_records(f: Seq<char>, c: Seq<char>) -> Seq<
    (Seq<char>, Option<Seq<char>>, Seq<char>),
> {
    package_entries(split_lines_spec(f), true).map_values(
        |e: (Seq<char>, Option<Seq<char>>)| (e.0, e.1, "formula"@),
    ) + package_entries(split_lines_spec(c), true).map_values(
        |e: (Seq<char>, Option<Seq<char>>)| (e.0, e.1, "cask"@),
    )
}

/// Builds the installed-packages response: the formula listing's failure
/// wins, then the cask listing's; otherwise every entry of both listings,
/// sorted by name.
pub fn list_installed_response(formulas: Result<String, String>, casks: Result<String, String>)
    -> (r: ApiResponse<Vec<BrewPackage>>)
    ensures
        formulas matches Err(e) ==> !r.ok && r.data is None && r.error_code is Some
            && r.error_code->0@ == "BREW_LIST_FORMULA_FAILED"@ && r.message@ == e@,
        formulas is Ok ==> (casks matches Err(e) ==> !r.ok && r.data is None
            && r.error_code is Some && r.error_code->0@ == "BREW_LIST_CASK_FAILED"@
            && r.message@ == e@),
        formulas matches Ok(f) ==> (casks matches Ok(c) ==> r.ok && r.error_code is None
            && r.data is Some && sorted_records(records_view(r.data->0@)) && records_view(
            r.data->0@,
        ).to_multiset() == installed_records(f@, c@).to_multiset() && r.message@
            == "已获取安装列表"@),
{
    match (formulas, casks) {
        (Err(e), _) => err("BREW_LIST_FORMULA_FAILED", e.as_str()),
        (Ok(_), Err(e)) => err("BREW_LIST_CASK_FAILED", e.as_str()),
        (Ok(f), Ok(c)) => {
            let mut out = parse_package_lines(f.as_str(), "formula", true);
            let mut cask_part = parse_package_lines(c.as_str(), "cask", true);
            let ghost out0 = out@;
            let ghost cask0 = cask_part@;
            out.append(&mut cask_part);
            proof {
                assert(records_view(out@) =~= installed_records(f@, c@)) by {
                    assert(out@ =~= out0 + cask0);
                    assert forall|k: int| 0 <= k < records_view(out@).len() implies records_view(
                        out@,
                    )[k] == installed_records(f@, c@)[k] by {
                        if k < out0.len() {
                            assert(out@[k] == out0[k]);
                            assert(records_view(out@)[k] == pkg_record_view(out0[k]));
                        } else {
                            assert(out@[k] == cask0[k - out0.len()]);
                            assert(records_view(out@)[k] == pkg_record_view(
                                cask0[k - out0.len()],
                            ));
                        }
                    }
                }
            }
            sort_packages_by_name(&mut out);
            proof {
                assert(sorted_records(records_view(out@))) by {
                    assert forall|i: int, j: int|
                        0 <= i < j < records_view(out@).len() implies crate::order::lex_le(
                        (#[trigger] records_view(out@)[i]).0,
                        (#[trigger] records_view(out@)[j]).0,
                    ) by {
                        assert(records_view(out@)[i].0 == out@[i].name@);
                        assert(records_view(out@)[j].0 == out@[j].name@);
                    }
                }
            }
            ok(out, "已获取安装列表")
        },
    }
}

/// The records of an outdated listing: one per non-blank line of either
/// listing, with no version column.
pub open spec fn outdated_records(f: Seq<char>, c: Seq<char>) -> Seq<
    (Seq<char>, Option<Seq<char>>, Seq<char>),
> {
    package_entries(split_lines_spec(f), false).map_values(
        |e: (Seq<char>, Option<Seq<char>>)| (e.0, e.1, "formula"@),
    ) + package_entries(split_lines_spec(c), false).map_values(
        |e: (Seq<char>, Option<Seq<char>>)| (e.0, e.1, "cask"@),
    )
}

/// Builds the outdated-packages response: the formula listing's failure
/// wins, then the cask listing's; otherwise every entry of both listings,
/// sorted by name, with no versions.
pub fn outdated_response(formulas: Result<String, String>, casks: Result<String, String>) -> (r:
    ApiResponse<Vec<BrewPackage>>)
    ensures
        formulas matches Err(e) ==> !r.ok && r.data is None && r.error_code is Some
            && r.error_code->0@ == "BREW_OUTDATED_FORMULA_FAILED"@ && r.message@ == e@,
        formulas is Ok ==> (casks matches Err(e) ==> !r.ok && r.data is None
            && r.error_code is Some && r.error_code->0@ == "BREW_OUTDATED_CASK_FAILED"@
            && r.message@ == e@),
        formulas matches Ok(f) ==> (casks matches Ok(c) ==> r.ok && r.error_code is None
            && r.data is Some && sorted_records(records_view(r.data->0@)) && records_view(
            r.data->0@,
        ).to_multiset() == outdated_records(f@, c@).to_multiset() && r.message@
            == "已获取可升级列表"@),
{
    match (formulas, casks) {
        (Err(e), _) => err("BREW_OUTDATED_FORMULA_FAILED", e.as_str()),
        (Ok(_), Err(e)) => err("BREW_OUTDATED_CASK_FAILED", e.as_str()),
        (Ok(f), Ok(c)) => {
            let mut out = parse_package_lines(f.as_str(), "formula", false);
            let mut cask_part = parse_package_lines(c.as_str(), "cask", false);
            let ghost out0 = out@;
            let ghost cask0 = cask_part@;
            out.append(&mut cask_part);
            proof {
                assert(records_view(out@) =~= outdated_records(f@, c@)) by {
                    assert(out@ =~= out0 + cask0);
                    assert forall|k: int| 0 <= k < records_view(out@).len() implies records_view(
                        out@,
                    )[k] == outdated_records(f@, c@)[k] by {
                        if k < out0.len() {
                            assert(out@[k] == out0[k]);
                            assert(records_view(out@)[k] == pkg_record_view(out0[k]));
                        } else {
                            assert(out@[k] == cask0[k - out0.len()]);
                            assert(records_view(out@)[k] == pkg_record_view(
                                cask0[k - out0.len()],
                            ));
                        }
                    }
                }
            }
            sort_packages_by_name(&mut out);
            proof {
                assert(sorted_records(records_view(out@))) by {
                    assert forall|i: int, j: int|
                        0 <= i < j < records_view(out@).len() implies crate::order::lex_le(
                        (#[trigger] records_view(out@)[i]).0,
                        (#[trigger] records_view(out@)[j]).0,
                    ) by {
                        assert(records_view(out@)[i].0 == out@[i].name@);
                        assert(records_view(out@)[j].0 == out@[j].name@);
                    }
                }
            }
            ok(out, "已获取可升级列表")
        },
    }
}

/// The records a search answer offers: the formula names then the cask
/// names, in listing order.
pub open spec fn search_records(f: Seq<char>, c: Seq<char>) -> Seq<
    (Seq<char>, Option<Seq<char>>, Seq<char>),
> {
    search_entries(split_lines_spec(f)).map_values(
        |n: Seq<char>| (n, Option::<Seq<char>>::None, "formula"@),
    ) + search_entries(split_lines_spec(c)).map_values(
        |n: Seq<char>| (n, Option::<Seq<char>>::None, "cask"@),
    )
}

/// Builds the search response from the two listings' texts. A listing
/// whose sub-invocation failed is handed in as empty text: a failure of
/// one source is deliberately not propagated while the other may still
/// offer results. No match at all is reported as its own error.
pub fn search_response(formula_results: &str, cask_results: &str) -> (r: ApiResponse<
    Vec<BrewPackage>,
>)
    ensures
        search_records(formula_results@, cask_results@).len() == 0 ==> !r.ok && r.data is None
            && r.error_code is Some && r.error_code->0@ == "NO_RESULTS"@ && r.message@
            == "未找到匹配的包"@,
        search_records(formula_results@, cask_results@).len() > 0 ==> r.ok
            && r.error_code is None && r.data is Some && records_view(r.data->0@)
            == search_records(formula_results@, cask_results@) && r.message@ == "搜索完成"@,
{
    let f_names = parse_search_lines(formula_results);
    let c_names = parse_search_lines(cask_results);
    let mut pkgs: Vec<BrewPackage> = Vec::new();
    let mut i: usize = 0;
    let ghost fv = f_names@.map_values(|s: String| s@);
    let ghost cv = c_names@.map_values(|s: String| s@);
    while i < f_names.len()
        invariant
            fv == f_names@.map_values(|s: String| s@),
            0 <= i <= f_names@.len(),
            records_view(pkgs@) =~= fv.take(
                i as int,
            ).map_values(|n: Seq<char>| (n, Option::<Seq<char>>::None, "formula"@)),
        decreases f_names@.len() - i,
    {
        let name = f_names[i].clone();
        proof {
            assert(name@ == fv[i as int]);
        }
        let p = BrewPackage { name, version: None, kind: "formula".to_owned() };
        proof {
            let mapped = |n: Seq<char>| (n, Option::<Seq<char>>::None, "formula"@);
            assert(records_view(pkgs@.push(p)) =~= records_view(pkgs@).push(
                pkg_record_view(p),
            ));
            assert(fv.take(i as int + 1).map_values(mapped) =~= fv.take(i as int).map_values(
                mapped,
            ).push(mapped(fv[i as int])));
        }
        pkgs.push(p);
        i += 1;
    }
    proof {
        assert(fv.take(fv.len() as int) =~= fv);
    }
    let mut j: usize = 0;
    while j < c_names.len()
        invariant
            fv == f_names@.map_values(|s: String| s@),
            cv == c_names@.map_values(|s: String| s@),
            0 <= j <= c_names@.len(),
            records_view(pkgs@) =~= fv.map_values(
                |n: Seq<char>| (n, Option::<Seq<char>>::None, "formula"@),
            ) + cv.take(j as int).map_values(
                |n: Seq<char>| (n, Option::<Seq<char>>::None, "cask"@),
            ),
        decreases c_names@.len() - j,
    {
        let name = c_names[j].clone();
        proof {
            assert(name@ == cv[j as int]);
        }
        let p = BrewPackage { name, version: None, kind: "cask".to_owned() };
        proof {
            let mapped = |n: Seq<char>| (n, Option::<Seq<char>>::None, "cask"@);
            assert(records_view(pkgs@.push(p)) =~= records_view(pkgs@).push(
                pkg_record_view(p),
            ));
            assert(cv.take(j as int + 1).map_values(mapped) =~= cv.take(j as int).map_values(
                mapped,
            ).push(mapped(cv[j as int])));
        }
        pkgs.push(p);
        j += 1;
    }
    proof {
        assert(cv.take(cv.len() as int) =~= cv);
        assert(records_view(pkgs@) =~= search_records(
            formula_results@,
            cask_results@,
        ));
    }
    if pkgs.len() == 0 {
        err("NO_RESULTS", "未找到匹配的包")
    } else {
        ok(pkgs, "搜索完成")
    }
}

/// Builds the tap-list response: on success one entry per non-empty
/// trimmed line, in listing order.
pub fn tap_list_response(result: Result<String, String>) -> (r: ApiResponse<Vec<String>>)
    ensures
        result matches Err(e) ==> !r.ok && r.data is None && r.error_code is Some
            && r.error_code->0@ == "TAP_LIST_FAILED"@ && r.message@ == e@,
        result matches Ok(s) ==> r.ok && r.error_code is None && r.data is Some
            && r.data->0@.map_values(|t: String| t@) == tap_entries(split_lines_spec(s@))
            && r.message@ == "加载成功"@,
{
    match result {
        Err(e) => err("TAP_LIST_FAILED", e.as_str()),
        Ok(s) => {
            let taps = parse_tap_lines(s.as_str());
            ok(taps, "加载成功")
        },
    }
}

/// Builds the failing response for a search with a blank query; nothing is
/// run for such a request.
pub fn empty_query_response<T>() -> (r: ApiResponse<T>)
    ensures
        !r.ok,
        r.data is None,
        r.error_code is Some && r.error_code->0@ == "EMPTY_QUERY"@,
        r.message@ == "搜索词不能为空"@,
{
    err("EMPTY_QUERY", "搜索词不能为空")
}

/// Builds the uniform response of the commands that hand their captured
/// stdout through: the given success message around the output on
/// success, the given error code around the captured stderr on failure.
pub fn command_result_response(result: Result<String, String>, success_message: &str, fail_code:
    &str) -> (r: ApiResponse<String>)
    ensures
        result matches Ok(s) ==> r.ok && r.error_code is None && r.data is Some
            && r.data->0@ == s@ && r.message@ == success_message@,
        result matches Err(e) ==> !r.ok && r.data is None && r.error_code is Some
            && r.error_code->0@ == fail_code@ && r.message@ == e@,
{
    match result {
        Ok(s) => ok(s, success_message),
        Err(e) => err(fail_code, e.as_str()),
    }
}

} // verus!
