//! The beginning and the end of a run: the state in which it starts, what is
//! logged of its launch, and how its outcome is written down.

use vstd::prelude::*;

use crate::config::{AutoRegisterConfig, AutoRegisterConfigView, ExecutionConfig};
use crate::outside::{debug_quoted, debug_string};
use crate::run::{slot_view, AutoRegisterState, RunView};
use crate::text::{
    clone_opt, contains, decimal, i64_to_string, join2, occurs_in, opt_text, push_string,
    signed_decimal, texts, u64_to_string,
};

verus! {

/// `config` with the count and the interval replaced where the caller names
/// them.
pub open spec fn with_overrides(
    config: AutoRegisterConfigView,
    count: Option<u32>,
    interval: Option<u32>,
) -> AutoRegisterConfigView {
    AutoRegisterConfigView {
        execution: ExecutionConfig {
            count: match count {
                Some(c) => c,
                None => config.execution.count,
            },
            interval: match interval {
                Some(i) => i,
                None => config.execution.interval,
            },
        },
        ..config
    }
}

/// Replaces the count and the interval of `config` where the caller names
/// them.
pub fn apply_overrides(config: AutoRegisterConfig, count: Option<u32>, interval: Option<u32>) -> (r:
    AutoRegisterConfig)
    ensures
        r@ == with_overrides(config@, count, interval),
{
    let mut config = config;
    if let Some(c) = count {
        config.execution.count = c;
    }
    if let Some(i) = interval {
        config.execution.interval = i;
    }
    config
}

/// The interpreter that the configuration asks for, or `None` where it is to
/// be searched.
pub fn requested_python(config: &AutoRegisterConfig) -> (r: Option<String>)
    ensures
        opt_text(r) == if config@.python.auto_detect {
            None
        } else {
            config@.python.python_path
        },
{
    if config.python.auto_detect {
        None
    } else {
        clone_opt(&config.python.python_path)
    }
}

/// The line that tells which mail box a run will read.
pub open spec fn mail_settings_line(config: AutoRegisterConfigView) -> Seq<char> {
    "[调试] 邮箱配置: IMAP="@ + config.email.imap_server + ", Email="@ + config.email.email
}

/// Notes the mail box of the coming run in the log of the state that is
/// still there from the last run, if there is one.
pub fn note_mail_settings(slot: &mut Option<AutoRegisterState>, config: &AutoRegisterConfig)
    ensures
        slot_view(*final(slot)) == match slot_view(*old(slot)) {
            Some(s) => Some(RunView { logs: s.logs.push(mail_settings_line(config@)), ..s }),
            None => None,
        },
{
    match slot {
        Some(s) => {
            let line = String::from_str("[调试] 邮箱配置: IMAP=").concat(
                config.email.imap_server.as_str(),
            ).concat(", Email=").concat(config.email.email.as_str());
            push_string(&mut s.logs, line);
        },
        None => {},
    }
}

/// The state in which a run of `total_count` registrations begins.
pub open spec fn fresh_run(total_count: u32, python: Seq<char>) -> RunView {
    RunView {
        is_running: true,
        should_stop: false,
        current_index: 0,
        total_count,
        current_step: "准备中..."@,
        logs: seq!["使用 Python: "@ + python, "开始自动注册流程"@],
        error: None,
        pending_email: None,
    }
}

/// The state in which a run begins: running, not cancelled, with nothing
/// pending and two lines in its log.
pub fn begin_run(total_count: u32, python: &str) -> (r: AutoRegisterState)
    ensures
        r@ == fresh_run(total_count, python@),
{
    let mut logs: Vec<String> = Vec::new();
    assert(texts(logs@) =~= Seq::empty());
    push_string(&mut logs, join2("使用 Python: ", python));
    push_string(&mut logs, String::from_str("开始自动注册流程"));
    assert(texts(logs@) =~= seq!["使用 Python: "@ + python@, "开始自动注册流程"@]);
    AutoRegisterState {
        is_running: true,
        should_stop: false,
        current_index: 0,
        total_count,
        current_step: String::from_str("准备中..."),
        logs,
        error: None,
        pending_email: None,
    }
}

/// The places that were tried, as characters.
pub open spec fn tried_view(v: Seq<(String, bool)>) -> Seq<(Seq<char>, bool)> {
    v.map_values(|t: (String, bool)| (t.0@, t.1))
}

/// Pairs of strings, as characters.
pub open spec fn pairs_view(v: Seq<(String, String)>) -> Seq<(Seq<char>, Seq<char>)> {
    v.map_values(|p: (String, String)| (p.0@, p.1@))
}

/// The error of a run whose script is not where it is looked for.
pub open spec fn missing_script_error(path: Seq<char>) -> Seq<char> {
    "脚本文件不存在: "@ + debug_quoted(path)
}

/// The line that tells of one place where the script was looked for.
pub open spec fn tried_line(t: (Seq<char>, bool)) -> Seq<char> {
    "尝试路径: "@ + debug_quoted(t.0) + " - "@ + if t.1 {
        "存在"@
    } else {
        "不存在"@
    }
}

/// What is logged of a script that was not found.
pub open spec fn missing_script_lines(
    path: Seq<char>,
    cwd: Seq<char>,
    tried: Seq<(Seq<char>, bool)>,
) -> Seq<Seq<char>> {
    seq![
        "错误: 脚本文件不存在"@,
        "查找路径: "@ + debug_quoted(path),
        "当前工作目录: "@ + debug_quoted(cwd),
    ] + tried.map_values(|t: (Seq<char>, bool)| tried_line(t))
}

/// The state after the script was not found.
pub open spec fn after_missing_script(
    s: RunView,
    path: Seq<char>,
    cwd: Seq<char>,
    tried: Seq<(Seq<char>, bool)>,
) -> RunView {
    RunView {
        is_running: false,
        error: Some(missing_script_error(path)),
        logs: s.logs + missing_script_lines(path, cwd, tried),
        ..s
    }
}

/// Ends a run whose script is not at `path`: the run stops with an error,
/// and the log tells where the script was looked for and whether each of the
/// places in `tried` exists. Returns the error.
pub fn fail_missing_script(
    state: &mut AutoRegisterState,
    path: &str,
    cwd: &str,
    tried: &Vec<(String, bool)>,
) -> (r: String)
    ensures
        final(state)@ == after_missing_script(old(state)@, path@, cwd@, tried_view(tried@)),
        r@ == missing_script_error(path@),
{
    let shown = debug_string(path);
    state.is_running = false;
    state.error = Some(join2("脚本文件不存在: ", shown.as_str()));
    push_string(&mut state.logs, String::from_str("错误: 脚本文件不存在"));
    push_string(&mut state.logs, join2("查找路径: ", shown.as_str()));
    push_string(&mut state.logs, join2("当前工作目录: ", debug_string(cwd).as_str()));
    let ghost head = old(state)@.logs + seq![
        "错误: 脚本文件不存在"@,
        "查找路径: "@ + debug_quoted(path@),
        "当前工作目录: "@ + debug_quoted(cwd@),
    ];
    assert(texts(state.logs@) =~= head);
    let mut i: usize = 0;
    while i < tried.len()
        invariant
            i <= tried.len(),
            texts(state.logs@) == head + tried_view(tried@).take(i as int).map_values(
                |t: (Seq<char>, bool)| tried_line(t),
            ),
            state.is_running == false,
            state.should_stop == old(state).should_stop,
            state.current_index == old(state).current_index,
            state.total_count == old(state).total_count,
            state.current_step == old(state).current_step,
            state.pending_email == old(state).pending_email,
            opt_text(state.error) == Some(missing_script_error(path@)),
        decreases tried.len() - i,
    {
        let place = &tried[i];
        let mark = if place.1 {
            "存在"
        } else {
            "不存在"
        };
        let line = String::from_str("尝试路径: ").concat(debug_string(place.0.as_str()).as_str())
            .concat(" - ").concat(mark);
        assert(line@ == tried_line(tried_view(tried@)[i as int]));
        push_string(&mut state.logs, line);
        assert(tried_view(tried@).take(i + 1).map_values(|t: (Seq<char>, bool)| tried_line(t))
            =~= tried_view(tried@).take(i as int).map_values(
            |t: (Seq<char>, bool)| tried_line(t),
        ).push(tried_line(tried_view(tried@)[i as int])));
        i += 1;
    }
    assert(tried_view(tried@).take(i as int) =~= tried_view(tried@));
    assert(head + tried_view(tried@).map_values(|t: (Seq<char>, bool)| tried_line(t))
        =~= old(state)@.logs + missing_script_lines(path@, cwd@, tried_view(tried@)));
    join2("脚本文件不存在: ", shown.as_str())
}

/// The arguments, each as `Debug` shows it, with a comma and a blank between
/// two of them.
pub open spec fn debug_joined(items: Seq<Seq<char>>) -> Seq<char>
    decreases items.len(),
{
    if items.len() == 0 {
        Seq::empty()
    } else if items.len() == 1 {
        debug_quoted(items[0])
    } else {
        debug_joined(items.drop_last()) + ", "@ + debug_quoted(items.last())
    }
}

/// A list of strings as `Debug` shows it.
pub open spec fn debug_list(items: Seq<Seq<char>>) -> Seq<char> {
    "["@ + debug_joined(items) + "]"@
}

/// Writes a list of strings as `Debug` shows it.
pub fn debug_strings(items: &Vec<String>) -> (r: String)
    ensures
        r@ == debug_list(texts(items@)),
{
    let mut out = String::from_str("[");
    let mut i: usize = 0;
    let ghost all = texts(items@);
    assert(all.take(0) =~= Seq::<Seq<char>>::empty());
    assert("["@ + Seq::<char>::empty() =~= "["@);
    while i < items.len()
        invariant
            i <= items.len(),
            all == texts(items@),
            out@ == "["@ + debug_joined(all.take(i as int)),
        decreases items.len() - i,
    {
        let ghost before = out@;
        if i > 0 {
            out.append(", ");
        }
        out.append(debug_string(items[i].as_str()).as_str());
        proof {
            let now = all.take(i + 1);
            assert(now.drop_last() =~= all.take(i as int));
            assert(now.last() == all[i as int]);
            if i == 0 {
                assert(before + debug_quoted(all[0]) =~= "["@ + debug_joined(now));
            } else {
                assert(before + ", "@ + debug_quoted(all[i as int]) =~= "["@ + debug_joined(now));
            }
        }
        i += 1;
    }
    assert(all.take(i as int) =~= all);
    out.append("]");
    out
}

/// The line that shows one variable of the worker's environment. The value
/// of a variable whose name holds `PASSWORD` is not shown.
pub open spec fn env_line(entry: (Seq<char>, Seq<char>)) -> Seq<char> {
    if occurs_in("PASSWORD"@, entry.0) {
        "  "@ + entry.0 + "=***"@
    } else {
        "  "@ + entry.0 + "="@ + entry.1
    }
}

/// What is logged of a launch.
pub open spec fn launch_lines(
    script: Seq<char>,
    workdir: Seq<char>,
    args: Seq<Seq<char>>,
    env: Seq<(Seq<char>, Seq<char>)>,
) -> Seq<Seq<char>> {
    seq![
        "脚本路径: "@ + debug_quoted(script),
        "工作目录: "@ + debug_quoted(workdir),
        "参数: "@ + debug_list(args),
        "环境变量数量: "@ + decimal(env.len()),
    ] + env.map_values(|e: (Seq<char>, Seq<char>)| env_line(e))
}

/// Logs with what the worker is launched: the script, its directory, its
/// arguments and its environment, without the values of passwords.
pub fn log_launch(
    state: &mut AutoRegisterState,
    script: &str,
    workdir: &str,
    args: &Vec<String>,
    env: &Vec<(String, String)>,
)
    ensures
        final(state)@ == (RunView {
            logs: old(state)@.logs + launch_lines(
                script@,
                workdir@,
                texts(args@),
                pairs_view(env@),
            ),
            ..old(state)@
        }),
{
    push_string(&mut state.logs, join2("脚本路径: ", debug_string(script).as_str()));
    push_string(&mut state.logs, join2("工作目录: ", debug_string(workdir).as_str()));
    push_string(&mut state.logs, join2("参数: ", debug_strings(args).as_str()));
    push_string(
        &mut state.logs,
        join2("环境变量数量: ", u64_to_string(env.len() as u64).as_str()),
    );
    let ghost head = old(state)@.logs + seq![
        "脚本路径: "@ + debug_quoted(script@),
        "工作目录: "@ + debug_quoted(workdir@),
        "参数: "@ + debug_list(texts(args@)),
        "环境变量数量: "@ + decimal(pairs_view(env@).len()),
    ];
    assert(texts(state.logs@) =~= head);
    let mut i: usize = 0;
    while i < env.len()
        invariant
            i <= env.len(),
            texts(state.logs@) == head + pairs_view(env@).take(i as int).map_values(
                |e: (Seq<char>, Seq<char>)| env_line(e),
            ),
            state.is_running == old(state).is_running,
            state.should_stop == old(state).should_stop,
            state.current_index == old(state).current_index,
            state.total_count == old(state).total_count,
            state.current_step == old(state).current_step,
            state.pending_email == old(state).pending_email,
            state.error == old(state).error,
        decreases env.len() - i,
    {
        let entry = &env[i];
        let line = if contains(entry.0.as_str(), "PASSWORD") {
            String::from_str("  ").concat(entry.0.as_str()).concat("=***")
        } else {
            String::from_str("  ").concat(entry.0.as_str()).concat("=").concat(entry.1.as_str())
        };
        assert(line@ == env_line(pairs_view(env@)[i as int]));
        push_string(&mut state.logs, line);
        assert(pairs_view(env@).take(i + 1).map_values(|e: (Seq<char>, Seq<char>)| env_line(e))
            =~= pairs_view(env@).take(i as int).map_values(
            |e: (Seq<char>, Seq<char>)| env_line(e),
        ).push(env_line(pairs_view(env@)[i as int])));
        i += 1;
    }
    assert(pairs_view(env@).take(i as int) =~= pairs_view(env@));
    assert(head + pairs_view(env@).map_values(|e: (Seq<char>, Seq<char>)| env_line(e))
        =~= old(state)@.logs + launch_lines(script@, workdir@, texts(args@), pairs_view(env@)));
}

/// The error of a run whose worker could not be started.
pub open spec fn spawn_error(reason: Seq<char>) -> Seq<char> {
    "启动脚本失败: "@ + reason
}

/// Ends a run whose worker could not be started: the run stops, and the
/// reason is its error and the last line of its log.
pub fn fail_spawn(state: &mut AutoRegisterState, reason: &str)
    ensures
        final(state)@ == (RunView {
            is_running: false,
            error: Some(spawn_error(reason@)),
            logs: old(state)@.logs.push(spawn_error(reason@)),
            ..old(state)@
        }),
{
    state.is_running = false;
    state.error = Some(join2("启动脚本失败: ", reason));
    push_string(&mut state.logs, join2("启动脚本失败: ", reason));
}

/// How the worker ended.
#[derive(Debug, Clone, Copy, PartialEq, Eq, Structural)]
pub enum ExitReport {
    /// The worker ended with success.
    Succeeded,
    /// The worker ended without success, with this exit code if it left one.
    Failed(Option<i32>),
    /// How the worker ended could not be found out.
    Unknown,
}

/// The exit code as it is shown, or `unknown` where there is none.
pub open spec fn exit_code_text(code: Option<i32>) -> Seq<char> {
    match code {
        Some(c) => signed_decimal(c as int),
        None => "unknown"@,
    }
}

/// The state after the worker ended by itself.
pub open spec fn after_exit(s: RunView, exit: ExitReport) -> RunView {
    match exit {
        ExitReport::Succeeded => RunView {
            is_running: false,
            error: None,
            logs: s.logs.push("注册流程完成"@),
            current_step: "注册完成"@,
            ..s
        },
        ExitReport::Failed(code) => RunView {
            is_running: false,
            error: Some("脚本执行失败，退出码: "@ + exit_code_text(code)),
            logs: s.logs.push("注册流程失败，退出码: "@ + exit_code_text(code)),
            ..s
        },
        ExitReport::Unknown => RunView {
            is_running: false,
            error: Some("无法获取进程状态"@),
            ..s
        },
    }
}

/// Writes down how a run ended whose worker ended by itself. A success
/// leaves no error and shows the run as done; a failure leaves an error that
/// names the exit code.
pub fn finish_run(state: &mut AutoRegisterState, exit: ExitReport)
    ensures
        final(state)@ == after_exit(old(state)@, exit),
{
    state.is_running = false;
    match exit {
        ExitReport::Succeeded => {
            state.error = None;
            push_string(&mut state.logs, String::from_str("注册流程完成"));
            state.current_step = String::from_str("注册完成");
        },
        ExitReport::Failed(code) => {
            let shown = match code {
                Some(c) => i64_to_string(c as i64),
                None => String::from_str("unknown"),
            };
            state.error = Some(join2("脚本执行失败，退出码: ", shown.as_str()));
            push_string(&mut state.logs, join2("注册流程失败，退出码: ", shown.as_str()));
        },
        ExitReport::Unknown => {
            state.error = Some(String::from_str("无法获取进程状态"));
        },
    }
}

} // verus!
