use kiro_account_manager::config::AutoRegisterConfig;
use kiro_account_manager::history::AutoRegisterConfigStore;
use kiro_account_manager::launch::{
    apply_overrides, begin_run, debug_strings, fail_missing_script, fail_spawn, finish_run,
    log_launch, note_mail_settings, requested_python, ExitReport,
};
use kiro_account_manager::run::{
    ensure_idle, get_registration_progress, notice_cancel, receive_line,
    reset_auto_register_state, stop_auto_register, supervise_line, tag_stderr, AutoRegisterState,
    RegistrationProgress, RunError,
};

fn empty_store() -> AutoRegisterConfigStore {
    AutoRegisterConfigStore::new(
        AutoRegisterConfig::default(),
        Vec::new(),
        "c.json".to_string(),
        "h.json".to_string(),
    )
}

fn running(total: u32) -> AutoRegisterState {
    let mut s = AutoRegisterState::default();
    s.is_running = true;
    s.total_count = total;
    s
}

#[test]
fn the_idle_state_and_the_idle_picture() {
    let s = AutoRegisterState::default();
    assert!(!s.is_running);
    assert!(!s.should_stop);
    assert_eq!(s.current_index, 0);
    assert_eq!(s.total_count, 0);
    assert_eq!(s.current_step, "");
    assert!(s.logs.is_empty());
    assert_eq!(s.error, None);
    assert_eq!(s.pending_email, None);
    let p = RegistrationProgress::default();
    assert_eq!(p.status, "idle");
    assert_eq!(p.current_step, "");
    assert_eq!(p.current_index, 0);
    assert_eq!(p.total_count, 0);
    assert!(p.logs.is_empty());
    assert_eq!(p.error, None);
}

#[test]
fn every_line_is_logged_in_the_order_of_arrival() {
    let mut s = running(3);
    let lines = ["step one", "[stderr] noise", "step two", "", "step three"];
    for line in lines.iter() {
        let out = receive_line(&mut s, line);
        assert!(!out.stop);
        assert!(out.disclosed.is_none());
    }
    assert_eq!(s.logs, lines);
    assert_eq!(s.logs.len(), lines.len());
    assert_eq!(s.current_step, "step three");
    assert!(s.is_running);
}

#[test]
fn a_line_of_the_error_stream_is_logged_but_not_shown_as_step() {
    let mut s = running(1);
    receive_line(&mut s, "opening browser");
    let tagged = tag_stderr("Traceback");
    assert_eq!(tagged, "[stderr] Traceback");
    receive_line(&mut s, &tagged);
    assert_eq!(s.current_step, "opening browser");
    assert_eq!(s.logs, ["opening browser", "[stderr] Traceback"]);
}

#[test]
fn an_identity_and_its_secret_make_one_pair() {
    let mut s = running(1);
    let first = receive_line(&mut s, "identity disclosed:  a@b.com ");
    assert!(first.disclosed.is_none());
    assert_eq!(s.pending_email, Some("a@b.com".to_string()));
    let second = receive_line(&mut s, "secret disclosed: Sx9!aB2k");
    assert_eq!(second.disclosed, Some(("a@b.com".to_string(), "Sx9!aB2k".to_string())));
    assert_eq!(s.pending_email, None);
    assert_eq!(s.logs, ["identity disclosed:  a@b.com ", "secret disclosed: Sx9!aB2k"]);
}

#[test]
fn a_pair_appends_exactly_one_record() {
    let mut s = running(1);
    let mut store = empty_store();
    assert_eq!(supervise_line(&mut s, &mut store, "identity disclosed: a@b.com"), (false, false));
    assert!(store.get_history().is_empty());
    assert_eq!(supervise_line(&mut s, &mut store, "secret disclosed: Sx9!aB2k"), (true, false));
    let history = store.get_history();
    assert_eq!(history.len(), 1);
    assert_eq!(history[0].email, "a@b.com");
    assert_eq!(history[0].password, "Sx9!aB2k");
    assert_eq!(history[0].status, "success");
    assert_eq!(history[0].error, None);
    assert_eq!(history[0].account_id, None);
}

#[test]
fn a_second_secret_in_a_row_is_warned_of_and_not_recorded() {
    let mut s = running(2);
    let mut store = empty_store();
    supervise_line(&mut s, &mut store, "identity disclosed: a@b.com");
    supervise_line(&mut s, &mut store, "secret disclosed: one");
    let logs_before = s.logs.len();
    let out = supervise_line(&mut s, &mut store, "secret disclosed: two");
    assert_eq!(out, (false, false));
    assert_eq!(store.get_history().len(), 1);
    assert_eq!(store.get_history()[0].password, "one");
    assert_eq!(s.logs.len(), logs_before + 2);
    assert_eq!(s.logs[logs_before], "secret disclosed: two");
    assert_eq!(s.logs[logs_before + 1], "[系统] 警告: 检测到密码但未找到对应邮箱");
    let warnings = s.logs.iter().filter(|l| l.starts_with("[系统] 警告")).count();
    assert_eq!(warnings, 1);
    assert!(s.is_running);
    assert_eq!(s.error, None);
}

#[test]
fn a_later_identity_replaces_the_one_that_waits() {
    let mut s = running(2);
    receive_line(&mut s, "identity disclosed: old@b.com");
    receive_line(&mut s, "identity disclosed: new@b.com");
    let out = receive_line(&mut s, "secret disclosed: pw");
    assert_eq!(out.disclosed, Some(("new@b.com".to_string(), "pw".to_string())));
}

#[test]
fn cancel_is_turned_down_without_a_live_run() {
    let mut none: Option<AutoRegisterState> = None;
    assert_eq!(stop_auto_register(&mut none), Err(RunError::NotRunning));
    assert!(none.is_none());
    let mut over = Some(AutoRegisterState::default());
    assert_eq!(stop_auto_register(&mut over), Err(RunError::NotRunning));
    let s = over.unwrap();
    assert!(!s.should_stop);
    assert!(s.logs.is_empty());
}

#[test]
fn after_cancel_the_next_line_ends_the_run() {
    let mut slot = Some(running(5));
    assert_eq!(stop_auto_register(&mut slot), Ok(()));
    let mut s = slot.unwrap();
    assert!(s.should_stop);
    assert!(s.is_running);
    assert_eq!(s.logs, ["正在停止注册..."]);
    let out = receive_line(&mut s, "still working");
    assert!(out.stop);
    assert!(!s.is_running);
    assert_eq!(s.logs, ["正在停止注册...", "still working", "注册已停止"]);
    assert_eq!(s.current_step, "still working");
}

#[test]
fn a_run_that_is_not_cancelled_is_not_stopped_by_a_line() {
    let mut s = running(5);
    let out = receive_line(&mut s, "working");
    assert!(!out.stop);
    assert!(s.is_running);
}

#[test]
fn a_second_start_is_turned_down_while_a_run_is_alive() {
    assert_eq!(ensure_idle(&None), Ok(()));
    assert_eq!(ensure_idle(&Some(AutoRegisterState::default())), Ok(()));
    assert_eq!(ensure_idle(&Some(running(1))), Err(RunError::AlreadyRunning));
}

#[test]
fn reset_clears_a_finished_run_and_leaves_a_live_one() {
    let mut live = Some(running(1));
    assert_eq!(reset_auto_register_state(&mut live), Err(RunError::StillRunning));
    assert!(live.is_some());
    let mut over = Some(AutoRegisterState::default());
    over.as_mut().unwrap().error = Some("boom".to_string());
    assert_eq!(reset_auto_register_state(&mut over), Ok(()));
    assert!(over.is_none());
    let mut none: Option<AutoRegisterState> = None;
    assert_eq!(reset_auto_register_state(&mut none), Ok(()));
    assert!(none.is_none());
}

#[test]
fn messages_of_the_run_errors() {
    assert_eq!(RunError::AlreadyRunning.message(), "注册任务已在运行中");
    assert_eq!(RunError::NotRunning.message(), "没有正在运行的注册任务");
    assert_eq!(RunError::StillRunning.message(), "任务正在运行中，无法重置");
}

#[test]
fn the_status_tag_follows_the_precedence() {
    assert_eq!(get_registration_progress(&None).status, "idle");
    assert_eq!(get_registration_progress(&Some(AutoRegisterState::default())).status, "idle");

    let mut s = AutoRegisterState::default();
    s.total_count = 2;
    assert_eq!(get_registration_progress(&Some(s.clone())).status, "completed");

    s.is_running = true;
    assert_eq!(get_registration_progress(&Some(s.clone())).status, "running");

    s.error = Some("boom".to_string());
    assert_eq!(get_registration_progress(&Some(s.clone())).status, "error");

    s.is_running = false;
    s.total_count = 0;
    assert_eq!(get_registration_progress(&Some(s)).status, "error");
}

#[test]
fn the_snapshot_copies_the_state() {
    let mut s = running(4);
    s.current_index = 2;
    receive_line(&mut s, "hello");
    let p = get_registration_progress(&Some(s));
    assert_eq!(p.status, "running");
    assert_eq!(p.current_step, "hello");
    assert_eq!(p.current_index, 2);
    assert_eq!(p.total_count, 4);
    assert_eq!(p.logs, ["hello"]);
    assert_eq!(p.error, None);
}

#[test]
fn a_run_from_start_to_success() {
    let mut slot: Option<AutoRegisterState> = None;
    let mut store = empty_store();
    assert_eq!(ensure_idle(&slot), Ok(()));
    slot = Some(begin_run(1, "python3"));
    {
        let s = slot.as_mut().unwrap();
        supervise_line(s, &mut store, "identity disclosed: a@b.com");
        supervise_line(s, &mut store, "secret disclosed: Sx9!aB2k");
        finish_run(s, ExitReport::Succeeded);
    }
    let p = get_registration_progress(&slot);
    assert_eq!(p.status, "completed");
    assert_eq!(p.error, None);
    assert_eq!(p.current_step, "注册完成");
    assert_eq!(p.total_count, 1);
    let history = store.get_history();
    assert_eq!(history.len(), 1);
    assert_eq!(history[0].email, "a@b.com");
    assert_eq!(history[0].password, "Sx9!aB2k");
    assert_eq!(history[0].status, "success");
}

#[test]
fn a_run_begins_running_with_two_lines_in_its_log() {
    let s = begin_run(3, "/usr/bin/python3");
    assert!(s.is_running);
    assert!(!s.should_stop);
    assert_eq!(s.current_index, 0);
    assert_eq!(s.total_count, 3);
    assert_eq!(s.current_step, "准备中...");
    assert_eq!(s.logs, ["使用 Python: /usr/bin/python3", "开始自动注册流程"]);
    assert_eq!(s.error, None);
    assert_eq!(s.pending_email, None);
}

#[test]
fn overrides_replace_count_and_interval() {
    let c = apply_overrides(AutoRegisterConfig::default(), Some(7), None);
    assert_eq!(c.execution.count, 7);
    assert_eq!(c.execution.interval, 10);
    let c = apply_overrides(AutoRegisterConfig::default(), None, Some(3));
    assert_eq!(c.execution.count, 1);
    assert_eq!(c.execution.interval, 3);
    let c = apply_overrides(AutoRegisterConfig::default(), None, None);
    assert_eq!(c.execution.count, 1);
    assert_eq!(c.execution.interval, 10);
    assert_eq!(c.browser.browser_type, "chrome");
}

#[test]
fn the_interpreter_is_named_only_where_it_is_not_searched() {
    let mut c = AutoRegisterConfig::default();
    c.python.python_path = Some("/opt/py".to_string());
    assert_eq!(requested_python(&c), None);
    c.python.auto_detect = false;
    assert_eq!(requested_python(&c), Some("/opt/py".to_string()));
    c.python.python_path = None;
    assert_eq!(requested_python(&c), None);
}

#[test]
fn the_mail_settings_are_noted_only_in_a_state_that_exists() {
    let mut c = AutoRegisterConfig::default();
    c.email.imap_server = "imap.x".to_string();
    c.email.email = "me@x".to_string();
    let mut none: Option<AutoRegisterState> = None;
    note_mail_settings(&mut none, &c);
    assert!(none.is_none());
    let mut some = Some(AutoRegisterState::default());
    note_mail_settings(&mut some, &c);
    assert_eq!(some.unwrap().logs, ["[调试] 邮箱配置: IMAP=imap.x, Email=me@x"]);
}

#[test]
fn a_missing_script_ends_the_run_and_tells_where_it_was_looked_for() {
    let mut s = begin_run(1, "python3");
    let tried = vec![("./auto.py".to_string(), false), ("../auto.py".to_string(), true)];
    let error = fail_missing_script(&mut s, "/app/auto.py", "/work", &tried);
    assert_eq!(error, "脚本文件不存在: \"/app/auto.py\"");
    assert!(!s.is_running);
    assert_eq!(s.error, Some("脚本文件不存在: \"/app/auto.py\"".to_string()));
    assert_eq!(
        s.logs,
        [
            "使用 Python: python3",
            "开始自动注册流程",
            "错误: 脚本文件不存在",
            "查找路径: \"/app/auto.py\"",
            "当前工作目录: \"/work\"",
            "尝试路径: \"./auto.py\" - 不存在",
            "尝试路径: \"../auto.py\" - 存在",
        ]
    );
    assert_eq!(get_registration_progress(&Some(s)).status, "error");
}

#[test]
fn the_launch_is_logged_without_passwords() {
    let mut s = AutoRegisterState::default();
    let args = vec!["--loop".to_string(), "2".to_string(), "a \"b\"".to_string()];
    let env = vec![
        ("EMAIL_ADDRESS".to_string(), "me@x".to_string()),
        ("EMAIL_PASSWORD".to_string(), "hunter2".to_string()),
    ];
    log_launch(&mut s, "C:\\app\\auto.py", "C:\\app", &args, &env);
    assert_eq!(
        s.logs,
        [
            "脚本路径: \"C:\\\\app\\\\auto.py\"",
            "工作目录: \"C:\\\\app\"",
            "参数: [\"--loop\", \"2\", \"a \\\"b\\\"\"]",
            "环境变量数量: 2",
            "  EMAIL_ADDRESS=me@x",
            "  EMAIL_PASSWORD=***",
        ]
    );
    assert!(!s.is_running);
    assert_eq!(s.error, None);
}

#[test]
fn a_list_is_shown_as_debug_shows_it() {
    assert_eq!(debug_strings(&Vec::new()), "[]");
    assert_eq!(debug_strings(&vec!["a".to_string()]), "[\"a\"]");
    let items = vec!["a".to_string(), "b\n".to_string()];
    assert_eq!(debug_strings(&items), format!("{:?}", items));
}

#[test]
fn a_worker_that_cannot_be_started_ends_the_run() {
    let mut s = begin_run(1, "python3");
    fail_spawn(&mut s, "No such file or directory");
    assert!(!s.is_running);
    assert_eq!(s.error, Some("启动脚本失败: No such file or directory".to_string()));
    assert_eq!(s.logs.last().unwrap(), "启动脚本失败: No such file or directory");
    assert_eq!(s.logs.len(), 3);
}

#[test]
fn a_failed_exit_leaves_an_error_with_the_exit_code() {
    let mut s = begin_run(1, "python3");
    finish_run(&mut s, ExitReport::Failed(Some(2)));
    assert!(!s.is_running);
    assert_eq!(s.error, Some("脚本执行失败，退出码: 2".to_string()));
    assert_eq!(s.logs.last().unwrap(), "注册流程失败，退出码: 2");
    assert_eq!(s.current_step, "准备中...");

    let mut s = begin_run(1, "python3");
    finish_run(&mut s, ExitReport::Failed(Some(-11)));
    assert_eq!(s.error, Some("脚本执行失败，退出码: -11".to_string()));

    let mut s = begin_run(1, "python3");
    finish_run(&mut s, ExitReport::Failed(None));
    assert_eq!(s.error, Some("脚本执行失败，退出码: unknown".to_string()));
    assert_eq!(s.logs.last().unwrap(), "注册流程失败，退出码: unknown");
}

#[test]
fn an_unknown_exit_leaves_an_error_and_no_line() {
    let mut s = begin_run(1, "python3");
    finish_run(&mut s, ExitReport::Unknown);
    assert!(!s.is_running);
    assert_eq!(s.error, Some("无法获取进程状态".to_string()));
    assert_eq!(s.logs.len(), 2);
}

#[test]
fn a_successful_exit_leaves_no_error() {
    let mut s = begin_run(2, "python3");
    finish_run(&mut s, ExitReport::Succeeded);
    assert!(!s.is_running);
    assert_eq!(s.error, None);
    assert_eq!(s.current_step, "注册完成");
    assert_eq!(s.logs.last().unwrap(), "注册流程完成");
}

#[test]
fn a_cancelled_run_ends_even_where_the_worker_is_silent() {
    let mut s = running(1);
    assert!(!notice_cancel(&mut s));
    assert!(s.is_running);
    assert!(s.logs.is_empty());
    let mut slot = Some(s);
    stop_auto_register(&mut slot).unwrap();
    let mut s = slot.unwrap();
    assert!(notice_cancel(&mut s));
    assert!(!s.is_running);
    assert_eq!(s.logs, ["正在停止注册...", "注册已停止"]);
    assert!(!notice_cancel(&mut s));
    assert_eq!(s.logs.len(), 2);
}
