//! The state of a registration run and the steps that change it.
//!
//! A run is driven from outside: the caller starts the worker, hands every
//! line that the worker writes to [`receive_line`], and performs what the
//! returned [`LineOutcome`] asks for. Every step is a function from the old
//! state to the new one, stated over [`RunView`].

use vstd::prelude::*;

use crate::history::{AutoRegisterConfigStore, RegistrationRecord, RegistrationRecordView};
use crate::text::{
    clone_opt, clone_texts, opt_text, starts_with, strip_leading, texts, trim, trimmed,
    without_leading,
};

verus! {

/// The progress of the one run that can be alive at a time.
#[derive(Debug)]
pub struct AutoRegisterState {
    pub is_running: bool,
    /// Set by a request to cancel, read after each line of the worker.
    pub should_stop: bool,
    pub current_index: u32,
    pub total_count: u32,
    /// The last line that did not come from the worker's error stream.
    pub current_step: String,
    pub logs: Vec<String>,
    pub error: Option<String>,
    /// An identity that the worker disclosed and whose secret is still owed.
    pub pending_email: Option<String>,
}

pub struct RunView {
    pub is_running: bool,
    pub should_stop: bool,
    pub current_index: u32,
    pub total_count: u32,
    pub current_step: Seq<char>,
    pub logs: Seq<Seq<char>>,
    pub error: Option<Seq<char>>,
    pub pending_email: Option<Seq<char>>,
}

impl View for AutoRegisterState {
    type V = RunView;

    open spec fn view(&self) -> RunView {
        RunView {
            is_running: self.is_running,
            should_stop: self.should_stop,
            current_index: self.current_index,
            total_count: self.total_count,
            current_step: self.current_step@,
            logs: texts(self.logs@),
            error: opt_text(self.error),
            pending_email: opt_text(self.pending_email),
        }
    }
}

impl AutoRegisterState {
    /// The state in which nothing has happened.
    pub open spec fn idle_view() -> RunView {
        RunView {
            is_running: false,
            should_stop: false,
            current_index: 0,
            total_count: 0,
            current_step: Seq::empty(),
            logs: Seq::empty(),
            error: None,
            pending_email: None,
        }
    }
}

impl Default for AutoRegisterState {
    fn default() -> (r: Self)
        ensures
            r@ == AutoRegisterState::idle_view(),
    {
        let r = AutoRegisterState {
            is_running: false,
            should_stop: false,
            current_index: 0,
            total_count: 0,
            current_step: String::new(),
            logs: Vec::new(),
            error: None,
            pending_email: None,
        };
        assert(texts(r.logs@) =~= Seq::empty());
        r
    }
}

impl Clone for AutoRegisterState {
    fn clone(&self) -> (r: Self)
        ensures
            r@ == self@,
    {
        AutoRegisterState {
            is_running: self.is_running,
            should_stop: self.should_stop,
            current_index: self.current_index,
            total_count: self.total_count,
            current_step: self.current_step.clone(),
            logs: clone_texts(&self.logs),
            error: clone_opt(&self.error),
            pending_email: clone_opt(&self.pending_email),
        }
    }
}

/// What an observer is shown of a run.
#[derive(Debug)]
pub struct RegistrationProgress {
    /// `idle`, `running`, `completed` or `error`.
    pub status: String,
    pub current_step: String,
    pub current_index: u32,
    pub total_count: u32,
    pub logs: Vec<String>,
    pub error: Option<String>,
}

pub struct ProgressView {
    pub status: Seq<char>,
    pub current_step: Seq<char>,
    pub current_index: u32,
    pub total_count: u32,
    pub logs: Seq<Seq<char>>,
    pub error: Option<Seq<char>>,
}

impl View for RegistrationProgress {
    type V = ProgressView;

    open spec fn view(&self) -> ProgressView {
        ProgressView {
            status: self.status@,
            current_step: self.current_step@,
            current_index: self.current_index,
            total_count: self.total_count,
            logs: texts(self.logs@),
            error: opt_text(self.error),
        }
    }
}

impl RegistrationProgress {
    /// What is shown while no run has been started.
    pub open spec fn idle_view() -> ProgressView {
        ProgressView {
            status: "idle"@,
            current_step: Seq::empty(),
            current_index: 0,
            total_count: 0,
            logs: Seq::empty(),
            error: None,
        }
    }
}

impl Default for RegistrationProgress {
    fn default() -> (r: Self)
        ensures
            r@ == RegistrationProgress::idle_view(),
    {
        let r = RegistrationProgress {
            status: String::from_str("idle"),
            current_step: String::new(),
            current_index: 0,
            total_count: 0,
            logs: Vec::new(),
            error: None,
        };
        assert(texts(r.logs@) =~= Seq::empty());
        r
    }
}

/// Why a request to start, cancel or reset a run is turned down.
#[derive(Debug, Clone, Copy, PartialEq, Eq, Structural)]
pub enum RunError {
    /// A run is alive, so no second one is started.
    AlreadyRunning,
    /// No run is alive, so there is nothing to cancel.
    NotRunning,
    /// A run is alive, so its state cannot be cleared.
    StillRunning,
}

impl RunError {
    pub open spec fn message_text(self) -> Seq<char> {
        match self {
            RunError::AlreadyRunning => "注册任务已在运行中"@,
            RunError::NotRunning => "没有正在运行的注册任务"@,
            RunError::StillRunning => "任务正在运行中，无法重置"@,
        }
    }

    pub fn message(&self) -> (r: String)
        ensures
            r@ == self.message_text(),
    {
        let text = match self {
            RunError::AlreadyRunning => "注册任务已在运行中",
            RunError::NotRunning => "没有正在运行的注册任务",
            RunError::StillRunning => "任务正在运行中，无法重置",
        };
        String::from_str(text)
    }
}

/// The tag shown for a state: an error outranks a live run, a live run
/// outranks a finished one, and a state that never counted a step is idle.
pub open spec fn status_tag(s: RunView) -> Seq<char> {
    if s.error is Some {
        "error"@
    } else if s.is_running {
        "running"@
    } else if s.total_count > 0 {
        "completed"@
    } else {
        "idle"@
    }
}

/// What an observer is shown of `s`.
pub open spec fn snapshot_of(s: Option<RunView>) -> ProgressView {
    match s {
        Some(s) => ProgressView {
            status: status_tag(s),
            current_step: s.current_step,
            current_index: s.current_index,
            total_count: s.total_count,
            logs: s.logs,
            error: s.error,
        },
        None => RegistrationProgress::idle_view(),
    }
}

/// The view of a state that may not exist.
pub open spec fn slot_view(slot: Option<AutoRegisterState>) -> Option<RunView> {
    match slot {
        Some(s) => Some(s@),
        None => None,
    }
}

/// The line that a request to cancel leaves in the log.
pub open spec fn stopping_line() -> Seq<char> {
    "正在停止注册..."@
}

/// The line that is logged when the worker has been told to end.
pub open spec fn stopped_line() -> Seq<char> {
    "注册已停止"@
}

/// The line that is logged for a secret that no identity preceded.
pub open spec fn orphan_secret_line() -> Seq<char> {
    "[系统] 警告: 检测到密码但未找到对应邮箱"@
}

/// The words with which the worker discloses an identity.
pub open spec fn identity_prefix() -> Seq<char> {
    "identity disclosed: "@
}

/// The words with which the worker discloses a secret.
pub open spec fn secret_prefix() -> Seq<char> {
    "secret disclosed: "@
}

/// The mark of a line that came from the worker's error stream.
pub open spec fn stderr_mark() -> Seq<char> {
    "[stderr]"@
}

/// What a line discloses behind `prefix`.
pub open spec fn disclosed(line: Seq<char>, prefix: Seq<char>) -> Seq<char> {
    trimmed(without_leading(line, prefix))
}

/// Whether `line` discloses a secret while no identity waits for one.
pub open spec fn is_orphan_secret(s: RunView, line: Seq<char>) -> bool {
    !identity_prefix().is_prefix_of(line) && secret_prefix().is_prefix_of(line)
        && s.pending_email is None
}

/// The identity and the secret that `line` completes, where it completes a
/// pair.
pub open spec fn line_disclosure(s: RunView, line: Seq<char>) -> Option<(Seq<char>, Seq<char>)> {
    if !identity_prefix().is_prefix_of(line) && secret_prefix().is_prefix_of(line)
        && s.pending_email is Some {
        Some((s.pending_email->0, disclosed(line, secret_prefix())))
    } else {
        None
    }
}

/// The state after `line` has arrived in state `s`.
///
/// The line is logged, and becomes the step shown unless it came from the
/// error stream. An identity is kept until its secret comes; a secret takes
/// the identity that waits, or is answered with a warning. Where a
/// cancellation had been requested before the line came, the run ends.
pub open spec fn after_line(s: RunView, line: Seq<char>) -> RunView {
    let logged = RunView {
        logs: s.logs.push(line),
        current_step: if stderr_mark().is_prefix_of(line) {
            s.current_step
        } else {
            line
        },
        ..s
    };
    let matched = if identity_prefix().is_prefix_of(line) {
        RunView { pending_email: Some(disclosed(line, identity_prefix())), ..logged }
    } else if secret_prefix().is_prefix_of(line) {
        if s.pending_email is Some {
            RunView { pending_email: None, ..logged }
        } else {
            RunView { logs: logged.logs.push(orphan_secret_line()), ..logged }
        }
    } else {
        logged
    };
    if s.should_stop {
        RunView { is_running: false, logs: matched.logs.push(stopped_line()), ..matched }
    } else {
        matched
    }
}

/// The state after a cancellation was noticed while the worker was silent:
/// a live run whose cancellation was requested ends, and every other state
/// stays as it is.
pub open spec fn after_silence(s: RunView) -> RunView {
    if s.is_running && s.should_stop {
        RunView { is_running: false, logs: s.logs.push(stopped_line()), ..s }
    } else {
        s
    }
}

/// The state after a request to cancel was accepted.
pub open spec fn after_cancel(s: RunView) -> RunView {
    RunView { should_stop: true, logs: s.logs.push(stopping_line()), ..s }
}

/// What the caller has to do after a line.
pub struct LineOutcome {
    /// The identity and the secret of a registration that the line completed.
    pub disclosed: Option<(String, String)>,
    /// Whether the worker is to be ended and no further line taken.
    pub stop: bool,
}

impl LineOutcome {
    pub open spec fn disclosure(&self) -> Option<(Seq<char>, Seq<char>)> {
        match self.disclosed {
            Some(pair) => Some((pair.0@, pair.1@)),
            None => None,
        }
    }
}

fn push_line(logs: &mut Vec<String>, line: &str)
    ensures
        texts(final(logs)@) == texts(old(logs)@).push(line@),
{
    logs.push(String::from_str(line));
    assert(texts(logs@) =~= texts(old(logs)@).push(line@));
}

/// Marks a line as one of the worker's error stream.
pub fn tag_stderr(line: &str) -> (r: String)
    ensures
        r@ == "[stderr] "@ + line@,
{
    String::from_str("[stderr] ").concat(line)
}

/// Takes one line of the worker into the state.
pub fn receive_line(state: &mut AutoRegisterState, line: &str) -> (out: LineOutcome)
    ensures
        final(state)@ == after_line(old(state)@, line@),
        out.stop == old(state).should_stop,
        out.disclosure() == line_disclosure(old(state)@, line@),
{
    let stop = state.should_stop;
    push_line(&mut state.logs, line);
    if !starts_with(line, "[stderr]") {
        state.current_step = String::from_str(line);
    }
    let mut disclosed: Option<(String, String)> = None;
    if starts_with(line, "identity disclosed: ") {
        let identity = String::from_str(trim(strip_leading(line, "identity disclosed: ")));
        state.pending_email = Some(identity);
    } else if starts_with(line, "secret disclosed: ") {
        let secret = String::from_str(trim(strip_leading(line, "secret disclosed: ")));
        match state.pending_email.take() {
            Some(identity) => {
                disclosed = Some((identity, secret));
            },
            None => {
                push_line(&mut state.logs, "[系统] 警告: 检测到密码但未找到对应邮箱");
            },
        }
    }
    if stop {
        state.is_running = false;
        push_line(&mut state.logs, "注册已停止");
    }
    LineOutcome { disclosed, stop }
}

/// Looks for a requested cancellation while the worker writes nothing. A
/// live run whose cancellation was requested ends here, without waiting for
/// a line; the caller ends the worker where `true` is returned.
pub fn notice_cancel(state: &mut AutoRegisterState) -> (stop: bool)
    ensures
        final(state)@ == after_silence(old(state)@),
        stop == (old(state).is_running && old(state).should_stop),
{
    if state.is_running && state.should_stop {
        state.is_running = false;
        push_line(&mut state.logs, "注册已停止");
        true
    } else {
        false
    }
}

/// The history after a line: one record more, for the pair that the line
/// completed, or the history as it was.
pub open spec fn history_after(
    before: Seq<RegistrationRecordView>,
    after: Seq<RegistrationRecordView>,
    disclosure: Option<(Seq<char>, Seq<char>)>,
) -> bool {
    match disclosure {
        Some(pair) => {
            &&& after.len() == before.len() + 1
            &&& after.skip(1) == before
            &&& after[0].email == pair.0
            &&& after[0].password == pair.1
            &&& after[0].status == "success"@
            &&& after[0].error is None
            &&& after[0].account_id is None
        },
        None => after == before,
    }
}

/// Takes one line of the worker into the state and, where the line completes
/// a pair of identity and secret, puts a record of the registration at the
/// head of the history. Returns whether a record was added and whether the
/// worker is to be ended.
pub fn supervise_line(
    state: &mut AutoRegisterState,
    store: &mut AutoRegisterConfigStore,
    line: &str,
) -> (out: (bool, bool))
    ensures
        final(state)@ == after_line(old(state)@, line@),
        out.0 == line_disclosure(old(state)@, line@) is Some,
        out.1 == old(state).should_stop,
        history_after(
            old(store)@.history,
            final(store)@.history,
            line_disclosure(old(state)@, line@),
        ),
        final(store)@.config == old(store)@.config,
        final(store)@.config_path == old(store)@.config_path,
        final(store)@.history_path == old(store)@.history_path,
{
    let outcome = receive_line(state, line);
    let stop = outcome.stop;
    match outcome.disclosed {
        Some(pair) => {
            let record = RegistrationRecord::new(pair.0, pair.1, String::from_str("success"));
            store.add_record(record);
            assert(store@.history.skip(1) =~= old(store)@.history);
            (true, stop)
        },
        None => (false, stop),
    }
}

/// The first error in the order of a start: a live run turns a second one
/// down.
pub fn ensure_idle(slot: &Option<AutoRegisterState>) -> (r: Result<(), RunError>)
    ensures
        r == if slot_view(*slot) is Some && slot_view(*slot)->0.is_running {
            Err::<(), RunError>(RunError::AlreadyRunning)
        } else {
            Ok(())
        },
{
    match slot {
        Some(s) => {
            if s.is_running {
                Err(RunError::AlreadyRunning)
            } else {
                Ok(())
            }
        },
        None => Ok(()),
    }
}

/// Asks a live run to end. The request is noted and logged; the worker is
/// ended when its next line arrives.
pub fn stop_auto_register(slot: &mut Option<AutoRegisterState>) -> (r: Result<(), RunError>)
    ensures
        match slot_view(*old(slot)) {
            Some(s) => if s.is_running {
                r == Ok::<(), RunError>(()) && slot_view(*final(slot)) == Some(after_cancel(s))
            } else {
                r == Err::<(), RunError>(RunError::NotRunning) && slot_view(*final(slot))
                    == slot_view(*old(slot))
            },
            None => r == Err::<(), RunError>(RunError::NotRunning) && slot_view(*final(slot))
                == None::<RunView>,
        },
{
    match slot {
        Some(s) => {
            if s.is_running {
                s.should_stop = true;
                push_line(&mut s.logs, "正在停止注册...");
                Ok(())
            } else {
                Err(RunError::NotRunning)
            }
        },
        None => Err(RunError::NotRunning),
    }
}

/// Clears the state of a run that is over, so that a new one can start from
/// nothing. A live run is left as it is.
pub fn reset_auto_register_state(slot: &mut Option<AutoRegisterState>) -> (r: Result<
    (),
    RunError,
>)
    ensures
        match slot_view(*old(slot)) {
            Some(s) => if s.is_running {
                r == Err::<(), RunError>(RunError::StillRunning) && slot_view(*final(slot))
                    == slot_view(*old(slot))
            } else {
                r == Ok::<(), RunError>(()) && *final(slot) == None::<AutoRegisterState>
            },
            None => r == Ok::<(), RunError>(()) && *final(slot) == None::<AutoRegisterState>,
        },
{
    let running = match slot {
        Some(s) => s.is_running,
        None => false,
    };
    if running {
        return Err(RunError::StillRunning);
    }
    *slot = None;
    Ok(())
}

/// What an observer is shown: the state with its status tag, or the idle
/// picture where there is no state.
pub fn get_registration_progress(slot: &Option<AutoRegisterState>) -> (r: RegistrationProgress)
    ensures
        r@ == snapshot_of(slot_view(*slot)),
{
    match slot {
        Some(s) => {
            let status = if s.error.is_some() {
                "error"
            } else if s.is_running {
                "running"
            } else if s.total_count > 0 {
                "completed"
            } else {
                "idle"
            };
            RegistrationProgress {
                status: String::from_str(status),
                current_step: s.current_step.clone(),
                current_index: s.current_index,
                total_count: s.total_count,
                logs: clone_texts(&s.logs),
                error: clone_opt(&s.error),
            }
        },
        None => RegistrationProgress::default(),
    }
}

} // verus!
