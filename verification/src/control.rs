//! The lifecycle controller: at most one live proxy run, a race-free way
//! to retire it, and always-answerable status queries.
//!
//! The controller owns the current run's cancellation sender exclusively;
//! a run is retired by taking the sender out and firing it. The telemetry
//! slots (counters, last error) and the preference slots (routing mode,
//! log verbosity) live beside the run state and are never cleared by a
//! stop.

use vstd::prelude::*;
use vstd::string::StringExecFns;

use crate::translate::{
    spec_translate, translate_payload, ServerDescriptor, ServerDescriptorView, StartError,
    view_of_opt_descriptor,
};

verus! {

/// Whether a proxy run is currently live.
#[derive(Clone, Copy, Debug, PartialEq, Eq, Structural)]
pub enum ProxyState {
    Stopped,
    Running,
}

/// The five logging verbosity levels, least to most verbose.
#[derive(Clone, Copy, Debug, PartialEq, Eq, Structural)]
pub enum LogLevel {
    Error,
    Warn,
    Info,
    Debug,
    Trace,
}

/// How traffic is routed: by auto-configuration rules, or all of it.
#[derive(Clone, Copy, Debug, PartialEq, Eq, Structural)]
pub enum RoutingMode {
    Pac,
    Global,
}

/// The level selected by an integer code: 0 through 4 in order of
/// verbosity; anything out of range falls back to the informational level.
pub open spec fn spec_level_of_code(code: i32) -> LogLevel {
    if code == 0 {
        LogLevel::Error
    } else if code == 1 {
        LogLevel::Warn
    } else if code == 2 {
        LogLevel::Info
    } else if code == 3 {
        LogLevel::Debug
    } else if code == 4 {
        LogLevel::Trace
    } else {
        LogLevel::Info
    }
}

/// Map an integer verbosity code to a level; out-of-range codes select
/// the informational level rather than failing.
pub fn level_of_code(code: i32) -> (r: LogLevel)
    ensures
        r == spec_level_of_code(code),
{
    match code {
        0 => LogLevel::Error,
        1 => LogLevel::Warn,
        2 => LogLevel::Info,
        3 => LogLevel::Debug,
        4 => LogLevel::Trace,
        _ => LogLevel::Info,
    }
}

/// Every verbosity code outside 0 through 4 selects the informational
/// level.
pub proof fn lemma_out_of_range_level_is_informational(code: i32)
    requires
        code < 0 || code > 4,
    ensures
        spec_level_of_code(code) == LogLevel::Info,
{
}

/// The routing mode selected by an integer code: 0 routes by rules,
/// anything else routes everything.
pub open spec fn spec_mode_of_code(code: i32) -> RoutingMode {
    if code == 0 {
        RoutingMode::Pac
    } else {
        RoutingMode::Global
    }
}

#[verifier::external_type_specification]
#[verifier::external_body]
#[verifier::reject_recursive_types(T)]
pub struct ExOneshotSender<T>(tokio::sync::oneshot::Sender<T>);

#[verifier::external_type_specification]
#[verifier::external_body]
#[verifier::reject_recursive_types(T)]
pub struct ExOneshotReceiver<T>(tokio::sync::oneshot::Receiver<T>);

#[verifier::external_type_specification]
#[verifier::external_body]
pub struct ExOneshotRecvError(tokio::sync::oneshot::error::RecvError);

/// Relies on `tokio::sync::oneshot::channel`: it returns a fresh connected
/// sender/receiver pair.
#[verifier::external_body]
fn new_cancel_channel() -> (tokio::sync::oneshot::Sender<()>, tokio::sync::oneshot::Receiver<()>) {
    tokio::sync::oneshot::channel()
}

/// Relies on `tokio::sync::oneshot::Sender::send`: one-shot and
/// best-effort; it fails only when the receiver is already gone, which
/// retirement tolerates.
#[verifier::external_body]
fn send_cancel(tx: tokio::sync::oneshot::Sender<()>) {
    let _ = tx.send(());
}

/// The controller's record of the live run: its cancellation sender, the
/// run tag callers quote back, and, for specification purposes, which
/// start created it.
pub struct RunHandle {
    pub cancel: tokio::sync::oneshot::Sender<()>,
    pub tag: u64,
    pub id: Ghost<nat>,
}

/// What a successful start hands the caller: the translated descriptor
/// (none when the payload configured no server), the run's tag — to be
/// quoted when reporting that this run ended — and the cancellation
/// receiver the engine run is to watch.
#[derive(Debug)]
pub struct RunTicket {
    pub descriptor: Option<ServerDescriptor>,
    pub run: u64,
    pub cancel: tokio::sync::oneshot::Receiver<()>,
}

/// The lifecycle controller and the process-wide slots it serves.
#[verifier::ext_equal]
pub struct Controller {
    pub state: ProxyState,
    pub handle: Option<RunHandle>,
    /// How many runs have been started; run handles are numbered by it.
    pub runs: Ghost<nat>,
    /// The tag the next run will carry; wraps around when exhausted.
    pub next_tag: u64,
    pub upload: u64,
    pub download: u64,
    pub last_error: String,
    pub mode: RoutingMode,
    pub log_level: LogLevel,
}

impl Controller {
    /// The run currently live, if any, named by its start number.
    pub open spec fn live_run(self) -> Option<nat> {
        match self.handle {
            Some(h) => Some(h.id@),
            None => None,
        }
    }

    /// The tag of the run currently live, if any.
    pub open spec fn live_tag(self) -> Option<u64> {
        match self.handle {
            Some(h) => Some(h.tag),
            None => None,
        }
    }

    /// The state says Running exactly when a run handle is live, and the
    /// live handle was made by an earlier start.
    pub open spec fn wf(self) -> bool {
        &&& (self.state is Running <==> self.handle is Some)
        &&& (self.handle matches Some(h) ==> h.id@ < self.runs@)
    }
}

/// The run state (and run count and tag allocation) of `a` and `b` agree.
pub open spec fn same_run_state(a: Controller, b: Controller) -> bool {
    a.state == b.state && a.handle == b.handle && a.runs == b.runs && a.next_tag == b.next_tag
}

/// The traffic counters of `a` and `b` agree.
pub open spec fn same_counters(a: Controller, b: Controller) -> bool {
    a.upload == b.upload && a.download == b.download
}

/// The routing mode and log level of `a` and `b` agree.
pub open spec fn same_prefs(a: Controller, b: Controller) -> bool {
    a.mode == b.mode && a.log_level == b.log_level
}

/// How a successful start transforms the controller: the run live
/// afterwards is the one this start created, numbered by the old run
/// count; nothing else moves.
pub open spec fn start_ok_post(pre: Controller, post: Controller) -> bool {
    &&& post.state is Running
    &&& post.live_run() == Some(pre.runs@)
    &&& post.live_tag() == Some(pre.next_tag)
    &&& post.runs@ == pre.runs@ + 1
    &&& post.next_tag == (if pre.next_tag == u64::MAX {
        0int
    } else {
        pre.next_tag + 1
    })
    &&& same_counters(pre, post)
    &&& post.last_error == pre.last_error
    &&& same_prefs(pre, post)
}

/// What a start call did, as seen through its payload and its result.
pub open spec fn start_post(
    pre: Controller,
    post: Controller,
    text: Seq<char>,
    r: Result<Option<ServerDescriptorView>, StartError>,
) -> bool {
    match r {
        Ok(d) => spec_translate(text) == Ok::<Option<ServerDescriptorView>, StartError>(d)
            && start_ok_post(pre, post),
        Err(e) => spec_translate(text) == Err::<Option<ServerDescriptorView>, StartError>(e)
            && post == pre,
    }
}

/// How a stop transforms the controller: afterwards nothing is live, and
/// a stop with nothing live changes nothing at all.
pub open spec fn stop_post(pre: Controller, post: Controller) -> bool {
    &&& post.state is Stopped
    &&& post.handle is None
    &&& post.runs == pre.runs
    &&& post.next_tag == pre.next_tag
    &&& same_counters(pre, post)
    &&& post.last_error == pre.last_error
    &&& same_prefs(pre, post)
    &&& (pre.handle is None ==> post == pre)
}

/// The view of a start result: the descriptor it carries, or the error.
pub open spec fn view_of_start_result(r: Result<RunTicket, StartError>) -> Result<
    Option<ServerDescriptorView>,
    StartError,
> {
    match r {
        Ok(t) => Ok(view_of_opt_descriptor(t.descriptor)),
        Err(e) => Err(e),
    }
}

impl Controller {
    /// A fresh controller: stopped, nothing live, zero counters, no error
    /// recorded, rule-based routing, informational logging.
    pub fn new() -> (r: Controller)
        ensures
            r.wf(),
            r.state is Stopped,
            r.handle is None,
            r.runs@ == 0,
            r.next_tag == 0,
            r.upload == 0,
            r.download == 0,
            r.last_error@.len() == 0,
            r.mode is Pac,
            r.log_level is Info,
    {
        proof {
            reveal_strlit("");
        }
        Controller {
            state: ProxyState::Stopped,
            handle: None,
            runs: Ghost(0),
            next_tag: 0,
            upload: 0,
            download: 0,
            last_error: String::from_str(""),
            mode: RoutingMode::Pac,
            log_level: LogLevel::Info,
        }
    }

    /// Translate the payload and, if it is accepted, retire any live run
    /// and install a fresh one; on rejection nothing at all changes. The
    /// caller receives the descriptor and the new run's cancellation
    /// receiver, to hand to the engine.
    pub fn start(&mut self, payload: &str) -> (r: Result<RunTicket, StartError>)
        requires
            old(self).wf(),
        ensures
            final(self).wf(),
            start_post(*old(self), *final(self), payload@, view_of_start_result(r)),
            r matches Ok(t) ==> t.run == old(self).next_tag,
    {
        let descriptor = match translate_payload(payload) {
            Ok(d) => d,
            Err(e) => {
                return Err(e);
            },
        };
        let prev = self.handle.take();
        match prev {
            Some(h) => {
                let RunHandle { cancel, .. } = h;
                send_cancel(cancel);
            },
            None => {},
        }
        let (tx, rx) = new_cancel_channel();
        let tag = self.next_tag;
        self.handle = Some(RunHandle { cancel: tx, tag, id: Ghost(self.runs@) });
        self.state = ProxyState::Running;
        self.runs = Ghost(self.runs@ + 1);
        self.next_tag = if tag == u64::MAX {
            0
        } else {
            tag + 1
        };
        Ok(RunTicket { descriptor, run: tag, cancel: rx })
    }

    /// Retire the live run, if any: take its sender out, fire the
    /// cancellation signal, and mark the controller stopped. With nothing
    /// live this is a no-op.
    pub fn stop(&mut self)
        requires
            old(self).wf(),
        ensures
            final(self).wf(),
            stop_post(*old(self), *final(self)),
    {
        let prev = self.handle.take();
        match prev {
            Some(h) => {
                let RunHandle { cancel, .. } = h;
                send_cancel(cancel);
                self.state = ProxyState::Stopped;
            },
            None => {},
        }
    }

    /// Note that the engine run tagged `run` has terminated. Its failure
    /// message, if any, is recorded whenever it ends — the slot holds the
    /// most recent fatal message from any run — but the handle is dropped
    /// and the controller marked stopped only when that run is still the
    /// live one: a run that was already retired, perhaps superseded by a
    /// later start, must not retire its successor.
    pub fn finish_run(&mut self, run: u64, failure: Option<String>)
        requires
            old(self).wf(),
        ensures
            final(self).wf(),
            old(self).live_tag() == Some(run) ==> final(self).state is Stopped
                && final(self).handle is None,
            old(self).live_tag() != Some(run) ==> final(self).state == old(self).state
                && final(self).handle == old(self).handle,
            final(self).runs == old(self).runs,
            final(self).next_tag == old(self).next_tag,
            same_counters(*old(self), *final(self)),
            same_prefs(*old(self), *final(self)),
            match failure {
                Some(m) => final(self).last_error == m,
                None => final(self).last_error == old(self).last_error,
            },
    {
        match failure {
            Some(m) => {
                self.last_error = m;
            },
            None => {},
        }
        let live = match &self.handle {
            Some(h) => h.tag == run,
            None => false,
        };
        if live {
            let _prev = self.handle.take();
            self.state = ProxyState::Stopped;
        }
    }

    /// Overwrite the last-error slot.
    pub fn record_error(&mut self, message: String)
        ensures
            final(self).last_error == message,
            same_run_state(*old(self), *final(self)),
            same_counters(*old(self), *final(self)),
            same_prefs(*old(self), *final(self)),
    {
        self.last_error = message;
    }

    /// Add the engine's reported byte counts; the counters saturate
    /// rather than wrap, so they never decrease.
    pub fn add_traffic(&mut self, up: u64, down: u64)
        ensures
            final(self).upload == (if old(self).upload + up > u64::MAX {
                u64::MAX as int
            } else {
                old(self).upload + up
            }),
            final(self).download == (if old(self).download + down > u64::MAX {
                u64::MAX as int
            } else {
                old(self).download + down
            }),
            final(self).upload >= old(self).upload,
            final(self).download >= old(self).download,
            same_run_state(*old(self), *final(self)),
            final(self).last_error == old(self).last_error,
            same_prefs(*old(self), *final(self)),
    {
        self.upload = self.upload.saturating_add(up);
        self.download = self.download.saturating_add(down);
    }

    /// The current traffic counters, readable in any state.
    pub fn traffic(&self) -> (r: (u64, u64))
        ensures
            r.0 == self.upload,
            r.1 == self.download,
    {
        (self.upload, self.download)
    }

    /// The current lifecycle state.
    pub fn current_state(&self) -> (r: ProxyState)
        ensures
            r == self.state,
    {
        self.state
    }

    /// The state as an integer: 0 stopped, 1 running.
    pub fn state_code(&self) -> (r: i32)
        ensures
            r == (if self.state is Running {
                1i32
            } else {
                0i32
            }),
    {
        match self.state {
            ProxyState::Running => 1,
            ProxyState::Stopped => 0,
        }
    }

    /// The last recorded error message; empty when none was ever recorded.
    pub fn last_error_text(&self) -> (r: String)
        ensures
            r@ == self.last_error@,
    {
        String::from_str(self.last_error.as_str())
    }

    /// Store the routing mode selected by `code`.
    pub fn set_mode(&mut self, code: i32)
        ensures
            final(self).mode == spec_mode_of_code(code),
            final(self).state == old(self).state,
            final(self).handle == old(self).handle,
            final(self).runs == old(self).runs,
            final(self).next_tag == old(self).next_tag,
            same_counters(*old(self), *final(self)),
            final(self).last_error == old(self).last_error,
            final(self).log_level == old(self).log_level,
    {
        self.mode = if code == 0 {
            RoutingMode::Pac
        } else {
            RoutingMode::Global
        };
    }

    /// The stored routing mode.
    pub fn current_mode(&self) -> (r: RoutingMode)
        ensures
            r == self.mode,
    {
        self.mode
    }

    /// Store the log level selected by `code`; out-of-range codes select
    /// the informational level.
    pub fn set_log_level(&mut self, code: i32)
        ensures
            final(self).log_level == spec_level_of_code(code),
            final(self).state == old(self).state,
            final(self).handle == old(self).handle,
            final(self).runs == old(self).runs,
            final(self).next_tag == old(self).next_tag,
            same_counters(*old(self), *final(self)),
            final(self).last_error == old(self).last_error,
            final(self).mode == old(self).mode,
    {
        self.log_level = level_of_code(code);
    }

    /// The stored log level.
    pub fn current_log_level(&self) -> (r: LogLevel)
        ensures
            r == self.log_level,
    {
        self.log_level
    }

    /// Accept a rule text for the auto-configuration evaluator. Applying
    /// the rules is that evaluator's concern, not the controller's; every
    /// well-encoded text is accepted.
    pub fn update_pac(&self, _rules: &str) -> (r: i32)
        ensures
            r == 0i32,
    {
        0
    }
}

/// A rejected start reports a negative code and leaves the controller —
/// its lifecycle state included — exactly as it was.
pub proof fn lemma_rejected_start_changes_nothing(
    pre: Controller,
    post: Controller,
    text: Seq<char>,
    r: Result<Option<ServerDescriptorView>, StartError>,
)
    requires
        start_post(pre, post, text, r),
        r is Err,
    ensures
        post == pre,
        post.state == pre.state,
        crate::translate::spec_error_code(r->Err_0) < 0,
{
    crate::translate::lemma_error_codes_negative(r->Err_0);
}

/// Two successive successful starts never leave the first run live: the
/// run live after the second start is a different, fresher one.
pub proof fn lemma_second_start_supersedes(c0: Controller, c1: Controller, c2: Controller)
    requires
        start_ok_post(c0, c1),
        start_ok_post(c1, c2),
    ensures
        c1.live_run() is Some,
        c2.live_run() is Some,
        c2.live_run() != c1.live_run(),
{
}

/// Stopping with no live run changes nothing.
pub proof fn lemma_stop_without_run_is_noop(pre: Controller, post: Controller)
    requires
        stop_post(pre, post),
        pre.live_run() is None,
    ensures
        post == pre,
{
}

/// A stop right after a stop changes nothing more.
pub proof fn lemma_stop_idempotent(c0: Controller, c1: Controller, c2: Controller)
    requires
        stop_post(c0, c1),
        stop_post(c1, c2),
    ensures
        c2 == c1,
{
}

} // verus!
