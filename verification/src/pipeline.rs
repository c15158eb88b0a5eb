//! The deploy pipeline as a state machine: the UI loop performs each action
//! (API calls, waits, probes) and hands the outcome back as an event; the
//! machine decides what the user sees and what comes next. It drives both a
//! fresh deploy (create the VM, wait for it, install and start, probe, expose,
//! verify the public URL) and an in-place restart with new env vars.

use vstd::prelude::*;
use crate::text;
use crate::naming;
use crate::api::{Sandbox, BgStart, BgStatus, Exposed};
use crate::state::{Msg, StepStatus, APP_PORT};

verus! {

/// What the pipeline reports to the UI (each becomes a `Msg`).
#[derive(Debug)]
pub enum Report {
    Step { idx: usize, status: StepStatus, detail: String },
    SandboxCreated { id: String },
    Logs { text: String },
    Failed { error: String },
    Live { url: String },
    LiveUnverified { url: String },
}

/// A report, with its text as characters.
pub enum Note {
    Step(usize, StepStatus, Seq<char>),
    Sandbox(Seq<char>),
    Logs(Seq<char>),
    Failed(Seq<char>),
    Live(Seq<char>),
    Unverified(Seq<char>),
}

pub open spec fn note(r: Report) -> Note {
    match r {
        Report::Step { idx, status, detail } => Note::Step(idx, status, detail@),
        Report::SandboxCreated { id } => Note::Sandbox(id@),
        Report::Logs { text } => Note::Logs(text@),
        Report::Failed { error } => Note::Failed(error@),
        Report::Live { url } => Note::Live(url@),
        Report::LiveUnverified { url } => Note::Unverified(url@),
    }
}

pub open spec fn notes(v: Seq<Report>) -> Seq<Note> {
    v.map_values(|r: Report| note(r))
}

impl Report {
    /// The UI message carrying this report.
    pub fn into_msg<C>(self) -> (m: Msg<C>)
        ensures
            match self {
                Report::Step { idx, status, detail } => m == Msg::<C>::Step { idx, status, detail },
                Report::SandboxCreated { id } => m == Msg::<C>::SandboxCreated { id },
                Report::Logs { text } => m == Msg::<C>::Logs { text },
                Report::Failed { error } => m == Msg::<C>::Failed { error },
                Report::Live { url } => m == Msg::<C>::Live { url },
                Report::LiveUnverified { url } => m == Msg::<C>::LiveUnverified { url },
            },
    {
        match self {
            Report::Step { idx, status, detail } => Msg::Step { idx, status, detail },
            Report::SandboxCreated { id } => Msg::SandboxCreated { id },
            Report::Logs { text } => Msg::Logs { text },
            Report::Failed { error } => Msg::Failed { error },
            Report::Live { url } => Msg::Live { url },
            Report::LiveUnverified { url } => Msg::LiveUnverified { url },
        }
    }
}

/// Work the UI loop performs next.
#[derive(Debug)]
pub enum Action {
    /// Create a persistent VM of this class and name.
    CreateVm { size: String, name: String },
    /// Wait 2 s, then read the VM's state.
    PollVm { id: String },
    /// Start the deploy command in the background.
    StartExec { id: String, command: String },
    /// Wait 3 s, then read the background command's state.
    PollExec { id: String, exec_id: String },
    /// Run the restart command to completion (up to 60 polls of 2 s).
    Restart { id: String, command: String },
    /// Probe the app inside the VM.
    CheckHealth { id: String },
    /// Read the app's log from the VM.
    FetchLog { id: String },
    /// Expose the app's port on a public URL.
    Expose { id: String },
    /// Check that the public URL really answers.
    CheckPublic { url: String },
    /// Nothing more to do.
    Stop,
}

pub enum Act {
    CreateVm(Seq<char>, Seq<char>),
    PollVm(Seq<char>),
    StartExec(Seq<char>, Seq<char>),
    PollExec(Seq<char>, Seq<char>),
    Restart(Seq<char>, Seq<char>),
    CheckHealth(Seq<char>),
    FetchLog(Seq<char>),
    Expose(Seq<char>),
    CheckPublic(Seq<char>),
    Stop,
}

pub open spec fn act(a: Action) -> Act {
    match a {
        Action::CreateVm { size, name } => Act::CreateVm(size@, name@),
        Action::PollVm { id } => Act::PollVm(id@),
        Action::StartExec { id, command } => Act::StartExec(id@, command@),
        Action::PollExec { id, exec_id } => Act::PollExec(id@, exec_id@),
        Action::Restart { id, command } => Act::Restart(id@, command@),
        Action::CheckHealth { id } => Act::CheckHealth(id@),
        Action::FetchLog { id } => Act::FetchLog(id@),
        Action::Expose { id } => Act::Expose(id@),
        Action::CheckPublic { url } => Act::CheckPublic(url@),
        Action::Stop => Act::Stop,
    }
}

/// The outcome of an action, handed back to the machine.
#[allow(inconsistent_fields)]
pub enum Event {
    /// The VM as created or as read back (or the API error).
    Vm { result: Result<Sandbox, String> },
    ExecStarted { result: Result<BgStart, String> },
    ExecStatus { result: Result<BgStatus, String> },
    /// The restart command's final state; `None` when it did not finish.
    Restarted { result: Option<BgStatus> },
    Health { ok: bool },
    AppLog { text: String },
    Exposed { result: Result<Exposed, String> },
    PublicChecked { ok: bool },
}

#[derive(Clone, Copy, PartialEq, Eq, Debug, Structural)]
pub enum Phase {
    CreatingVm,
    WaitingVm,
    StartingExec,
    PollingExec,
    Restarting,
    Probing,
    ReadingLog,
    Exposing,
    Verifying,
    Finished,
}

/// Polls of the VM state before giving up (2 s apart).
pub const MAX_VM_POLLS: u32 = 30;

/// Polls of the deploy command before giving up (3 s apart: 12 minutes).
pub const MAX_POLLS: u32 = 240;

/// Failed polls in a row after which the VM is considered unresponsive.
pub const MAX_CONSEC_ERRORS: u32 = 30;

/// A deploy in progress.
#[allow(inconsistent_fields)]
pub struct Pipeline {
    /// A fresh deploy (true) or a restart with new env vars (false).
    pub fresh: bool,
    pub id: String,
    pub command: String,
    pub exec_id: String,
    pub polls: u32,
    pub errors: u32,
    pub url: String,
    pub phase: Phase,
}

/// The poll counters stay under their limits while polling.
pub open spec fn counters_ok(p: Pipeline) -> bool {
    &&& p.phase == Phase::WaitingVm ==> p.polls < MAX_VM_POLLS
    &&& p.phase == Phase::PollingExec ==> p.polls < MAX_POLLS && p.errors < MAX_CONSEC_ERRORS
}

pub open spec fn failure(idx: usize, e: Seq<char>) -> Seq<Note> {
    seq![Note::Step(idx, StepStatus::Failed, e), Note::Failed(e)]
}

pub open spec fn probing_note() -> Note {
    Note::Step(2, StepStatus::Running, "probando http://127.0.0.1:3000…"@)
}

/// The VM is up: step 0 is done and the deploy starts.
pub open spec fn vm_ready(id: Seq<char>) -> Seq<Note> {
    seq![
        Note::Step(0, StepStatus::Done, "VM "@ + id + " lista"@),
        Note::Step(1, StepStatus::Running, Seq::<char>::empty()),
    ]
}

pub open spec fn combined_output(st: BgStatus) -> Seq<char> {
    st.stdout@ + st.stderr@
}

/// The error shown when the app does not answer, from its log.
pub open spec fn unhealthy_error(fresh: bool, log: Seq<char>) -> Seq<char> {
    let tail = naming::log_tail(log);
    if fresh {
        if tail.len() == 0 {
            "la app no respondió en el puerto (sin logs)"@
        } else {
            "la app no respondió. Últimas líneas del log:\n"@ + tail
        }
    } else {
        if tail.len() == 0 {
            "la app no respondió tras reiniciar (sin logs)"@
        } else {
            "sigue sin responder. Últimas líneas del log:\n"@ + tail
        }
    }
}

/// Why a restart failed.
pub open spec fn restart_failure(st: BgStatus) -> Seq<char> {
    if text::contains(st.stdout@, "NO_APP"@) {
        "no encontré el código de la app en la VM (¿se borró /app?)"@
    } else {
        naming::log_tail(combined_output(st))
    }
}

/// Where the machine stops and says nothing more.
pub open spec fn stopped(a: Pipeline, b: Pipeline) -> bool {
    b == Pipeline { phase: Phase::Finished, ..a }
}

/// One step of the machine: from state `a` and outcome `ev`, state `b`,
/// the reports `r` and the next action `x`.
pub open spec fn stepped(a: Pipeline, ev: Event, b: Pipeline, r: Seq<Note>, x: Act) -> bool {
    match (a.phase, ev) {
        (Phase::CreatingVm, Event::Vm { result: Err(e) }) => stopped(a, b) && r == failure(0, e@) && x
            == Act::Stop,
        (Phase::CreatingVm, Event::Vm { result: Ok(sb) }) => {
            let running = sb.status@ == "running"@;
            &&& b == Pipeline {
                id: sb.sandbox_id,
                polls: 0,
                phase: if running {
                    Phase::StartingExec
                } else {
                    Phase::WaitingVm
                },
                ..a
            }
            &&& r == seq![Note::Sandbox(sb.sandbox_id@)] + if running {
                vm_ready(sb.sandbox_id@)
            } else {
                Seq::<Note>::empty()
            }
            &&& x == if running {
                Act::StartExec(sb.sandbox_id@, a.command@)
            } else {
                Act::PollVm(sb.sandbox_id@)
            }
        },
        (Phase::WaitingVm, Event::Vm { result: Err(e) }) => stopped(a, b) && r == failure(0, e@) && x
            == Act::Stop,
        (Phase::WaitingVm, Event::Vm { result: Ok(sb) }) => {
            let running = sb.status@ == "running"@;
            let polls = a.polls + 1;
            let seen = Note::Step(0, StepStatus::Running, "estado: "@ + sb.status@);
            if running {
                &&& b == Pipeline { polls: 0, phase: Phase::StartingExec, ..a }
                &&& r == seq![seen] + vm_ready(a.id@)
                &&& x == Act::StartExec(a.id@, a.command@)
            } else if polls >= MAX_VM_POLLS {
                &&& stopped(Pipeline { polls: polls as u32, ..a }, b)
                &&& r == seq![seen] + failure(0, "La VM no llegó a 'running' a tiempo"@)
                &&& x == Act::Stop
            } else {
                &&& b == Pipeline { polls: polls as u32, ..a }
                &&& r == seq![seen]
                &&& x == Act::PollVm(a.id@)
            }
        },
        (Phase::StartingExec, Event::ExecStarted { result: Err(e) }) => stopped(a, b) && r == failure(
            1,
            e@,
        ) && x == Act::Stop,
        (Phase::StartingExec, Event::ExecStarted { result: Ok(bg) }) => {
            &&& b == Pipeline { exec_id: bg.exec_id, polls: 0, errors: 0, phase: Phase::PollingExec, ..a }
            &&& r == Seq::<Note>::empty()
            &&& x == Act::PollExec(a.id@, bg.exec_id@)
        },
        (Phase::PollingExec, Event::ExecStatus { result: Ok(st) }) => {
            let polls = a.polls + 1;
            if st.status@ == "exited"@ {
                let code: int = match st.exit_code {
                    Some(c) => c as int,
                    None => -1,
                };
                if code == 0 {
                    &&& b == Pipeline { phase: Phase::Probing, ..a }
                    &&& r == seq![Note::Step(1, StepStatus::Done, "app arrancada"@), probing_note()]
                    &&& x == Act::CheckHealth(a.id@)
                } else {
                    let detail = naming::log_tail(combined_output(st));
                    &&& stopped(a, b)
                    &&& r == seq![
                        Note::Step(1, StepStatus::Failed, detail),
                        Note::Failed("deploy exit "@ + text::int_dec(code) + ": "@ + detail),
                    ]
                    &&& x == Act::Stop
                }
            } else {
                let busy = Note::Step(1, StepStatus::Running, "instalando y compilando…"@);
                if polls >= MAX_POLLS {
                    &&& stopped(Pipeline { polls: polls as u32, errors: 0, ..a }, b)
                    &&& r == seq![busy] + failure(1, "El deploy no terminó a tiempo (12 min)"@)
                    &&& x == Act::Stop
                } else {
                    &&& b == Pipeline { polls: polls as u32, errors: 0, ..a }
                    &&& r == seq![busy]
                    &&& x == Act::PollExec(a.id@, a.exec_id@)
                }
            }
        },
        (Phase::PollingExec, Event::ExecStatus { result: Err(_) }) => {
            let polls = a.polls + 1;
            let errors = a.errors + 1;
            if errors >= MAX_CONSEC_ERRORS {
                &&& stopped(Pipeline { polls: polls as u32, errors: errors as u32, ..a }, b)
                &&& r == failure(1, "El deploy dejó de responder (VM saturada demasiado tiempo)"@)
                &&& x == Act::Stop
            } else if polls >= MAX_POLLS {
                &&& stopped(Pipeline { polls: polls as u32, errors: errors as u32, ..a }, b)
                &&& r == failure(1, "El deploy no terminó a tiempo (12 min)"@)
                &&& x == Act::Stop
            } else {
                &&& b == Pipeline { polls: polls as u32, errors: errors as u32, ..a }
                &&& r == Seq::<Note>::empty()
                &&& x == Act::PollExec(a.id@, a.exec_id@)
            }
        },
        (Phase::Restarting, Event::Restarted { result: Some(st) }) => {
            if st.exit_code == Some(0i32) {
                &&& b == Pipeline { phase: Phase::Probing, ..a }
                &&& r == seq![
                    Note::Step(0, StepStatus::Done, Seq::<char>::empty()),
                    Note::Step(1, StepStatus::Done, "proceso re-lanzado"@),
                    probing_note(),
                ]
                &&& x == Act::CheckHealth(a.id@)
            } else {
                let detail = restart_failure(st);
                &&& stopped(a, b)
                &&& r == seq![
                    Note::Step(0, StepStatus::Failed, detail),
                    Note::Failed("No se pudo reiniciar: "@ + detail),
                ]
                &&& x == Act::Stop
            }
        },
        (Phase::Restarting, Event::Restarted { result: None }) => stopped(a, b) && r == failure(
            0,
            "El reinicio no respondió (VM ocupada o caída)"@,
        ) && x == Act::Stop,
        (Phase::Probing, Event::Health { ok }) => {
            if !ok {
                &&& b == Pipeline { phase: Phase::ReadingLog, ..a }
                &&& r == Seq::<Note>::empty()
                &&& x == Act::FetchLog(a.id@)
            } else if a.fresh {
                &&& b == Pipeline { phase: Phase::Exposing, ..a }
                &&& r == seq![
                    Note::Step(2, StepStatus::Done, "responde 🟢"@),
                    Note::Step(3, StepStatus::Running, Seq::<char>::empty()),
                ]
                &&& x == Act::Expose(a.id@)
            } else {
                let url = naming::public_url_of(a.id@, APP_PORT);
                &&& b == Pipeline { url: b.url, phase: Phase::Verifying, ..a }
                &&& b.url@ == url
                &&& r == seq![Note::Step(2, StepStatus::Done, "responde 🟢"@)]
                &&& x == Act::CheckPublic(url)
            }
        },
        (Phase::ReadingLog, Event::AppLog { text }) => {
            let step = if a.fresh {
                "la app no respondió en el puerto"@
            } else {
                "la app no respondió tras reiniciar"@
            };
            &&& stopped(a, b)
            &&& r == seq![
                Note::Step(2, StepStatus::Failed, step),
                Note::Logs(text@),
                Note::Failed(unhealthy_error(a.fresh, text@)),
            ]
            &&& x == Act::Stop
        },
        (Phase::Exposing, Event::Exposed { result: Err(e) }) => stopped(a, b) && r == failure(3, e@)
            && x == Act::Stop,
        (Phase::Exposing, Event::Exposed { result: Ok(exp) }) => {
            &&& b == Pipeline { url: exp.url, phase: Phase::Verifying, ..a }
            &&& r == seq![Note::Step(3, StepStatus::Running, "verificando la URL pública…"@)]
            &&& x == Act::CheckPublic(exp.url@)
        },
        (Phase::Verifying, Event::PublicChecked { ok }) => {
            &&& stopped(a, b)
            &&& r == seq![
                if ok {
                    Note::Live(a.url@)
                } else {
                    Note::Unverified(a.url@)
                },
            ]
            &&& x == Act::Stop
        },
        _ => b == a && r == Seq::<Note>::empty() && x == Act::Stop,
    }
}

/// The texts the machine trims with `trim_log` in state `a` on event `ev`:
/// each must be cut on a character boundary.
pub open spec fn trimmable(a: Pipeline, ev: Event) -> bool {
    match ev {
        Event::ExecStatus { result: Ok(st) } => (a.phase == Phase::PollingExec && st.status@
            == "exited"@ && st.exit_code != Some(0i32)) ==> naming::log_cut_ok(combined_output(st)),
        Event::Restarted { result: Some(st) } => (a.phase == Phase::Restarting && st.exit_code != Some(
            0i32,
        ) && !text::contains(st.stdout@, "NO_APP"@)) ==> naming::log_cut_ok(combined_output(st)),
        Event::AppLog { text } => a.phase == Phase::ReadingLog ==> naming::log_cut_ok(text@),
        _ => true,
    }
}

fn s(lit: &str) -> (r: String)
    ensures
        r@ == lit@,
{
    let mut r = String::new();
    text::push_str(&mut r, lit);
    r
}

fn step_report(idx: usize, status: StepStatus, detail: String) -> (r: Report)
    ensures
        note(r) == Note::Step(idx, status, detail@),
{
    Report::Step { idx, status, detail }
}

fn fail_reports(idx: usize, e: String) -> (r: Vec<Report>)
    ensures
        notes(r@) == failure(idx, e@),
{
    let mut v: Vec<Report> = Vec::new();
    v.push(Report::Step { idx, status: StepStatus::Failed, detail: e.clone() });
    v.push(Report::Failed { error: e });
    assert(notes(v@) =~= failure(idx, e@));
    v
}

fn joined(a: &String, b: &String) -> (r: String)
    ensures
        r@ == a@ + b@,
{
    let mut r = a.clone();
    text::push_str(&mut r, b.as_str());
    r
}

fn is_lit(x: &String, lit: &str) -> (r: bool)
    ensures
        r == (x@ == lit@),
{
    let v = text::chars_of(x.as_str());
    text::vec_eq_str(&v, lit)
}

impl Pipeline {
    /// Starts a fresh deploy: step 0 shows the VM class, and the VM is created.
    pub fn launch(size: &str, name: String, command: String) -> (r: (Pipeline, Vec<Report>, Action))
        ensures
            r.0.fresh && r.0.command == command && r.0.phase == Phase::CreatingVm,
            r.0.polls == 0 && r.0.errors == 0,
            counters_ok(r.0),
            notes(r.1@) == seq![Note::Step(0, StepStatus::Running, "VM tamaño "@ + size@)],
            act(r.2) == Act::CreateVm(size@, name@),
    {
        let mut detail = s("VM tamaño ");
        text::push_str(&mut detail, size);
        let mut v: Vec<Report> = Vec::new();
        v.push(step_report(0, StepStatus::Running, detail));
        assert(notes(v@) =~= seq![Note::Step(0, StepStatus::Running, "VM tamaño "@ + size@)]);
        let p = Pipeline {
            fresh: true,
            id: String::new(),
            command,
            exec_id: String::new(),
            polls: 0,
            errors: 0,
            url: String::new(),
            phase: Phase::CreatingVm,
        };
        (p, v, Action::CreateVm { size: s(size), name })
    }

    /// Starts restarting app `id` with `command` (see `reconfigure_command`).
    pub fn reconfigure(id: String, command: String) -> (r: (Pipeline, Vec<Report>, Action))
        ensures
            !r.0.fresh && r.0.id == id && r.0.command == command && r.0.phase == Phase::Restarting,
            counters_ok(r.0),
            notes(r.1@) == seq![Note::Step(0, StepStatus::Running, Seq::<char>::empty())],
            act(r.2) == Act::Restart(id@, command@),
    {
        let mut v: Vec<Report> = Vec::new();
        v.push(step_report(0, StepStatus::Running, String::new()));
        assert(notes(v@) =~= seq![Note::Step(0, StepStatus::Running, Seq::<char>::empty())]);
        let act = Action::Restart { id: id.clone(), command: command.clone() };
        let p = Pipeline {
            fresh: false,
            id,
            command,
            exec_id: String::new(),
            polls: 0,
            errors: 0,
            url: String::new(),
            phase: Phase::Restarting,
        };
        (p, v, act)
    }

    /// Whether `step` accepts `ev` now (see `trimmable`); the loop checks it.
    pub fn accepts(&self, ev: &Event) -> (r: bool)
        ensures
            r == trimmable(*self, *ev),
    {
        match ev {
            Event::ExecStatus { result: Ok(st) } => {
                if self.phase == Phase::PollingExec && is_lit(&st.status, "exited") && st.exit_code
                    != Some(0i32) {
                    let out = joined(&st.stdout, &st.stderr);
                    naming::can_trim_log(out.as_str())
                } else {
                    true
                }
            },
            Event::Restarted { result: Some(st) } => {
                let v = text::chars_of(st.stdout.as_str());
                if self.phase == Phase::Restarting && st.exit_code != Some(0i32) && !text::vec_contains(
                    &v,
                    "NO_APP",
                ) {
                    let out = joined(&st.stdout, &st.stderr);
                    naming::can_trim_log(out.as_str())
                } else {
                    true
                }
            },
            Event::AppLog { text } => {
                if self.phase == Phase::ReadingLog {
                    naming::can_trim_log(text.as_str())
                } else {
                    true
                }
            },
            _ => true,
        }
    }

    fn vm_up(&mut self) -> (r: (Vec<Report>, Action))
        ensures
            *final(self) == (Pipeline { polls: 0, phase: Phase::StartingExec, ..*old(self) }),
            notes(r.0@) == vm_ready(old(self).id@),
            act(r.1) == Act::StartExec(old(self).id@, old(self).command@),
    {
        let mut d = s("VM ");
        text::push_str(&mut d, self.id.as_str());
        text::push_str(&mut d, " lista");
        let mut v: Vec<Report> = Vec::new();
        v.push(step_report(0, StepStatus::Done, d));
        v.push(step_report(1, StepStatus::Running, String::new()));
        assert(notes(v@) =~= vm_ready(self.id@));
        self.polls = 0;
        self.phase = Phase::StartingExec;
        (v, Action::StartExec { id: self.id.clone(), command: self.command.clone() })
    }

    fn finish(&mut self, idx: usize, e: String) -> (r: (Vec<Report>, Action))
        ensures
            stopped(*old(self), *final(self)),
            notes(r.0@) == failure(idx, e@),
            act(r.1) == Act::Stop,
    {
        self.phase = Phase::Finished;
        (fail_reports(idx, e), Action::Stop)
    }

    fn on_vm(&mut self, result: Result<Sandbox, String>) -> (r: (Vec<Report>, Action))
        requires
            old(self).phase == Phase::CreatingVm || old(self).phase == Phase::WaitingVm,
            counters_ok(*old(self)),
        ensures
            stepped(*old(self), Event::Vm { result }, *final(self), notes(r.0@), act(r.1)),
    {
        match result {
            Err(e) => self.finish(0, e),
            Ok(sb) => {
                let running = is_lit(&sb.status, "running");
                if self.phase == Phase::CreatingVm {
                    self.id = sb.sandbox_id;
                    self.polls = 0;
                    let mut v: Vec<Report> = Vec::new();
                    v.push(Report::SandboxCreated { id: self.id.clone() });
                    if running {
                        let (mut w, a) = self.vm_up();
                        let ghost w0 = w@;
                        v.append(&mut w);
                        assert(notes(v@) =~= seq![Note::Sandbox(self.id@)] + notes(w0));
                        (v, a)
                    } else {
                        self.phase = Phase::WaitingVm;
                        assert(notes(v@) =~= seq![Note::Sandbox(self.id@)]);
                        (v, Action::PollVm { id: self.id.clone() })
                    }
                } else {
                    let mut d = s("estado: ");
                    text::push_str(&mut d, sb.status.as_str());
                    let mut v: Vec<Report> = Vec::new();
                    v.push(step_report(0, StepStatus::Running, d));
                    let ghost seen = notes(v@);
                    assert(seen =~= seq![Note::Step(0, StepStatus::Running, "estado: "@ + sb.status@)]);
                    if running {
                        let (mut w, a) = self.vm_up();
                        let ghost w0 = w@;
                        v.append(&mut w);
                        assert(notes(v@) =~= seen + notes(w0));
                        (v, a)
                    } else if self.polls + 1 >= MAX_VM_POLLS {
                        self.polls = self.polls + 1;
                        let (mut w, a) = self.finish(0, s("La VM no llegó a 'running' a tiempo"));
                        let ghost w0 = w@;
                        v.append(&mut w);
                        assert(notes(v@) =~= seen + notes(w0));
                        (v, a)
                    } else {
                        self.polls = self.polls + 1;
                        (v, Action::PollVm { id: self.id.clone() })
                    }
                }
            },
        }
    }

    fn on_exec_status(&mut self, result: Result<BgStatus, String>) -> (r: (Vec<Report>, Action))
        requires
            old(self).phase == Phase::PollingExec,
            counters_ok(*old(self)),
            trimmable(*old(self), Event::ExecStatus { result }),
        ensures
            stepped(*old(self), Event::ExecStatus { result }, *final(self), notes(r.0@), act(r.1)),
    {
        match result {
            Ok(st) => {
                if is_lit(&st.status, "exited") {
                    let code: i32 = match st.exit_code {
                        Some(c) => c,
                        None => -1,
                    };
                    if code == 0 {
                        self.phase = Phase::Probing;
                        let mut v: Vec<Report> = Vec::new();
                        v.push(step_report(1, StepStatus::Done, s("app arrancada")));
                        v.push(step_report(2, StepStatus::Running, s("probando http://127.0.0.1:3000…")));
                        assert(notes(v@) =~= seq![Note::Step(1, StepStatus::Done, "app arrancada"@), probing_note()]);
                        (v, Action::CheckHealth { id: self.id.clone() })
                    } else {
                        let out = joined(&st.stdout, &st.stderr);
                        let detail = naming::trim_log(out.as_str());
                        let mut e = s("deploy exit ");
                        text::push_int(&mut e, code);
                        text::push_str(&mut e, ": ");
                        text::push_str(&mut e, detail.as_str());
                        self.phase = Phase::Finished;
                        let mut v: Vec<Report> = Vec::new();
                        v.push(step_report(1, StepStatus::Failed, detail));
                        v.push(Report::Failed { error: e });
                        assert(notes(v@) =~= seq![
                            Note::Step(1, StepStatus::Failed, naming::log_tail(combined_output(st))),
                            Note::Failed("deploy exit "@ + text::int_dec(code as int) + ": "@ + naming::log_tail(combined_output(st))),
                        ]);
                        (v, Action::Stop)
                    }
                } else {
                    self.errors = 0;
                    self.polls = self.polls + 1;
                    let mut v: Vec<Report> = Vec::new();
                    v.push(step_report(1, StepStatus::Running, s("instalando y compilando…")));
                    let ghost busy = notes(v@);
                    assert(busy =~= seq![Note::Step(1, StepStatus::Running, "instalando y compilando…"@)]);
                    if self.polls >= MAX_POLLS {
                        let (mut w, a) = self.finish(1, s("El deploy no terminó a tiempo (12 min)"));
                        let ghost w0 = w@;
                        v.append(&mut w);
                        assert(notes(v@) =~= busy + notes(w0));
                        (v, a)
                    } else {
                        (v, Action::PollExec { id: self.id.clone(), exec_id: self.exec_id.clone() })
                    }
                }
            },
            Err(_) => {
                self.errors = self.errors + 1;
                self.polls = self.polls + 1;
                if self.errors >= MAX_CONSEC_ERRORS {
                    self.finish(1, s("El deploy dejó de responder (VM saturada demasiado tiempo)"))
                } else if self.polls >= MAX_POLLS {
                    self.finish(1, s("El deploy no terminó a tiempo (12 min)"))
                } else {
                    let v: Vec<Report> = Vec::new();
                    assert(notes(v@) =~= Seq::<Note>::empty());
                    (v, Action::PollExec { id: self.id.clone(), exec_id: self.exec_id.clone() })
                }
            },
        }
    }

    fn on_restarted(&mut self, result: Option<BgStatus>) -> (r: (Vec<Report>, Action))
        requires
            old(self).phase == Phase::Restarting,
            trimmable(*old(self), Event::Restarted { result }),
        ensures
            stepped(*old(self), Event::Restarted { result }, *final(self), notes(r.0@), act(r.1)),
    {
        match result {
            Some(st) => {
                if st.exit_code == Some(0i32) {
                    self.phase = Phase::Probing;
                    let mut v: Vec<Report> = Vec::new();
                    v.push(step_report(0, StepStatus::Done, String::new()));
                    v.push(step_report(1, StepStatus::Done, s("proceso re-lanzado")));
                    v.push(step_report(2, StepStatus::Running, s("probando http://127.0.0.1:3000…")));
                    assert(notes(v@) =~= seq![
                        Note::Step(0, StepStatus::Done, Seq::<char>::empty()),
                        Note::Step(1, StepStatus::Done, "proceso re-lanzado"@),
                        probing_note(),
                    ]);
                    (v, Action::CheckHealth { id: self.id.clone() })
                } else {
                    let sv = text::chars_of(st.stdout.as_str());
                    let detail = if text::vec_contains(&sv, "NO_APP") {
                        s("no encontré el código de la app en la VM (¿se borró /app?)")
                    } else {
                        let out = joined(&st.stdout, &st.stderr);
                        naming::trim_log(out.as_str())
                    };
                    let mut e = s("No se pudo reiniciar: ");
                    text::push_str(&mut e, detail.as_str());
                    self.phase = Phase::Finished;
                    let mut v: Vec<Report> = Vec::new();
                    v.push(step_report(0, StepStatus::Failed, detail));
                    v.push(Report::Failed { error: e });
                    assert(notes(v@) =~= seq![
                        Note::Step(0, StepStatus::Failed, restart_failure(st)),
                        Note::Failed("No se pudo reiniciar: "@ + restart_failure(st)),
                    ]);
                    (v, Action::Stop)
                }
            },
            None => self.finish(0, s("El reinicio no respondió (VM ocupada o caída)")),
        }
    }

    fn on_health(&mut self, ok: bool) -> (r: (Vec<Report>, Action))
        requires
            old(self).phase == Phase::Probing,
        ensures
            stepped(*old(self), Event::Health { ok }, *final(self), notes(r.0@), act(r.1)),
    {
        let mut v: Vec<Report> = Vec::new();
        if !ok {
            self.phase = Phase::ReadingLog;
            assert(notes(v@) =~= Seq::<Note>::empty());
            (v, Action::FetchLog { id: self.id.clone() })
        } else if self.fresh {
            self.phase = Phase::Exposing;
            v.push(step_report(2, StepStatus::Done, s("responde 🟢")));
            v.push(step_report(3, StepStatus::Running, String::new()));
            assert(notes(v@) =~= seq![
                Note::Step(2, StepStatus::Done, "responde 🟢"@),
                Note::Step(3, StepStatus::Running, Seq::<char>::empty()),
            ]);
            (v, Action::Expose { id: self.id.clone() })
        } else {
            let url = naming::public_url(self.id.as_str(), APP_PORT);
            self.url = url.clone();
            self.phase = Phase::Verifying;
            v.push(step_report(2, StepStatus::Done, s("responde 🟢")));
            assert(notes(v@) =~= seq![Note::Step(2, StepStatus::Done, "responde 🟢"@)]);
            (v, Action::CheckPublic { url })
        }
    }

    fn on_log(&mut self, text: String) -> (r: (Vec<Report>, Action))
        requires
            old(self).phase == Phase::ReadingLog,
            naming::log_cut_ok(text@),
        ensures
            stepped(*old(self), Event::AppLog { text }, *final(self), notes(r.0@), act(r.1)),
    {
        let tail = naming::trim_log(text.as_str());
        let empty = tail.as_str().unicode_len() == 0;
        let step = if self.fresh {
            s("la app no respondió en el puerto")
        } else {
            s("la app no respondió tras reiniciar")
        };
        let error = if self.fresh {
            if empty {
                s("la app no respondió en el puerto (sin logs)")
            } else {
                let mut e = s("la app no respondió. Últimas líneas del log:\n");
                text::push_str(&mut e, tail.as_str());
                e
            }
        } else {
            if empty {
                s("la app no respondió tras reiniciar (sin logs)")
            } else {
                let mut e = s("sigue sin responder. Últimas líneas del log:\n");
                text::push_str(&mut e, tail.as_str());
                e
            }
        };
        self.phase = Phase::Finished;
        let mut v: Vec<Report> = Vec::new();
        let ghost t = text@;
        v.push(step_report(2, StepStatus::Failed, step));
        v.push(Report::Logs { text });
        v.push(Report::Failed { error });
        assert(notes(v@) =~= seq![
            Note::Step(2, StepStatus::Failed, if old(self).fresh {
                "la app no respondió en el puerto"@
            } else {
                "la app no respondió tras reiniciar"@
            }),
            Note::Logs(t),
            Note::Failed(unhealthy_error(old(self).fresh, t)),
        ]);
        (v, Action::Stop)
    }

    /// Advances the deploy with the outcome of the last action.
    pub fn step(&mut self, ev: Event) -> (r: (Vec<Report>, Action))
        requires
            counters_ok(*old(self)),
            trimmable(*old(self), ev),
        ensures
            stepped(*old(self), ev, *final(self), notes(r.0@), act(r.1)),
            counters_ok(*final(self)),
    {
        let nothing: Vec<Report> = Vec::new();
        assert(notes(nothing@) =~= Seq::<Note>::empty());
        match ev {
            Event::Vm { result } => {
                if self.phase == Phase::CreatingVm || self.phase == Phase::WaitingVm {
                    self.on_vm(result)
                } else {
                    (nothing, Action::Stop)
                }
            },
            Event::ExecStarted { result } => {
                if self.phase == Phase::StartingExec {
                    match result {
                        Err(e) => self.finish(1, e),
                        Ok(bg) => {
                            self.exec_id = bg.exec_id;
                            self.polls = 0;
                            self.errors = 0;
                            self.phase = Phase::PollingExec;
                            (nothing, Action::PollExec { id: self.id.clone(), exec_id: self.exec_id.clone() })
                        },
                    }
                } else {
                    (nothing, Action::Stop)
                }
            },
            Event::ExecStatus { result } => {
                if self.phase == Phase::PollingExec {
                    self.on_exec_status(result)
                } else {
                    (nothing, Action::Stop)
                }
            },
            Event::Restarted { result } => {
                if self.phase == Phase::Restarting {
                    self.on_restarted(result)
                } else {
                    (nothing, Action::Stop)
                }
            },
            Event::Health { ok } => {
                if self.phase == Phase::Probing {
                    self.on_health(ok)
                } else {
                    (nothing, Action::Stop)
                }
            },
            Event::AppLog { text } => {
                if self.phase == Phase::ReadingLog {
                    self.on_log(text)
                } else {
                    (nothing, Action::Stop)
                }
            },
            Event::Exposed { result } => {
                if self.phase == Phase::Exposing {
                    match result {
                        Err(e) => self.finish(3, e),
                        Ok(exp) => {
                            self.url = exp.url;
                            self.phase = Phase::Verifying;
                            let mut v: Vec<Report> = Vec::new();
                            v.push(step_report(3, StepStatus::Running, s("verificando la URL pública…")));
                            assert(notes(v@) =~= seq![Note::Step(3, StepStatus::Running, "verificando la URL pública…"@)]);
                            (v, Action::CheckPublic { url: self.url.clone() })
                        },
                    }
                } else {
                    (nothing, Action::Stop)
                }
            },
            Event::PublicChecked { ok } => {
                if self.phase == Phase::Verifying {
                    self.phase = Phase::Finished;
                    let mut v: Vec<Report> = Vec::new();
                    if ok {
                        v.push(Report::Live { url: self.url.clone() });
                    } else {
                        v.push(Report::LiveUnverified { url: self.url.clone() });
                    }
                    assert(notes(v@) =~= seq![
                        if ok {
                            Note::Live(self.url@)
                        } else {
                            Note::Unverified(self.url@)
                        },
                    ]);
                    (v, Action::Stop)
                } else {
                    (nothing, Action::Stop)
                }
            },
        }
    }
}


/// What the log viewer shows for the outcome of reading the app's log.
pub open spec fn app_log_of(result: Option<BgStatus>) -> Seq<char> {
    match result {
        Some(st) => if text::trim(combined_output(st)).len() == 0 {
            "(log vacío — la app no escribió nada en /tmp/app.log)"@
        } else {
            combined_output(st)
        },
        None => "(no se pudieron leer los logs de la VM)"@,
    }
}

/// The app's log as read from the VM (`None`: it could not be read).
pub fn app_log_text(result: Option<BgStatus>) -> (r: String)
    ensures
        r@ == app_log_of(result),
{
    match result {
        Some(st) => {
            let out = joined(&st.stdout, &st.stderr);
            let t = text::trim_str(out.as_str());
            if t.as_str().unicode_len() == 0 {
                s("(log vacío — la app no escribió nada en /tmp/app.log)")
            } else {
                out
            }
        },
        None => s("(no se pudieron leer los logs de la VM)"),
    }
}

/// The command that reads the end of the app's log.
pub fn log_command() -> (r: String)
    ensures
        r@ == "tail -n 200 /tmp/app.log 2>/dev/null"@,
{
    s("tail -n 200 /tmp/app.log 2>/dev/null")
}


/// The outcome each phase waits for.
pub open spec fn expects(phase: Phase, ev: Event) -> bool {
    match (phase, ev) {
        (Phase::CreatingVm, Event::Vm { .. }) => true,
        (Phase::WaitingVm, Event::Vm { .. }) => true,
        (Phase::StartingExec, Event::ExecStarted { .. }) => true,
        (Phase::PollingExec, Event::ExecStatus { .. }) => true,
        (Phase::Restarting, Event::Restarted { .. }) => true,
        (Phase::Probing, Event::Health { .. }) => true,
        (Phase::ReadingLog, Event::AppLog { .. }) => true,
        (Phase::Exposing, Event::Exposed { .. }) => true,
        (Phase::Verifying, Event::PublicChecked { .. }) => true,
        _ => false,
    }
}

/// How a deploy ended, as the user is told: it failed, or the app is live (its public
/// URL answered or not).
pub open spec fn is_closing(n: Note) -> bool {
    n is Failed || n is Live || n is Unverified
}

/// Every deploy ends by telling the user how it went: on the outcome it
/// waits for, the pipeline stops exactly when it finishes, and then its last
/// report says how the deploy ended.
pub proof fn lemma_stop_reports_ending(a: Pipeline, ev: Event, b: Pipeline, r: Seq<Note>, x: Act)
    requires
        expects(a.phase, ev),
        stepped(a, ev, b, r, x),
    ensures
        (x == Act::Stop) == (b.phase == Phase::Finished),
        x == Act::Stop ==> r.len() > 0 && is_closing(r.last()),
{
}

/// The app is never announced live before its public URL was checked: a
/// `Live` report only comes from a successful check of that URL.
pub proof fn lemma_live_only_after_public_check(a: Pipeline, ev: Event, b: Pipeline, r: Seq<Note>, x: Act)
    requires
        stepped(a, ev, b, r, x),
    ensures
        forall|i: int|
            0 <= i < r.len() && (#[trigger] r[i]) is Live ==> (a.phase == Phase::Verifying && (ev
                matches Event::PublicChecked { ok } && ok) && r[i] == Note::Live(a.url@)),
{
}

} // verus!
