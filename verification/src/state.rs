//! The launcher's screen state: a deterministic state machine that the UI
//! loop drives with the messages its background tasks send.

use vstd::prelude::*;
use std::sync::Arc;
use std::sync::atomic::AtomicBool;
use crate::text;
use crate::envs;
use crate::naming;
use crate::eyes;

verus! {

/// Reference repository offered by default.
pub const DEFAULT_REF_REPO: &'static str = "https://github.com/blissito/ghosty-ref-node.git";

/// Port the app listens on inside the VM.
pub const APP_PORT: u16 = 3000;

/// VM template used for apps.
pub const TEMPLATE: &'static str = "node";

/// Focusable rows of the Customize screen (the last is the Publish button).
pub const FOCUS_NAME: u8 = 0;
pub const FOCUS_COLOR: u8 = 1;
pub const FOCUS_LOGO: u8 = 2;
pub const FOCUS_PUBLISH: u8 = 3;
pub const FOCUS_COUNT: u8 = 4;

#[verifier::external_type_specification]
#[verifier::external_body]
#[verifier::reject_recursive_types(T)]
pub struct ExOneshotSender<T>(tokio::sync::oneshot::Sender<T>);

/// `tokio::sync::oneshot::Sender::send`: a refused value comes back unchanged.
/// Whether the receiver is still there is not stated (it depends on another task).
#[verifier::external_body]
pub(crate) fn send_reply(reply: tokio::sync::oneshot::Sender<String>, value: String) -> (r: Result<(), String>)
    ensures
        r matches Err(v) ==> v == value,
{
    reply.send(value)
}

#[derive(Clone, Copy, PartialEq, Eq, Debug, Structural)]
pub enum Screen {
    KeyEntry,
    Apps,
    Create,
    Consent,
    Customize,
    Envs,
    Launching,
    Live,
    Logs,
    Agent,
    Error,
}

#[derive(Clone, Copy, PartialEq, Eq, Debug, Structural)]
pub enum StepStatus {
    Pending,
    Running,
    Done,
    Failed,
}

/// A published app (a row of the apps panel).
#[derive(Clone, Debug)]
pub struct AppEntry {
    pub id: String,
    pub name: String,
    pub url: String,
    pub running: bool,
}

/// One step of a deploy, as shown on the progress screen.
pub struct Step {
    pub label: String,
    pub status: StepStatus,
    pub detail: String,
}

/// A step's label, status and detail.
pub open spec fn step_view(s: Step) -> (Seq<char>, StepStatus, Seq<char>) {
    (s.label@, s.status, s.detail@)
}

impl Step {
    /// A pending step with no detail yet.
    pub fn new(label: &str) -> (r: Self)
        ensures
            step_view(r) == (label@, StepStatus::Pending, Seq::<char>::empty()),
    {
        let mut l = String::new();
        text::push_str(&mut l, label);
        assert(l@ =~= label@);
        Step { label: l, status: StepStatus::Pending, detail: String::new() }
    }
}

/// How the fix agent ended.
#[derive(Debug, Clone)]
pub enum Outcome {
    /// It applied a fix (envs/start) and restarted; the health is re-checked.
    Applied { summary: String },
    /// It needs the user to provide these env vars (secrets it will not invent).
    NeedEnvs { summary: String, keys: Vec<String> },
    /// It could not fix the deploy.
    GaveUp { summary: String },
}

/// Messages the background tasks send to the UI loop; `C` is the API client.
pub enum Msg<C> {
    ValidateFailed { error: String },
    AuthStatus { text: String },
    /// After authenticating: the published apps, for the panel.
    AppsLoaded { client: C, email: Option<String>, apps: Vec<AppEntry> },
    /// Create: the repository is static, its CDN publication starts.
    StaticStart,
    /// Create: the repository is an app, go to the VM consent.
    AppCreate { repo: String },
    SandboxCreated { id: String },
    Step { idx: usize, status: StepStatus, detail: String },
    Live { url: String },
    /// The app runs and is exposed, but its public URL did not answer yet.
    LiveUnverified { url: String },
    Failed { error: String },
    /// The VM's app log.
    Logs { text: String },
    /// The apps list could not be read (distinct from "no apps").
    AppsError { error: String },
    /// One step of the fix agent (what it thinks or does).
    AgentStep { text: String },
    AgentDone { outcome: Outcome },
    /// The agent asks the user for a value now; `reply` carries it back.
    AgentNeedInput { prompt: String, reply: tokio::sync::oneshot::Sender<String> },
}

/// What the UI loop must do after a message, beyond the state change.
#[derive(Clone, Copy, PartialEq, Eq, Debug, Structural)]
pub enum ApplyEffect {
    Nothing,
    /// Start the Create flow: read the local `.env` and the reference
    /// repository, then call `App::start_create`.
    StartCreate,
}

/// The whole UI state; `C` is the API client type.
pub struct App<C> {
    pub screen: Screen,
    pub tick: u64,
    pub key_input: String,
    pub email: Option<String>,
    pub client: Option<C>,
    pub validating: bool,
    /// On the auth screen: false = choose (OAuth/key), true = paste a key.
    pub paste_mode: bool,
    /// OAuth or reconnection in progress.
    pub auth_busy: bool,
    pub auth_status: String,
    pub steps: Vec<Step>,
    pub url: Option<String>,
    pub sandbox_id: Option<String>,
    /// Tick at which the app went live (fresh publication); None = viewing one.
    pub live_at: Option<u64>,
    pub eyes: (&'static str, &'static str),
    pub eyes_until: u64,
    pub last_activity: u64,
    pub apps: Vec<AppEntry>,
    pub apps_cursor: usize,
    /// Asking for confirmation before destroying.
    pub confirm_destroy: bool,
    /// An async operation of the panel is running.
    pub busy: Option<String>,
    pub app_name: String,
    pub accent_idx: usize,
    /// Focus on Customize: name, color, logo, publish.
    pub focus: u8,
    pub custom_hex: String,
    pub logo_input: String,
    /// Env vars injected into the app.
    pub envs: Vec<(String, String)>,
    /// Envs screen buffer: `KEY=value`, Enter adds it.
    pub env_input: String,
    pub logs: Option<String>,
    pub logs_return: Screen,
    /// Index of the running step (animates the progress bar).
    pub running_idx: Option<usize>,
    /// Tick at which the running step started.
    pub step_anchor: u64,
    /// Some(id): the Envs screen reconfigures that existing VM.
    pub reconfig_id: Option<String>,
    pub repo_input: String,
    pub error: Option<String>,
    pub agent_steps: Vec<String>,
    pub agent_busy: bool,
    pub agent_outcome: Option<Outcome>,
    /// `(id, error)` of a failed deploy the loop must hand to the agent.
    pub agent_pending: Option<(String, String)>,
    pub agent_prompt: Option<String>,
    pub agent_input: String,
    pub agent_reply: Option<tokio::sync::oneshot::Sender<String>>,
    /// Cancellation flag shared with the agent task.
    pub agent_cancel: Option<Arc<AtomicBool>>,
    pub muted: bool,
    /// Did the public URL really answer?
    pub public_verified: bool,
    pub public_checking: bool,
    pub should_quit: bool,
}

pub open spec fn eyes_view(e: (&'static str, &'static str)) -> (Seq<char>, Seq<char>) {
    (e.0@, e.1@)
}

/// The state of a fresh start (connection screen, nothing loaded).
pub open spec fn initial<C>(a: App<C>) -> bool {
    &&& a.screen == Screen::KeyEntry
    &&& a.tick == 0
    &&& a.key_input@ == Seq::<char>::empty()
    &&& a.email is None
    &&& a.client is None
    &&& !a.validating && !a.paste_mode && !a.auth_busy
    &&& a.auth_status@ == Seq::<char>::empty()
    &&& a.steps@.len() == 0
    &&& a.url is None && a.sandbox_id is None && a.live_at is None
    &&& eyes_view(a.eyes) == ("●"@, "●"@)
    &&& a.eyes_until == 0 && a.last_activity == 0
    &&& a.apps@.len() == 0 && a.apps_cursor == 0
    &&& !a.confirm_destroy && a.busy is None
    &&& a.app_name@ == Seq::<char>::empty()
    &&& a.accent_idx == 0 && a.focus == 0
    &&& a.custom_hex@ == seq!['#']
    &&& a.logo_input@ == Seq::<char>::empty()
    &&& a.envs@.len() == 0
    &&& a.env_input@ == Seq::<char>::empty()
    &&& a.logs is None && a.logs_return == Screen::Live
    &&& a.running_idx is None && a.step_anchor == 0
    &&& a.reconfig_id is None
    &&& a.repo_input@ == Seq::<char>::empty()
    &&& a.error is None
    &&& a.agent_steps@.len() == 0
    &&& !a.agent_busy && a.agent_outcome is None && a.agent_pending is None
    &&& a.agent_prompt is None
    &&& a.agent_input@ == Seq::<char>::empty()
    &&& a.agent_reply is None && a.agent_cancel is None
    &&& !a.muted && !a.public_verified && !a.public_checking && !a.should_quit
}

impl<C> App<C> {
    pub fn new() -> (r: Self)
        ensures
            initial(r),
            well_formed(r),
    {
        let mut hash = String::new();
        text::push_char(&mut hash, '#');
        App {
            screen: Screen::KeyEntry,
            tick: 0,
            key_input: String::new(),
            email: None,
            client: None,
            validating: false,
            paste_mode: false,
            auth_busy: false,
            auth_status: String::new(),
            steps: Vec::new(),
            url: None,
            sandbox_id: None,
            live_at: None,
            eyes: ("●", "●"),
            eyes_until: 0,
            last_activity: 0,
            apps: Vec::new(),
            apps_cursor: 0,
            confirm_destroy: false,
            busy: None,
            app_name: String::new(),
            accent_idx: 0,
            focus: 0,
            custom_hex: hash,
            logo_input: String::new(),
            envs: Vec::new(),
            env_input: String::new(),
            logs: None,
            logs_return: Screen::Live,
            running_idx: None,
            step_anchor: 0,
            reconfig_id: None,
            repo_input: String::new(),
            error: None,
            agent_steps: Vec::new(),
            agent_busy: false,
            agent_outcome: None,
            agent_pending: None,
            agent_prompt: None,
            agent_input: String::new(),
            agent_reply: None,
            agent_cancel: None,
            muted: false,
            public_verified: false,
            public_checking: false,
            should_quit: false,
        }
    }
}


pub open spec fn steps_of(s: Seq<Step>) -> Seq<(Seq<char>, StepStatus, Seq<char>)> {
    s.map_values(|x: Step| step_view(x))
}

/// Fresh pending steps with these labels.
pub open spec fn pending_steps(labels: Seq<Seq<char>>) -> Seq<(Seq<char>, StepStatus, Seq<char>)> {
    labels.map_values(|l: Seq<char>| (l, StepStatus::Pending, Seq::<char>::empty()))
}

pub open spec fn static_labels() -> Seq<Seq<char>> {
    seq!["Clonando el repo"@, "Creando sitio en el CDN"@, "Subiendo archivos"@]
}

pub open spec fn launch_labels() -> Seq<Seq<char>> {
    seq![
        "Creando VM persistente"@,
        "Clonando + instalando + arrancando"@,
        "Verificando que responda"@,
        "Publicando puerto"@,
    ]
}

pub open spec fn reconfigure_labels() -> Seq<Seq<char>> {
    seq![
        "Deteniendo la app"@,
        "Reiniciando con tus variables"@,
        "Verificando que responda"@,
    ]
}

/// The same steps, every one of them done.
pub open spec fn all_done(before: Seq<Step>, after: Seq<Step>) -> bool {
    &&& after.len() == before.len()
    &&& forall|i: int|
        0 <= i < after.len() ==> (#[trigger] after[i]).status == StepStatus::Done && after[i].label
            == before[i].label && after[i].detail == before[i].detail
}

/// The effect of `start_fix_agent`.
pub open spec fn agent_started<C>(a: App<C>, b: App<C>) -> bool {
    &&& b == App::<C> {
        agent_steps: b.agent_steps,
        agent_outcome: None,
        agent_prompt: None,
        agent_input: b.agent_input,
        agent_reply: None,
        agent_cancel: b.agent_cancel,
        agent_busy: true,
        eyes: b.eyes,
        screen: Screen::Agent,
        ..a
    }
    &&& b.agent_steps@.len() == 0
    &&& b.agent_input@ == Seq::<char>::empty()
    &&& b.agent_cancel is Some
    &&& eyes_view(b.eyes) == ("◉"@, "◉"@)
}

/// The effect of `start_launch`: the previous deploy is cleared and four
/// pending steps are shown.
pub open spec fn launch_started<C>(a: App<C>, b: App<C>) -> bool {
    &&& b == App::<C> {
        url: None,
        live_at: None,
        sandbox_id: None,
        confirm_destroy: false,
        logs: None,
        running_idx: None,
        step_anchor: a.tick,
        steps: b.steps,
        screen: Screen::Launching,
        ..a
    }
    &&& steps_of(b.steps@) == pending_steps(launch_labels())
}

/// The bounds that the screens rely on: the apps cursor points into the list
/// (or is zero), the Customize focus is one of its rows and the accent is a
/// preset or the custom choice.
pub open spec fn well_formed<C>(a: App<C>) -> bool {
    &&& (a.apps_cursor < a.apps@.len() || a.apps_cursor == 0)
    &&& a.focus < FOCUS_COUNT
    &&& a.accent_idx <= naming::CUSTOM_ACCENT
}

fn make_steps(a: &str, b: &str, c: &str) -> (r: Vec<Step>)
    ensures
        steps_of(r@) == pending_steps(seq![a@, b@, c@]),
{
    let mut v: Vec<Step> = Vec::new();
    v.push(Step::new(a));
    v.push(Step::new(b));
    v.push(Step::new(c));
    assert(steps_of(v@) =~= pending_steps(seq![a@, b@, c@]));
    v
}

impl<C> App<C> {
    /// Clears the error and the flow state (steps, busy, confirmation, URL).
    /// Returns true when signed in (the caller reloads the panel), false when
    /// back at the connection screen.
    pub fn dismiss_error(&mut self) -> (r: bool)
        ensures
            r == old(self).client is Some,
            *final(self) == (App::<C> {
                error: None,
                steps: final(self).steps,
                busy: final(self).busy,
                confirm_destroy: false,
                url: None,
                sandbox_id: None,
                live_at: None,
                screen: if r { Screen::Apps } else { Screen::KeyEntry },
                ..*old(self)
            }),
            final(self).steps@.len() == 0,
            r ==> (final(self).busy matches Some(b) && b@ == "cargando…"@),
            !r ==> final(self).busy is None,
    {
        self.error = None;
        self.steps.clear();
        self.busy = None;
        self.confirm_destroy = false;
        self.url = None;
        self.sandbox_id = None;
        self.live_at = None;
        if self.client.is_some() {
            let mut b = String::new();
            text::push_str(&mut b, "cargando…");
            self.busy = Some(b);
            self.screen = Screen::Apps;
            true
        } else {
            self.screen = Screen::KeyEntry;
            false
        }
    }

    /// Starts the Create flow with a fresh customization: the name, logo and
    /// color are cleared, `envs` (the local `.env`) is preloaded and the
    /// repository field is prefilled with `repo`.
    pub fn start_create(&mut self, envs: Vec<(String, String)>, repo: String)
        ensures
            *final(self) == (App::<C> {
                key_input: final(self).key_input,
                logo_input: final(self).logo_input,
                accent_idx: 0,
                custom_hex: final(self).custom_hex,
                focus: 0,
                error: None,
                envs: envs,
                env_input: final(self).env_input,
                repo_input: repo,
                screen: Screen::Create,
                ..*old(self)
            }),
            final(self).key_input@ == Seq::<char>::empty(),
            final(self).logo_input@ == Seq::<char>::empty(),
            final(self).custom_hex@ == seq!['#'],
            final(self).env_input@ == Seq::<char>::empty(),
    {
        self.key_input = String::new();
        self.logo_input = String::new();
        self.accent_idx = 0;
        let mut hash = String::new();
        text::push_char(&mut hash, '#');
        self.custom_hex = hash;
        self.focus = 0;
        self.error = None;
        self.envs = envs;
        self.env_input = String::new();
        self.repo_input = repo;
        self.screen = Screen::Create;
    }

    /// Goes to the env-vars screen for a fresh deploy (not a reconfiguration).
    pub fn start_envs(&mut self)
        ensures
            *final(self) == (App::<C> {
                reconfig_id: None,
                env_input: final(self).env_input,
                screen: Screen::Envs,
                ..*old(self)
            }),
            final(self).env_input@ == Seq::<char>::empty(),
    {
        self.reconfig_id = None;
        self.env_input = String::new();
        self.screen = Screen::Envs;
    }

    /// Opens the env-vars screen to reconfigure the running VM `id`, with
    /// `envs` (the local `.env`) preloaded.
    pub fn start_reconfigure_envs(&mut self, id: String, envs: Vec<(String, String)>)
        ensures
            *final(self) == (App::<C> {
                sandbox_id: Some(id),
                reconfig_id: Some(id),
                envs: envs,
                env_input: final(self).env_input,
                error: None,
                screen: Screen::Envs,
                ..*old(self)
            }),
            final(self).env_input@ == Seq::<char>::empty(),
    {
        self.sandbox_id = Some(id.clone());
        self.reconfig_id = Some(id);
        self.envs = envs;
        self.env_input = String::new();
        self.error = None;
        self.screen = Screen::Envs;
    }

    /// Prepares the steps of restarting an app in its VM (no re-clone).
    pub fn start_reconfigure(&mut self)
        ensures
            *final(self) == (App::<C> {
                logs: None,
                running_idx: None,
                step_anchor: old(self).tick,
                url: None,
                live_at: None,
                confirm_destroy: false,
                repo_input: final(self).repo_input,
                steps: final(self).steps,
                screen: Screen::Launching,
                ..*old(self)
            }),
            final(self).repo_input@ == Seq::<char>::empty(),
            steps_of(final(self).steps@) == pending_steps(reconfigure_labels()),
    {
        self.logs = None;
        self.running_idx = None;
        self.step_anchor = self.tick;
        self.url = None;
        self.live_at = None;
        self.confirm_destroy = false;
        self.repo_input = String::new();
        self.steps = make_steps("Deteniendo la app", "Reiniciando con tus variables", "Verificando que responda");
        self.screen = Screen::Launching;
    }

    /// Applies a `KEY=value` line to the env list (add, update, or remove with
    /// an empty value); true when the line has a valid key.
    pub fn upsert_env(&mut self, line: &str) -> (r: bool)
        ensures
            r == envs::env_assignment(line@) is Some,
            *final(self) == (App::<C> { envs: final(self).envs, ..*old(self) }),
            match envs::env_assignment(line@) {
                Some(kv) => envs::pairs(final(self).envs@) == envs::upserted(envs::pairs(old(self).envs@), kv.0, kv.1),
                None => final(self).envs@ == old(self).envs@,
            },
    {
        envs::upsert_env_line(&mut self.envs, line)
    }

    /// Marks every deploy step done (the app went live, possibly via the agent).
    pub fn complete_steps(&mut self)
        ensures
            *final(self) == (App::<C> { steps: final(self).steps, ..*old(self) }),
            all_done(old(self).steps@, final(self).steps@),
    {
        let n = self.steps.len();
        let mut i: usize = 0;
        while i < n
            invariant
                n == self.steps@.len() == old(self).steps@.len(),
                i <= n,
                *self == (App::<C> { steps: self.steps, ..*old(self) }),
                forall|j: int|
                    0 <= j < i ==> (#[trigger] self.steps@[j]).status == StepStatus::Done
                        && self.steps@[j].label == old(self).steps@[j].label
                        && self.steps@[j].detail == old(self).steps@[j].detail,
                forall|j: int| i <= j < n ==> #[trigger] self.steps@[j] == old(self).steps@[j],
            decreases n - i,
        {
            let label = self.steps[i].label.clone();
            let detail = self.steps[i].detail.clone();
            self.steps.set(i, Step { label, status: StepStatus::Done, detail });
            i = i + 1;
        }
    }

    /// Starts the fix agent on the VM of a failed deploy.
    pub fn start_fix_agent(&mut self)
        ensures
            agent_started(*old(self), *final(self)),
    {
        self.agent_steps.clear();
        self.agent_outcome = None;
        self.agent_prompt = None;
        self.agent_input = String::new();
        self.agent_reply = None;
        self.agent_cancel = Some(Arc::new(AtomicBool::new(false)));
        self.agent_busy = true;
        self.eyes = ("◉", "◉");
        self.screen = Screen::Agent;
    }

    /// Prepares the four steps of a fresh deploy, clearing the previous one.
    pub fn start_launch(&mut self)
        ensures
            launch_started(*old(self), *final(self)),
    {
        self.url = None;
        self.live_at = None;
        self.sandbox_id = None;
        self.confirm_destroy = false;
        self.logs = None;
        self.running_idx = None;
        self.step_anchor = self.tick;
        let mut v: Vec<Step> = Vec::new();
        v.push(Step::new("Creando VM persistente"));
        v.push(Step::new("Clonando + instalando + arrancando"));
        v.push(Step::new("Verificando que responda"));
        v.push(Step::new("Publicando puerto"));
        assert(steps_of(v@) =~= pending_steps(launch_labels()));
        self.steps = v;
        self.screen = Screen::Launching;
    }
}

/// Ticks of inactivity after which the ghost gets drowsy, then falls asleep.
pub const DROWSY_AFTER: u64 = 200;
pub const SLEEP_AFTER: u64 = 360;

/// Ticks elapsed since `since` (zero if `since` lies ahead).
pub open spec fn ticks_since(tick: u64, since: u64) -> int {
    if tick >= since {
        tick - since
    } else {
        0
    }
}

/// The effect of one animation frame on the eyes.
pub open spec fn eyes_ticked<C>(a: App<C>, b: App<C>) -> bool {
    let idle = ticks_since(a.tick, a.last_activity);
    if idle > SLEEP_AFTER {
        b == App::<C> { eyes: b.eyes, ..a } && eyes_view(b.eyes) == ("─"@, "─"@)
    } else if idle > DROWSY_AFTER {
        b == App::<C> { eyes: b.eyes, ..a } && eyes_view(b.eyes) == ("◡"@, "◡"@)
    } else if a.tick < a.eyes_until {
        b == a
    } else {
        let next = eyes::eyes_for(eyes::eye_hash(a.tick));
        &&& b == App::<C> { eyes: b.eyes, eyes_until: (a.tick + next.1) as u64, ..a }
        &&& eyes_view(b.eyes) == next.0
    }
}

/// Steps that are done.
pub open spec fn done_count(s: Seq<Step>) -> nat
    decreases s.len(),
{
    if s.len() == 0 {
        0
    } else {
        done_count(s.drop_last()) + if s.last().status == StepStatus::Done {
            1nat
        } else {
            0nat
        }
    }
}

pub open spec fn any_running(s: Seq<Step>) -> bool {
    exists|i: int| 0 <= i < s.len() && (#[trigger] s[i]).status == StepStatus::Running
}

/// The accent color the user picked: a preset, or the custom hex when it is
/// valid (the first preset otherwise).
pub open spec fn chosen_accent_of(idx: usize, custom: Seq<char>) -> Seq<char> {
    if idx == naming::CUSTOM_ACCENT {
        match naming::normalized_hex(custom) {
            Some(h) => h,
            None => naming::hex_color(naming::accent_rgb(0)),
        }
    } else {
        naming::hex_color(naming::accent_rgb(idx as int % 5))
    }
}

/// The hex code of the chosen accent (preset or validated custom).
pub fn chosen_accent<C>(app: &App<C>) -> (r: String)
    ensures
        r@ == chosen_accent_of(app.accent_idx, app.custom_hex@),
{
    if app.accent_idx == naming::CUSTOM_ACCENT {
        match naming::normalize_hex(app.custom_hex.as_str()) {
            Some(h) => h,
            None => naming::accent_hex(0),
        }
    } else {
        naming::accent_hex(app.accent_idx)
    }
}

impl<C> App<C> {
    /// Advances the eye animation (once per frame): idle expressions, drowsy
    /// after ~10 s without activity, asleep after ~18 s.
    pub fn tick_eyes(&mut self)
        requires
            ticks_since(old(self).tick, old(self).last_activity) <= DROWSY_AFTER && old(self).tick
                >= old(self).eyes_until ==> old(self).tick + eyes::eyes_for(
                eyes::eye_hash(old(self).tick),
            ).1 <= u64::MAX,
        ensures
            eyes_ticked(*old(self), *final(self)),
    {
        let idle = self.tick.saturating_sub(self.last_activity);
        if idle > SLEEP_AFTER {
            self.eyes = ("─", "─");
            return;
        }
        if idle > DROWSY_AFTER {
            self.eyes = ("◡", "◡");
            return;
        }
        if self.tick < self.eyes_until {
            return;
        }
        let (e, dur) = eyes::next_eyes(self.tick);
        self.eyes = e;
        self.eyes_until = self.tick + dur;
    }

    /// What the progress bar is drawn from: the steps done, the number of
    /// steps, whether one is running, and the ticks since it started.
    pub fn launch_progress(&self) -> (r: (usize, usize, bool, u64))
        ensures
            r.0 == done_count(self.steps@),
            r.1 == self.steps@.len(),
            r.2 == any_running(self.steps@),
            r.3 == ticks_since(self.tick, self.step_anchor),
    {
        let n = self.steps.len();
        let mut done: usize = 0;
        let mut running = false;
        let mut i: usize = 0;
        while i < n
            invariant
                n == self.steps@.len(),
                i <= n,
                done == done_count(self.steps@.subrange(0, i as int)),
                done <= i,
                running == any_running(self.steps@.subrange(0, i as int)),
            decreases n - i,
        {
            let ghost before = self.steps@.subrange(0, i as int);
            let ghost after = self.steps@.subrange(0, i + 1);
            assert(after.drop_last() =~= before);
            if self.steps[i].status == StepStatus::Done {
                done = done + 1;
            }
            if self.steps[i].status == StepStatus::Running {
                running = true;
            }
            assert(running == any_running(after)) by {
                if any_running(after) {
                    let k = choose|k: int| 0 <= k < after.len() && (#[trigger] after[k]).status == StepStatus::Running;
                    if k < i {
                        assert(before[k] == after[k]);
                    }
                }
                if any_running(before) {
                    let k = choose|k: int| 0 <= k < before.len() && (#[trigger] before[k]).status == StepStatus::Running;
                    assert(before[k] == after[k]);
                }
            }
            i = i + 1;
        }
        assert(self.steps@.subrange(0, n as int) =~= self.steps@);
        (done, n, running, self.tick.saturating_sub(self.step_anchor))
    }
}

/// `steps[idx]` gets `status`, and `detail` unless it is empty; an index past
/// the end changes nothing.
pub open spec fn step_updated(
    s: Seq<Step>,
    idx: usize,
    status: StepStatus,
    detail: Seq<char>,
    t: Seq<Step>,
) -> bool {
    if idx < s.len() {
        &&& t.len() == s.len()
        &&& forall|j: int| 0 <= j < s.len() && j != idx ==> #[trigger] t[j] == s[j]
        &&& t[idx as int].label == s[idx as int].label
        &&& t[idx as int].status == status
        &&& t[idx as int].detail@ == if detail.len() == 0 {
            s[idx as int].detail@
        } else {
            detail
        }
    } else {
        t == s
    }
}

/// The effect of the agent's final report; a cancelled run only drops the flag.
pub open spec fn agent_finished<C>(a: App<C>, outcome: Outcome, cancelled: bool, b: App<C>) -> bool {
    if cancelled {
        b == App::<C> { agent_cancel: None, ..a }
    } else {
        b == App::<C> {
            agent_cancel: None,
            agent_busy: false,
            agent_prompt: None,
            agent_reply: None,
            agent_outcome: Some(outcome),
            ..a
        }
    }
}

/// The cursor kept inside a list of `n` apps.
pub open spec fn clamped_cursor(cursor: usize, n: nat) -> usize {
    let last: int = if n == 0 {
        0
    } else {
        n - 1
    };
    if cursor <= last {
        cursor
    } else {
        last as usize
    }
}

/// What applying message `m` to state `a` gives: state `b` and effect `e`.
pub open spec fn applied<C>(a: App<C>, m: Msg<C>, b: App<C>, e: ApplyEffect) -> bool {
    match m {
        Msg::ValidateFailed { error } => {
            &&& e == ApplyEffect::Nothing
            &&& b == App::<C> { validating: false, auth_busy: false, error: Some(error), ..a }
        },
        Msg::AuthStatus { text } => {
            &&& e == ApplyEffect::Nothing
            &&& b == App::<C> { auth_busy: true, error: None, auth_status: text, ..a }
        },
        Msg::AppsLoaded { client, email, apps } => {
            let empty = apps@.len() == 0;
            &&& e == if empty {
                ApplyEffect::StartCreate
            } else {
                ApplyEffect::Nothing
            }
            &&& b == App::<C> {
                auth_busy: false,
                validating: false,
                busy: None,
                client: Some(client),
                email: email,
                apps_cursor: clamped_cursor(a.apps_cursor, apps@.len()),
                apps: apps,
                screen: if empty {
                    a.screen
                } else {
                    Screen::Apps
                },
                ..a
            }
        },
        Msg::StaticStart => {
            &&& e == ApplyEffect::Nothing
            &&& b == App::<C> { busy: None, steps: b.steps, screen: Screen::Launching, ..a }
            &&& steps_of(b.steps@) == pending_steps(static_labels())
        },
        Msg::AppCreate { repo } => {
            &&& e == ApplyEffect::Nothing
            &&& b == App::<C> { busy: None, repo_input: repo, screen: Screen::Consent, ..a }
        },
        Msg::SandboxCreated { id } => {
            &&& e == ApplyEffect::Nothing
            &&& b == App::<C> { sandbox_id: Some(id), ..a }
        },
        Msg::Step { idx, status, detail } => {
            let anchor = status == StepStatus::Running && a.running_idx != Some(idx);
            &&& e == ApplyEffect::Nothing
            &&& b == App::<C> {
                running_idx: if anchor {
                    Some(idx)
                } else {
                    a.running_idx
                },
                step_anchor: if anchor {
                    a.tick
                } else {
                    a.step_anchor
                },
                steps: b.steps,
                ..a
            }
            &&& step_updated(a.steps@, idx, status, detail@, b.steps@)
        },
        Msg::Live { url } => {
            &&& e == ApplyEffect::Nothing
            &&& b == App::<C> {
                url: Some(url),
                live_at: Some(a.tick),
                public_verified: true,
                public_checking: false,
                steps: b.steps,
                screen: Screen::Live,
                ..a
            }
            &&& all_done(a.steps@, b.steps@)
        },
        Msg::LiveUnverified { url } => {
            &&& e == ApplyEffect::Nothing
            &&& b == App::<C> {
                url: Some(url),
                live_at: None,
                public_verified: false,
                public_checking: false,
                steps: b.steps,
                screen: Screen::Live,
                ..a
            }
            &&& all_done(a.steps@, b.steps@)
        },
        Msg::Failed { error } => {
            &&& e == ApplyEffect::Nothing
            &&& match a.sandbox_id {
                Some(id) => {
                    &&& agent_started(a, App::<C> { agent_pending: a.agent_pending, ..b })
                    &&& b.agent_pending == Some((id, error))
                },
                None => b == App::<C> { error: Some(error), screen: Screen::Error, ..a },
            }
        },
        Msg::Logs { text } => {
            &&& e == ApplyEffect::Nothing
            &&& b == App::<C> { busy: None, logs: Some(text), ..a }
        },
        Msg::AppsError { error } => {
            &&& e == ApplyEffect::Nothing
            &&& b == App::<C> { busy: None, error: b.error, screen: Screen::Error, ..a }
            &&& b.error matches Some(t) && t@ == "No se pudo leer tus apps: "@ + error@
        },
        Msg::AgentStep { text } => {
            &&& e == ApplyEffect::Nothing
            &&& b == App::<C> { agent_steps: b.agent_steps, ..a }
            &&& b.agent_steps@ == a.agent_steps@.push(text)
        },
        Msg::AgentDone { outcome } => {
            &&& e == ApplyEffect::Nothing
            &&& (agent_finished(a, outcome, false, b) || (a.agent_cancel is Some
                && agent_finished(a, outcome, true, b)))
        },
        Msg::AgentNeedInput { prompt, reply } => {
            &&& e == ApplyEffect::Nothing
            &&& b == App::<C> {
                agent_prompt: Some(prompt),
                agent_reply: Some(reply),
                agent_input: b.agent_input,
                ..a
            }
            &&& b.agent_input@ == Seq::<char>::empty()
        },
    }
}

/// The state after the agent was cancelled: no pending question, answer or
/// report, the agent no longer busy, the input cleared and the eyes idle.
pub open spec fn agent_cancelled<C>(a: App<C>, b: App<C>) -> bool {
    &&& b == (App::<C> {
        agent_reply: None,
        agent_busy: false,
        agent_prompt: None,
        agent_input: b.agent_input,
        agent_outcome: None,
        eyes: b.eyes,
        ..a
    })
    &&& b.agent_input@ == Seq::<char>::empty()
    &&& eyes_view(b.eyes) == ("•"@, "•"@)
}

/// Whether the cancellation flag shared with the agent task is up.
fn flag_raised(flag: &Arc<AtomicBool>) -> bool {
    flag.load(std::sync::atomic::Ordering::Relaxed)
}

/// Raises the cancellation flag shared with the agent task.
fn raise_flag(flag: &Arc<AtomicBool>) {
    flag.store(true, std::sync::atomic::Ordering::Relaxed);
}

impl<C> App<C> {
    /// Records the fix agent's final report. When the user already cancelled
    /// (`cancelled`), the late report is dropped: the UI has moved on.
    pub fn finish_agent(&mut self, outcome: Outcome, cancelled: bool)
        ensures
            agent_finished(*old(self), outcome, cancelled, *final(self)),
    {
        self.agent_cancel = None;
        if cancelled {
            return;
        }
        self.agent_busy = false;
        self.agent_prompt = None;
        self.agent_reply = None;
        self.agent_outcome = Some(outcome);
    }

    fn update_step(&mut self, idx: usize, status: StepStatus, detail: String)
        ensures
            *final(self) == (App::<C> { steps: final(self).steps, ..*old(self) }),
            step_updated(old(self).steps@, idx, status, detail@, final(self).steps@),
    {
        if idx < self.steps.len() {
            let label = self.steps[idx].label.clone();
            let d = if detail.as_str().unicode_len() == 0 {
                self.steps[idx].detail.clone()
            } else {
                detail
            };
            self.steps.set(idx, Step { label, status, detail: d });
        }
    }

    fn on_auth(&mut self, msg: Msg<C>) -> (e: ApplyEffect)
        requires
            msg is ValidateFailed || msg is AuthStatus || msg is AppsLoaded,
        ensures
            applied(*old(self), msg, *final(self), e),
    {
        match msg {
            Msg::ValidateFailed { error } => {
                self.validating = false;
                self.auth_busy = false;
                self.error = Some(error);
                ApplyEffect::Nothing
            },
            Msg::AuthStatus { text } => {
                self.auth_busy = true;
                self.error = None;
                self.auth_status = text;
                ApplyEffect::Nothing
            },
            Msg::AppsLoaded { client, email, apps } => {
                self.auth_busy = false;
                self.validating = false;
                self.busy = None;
                self.client = Some(client);
                self.email = email;
                let last = apps.len().saturating_sub(1);
                if self.apps_cursor > last {
                    self.apps_cursor = last;
                }
                let empty = apps.len() == 0;
                self.apps = apps;
                if empty {
                    ApplyEffect::StartCreate
                } else {
                    self.screen = Screen::Apps;
                    ApplyEffect::Nothing
                }
            },
            _ => ApplyEffect::Nothing,
        }
    }

    fn on_deploy(&mut self, msg: Msg<C>) -> (e: ApplyEffect)
        requires
            msg is StaticStart || msg is AppCreate || msg is SandboxCreated || msg is Step,
        ensures
            applied(*old(self), msg, *final(self), e),
    {
        match msg {
            Msg::StaticStart => {
                self.busy = None;
                self.steps = make_steps("Clonando el repo", "Creando sitio en el CDN", "Subiendo archivos");
                self.screen = Screen::Launching;
            },
            Msg::AppCreate { repo } => {
                self.busy = None;
                self.repo_input = repo;
                self.screen = Screen::Consent;
            },
            Msg::SandboxCreated { id } => {
                self.sandbox_id = Some(id);
            },
            Msg::Step { idx, status, detail } => {
                let fresh = match self.running_idx {
                    Some(r) => r != idx,
                    None => true,
                };
                if status == StepStatus::Running && fresh {
                    self.running_idx = Some(idx);
                    self.step_anchor = self.tick;
                }
                self.update_step(idx, status, detail);
            },
            _ => {},
        }
        ApplyEffect::Nothing
    }

    fn on_outcome(&mut self, msg: Msg<C>) -> (e: ApplyEffect)
        requires
            msg is Live || msg is LiveUnverified || msg is Failed || msg is Logs || msg is AppsError,
        ensures
            applied(*old(self), msg, *final(self), e),
    {
        match msg {
            Msg::Live { url } => {
                self.url = Some(url);
                self.live_at = Some(self.tick);
                self.public_verified = true;
                self.public_checking = false;
                self.complete_steps();
                self.screen = Screen::Live;
            },
            Msg::LiveUnverified { url } => {
                self.url = Some(url);
                self.live_at = None;
                self.public_verified = false;
                self.public_checking = false;
                self.complete_steps();
                self.screen = Screen::Live;
            },
            Msg::Failed { error } => {
                match self.sandbox_id.clone() {
                    Some(id) => {
                        self.start_fix_agent();
                        self.agent_pending = Some((id, error));
                    },
                    None => {
                        self.error = Some(error);
                        self.screen = Screen::Error;
                    },
                }
            },
            Msg::Logs { text } => {
                self.busy = None;
                self.logs = Some(text);
            },
            Msg::AppsError { error } => {
                self.busy = None;
                let mut t = String::new();
                text::push_str(&mut t, "No se pudo leer tus apps: ");
                text::push_str(&mut t, error.as_str());
                self.error = Some(t);
                self.screen = Screen::Error;
            },
            _ => {},
        }
        ApplyEffect::Nothing
    }

    fn on_agent(&mut self, msg: Msg<C>) -> (e: ApplyEffect)
        requires
            msg is AgentStep || msg is AgentDone || msg is AgentNeedInput,
        ensures
            applied(*old(self), msg, *final(self), e),
    {
        match msg {
            Msg::AgentStep { text } => {
                self.agent_steps.push(text);
            },
            Msg::AgentDone { outcome } => {
                let cancelled = match &self.agent_cancel {
                    Some(flag) => flag_raised(flag),
                    None => false,
                };
                self.finish_agent(outcome, cancelled);
            },
            Msg::AgentNeedInput { prompt, reply } => {
                self.agent_prompt = Some(prompt);
                self.agent_reply = Some(reply);
                self.agent_input = String::new();
            },
            _ => {},
        }
        ApplyEffect::Nothing
    }

    /// Applies a message from a background task. `StartCreate` asks the UI
    /// loop to read the local `.env` and the reference repository and call
    /// `start_create` (the list of apps came back empty).
    pub fn apply(&mut self, msg: Msg<C>) -> (e: ApplyEffect)
        ensures
            applied(*old(self), msg, *final(self), e),
            well_formed(*old(self)) ==> well_formed(*final(self)),
    {
        let group: u8 = match &msg {
            Msg::ValidateFailed { .. } | Msg::AuthStatus { .. } | Msg::AppsLoaded { .. } => 0,
            Msg::StaticStart | Msg::AppCreate { .. } | Msg::SandboxCreated { .. } | Msg::Step {
                ..
            } => 1,
            Msg::Live { .. } | Msg::LiveUnverified { .. } | Msg::Failed { .. } | Msg::Logs { .. }
            | Msg::AppsError { .. } => 2,
            _ => 3,
        };
        if group == 0 {
            self.on_auth(msg)
        } else if group == 1 {
            self.on_deploy(msg)
        } else if group == 2 {
            self.on_outcome(msg)
        } else {
            self.on_agent(msg)
        }
    }

    /// `Esc` on the agent screen: always aborts. Raises the shared flag (the
    /// agent checks it between steps), answers a pending question with an
    /// empty value so the agent is not left waiting, and frees the UI.
    pub fn cancel_agent(&mut self)
        ensures
            agent_cancelled(*old(self), *final(self)),
    {
        match &self.agent_cancel {
            Some(flag) => raise_flag(flag),
            None => {},
        }
        match self.agent_reply.take() {
            Some(reply) => {
                let _ = send_reply(reply, String::new());
            },
            None => {},
        }
        self.agent_busy = false;
        self.agent_prompt = None;
        self.agent_input = String::new();
        self.agent_outcome = None;
        self.eyes = ("•", "•");
    }
}

/// The marker printed before a step in the plain-text progress.
pub open spec fn step_mark(s: StepStatus) -> Seq<char> {
    match s {
        StepStatus::Pending => "·"@,
        StepStatus::Running => "▸"@,
        StepStatus::Done => "✓"@,
        StepStatus::Failed => "✗"@,
    }
}

pub fn step_label(s: StepStatus) -> (r: &'static str)
    ensures
        r@ == step_mark(s),
{
    match s {
        StepStatus::Pending => "·",
        StepStatus::Running => "▸",
        StepStatus::Done => "✓",
        StepStatus::Failed => "✗",
    }
}

/// Which text buffer the current screen edits (for line-editing keys).
#[derive(Clone, Copy, PartialEq, Eq, Debug, Structural)]
pub enum InputField {
    Key,
    Repo,
    Env,
    Logo,
    CustomHex,
    AgentAnswer,
}

/// The editable buffer of the current screen and focus, if any: the pasted
/// key, the repository, the env line, the name (kept in the key buffer), the
/// logo, the custom color, or the answer to the agent's question.
pub open spec fn active_input_of<C>(a: App<C>) -> Option<InputField> {
    match a.screen {
        Screen::KeyEntry => if a.paste_mode {
            Some(InputField::Key)
        } else {
            None
        },
        Screen::Create => Some(InputField::Repo),
        Screen::Envs => Some(InputField::Env),
        Screen::Customize => if a.focus == FOCUS_NAME {
            Some(InputField::Key)
        } else if a.focus == FOCUS_LOGO {
            Some(InputField::Logo)
        } else if a.focus == FOCUS_COLOR && a.accent_idx == naming::CUSTOM_ACCENT {
            Some(InputField::CustomHex)
        } else {
            None
        },
        Screen::Agent => if a.agent_prompt is Some {
            Some(InputField::AgentAnswer)
        } else {
            None
        },
        _ => None,
    }
}

impl<C> App<C> {
    /// The text buffer the current screen edits, if any.
    pub fn active_input(&self) -> (r: Option<InputField>)
        ensures
            r == active_input_of(*self),
    {
        match self.screen {
            Screen::KeyEntry => if self.paste_mode {
                Some(InputField::Key)
            } else {
                None
            },
            Screen::Create => Some(InputField::Repo),
            Screen::Envs => Some(InputField::Env),
            Screen::Customize => if self.focus == FOCUS_NAME {
                Some(InputField::Key)
            } else if self.focus == FOCUS_LOGO {
                Some(InputField::Logo)
            } else if self.focus == FOCUS_COLOR && self.accent_idx == naming::CUSTOM_ACCENT {
                Some(InputField::CustomHex)
            } else {
                None
            },
            Screen::Agent => if self.agent_prompt.is_some() {
                Some(InputField::AgentAnswer)
            } else {
                None
            },
            _ => None,
        }
    }
}

/// A failure to read the apps list is not "no apps": the panel keeps the
/// apps it had and the error is shown.
pub proof fn lemma_apps_error_keeps_apps<C>(a: App<C>, error: String, b: App<C>, e: ApplyEffect)
    requires
        applied(a, Msg::<C>::AppsError { error }, b, e),
    ensures
        b.apps == a.apps,
        b.apps_cursor == a.apps_cursor,
        b.screen == Screen::Error,
{
}

/// A failed deploy whose VM exists goes to the fix agent by itself, with the
/// VM and the error handed over; without a VM there is nothing to fix and
/// the error is shown.
pub proof fn lemma_failure_routes<C>(a: App<C>, error: String, b: App<C>, e: ApplyEffect)
    requires
        applied(a, Msg::<C>::Failed { error }, b, e),
    ensures
        a.sandbox_id is Some ==> b.screen == Screen::Agent && b.agent_busy && b.agent_pending == Some(
            (a.sandbox_id->0, error),
        ),
        a.sandbox_id is None ==> b.screen == Screen::Error && b.error == Some(error),
{
}

proof fn lemma_done_count_all(s: Seq<Step>)
    requires
        forall|i: int| 0 <= i < s.len() ==> (#[trigger] s[i]).status == StepStatus::Done,
    ensures
        done_count(s) == s.len(),
    decreases s.len(),
{
    if s.len() > 0 {
        let t = s.drop_last();
        assert forall|i: int| 0 <= i < t.len() implies (#[trigger] t[i]).status == StepStatus::Done by {
            assert(t[i] == s[i]);
        }
        lemma_done_count_all(t);
    }
}

/// When the app goes live (verified or not), every step of its deploy counts
/// as done, so the progress bar is full.
pub proof fn lemma_live_fills_progress<C>(a: App<C>, m: Msg<C>, b: App<C>, e: ApplyEffect)
    requires
        m is Live || m is LiveUnverified,
        applied(a, m, b, e),
    ensures
        done_count(b.steps@) == b.steps@.len(),
        !any_running(b.steps@),
        b.steps@.len() == a.steps@.len(),
{
    lemma_done_count_all(b.steps@);
}

} // verus!
