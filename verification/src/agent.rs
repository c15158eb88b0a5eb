//! The fix agent: the tools it is offered, how each answer of the model is
//! read (narration, tool calls, `finish`), how every tool call is planned and
//! answered, its turn budget, its final report, and the durable env vars and
//! start command it records.

use vstd::prelude::*;
use crate::text;
use crate::envs;
use crate::state::Outcome;
use crate::recipe::Override;
use crate::naming;
use crate::api::BgStatus;
use crate::schema::{Json, JsonV, json_view, items_view, members_view, lemma_items_view, lemma_members_view};
use crate::turn::{Block, Part, block_part};

verus! {

/// The arguments of the agent's `finish` call.
#[derive(Debug, Clone)]
pub struct FinishArgs {
    pub summary: Option<String>,
    pub applied: Option<bool>,
    /// The env var names the user must provide (the string items of `needs_envs`).
    pub needs_envs: Vec<String>,
}

/// The summary of a report, with a default when the agent gave none.
pub open spec fn summary_of(args: FinishArgs) -> Seq<char> {
    match args.summary {
        Some(s) => s@,
        None => "El agente terminó."@,
    }
}

pub open spec fn outcome_summary(o: Outcome) -> Seq<char> {
    match o {
        Outcome::Applied { summary } => summary@,
        Outcome::NeedEnvs { summary, .. } => summary@,
        Outcome::GaveUp { summary } => summary@,
    }
}

/// Reads the agent's final report.
pub fn finish_outcome(args: FinishArgs) -> (r: Outcome)
    ensures
        outcome_summary(r) == summary_of(args),
        args.needs_envs@.len() > 0 ==> (r matches Outcome::NeedEnvs { keys, .. } && keys
            == args.needs_envs),
        args.needs_envs@.len() == 0 && args.applied == Some(true) ==> r is Applied,
        args.needs_envs@.len() == 0 && args.applied != Some(true) ==> r is GaveUp,
{
    let summary = match args.summary {
        Some(s) => s,
        None => {
            let mut d = String::new();
            text::push_str(&mut d, "El agente terminó.");
            d
        },
    };
    if args.needs_envs.len() > 0 {
        Outcome::NeedEnvs { summary, keys: args.needs_envs }
    } else if args.applied == Some(true) {
        Outcome::Applied { summary }
    } else {
        Outcome::GaveUp { summary }
    }
}

/// What the user sees of a tool call (the agent's own words carry the story).
pub open spec fn tool_label_of(name: Seq<char>, key: Seq<char>) -> Seq<char> {
    if name == "run_in_vm"@ {
        "   · revisando la VM…"@
    } else if name == "read_app_log"@ {
        "   · releyendo el log…"@
    } else if name == "set_env"@ {
        "   · fijando "@ + key + " (durable)"@
    } else if name == "set_start"@ {
        "   · ajustando el comando de arranque"@
    } else if name == "restart"@ {
        "   · reiniciando la app…"@
    } else if name == "need_secret"@ {
        "   · te pido un dato…"@
    } else {
        "   · "@ + name
    }
}

fn is_name(v: &Vec<char>, lit: &str) -> (r: bool)
    ensures
        r == (v@ == lit@),
{
    text::vec_eq_str(v, lit)
}

/// The label of tool `name`; `key` is the `key` argument (for `set_env`).
pub fn tool_label(name: &str, key: &str) -> (r: String)
    ensures
        r@ == tool_label_of(name@, key@),
{
    let v = text::chars_of(name);
    let mut r = String::new();
    if is_name(&v, "run_in_vm") {
        text::push_str(&mut r, "   · revisando la VM…");
    } else if is_name(&v, "read_app_log") {
        text::push_str(&mut r, "   · releyendo el log…");
    } else if is_name(&v, "set_env") {
        text::push_str(&mut r, "   · fijando ");
        text::push_str(&mut r, key);
        text::push_str(&mut r, " (durable)");
    } else if is_name(&v, "set_start") {
        text::push_str(&mut r, "   · ajustando el comando de arranque");
    } else if is_name(&v, "restart") {
        text::push_str(&mut r, "   · reiniciando la app…");
    } else if is_name(&v, "need_secret") {
        text::push_str(&mut r, "   · te pido un dato…");
    } else {
        text::push_str(&mut r, "   · ");
        text::push_str(&mut r, name);
    }
    r
}

/// The question put to the user when the agent needs a secret.
pub open spec fn secret_prompt_of(key: Seq<char>, why: Seq<char>) -> Seq<char> {
    if why.len() == 0 {
        "Necesito "@ + key
    } else {
        "Necesito "@ + key + " — "@ + why
    }
}

pub fn secret_prompt(key: &str, why: &str) -> (r: String)
    ensures
        r@ == secret_prompt_of(key@, why@),
{
    let mut r = String::new();
    text::push_str(&mut r, "Necesito ");
    text::push_str(&mut r, key);
    if why.unicode_len() > 0 {
        text::push_str(&mut r, " — ");
        text::push_str(&mut r, why);
    }
    r
}

/// Records a durable env var in the override: any previous value of the
/// key is replaced, and the entry goes last.
pub fn put_env(ovr: &mut Override, key: String, value: String)
    ensures
        envs::pairs(final(ovr).envs@) == envs::put_last(envs::pairs(old(ovr).envs@), key@, value@),
        final(ovr).start == old(ovr).start,
        final(ovr).build == old(ovr).build,
        final(ovr).install == old(ovr).install,
{
    let mut kept = envs::remove_key(&ovr.envs, &key);
    let ghost before = kept@;
    kept.push((key, value));
    assert(envs::pairs(kept@) =~= envs::pairs(before).push((key@, value@)));
    ovr.envs = kept;
}


/// How much of a tool's output the agent sees (head and tail kept).
pub const TOOL_OUT_MAX: usize = 6000;

/// The string arguments of a tool call (absent or non-string values are `None`).
#[derive(Debug, Clone)]
pub struct ToolArgs {
    pub key: Option<String>,
    pub value: Option<String>,
    pub command: Option<String>,
    pub reason: Option<String>,
}

/// What a tool call needs done before the agent gets its answer.
#[derive(Debug)]
pub enum ToolPlan {
    /// Answer at once (invalid arguments or an unknown tool).
    Reply { text: String, is_error: bool },
    /// Ask the user for a secret; see `secret_reply`.
    AskSecret { key: String, prompt: String },
    /// Run a command in the VM (30 polls); see `command_reply`.
    RunInVm { command: String },
    /// Read the app's log; see `log_reply`.
    ReadLog,
    /// Record a durable env var (`put_env`) and save; see `env_reply`.
    SetEnv { key: String, value: String },
    /// Record the durable start command and save; see `start_reply`.
    SetStart { command: String },
    /// Restart with the durable fixes (`restart_command`); see `restart_reply`.
    Restart,
}

/// `{:?}` of a string: quoted, with escapes.
pub uninterp spec fn debug_quoted(s: Seq<char>) -> Seq<char>;

/// `format!("{:?}", s)` for a `str` (std's `Debug`): the contract names the
/// text; std's escaping rules are not restated.
#[verifier::external_body]
fn debug_str(s: &str) -> (r: String)
    ensures
        r@ == debug_quoted(s@),
{
    format!("{:?}", s)
}

pub open spec fn arg(a: Option<String>) -> Seq<char> {
    match a {
        Some(s) => s@,
        None => Seq::<char>::empty(),
    }
}

/// The plan for tool `name` with `args`, as text.
pub open spec fn plan_of(name: Seq<char>, args: ToolArgs) -> (Seq<char>, Seq<char>, Seq<char>, bool) {
    let key = arg(args.key);
    let cmd = arg(args.command);
    if name == "need_secret"@ {
        if !envs::env_key(key) {
            ("reply"@, "clave inválida: "@ + debug_quoted(key), Seq::<char>::empty(), true)
        } else {
            ("ask"@, key, secret_prompt_of(key, arg(args.reason)), false)
        }
    } else if name == "run_in_vm"@ {
        if cmd.len() == 0 {
            ("reply"@, "falta 'command'"@, Seq::<char>::empty(), true)
        } else {
            ("run"@, cmd, Seq::<char>::empty(), false)
        }
    } else if name == "read_app_log"@ {
        ("log"@, Seq::<char>::empty(), Seq::<char>::empty(), false)
    } else if name == "set_env"@ {
        if !envs::env_key(key) {
            ("reply"@, "clave de env inválida: "@ + debug_quoted(key), Seq::<char>::empty(), true)
        } else {
            ("env"@, key, arg(args.value), false)
        }
    } else if name == "set_start"@ {
        if cmd.len() == 0 {
            ("reply"@, "falta 'command'"@, Seq::<char>::empty(), true)
        } else {
            ("start"@, cmd, Seq::<char>::empty(), false)
        }
    } else if name == "restart"@ {
        ("restart"@, Seq::<char>::empty(), Seq::<char>::empty(), false)
    } else {
        unknown_tool_reply(name)
    }
}

/// The answer to a call of a tool the agent was never offered.
pub open spec fn unknown_tool_reply(name: Seq<char>) -> (Seq<char>, Seq<char>, Seq<char>, bool) {
    ("reply"@, "herramienta desconocida: "@ + name, Seq::<char>::empty(), true)
}

pub open spec fn plan_view(p: ToolPlan) -> (Seq<char>, Seq<char>, Seq<char>, bool) {
    match p {
        ToolPlan::Reply { text, is_error } => ("reply"@, text@, Seq::<char>::empty(), is_error),
        ToolPlan::AskSecret { key, prompt } => ("ask"@, key@, prompt@, false),
        ToolPlan::RunInVm { command } => ("run"@, command@, Seq::<char>::empty(), false),
        ToolPlan::ReadLog => ("log"@, Seq::<char>::empty(), Seq::<char>::empty(), false),
        ToolPlan::SetEnv { key, value } => ("env"@, key@, value@, false),
        ToolPlan::SetStart { command } => ("start"@, command@, Seq::<char>::empty(), false),
        ToolPlan::Restart => ("restart"@, Seq::<char>::empty(), Seq::<char>::empty(), false),
    }
}

fn arg_or_empty(a: &Option<String>) -> (r: String)
    ensures
        r@ == arg(*a),
{
    match a {
        Some(s) => s.clone(),
        None => String::new(),
    }
}

fn lit(l: &str) -> (r: String)
    ensures
        r@ == l@,
{
    let mut r = String::new();
    text::push_str(&mut r, l);
    r
}

/// Decides what a tool call of the agent needs (validating its arguments).
pub fn plan_tool(name: &str, args: &ToolArgs) -> (r: ToolPlan)
    ensures
        plan_view(r) == plan_of(name@, *args),
{
    let v = text::chars_of(name);
    let key = arg_or_empty(&args.key);
    let cmd = arg_or_empty(&args.command);
    if is_name(&v, "need_secret") {
        if !envs::is_env_key(key.as_str()) {
            let mut t = lit("clave inválida: ");
            let q = debug_str(key.as_str());
            text::push_str(&mut t, q.as_str());
            ToolPlan::Reply { text: t, is_error: true }
        } else {
            let why = arg_or_empty(&args.reason);
            let prompt = secret_prompt(key.as_str(), why.as_str());
            ToolPlan::AskSecret { key, prompt }
        }
    } else if is_name(&v, "run_in_vm") {
        if cmd.as_str().unicode_len() == 0 {
            ToolPlan::Reply { text: lit("falta 'command'"), is_error: true }
        } else {
            ToolPlan::RunInVm { command: cmd }
        }
    } else if is_name(&v, "read_app_log") {
        ToolPlan::ReadLog
    } else if is_name(&v, "set_env") {
        if !envs::is_env_key(key.as_str()) {
            let mut t = lit("clave de env inválida: ");
            let q = debug_str(key.as_str());
            text::push_str(&mut t, q.as_str());
            ToolPlan::Reply { text: t, is_error: true }
        } else {
            ToolPlan::SetEnv { key, value: arg_or_empty(&args.value) }
        }
    } else if is_name(&v, "set_start") {
        if cmd.as_str().unicode_len() == 0 {
            ToolPlan::Reply { text: lit("falta 'command'"), is_error: true }
        } else {
            ToolPlan::SetStart { command: cmd }
        }
    } else if is_name(&v, "restart") {
        ToolPlan::Restart
    } else {
        let mut t = lit("herramienta desconocida: ");
        text::push_str(&mut t, name);
        ToolPlan::Reply { text: t, is_error: true }
    }
}

/// The answer to `need_secret`: the trimmed value to store durably when the
/// user typed one, and what the agent is told.
pub open spec fn secret_reply_of(key: Seq<char>, answer: Option<Seq<char>>) -> (Option<Seq<char>>, Seq<char>, bool) {
    match answer {
        Some(v) if text::trim(v).len() > 0 => (
            Some(text::trim(v)),
            "el usuario proveyó "@ + key + "; ya quedó guardado como env durable"@,
            false,
        ),
        _ => (None, "el usuario no proveyó "@ + key, true),
    }
}

pub fn secret_reply(key: &str, answer: Option<String>) -> (r: (Option<String>, String, bool))
    ensures
        (naming::opt_view(r.0), r.1@, r.2) == secret_reply_of(key@, naming::opt_view(answer)),
{
    let trimmed = match &answer {
        Some(v) => {
            let t = text::trim_str(v.as_str());
            if t.as_str().unicode_len() > 0 {
                Some(t)
            } else {
                None
            }
        },
        None => None,
    };
    match trimmed {
        Some(t) => {
            let mut m = lit("el usuario proveyó ");
            text::push_str(&mut m, key);
            text::push_str(&mut m, "; ya quedó guardado como env durable");
            (Some(t), m, false)
        },
        None => {
            let mut m = lit("el usuario no proveyó ");
            text::push_str(&mut m, key);
            (None, m, true)
        },
    }
}

/// `{:?}` of an exit code.
pub open spec fn exit_debug(code: Option<i32>) -> Seq<char> {
    match code {
        Some(c) => "Some("@ + text::int_dec(c as int) + ")"@,
        None => "None"@,
    }
}

fn push_exit(s: &mut String, code: Option<i32>)
    ensures
        final(s)@ == old(s)@ + exit_debug(code),
{
    match code {
        Some(c) => {
            text::push_str(s, "Some(");
            text::push_int(s, c);
            text::push_str(s, ")");
        },
        None => text::push_str(s, "None"),
    }
}

/// What `run_in_vm` tells the agent: the exit code and the output (clipped),
/// an error unless the command exited with 0.
pub open spec fn command_reply_of(result: Option<BgStatus>) -> (Seq<char>, bool) {
    match result {
        Some(st) => (
            naming::clipped("exit="@ + exit_debug(st.exit_code) + "\n"@ + st.stdout@ + st.stderr@, TOOL_OUT_MAX as int),
            st.exit_code != Some(0i32),
        ),
        None => ("el comando no terminó a tiempo"@, true),
    }
}

pub fn command_reply(result: Option<BgStatus>) -> (r: (String, bool))
    ensures
        (r.0@, r.1) == command_reply_of(result),
{
    match result {
        Some(st) => {
            let mut out = lit("exit=");
            push_exit(&mut out, st.exit_code);
            text::push_str(&mut out, "\n");
            text::push_str(&mut out, st.stdout.as_str());
            text::push_str(&mut out, st.stderr.as_str());
            (naming::clip(out.as_str(), TOOL_OUT_MAX), st.exit_code != Some(0i32))
        },
        None => (lit("el comando no terminó a tiempo"), true),
    }
}

/// What `read_app_log` tells the agent: the log, clipped.
pub fn log_reply(log: &str) -> (r: (String, bool))
    ensures
        r.0@ == naming::clipped(log@, TOOL_OUT_MAX as int),
        !r.1,
{
    (naming::clip(log, TOOL_OUT_MAX), false)
}

/// What `set_env` tells the agent once the override was (or was not) saved.
pub open spec fn env_reply_of(key: Seq<char>, saved: bool) -> (Seq<char>, bool) {
    if saved {
        ("env "@ + key + " guardado (durable)"@, false)
    } else {
        ("no se pudo guardar el override"@, true)
    }
}

pub fn env_reply(key: &str, saved: bool) -> (r: (String, bool))
    ensures
        (r.0@, r.1) == env_reply_of(key@, saved),
{
    if saved {
        let mut m = lit("env ");
        text::push_str(&mut m, key);
        text::push_str(&mut m, " guardado (durable)");
        (m, false)
    } else {
        (lit("no se pudo guardar el override"), true)
    }
}

/// What `set_start` tells the agent once the override was (or was not) saved.
pub open spec fn start_reply_of(command: Seq<char>, saved: bool) -> (Seq<char>, bool) {
    if saved {
        ("start guardado (durable): "@ + command, false)
    } else {
        ("no se pudo guardar el override"@, true)
    }
}

pub fn start_reply(command: &str, saved: bool) -> (r: (String, bool))
    ensures
        (r.0@, r.1) == start_reply_of(command@, saved),
{
    if saved {
        let mut m = lit("start guardado (durable): ");
        text::push_str(&mut m, command);
        (m, false)
    } else {
        (lit("no se pudo guardar el override"), true)
    }
}

/// Records the start command in the override.
pub fn set_start(ovr: &mut Override, command: String)
    ensures
        final(ovr).start == Some(command),
        final(ovr).envs == old(ovr).envs,
        final(ovr).build == old(ovr).build,
        final(ovr).install == old(ovr).install,
{
    ovr.start = Some(command);
}

/// What `restart` tells the agent: the exit code and the output (clipped),
/// an error unless it exited with 0.
pub open spec fn restart_reply_of(result: Option<BgStatus>) -> (Seq<char>, bool) {
    match result {
        Some(st) => (
            "reiniciada (exit="@ + exit_debug(st.exit_code) + ")\n"@ + naming::clipped(
                st.stdout@ + st.stderr@,
                TOOL_OUT_MAX as int,
            ),
            st.exit_code != Some(0i32),
        ),
        None => ("el reinicio no terminó a tiempo"@, true),
    }
}

pub fn restart_reply(result: Option<BgStatus>) -> (r: (String, bool))
    ensures
        (r.0@, r.1) == restart_reply_of(result),
{
    match result {
        Some(st) => {
            let mut out = st.stdout.clone();
            text::push_str(&mut out, st.stderr.as_str());
            let mut m = lit("reiniciada (exit=");
            push_exit(&mut m, st.exit_code);
            text::push_str(&mut m, ")\n");
            let c = naming::clip(out.as_str(), TOOL_OUT_MAX);
            text::push_str(&mut m, c.as_str());
            (m, st.exit_code != Some(0i32))
        },
        None => (lit("el reinicio no terminó a tiempo"), true),
    }
}


/// A tool offered to the agent: its name, what it does, and the JSON schema
/// of its input.
#[derive(Debug)]
pub struct ToolSpec {
    pub name: String,
    pub description: String,
    pub input_schema: Json,
}

pub open spec fn tool_view(t: ToolSpec) -> (Seq<char>, Seq<char>, JsonV) {
    (t.name@, t.description@, json_view(t.input_schema))
}

/// `{"type":"string"}`.
pub open spec fn string_schema() -> JsonV {
    JsonV::Object(seq![("type"@, JsonV::Str("string"@))])
}

/// `{"type":"string","description":d}`.
pub open spec fn described_string(d: Seq<char>) -> JsonV {
    JsonV::Object(seq![("type"@, JsonV::Str("string"@)), ("description"@, JsonV::Str(d))])
}

/// An object schema with `props`; `required` is left out when empty.
pub open spec fn object_schema(props: Seq<(Seq<char>, JsonV)>, required: Seq<Seq<char>>) -> JsonV {
    if required.len() == 0 {
        JsonV::Object(seq![("type"@, JsonV::Str("object"@)), ("properties"@, JsonV::Object(props))])
    } else {
        JsonV::Object(
            seq![
                ("type"@, JsonV::Str("object"@)),
                ("properties"@, JsonV::Object(props)),
                ("required"@, JsonV::Array(required.map_values(|k: Seq<char>| JsonV::Str(k)))),
            ],
        )
    }
}

/// The tools offered to the agent, in order: name, description, input schema.
pub open spec fn offered_tools() -> Seq<(Seq<char>, Seq<char>, JsonV)> {
    seq![
        (
            "run_in_vm"@,
            "Ejecuta un comando shell en la VM y devuelve stdout/stderr/exit. Úsalo para investigar (cat log, node -v, leer package.json) y para verificar el puerto."@,
            object_schema(
                seq![("command"@, described_string("comando shell a ejecutar en la VM"@))],
                seq!["command"@],
            ),
        ),
        (
            "read_app_log"@,
            "Devuelve las últimas líneas de /tmp/app.log (stdout/stderr de la app)."@,
            object_schema(Seq::empty(), Seq::empty()),
        ),
        (
            "set_env"@,
            "Fija un env DURABLE (sobrevive al re-deploy). Solo para valores NO secretos. Para secretos usa finish con needs_envs."@,
            object_schema(
                seq![("key"@, string_schema()), ("value"@, string_schema())],
                seq!["key"@, "value"@],
            ),
        ),
        (
            "set_start"@,
            "Fija el comando de arranque DURABLE (ej. 'node dist/server.js')."@,
            object_schema(seq![("command"@, string_schema())], seq!["command"@]),
        ),
        (
            "restart"@,
            "Reinicia la app en la VM con los envs/start durables y la deja escuchando en :3000."@,
            object_schema(Seq::empty(), Seq::empty()),
        ),
        (
            "need_secret"@,
            "Pídele al USUARIO un valor secreto que no puedes saber (connection string, API key, token). Se lo preguntamos en pantalla y te devolvemos lo que teclee, ya guardado como env durable. Después usa restart para aplicarlo y verifica."@,
            object_schema(
                seq![
                    ("key"@, described_string("nombre del env, ej. DATABASE_URL"@)),
                    ("reason"@, described_string("por qué lo necesitas, una frase"@)),
                ],
                seq!["key"@],
            ),
        ),
        (
            "finish"@,
            "Termina. Si aplicaste un arreglo y la app responde, applied=true. Si necesitas que el usuario provea secretos, lista sus claves en needs_envs."@,
            object_schema(
                seq![
                    (
                        "summary"@,
                        described_string("diagnóstico y qué hiciste, en una línea o dos"@),
                    ),
                    ("applied"@, JsonV::Object(seq![("type"@, JsonV::Str("boolean"@))])),
                    (
                        "needs_envs"@,
                        JsonV::Object(
                            seq![("type"@, JsonV::Str("array"@)), ("items"@, string_schema())],
                        ),
                    ),
                ],
                seq!["summary"@],
            ),
        ),
    ]
}

fn jstr(l: &str) -> (r: Json)
    ensures
        json_view(r) == JsonV::Str(l@),
{
    Json::Str(lit(l))
}

/// An object from its members.
fn object(m: Vec<(String, Json)>) -> (r: Json)
    ensures
        json_view(r) == JsonV::Object(members_view(m@)),
{
    Json::Object(m)
}

fn members1(k: &str, v: Json) -> (r: Vec<(String, Json)>)
    ensures
        members_view(r@) == seq![(k@, json_view(v))],
{
    let ghost jv = json_view(v);
    let mut m: Vec<(String, Json)> = Vec::new();
    m.push((lit(k), v));
    proof {
        lemma_members_view(m@);
        assert(members_view(m@) =~= seq![(k@, jv)]);
    }
    m
}

fn members2(k1: &str, v1: Json, k2: &str, v2: Json) -> (r: Vec<(String, Json)>)
    ensures
        members_view(r@) == seq![(k1@, json_view(v1)), (k2@, json_view(v2))],
{
    let ghost j1 = json_view(v1);
    let ghost j2 = json_view(v2);
    let mut m: Vec<(String, Json)> = Vec::new();
    m.push((lit(k1), v1));
    m.push((lit(k2), v2));
    proof {
        lemma_members_view(m@);
        assert(members_view(m@) =~= seq![(k1@, j1), (k2@, j2)]);
    }
    m
}

fn string_schema_json() -> (r: Json)
    ensures
        json_view(r) == string_schema(),
{
    object(members1("type", jstr("string")))
}

fn described_json(d: &str) -> (r: Json)
    ensures
        json_view(r) == described_string(d@),
{
    object(members2("type", jstr("string"), "description", jstr(d)))
}

fn object_schema_json(props: Vec<(String, Json)>, required: Vec<&str>) -> (r: Json)
    ensures
        json_view(r) == object_schema(
            members_view(props@),
            required@.map_values(|k: &str| k@),
        ),
{
    let ghost pv = members_view(props@);
    let mut m = members2("type", jstr("object"), "properties", Json::Object(props));
    if required.len() > 0 {
        let mut items: Vec<Json> = Vec::new();
        let mut i: usize = 0;
        while i < required.len()
            invariant
                i <= required.len(),
                items@.len() == i,
                forall|j: int|
                    0 <= j < i ==> json_view(#[trigger] items@[j]) == JsonV::Str(required@[j]@),
            decreases required.len() - i,
        {
            items.push(jstr(required[i]));
            i = i + 1;
        }
        let ghost iv = json_view(Json::Array(items));
        proof {
            lemma_items_view(items@);
            assert(iv == JsonV::Array(
                required@.map_values(|k: &str| k@).map_values(|k: Seq<char>| JsonV::Str(k)),
            )) by {
                assert(items_view(items@) =~= required@.map_values(
                    |k: &str| k@,
                ).map_values(|k: Seq<char>| JsonV::Str(k)));
            }
        }
        let ghost mo = m@;
        m.push((lit("required"), Json::Array(items)));
        proof {
            assert(m@.drop_last() =~= mo);
            assert(members_view(m@) =~= seq![
                ("type"@, JsonV::Str("object"@)),
                ("properties"@, JsonV::Object(pv)),
                ("required"@, iv),
            ]);
        }
    } else {
        proof {
            assert(required@.map_values(|k: &str| k@).len() == 0);
        }
    }
    object(m)
}

fn tool(name: &str, description: &str, input_schema: Json) -> (r: ToolSpec)
    ensures
        tool_view(r) == (name@, description@, json_view(input_schema)),
{
    ToolSpec { name: lit(name), description: lit(description), input_schema }
}

/// The tools offered to the agent, each with the schema of its input.
pub fn tools() -> (r: Vec<ToolSpec>)
    ensures
        r@.len() == offered_tools().len(),
        forall|i: int| 0 <= i < r@.len() ==> tool_view(#[trigger] r@[i]) == offered_tools()[i],
{
    let mut r: Vec<ToolSpec> = Vec::new();
    let req = vec!["command"];
    proof {
        assert(req@.map_values(|k: &str| k@) =~= seq!["command"@]);
    }
    let s = object_schema_json(
        members1("command", described_json("comando shell a ejecutar en la VM")),
        req,
    );
    r.push(
        tool(
            "run_in_vm",
            "Ejecuta un comando shell en la VM y devuelve stdout/stderr/exit. Úsalo para investigar (cat log, node -v, leer package.json) y para verificar el puerto.",
            s,
        ),
    );
    proof {
        assert(r@[0] == r@.last());
        assert(tool_view(r@[0]) == offered_tools()[0]);
    }
    let s = object_schema_json(Vec::new(), Vec::new());
    r.push(
        tool(
            "read_app_log",
            "Devuelve las últimas líneas de /tmp/app.log (stdout/stderr de la app).",
            s,
        ),
    );
    proof {
        assert(r@[1] == r@.last());
        assert(tool_view(r@[1]) == offered_tools()[1]);
    }
    let req = vec!["key", "value"];
    proof {
        assert(req@.map_values(|k: &str| k@) =~= seq!["key"@, "value"@]);
    }
    let s = object_schema_json(
        members2("key", string_schema_json(), "value", string_schema_json()),
        req,
    );
    r.push(
        tool(
            "set_env",
            "Fija un env DURABLE (sobrevive al re-deploy). Solo para valores NO secretos. Para secretos usa finish con needs_envs.",
            s,
        ),
    );
    proof {
        assert(r@[2] == r@.last());
        assert(tool_view(r@[2]) == offered_tools()[2]);
    }
    let req = vec!["command"];
    proof {
        assert(req@.map_values(|k: &str| k@) =~= seq!["command"@]);
    }
    let s = object_schema_json(members1("command", string_schema_json()), req);
    r.push(
        tool("set_start", "Fija el comando de arranque DURABLE (ej. 'node dist/server.js').", s),
    );
    proof {
        assert(r@[3] == r@.last());
        assert(tool_view(r@[3]) == offered_tools()[3]);
    }
    let s = object_schema_json(Vec::new(), Vec::new());
    r.push(
        tool(
            "restart",
            "Reinicia la app en la VM con los envs/start durables y la deja escuchando en :3000.",
            s,
        ),
    );
    proof {
        assert(r@[4] == r@.last());
        assert(tool_view(r@[4]) == offered_tools()[4]);
    }
    let req = vec!["key"];
    proof {
        assert(req@.map_values(|k: &str| k@) =~= seq!["key"@]);
    }
    let s = object_schema_json(
        members2(
            "key",
            described_json("nombre del env, ej. DATABASE_URL"),
            "reason",
            described_json("por qué lo necesitas, una frase"),
        ),
        req,
    );
    r.push(
        tool(
            "need_secret",
            "Pídele al USUARIO un valor secreto que no puedes saber (connection string, API key, token). Se lo preguntamos en pantalla y te devolvemos lo que teclee, ya guardado como env durable. Después usa restart para aplicarlo y verifica.",
            s,
        ),
    );
    proof {
        assert(r@[5] == r@.last());
        assert(tool_view(r@[5]) == offered_tools()[5]);
    }
    let mut props = members1(
        "summary",
        described_json("diagnóstico y qué hiciste, en una línea o dos"),
    );
    let applied = object(members1("type", jstr("boolean")));
    let ghost av = json_view(applied);
    let ghost q0 = props@;
    props.push((lit("applied"), applied));
    let needs = object(members2("type", jstr("array"), "items", string_schema_json()));
    let ghost nv = json_view(needs);
    let ghost q1 = props@;
    props.push((lit("needs_envs"), needs));
    proof {
        assert(q1.drop_last() =~= q0);
        assert(props@.drop_last() =~= q1);
        assert(members_view(q1) == members_view(q0).push(("applied"@, av)));
        assert(members_view(props@) == members_view(q1).push(("needs_envs"@, nv)));
        assert(members_view(props@) =~= seq![
            ("summary"@, described_string("diagnóstico y qué hiciste, en una línea o dos"@)),
            ("applied"@, JsonV::Object(seq![("type"@, JsonV::Str("boolean"@))])),
            (
                "needs_envs"@,
                JsonV::Object(seq![("type"@, JsonV::Str("array"@)), ("items"@, string_schema())]),
            ),
        ]);
    }
    let req = vec!["summary"];
    proof {
        assert(req@.map_values(|k: &str| k@) =~= seq!["summary"@]);
    }
    let s = object_schema_json(props, req);
    r.push(
        tool(
            "finish",
            "Termina. Si aplicaste un arreglo y la app responde, applied=true. Si necesitas que el usuario provea secretos, lista sus claves en needs_envs.",
            s,
        ),
    );
    proof {
        assert(r@[6] == r@.last());
        assert(tool_view(r@[6]) == offered_tools()[6]);
    }

    r
}


/// Every tool offered to the agent but `finish` (which ends the session) is
/// one that `plan_tool` dispatches: no call of it, whatever its arguments, is
/// answered as a call of an unknown tool.
pub proof fn lemma_offered_tools_dispatched(i: int, args: ToolArgs)
    requires
        0 <= i < offered_tools().len(),
        offered_tools()[i].0 != "finish"@,
    ensures
        plan_of(offered_tools()[i].0, args) != unknown_tool_reply(offered_tools()[i].0),
{
    reveal_strlit("need_secret");
    reveal_strlit("run_in_vm");
    reveal_strlit("read_app_log");
    reveal_strlit("set_env");
    reveal_strlit("set_start");
    reveal_strlit("restart");
    reveal_strlit("reply");
    reveal_strlit("ask");
    reveal_strlit("run");
    reveal_strlit("log");
    reveal_strlit("env");
    reveal_strlit("start");
    reveal_strlit("clave inválida: ");
    reveal_strlit("falta 'command'");
    reveal_strlit("clave de env inválida: ");
    reveal_strlit("herramienta desconocida: ");
    let name = offered_tools()[i].0;
    let p = plan_of(name, args);
    let u = unknown_tool_reply(name);
    let key = arg(args.key);
    assert(u.1[0] == 'h');
    assert("reply"@.len() == 5);
    assert("ask"@.len() == 3 && "run"@.len() == 3 && "log"@.len() == 3 && "env"@.len() == 3);
    assert("start"@.len() == 5 && "start"@[0] != "reply"@[0]);
    assert("restart"@.len() == 7);
    assert("set_env"@[0] != "restart"@[0]);
    assert("run_in_vm"@[0] != "set_start"@[0]);
    assert(("clave inválida: "@ + debug_quoted(key))[0] == 'c');
    assert(("clave de env inválida: "@ + debug_quoted(key))[0] == 'c');
    assert("falta 'command'"@[0] == 'f');
    if p.0 == "reply"@ {
        assert(p.1[0] != u.1[0]);
    } else {
        assert(p.0 != u.0);
    }
}


/// The most answers the agent may ask of the model in one session.
pub const MAX_STEPS: usize = 24;

/// The session's turn budget: how many answers were asked for.
pub struct AgentLoop {
    pub turns: usize,
}

impl AgentLoop {
    /// A session that has asked nothing yet.
    pub fn new() -> (r: Self)
        ensures
            r.turns == 0,
    {
        AgentLoop { turns: 0 }
    }

    /// Whether the model may be asked once more; the turn is counted when it
    /// may. The count never passes `MAX_STEPS`.
    pub fn next_turn(&mut self) -> (r: bool)
        ensures
            r == (old(self).turns < MAX_STEPS),
            final(self).turns == if r {
                old(self).turns + 1
            } else {
                old(self).turns as int
            },
            old(self).turns <= MAX_STEPS ==> final(self).turns <= MAX_STEPS,
    {
        if self.turns < MAX_STEPS {
            self.turns = self.turns + 1;
            true
        } else {
            false
        }
    }
}

/// How a session that used up its turns ends.
pub fn out_of_steps() -> (r: Outcome)
    ensures
        r == (Outcome::GaveUp {
            summary: r->GaveUp_summary,
        }),
        r->GaveUp_summary@ == "Agoté los pasos sin dejar la app verde. Revisa el log."@,
{
    Outcome::GaveUp { summary: lit("Agoté los pasos sin dejar la app verde. Revisa el log.") }
}

/// What the model is told when its answer called no tool.
pub fn nudge_text() -> (r: String)
    ensures
        r@ == "Si ya está arreglada llama finish; si no, sigue usando las herramientas."@,
{
    lit("Si ya está arreglada llama finish; si no, sigue usando las herramientas.")
}

pub open spec fn first_prompt_of(fail_error: Seq<char>, log: Seq<char>) -> Seq<char> {
    "El deploy falló así:\n"@ + fail_error + "\n\nÚltimas líneas de /tmp/app.log:\n"@
        + naming::clipped(log, TOOL_OUT_MAX as int)
        + "\n\nDiagnostica y arregla. La app debe responder en 127.0.0.1:3000."@
}

/// The session's opening message: the deploy error and the tail of the
/// app's log (clipped to `TOOL_OUT_MAX`).
pub fn first_prompt(fail_error: &str, log: &str) -> (r: String)
    ensures
        r@ == first_prompt_of(fail_error@, log@),
{
    let mut t = lit("El deploy falló así:\n");
    text::push_str(&mut t, fail_error);
    text::push_str(&mut t, "\n\nÚltimas líneas de /tmp/app.log:\n");
    let c = naming::clip(log, TOOL_OUT_MAX);
    text::push_str(&mut t, c.as_str());
    text::push_str(&mut t, "\n\nDiagnostica y arregla. La app debe responder en 127.0.0.1:3000.");
    t
}

/// What to do with one answer of the model.
#[derive(Debug)]
pub struct TurnPlan {
    /// What the user is shown: the answer's non-blank text blocks, trimmed.
    pub narration: Vec<String>,
    /// The tool calls to run and answer, in order (indices of the blocks).
    pub calls: Vec<usize>,
    /// The first `finish` call, which ends the session after `calls` ran.
    pub finish: Option<usize>,
    /// The answer called no tool: the model is nudged once (`nudge_text`).
    pub nudge: bool,
}

pub open spec fn is_finish_part(p: Part) -> bool {
    p matches Part::Tool(_, name, _) && name == "finish"@
}

/// The positions of the tool calls among the first `n` parts.
pub open spec fn tool_positions(parts: Seq<Part>, n: nat) -> Seq<int>
    decreases n,
{
    if n == 0 {
        Seq::empty()
    } else {
        let rest = tool_positions(parts, (n - 1) as nat);
        if parts[n - 1] is Tool {
            rest.push(n - 1)
        } else {
            rest
        }
    }
}

/// The position of the first `finish` call among the first `n` parts.
pub open spec fn first_finish(parts: Seq<Part>, n: nat) -> Option<int>
    decreases n,
{
    if n == 0 {
        None
    } else {
        match first_finish(parts, (n - 1) as nat) {
            Some(k) => Some(k),
            None => if is_finish_part(parts[n - 1]) {
                Some(n - 1)
            } else {
                None
            },
        }
    }
}

/// The trimmed, non-blank texts among the first `n` parts.
pub open spec fn narration_of(parts: Seq<Part>, n: nat) -> Seq<Seq<char>>
    decreases n,
{
    if n == 0 {
        Seq::empty()
    } else {
        let rest = narration_of(parts, (n - 1) as nat);
        match parts[n - 1] {
            Part::Text(t) => if text::trim(t).len() > 0 {
                rest.push(text::trim(t))
            } else {
                rest
            },
            _ => rest,
        }
    }
}

pub open spec fn parts_of(blocks: Seq<Block>) -> Seq<Part> {
    blocks.map_values(|b: Block| block_part(b))
}

pub open spec fn as_int(k: Option<usize>) -> Option<int> {
    match k {
        Some(k) => Some(k as int),
        None => None,
    }
}

/// The plan for an answer made of `blocks`: its narration, the tool calls up
/// to the first `finish`, that `finish`, and whether to nudge.
pub open spec fn turn_plan_of(blocks: Seq<Block>, plan: TurnPlan) -> bool {
    let parts = parts_of(blocks);
    let n = blocks.len();
    let bound: nat = match first_finish(parts, n) {
        Some(k) => k as nat,
        None => n,
    };
    &&& plan.narration@.map_values(|s: String| s@) == narration_of(parts, n)
    &&& as_int(plan.finish) == first_finish(parts, n)
    &&& plan.calls@.map_values(|k: usize| k as int) == tool_positions(parts, bound)
    &&& plan.nudge == (tool_positions(parts, n).len() == 0)
}

/// Reads one answer of the model: what to narrate, which tool calls to run,
/// and whether it ends the session or needs a nudge.
pub fn plan_turn(blocks: &Vec<Block>) -> (r: TurnPlan)
    ensures
        turn_plan_of(blocks@, r),
{
    let ghost parts = parts_of(blocks@);
    let n = blocks.len();
    let mut narration: Vec<String> = Vec::new();
    let mut calls: Vec<usize> = Vec::new();
    let mut finish: Option<usize> = None;
    let mut any_tool = false;
    let mut i: usize = 0;
    while i < n
        invariant
            n == blocks@.len(),
            parts == parts_of(blocks@),
            i <= n,
            narration@.map_values(|s: String| s@) == narration_of(parts, i as nat),
            as_int(finish) == first_finish(parts, i as nat),
            calls@.map_values(|k: usize| k as int) == tool_positions(
                parts,
                match finish {
                    Some(k) => k as nat,
                    None => i as nat,
                },
            ),
            finish matches Some(k) ==> k < i,
            any_tool == (tool_positions(parts, i as nat).len() > 0),
        decreases n - i,
    {
        let ghost nar0 = narration@;
        let ghost calls0 = calls@;
        assert(parts[i as int] == block_part(blocks@[i as int]));
        match &blocks[i] {
            Block::Text { text } => {
                let t = text::trim_str(text.as_str());
                if t.as_str().unicode_len() > 0 {
                    narration.push(t);
                }
                proof {
                    assert(narration@.map_values(|s: String| s@) =~= narration_of(
                        parts,
                        (i + 1) as nat,
                    ));
                }
            },
            Block::ToolUse { name, .. } => {
                any_tool = true;
                if finish.is_none() {
                    let is_finish = text::vec_eq_str(&text::chars_of(name.as_str()), "finish");
                    if is_finish {
                        finish = Some(i);
                    } else {
                        calls.push(i);
                        proof {
                            assert(calls@.map_values(|k: usize| k as int) =~= calls0.map_values(
                                |k: usize| k as int,
                            ).push(i as int));
                        }
                    }
                }
                proof {
                    assert(narration@.map_values(|s: String| s@) =~= narration_of(
                        parts,
                        (i + 1) as nat,
                    ));
                }
            },
            Block::Thinking { .. } => {
                proof {
                    assert(narration@.map_values(|s: String| s@) =~= narration_of(
                        parts,
                        (i + 1) as nat,
                    ));
                }
            },
        }
        i = i + 1;
    }
    TurnPlan { narration, calls, finish, nudge: !any_tool }
}


proof fn lemma_tool_positions(parts: Seq<Part>, n: nat)
    requires
        n <= parts.len(),
    ensures
        forall|j: int|
            0 <= j < tool_positions(parts, n).len() ==> {
                let c = #[trigger] tool_positions(parts, n)[j];
                0 <= c < n && parts[c] is Tool
            },
        forall|j1: int, j2: int|
            0 <= j1 < j2 < tool_positions(parts, n).len() ==> tool_positions(parts, n)[j1]
                < tool_positions(parts, n)[j2],
    decreases n,
{
    if n > 0 {
        lemma_tool_positions(parts, (n - 1) as nat);
    }
}

proof fn lemma_no_finish_before(parts: Seq<Part>, n: nat)
    requires
        first_finish(parts, n) is None,
    ensures
        forall|i: int| 0 <= i < n ==> !is_finish_part(#[trigger] parts[i]),
    decreases n,
{
    if n > 0 {
        lemma_no_finish_before(parts, (n - 1) as nat);
    }
}

proof fn lemma_first_finish_is_first(parts: Seq<Part>, n: nat)
    ensures
        first_finish(parts, n) matches Some(k) ==> k < n && first_finish(parts, k as nat) is None
            && is_finish_part(parts[k]),
    decreases n,
{
    if n > 0 {
        lemma_first_finish_is_first(parts, (n - 1) as nat);
    }
}

/// Within one answer, the calls that run are tool calls other than
/// `finish`, in the order the model made them, and all of them come before
/// the `finish` that ends the session.
pub proof fn lemma_turn_calls_precede_finish(blocks: Seq<Block>, plan: TurnPlan)
    requires
        turn_plan_of(blocks, plan),
    ensures
        forall|j: int|
            0 <= j < plan.calls@.len() ==> {
                let c = #[trigger] plan.calls@[j] as int;
                &&& c < blocks.len()
                &&& parts_of(blocks)[c] is Tool
                &&& !is_finish_part(parts_of(blocks)[c])
                &&& (plan.finish matches Some(k) ==> c < k)
            },
        forall|j1: int, j2: int|
            0 <= j1 < j2 < plan.calls@.len() ==> plan.calls@[j1] < plan.calls@[j2],
{
    let parts = parts_of(blocks);
    let n = blocks.len();
    lemma_first_finish_is_first(parts, n);
    let bound: nat = match first_finish(parts, n) {
        Some(k) => k as nat,
        None => n,
    };
    lemma_tool_positions(parts, bound);
    lemma_no_finish_before(parts, bound);
    let tp = tool_positions(parts, bound);
    let cv = plan.calls@.map_values(|k: usize| k as int);
    assert(cv == tp);
    assert(cv.len() == plan.calls@.len());
    assert forall|j: int| 0 <= j < plan.calls@.len() implies {
        let c = #[trigger] plan.calls@[j] as int;
        &&& c < blocks.len()
        &&& parts_of(blocks)[c] is Tool
        &&& !is_finish_part(parts_of(blocks)[c])
        &&& (plan.finish matches Some(k) ==> c < k)
    } by {
        assert(cv[j] == plan.calls@[j] as int);
        let c = tp[j];
        assert(0 <= c < bound && parts[c] is Tool);
        assert(!is_finish_part(parts[c]));
    }
    assert forall|j1: int, j2: int| 0 <= j1 < j2 < plan.calls@.len() implies plan.calls@[j1]
        < plan.calls@[j2] by {
        assert(cv[j1] == plan.calls@[j1] as int);
        assert(cv[j2] == plan.calls@[j2] as int);
        assert(tp[j1] < tp[j2]);
    }
}

} // verus!
