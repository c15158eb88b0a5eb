//! Deploy recipes: the VM size picked for a repository, and the shell
//! commands that install, start, restart and probe an app inside its VM.

use vstd::prelude::*;
use crate::text;
use crate::envs;
use crate::naming;
use crate::provider;
use crate::recipe::Override;

verus! {

/// What a repository's `ghosty.toml` declares (everything optional).
#[derive(Debug, Clone)]
pub struct Manifest {
    /// `static` (published to the CDN) or `app` (runs in a VM).
    pub kind: Option<String>,
    pub install: Option<String>,
    pub build: Option<String>,
    pub start: Option<String>,
    /// VM class `s`, `m`, `l` or `xl`.
    pub size: Option<String>,
}

impl Manifest {
    /// No manifest: everything is auto-detected.
    pub fn empty() -> (r: Self)
        ensures
            r.kind is None && r.install is None && r.build is None && r.start is None && r.size is None,
    {
        Manifest { kind: None, install: None, build: None, start: None, size: None }
    }
}

/// The VM class a manifest asks for: `m`, `l` or `xl` in any case, `s` otherwise.
pub open spec fn size_override_of(s: Seq<char>) -> Seq<char> {
    let l = text::lower(s);
    if l == "m"@ {
        "m"@
    } else if l == "l"@ {
        "l"@
    } else if l == "xl"@ {
        "xl"@
    } else {
        "s"@
    }
}

pub fn size_override(s: &str) -> (r: &'static str)
    ensures
        r@ == size_override_of(s@),
{
    let v = text::chars_of(s);
    let l = text::lower_vec(&v);
    if text::vec_eq_str(&l, "m") {
        "m"
    } else if text::vec_eq_str(&l, "l") {
        "l"
    } else if text::vec_eq_str(&l, "xl") {
        "xl"
    } else {
        "s"
    }
}

/// What the size heuristic reads from a `package.json`: the number of
/// dependencies and dev dependencies, whether a `build` script exists and
/// whether it declares workspaces.
#[derive(Debug, Clone, Copy)]
pub struct PackageFacts {
    pub deps: usize,
    pub dev_deps: usize,
    pub has_build: bool,
    pub has_workspaces: bool,
}

/// What `serde_json` reads from a `package.json` text (an invalid document
/// reads as `null`: no dependencies, no scripts, no workspaces).
pub uninterp spec fn package_facts_of(text: Seq<char>) -> PackageFacts;

/// Parses `text` with `serde_json::from_str` and reads the sizes of the
/// `dependencies` and `devDependencies` objects and the presence of
/// `scripts.build` and `workspaces` (`Value::get`, `as_object`, `len`).
/// The contract only names the result: it is a function of the text.
#[verifier::external_body]
fn package_facts(text: &str) -> (r: PackageFacts)
    ensures
        r == package_facts_of(text@),
{
    let json: serde_json::Value = serde_json::from_str(text).unwrap_or(serde_json::Value::Null);
    let count = |k: &str| json.get(k).and_then(|v| v.as_object()).map(|o| o.len()).unwrap_or(0);
    PackageFacts {
        deps: count("dependencies"),
        dev_deps: count("devDependencies"),
        has_build: json.get("scripts").and_then(|s| s.get("build")).is_some(),
        has_workspaces: json.get("workspaces").is_some(),
    }
}

/// Whether a `package.json` mentions a package (its quoted name occurs).
pub open spec fn mentions(pkg: Seq<char>, quoted: Seq<char>) -> bool {
    text::contains(pkg, quoted)
}

/// The VM class for a repository, by the weight of its `package.json`:
/// next, workspaces or 120+ dependencies → `xl`; 60+ or a heavy bundler →
/// `l`; a build script → `m`; otherwise (or without a package) `s`.
pub open spec fn size_class_of(pkg: Seq<char>) -> Seq<char> {
    if pkg.len() == 0 {
        "s"@
    } else {
        let f = package_facts_of(pkg);
        let deps = f.deps + f.dev_deps;
        let heavy_bundler = mentions(pkg, "\"vite\""@) || mentions(pkg, "\"@react-router/dev\""@)
            || mentions(pkg, "\"webpack\""@) || mentions(pkg, "\"@excalidraw/excalidraw\""@);
        if mentions(pkg, "\"next\""@) || f.has_workspaces || deps >= 120 {
            "xl"@
        } else if deps >= 60 || heavy_bundler {
            "l"@
        } else if f.has_build && deps <= 60 {
            "m"@
        } else {
            "s"@
        }
    }
}

pub fn size_for_package(pkg: &str) -> (r: &'static str)
    ensures
        r@ == size_class_of(pkg@),
{
    let v = text::chars_of(pkg);
    if v.len() == 0 {
        return "s";
    }
    let f = package_facts(pkg);
    let deps: u128 = f.deps as u128 + f.dev_deps as u128;
    let heavy_bundler = text::vec_contains(&v, "\"vite\"") || text::vec_contains(
        &v,
        "\"@react-router/dev\"",
    ) || text::vec_contains(&v, "\"webpack\"") || text::vec_contains(&v, "\"@excalidraw/excalidraw\"");
    if text::vec_contains(&v, "\"next\"") || f.has_workspaces || deps >= 120 {
        "xl"
    } else if deps >= 60 || heavy_bundler {
        "l"
    } else if f.has_build && deps <= 60 {
        "m"
    } else {
        "s"
    }
}

/// The VM class: the manifest's explicit size wins over the heuristic.
pub open spec fn detect_size_of(manifest_size: Option<Seq<char>>, pkg: Seq<char>) -> Seq<char> {
    match manifest_size {
        Some(s) => size_override_of(s),
        None => size_class_of(pkg),
    }
}

/// Picks the VM class from the manifest's size, or else from the repository's
/// `package.json` (empty when it has none).
pub fn detect_size(manifest_size: &Option<String>, package_json: &str) -> (r: &'static str)
    ensures
        r@ == detect_size_of(naming::opt_view(*manifest_size), package_json@),
{
    match manifest_size {
        Some(s) => size_override(s.as_str()),
        None => size_for_package(package_json),
    }
}

/// A repository is static when its manifest says `type = "static"` (any
/// case), or, without a type, when it has no `package.json`.
pub open spec fn is_static_of(kind: Option<Seq<char>>, has_package_json: bool) -> bool {
    match kind {
        Some(k) => provider::eq_ignore_ascii_case(k, "static"@),
        None => !has_package_json,
    }
}

pub fn is_static(kind: &Option<String>, has_package_json: bool) -> (r: bool)
    ensures
        r == is_static_of(naming::opt_view(*kind), has_package_json),
{
    match kind {
        Some(k) => {
            let a = text::chars_of(k.as_str());
            let b = text::chars_of("static");
            provider::eq_ignore_case_vec(&a, &b)
        },
        None => !has_package_json,
    }
}

/// Where the app lives in the VM: classes `m` and up mount a volume on
/// `/app` (not empty), so the code goes one level down.
pub open spec fn workdir_of(size: Seq<char>) -> Seq<char> {
    if size == "s"@ {
        "/app"@
    } else {
        "/app/src"@
    }
}

/// Node's heap limit (MB) for a class, about 75% of its memory; 0 = default.
pub open spec fn node_heap_of(size: Seq<char>) -> nat {
    if size == "xl"@ {
        6144
    } else if size == "l"@ {
        3072
    } else if size == "m"@ {
        1536
    } else {
        0
    }
}

fn is_lit(s: &str, lit: &str) -> (r: bool)
    ensures
        r == (s@ == lit@),
{
    let v = text::chars_of(s);
    text::vec_eq_str(&v, lit)
}

pub fn workdir(size: &str) -> (r: &'static str)
    ensures
        r@ == workdir_of(size@),
{
    if is_lit(size, "s") {
        "/app"
    } else {
        "/app/src"
    }
}

pub fn node_heap(size: &str) -> (r: u64)
    ensures
        r == node_heap_of(size@),
{
    if is_lit(size, "xl") {
        6144
    } else if is_lit(size, "l") {
        3072
    } else if is_lit(size, "m") {
        1536
    } else {
        0
    }
}

/// `KEY='value' ` for each entry with a valid key and a non-empty value,
/// each value single-quoted for the shell.
pub open spec fn user_env_of(s: Seq<(Seq<char>, Seq<char>)>) -> Seq<char>
    decreases s.len(),
{
    if s.len() == 0 {
        Seq::empty()
    } else {
        let (k, v) = s.last();
        user_env_of(s.drop_last()) + if envs::env_key(k) && v.len() > 0 {
            k + "="@ + envs::squote(v) + " "@
        } else {
            Seq::<char>::empty()
        }
    }
}

/// The env assignments that prefix the app's start command.
pub fn user_env(pairs: &Vec<(String, String)>) -> (r: String)
    ensures
        r@ == user_env_of(envs::pairs(pairs@)),
{
    let mut r = String::new();
    let mut i: usize = 0;
    while i < pairs.len()
        invariant
            i <= pairs@.len(),
            r@ == user_env_of(envs::pairs(pairs@).take(i as int)),
        decreases pairs@.len() - i,
    {
        let (k, v) = &pairs[i];
        proof {
            let s = envs::pairs(pairs@).take(i + 1);
            assert(s.drop_last() =~= envs::pairs(pairs@).take(i as int));
            assert(s.last() == (k@, v@));
        }
        if envs::is_env_key(k.as_str()) && v.as_str().unicode_len() > 0 {
            text::push_str(&mut r, k.as_str());
            text::push_str(&mut r, "=");
            let q = envs::sh_squote(v.as_str());
            text::push_str(&mut r, q.as_str());
            text::push_str(&mut r, " ");
        }
        assert(r@ =~= user_env_of(envs::pairs(pairs@).take(i + 1)));
        i = i + 1;
    }
    assert(envs::pairs(pairs@).take(pairs@.len() as int) =~= envs::pairs(pairs@));
    r
}

pub open spec fn or_else(a: Option<String>, b: Option<String>) -> Option<Seq<char>> {
    match a {
        Some(x) => Some(x@),
        None => naming::opt_view(b),
    }
}

pub open spec fn default_install() -> Seq<char> {
    "if [ -f package-lock.json ]; then npm ci || npm install; else npm install; fi"@
}

pub open spec fn auto_build() -> Seq<char> {
    "if node -e \"process.exit(require('./package.json').scripts&&require('./package.json').scripts.build?0:1)\" 2>/dev/null; then npm run build; fi; "@
}

pub open spec fn prune_dev() -> Seq<char> {
    "npm prune --omit=dev 2>/dev/null || true; "@
}

/// The one command that clones, installs, builds and starts an app in the
/// background: the agent's override wins over the manifest, which wins over
/// auto-detection; the user's env vars come before the launcher's own
/// (`APP_NAME`, `APP_ACCENT`, `APP_LOGO`, `PORT`) so that those always win.
pub open spec fn deploy_command_of(
    size: Seq<char>,
    repo_url: Seq<char>,
    app_name: Seq<char>,
    accent: Seq<char>,
    logo_url: Seq<char>,
    env_pairs: Seq<(Seq<char>, Seq<char>)>,
    install: Option<Seq<char>>,
    build: Option<Seq<char>>,
    start: Option<Seq<char>>,
) -> Seq<char> {
    let wd = workdir_of(size);
    let heap = node_heap_of(size);
    let node_env = if heap > 0 {
        "export NODE_OPTIONS=--max-old-space-size="@ + text::dec(heap) + "; "@
    } else {
        Seq::<char>::empty()
    };
    let install_cmd = match install {
        Some(i) => i,
        None => default_install(),
    };
    let build_step = match build {
        Some(b) => b + "; "@,
        None => auto_build(),
    };
    let prune = if install is None {
        prune_dev()
    } else {
        Seq::<char>::empty()
    };
    let start_cmd = match start {
        Some(s) => s,
        None => "npm start"@,
    };
    "set -e; "@ + node_env + "rm -rf "@ + wd + "; mkdir -p "@ + wd + "; git clone --depth 1 "@
        + repo_url + " "@ + wd + "; cd "@ + wd + "; "@ + install_cmd + "; "@ + build_step + prune
        + "("@ + user_env_of(env_pairs) + "APP_NAME='"@ + app_name + "' APP_ACCENT='"@ + accent
        + "' APP_LOGO='"@ + logo_url + "' PORT=3000 setsid nohup "@ + start_cmd
        + " > /tmp/app.log 2>&1 &); sleep 2; echo GHOSTY_DEPLOY_DONE"@
}

fn push_opt_or(s: &mut String, o: &Option<String>, fallback: &str)
    ensures
        final(s)@ == old(s)@ + match o {
            Some(x) => x@,
            None => fallback@,
        },
{
    match o {
        Some(x) => text::push_str(s, x.as_str()),
        None => text::push_str(s, fallback),
    }
}

fn first_of(a: &Option<String>, b: &Option<String>) -> (r: Option<String>)
    ensures
        naming::opt_view(r) == or_else(*a, *b),
{
    match a {
        Some(x) => Some(x.clone()),
        None => match b {
            Some(y) => Some(y.clone()),
            None => None,
        },
    }
}

/// Builds the deploy command for a VM of class `size`. `envs` are the user's
/// env vars; the override's are merged over them.
#[verifier::rlimit(40)]
pub fn deploy_command(
    size: &str,
    repo_url: &str,
    app_name: &str,
    accent: &str,
    logo_url: &str,
    envs: Vec<(String, String)>,
    manifest: &Manifest,
    ovr: &Override,
) -> (r: String)
    ensures
        r@ == deploy_command_of(
            size@,
            repo_url@,
            app_name@,
            accent@,
            logo_url@,
            envs::merge_fold(envs::pairs(envs@), envs::pairs(ovr.envs@)),
            or_else(ovr.install, manifest.install),
            or_else(ovr.build, manifest.build),
            or_else(ovr.start, manifest.start),
        ),
{
    let install = first_of(&ovr.install, &manifest.install);
    let build = first_of(&ovr.build, &manifest.build);
    let start = first_of(&ovr.start, &manifest.start);
    let merged = envs::merge_envs(envs, ovr.envs.as_slice());
    let wd = workdir(size);
    let heap = node_heap(size);
    let mut c = String::new();
    text::push_str(&mut c, "set -e; ");
    if heap > 0 {
        text::push_str(&mut c, "export NODE_OPTIONS=--max-old-space-size=");
        text::push_dec(&mut c, heap);
        text::push_str(&mut c, "; ");
    }
    text::push_str(&mut c, "rm -rf ");
    text::push_str(&mut c, wd);
    text::push_str(&mut c, "; mkdir -p ");
    text::push_str(&mut c, wd);
    text::push_str(&mut c, "; git clone --depth 1 ");
    text::push_str(&mut c, repo_url);
    text::push_str(&mut c, " ");
    text::push_str(&mut c, wd);
    text::push_str(&mut c, "; cd ");
    text::push_str(&mut c, wd);
    text::push_str(&mut c, "; ");
    push_opt_or(
        &mut c,
        &install,
        "if [ -f package-lock.json ]; then npm ci || npm install; else npm install; fi",
    );
    text::push_str(&mut c, "; ");
    match &build {
        Some(b) => {
            text::push_str(&mut c, b.as_str());
            text::push_str(&mut c, "; ");
        },
        None => text::push_str(
            &mut c,
            "if node -e \"process.exit(require('./package.json').scripts&&require('./package.json').scripts.build?0:1)\" 2>/dev/null; then npm run build; fi; ",
        ),
    }
    if install.is_none() {
        text::push_str(&mut c, "npm prune --omit=dev 2>/dev/null || true; ");
    }
    text::push_str(&mut c, "(");
    let ue = user_env(&merged);
    text::push_str(&mut c, ue.as_str());
    text::push_str(&mut c, "APP_NAME='");
    text::push_str(&mut c, app_name);
    text::push_str(&mut c, "' APP_ACCENT='");
    text::push_str(&mut c, accent);
    text::push_str(&mut c, "' APP_LOGO='");
    text::push_str(&mut c, logo_url);
    text::push_str(&mut c, "' PORT=3000 setsid nohup ");
    push_opt_or(&mut c, &start, "npm start");
    text::push_str(&mut c, " > /tmp/app.log 2>&1 &); sleep 2; echo GHOSTY_DEPLOY_DONE");
    assert(c@ =~= deploy_command_of(
        size@,
        repo_url@,
        app_name@,
        accent@,
        logo_url@,
        envs::merge_fold(envs::pairs(envs@), envs::pairs(ovr.envs@)),
        or_else(ovr.install, manifest.install),
        or_else(ovr.build, manifest.build),
        or_else(ovr.start, manifest.start),
    ));
    c
}

/// Kills only the processes whose environment holds `PORT=3000` (the app),
/// never the VM's own agent.
pub open spec fn killer() -> Seq<char> {
    "for pid in $(ls /proc 2>/dev/null | grep -E '^[0-9]+$'); do if grep -qa 'PORT=3000' /proc/$pid/environ 2>/dev/null; then [ \"$pid\" != \"$$\" ] && kill $pid 2>/dev/null; fi; done"@
}

/// Restarts the app in place with new env vars: finds the working directory
/// (where `package.json` is) and the start command (the manifest's, or
/// `npm start`), stops the old process and starts it again.
pub open spec fn reconfigure_command_of(env_pairs: Seq<(Seq<char>, Seq<char>)>, app_name: Seq<char>) -> Seq<char> {
    "for d in /app/src /app; do [ -f \"$d/package.json\" ] && WD=\"$d\" && break; done; [ -z \"$WD\" ] && { echo NO_APP; exit 1; }; cd \"$WD\"; START=$(sed -n 's/^[[:space:]]*start[[:space:]]*=[[:space:]]*\"\\(.*\\)\".*/\\1/p' \"$WD/ghosty.toml\" 2>/dev/null | head -1); [ -z \"$START\" ] && START=\"npm start\"; "@
        + killer() + "; sleep 1; rm -f /tmp/app.log; ("@ + user_env_of(env_pairs) + "APP_NAME='"@
        + naming::safe_name_of(app_name)
        + "' PORT=3000 setsid nohup $START > /tmp/app.log 2>&1 &); sleep 2; echo GHOSTY_RECONFIG_DONE"@
}

pub fn reconfigure_command(envs: &Vec<(String, String)>, app_name: &str) -> (r: String)
    ensures
        r@ == reconfigure_command_of(envs::pairs(envs@), app_name@),
{
    let mut c = String::new();
    text::push_str(
        &mut c,
        "for d in /app/src /app; do [ -f \"$d/package.json\" ] && WD=\"$d\" && break; done; [ -z \"$WD\" ] && { echo NO_APP; exit 1; }; cd \"$WD\"; START=$(sed -n 's/^[[:space:]]*start[[:space:]]*=[[:space:]]*\"\\(.*\\)\".*/\\1/p' \"$WD/ghosty.toml\" 2>/dev/null | head -1); [ -z \"$START\" ] && START=\"npm start\"; ",
    );
    text::push_str(
        &mut c,
        "for pid in $(ls /proc 2>/dev/null | grep -E '^[0-9]+$'); do if grep -qa 'PORT=3000' /proc/$pid/environ 2>/dev/null; then [ \"$pid\" != \"$$\" ] && kill $pid 2>/dev/null; fi; done",
    );
    text::push_str(&mut c, "; sleep 1; rm -f /tmp/app.log; (");
    let ue = user_env(envs);
    text::push_str(&mut c, ue.as_str());
    text::push_str(&mut c, "APP_NAME='");
    let safe = naming::safe_name(app_name);
    text::push_str(&mut c, safe.as_str());
    text::push_str(
        &mut c,
        "' PORT=3000 setsid nohup $START > /tmp/app.log 2>&1 &); sleep 2; echo GHOSTY_RECONFIG_DONE",
    );
    assert(c@ =~= reconfigure_command_of(envs::pairs(envs@), app_name@));
    c
}

/// The agent's restart: like the reconfiguration, but with the override's
/// env vars and start command (`npm start` by default).
pub open spec fn restart_command_of(env_pairs: Seq<(Seq<char>, Seq<char>)>, start: Option<Seq<char>>) -> Seq<char> {
    "for d in /app/src /app; do [ -f \"$d/package.json\" ] && WD=\"$d\" && break; done; [ -z \"$WD\" ] && { echo NO_APP; exit 1; }; cd \"$WD\"; pkill -f node 2>/dev/null; sleep 1; rm -f /tmp/app.log; ("@
        + user_env_of(env_pairs) + "PORT=3000 setsid nohup "@ + match start {
        Some(s) => s,
        None => "npm start"@,
    } + " > /tmp/app.log 2>&1 &); sleep 3; echo RESTARTED"@
}

/// The command that restarts the app with the durable fixes of `ovr`.
pub fn restart_command(ovr: &Override) -> (r: String)
    ensures
        r@ == restart_command_of(envs::pairs(ovr.envs@), naming::opt_view(ovr.start)),
{
    let mut c = String::new();
    text::push_str(
        &mut c,
        "for d in /app/src /app; do [ -f \"$d/package.json\" ] && WD=\"$d\" && break; done; [ -z \"$WD\" ] && { echo NO_APP; exit 1; }; cd \"$WD\"; pkill -f node 2>/dev/null; sleep 1; rm -f /tmp/app.log; (",
    );
    let ue = user_env(&ovr.envs);
    text::push_str(&mut c, ue.as_str());
    text::push_str(&mut c, "PORT=3000 setsid nohup ");
    push_opt_or(&mut c, &ovr.start, "npm start");
    text::push_str(&mut c, " > /tmp/app.log 2>&1 &); sleep 3; echo RESTARTED");
    assert(c@ =~= restart_command_of(envs::pairs(ovr.envs@), naming::opt_view(ovr.start)));
    c
}

/// The probe run inside the VM: Node requests `127.0.0.1:3000` up to 20
/// times, two seconds apart; any status below 500 is healthy.
pub open spec fn health_command_of() -> Seq<char> {
    "i=0; while [ $i -lt 20 ]; do node -e \"require('http').get({host:'127.0.0.1',port:3000,timeout:2000},r=>process.exit(r.statusCode<500?0:1)).on('error',()=>process.exit(1)).on('timeout',function(){this.destroy();process.exit(1)})\" && exit 0; i=$((i+1)); sleep 2; done; exit 1"@
}

pub fn health_command() -> (r: String)
    ensures
        r@ == health_command_of(),
{
    let mut c = String::new();
    text::push_str(
        &mut c,
        "i=0; while [ $i -lt 20 ]; do node -e \"require('http').get({host:'127.0.0.1',port:3000,timeout:2000},r=>process.exit(r.statusCode<500?0:1)).on('error',()=>process.exit(1)).on('timeout',function(){this.destroy();process.exit(1)})\" && exit 0; i=$((i+1)); sleep 2; done; exit 1",
    );
    c
}


/// The install step a deploy runs: the override's, else the manifest's,
/// else the default.
pub open spec fn declared_or(first: Option<String>, second: Option<String>, default: Seq<char>) -> Seq<char> {
    match first {
        Some(x) => x@,
        None => match second {
            Some(x) => x@,
            None => default,
        },
    }
}

/// A declared build command (the override's, else the manifest's) is run,
/// followed by `; `, right after the install step and before the app is
/// started: the deploy command is `… install; build; … setsid nohup start …`.
#[verifier::spinoff_prover]
#[verifier::rlimit(100)]
pub proof fn lemma_declared_build_runs(
    size: Seq<char>,
    repo_url: Seq<char>,
    app_name: Seq<char>,
    accent: Seq<char>,
    logo_url: Seq<char>,
    user_envs: Seq<(Seq<char>, Seq<char>)>,
    manifest: Manifest,
    ovr: Override,
    b: String,
)
    requires
        ovr.build == Some(b) || (ovr.build is None && manifest.build == Some(b)),
    ensures
        exists|pre: Seq<char>, mid: Seq<char>, tail: Seq<char>|
            #[trigger] deploy_command_of(
                size,
                repo_url,
                app_name,
                accent,
                logo_url,
                envs::merge_fold(user_envs, envs::pairs(ovr.envs@)),
                or_else(ovr.install, manifest.install),
                or_else(ovr.build, manifest.build),
                or_else(ovr.start, manifest.start),
            ) == pre + declared_or(ovr.install, manifest.install, default_install()) + "; "@ + b@
                + "; "@ + mid + "setsid nohup "@ + declared_or(ovr.start, manifest.start, "npm start"@)
                + tail,
{
    let env_pairs = envs::merge_fold(user_envs, envs::pairs(ovr.envs@));
    let install = or_else(ovr.install, manifest.install);
    let start = or_else(ovr.start, manifest.start);
    let cmd = deploy_command_of(
        size,
        repo_url,
        app_name,
        accent,
        logo_url,
        env_pairs,
        install,
        or_else(ovr.build, manifest.build),
        start,
    );
    let inst = declared_or(ovr.install, manifest.install, default_install());
    let st = declared_or(ovr.start, manifest.start, "npm start"@);
    assert(or_else(ovr.build, manifest.build) == Some(b@));
    assert(inst == match install {
        Some(i) => i,
        None => default_install(),
    });
    assert(st == match start {
        Some(s) => s,
        None => "npm start"@,
    });
    let wd = workdir_of(size);
    let heap = node_heap_of(size);
    let node_env = if heap > 0 {
        "export NODE_OPTIONS=--max-old-space-size="@ + text::dec(heap) + "; "@
    } else {
        Seq::<char>::empty()
    };
    let prune = if install is None {
        prune_dev()
    } else {
        Seq::<char>::empty()
    };
    let pre = "set -e; "@ + node_env + "rm -rf "@ + wd + "; mkdir -p "@ + wd + "; git clone --depth 1 "@
        + repo_url + " "@ + wd + "; cd "@ + wd + "; "@;
    let mid = prune + "("@ + user_env_of(env_pairs) + "APP_NAME='"@ + app_name + "' APP_ACCENT='"@
        + accent + "' APP_LOGO='"@ + logo_url + "' PORT=3000 "@;
    let tail = " > /tmp/app.log 2>&1 &); sleep 2; echo GHOSTY_DEPLOY_DONE"@;
    reveal_strlit("' PORT=3000 setsid nohup ");
    reveal_strlit("' PORT=3000 ");
    reveal_strlit("setsid nohup ");
    assert("' PORT=3000 setsid nohup "@ =~= "' PORT=3000 "@ + "setsid nohup "@);
    let p = pre + inst + "; "@;
    let q = p + (b@ + "; "@);
    assert(q =~= p + b@ + "; "@);
    let ue = user_env_of(env_pairs);
    let head = q + prune + "("@ + ue + "APP_NAME='"@ + app_name + "' APP_ACCENT='"@ + accent
        + "' APP_LOGO='"@ + logo_url;
    assert(head + "' PORT=3000 "@ =~= q + mid);
    assert(cmd == head + "' PORT=3000 setsid nohup "@ + st + tail);
    assert(head + "' PORT=3000 setsid nohup "@ =~= head + "' PORT=3000 "@ + "setsid nohup "@);
    assert(cmd =~= pre + inst + "; "@ + b@ + "; "@ + mid + "setsid nohup "@ + st + tail);
}

} // verus!
