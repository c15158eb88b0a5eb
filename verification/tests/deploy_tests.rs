use ghosty_launch::agent::{finish_outcome, put_env, secret_prompt, tool_label, FinishArgs};
use ghosty_launch::auth::{
    authorize_url, callback_params, callback_path, check_state, creds_from_token, keep_refresh_token,
    pkce_challenge, query_get, rand_b64, redirect_uri, Creds, TokenReply,
};
use ghosty_launch::deploy::{
    deploy_command, detect_size, health_command, is_static, node_heap, reconfigure_command,
    restart_command, size_for_package, size_override, user_env, workdir, Manifest,
};
use ghosty_launch::recipe::{path_for, Override};
use ghosty_launch::state::Outcome;
use ghosty_launch::agent::tools;
use ghosty_launch::schema::{sanitize_for_kimi, Json};

fn e(k: &str, v: &str) -> (String, String) {
    (k.to_string(), v.to_string())
}

#[test]
fn size_override_is_case_insensitive() {
    assert_eq!(size_override("XL"), "xl");
    assert_eq!(size_override("m"), "m");
    assert_eq!(size_override("huge"), "s");
}

#[test]
fn size_heuristic_by_package_weight() {
    assert_eq!(size_for_package(""), "s");
    assert_eq!(size_for_package(r#"{"dependencies":{"express":"4"}}"#), "s");
    assert_eq!(size_for_package(r#"{"scripts":{"build":"tsc"},"dependencies":{"a":"1"}}"#), "m");
    assert_eq!(size_for_package(r#"{"devDependencies":{"vite":"5"}}"#), "l");
    assert_eq!(size_for_package(r#"{"dependencies":{"next":"14"}}"#), "xl");
    assert_eq!(size_for_package(r#"{"workspaces":["a"]}"#), "xl");
    assert_eq!(size_for_package("not json"), "s");
    assert_eq!(detect_size(&Some("L".to_string()), r#"{"dependencies":{"next":"1"}}"#), "l");
    assert_eq!(detect_size(&None, r#"{"dependencies":{"next":"1"}}"#), "xl");
}

#[test]
fn static_detection() {
    assert!(is_static(&Some("STATIC".to_string()), true));
    assert!(!is_static(&Some("app".to_string()), false));
    assert!(is_static(&None, false));
    assert!(!is_static(&None, true));
}

#[test]
fn workdir_and_heap_by_size() {
    assert_eq!(workdir("s"), "/app");
    assert_eq!(workdir("l"), "/app/src");
    assert_eq!(node_heap("xl"), 6144);
    assert_eq!(node_heap("m"), 1536);
    assert_eq!(node_heap("s"), 0);
}

#[test]
fn user_env_quotes_and_skips() {
    let envs = vec![e("A", "x y"), e("bad-key", "1"), e("EMPTY", ""), e("Q", "it's")];
    assert_eq!(user_env(&envs), "A='x y' Q='it'\\''s' ");
}

#[test]
fn deploy_command_uses_override_then_manifest() {
    let manifest = Manifest {
        kind: None,
        install: Some("yarn".to_string()),
        build: None,
        start: Some("node a.js".to_string()),
        size: None,
    };
    let ovr = Override {
        envs: vec![e("DB", "mongo://x")],
        start: Some("node b.js".to_string()),
        build: None,
        install: None,
    };
    let cmd = deploy_command(
        "m",
        "https://github.com/o/r.git",
        "Shop",
        "#aabbcc",
        "",
        vec![e("DB", "old"), e("PORT", "1")],
        &manifest,
        &ovr,
    );
    assert_eq!(
        cmd,
        "set -e; export NODE_OPTIONS=--max-old-space-size=1536; rm -rf /app/src; mkdir -p /app/src; \
git clone --depth 1 https://github.com/o/r.git /app/src; cd /app/src; yarn; \
if node -e \"process.exit(require('./package.json').scripts&&require('./package.json').scripts.build?0:1)\" 2>/dev/null; then npm run build; fi; \
(DB='mongo://x' PORT='1' APP_NAME='Shop' APP_ACCENT='#aabbcc' APP_LOGO='' PORT=3000 setsid nohup node b.js > /tmp/app.log 2>&1 &); sleep 2; echo GHOSTY_DEPLOY_DONE"
    );
}

#[test]
fn deploy_command_auto_detects() {
    let cmd = deploy_command("s", "R", "N", "A", "L", vec![], &Manifest::empty(), &Override::empty());
    assert!(cmd.starts_with("set -e; rm -rf /app; mkdir -p /app;"));
    assert!(cmd.contains("npm ci || npm install"));
    assert!(cmd.contains("npm prune --omit=dev 2>/dev/null || true; ("));
    assert!(cmd.contains("setsid nohup npm start > /tmp/app.log"));
}

#[test]
fn restart_and_reconfigure_commands() {
    let ovr = Override { envs: vec![e("K", "v")], start: None, build: None, install: None };
    let r = restart_command(&ovr);
    assert!(r.contains("(K='v' PORT=3000 setsid nohup npm start > /tmp/app.log 2>&1 &); sleep 3; echo RESTARTED"));
    let c = reconfigure_command(&vec![e("K", "v")], "Mi App!");
    assert!(c.contains("(K='v' APP_NAME='Mi App' PORT=3000 setsid nohup $START"));
    assert!(c.ends_with("echo GHOSTY_RECONFIG_DONE"));
    assert!(health_command().starts_with("i=0; while [ $i -lt 20 ];"));
}

#[test]
fn override_file_name() {
    assert_eq!(path_for("Shop"), "Shop.toml");
}

#[test]
fn agent_finish_outcomes() {
    let o = finish_outcome(FinishArgs { summary: None, applied: Some(true), needs_envs: vec![] });
    assert!(matches!(o, Outcome::Applied { ref summary } if summary == "El agente terminó."));
    let o = finish_outcome(FinishArgs {
        summary: Some("falta DB".to_string()),
        applied: Some(true),
        needs_envs: vec!["DB".to_string()],
    });
    assert!(matches!(o, Outcome::NeedEnvs { ref keys, .. } if keys == &vec!["DB".to_string()]));
    let o = finish_outcome(FinishArgs { summary: Some("no".to_string()), applied: None, needs_envs: vec![] });
    assert!(matches!(o, Outcome::GaveUp { .. }));
}

#[test]
fn agent_labels_and_prompts() {
    assert_eq!(tool_label("set_env", "DB"), "   · fijando DB (durable)");
    assert_eq!(tool_label("restart", ""), "   · reiniciando la app…");
    assert_eq!(tool_label("other", ""), "   · other");
    assert_eq!(secret_prompt("DB", ""), "Necesito DB");
    assert_eq!(secret_prompt("DB", "para Mongo"), "Necesito DB — para Mongo");
    let mut ovr = Override { envs: vec![e("A", "1"), e("B", "2")], start: None, build: None, install: None };
    put_env(&mut ovr, "A".to_string(), "3".to_string());
    assert_eq!(ovr.envs, vec![e("B", "2"), e("A", "3")]);
}

#[test]
fn creds_expiry_and_token_reply() {
    let c = creds_from_token(
        TokenReply { access_token: Some("at".into()), refresh_token: None, expires_in: None },
        Some("cid".into()),
        1000,
    )
    .unwrap();
    assert_eq!(c.expires_at, 4600);
    assert!(!c.expired(4539));
    assert!(c.expired(4540));
    let err = creds_from_token(TokenReply { access_token: None, refresh_token: None, expires_in: Some(5) }, None, 0);
    assert_eq!(err.unwrap_err(), "respuesta sin access_token");
    let old = Creds { access_token: "o".into(), refresh_token: Some("r1".into()), expires_at: 0, client_id: None };
    let kept = keep_refresh_token(&old, c.clone());
    assert_eq!(kept.refresh_token, Some("r1".to_string()));
    assert!(Creds { access_token: "x".into(), refresh_token: None, expires_at: 0, client_id: None }.is_expired());
}

#[test]
fn callback_parsing() {
    let req = "GET /cb?code=abc%20d&state=xyz HTTP/1.1\r\nHost: 127.0.0.1\r\n\r\n";
    let path = callback_path(req);
    assert_eq!(path, "/cb?code=abc%20d&state=xyz");
    assert_eq!(query_get(&path, "code"), Some("abc d".to_string()));
    assert_eq!(query_get(&path, "missing"), None);
    assert_eq!(query_get("/cb", "code"), None);
    assert_eq!(callback_params(&path).unwrap(), ("abc d".to_string(), "xyz".to_string()));
    assert_eq!(
        callback_params("/cb?error=denied").unwrap_err(),
        "el callback no trajo 'code' (¿autorización cancelada?)"
    );
    assert_eq!(callback_path(""), "");
    assert!(check_state("s1", "s1").is_ok());
    assert_eq!(check_state("s1", "s2").unwrap_err(), "state inválido (posible CSRF)");
}

#[test]
fn authorize_url_encodes_parameters() {
    let u = authorize_url("https://eb", "id 1", &redirect_uri(4242), "CH", "st/");
    assert_eq!(
        u,
        "https://eb/oauth/authorize?response_type=code&client_id=id%201&redirect_uri=http%3A%2F%2F127.0.0.1%3A4242%2Fcb&code_challenge=CH&code_challenge_method=S256&scope=mcp&state=st%2F"
    );
}

#[test]
fn pkce_challenge_matches_rfc7636_example() {
    assert_eq!(
        pkce_challenge("dBjftJeZ4CVP-mB92K27uhbUJU1p1r_wW1gFWFOEjXk"),
        "E9Melhoa2OwvFrEMTJguCHaoeK1t8URWbuGJSstw-cM"
    );
    let v = rand_b64(32).unwrap();
    assert_eq!(v.len(), 43);
}

use ghosty_launch::agent::{command_reply, env_reply, log_reply, plan_tool, restart_reply, secret_reply, start_reply, ToolArgs, ToolPlan};
use ghosty_launch::api::BgStatus;

fn args(key: Option<&str>, value: Option<&str>, command: Option<&str>, reason: Option<&str>) -> ToolArgs {
    ToolArgs {
        key: key.map(String::from),
        value: value.map(String::from),
        command: command.map(String::from),
        reason: reason.map(String::from),
    }
}

#[test]
fn tool_plans_validate_arguments() {
    match plan_tool("need_secret", &args(Some("DB_URL"), None, None, Some("Mongo"))) {
        ToolPlan::AskSecret { key, prompt } => {
            assert_eq!(key, "DB_URL");
            assert_eq!(prompt, "Necesito DB_URL — Mongo");
        }
        other => panic!("unexpected {other:?}"),
    }
    match plan_tool("need_secret", &args(Some("bad key"), None, None, None)) {
        ToolPlan::Reply { text, is_error } => {
            assert_eq!(text, "clave inválida: \"bad key\"");
            assert!(is_error);
        }
        other => panic!("unexpected {other:?}"),
    }
    assert!(matches!(plan_tool("run_in_vm", &args(None, None, None, None)), ToolPlan::Reply { ref text, is_error: true } if text == "falta 'command'"));
    assert!(matches!(plan_tool("run_in_vm", &args(None, None, Some("ls"), None)), ToolPlan::RunInVm { ref command } if command == "ls"));
    assert!(matches!(plan_tool("read_app_log", &args(None, None, None, None)), ToolPlan::ReadLog));
    assert!(matches!(plan_tool("set_env", &args(Some("K"), Some("v"), None, None)), ToolPlan::SetEnv { ref key, ref value } if key == "K" && value == "v"));
    assert!(matches!(plan_tool("set_env", &args(None, Some("v"), None, None)), ToolPlan::Reply { ref text, .. } if text == "clave de env inválida: \"\""));
    assert!(matches!(plan_tool("set_start", &args(None, None, Some("node s.js"), None)), ToolPlan::SetStart { .. }));
    assert!(matches!(plan_tool("restart", &args(None, None, None, None)), ToolPlan::Restart));
    assert!(matches!(plan_tool("fly", &args(None, None, None, None)), ToolPlan::Reply { ref text, is_error: true } if text == "herramienta desconocida: fly"));
}

#[test]
fn tool_replies() {
    let (v, m, e) = secret_reply("DB", Some("  x  ".to_string()));
    assert_eq!((v, m.as_str(), e), (Some("x".to_string()), "el usuario proveyó DB; ya quedó guardado como env durable", false));
    let (v, m, e) = secret_reply("DB", Some("  ".to_string()));
    assert_eq!((v, m.as_str(), e), (None, "el usuario no proveyó DB", true));
    let st = BgStatus { status: "exited".into(), exit_code: Some(1), stdout: "out".into(), stderr: "err".into() };
    assert_eq!(command_reply(Some(st)), ("exit=Some(1)\nouterr".to_string(), true));
    assert_eq!(command_reply(None), ("el comando no terminó a tiempo".to_string(), true));
    assert_eq!(log_reply("  log "), ("log".to_string(), false));
    assert_eq!(env_reply("K", true), ("env K guardado (durable)".to_string(), false));
    assert_eq!(env_reply("K", false), ("no se pudo guardar el override".to_string(), true));
    assert_eq!(start_reply("npm start", true), ("start guardado (durable): npm start".to_string(), false));
    let ok = BgStatus { status: "exited".into(), exit_code: Some(0), stdout: "RESTARTED".into(), stderr: String::new() };
    assert_eq!(restart_reply(Some(ok)), ("reiniciada (exit=Some(0))\nRESTARTED".to_string(), false));
    assert_eq!(restart_reply(None), ("el reinicio no terminó a tiempo".to_string(), true));
}

#[test]
fn offered_tools_in_order_with_required_keys() {
    let t = tools();
    let names: Vec<&str> = t.iter().map(|x| x.name.as_str()).collect();
    assert_eq!(
        names,
        vec!["run_in_vm", "read_app_log", "set_env", "set_start", "restart", "need_secret", "finish"]
    );
    let required = |j: &Json| -> Vec<String> {
        match j {
            Json::Object(m) => match m.iter().find(|(k, _)| k == "required") {
                Some((_, Json::Array(v))) => v
                    .iter()
                    .map(|x| match x {
                        Json::Str(s) => s.clone(),
                        _ => String::new(),
                    })
                    .collect(),
                _ => Vec::new(),
            },
            _ => Vec::new(),
        }
    };
    assert_eq!(required(&t[0].input_schema), vec!["command".to_string()]);
    assert!(required(&t[1].input_schema).is_empty());
    assert_eq!(required(&t[2].input_schema), vec!["key".to_string(), "value".to_string()]);
    assert_eq!(required(&t[5].input_schema), vec!["key".to_string()]);
    assert_eq!(required(&t[6].input_schema), vec!["summary".to_string()]);
    assert!(t[1].description.starts_with("Devuelve las últimas líneas de /tmp/app.log"));
    for x in &t {
        match &x.input_schema {
            Json::Object(m) => {
                assert!(matches!(&m[0], (k, Json::Str(v)) if k == "type" && v == "object"))
            }
            _ => panic!("schema of {} is not an object", x.name),
        }
    }
}

#[test]
fn offered_tools_are_all_dispatched() {
    let args = ToolArgs { key: None, value: None, command: None, reason: None };
    for t in tools().iter().filter(|t| t.name != "finish") {
        match plan_tool(&t.name, &args) {
            ToolPlan::Reply { text, .. } => {
                assert!(!text.starts_with("herramienta desconocida"), "{}", t.name)
            }
            _ => {}
        }
    }
    match plan_tool("finish_now", &args) {
        ToolPlan::Reply { text, is_error } => {
            assert_eq!(text, "herramienta desconocida: finish_now");
            assert!(is_error);
        }
        _ => panic!("unknown tool accepted"),
    }
}

fn shape(j: &Json) -> String {
    match j {
        Json::Null => "null".into(),
        Json::Bool(b) => b.to_string(),
        Json::Number(n) | Json::Str(n) => format!("{n:?}"),
        Json::Array(v) => format!("[{}]", v.iter().map(shape).collect::<Vec<_>>().join(",")),
        Json::Object(m) => format!(
            "{{{}}}",
            m.iter().map(|(k, v)| format!("{k}:{}", shape(v))).collect::<Vec<_>>().join(",")
        ),
    }
}

#[test]
fn offered_tool_schemas_pass_kimi_fix_up_unchanged() {
    for mut t in tools() {
        let before = shape(&t.input_schema);
        sanitize_for_kimi(&mut t.input_schema);
        assert_eq!(shape(&t.input_schema), before);
    }
}
