use ghosty_launch::api::{apps_from_sandboxes, BgStart, BgStatus, Exposed, Sandbox};
use ghosty_launch::keys::{handle_key, paste, submit_key, Key, KeyAction};
use ghosty_launch::pipeline::{Action, Event, Phase, Pipeline, Report};
use ghosty_launch::state::{
    chosen_accent, step_label, App, AppEntry, ApplyEffect, InputField, Msg, Outcome, Screen,
    StepStatus,
};

fn entry(id: &str, name: &str) -> AppEntry {
    AppEntry {
        id: id.to_string(),
        name: name.to_string(),
        url: format!("https://{id}"),
        running: true,
    }
}

fn signed_in() -> App<u8> {
    let mut app: App<u8> = App::new();
    let eff = app.apply(Msg::AppsLoaded {
        client: 7,
        email: Some("a@b.c".to_string()),
        apps: vec![entry("sb_a", "A"), entry("sb_b", "B")],
    });
    assert_eq!(eff, ApplyEffect::Nothing);
    app
}

#[test]
fn apps_loaded_opens_panel_and_clamps_cursor() {
    let mut app: App<u8> = App::new();
    app.apps_cursor = 9;
    app.apply(Msg::AppsLoaded { client: 1, email: None, apps: vec![entry("x", "X")] });
    assert_eq!(app.screen, Screen::Apps);
    assert_eq!(app.apps_cursor, 0);
    assert_eq!(app.client, Some(1));
}

#[test]
fn empty_apps_list_asks_to_start_creating() {
    let mut app: App<u8> = App::new();
    let eff = app.apply(Msg::AppsLoaded { client: 1, email: None, apps: vec![] });
    assert_eq!(eff, ApplyEffect::StartCreate);
    assert_eq!(app.screen, Screen::KeyEntry);
    app.start_create(vec![("A".to_string(), "1".to_string())], "owner/repo".to_string());
    assert_eq!(app.screen, Screen::Create);
    assert_eq!(app.repo_input, "owner/repo");
    assert_eq!(app.custom_hex, "#");
}

#[test]
fn step_messages_update_and_anchor() {
    let mut app = signed_in();
    app.start_launch();
    assert_eq!(app.steps.len(), 4);
    app.tick = 50;
    app.apply(Msg::Step { idx: 1, status: StepStatus::Running, detail: "x".to_string() });
    assert_eq!(app.running_idx, Some(1));
    assert_eq!(app.step_anchor, 50);
    app.tick = 60;
    app.apply(Msg::Step { idx: 1, status: StepStatus::Running, detail: String::new() });
    assert_eq!(app.step_anchor, 50);
    assert_eq!(app.steps[1].detail, "x");
    app.apply(Msg::Step { idx: 9, status: StepStatus::Done, detail: "ignored".to_string() });
    assert_eq!(app.steps.len(), 4);
    let (done, total, running, elapsed) = app.launch_progress();
    assert_eq!((done, total, running, elapsed), (0, 4, true, 10));
}

#[test]
fn live_completes_every_step() {
    let mut app = signed_in();
    app.start_launch();
    app.apply(Msg::Step { idx: 0, status: StepStatus::Failed, detail: "boom".to_string() });
    app.apply(Msg::Live { url: "https://u".to_string() });
    assert_eq!(app.screen, Screen::Live);
    assert!(app.steps.iter().all(|s| s.status == StepStatus::Done));
    assert_eq!(app.steps[0].detail, "boom");
    assert!(app.public_verified);
    assert_eq!(app.live_at, Some(app.tick));
}

#[test]
fn failure_with_a_vm_hands_over_to_the_agent() {
    let mut app = signed_in();
    app.apply(Msg::SandboxCreated { id: "sb_1".to_string() });
    app.apply(Msg::Failed { error: "exit 1".to_string() });
    assert_eq!(app.screen, Screen::Agent);
    assert!(app.agent_busy);
    assert_eq!(app.agent_pending, Some(("sb_1".to_string(), "exit 1".to_string())));
    assert_eq!(app.eyes, ("◉", "◉"));
}

#[test]
fn failure_without_a_vm_shows_the_error() {
    let mut app = signed_in();
    app.apply(Msg::Failed { error: "no VM".to_string() });
    assert_eq!(app.screen, Screen::Error);
    assert_eq!(app.error, Some("no VM".to_string()));
    app.apply(Msg::AppsError { error: "timeout".to_string() });
    assert_eq!(app.error, Some("No se pudo leer tus apps: timeout".to_string()));
    assert!(app.dismiss_error());
    assert_eq!(app.screen, Screen::Apps);
    assert_eq!(app.busy, Some("cargando…".to_string()));
}

#[test]
fn cancelled_agent_ignores_late_report() {
    let mut app = signed_in();
    app.start_fix_agent();
    app.cancel_agent();
    assert!(!app.agent_busy);
    assert_eq!(app.eyes, ("•", "•"));
    app.apply(Msg::AgentDone { outcome: Outcome::GaveUp { summary: "late".to_string() } });
    assert!(app.agent_outcome.is_none());
    assert!(app.agent_cancel.is_none());
}

#[test]
fn agent_report_is_recorded() {
    let mut app = signed_in();
    app.start_fix_agent();
    app.apply(Msg::AgentStep { text: "mirando".to_string() });
    assert_eq!(app.agent_steps, vec!["mirando".to_string()]);
    app.apply(Msg::AgentDone { outcome: Outcome::Applied { summary: "ok".to_string() } });
    assert!(!app.agent_busy);
    assert!(matches!(app.agent_outcome, Some(Outcome::Applied { .. })));
}

#[test]
fn agent_question_round_trip() {
    let mut app = signed_in();
    app.start_fix_agent();
    let (tx, mut rx) = tokio::sync::oneshot::channel::<String>();
    app.apply(Msg::AgentNeedInput { prompt: "Necesito DB".to_string(), reply: tx });
    assert_eq!(app.agent_prompt, Some("Necesito DB".to_string()));
    assert_eq!(app.active_input(), Some(InputField::AgentAnswer));
    app.cancel_agent();
    assert_eq!(rx.try_recv().unwrap(), "");
}

#[test]
fn eyes_fall_asleep_when_idle() {
    let mut app: App<u8> = App::new();
    app.tick = 1000;
    app.tick_eyes();
    assert_eq!(app.eyes, ("─", "─"));
    app.tick = 300;
    app.tick_eyes();
    assert_eq!(app.eyes, ("◡", "◡"));
    app.tick = 10;
    app.tick_eyes();
    assert!(app.eyes_until > 10);
}

#[test]
fn chosen_accent_uses_valid_custom_color() {
    let mut app: App<u8> = App::new();
    app.accent_idx = 2;
    assert_eq!(chosen_accent(&app), "#f472b6");
    app.accent_idx = 5;
    app.custom_hex = "#ABCDEF".to_string();
    assert_eq!(chosen_accent(&app), "#abcdef");
    app.custom_hex = "#12".to_string();
    assert_eq!(chosen_accent(&app), "#a78bfa");
}

#[test]
fn paste_mode_key_entry_submits() {
    let mut app: App<u8> = App::new();
    assert!(matches!(handle_key(&mut app, Key::Char('k')), KeyAction::Nothing));
    assert!(app.paste_mode);
    let act = paste(&mut app, " eb_sk_ live\n");
    assert_eq!(app.key_input, "eb_sk_live");
    match act {
        KeyAction::SubmitKey { key } => assert_eq!(key, "eb_sk_live"),
        other => panic!("unexpected {other:?}"),
    }
    assert!(app.auth_busy);
    assert_eq!(app.auth_status, "validando…");
    assert!(matches!(submit_key(&mut app), KeyAction::Nothing));
}

#[test]
fn key_entry_enter_starts_oauth() {
    let mut app: App<u8> = App::new();
    assert!(matches!(handle_key(&mut app, Key::Enter), KeyAction::StartOAuth));
    assert!(app.auth_busy);
    assert!(matches!(handle_key(&mut app, Key::Char('x')), KeyAction::Nothing));
    handle_key(&mut app, Key::Esc);
    assert!(app.should_quit);
}

#[test]
fn panel_navigation_wraps_and_destroys_after_confirmation() {
    let mut app = signed_in();
    handle_key(&mut app, Key::Up);
    assert_eq!(app.apps_cursor, 1);
    handle_key(&mut app, Key::Down);
    assert_eq!(app.apps_cursor, 0);
    handle_key(&mut app, Key::Char('d'));
    assert!(app.confirm_destroy);
    match handle_key(&mut app, Key::Char('s')) {
        KeyAction::Destroy { id } => assert_eq!(id, "sb_a"),
        other => panic!("unexpected {other:?}"),
    }
    assert_eq!(app.busy, Some("borrando…".to_string()));
    handle_key(&mut app, Key::Char('d'));
    assert!(matches!(handle_key(&mut app, Key::Char('n')), KeyAction::Nothing));
    assert!(!app.confirm_destroy);
}

#[test]
fn customize_flow_launches() {
    let mut app = signed_in();
    handle_key(&mut app, Key::Char('c'));
    assert_eq!(app.screen, Screen::Consent);
    handle_key(&mut app, Key::Char('y'));
    assert_eq!(app.screen, Screen::Customize);
    for c in "Mi Tienda".chars() {
        handle_key(&mut app, Key::Char(c));
    }
    handle_key(&mut app, Key::Enter);
    assert_eq!(app.focus, 1);
    handle_key(&mut app, Key::Left);
    assert_eq!(app.accent_idx, 5);
    handle_key(&mut app, Key::Char('1'));
    handle_key(&mut app, Key::Char('z'));
    assert_eq!(app.custom_hex, "#1");
    handle_key(&mut app, Key::Tab);
    handle_key(&mut app, Key::Tab);
    assert_eq!(app.focus, 3);
    match handle_key(&mut app, Key::Enter) {
        KeyAction::Launch { app_name, accent, logo } => {
            assert_eq!(app_name, "Mi Tienda");
            assert_eq!(accent, "#a78bfa");
            assert_eq!(logo, "");
        }
        other => panic!("unexpected {other:?}"),
    }
    assert_eq!(app.screen, Screen::Launching);
    assert_eq!(app.steps.len(), 4);
}

#[test]
fn live_screen_keys() {
    let mut app = signed_in();
    handle_key(&mut app, Key::Enter);
    assert_eq!(app.screen, Screen::Live);
    assert_eq!(app.sandbox_id, Some("sb_a".to_string()));
    match handle_key(&mut app, Key::Char('o')) {
        KeyAction::OpenBrowser { url } => assert_eq!(url, "https://sb_a"),
        other => panic!("unexpected {other:?}"),
    }
    assert!(matches!(handle_key(&mut app, Key::Char('b')), KeyAction::ReloadApps));
    assert_eq!(app.screen, Screen::Apps);
    assert_eq!(app.busy, Some("actualizando…".to_string()));
}

#[test]
fn step_labels() {
    assert_eq!(step_label(StepStatus::Pending), "·");
    assert_eq!(step_label(StepStatus::Done), "✓");
    assert_eq!(step_label(StepStatus::Failed), "✗");
}

#[test]
fn listed_apps_filter_and_urls() {
    let list = vec![
        Sandbox { sandbox_id: "sb_1".to_string(), status: "running".to_string(), name: Some("gl:Shop".to_string()) },
        Sandbox { sandbox_id: "sb_2".to_string(), status: "stopped".to_string(), name: Some("gl:Blog".to_string()) },
        Sandbox { sandbox_id: "  ".to_string(), status: "running".to_string(), name: Some("gl:Ghost".to_string()) },
        Sandbox { sandbox_id: "sb_3".to_string(), status: "running".to_string(), name: Some("other".to_string()) },
        Sandbox { sandbox_id: "sb_4".to_string(), status: "running".to_string(), name: None },
    ];
    let apps = apps_from_sandboxes(list);
    assert_eq!(apps.len(), 2);
    assert_eq!(apps[0].name, "Shop");
    assert_eq!(apps[0].url, "https://sb-1-3000.sandboxes.easybits.cloud");
    assert!(apps[0].running);
    assert_eq!(apps[1].id, "sb_2");
    assert_eq!(apps[1].url, "");
    assert!(!apps[1].running);
}

fn notes(r: &[Report]) -> Vec<String> {
    r.iter().map(|x| format!("{x:?}")).collect()
}

fn status(s: &str, code: Option<i32>, out: &str, err: &str) -> BgStatus {
    BgStatus { status: s.to_string(), exit_code: code, stdout: out.to_string(), stderr: err.to_string() }
}

#[test]
fn fresh_deploy_happy_path() {
    let (mut p, r, a) = Pipeline::launch("m", "gl:App".to_string(), "CMD".to_string());
    assert_eq!(notes(&r), vec![format!("{:?}", Report::Step { idx: 0, status: StepStatus::Running, detail: "VM tamaño m".to_string() })]);
    assert!(matches!(a, Action::CreateVm { ref size, ref name } if size == "m" && name == "gl:App"));
    let (r, a) = p.step(Event::Vm { result: Ok(Sandbox { sandbox_id: "sb_9".into(), status: "creating".into(), name: None }) });
    assert_eq!(r.len(), 1);
    assert!(matches!(a, Action::PollVm { ref id } if id == "sb_9"));
    let (r, a) = p.step(Event::Vm { result: Ok(Sandbox { sandbox_id: "sb_9".into(), status: "running".into(), name: None }) });
    assert_eq!(r.len(), 3);
    assert!(matches!(&r[1], Report::Step { idx: 0, status: StepStatus::Done, detail } if detail == "VM sb_9 lista"));
    assert!(matches!(a, Action::StartExec { ref command, .. } if command == "CMD"));
    let (_, a) = p.step(Event::ExecStarted { result: Ok(BgStart { exec_id: "e1".into() }) });
    assert!(matches!(a, Action::PollExec { ref exec_id, .. } if exec_id == "e1"));
    let (r, _) = p.step(Event::ExecStatus { result: Ok(status("running", None, "", "")) });
    assert!(matches!(&r[0], Report::Step { idx: 1, status: StepStatus::Running, .. }));
    let (_, _) = p.step(Event::ExecStatus { result: Err("502".into()) });
    assert_eq!(p.errors, 1);
    let (r, a) = p.step(Event::ExecStatus { result: Ok(status("exited", Some(0), "", "")) });
    assert_eq!(r.len(), 2);
    assert!(matches!(a, Action::CheckHealth { .. }));
    let (r, a) = p.step(Event::Health { ok: true });
    assert_eq!(r.len(), 2);
    assert!(matches!(a, Action::Expose { .. }));
    let (_, a) = p.step(Event::Exposed { result: Ok(Exposed { url: "https://pub".into() }) });
    assert!(matches!(a, Action::CheckPublic { ref url } if url == "https://pub"));
    let (r, a) = p.step(Event::PublicChecked { ok: false });
    assert!(matches!(&r[0], Report::LiveUnverified { url } if url == "https://pub"));
    assert!(matches!(a, Action::Stop));
    assert_eq!(p.phase, Phase::Finished);
}

#[test]
fn deploy_exit_code_reports_log_tail() {
    let (mut p, _, _) = Pipeline::launch("s", "n".to_string(), "c".to_string());
    p.step(Event::Vm { result: Ok(Sandbox { sandbox_id: "sb".into(), status: "running".into(), name: None }) });
    p.step(Event::ExecStarted { result: Ok(BgStart { exec_id: "e".into() }) });
    let ev = Event::ExecStatus { result: Ok(status("exited", Some(2), "npm ERR ", "missing")) };
    assert!(p.accepts(&ev));
    let (r, a) = p.step(ev);
    assert!(matches!(&r[1], Report::Failed { error } if error == "deploy exit 2: npm ERR missing"));
    assert!(matches!(a, Action::Stop));
}

#[test]
fn vm_that_never_runs_times_out() {
    let (mut p, _, _) = Pipeline::launch("s", "n".to_string(), "c".to_string());
    p.step(Event::Vm { result: Ok(Sandbox { sandbox_id: "sb".into(), status: "creating".into(), name: None }) });
    let mut last = Vec::new();
    for _ in 0..30 {
        let (r, _) = p.step(Event::Vm { result: Ok(Sandbox { sandbox_id: "sb".into(), status: "creating".into(), name: None }) });
        last = r;
    }
    assert!(matches!(last.last(), Some(Report::Failed { error }) if error == "La VM no llegó a 'running' a tiempo"));
    assert_eq!(p.phase, Phase::Finished);
}

#[test]
fn unhealthy_restart_reports_log() {
    let (mut p, r, a) = Pipeline::reconfigure("sb_7".to_string(), "RESTART".to_string());
    assert_eq!(r.len(), 1);
    assert!(matches!(a, Action::Restart { ref id, ref command } if id == "sb_7" && command == "RESTART"));
    let (r, _) = p.step(Event::Restarted { result: Some(status("exited", Some(0), "", "")) });
    assert_eq!(r.len(), 3);
    let (_, a) = p.step(Event::Health { ok: false });
    assert!(matches!(a, Action::FetchLog { .. }));
    let (r, _) = p.step(Event::AppLog { text: " Error: no DB \n".to_string() });
    assert!(matches!(&r[2], Report::Failed { error } if error == "sigue sin responder. Últimas líneas del log:\nError: no DB"));
}

#[test]
fn restart_without_app_code() {
    let (mut p, _, _) = Pipeline::reconfigure("sb_7".to_string(), "R".to_string());
    let (r, _) = p.step(Event::Restarted { result: Some(status("exited", Some(1), "NO_APP\n", "")) });
    assert!(matches!(&r[1], Report::Failed { error } if error == "No se pudo reiniciar: no encontré el código de la app en la VM (¿se borró /app?)"));
    let (mut q, _, _) = Pipeline::reconfigure("sb_7".to_string(), "R".to_string());
    let (r, _) = q.step(Event::Restarted { result: None });
    assert!(matches!(&r[1], Report::Failed { error } if error == "El reinicio no respondió (VM ocupada o caída)"));
}

#[test]
fn healthy_restart_verifies_rebuilt_url() {
    let (mut p, _, _) = Pipeline::reconfigure("sb_x".to_string(), "R".to_string());
    p.step(Event::Restarted { result: Some(status("exited", Some(0), "", "")) });
    let (_, a) = p.step(Event::Health { ok: true });
    assert!(matches!(a, Action::CheckPublic { ref url } if url == "https://sb-x-3000.sandboxes.easybits.cloud"));
    let (r, _) = p.step(Event::PublicChecked { ok: true });
    let msg: Msg<u8> = r.into_iter().next().unwrap().into_msg();
    assert!(matches!(msg, Msg::Live { url } if url == "https://sb-x-3000.sandboxes.easybits.cloud"));
}

#[test]
fn repository_screen_edits_and_publishes_the_repo() {
    let mut app = signed_in();
    app.start_create(Vec::new(), "owner/rep".to_string());
    assert_eq!(app.screen, Screen::Create);
    assert!(matches!(handle_key(&mut app, Key::Char('o')), KeyAction::Nothing));
    assert_eq!(app.repo_input, "owner/repo");
    handle_key(&mut app, Key::Backspace);
    assert_eq!(app.repo_input, "owner/rep");
    assert!(matches!(paste(&mut app, "o\n"), KeyAction::Nothing));
    assert_eq!(app.repo_input, "owner/repo");
    app.repo_input.push_str("  ");
    match handle_key(&mut app, Key::Enter) {
        KeyAction::Create { repo } => assert_eq!(repo, "owner/repo"),
        _ => panic!("Enter should publish the repo"),
    }
    assert_eq!(app.screen, Screen::Create);
    app.repo_input = "   ".to_string();
    assert!(matches!(handle_key(&mut app, Key::Enter), KeyAction::Nothing));
    handle_key(&mut app, Key::Esc);
    assert_eq!(app.screen, Screen::Apps);
}

#[test]
fn esc_always_cancels_the_agent() {
    let mut app = signed_in();
    app.start_fix_agent();
    assert_eq!(app.screen, Screen::Agent);
    assert!(app.agent_busy);
    assert!(matches!(handle_key(&mut app, Key::Char('x')), KeyAction::Nothing));
    assert_eq!(app.screen, Screen::Agent);
    app.agent_prompt = Some("Necesito DATABASE_URL".to_string());
    app.agent_input = "postgres://".to_string();
    assert!(matches!(handle_key(&mut app, Key::Esc), KeyAction::Nothing));
    assert_eq!(app.screen, Screen::Apps);
    assert!(!app.agent_busy);
    assert!(app.agent_prompt.is_none());
    assert!(app.agent_input.is_empty());
    assert!(app.agent_cancel.as_ref().map_or(true, |f| f.load(std::sync::atomic::Ordering::Relaxed)));
}
