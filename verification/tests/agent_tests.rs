use ghosty_launch::agent::{first_prompt, nudge_text, out_of_steps, plan_turn, AgentLoop, MAX_STEPS};
use ghosty_launch::state::Outcome;
use ghosty_launch::turn::Block;

fn text_block(t: &str) -> Block {
    Block::Text { text: t.to_string() }
}

fn call(id: &str, name: &str) -> Block {
    Block::ToolUse {
        id: id.to_string(),
        name: name.to_string(),
        input_json: "{}".to_string(),
        input: serde_json::Value::Object(serde_json::Map::new()),
    }
}

#[test]
fn turn_plan_narrates_trimmed_texts_and_runs_calls_in_order() {
    let blocks = vec![
        Block::Thinking { thinking: "hmm".to_string() },
        text_block("  Reviso el log.  "),
        call("a", "read_app_log"),
        text_block("   "),
        call("b", "run_in_vm"),
    ];
    let p = plan_turn(&blocks);
    assert_eq!(p.narration, vec!["Reviso el log.".to_string()]);
    assert_eq!(p.calls, vec![2, 4]);
    assert_eq!(p.finish, None);
    assert!(!p.nudge);
}

#[test]
fn turn_plan_stops_at_the_first_finish() {
    let blocks = vec![
        call("a", "set_env"),
        call("b", "finish"),
        call("c", "restart"),
        call("d", "finish"),
        text_block("listo"),
    ];
    let p = plan_turn(&blocks);
    assert_eq!(p.calls, vec![0]);
    assert_eq!(p.finish, Some(1));
    assert_eq!(p.narration, vec!["listo".to_string()]);
    assert!(!p.nudge);
}

#[test]
fn turn_plan_nudges_an_answer_without_calls() {
    let p = plan_turn(&vec![text_block("Creo que ya está.")]);
    assert!(p.nudge);
    assert!(p.calls.is_empty());
    assert_eq!(p.finish, None);
    let p = plan_turn(&Vec::new());
    assert!(p.nudge && p.narration.is_empty());
    assert_eq!(
        nudge_text(),
        "Si ya está arreglada llama finish; si no, sigue usando las herramientas."
    );
}

#[test]
fn agent_turn_budget_is_max_steps() {
    let mut l = AgentLoop::new();
    let mut granted = 0;
    for _ in 0..(MAX_STEPS + 5) {
        if l.next_turn() {
            granted += 1;
        }
    }
    assert_eq!(granted, MAX_STEPS);
    assert_eq!(l.turns, MAX_STEPS);
    assert!(!l.next_turn());
    match out_of_steps() {
        Outcome::GaveUp { summary } => {
            assert_eq!(summary, "Agoté los pasos sin dejar la app verde. Revisa el log.")
        }
        _ => panic!("expected GaveUp"),
    }
}

#[test]
fn agent_first_prompt_holds_error_and_clipped_log() {
    let p = first_prompt("exit 1", "  boom  ");
    assert_eq!(
        p,
        "El deploy falló así:\nexit 1\n\nÚltimas líneas de /tmp/app.log:\nboom\n\nDiagnostica y arregla. La app debe responder en 127.0.0.1:3000."
    );
    let long = "x".repeat(7000);
    let p = first_prompt("e", &long);
    assert!(p.contains("…[recortado]…"));
    assert!(p.len() < 7000);
}
