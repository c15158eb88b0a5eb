use ghosty_launch::envs::{is_env_key, merge_envs, parse_dotenv, sh_squote};
use ghosty_launch::state::App;

fn e(k: &str, v: &str) -> (String, String) {
    (k.to_string(), v.to_string())
}

#[test]
fn dotenv_parse_basico() {
    let env = parse_dotenv(
        "# comentario\nexport FOO=bar\nBAZ=\"con espacios\"\nQUX='simple'\n\nMALA LINEA\n=sin_clave\n",
    );
    assert_eq!(
        env,
        vec![
            ("FOO".to_string(), "bar".to_string()),
            ("BAZ".to_string(), "con espacios".to_string()),
            ("QUX".to_string(), "simple".to_string()),
        ]
    );
}

#[test]
fn dotenv_ultima_definicion_gana() {
    let env = parse_dotenv("A=1\nA=2\n");
    assert_eq!(env, vec![("A".to_string(), "2".to_string())]);
}

#[test]
fn claves_validas() {
    assert!(is_env_key("FOO_BAR"));
    assert!(is_env_key("_x9"));
    assert!(!is_env_key("9foo"));
    assert!(!is_env_key("foo-bar"));
    assert!(!is_env_key(""));
}

#[test]
fn squote_a_prueba_de_inyeccion() {
    assert_eq!(sh_squote("a'; rm -rf /; '"), "'a'\\''; rm -rf /; '\\'''");
    assert_eq!(sh_squote("simple"), "'simple'");
}

#[test]
fn upsert_agrega_actualiza_y_quita() {
    let mut app: App<()> = App::new();
    assert!(app.upsert_env("FOO=bar"));
    assert_eq!(app.envs, vec![("FOO".to_string(), "bar".to_string())]);
    app.upsert_env("FOO=baz");
    assert_eq!(app.envs, vec![("FOO".to_string(), "baz".to_string())]);
    app.upsert_env("FOO=");
    assert!(app.envs.is_empty());
    assert!(!app.upsert_env("1bad=x"));
    assert!(!app.upsert_env("sin_igual"));
}

#[test]
fn override_wins_on_conflict_and_appends_new() {
    let base = vec![e("PORT", "3000"), e("NODE_ENV", "dev")];
    let ovr = vec![e("NODE_ENV", "production"), e("DATABASE_URL", "mongo://x")];
    let merged = merge_envs(base, &ovr);
    assert_eq!(merged.iter().find(|(k, _)| k == "NODE_ENV").unwrap().1, "production");
    assert_eq!(merged.iter().find(|(k, _)| k == "PORT").unwrap().1, "3000");
    assert!(merged.iter().any(|(k, _)| k == "DATABASE_URL"));
    assert_eq!(merged.len(), 3);
}

#[test]
fn empty_override_is_identity() {
    let base = vec![e("A", "1")];
    assert_eq!(merge_envs(base.clone(), &[]), base);
}

#[test]
fn dotenv_trims_and_handles_crlf() {
    let env = parse_dotenv("  KEY = value  \r\nOTHER=\"x\"\r\n");
    assert_eq!(env, vec![e("KEY", "value"), e("OTHER", "x")]);
}

#[test]
fn dotenv_keeps_a_lone_quote() {
    let env = parse_dotenv("Q=\"\nR='a\"\n");
    assert_eq!(env, vec![e("Q", "\""), e("R", "'a\"")]);
}

#[test]
fn merge_keeps_base_order_and_appends() {
    let merged = merge_envs(vec![e("A", "1"), e("B", "2")], &[e("C", "3"), e("A", "9")]);
    assert_eq!(merged, vec![e("A", "9"), e("B", "2"), e("C", "3")]);
}

#[test]
fn squote_empty_value() {
    assert_eq!(sh_squote(""), "''");
}

#[test]
fn upsert_trims_key_and_value() {
    let mut app: App<()> = App::new();
    assert!(app.upsert_env("  KEY =  v a l  "));
    assert_eq!(app.envs, vec![e("KEY", "v a l")]);
}
