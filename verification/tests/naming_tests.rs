use ghosty_launch::eyes::{next_eyes, spark_strip, working_eyes, Spark};
use ghosty_launch::naming::hex_rgb;
use ghosty_launch::naming::{
    accent_hex, can_trim_log, clip, content_type_for, delete_last_word, display_name, mask_key,
    marker_name, normalize_hex, public_url, repo_https, repo_slug, safe_name, trim_log, trunc,
    truncate,
};
use ghosty_launch::provider::{provider_passes_model_through, wire_model_for_provider, ApiProvider};
use ghosty_launch::spillover::{is_valid_sha256, sha_spillover_file, sha_spillover_path};

#[test]
fn accent_hex_formats_presets_and_wraps() {
    assert_eq!(accent_hex(0), "#a78bfa");
    assert_eq!(accent_hex(4), "#2dd4bf");
    assert_eq!(accent_hex(5), "#a78bfa");
}

#[test]
fn normalize_hex_accepts_and_lowercases() {
    assert_eq!(normalize_hex(" #AABBCC "), Some("#aabbcc".to_string()));
    assert_eq!(normalize_hex("12ab9f"), Some("#12ab9f".to_string()));
    assert_eq!(normalize_hex("#12ab9"), None);
    assert_eq!(normalize_hex("#12ab9g"), None);
    let once = normalize_hex("#A1B2C3").unwrap();
    assert_eq!(normalize_hex(&once), Some(once.clone()));
}

#[test]
fn safe_name_filters_and_defaults() {
    assert_eq!(safe_name("Mi App!; rm -rf"), "Mi App rm -rf");
    assert_eq!(safe_name("   "), "Mi app");
    assert_eq!(safe_name("$$$"), "Mi app");
    assert_eq!(safe_name(&"a".repeat(50)).chars().count(), 40);
}

#[test]
fn marker_and_display_round_trip() {
    let m = marker_name("Mi Tienda");
    assert_eq!(m, "gl:Mi Tienda");
    assert_eq!(display_name(&Some(m)), "Mi Tienda");
    assert_eq!(display_name(&Some("otra".to_string())), "app");
    assert_eq!(display_name(&None), "app");
}

#[test]
fn public_url_rebuilds_from_id() {
    assert_eq!(
        public_url("sb_abc123", 3000),
        "https://sb-abc123-3000.sandboxes.easybits.cloud"
    );
    assert_eq!(public_url("x", 80), "https://x-80.sandboxes.easybits.cloud");
}

#[test]
fn repo_slug_and_https_normalize() {
    assert_eq!(repo_slug("git@github.com:owner/repo.git"), "owner/repo");
    assert_eq!(repo_slug(" https://github.com/owner/repo/ "), "owner/repo");
    assert_eq!(repo_slug("owner/repo"), "owner/repo");
    assert_eq!(repo_https("owner/repo"), "https://github.com/owner/repo.git");
}

#[test]
fn content_types_by_extension() {
    assert_eq!(content_type_for("index.HTML"), "text/html; charset=utf-8");
    assert_eq!(content_type_for("app.mjs"), "application/javascript");
    assert_eq!(content_type_for("logo.jpeg"), "image/jpeg");
    assert_eq!(content_type_for("README"), "application/octet-stream");
}

#[test]
fn mask_key_keeps_prefix() {
    assert_eq!(mask_key("eb_sk_live_abc123def456"), format!("eb_sk_{}", "•".repeat(17)));
    assert_eq!(mask_key("short"), "•••••");
}

#[test]
fn truncation_helpers() {
    assert_eq!(truncate("  hello world  ", 5), "…world");
    assert_eq!(truncate("hi", 5), "hi");
    assert_eq!(trunc("hello world", 5), "hello…");
    assert_eq!(clip("abcdefghij", 6), "abcd\n…[recortado]…\nij");
    assert_eq!(clip(" short ", 10), "short");
}

#[test]
fn delete_last_word_removes_word_and_spaces() {
    let mut s = "git clone repo  ".to_string();
    delete_last_word(&mut s);
    assert_eq!(s, "git clone ");
    let mut u = "https://x.y/z".to_string();
    delete_last_word(&mut u);
    assert_eq!(u, "");
}

#[test]
fn trim_log_keeps_tail() {
    let long = "x".repeat(250);
    assert!(can_trim_log(&long));
    assert_eq!(trim_log(&long), format!("…{}", "x".repeat(200)));
    assert_eq!(trim_log("  short  "), "short");
    let accented = format!("é{}", "a".repeat(199));
    assert!(!can_trim_log(&accented));
}

#[test]
fn provider_parse_and_names() {
    assert_eq!(ApiProvider::parse(" EasyBits "), Some(ApiProvider::Deepseek));
    assert_eq!(ApiProvider::parse("kimi"), Some(ApiProvider::Moonshot));
    assert_eq!(ApiProvider::parse("nope"), None);
    for p in ApiProvider::all() {
        assert_eq!(ApiProvider::parse(p.as_str()), Some(*p));
    }
    assert_eq!(ApiProvider::all().len(), 19);
    assert_eq!(ApiProvider::SiliconflowCn.display_name(), "SiliconFlow (China)");
    assert!(provider_passes_model_through(ApiProvider::Ollama));
    assert!(!provider_passes_model_through(ApiProvider::Deepseek));
}

#[test]
fn wire_model_canonicalizes_deepseek_ids() {
    assert_eq!(
        wire_model_for_provider(ApiProvider::Deepseek, " deepseek-ai/DeepSeek-V4-Pro "),
        "deepseek-v4-pro"
    );
    assert_eq!(wire_model_for_provider(ApiProvider::Deepseek, "DeepSeek-V4-Flash"), "DeepSeek-V4-Flash");
    assert_eq!(wire_model_for_provider(ApiProvider::Ollama, " llama3 "), "llama3");
    assert_eq!(wire_model_for_provider(ApiProvider::Openrouter, "other"), "other");
    let once = wire_model_for_provider(ApiProvider::Deepseek, "deepseek/deepseek-v4flash");
    assert_eq!(wire_model_for_provider(ApiProvider::Deepseek, &once), once);
}

#[test]
fn sha_validation_and_spill_file() {
    let sha = "a".repeat(64);
    assert!(is_valid_sha256(&sha));
    assert!(!is_valid_sha256(&"A".repeat(64)));
    assert!(!is_valid_sha256("abc"));
    assert_eq!(
        sha_spillover_file(&format!("  {}  ", "AB".repeat(32))),
        Some(format!("sha_{}.txt", "ab".repeat(32)))
    );
    assert_eq!(sha_spillover_file("nothex"), None);
    let root = std::path::PathBuf::from("/tmp/spill");
    assert_eq!(
        sha_spillover_path(&sha, Some(root.clone())),
        Some(root.join(format!("sha_{sha}.txt")))
    );
    assert_eq!(sha_spillover_path(&sha, None), None);
    assert_eq!(sha_spillover_path("bad", Some(root)), None);
}

#[test]
fn eyes_are_deterministic() {
    assert_eq!(next_eyes(7), next_eyes(7));
    assert_eq!(working_eyes(0), ("─", "─"));
    assert_eq!(working_eyes(45), ("◡", "◡"));
    assert_eq!(working_eyes(48), ("◌", "◉"));
    assert_eq!(working_eyes(50), ("◍", "◎"));
}

#[test]
fn hex_rgb_reads_the_three_bytes() {
    assert_eq!(hex_rgb("#8B5CF6"), Some((0x8b, 0x5c, 0xf6)));
    assert_eq!(hex_rgb("  00ff7f "), Some((0, 255, 127)));
    assert_eq!(hex_rgb("#12345"), None);
    assert_eq!(hex_rgb("#12345g"), None);
}

#[test]
fn spark_strip_lights_three_phases_of_twenty_nine() {
    let cells = spark_strip(0, 0, 29);
    assert_eq!(cells.len(), 29);
    // phase = 5 * col % 29: col 0 -> 0, col 6 -> 1 (bright), col 12 -> 2.
    assert_eq!(cells[0], Spark::Glyph { glyph: '·', bright: false });
    assert_eq!(cells[6], Spark::Glyph { glyph: '✧', bright: true });
    assert_eq!(cells[12], Spark::Glyph { glyph: '·', bright: false });
    assert_eq!(cells.iter().filter(|c| **c != Spark::Blank).count(), 3);
    assert!(spark_strip(5, 3, 0).is_empty());
    // Negative columns wrap like rem_euclid: col -6 has phase (-30 + 0) mod 29 = 28.
    assert_eq!(spark_strip(0, -6, 1), vec![Spark::Blank]);
    assert_eq!(spark_strip(1, -6, 1), vec![Spark::Glyph { glyph: '✧', bright: false }]);
}
