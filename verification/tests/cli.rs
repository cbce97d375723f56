use rust_core::cli::{flag_value, parse_config_path, parse_log_level};
use rust_core::tui::active_border_style;
use rust_core::tui::mermaid::Tone;

fn words(ws: &[&str]) -> Vec<String> {
    ws.iter().map(|w| w.to_string()).collect()
}

#[test]
fn config_path_follows_its_flag() {
    let args = words(&["pi", "--config", "/tmp/pi.toml", "--headless"]);
    assert_eq!(parse_config_path(&args), Some("/tmp/pi.toml".to_string()));
}

#[test]
fn log_level_follows_its_flag() {
    let args = words(&["pi", "--log-level", "debug"]);
    assert_eq!(parse_log_level(&args), Some("debug".to_string()));
    assert_eq!(parse_config_path(&args), None);
}

#[test]
fn flag_as_last_word_gives_none() {
    let args = words(&["pi", "--config"]);
    assert_eq!(parse_config_path(&args), None);
}

#[test]
fn first_occurrence_of_a_flag_decides() {
    let args = words(&["--config", "a.toml", "--config", "b.toml"]);
    assert_eq!(flag_value(&args, "--config"), Some("a.toml".to_string()));
    assert_eq!(flag_value(&words(&[]), "--config"), None);
}

#[test]
fn active_pane_border_is_bold_cyan() {
    let a = active_border_style(true);
    assert_eq!((a.tone, a.bold), (Tone::Cyan, true));
    let b = active_border_style(false);
    assert_eq!((b.tone, b.bold), (Tone::DarkGray, false));
}
