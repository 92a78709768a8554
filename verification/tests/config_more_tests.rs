use std::str::FromStr;

use keybinds::KeySeq;
use miro_pdf::config::{
    parse_line_parts, BindableMessage, Config, ConfigError, MouseAction, MouseButton, MouseInput,
    MouseModifiers,
};
use miro_pdf::keys::{format_key_sequence, format_key_texts};

fn text(chars: &[char]) -> String {
    chars.iter().collect()
}

#[test]
fn default_config_has_all_bindings_and_settings() {
    let config = Config::default();
    assert_eq!(config.keyboard.as_slice().len(), 23);
    assert_eq!(config.mouse.len(), 12);
    assert!(!config.rpc_enabled);
    assert_eq!(config.rpc_port, 7890);
    assert_eq!(config.trackpad_sensitivity, "1.0");
    assert!(config.page_borders);
    assert!(config.dark_mode);
    assert!(!config.invert_pdf);
    assert!(!config.open_sidebar);
    let close = config.get_binding_for_msg(BindableMessage::CloseTab).unwrap();
    assert_eq!(close.seq, KeySeq::from_str("Z Z").unwrap());
    assert_eq!(close.action, BindableMessage::CloseTab);
    let mut twice = Config::parse_with_errors("Bind x Exit\nBind y ZoomIn\nBind z ZoomIn").config;
    let zoom = twice.get_binding_for_msg(BindableMessage::ZoomIn).unwrap();
    assert_eq!(zoom.seq, KeySeq::from_str("y").unwrap());
    twice = Config::new();
    assert!(twice.get_binding_for_msg(BindableMessage::ZoomIn).is_none());
    assert!(config.get_binding_for_msg(BindableMessage::ToggleFullscreen).is_none());
}

#[test]
fn new_config_has_no_bindings() {
    let config = Config::new();
    assert!(config.keyboard.as_slice().is_empty());
    assert!(config.mouse.is_empty());
    assert_eq!(config.rpc_port, 7890);
    assert_eq!(config.trackpad_sensitivity, "1.0");
}

#[test]
fn settings_are_applied() {
    let result = Config::parse_with_errors(
        "Set Rpc True\nSet RpcPort 8080\nSet DarkModeUi false\nSet DarkModePdf 1\nSet OpenSidebar true\nSet PageBorders 0",
    );
    assert!(!result.has_errors());
    assert!(result.config.rpc_enabled);
    assert_eq!(result.config.rpc_port, 8080);
    assert!(!result.config.dark_mode);
    assert!(result.config.invert_pdf);
    assert!(result.config.open_sidebar);
    assert!(!result.config.page_borders);
}

#[test]
fn each_error_has_its_message() {
    let cases = [
        ("Set DarkModeUi maybe", "Invalid boolean value for DarkModeUi: 'maybe'. Use True/False"),
        ("Set Colour red", "Unknown setting: Colour"),
        ("Set RpcPort", "Set command requires exactly 2 arguments: <setting> <value>"),
        ("Set RpcPort 99999999999", "Invalid port number: '99999999999'. Must be a valid integer"),
        ("MouseBind Left", "MouseBind command requires exactly 2 arguments: <mouse_input> <action>"),
        ("MouseBind Left Fly", "Unknown mouse action: Fly"),
        ("Bind j k MoveUp", "Bind command requires exactly 2 arguments: <key> <action>"),
        ("bind j MoveUp", "Unknown command: bind"),
    ];
    for (line, message) in cases {
        let result = Config::parse_with_errors(line);
        assert_eq!(result.errors.len(), 1, "{line}");
        assert_eq!(result.errors[0].message, message);
    }
}

#[test]
fn unknown_key_is_refused_by_the_key_parser() {
    let result = Config::parse_with_errors("Bind NoSuchKey MoveUp");
    assert_eq!(result.errors.len(), 1);
    assert!(result.errors[0].message.starts_with("Failed to bind key 'NoSuchKey': "));
    assert!(result.config.keyboard.as_slice().is_empty());
}

#[test]
fn quoted_argument_keeps_its_spaces() {
    let parts = parse_line_parts(&"Bind \"g g\" MoveUp".chars().collect::<Vec<_>>()).unwrap();
    let parts: Vec<String> = parts.iter().map(|p| text(p)).collect();
    assert_eq!(parts, vec!["Bind", "g g", "MoveUp"]);
    let result = Config::parse_with_errors("Bind \"g g\" MoveUp");
    assert!(!result.has_errors());
    assert_eq!(result.config.keyboard.as_slice()[0].seq, KeySeq::from_str("g g").unwrap());
    assert_eq!(result.config.keyboard.as_slice()[0].action, BindableMessage::MoveUp);
}

#[test]
fn tabs_separate_arguments() {
    let parts = parse_line_parts(&"Set\tRpc\t\tTrue".chars().collect::<Vec<_>>()).unwrap();
    assert_eq!(parts.len(), 3);
    assert_eq!(text(&parts[2]), "True");
}

#[test]
fn refused_line_changes_nothing() {
    let mut config = Config::new();
    let before = config.mouse.len();
    assert!(Config::parse_line("MouseBind Ctrl+Left Nope", &mut config).is_err());
    assert_eq!(config.mouse.len(), before);
    assert!(Config::parse_line("MouseBind Ctrl+Left ZoomIn", &mut config).is_ok());
    assert_eq!(config.mouse.len(), before + 1);
}

#[test]
fn report_lists_each_error_with_its_line() {
    let result = Config::parse_with_errors("Bind j Nope\n\n# comment\nFoo");
    assert_eq!(result.errors.len(), 2);
    assert_eq!(result.errors[0].line_number, 1);
    assert_eq!(result.errors[1].line_number, 4);
    assert_eq!(
        result.format_errors(),
        "Configuration parsing errors:\n  Line 1: Unknown action: Nope\n  Line 4: Unknown command: Foo\n"
    );
    let ok = Config::parse_with_errors("Bind j MoveDown");
    assert_eq!(ok.format_errors(), "");
}

#[test]
fn error_text_names_the_line() {
    let e = ConfigError::new(12, String::from("Unknown command: X"));
    assert_eq!(e.text(), "Line 12: Unknown command: X");
}

#[test]
fn from_text_accepts_or_reports() {
    let config = Config::from_text("Bind x Exit").unwrap();
    assert_eq!(config.keyboard.as_slice().len(), 1);
    let err = Config::from_text("Bind x Exit\nSet Rpc perhaps").unwrap_err();
    assert_eq!(
        err,
        "Configuration parsing errors:\n  Line 2: Invalid boolean value for Rpc: 'perhaps'. Use True/False\n"
    );
    assert!(Config::from_str("Nope").is_err());
}

#[test]
fn merged_config_keeps_base_mouse_bindings_first() {
    let user = Config::parse_with_errors("MouseBind Left Selection\nMouseBind Ctrl+Right ZoomIn\nSet Rpc true").config;
    let merged = Config::merge_configs(Config::default(), &user);
    assert_eq!(merged.keyboard.as_slice().len(), 23);
    assert_eq!(merged.mouse.len(), 14);
    assert!(merged.rpc_enabled);
    let left = MouseInput { button: MouseButton::Left, modifiers: MouseModifiers::default() };
    assert_eq!(merged.get_mouse_action(left), Some(MouseAction::Panning));
    let ctrl_right = MouseInput {
        button: MouseButton::Right,
        modifiers: MouseModifiers { ctrl: true, shift: false },
    };
    assert_eq!(merged.get_mouse_action(ctrl_right), Some(MouseAction::ZoomIn));
}

#[test]
fn mouse_input_errors() {
    assert!(MouseInput::from_str("Ctrl+Nope").is_err());
    let result = Config::parse_with_errors("MouseBind Alt+Left Panning");
    assert_eq!(result.errors.len(), 1);
    assert!(result.errors[0].message.starts_with("Invalid mouse input 'Alt+Left': "));
}

#[test]
fn key_sequence_labels() {
    assert_eq!(format_key_texts(&[String::from("Ctrl+a"), String::from("b")]), "(Ctrl+a b)");
    assert_eq!(format_key_texts(&[String::from("q")]), "(q)");
    assert_eq!(format_key_texts(&[]), ")");
    let seq = KeySeq::from_str("Z Z").unwrap();
    assert_eq!(format_key_sequence(&seq), "(Z Z)");
}
