use std::str::FromStr;

use keybinds::{KeyInput, Keybind, Keybinds};
use miro_pdf::config::{BindableMessage, Config, MouseAction, MouseButton, MouseInput, MouseModifiers};

#[test]
fn config_can_parse_vim_bindings() {
    let _config = Config {
        keyboard: Keybinds::new(vec![
            Keybind::new('K', BindableMessage::PreviousPage),
            Keybind::new('L', BindableMessage::NextTab),
            Keybind::new(
                [
                    KeyInput::from_str("Ctrl+n").unwrap(),
                    KeyInput::from_str("Ctrl+w").unwrap(),
                    KeyInput::from_str("Ctrl+Plus").unwrap(),
                ],
                BindableMessage::NextTab,
            ),
        ]),
        mouse: Vec::new(),
        rpc_enabled: false,
        rpc_port: 7890,
        trackpad_sensitivity: String::from("1.0"),
        page_borders: true,
        dark_mode: true,
        invert_pdf: false,
        open_sidebar: false,
    };
}

#[test]
fn can_parse_mouse_input() {
    let input = MouseInput::from_str("Left").unwrap();
    assert_eq!(input.button, MouseButton::Left);
    assert_eq!(input.modifiers, MouseModifiers::default());

    let input = MouseInput::from_str("Middle").unwrap();
    assert_eq!(input.button, MouseButton::Middle);

    let input = MouseInput::from_str("Right").unwrap();
    assert_eq!(input.button, MouseButton::Right);

    let input = MouseInput::from_str("Ctrl+Left").unwrap();
    assert_eq!(input.button, MouseButton::Left);
    assert_eq!(input.modifiers.ctrl, true);
    assert_eq!(input.modifiers.shift, false);

    let input = MouseInput::from_str("Shift+Right").unwrap();
    assert_eq!(input.button, MouseButton::Right);
    assert_eq!(input.modifiers.ctrl, false);
    assert_eq!(input.modifiers.shift, true);

    let input = MouseInput::from_str("Ctrl+Shift+Middle").unwrap();
    assert_eq!(input.button, MouseButton::Middle);
    assert_eq!(input.modifiers.ctrl, true);
    assert_eq!(input.modifiers.shift, true);
}

#[test]
fn can_get_mouse_action() {
    let config = Config::default();

    let input = MouseInput { button: MouseButton::Left, modifiers: MouseModifiers::default() };
    assert_eq!(config.get_mouse_action(input), Some(MouseAction::Panning));

    let input = MouseInput {
        button: MouseButton::Left,
        modifiers: MouseModifiers { ctrl: false, shift: true },
    };
    assert_eq!(config.get_mouse_action(input), Some(MouseAction::Selection));

    let input = MouseInput { button: MouseButton::Middle, modifiers: MouseModifiers::default() };
    assert_eq!(config.get_mouse_action(input), Some(MouseAction::Panning));

    let input = MouseInput {
        button: MouseButton::Right,
        modifiers: MouseModifiers { ctrl: true, shift: false },
    };
    assert_eq!(config.get_mouse_action(input), None);
}

#[test]
fn error_handling_unknown_command() {
    let config_str = "UnknownCommand arg1 arg2";
    let result = Config::parse_with_errors(config_str);

    assert!(result.has_errors());
    assert_eq!(result.errors.len(), 1);
    assert_eq!(result.errors[0].line_number, 1);
    assert!(result.errors[0].message.contains("Unknown command: UnknownCommand"));
}

#[test]
fn error_handling_invalid_bind_args() {
    let config_str = "Bind j";
    let result = Config::parse_with_errors(config_str);

    assert!(result.has_errors());
    assert_eq!(result.errors.len(), 1);
    assert_eq!(result.errors[0].line_number, 1);
    assert!(result.errors[0].message.contains("Bind command requires exactly 2 arguments"));
}

#[test]
fn error_handling_invalid_action() {
    let config_str = "Bind j InvalidAction";
    let result = Config::parse_with_errors(config_str);

    assert!(result.has_errors());
    assert_eq!(result.errors.len(), 1);
    assert_eq!(result.errors[0].line_number, 1);
    assert!(result.errors[0].message.contains("Unknown action: InvalidAction"));
}

#[test]
fn error_handling_invalid_mouse_input() {
    let config_str = "MouseBind InvalidMouse Panning";
    let result = Config::parse_with_errors(config_str);

    assert!(result.has_errors());
    assert_eq!(result.errors.len(), 1);
    assert_eq!(result.errors[0].line_number, 1);
    assert!(result.errors[0].message.contains("Invalid mouse input 'InvalidMouse'"));
}

#[test]
fn error_handling_invalid_set_value() {
    let config_str = "Set RpcPort invalid_port";
    let result = Config::parse_with_errors(config_str);

    assert!(result.has_errors());
    assert_eq!(result.errors.len(), 1);
    assert_eq!(result.errors[0].line_number, 1);
    assert!(result.errors[0].message.contains("Invalid port number: 'invalid_port'"));
}

#[test]
fn error_handling_multiple_errors() {
    let config_str = r#"
Bind j InvalidAction
UnknownCommand arg1
Set RpcPort invalid_port
Bind k MoveUp
MouseBind InvalidMouse Panning
"#;
    let result = Config::parse_with_errors(config_str);

    assert!(result.has_errors());
    assert_eq!(result.errors.len(), 4);

    assert!(!result.config.keyboard.as_slice().is_empty());
}

#[test]
fn error_handling_unterminated_quotes() {
    let config_str = r#"Bind "unterminated quote MoveUp"#;
    let result = Config::parse_with_errors(config_str);

    assert!(result.has_errors());
    assert_eq!(result.errors.len(), 1);
    assert_eq!(result.errors[0].line_number, 1);
    assert!(result.errors[0].message.contains("Unterminated quoted string"));
}

#[test]
fn error_handling_skips_comments_and_empty_lines() {
    let config_str = r#"
# This is a comment
Bind j MoveDown

# Another comment
Bind k MoveUp
"#;
    let result = Config::parse_with_errors(config_str);

    assert!(!result.has_errors());
    assert_eq!(result.config.keyboard.as_slice().len(), 2);
}

#[test]
fn demonstrate_colored_error_output() {
    let config_str = r#"
Bind j InvalidAction
UnknownCommand arg1
Set RpcPort invalid_port
"#;
    let result = Config::parse_with_errors(config_str);

    assert!(result.has_errors());
    assert_eq!(result.errors.len(), 3);

    let formatted = result.format_errors();
    println!("\n{}", formatted);

    assert!(formatted.contains("Configuration parsing errors:"));
    assert!(formatted.contains("Line 2:"));
    assert!(formatted.contains("Line 3:"));
    assert!(formatted.contains("Line 4:"));
}

#[test]
fn can_parse_trackpad_sensitivity() {
    let config_str = "Set TrackpadSensitivity 0.5";
    let result = Config::parse_with_errors(config_str);

    assert!(!result.has_errors());
    assert_eq!(result.config.trackpad_sensitivity.parse::<f32>().unwrap(), 0.5);
}

#[test]
fn error_handling_invalid_trackpad_sensitivity() {
    let config_str = "Set TrackpadSensitivity invalid";
    let result = Config::parse_with_errors(config_str);

    assert!(result.has_errors());
    assert_eq!(result.errors.len(), 1);
    assert!(result.errors[0].message.contains("Invalid float value for TrackpadSensitivity"));
}

const DEFAULT_CONF: &str = r#"# The default configuration
Bind j MoveDown
Bind k MoveUp
Bind h MoveLeft
Bind l MoveRight
Bind J NextPage
Bind K PreviousPage
Bind H PreviousTab
Bind L NextTab
Bind Alt+Left JumpBack
Bind Alt+Right JumpForward
Bind 0 ZoomHome
Bind _ ZoomFit
Bind - ZoomOut
Bind Plus ZoomIn
Bind Ctrl+r ToggleDarkModePdf
Bind Ctrl+i ToggleDarkModeUi
Bind Ctrl+b ToggleSidebar
Bind Ctrl+l ToggleLinkHitboxes
Bind Ctrl+k TogglePageBorders
Bind Ctrl+o OpenFileFinder
Bind Ctrl+p PrintPdf
Bind "Z Z" CloseTab
Bind q Exit

MouseBind Left Panning
MouseBind Shift+Left Selection
MouseBind Middle Panning
MouseBind Right Selection
MouseBind Forward NextPage
MouseBind Back PreviousPage
MouseBind ScrollUp MoveUp
MouseBind ScrollDown MoveDown
MouseBind Ctrl+ScrollUp ZoomIn
MouseBind Ctrl+ScrollDown ZoomOut
MouseBind Shift+ScrollUp MoveLeft
MouseBind Shift+ScrollDown MoveRight

Set Rpc False
Set RpcPort 7890
Set TrackpadSensitivity 1.0
"#;

#[test]
fn config_can_parse_config_file() {
    let contents = DEFAULT_CONF;
    let config = Config::from_str(contents).unwrap();
    let binds = config.keyboard.into_vec();
    let default_cfg = Config::default();
    let default_binds = default_cfg.keyboard.into_vec();
    assert_eq!(binds.len(), default_binds.len());
    for (b1, b2) in binds.iter().zip(default_binds) {
        assert_eq!(b1.seq, b2.seq);
        assert_eq!(b1.action, b2.action);
    }

    assert_eq!(config.mouse.len(), default_cfg.mouse.len());
    for (b1, b2) in config.mouse.iter().zip(default_cfg.mouse.iter()) {
        assert_eq!(b1.0, b2.0);
        assert_eq!(b1.1, b2.1);
    }

    assert_eq!(config.rpc_enabled, default_cfg.rpc_enabled);
    assert_eq!(config.rpc_port, default_cfg.rpc_port);
    assert_eq!(config.trackpad_sensitivity, default_cfg.trackpad_sensitivity);
}
