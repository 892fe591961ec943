use crossterm::event::{KeyCode, KeyEvent, KeyEventKind, KeyModifiers};
use rucola::config::loaded_or_default;
use rucola::message::{Message, TerminalMessage};
use rucola::navigation::Mode;
use rucola::terminal::pressed;

#[test]
fn pressed_tells_the_three_kinds_apart() {
    let code = KeyCode::Char('a');
    assert!(pressed(&KeyEvent::new(code, KeyModifiers::NONE)));
    assert!(pressed(&KeyEvent::new_with_kind(code, KeyModifiers::SHIFT, KeyEventKind::Press)));
    assert!(!pressed(&KeyEvent::new_with_kind(code, KeyModifiers::NONE, KeyEventKind::Repeat)));
    assert!(!pressed(&KeyEvent::new_with_kind(code, KeyModifiers::NONE, KeyEventKind::Release)));
}

#[test]
fn message_clone_is_equal() {
    let all = vec![
        Message::Nothing,
        Message::Quit,
        Message::OpenExternalCommand("vim".to_string()),
        Message::DisplayStackClear,
        Message::DisplayStackPop,
        Message::DisplayStackPush("a".to_string()),
    ];
    for (i, msg) in all.iter().enumerate() {
        assert_eq!(&msg.clone(), msg);
        for (j, other) in all.iter().enumerate() {
            assert_eq!(msg == other, i == j);
        }
    }
    assert_ne!(Message::DisplayStackPush("a".to_string()), Message::DisplayStackPush("b".to_string()));
}

#[test]
fn terminal_message_clone_is_equal() {
    let all = vec![
        TerminalMessage::Nothing,
        TerminalMessage::Quit,
        TerminalMessage::OpenExternalCommand("vim".to_string()),
    ];
    for (i, msg) in all.iter().enumerate() {
        assert_eq!(&msg.clone(), msg);
        for (j, other) in all.iter().enumerate() {
            assert_eq!(msg == other, i == j);
        }
    }
    assert_ne!(
        TerminalMessage::OpenExternalCommand("a".to_string()),
        TerminalMessage::OpenExternalCommand("b".to_string())
    );
}

#[test]
fn modes_differ() {
    assert_ne!(Mode::Selecting, Mode::Displaying);
    assert_eq!(Mode::Displaying.clone(), Mode::Displaying);
}

#[derive(Debug, PartialEq)]
struct Settings {
    vault: String,
    depth: u8,
}

impl Default for Settings {
    fn default() -> Self {
        Settings { vault: ".".to_string(), depth: 3 }
    }
}

#[test]
fn a_loaded_configuration_is_kept() {
    let loaded: Result<Settings, String> = Ok(Settings { vault: "/notes".to_string(), depth: 7 });
    assert_eq!(loaded_or_default(loaded), Settings { vault: "/notes".to_string(), depth: 7 });
}

#[test]
fn a_failed_load_gives_the_default() {
    let loaded: Result<Settings, String> = Err("no file".to_string());
    assert_eq!(loaded_or_default(loaded), Settings { vault: ".".to_string(), depth: 3 });
}

#[test]
fn an_empty_loaded_configuration_is_kept() {
    let loaded: Result<Settings, u8> = Ok(Settings { vault: String::new(), depth: 0 });
    assert_eq!(loaded_or_default(loaded), Settings { vault: String::new(), depth: 0 });
}
