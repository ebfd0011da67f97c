use global_hotkey::hotkey::{Code, HotKey, Modifiers};
use shortcut_registry::error::{RegistrationError, ShortcutError};
use shortcut_registry::registry::{
    advance, get_current_shortcut, register_shortcut, ShortcutRegistry, Swap,
};
use shortcut_registry::token::ShortcutToken;
use shortcut_registry::trigger::{on_key_event, KeyState};

/// A stand-in for the platform's facility: it makes a hotkey of the text that
/// it is handed, keeps the registered hotkeys, refuses what it is told to
/// refuse, and writes down what it was asked.
struct Facility {
    registered: Vec<HotKey>,
    refused: Vec<String>,
    refuses_release: bool,
    asked: Vec<String>,
}

impl Facility {
    fn new() -> Facility {
        Facility { registered: Vec::new(), refused: Vec::new(), refuses_release: false, asked: Vec::new() }
    }

    fn refusing(texts: &[&str]) -> Facility {
        let mut facility = Facility::new();
        facility.refused = texts.iter().map(|text| text.to_string()).collect();
        facility
    }

    fn register(&mut self, token: &ShortcutToken) -> Result<(), String> {
        self.asked.push(format!("register {}", token.canonical()));
        if self.refused.iter().any(|text| text == token.canonical()) {
            return Err(format!("Unable to register hotkey: {}", token.canonical()));
        }
        let hotkey = HotKey::try_from(token.canonical()).map_err(|error| error.to_string())?;
        if self.registered.contains(&hotkey) {
            return Err(format!("HotKey already registered: {}", token.canonical()));
        }
        self.registered.push(hotkey);
        Ok(())
    }

    fn unregister(&mut self, token: &ShortcutToken) -> Result<(), String> {
        self.asked.push(format!("unregister {}", token.canonical()));
        let hotkey = HotKey::try_from(token.canonical()).map_err(|error| error.to_string())?;
        if self.refuses_release || !self.registered.contains(&hotkey) {
            return Err(format!("Failed to unregister hotkey: {}", token.canonical()));
        }
        self.registered.retain(|held| *held != hotkey);
        Ok(())
    }
}

fn drive(facility: &mut Facility, begun: Swap) -> (ShortcutRegistry, Result<bool, ShortcutError>) {
    let mut swap = begun;
    loop {
        let answer = match &swap {
            Swap::Releasing { token, .. } => facility.unregister(token),
            Swap::Claiming { token, .. } => facility.register(token),
            Swap::Restoring { token, .. } => facility.register(token),
            Swap::Done { .. } => break,
        };
        swap = advance(swap, answer);
    }
    match swap {
        Swap::Done { registry, result } => (registry, result),
        _ => unreachable!(),
    }
}

fn set(
    facility: &mut Facility,
    registry: ShortcutRegistry,
    shortcut: &str,
) -> (ShortcutRegistry, Result<bool, ShortcutError>) {
    drive(facility, register_shortcut(registry, shortcut.to_string()))
}

fn cmd_shift_e() -> HotKey {
    HotKey::new(Some(Modifiers::SUPER | Modifiers::SHIFT), Code::KeyE)
}

fn alt_q() -> HotKey {
    HotKey::new(Some(Modifiers::ALT), Code::KeyQ)
}

#[test]
fn new_registry_reports_nothing() {
    assert_eq!(get_current_shortcut(&ShortcutRegistry::new()), None);
    assert_eq!(get_current_shortcut(&ShortcutRegistry::default()), None);
}

#[test]
fn registered_shortcut_is_reported_and_its_press_raises_one_event() {
    let mut facility = Facility::new();
    let (registry, result) = set(&mut facility, ShortcutRegistry::new(), "CmdOrCtrl+Shift+E");
    assert_eq!(result, Ok(true));
    assert_eq!(get_current_shortcut(&registry), Some("CmdOrCtrl+Shift+E".to_string()));
    assert_eq!(facility.registered, vec![cmd_shift_e()]);
    assert_eq!(facility.asked, vec!["register Cmd+Shift+KeyE"]);

    let raised: Vec<&str> = [KeyState::Pressed, KeyState::Released]
        .into_iter()
        .filter_map(on_key_event)
        .collect();
    assert_eq!(raised, vec!["trigger-screenshot"]);
}

#[test]
fn invalid_string_after_a_valid_one_leaves_the_old_one_reported() {
    let mut facility = Facility::new();
    let (registry, _) = set(&mut facility, ShortcutRegistry::new(), "CmdOrCtrl+Shift+E");
    let (registry, result) = set(&mut facility, registry, "");
    match result {
        Err(ShortcutError::Parse(error)) => assert_eq!(error.canonical(), ""),
        other => panic!("expected a parse error, got {other:?}"),
    }
    let current = get_current_shortcut(&registry);
    assert_ne!(current, Some(String::new()));
    assert_eq!(current, Some("CmdOrCtrl+Shift+E".to_string()));
    assert_eq!(facility.asked, vec!["register Cmd+Shift+KeyE", "unregister Cmd+Shift+KeyE"]);
}

#[test]
fn invalid_string_after_a_release_leaves_no_hotkey_registered() {
    let mut facility = Facility::new();
    let (registry, _) = set(&mut facility, ShortcutRegistry::new(), "CmdOrCtrl+Shift+E");
    let (registry, result) = set(&mut facility, registry, "Cmd+Shift+Banana");
    assert!(matches!(result, Err(ShortcutError::Parse(_))));
    assert_eq!(get_current_shortcut(&registry), Some("CmdOrCtrl+Shift+E".to_string()));
    assert!(facility.registered.is_empty());
}

#[test]
fn invalid_string_on_a_new_registry_leaves_it_empty() {
    let mut facility = Facility::new();
    let (registry, result) = set(&mut facility, ShortcutRegistry::new(), "");
    assert!(matches!(result, Err(ShortcutError::Parse(_))));
    assert_eq!(get_current_shortcut(&registry), None);
    assert!(facility.asked.is_empty());
}

#[test]
fn successful_swap_replaces_the_old_hotkey() {
    let mut facility = Facility::new();
    let (registry, _) = set(&mut facility, ShortcutRegistry::new(), "CmdOrCtrl+Shift+E");
    let (registry, result) = set(&mut facility, registry, "Alt+q");
    assert_eq!(result, Ok(true));
    assert_eq!(get_current_shortcut(&registry), Some("Alt+q".to_string()));
    assert_eq!(facility.registered, vec![alt_q()]);
    assert_eq!(
        facility.asked,
        vec!["register Cmd+Shift+KeyE", "unregister Cmd+Shift+KeyE", "register Alt+KeyQ"]
    );
}

#[test]
fn refused_claim_restores_the_old_hotkey() {
    let mut facility = Facility::refusing(&["Alt+KeyQ"]);
    let (registry, _) = set(&mut facility, ShortcutRegistry::new(), "CmdOrCtrl+Shift+E");
    let (registry, result) = set(&mut facility, registry, "Alt+Q");
    assert_eq!(
        result,
        Err(ShortcutError::Registration(RegistrationError::new(
            "Unable to register hotkey: Alt+KeyQ".to_string()
        )))
    );
    assert_eq!(
        result.unwrap_err().message(),
        "快捷键格式无效或已被占用: Unable to register hotkey: Alt+KeyQ"
    );
    assert_eq!(get_current_shortcut(&registry), Some("CmdOrCtrl+Shift+E".to_string()));
    assert_eq!(facility.registered, vec![cmd_shift_e()]);
    assert_eq!(
        facility.asked,
        vec![
            "register Cmd+Shift+KeyE",
            "unregister Cmd+Shift+KeyE",
            "register Alt+KeyQ",
            "register Cmd+Shift+KeyE"
        ]
    );
}

#[test]
fn refused_claim_and_refused_restore_report_the_claim() {
    let mut facility = Facility::new();
    let (registry, _) = set(&mut facility, ShortcutRegistry::new(), "CmdOrCtrl+Shift+E");
    facility.refused = vec!["Alt+KeyQ".to_string(), "Cmd+Shift+KeyE".to_string()];
    let (registry, result) = set(&mut facility, registry, "Alt+Q");
    match result {
        Err(ShortcutError::Registration(error)) => {
            assert_eq!(error.reason(), "Unable to register hotkey: Alt+KeyQ")
        }
        other => panic!("expected a registration error, got {other:?}"),
    }
    assert_eq!(get_current_shortcut(&registry), Some("CmdOrCtrl+Shift+E".to_string()));
    assert!(facility.registered.is_empty());
}

#[test]
fn refused_claim_on_a_new_registry_leaves_it_empty() {
    let mut facility = Facility::refusing(&["Alt+KeyQ"]);
    let (registry, result) = set(&mut facility, ShortcutRegistry::new(), "Alt+Q");
    assert!(matches!(result, Err(ShortcutError::Registration(_))));
    assert_eq!(get_current_shortcut(&registry), None);
    assert_eq!(facility.asked, vec!["register Alt+KeyQ"]);
}

#[test]
fn refused_release_is_passed_over() {
    let mut facility = Facility::new();
    let (registry, _) = set(&mut facility, ShortcutRegistry::new(), "CmdOrCtrl+Shift+E");
    facility.refuses_release = true;
    let (registry, result) = set(&mut facility, registry, "Alt+Q");
    assert_eq!(result, Ok(true));
    assert_eq!(get_current_shortcut(&registry), Some("Alt+Q".to_string()));
    assert_eq!(facility.registered, vec![cmd_shift_e(), alt_q()]);
}

#[test]
fn refused_request_for_the_active_shortcut_keeps_it() {
    let mut facility = Facility::new();
    let (registry, _) = set(&mut facility, ShortcutRegistry::new(), "Alt+Q");
    facility.refuses_release = true;
    let (registry, result) = set(&mut facility, registry, "Alt+Q");
    assert!(matches!(result, Err(ShortcutError::Registration(_))));
    assert_eq!(get_current_shortcut(&registry), Some("Alt+Q".to_string()));
    assert_eq!(facility.registered, vec![alt_q()]);
}

#[test]
fn reported_shortcut_stays_registered_over_many_requests() {
    let mut facility = Facility::refusing(&["Ctrl+KeyB"]);
    let mut registry = ShortcutRegistry::new();
    for shortcut in ["CmdOrCtrl+Shift+E", "Ctrl+b", "Alt+Q", "Alt+Q", "Shift+F1", "Ctrl+B"] {
        let (next, _) = set(&mut facility, registry, shortcut);
        registry = next;
        let current = get_current_shortcut(&registry).unwrap();
        let token = shortcut_registry::token::parse(&current).unwrap();
        let hotkey = HotKey::try_from(token.canonical()).unwrap();
        assert!(facility.registered.contains(&hotkey), "after {shortcut:?}");
        assert_eq!(facility.registered.len(), 1, "after {shortcut:?}");
    }
    assert_eq!(get_current_shortcut(&registry), Some("Shift+F1".to_string()));
}

#[test]
fn swap_on_a_new_registry_begins_with_the_claim() {
    match register_shortcut(ShortcutRegistry::new(), "CmdOrCtrl+Shift+E".to_string()) {
        Swap::Claiming { registry, requested, token } => {
            assert_eq!(get_current_shortcut(&registry), None);
            assert_eq!(requested, "CmdOrCtrl+Shift+E");
            assert_eq!(token.canonical(), "Cmd+Shift+KeyE");
        }
        other => panic!("expected the claim, got {other:?}"),
    }
}

#[test]
fn swap_on_an_active_registry_begins_with_the_release() {
    let mut facility = Facility::new();
    let (registry, _) = set(&mut facility, ShortcutRegistry::new(), "CmdOrCtrl+Shift+E");
    match register_shortcut(registry, "".to_string()) {
        Swap::Releasing { registry, requested, token } => {
            assert_eq!(get_current_shortcut(&registry), Some("CmdOrCtrl+Shift+E".to_string()));
            assert_eq!(requested, "");
            assert_eq!(token.canonical(), "Cmd+Shift+KeyE");
        }
        other => panic!("expected the release, got {other:?}"),
    }
}

#[test]
fn refused_claim_goes_on_to_the_restoring_stage() {
    let mut facility = Facility::new();
    let (registry, _) = set(&mut facility, ShortcutRegistry::new(), "CmdOrCtrl+Shift+E");
    let releasing = register_shortcut(registry, "Alt+Q".to_string());
    let claiming = advance(releasing, Ok(()));
    assert!(matches!(claiming, Swap::Claiming { .. }));
    match advance(claiming, Err("taken".to_string())) {
        Swap::Restoring { registry, token, failure } => {
            assert_eq!(get_current_shortcut(&registry), Some("CmdOrCtrl+Shift+E".to_string()));
            assert_eq!(token.canonical(), "Cmd+Shift+KeyE");
            assert_eq!(failure, "taken");
        }
        other => panic!("expected the restoring stage, got {other:?}"),
    }
}

#[test]
fn finished_swap_takes_no_more_answers() {
    let mut facility = Facility::new();
    let (registry, result) = set(&mut facility, ShortcutRegistry::new(), "Alt+Q");
    let done = Swap::Done { registry, result };
    let after_ok = advance(done, Ok(()));
    match &after_ok {
        Swap::Done { registry, result } => {
            assert_eq!(get_current_shortcut(registry), Some("Alt+Q".to_string()));
            assert_eq!(*result, Ok(true));
        }
        other => panic!("expected a finished swap, got {other:?}"),
    }
    let after_err = advance(after_ok, Err("late".to_string()));
    assert!(matches!(after_err, Swap::Done { result: Ok(true), .. }));
}

#[test]
fn swap_is_over_after_three_answers_at_most() {
    let mut facility = Facility::new();
    let (registry, _) = set(&mut facility, ShortcutRegistry::new(), "CmdOrCtrl+Shift+E");
    let mut swap = register_shortcut(registry, "Alt+Q".to_string());
    for _ in 0..3 {
        swap = advance(swap, Err("no".to_string()));
    }
    assert!(matches!(swap, Swap::Done { result: Err(ShortcutError::Registration(_)), .. }));
}

#[test]
fn parse_error_message_is_the_one_the_caller_is_shown() {
    let mut facility = Facility::new();
    let (_, result) = set(&mut facility, ShortcutRegistry::new(), "Cmd++e");
    assert_eq!(
        result.unwrap_err().message(),
        "无效的快捷键 'Cmd++KeyE': Found empty token while parsing hotkey: Cmd++KeyE"
    );
}
