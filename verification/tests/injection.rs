use openwhisper_shell::injection::{
    InjectAction, InjectError, Injection, KeyInput, KeyMotion, CLIPBOARD_SETTLE_MILLIS,
    PASTE_THROTTLE_MILLIS,
};

/// A mock of the world an injection touches: clipboard text, keystrokes sent,
/// and which actions are made to fail.
struct MockWorld {
    clipboard: Option<String>,
    keys: Vec<(KeyInput, KeyMotion)>,
    clipboard_fails: bool,
    backend_init_fails: bool,
    keys_fail_from: Option<usize>,
    actions_seen: Vec<InjectAction>,
}

impl MockWorld {
    fn new() -> MockWorld {
        MockWorld {
            clipboard: None,
            keys: Vec::new(),
            clipboard_fails: false,
            backend_init_fails: false,
            keys_fail_from: None,
            actions_seen: Vec::new(),
        }
    }

    fn perform(&mut self, text: &str, action: InjectAction) -> bool {
        self.actions_seen.push(action);
        match action {
            InjectAction::WriteClipboard => {
                if self.clipboard_fails {
                    false
                } else {
                    self.clipboard = Some(text.to_string());
                    true
                }
            }
            InjectAction::Pause { millis: _ } => true,
            InjectAction::InitBackend => !self.backend_init_fails,
            InjectAction::SendKey { key, motion } => {
                if let Some(n) = self.keys_fail_from {
                    if self.keys.len() >= n {
                        return false;
                    }
                }
                self.keys.push((key, motion));
                true
            }
        }
    }
}

fn drive(mut machine: Injection, world: &mut MockWorld) -> Result<(), InjectError> {
    loop {
        match machine.pending_action() {
            Some(action) => {
                let text = machine.text().to_string();
                let ok = world.perform(&text, action);
                machine.advance(ok);
            }
            None => {
                return machine.outcome().expect("a stopped attempt has an outcome");
            }
        }
    }
}

fn paste_chord() -> Vec<(KeyInput, KeyMotion)> {
    vec![
        (KeyInput::Modifier, KeyMotion::Press),
        (KeyInput::PasteKey, KeyMotion::Click),
        (KeyInput::Modifier, KeyMotion::Release),
    ]
}

#[test]
fn successful_injection_sets_clipboard_and_sends_chord() {
    let mut world = MockWorld::new();
    let machine = Injection::begin(String::from("hello world"), false);
    let outcome = drive(machine, &mut world);
    assert_eq!(outcome, Ok(()));
    assert_eq!(world.clipboard, Some(String::from("hello world")));
    assert_eq!(world.keys, paste_chord());
}

#[test]
fn successful_injection_of_empty_text() {
    let mut world = MockWorld::new();
    let machine = Injection::begin(String::new(), true);
    let outcome = drive(machine, &mut world);
    assert_eq!(outcome, Ok(()));
    assert_eq!(world.clipboard, Some(String::new()));
    assert_eq!(world.keys, paste_chord());
}

#[test]
fn ready_backend_is_not_reinitialized() {
    let mut world = MockWorld::new();
    let machine = Injection::begin(String::from("x"), true);
    let outcome = drive(machine, &mut world);
    assert_eq!(outcome, Ok(()));
    assert!(!world.actions_seen.contains(&InjectAction::InitBackend));
}

#[test]
fn pauses_use_the_documented_durations() {
    let mut world = MockWorld::new();
    let machine = Injection::begin(String::from("x"), true);
    drive(machine, &mut world).unwrap();
    let pauses: Vec<u64> = world
        .actions_seen
        .iter()
        .filter_map(|a| match a {
            InjectAction::Pause { millis } => Some(*millis),
            _ => None,
        })
        .collect();
    assert_eq!(pauses, vec![CLIPBOARD_SETTLE_MILLIS, PASTE_THROTTLE_MILLIS]);
}

#[test]
fn clipboard_failure_aborts_before_any_keystroke() {
    let mut world = MockWorld::new();
    world.clipboard_fails = true;
    let machine = Injection::begin(String::from("secret"), true);
    let outcome = drive(machine, &mut world);
    assert_eq!(outcome, Err(InjectError::ClipboardUnavailable));
    assert_eq!(world.clipboard, None);
    assert!(world.keys.is_empty());
    assert!(world
        .actions_seen
        .iter()
        .all(|a| !matches!(a, InjectAction::SendKey { .. })));
}

#[test]
fn backend_init_failure_is_reported_and_retried_next_call() {
    let mut world = MockWorld::new();
    world.backend_init_fails = true;
    let mut machine = Injection::begin(String::from("x"), false);
    loop {
        match machine.pending_action() {
            Some(action) => {
                let ok = world.perform("x", action);
                machine.advance(ok);
            }
            None => break,
        }
    }
    assert_eq!(machine.outcome(), Some(Err(InjectError::BackendInitFailed)));
    // The backend is left uninitialized, so the next attempt tries again.
    assert!(!machine.backend_ready());
    let retry = Injection::begin(String::from("x"), machine.backend_ready());
    let mut world2 = MockWorld::new();
    let outcome = drive(retry, &mut world2);
    assert_eq!(outcome, Ok(()));
    assert!(world2.actions_seen.contains(&InjectAction::InitBackend));
}

#[test]
fn keystroke_failure_aborts_the_remaining_chord() {
    let mut world = MockWorld::new();
    world.keys_fail_from = Some(1);
    let machine = Injection::begin(String::from("x"), true);
    let outcome = drive(machine, &mut world);
    assert_eq!(outcome, Err(InjectError::KeystrokeSynthesisFailed));
    assert_eq!(world.keys, vec![(KeyInput::Modifier, KeyMotion::Press)]);
}

#[test]
fn error_messages_are_human_readable() {
    assert_eq!(
        InjectError::ClipboardUnavailable.message(),
        "failed to write the clipboard"
    );
    assert_eq!(
        InjectError::BackendInitFailed.message(),
        "failed to initialize the keystroke backend"
    );
    assert_eq!(
        InjectError::KeystrokeSynthesisFailed.message(),
        "failed to send a paste keystroke"
    );
}

#[test]
fn modifier_press_failure_sends_nothing() {
    let mut world = MockWorld::new();
    world.keys_fail_from = Some(0);
    let machine = Injection::begin(String::from("x"), true);
    let outcome = drive(machine, &mut world);
    assert_eq!(outcome, Err(InjectError::KeystrokeSynthesisFailed));
    assert!(world.keys.is_empty());
    // The clipboard write had already succeeded.
    assert_eq!(world.clipboard, Some(String::from("x")));
}
