use wisplet::launcher::{
    fallback_hotkey, CascadeAction, LauncherEvent, LauncherState, Response, SetHotkeyStep, Toggle,
};

fn set(state: &mut LauncherState, combo: &str, parsed: Result<u32, String>, registered: Result<(), String>) -> (Result<String, String>, bool) {
    match state.begin_set_hotkey(combo, parsed) {
        SetHotkeyStep::Done(r) => (r, false),
        SetHotkeyStep::Register(id) => {
            let (r, _old) = state.finish_set_hotkey(combo.to_string(), id, registered);
            (r, true)
        }
    }
}

#[test]
fn fresh_state() {
    let s = LauncherState::new();
    assert!(!s.fullsize());
    assert!(!s.hide_suppressed());
    assert_eq!(s.get_current_hotkey(), None);
    assert_eq!(s.current_shortcut(), None);
}

#[test]
fn preferences_read_back() {
    let mut s = LauncherState::new();
    assert!(s.set_fullsize_pref(true, true));
    assert!(s.fullsize());
    assert!(!s.set_fullsize_pref(false, false));
    assert!(!s.fullsize());
    s.set_hide_suppressed(true);
    assert!(s.hide_suppressed());
}

#[test]
fn bad_format_is_reported() {
    let mut s = LauncherState::new();
    let (r, registered) = set(&mut s, "Alt+Nope", Err("unknown key".to_string()), Ok(()));
    assert_eq!(r, Err("Format invalide (Alt+Nope): unknown key".to_string()));
    assert!(!registered);
    assert_eq!(s.get_current_hotkey(), None);
}

#[test]
fn taken_hotkey_keeps_the_old_one() {
    let mut s = LauncherState::new();
    assert_eq!(set(&mut s, "Alt+Space", Ok(1), Ok(())).0, Ok("Alt+Space".to_string()));
    let (r, registered) = set(&mut s, "Ctrl+K", Ok(2), Err("already registered".to_string()));
    assert!(registered);
    assert_eq!(r, Err("Hotkey déjà pris (Ctrl+K): already registered".to_string()));
    assert_eq!(s.get_current_hotkey(), Some("Alt+Space".to_string()));
    assert_eq!(s.current_shortcut(), Some(1));
}

#[test]
fn accepted_change_replaces_the_old_hotkey() {
    let mut s = LauncherState::new();
    set(&mut s, "Alt+Space", Ok(1), Ok(()));
    match s.begin_set_hotkey("Ctrl+K", Ok(2)) {
        SetHotkeyStep::Register(id) => {
            assert_eq!(id, 2);
            let (r, old) = s.finish_set_hotkey("Ctrl+K".to_string(), id, Ok(()));
            assert_eq!(r, Ok("Ctrl+K".to_string()));
            let old = old.expect("the replaced hotkey");
            assert_eq!(old.id, 1);
            assert_eq!(old.combo, "Alt+Space");
        }
        SetHotkeyStep::Done(_) => panic!("expected a registration"),
    }
    assert_eq!(s.get_current_hotkey(), Some("Ctrl+K".to_string()));
}

#[test]
fn same_hotkey_again_is_answered_at_once() {
    let mut s = LauncherState::new();
    set(&mut s, "Alt+Space", Ok(7), Ok(()));
    let (r, registered) = set(&mut s, "alt+space", Ok(7), Err("would fail".to_string()));
    assert_eq!(r, Ok("alt+space".to_string()));
    assert!(!registered);
    assert_eq!(s.get_current_hotkey(), Some("Alt+Space".to_string()));
}

#[test]
fn fallback_list() {
    assert_eq!(fallback_hotkey(0), Some("Alt+Space"));
    assert_eq!(fallback_hotkey(1), Some("Ctrl+Alt+Space"));
    assert_eq!(fallback_hotkey(2), Some("Ctrl+Shift+Space"));
    assert_eq!(fallback_hotkey(3), None);
}

fn run_cascade(outcomes: &[Option<u32>]) -> (LauncherState, Vec<String>, bool) {
    let mut s = LauncherState::new();
    let mut tried = 0usize;
    let mut last = None;
    let mut attempts = Vec::new();
    loop {
        match s.next_fallback(tried, last) {
            CascadeAction::Try(combo) => {
                attempts.push(combo);
                last = outcomes[tried];
                tried += 1;
            }
            CascadeAction::Adopted => return (s, attempts, false),
            CascadeAction::Surface => return (s, attempts, true),
        }
    }
}

#[test]
fn first_free_fallback_wins() {
    let (s, attempts, surfaced) = run_cascade(&[None, Some(11), Some(12)]);
    assert_eq!(attempts, vec!["Alt+Space", "Ctrl+Alt+Space"]);
    assert!(!surfaced);
    assert_eq!(s.get_current_hotkey(), Some("Ctrl+Alt+Space".to_string()));
    assert_eq!(s.current_shortcut(), Some(11));

    let (s, attempts, _) = run_cascade(&[Some(5), None, None]);
    assert_eq!(attempts, vec!["Alt+Space"]);
    assert_eq!(s.get_current_hotkey(), Some("Alt+Space".to_string()));
}

#[test]
fn all_fallbacks_taken_surfaces_the_window() {
    let (s, attempts, surfaced) = run_cascade(&[None, None, None]);
    assert_eq!(attempts.len(), 3);
    assert!(surfaced);
    assert_eq!(s.get_current_hotkey(), None);
}

#[test]
fn event_responses() {
    let mut s = LauncherState::new();
    assert_eq!(s.respond(&LauncherEvent::ShortcutPressed), Response::Toggle);
    assert_eq!(s.respond(&LauncherEvent::ShortcutReleased), Response::Ignore);
    assert_eq!(s.respond(&LauncherEvent::TrayMenu("show".to_string())), Response::Toggle);
    assert_eq!(s.respond(&LauncherEvent::TrayMenu("quit".to_string())), Response::Quit);
    assert_eq!(s.respond(&LauncherEvent::TrayMenu("other".to_string())), Response::Ignore);
    assert_eq!(s.respond(&LauncherEvent::TrayClick { left: true, released: true }), Response::Toggle);
    assert_eq!(s.respond(&LauncherEvent::TrayClick { left: true, released: false }), Response::Ignore);
    assert_eq!(s.respond(&LauncherEvent::TrayClick { left: false, released: true }), Response::Ignore);
    assert_eq!(s.respond(&LauncherEvent::FocusLost), Response::AnimateOut);
    s.set_hide_suppressed(true);
    assert_eq!(s.respond(&LauncherEvent::FocusLost), Response::Ignore);
}

#[test]
fn toggling() {
    let mut s = LauncherState::new();
    assert_eq!(s.toggle(false, false), Toggle::Nothing);
    assert_eq!(s.toggle(true, true), Toggle::AnimateOut);
    assert_eq!(s.toggle(true, false), Toggle::Reveal { fullsize: false });
    s.set_fullsize_pref(true, false);
    assert_eq!(s.toggle(true, false), Toggle::Reveal { fullsize: true });
}

#[test]
fn hotkey_changes_keep_preferences() {
    let mut s = LauncherState::new();
    s.set_fullsize_pref(true, false);
    s.set_hide_suppressed(true);
    set(&mut s, "Alt+Space", Ok(3), Ok(()));
    set(&mut s, "Ctrl+K", Ok(4), Err("taken".to_string()));
    assert!(s.fullsize());
    assert!(s.hide_suppressed());
}
