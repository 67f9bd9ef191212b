//! The global-shortcut dispatch table: two fixed key combinations, each bound
//! to one application-wide notification, fired on the key-down transition
//! only. Registration with the operating system happens outside this crate;
//! this module owns the table itself, the decision when a notification is
//! owed, and the verdict on a registration round.
use vstd::prelude::*;

verus! {

/// How many global shortcuts the application binds.
pub const SHORTCUT_COUNT: usize = 2;

/// The transition a shortcut event reports.
#[derive(Clone, Copy, Debug, PartialEq, Eq, Structural)]
pub enum KeyTransition {
    Pressed,
    Released,
}

/// A startup step that must not fail silently.
#[derive(Clone, Copy, Debug, PartialEq, Eq, Structural)]
pub enum StartupError {
    /// The shortcut at this table position could not be registered, most
    /// often because another process already owns the combination.
    ShortcutRegistrationFailed { index: usize },
    /// The tray icon or its menu could not be built.
    TrayConstructionFailed,
}

impl StartupError {
    /// The human-readable message that a failed startup aborts with.
    pub fn message(&self) -> (s: &'static str)
        ensures
            *self is ShortcutRegistrationFailed ==> s@
                == "failed to register a global shortcut"@,
            *self is TrayConstructionFailed ==> s@ == "failed to create the system tray"@,
    {
        match self {
            StartupError::ShortcutRegistrationFailed { index: _ } => {
                "failed to register a global shortcut"
            },
            StartupError::TrayConstructionFailed => "failed to create the system tray",
        }
    }
}

/// The key combination at each table position.
pub open spec fn spec_shortcut_combo(i: int) -> Seq<char> {
    if i == 0 {
        "ctrl+shift+d"@
    } else {
        "ctrl+shift+t"@
    }
}

/// The notification each table position emits.
pub open spec fn spec_shortcut_event(i: int) -> Seq<char> {
    if i == 0 {
        "shortcut:toggle-dictation"@
    } else {
        "shortcut:toggle-transcription"@
    }
}

/// The key combination to register for the shortcut at position `i`.
pub fn shortcut_combo(i: usize) -> (c: &'static str)
    requires
        i < SHORTCUT_COUNT,
    ensures
        c@ == spec_shortcut_combo(i as int),
{
    if i == 0 {
        "ctrl+shift+d"
    } else {
        "ctrl+shift+t"
    }
}

/// The notification name the shortcut at position `i` emits.
pub fn shortcut_event(i: usize) -> (e: &'static str)
    requires
        i < SHORTCUT_COUNT,
    ensures
        e@ == spec_shortcut_event(i as int),
{
    if i == 0 {
        "shortcut:toggle-dictation"
    } else {
        "shortcut:toggle-transcription"
    }
}

/// True exactly on the transitions that emit a notification: the key-down
/// transition and no other.
pub open spec fn spec_emits(t: KeyTransition) -> bool {
    t is Pressed
}

/// The notification owed for one event of the shortcut at position `i`:
/// its name on the key-down transition, nothing on any other.
pub open spec fn spec_shortcut_notification(i: int, t: KeyTransition) -> Option<Seq<char>> {
    if spec_emits(t) {
        Some(spec_shortcut_event(i))
    } else {
        None
    }
}

/// The notification owed for one event of the shortcut at position `i`.
pub fn shortcut_notification(i: usize, t: KeyTransition) -> (r: Option<&'static str>)
    requires
        i < SHORTCUT_COUNT,
    ensures
        r is Some <==> spec_shortcut_notification(i as int, t) is Some,
        r is Some ==> r->0@ == spec_shortcut_notification(i as int, t)->0,
{
    match t {
        KeyTransition::Pressed => Some(shortcut_event(i)),
        KeyTransition::Released => None,
    }
}

/// How many of a run of transitions are key-down transitions.
pub open spec fn spec_press_count(ts: Seq<KeyTransition>) -> nat
    decreases ts.len(),
{
    if ts.len() == 0 {
        0
    } else {
        spec_press_count(ts.drop_last()) + if spec_emits(ts.last()) {
            1nat
        } else {
            0nat
        }
    }
}

/// How many notifications a run of transitions makes the shortcut at
/// position `i` emit, counted over the per-event decision.
pub open spec fn spec_emission_count(i: int, ts: Seq<KeyTransition>) -> nat
    decreases ts.len(),
{
    if ts.len() == 0 {
        0
    } else {
        spec_emission_count(i, ts.drop_last()) + if spec_shortcut_notification(
            i,
            ts.last(),
        ) is Some {
            1nat
        } else {
            0nat
        }
    }
}

/// Law: over any run of transitions a shortcut reports, exactly one
/// notification is emitted per key-down transition — holding a combination
/// emits nothing beyond the presses the backend itself reports, and releases
/// emit nothing.
pub proof fn lemma_one_emission_per_press(i: int, ts: Seq<KeyTransition>)
    ensures
        spec_emission_count(i, ts) == spec_press_count(ts),
    decreases ts.len(),
{
    if ts.len() > 0 {
        lemma_one_emission_per_press(i, ts.drop_last());
    }
}

/// The verdict on one startup round: `reg_ok[i]` reports whether the shortcut
/// at position `i` registered, `tray_ok` whether the tray was built. Any
/// failure is fatal at startup and is surfaced as a value, never a panic;
/// shortcut failures are reported first, earliest position first.
pub fn startup_outcome(reg_ok: &Vec<bool>, tray_ok: bool) -> (r: Result<(), StartupError>)
    ensures
        r is Ok <==> (forall|i: int| 0 <= i < reg_ok@.len() ==> reg_ok@[i]) && tray_ok,
        (match r {
            Err(StartupError::ShortcutRegistrationFailed { index }) => {
                &&& index < reg_ok@.len()
                &&& !reg_ok@[index as int]
                &&& forall|j: int| 0 <= j < index ==> reg_ok@[j]
            },
            Err(StartupError::TrayConstructionFailed) => {
                &&& !tray_ok
                &&& forall|i: int| 0 <= i < reg_ok@.len() ==> reg_ok@[i]
            },
            Ok(()) => true,
        }),
{
    let n = reg_ok.len();
    let mut i: usize = 0;
    while i < n
        invariant
            i <= n,
            n == reg_ok@.len(),
            forall|j: int| 0 <= j < i ==> reg_ok@[j],
        decreases n - i,
    {
        if !reg_ok[i] {
            return Err(StartupError::ShortcutRegistrationFailed { index: i });
        }
        i += 1;
    }
    if !tray_ok {
        return Err(StartupError::TrayConstructionFailed);
    }
    Ok(())
}

} // verus!
