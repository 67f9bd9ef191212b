//! Text injection: place a string on the system clipboard, then synthesize a
//! paste chord (modifier down, paste key click, modifier up).
//!
//! The operating-system steps (clipboard write, sleeps, keystroke synthesis)
//! are performed by a driver outside this crate. This module owns every
//! decision: the order of the steps, which error each failure maps to, and
//! when the attempt stops. A driver holds an [`Injection`], performs the
//! [`InjectAction`] that `pending_action` reports, and feeds the step's
//! success back through `advance` until `outcome` is settled.
use vstd::prelude::*;

verus! {

/// The distinct failures one injection attempt can surface.
#[derive(Clone, Copy, Debug, PartialEq, Eq, Structural)]
pub enum InjectError {
    /// The clipboard could not be opened or written.
    ClipboardUnavailable,
    /// The keystroke-synthesis backend could not be initialized.
    BackendInitFailed,
    /// A keystroke of the paste chord could not be sent.
    KeystrokeSynthesisFailed,
}

impl InjectError {
    /// The human-readable message that crosses the boundary to the UI layer;
    /// no raw operating-system error code does.
    pub fn message(&self) -> (s: &'static str)
        ensures
            *self is ClipboardUnavailable ==> s@ == "failed to write the clipboard"@,
            *self is BackendInitFailed ==> s@ == "failed to initialize the keystroke backend"@,
            *self is KeystrokeSynthesisFailed ==> s@ == "failed to send a paste keystroke"@,
    {
        match self {
            InjectError::ClipboardUnavailable => "failed to write the clipboard",
            InjectError::BackendInitFailed => "failed to initialize the keystroke backend",
            InjectError::KeystrokeSynthesisFailed => "failed to send a paste keystroke",
        }
    }
}

/// The keys the paste chord is made of.
#[derive(Clone, Copy, Debug, PartialEq, Eq, Structural)]
pub enum KeyInput {
    /// The platform's paste modifier (conventionally Control).
    Modifier,
    /// The literal character that triggers paste under the modifier.
    PasteKey,
}

/// How a key is driven.
#[derive(Clone, Copy, Debug, PartialEq, Eq, Structural)]
pub enum KeyMotion {
    Press,
    Click,
    Release,
}

/// The next operating-system step a driver must perform.
#[derive(Clone, Copy, Debug, PartialEq, Eq, Structural)]
pub enum InjectAction {
    /// Write the injection text to the system clipboard.
    WriteClipboard,
    /// Sleep for the given number of milliseconds; a pause never fails.
    Pause { millis: u64 },
    /// Initialize the keystroke-synthesis backend (it is not ready yet).
    InitBackend,
    /// Send one keystroke of the paste chord.
    SendKey { key: KeyInput, motion: KeyMotion },
}

/// Where an injection attempt stands.
#[derive(Clone, Copy, Debug, PartialEq, Eq, Structural)]
pub enum InjectPhase {
    /// The text still has to reach the clipboard.
    WritingClipboard,
    /// Waiting out the clipboard-propagation pause.
    SettlingClipboard,
    /// The synthesis backend has to be initialized before any key is sent.
    InitializingBackend,
    /// Sending the modifier press.
    PressingModifier,
    /// Sending the paste-key click.
    ClickingPasteKey,
    /// Sending the modifier release.
    ReleasingModifier,
    /// Waiting out the pause that throttles rapid repeated injections.
    Throttling,
    /// Every step succeeded.
    Done,
    /// A step failed; the attempt stopped there.
    Aborted(InjectError),
}

/// Milliseconds granted to the clipboard write to propagate before pasting.
pub const CLIPBOARD_SETTLE_MILLIS: u64 = 5;

/// Milliseconds waited after the paste, throttling repeated injections.
pub const PASTE_THROTTLE_MILLIS: u64 = 10;

/// Mathematical image of an [`Injection`].
pub ghost struct InjectionModel {
    pub text: Seq<char>,
    pub phase: InjectPhase,
    pub backend_ready: bool,
}

/// True on the two phases in which an attempt has stopped.
pub open spec fn phase_terminal(p: InjectPhase) -> bool {
    p is Done || p is Aborted
}

/// The model every attempt starts from.
pub open spec fn initial_model(text: Seq<char>, backend_ready: bool) -> InjectionModel {
    InjectionModel { text, phase: InjectPhase::WritingClipboard, backend_ready }
}

/// The step owed in each phase; `None` once the attempt has stopped.
pub open spec fn spec_pending_action(m: InjectionModel) -> Option<InjectAction> {
    match m.phase {
        InjectPhase::WritingClipboard => Some(InjectAction::WriteClipboard),
        InjectPhase::SettlingClipboard => Some(
            InjectAction::Pause { millis: CLIPBOARD_SETTLE_MILLIS },
        ),
        InjectPhase::InitializingBackend => Some(InjectAction::InitBackend),
        InjectPhase::PressingModifier => Some(
            InjectAction::SendKey { key: KeyInput::Modifier, motion: KeyMotion::Press },
        ),
        InjectPhase::ClickingPasteKey => Some(
            InjectAction::SendKey { key: KeyInput::PasteKey, motion: KeyMotion::Click },
        ),
        InjectPhase::ReleasingModifier => Some(
            InjectAction::SendKey { key: KeyInput::Modifier, motion: KeyMotion::Release },
        ),
        InjectPhase::Throttling => Some(InjectAction::Pause { millis: PASTE_THROTTLE_MILLIS }),
        InjectPhase::Done => None,
        InjectPhase::Aborted(_) => None,
    }
}

/// How one reported step moves the machine.
///
/// A clipboard failure aborts before any key phase is reached; a backend
/// failure leaves `backend_ready` false, so the next attempt retries the
/// initialization; a key failure aborts the remaining chord. Pauses cannot
/// fail, so their report is ignored.
pub open spec fn spec_advance(m: InjectionModel, ok: bool) -> InjectionModel {
    match m.phase {
        InjectPhase::WritingClipboard => if ok {
            InjectionModel { phase: InjectPhase::SettlingClipboard, ..m }
        } else {
            InjectionModel { phase: InjectPhase::Aborted(InjectError::ClipboardUnavailable), ..m }
        },
        InjectPhase::SettlingClipboard => if m.backend_ready {
            InjectionModel { phase: InjectPhase::PressingModifier, ..m }
        } else {
            InjectionModel { phase: InjectPhase::InitializingBackend, ..m }
        },
        InjectPhase::InitializingBackend => if ok {
            InjectionModel { phase: InjectPhase::PressingModifier, backend_ready: true, ..m }
        } else {
            InjectionModel { phase: InjectPhase::Aborted(InjectError::BackendInitFailed), ..m }
        },
        InjectPhase::PressingModifier => if ok {
            InjectionModel { phase: InjectPhase::ClickingPasteKey, ..m }
        } else {
            InjectionModel {
                phase: InjectPhase::Aborted(InjectError::KeystrokeSynthesisFailed),
                ..m
            }
        },
        InjectPhase::ClickingPasteKey => if ok {
            InjectionModel { phase: InjectPhase::ReleasingModifier, ..m }
        } else {
            InjectionModel {
                phase: InjectPhase::Aborted(InjectError::KeystrokeSynthesisFailed),
                ..m
            }
        },
        InjectPhase::ReleasingModifier => if ok {
            InjectionModel { phase: InjectPhase::Throttling, ..m }
        } else {
            InjectionModel {
                phase: InjectPhase::Aborted(InjectError::KeystrokeSynthesisFailed),
                ..m
            }
        },
        InjectPhase::Throttling => InjectionModel { phase: InjectPhase::Done, ..m },
        InjectPhase::Done => m,
        InjectPhase::Aborted(_) => m,
    }
}

/// The settled result in each phase; `None` while steps remain.
pub open spec fn spec_outcome(p: InjectPhase) -> Option<Result<(), InjectError>> {
    match p {
        InjectPhase::Done => Some(Ok(())),
        InjectPhase::Aborted(e) => Some(Err(e)),
        _ => None,
    }
}

/// One injection attempt, stepped by an outside driver.
pub struct Injection {
    text: String,
    phase: InjectPhase,
    backend_ready: bool,
}

impl View for Injection {
    type V = InjectionModel;

    closed spec fn view(&self) -> InjectionModel {
        InjectionModel { text: self.text@, phase: self.phase, backend_ready: self.backend_ready }
    }
}

impl Injection {
    /// Start an attempt to inject `text`. `backend_ready` reports whether the
    /// process-wide synthesis backend is already initialized.
    pub fn begin(text: String, backend_ready: bool) -> (m: Injection)
        ensures
            m@ == initial_model(text@, backend_ready),
    {
        Injection { text, phase: InjectPhase::WritingClipboard, backend_ready }
    }

    /// The text this attempt writes to the clipboard.
    pub fn text(&self) -> (t: &str)
        ensures
            t@ == self@.text,
    {
        self.text.as_str()
    }

    /// Whether this attempt believes the synthesis backend is initialized.
    pub fn backend_ready(&self) -> (b: bool)
        ensures
            b == self@.backend_ready,
    {
        self.backend_ready
    }

    /// The operating-system step the driver owes next, or `None` once the
    /// attempt has stopped.
    pub fn pending_action(&self) -> (a: Option<InjectAction>)
        ensures
            a == spec_pending_action(self@),
    {
        match self.phase {
            InjectPhase::WritingClipboard => Some(InjectAction::WriteClipboard),
            InjectPhase::SettlingClipboard => Some(
                InjectAction::Pause { millis: CLIPBOARD_SETTLE_MILLIS },
            ),
            InjectPhase::InitializingBackend => Some(InjectAction::InitBackend),
            InjectPhase::PressingModifier => Some(
                InjectAction::SendKey { key: KeyInput::Modifier, motion: KeyMotion::Press },
            ),
            InjectPhase::ClickingPasteKey => Some(
                InjectAction::SendKey { key: KeyInput::PasteKey, motion: KeyMotion::Click },
            ),
            InjectPhase::ReleasingModifier => Some(
                InjectAction::SendKey { key: KeyInput::Modifier, motion: KeyMotion::Release },
            ),
            InjectPhase::Throttling => Some(
                InjectAction::Pause { millis: PASTE_THROTTLE_MILLIS },
            ),
            InjectPhase::Done => None,
            InjectPhase::Aborted(_) => None,
        }
    }

    /// Report whether the pending step succeeded, and move to the next phase.
    pub fn advance(&mut self, ok: bool)
        requires
            !phase_terminal(old(self)@.phase),
        ensures
            final(self)@ == spec_advance(old(self)@, ok),
    {
        let next = match self.phase {
            InjectPhase::WritingClipboard => if ok {
                InjectPhase::SettlingClipboard
            } else {
                InjectPhase::Aborted(InjectError::ClipboardUnavailable)
            },
            InjectPhase::SettlingClipboard => if self.backend_ready {
                InjectPhase::PressingModifier
            } else {
                InjectPhase::InitializingBackend
            },
            InjectPhase::InitializingBackend => if ok {
                self.backend_ready = true;
                InjectPhase::PressingModifier
            } else {
                InjectPhase::Aborted(InjectError::BackendInitFailed)
            },
            InjectPhase::PressingModifier => if ok {
                InjectPhase::ClickingPasteKey
            } else {
                InjectPhase::Aborted(InjectError::KeystrokeSynthesisFailed)
            },
            InjectPhase::ClickingPasteKey => if ok {
                InjectPhase::ReleasingModifier
            } else {
                InjectPhase::Aborted(InjectError::KeystrokeSynthesisFailed)
            },
            InjectPhase::ReleasingModifier => if ok {
                InjectPhase::Throttling
            } else {
                InjectPhase::Aborted(InjectError::KeystrokeSynthesisFailed)
            },
            InjectPhase::Throttling => InjectPhase::Done,
            InjectPhase::Done => InjectPhase::Done,
            InjectPhase::Aborted(e) => InjectPhase::Aborted(e),
        };
        self.phase = next;
    }

    /// The settled result, or `None` while steps remain.
    pub fn outcome(&self) -> (r: Option<Result<(), InjectError>>)
        ensures
            r == spec_outcome(self@.phase),
    {
        match self.phase {
            InjectPhase::Done => Some(Ok(())),
            InjectPhase::Aborted(e) => Some(Err(e)),
            _ => None,
        }
    }
}

/// What an injection attempt touches in the outside world: the clipboard's
/// textual content and the synthetic keystrokes sent so far.
pub ghost struct WorldModel {
    pub clipboard: Seq<char>,
    pub keys: Seq<(KeyInput, KeyMotion)>,
}

/// The three keystrokes of a complete paste chord, in order.
pub open spec fn paste_chord() -> Seq<(KeyInput, KeyMotion)> {
    seq![
        (KeyInput::Modifier, KeyMotion::Press),
        (KeyInput::PasteKey, KeyMotion::Click),
        (KeyInput::Modifier, KeyMotion::Release),
    ]
}

/// What one reported step does to the world: a successful clipboard write
/// stores the attempt's text, a successful keystroke is appended to the keys
/// sent; a failed step, a pause and the backend initialization leave the
/// world as it was.
pub open spec fn spec_world_step(w: WorldModel, m: InjectionModel, ok: bool) -> WorldModel {
    match spec_pending_action(m) {
        Some(InjectAction::WriteClipboard) => if ok {
            WorldModel { clipboard: m.text, ..w }
        } else {
            w
        },
        Some(InjectAction::SendKey { key, motion }) => if ok {
            WorldModel { keys: w.keys.push((key, motion)), ..w }
        } else {
            w
        },
        _ => w,
    }
}

/// A whole driver run: step machine and world together through the reported
/// outcomes, stopping when the attempt stops or the reports run out.
pub open spec fn spec_run(m: InjectionModel, w: WorldModel, outcomes: Seq<bool>) -> (
    InjectionModel,
    WorldModel,
)
    decreases outcomes.len(),
{
    if outcomes.len() == 0 || phase_terminal(m.phase) {
        (m, w)
    } else {
        spec_run(
            spec_advance(m, outcomes[0]),
            spec_world_step(w, m, outcomes[0]),
            outcomes.drop_first(),
        )
    }
}

/// Ties each phase of a running attempt to what it has done to the world so
/// far, relative to the model `m0` and world `w0` the attempt started from.
pub open spec fn run_invariant(
    m0: InjectionModel,
    w0: WorldModel,
    m: InjectionModel,
    w: WorldModel,
) -> bool {
    &&& m.text == m0.text
    &&& (m.phase is InitializingBackend ==> !m.backend_ready)
    &&& match m.phase {
        InjectPhase::WritingClipboard => w == w0,
        InjectPhase::SettlingClipboard | InjectPhase::InitializingBackend
            | InjectPhase::PressingModifier => w.clipboard == m0.text && w.keys == w0.keys,
        InjectPhase::ClickingPasteKey => w.clipboard == m0.text && w.keys == w0.keys.push(
            (KeyInput::Modifier, KeyMotion::Press),
        ),
        InjectPhase::ReleasingModifier => w.clipboard == m0.text && w.keys == w0.keys.push(
            (KeyInput::Modifier, KeyMotion::Press),
        ).push((KeyInput::PasteKey, KeyMotion::Click)),
        InjectPhase::Throttling | InjectPhase::Done => w.clipboard == m0.text && w.keys
            == w0.keys + paste_chord(),
        InjectPhase::Aborted(e) => match e {
            InjectError::ClipboardUnavailable => w == w0,
            InjectError::BackendInitFailed => w.clipboard == m0.text && w.keys == w0.keys
                && !m.backend_ready,
            InjectError::KeystrokeSynthesisFailed => w.clipboard == m0.text && w0.keys.len()
                <= w.keys.len() <= w0.keys.len() + 2 && w.keys.subrange(0, w0.keys.len() as int)
                == w0.keys,
        },
    }
}

/// One reported step keeps [`run_invariant`].
proof fn lemma_step_preserves_invariant(
    m0: InjectionModel,
    w0: WorldModel,
    m: InjectionModel,
    w: WorldModel,
    ok: bool,
)
    requires
        run_invariant(m0, w0, m, w),
        !phase_terminal(m.phase),
    ensures
        run_invariant(m0, w0, spec_advance(m, ok), spec_world_step(w, m, ok)),
{
    let wn = spec_world_step(w, m, ok);
    match m.phase {
        InjectPhase::Throttling | InjectPhase::Done => {
            assert(wn.keys == w0.keys + paste_chord());
        },
        InjectPhase::ReleasingModifier => {
            if ok {
                assert(wn.keys =~= w0.keys + paste_chord());
            } else {
                assert(wn.keys.subrange(0, w0.keys.len() as int) =~= w0.keys);
            }
        },
        InjectPhase::ClickingPasteKey | InjectPhase::PressingModifier => {
            assert(wn.keys.subrange(0, w0.keys.len() as int) =~= w0.keys);
        },
        _ => {},
    }
}

/// A whole run keeps [`run_invariant`].
proof fn lemma_run_preserves_invariant(
    m0: InjectionModel,
    w0: WorldModel,
    m: InjectionModel,
    w: WorldModel,
    outcomes: Seq<bool>,
)
    requires
        run_invariant(m0, w0, m, w),
    ensures
        run_invariant(m0, w0, spec_run(m, w, outcomes).0, spec_run(m, w, outcomes).1),
    decreases outcomes.len(),
{
    if outcomes.len() == 0 || phase_terminal(m.phase) {
    } else {
        lemma_step_preserves_invariant(m0, w0, m, w, outcomes[0]);
        lemma_run_preserves_invariant(
            m0,
            w0,
            spec_advance(m, outcomes[0]),
            spec_world_step(w, m, outcomes[0]),
            outcomes.drop_first(),
        );
    }
}

/// Law: however a driver run went, if the attempt finished successfully the
/// clipboard holds exactly the injected text, and exactly the three
/// keystrokes of the paste chord were sent, in order.
pub proof fn lemma_success_sets_clipboard(
    text: Seq<char>,
    backend_ready: bool,
    w0: WorldModel,
    outcomes: Seq<bool>,
)
    requires
        spec_run(initial_model(text, backend_ready), w0, outcomes).0.phase is Done,
    ensures
        spec_run(initial_model(text, backend_ready), w0, outcomes).1.clipboard == text,
        spec_run(initial_model(text, backend_ready), w0, outcomes).1.keys == w0.keys
            + paste_chord(),
{
    lemma_run_preserves_invariant(
        initial_model(text, backend_ready),
        w0,
        initial_model(text, backend_ready),
        w0,
        outcomes,
    );
}

/// Law: if the clipboard write fails, the attempt stops with
/// `ClipboardUnavailable`, the clipboard is left as it was, and no keystroke
/// is ever sent — the synthesis steps are never reached.
pub proof fn lemma_clipboard_failure_sends_no_keys(
    text: Seq<char>,
    backend_ready: bool,
    w0: WorldModel,
    outcomes: Seq<bool>,
)
    requires
        outcomes.len() > 0,
        !outcomes[0],
    ensures
        spec_run(initial_model(text, backend_ready), w0, outcomes).0.phase == InjectPhase::Aborted(
            InjectError::ClipboardUnavailable,
        ),
        spec_run(initial_model(text, backend_ready), w0, outcomes).1 == w0,
{
    let m0 = initial_model(text, backend_ready);
    let m1 = spec_advance(m0, outcomes[0]);
    let w1 = spec_world_step(w0, m0, outcomes[0]);
    assert(m1.phase == InjectPhase::Aborted(InjectError::ClipboardUnavailable));
    assert(w1 == w0);
    lemma_run_stays_terminal(m1, w1, outcomes.drop_first());
}

/// A run that starts on a stopped attempt changes nothing.
proof fn lemma_run_stays_terminal(m: InjectionModel, w: WorldModel, outcomes: Seq<bool>)
    requires
        phase_terminal(m.phase),
    ensures
        spec_run(m, w, outcomes) == (m, w),
{
}

/// Law: if the backend initialization fails, the attempt stops with
/// `BackendInitFailed` and still reports the backend as uninitialized, so the
/// next attempt retries the initialization; the clipboard already holds the
/// text, and no keystroke was sent.
pub proof fn lemma_backend_failure_left_uninitialized(
    text: Seq<char>,
    w0: WorldModel,
    outcomes: Seq<bool>,
)
    requires
        spec_run(initial_model(text, false), w0, outcomes).0.phase == InjectPhase::Aborted(
            InjectError::BackendInitFailed,
        ),
    ensures
        !spec_run(initial_model(text, false), w0, outcomes).0.backend_ready,
        spec_run(initial_model(text, false), w0, outcomes).1.clipboard == text,
        spec_run(initial_model(text, false), w0, outcomes).1.keys == w0.keys,
{
    lemma_run_preserves_invariant(
        initial_model(text, false),
        w0,
        initial_model(text, false),
        w0,
        outcomes,
    );
}

} // verus!
