//! The tray controller's logic: the fixed language catalog, the registry of
//! checkable language entries, menu-click dispatch, and synchronization with
//! the language notification the UI layer sends back. Building the icon and
//! the menu widgets, showing the window and exiting the process happen
//! outside this crate; this module decides what each event means and keeps
//! the checked-language state.
use vstd::prelude::*;
use crate::text::{str_eq, trim_quote_chars, trim_quotes};

verus! {

/// How many languages the catalog offers.
pub const LANGUAGE_COUNT: usize = 13;

/// The short code of the language at each catalog position.
pub open spec fn spec_language_code(i: int) -> Seq<char> {
    if i == 0 {
        "fr"@
    } else if i == 1 {
        "en"@
    } else if i == 2 {
        "es"@
    } else if i == 3 {
        "de"@
    } else if i == 4 {
        "it"@
    } else if i == 5 {
        "pt"@
    } else if i == 6 {
        "nl"@
    } else if i == 7 {
        "pl"@
    } else if i == 8 {
        "ru"@
    } else if i == 9 {
        "zh"@
    } else if i == 10 {
        "ja"@
    } else if i == 11 {
        "ko"@
    } else {
        "ar"@
    }
}

/// The display name of the language at each catalog position.
pub open spec fn spec_language_label(i: int) -> Seq<char> {
    if i == 0 {
        "Français"@
    } else if i == 1 {
        "English"@
    } else if i == 2 {
        "Español"@
    } else if i == 3 {
        "Deutsch"@
    } else if i == 4 {
        "Italiano"@
    } else if i == 5 {
        "Português"@
    } else if i == 6 {
        "Nederlands"@
    } else if i == 7 {
        "Polski"@
    } else if i == 8 {
        "Русский"@
    } else if i == 9 {
        "中文"@
    } else if i == 10 {
        "日本語"@
    } else if i == 11 {
        "한국어"@
    } else {
        "العربية"@
    }
}

/// The catalog position checked when the menu is first built.
pub open spec fn spec_default_language() -> int {
    0
}

/// The short code of the language at catalog position `i`.
pub fn language_code(i: usize) -> (c: &'static str)
    requires
        i < LANGUAGE_COUNT,
    ensures
        c@ == spec_language_code(i as int),
{
    if i == 0 {
        "fr"
    } else if i == 1 {
        "en"
    } else if i == 2 {
        "es"
    } else if i == 3 {
        "de"
    } else if i == 4 {
        "it"
    } else if i == 5 {
        "pt"
    } else if i == 6 {
        "nl"
    } else if i == 7 {
        "pl"
    } else if i == 8 {
        "ru"
    } else if i == 9 {
        "zh"
    } else if i == 10 {
        "ja"
    } else if i == 11 {
        "ko"
    } else {
        "ar"
    }
}

/// The display name of the language at catalog position `i`.
pub fn language_label(i: usize) -> (l: &'static str)
    requires
        i < LANGUAGE_COUNT,
    ensures
        l@ == spec_language_label(i as int),
{
    if i == 0 {
        "Français"
    } else if i == 1 {
        "English"
    } else if i == 2 {
        "Español"
    } else if i == 3 {
        "Deutsch"
    } else if i == 4 {
        "Italiano"
    } else if i == 5 {
        "Português"
    } else if i == 6 {
        "Nederlands"
    } else if i == 7 {
        "Polski"
    } else if i == 8 {
        "Русский"
    } else if i == 9 {
        "中文"
    } else if i == 10 {
        "日本語"
    } else if i == 11 {
        "한국어"
    } else {
        "العربية"
    }
}

/// The catalog position checked when the menu is first built.
pub fn default_language_index() -> (i: usize)
    ensures
        i as int == spec_default_language(),
        i < LANGUAGE_COUNT,
{
    0
}

/// The first catalog position whose code is `code`, searching from `i` on.
pub open spec fn spec_find_language_from(code: Seq<char>, i: int) -> Option<int>
    decreases LANGUAGE_COUNT - i when 0 <= i <= LANGUAGE_COUNT
{
    if i >= LANGUAGE_COUNT {
        None
    } else if spec_language_code(i) == code {
        Some(i)
    } else {
        spec_find_language_from(code, i + 1)
    }
}

/// The catalog position whose code is `code`, if any.
pub open spec fn spec_find_language(code: Seq<char>) -> Option<int> {
    spec_find_language_from(code, 0)
}

/// Looks `code` up in the catalog.
pub fn find_language(code: &str) -> (r: Option<usize>)
    ensures
        match r {
            Some(i) => i < LANGUAGE_COUNT && spec_find_language(code@) == Some(i as int),
            None => spec_find_language(code@) is None,
        },
{
    let mut i: usize = 0;
    while i < LANGUAGE_COUNT
        invariant
            i <= LANGUAGE_COUNT,
            spec_find_language(code@) == spec_find_language_from(code@, i as int),
        decreases LANGUAGE_COUNT - i,
    {
        if str_eq(code, language_code(i)) {
            return Some(i);
        }
        i += 1;
    }
    None
}

/// No two catalog positions carry the same code.
pub proof fn lemma_language_codes_distinct(i: int, j: int)
    requires
        0 <= i < LANGUAGE_COUNT,
        0 <= j < LANGUAGE_COUNT,
        i != j,
    ensures
        spec_language_code(i) != spec_language_code(j),
{
    reveal_strlit("fr");
    reveal_strlit("en");
    reveal_strlit("es");
    reveal_strlit("de");
    reveal_strlit("it");
    reveal_strlit("pt");
    reveal_strlit("nl");
    reveal_strlit("pl");
    reveal_strlit("ru");
    reveal_strlit("zh");
    reveal_strlit("ja");
    reveal_strlit("ko");
    reveal_strlit("ar");
    assert(spec_language_code(i) != spec_language_code(j)) by {
        assert(spec_language_code(i)[0] != spec_language_code(j)[0] || spec_language_code(i)[1]
            != spec_language_code(j)[1]);
    }
}

/// The checked flags that selecting `code` leaves behind: each entry is
/// checked exactly when its own code is `code`.
pub open spec fn spec_checks_for(code: Seq<char>) -> Seq<bool> {
    Seq::new(LANGUAGE_COUNT as nat, |i: int| spec_language_code(i) == code)
}

/// What a menu click means.
#[derive(Clone, Copy, Debug, PartialEq, Eq, Structural)]
pub enum MenuAction {
    /// Show, unminimize and focus the main window.
    ShowMainWindow,
    /// Terminate the process with exit code 0.
    Quit,
    /// The language at this catalog position was selected; the driver owes
    /// the UI layer a language-changed notification carrying its code.
    LanguageSelected { index: usize },
    /// An id the menu does not know: ignored.
    Ignored,
}

/// What a click on the menu item with id `id` means: the window item, the
/// quit item, a catalog language, or nothing.
pub open spec fn spec_menu_action(id: Seq<char>) -> MenuAction {
    if id == "open"@ {
        MenuAction::ShowMainWindow
    } else if id == "quit"@ {
        MenuAction::Quit
    } else {
        match spec_find_language(id) {
            Some(i) => MenuAction::LanguageSelected { index: i as usize },
            None => MenuAction::Ignored,
        }
    }
}

/// The registry of checkable language entries, one per catalog position.
pub struct LangMenu {
    checked: Vec<bool>,
}

impl View for LangMenu {
    type V = Seq<bool>;

    closed spec fn view(&self) -> Seq<bool> {
        self.checked@
    }
}

impl LangMenu {
    /// One flag per catalog language.
    pub open spec fn wf(&self) -> bool {
        self@.len() == LANGUAGE_COUNT
    }

    /// A fresh registry: only the default language is checked.
    pub fn new() -> (m: LangMenu)
        ensures
            m.wf(),
            m@ == spec_checks_for(spec_language_code(spec_default_language())),
    {
        let mut checked: Vec<bool> = Vec::new();
        let mut i: usize = 0;
        while i < LANGUAGE_COUNT
            invariant
                i <= LANGUAGE_COUNT,
                checked@.len() == i,
                forall|j: int|
                    0 <= j < i ==> checked@[j] == (spec_language_code(j) == spec_language_code(
                        spec_default_language(),
                    )),
            decreases LANGUAGE_COUNT - i,
        {
            checked.push(str_eq(language_code(i), language_code(0)));
            i += 1;
        }
        proof {
            assert(checked@ =~= spec_checks_for(spec_language_code(spec_default_language())));
        }
        LangMenu { checked }
    }

    /// Whether the entry at catalog position `i` is checked.
    pub fn is_checked(&self, i: usize) -> (b: bool)
        requires
            self.wf(),
            i < LANGUAGE_COUNT,
        ensures
            b == self@[i as int],
    {
        self.checked[i]
    }

    /// Check each entry whose code is `selected` and uncheck every other —
    /// the whole mutation of the checked-language state.
    pub fn update_lang_checks(&mut self, selected: &str)
        requires
            old(self).wf(),
        ensures
            final(self).wf(),
            final(self)@ == spec_checks_for(selected@),
    {
        let mut i: usize = 0;
        while i < LANGUAGE_COUNT
            invariant
                i <= LANGUAGE_COUNT,
                self@.len() == LANGUAGE_COUNT,
                forall|j: int|
                    0 <= j < i ==> self@[j] == (spec_language_code(j) == selected@),
            decreases LANGUAGE_COUNT - i,
        {
            let hit = str_eq(language_code(i), selected);
            self.checked[i] = hit;
            i += 1;
        }
        proof {
            assert(self@ =~= spec_checks_for(selected@));
        }
    }

    /// Dispatch one menu click: the open and quit items leave the registry
    /// alone; a catalog code checks its entry and unchecks the rest; anything
    /// else is ignored.
    pub fn handle_menu_event(&mut self, id: &str) -> (act: MenuAction)
        requires
            old(self).wf(),
        ensures
            final(self).wf(),
            act == spec_menu_action(id@),
            act is LanguageSelected ==> final(self)@ == spec_checks_for(id@),
            !(act is LanguageSelected) ==> final(self)@ == old(self)@,
    {
        if str_eq(id, "open") {
            MenuAction::ShowMainWindow
        } else if str_eq(id, "quit") {
            MenuAction::Quit
        } else {
            match find_language(id) {
                Some(i) => {
                    self.update_lang_checks(id);
                    MenuAction::LanguageSelected { index: i }
                },
                None => MenuAction::Ignored,
            }
        }
    }

    /// Apply the language notification the UI layer sends back. Its payload
    /// arrives with the code quoted; the surrounding quote characters are
    /// trimmed, never treated as part of the code. Nothing is returned, so
    /// the synchronization can never echo a notification back out.
    pub fn apply_language_notification(&mut self, payload: &str)
        requires
            old(self).wf(),
        ensures
            final(self).wf(),
            final(self)@ == spec_checks_for(trim_quotes(payload@)),
    {
        let code = trim_quote_chars(payload);
        self.update_lang_checks(code);
    }
}

/// Law: selecting the catalog language at position `i` leaves exactly one
/// entry checked, and it is that one — whatever was checked before.
pub proof fn lemma_selection_checks_exactly_one(i: int)
    requires
        0 <= i < LANGUAGE_COUNT,
    ensures
        spec_checks_for(spec_language_code(i))[i],
        forall|j: int|
            0 <= j < LANGUAGE_COUNT && j != i ==> !spec_checks_for(spec_language_code(i))[j],
{
    assert forall|j: int| 0 <= j < LANGUAGE_COUNT && j != i implies !spec_checks_for(
        spec_language_code(i),
    )[j] by {
        lemma_language_codes_distinct(i, j);
    }
}

/// Law: a payload whose trimmed form is the code at catalog position `i`
/// leaves exactly that entry checked, whatever was checked before.
pub proof fn lemma_notification_checks_exactly_one(payload: Seq<char>, i: int)
    requires
        0 <= i < LANGUAGE_COUNT,
        trim_quotes(payload) == spec_language_code(i),
    ensures
        spec_checks_for(trim_quotes(payload))[i],
        forall|j: int|
            0 <= j < LANGUAGE_COUNT && j != i ==> !spec_checks_for(trim_quotes(payload))[j],
{
    lemma_selection_checks_exactly_one(i);
}

/// The mouse button of a click on the tray icon.
#[derive(Clone, Copy, Debug, PartialEq, Eq, Structural)]
pub enum MouseButton {
    Left,
    Right,
    Middle,
}

/// Whether a tray-icon click is the press or the release of its button.
#[derive(Clone, Copy, Debug, PartialEq, Eq, Structural)]
pub enum MouseButtonState {
    Up,
    Down,
}

/// Whether a click on the tray icon itself shows the main window: only the
/// release of the left button does, independent of the menu.
pub fn tray_click_shows_window(button: MouseButton, state: MouseButtonState) -> (r: bool)
    ensures
        r <==> (button is Left && state is Up),
{
    match (button, state) {
        (MouseButton::Left, MouseButtonState::Up) => true,
        _ => false,
    }
}

/// Whether a left click on the tray icon opens the menu: it does not — the
/// left button is reserved for showing the window.
pub fn show_menu_on_left_click() -> (b: bool)
    ensures
        !b,
{
    false
}

/// The tooltip shown on the tray icon.
pub fn tray_tooltip() -> (s: &'static str)
    ensures
        s@ == "OpenWhisper"@,
{
    "OpenWhisper"
}

/// The id of the menu item that shows the main window.
pub fn open_menu_id() -> (s: &'static str)
    ensures
        s@ == "open"@,
{
    "open"
}

/// The id of the menu item that quits the application.
pub fn quit_menu_id() -> (s: &'static str)
    ensures
        s@ == "quit"@,
{
    "quit"
}

/// The title of the menu item that shows the main window.
pub fn open_menu_title() -> (s: &'static str)
    ensures
        s@ == "Open window"@,
{
    "Open window"
}

/// The title of the menu item that quits the application.
pub fn quit_menu_title() -> (s: &'static str)
    ensures
        s@ == "Quit"@,
{
    "Quit"
}

/// The id of the language submenu.
pub fn language_submenu_id() -> (s: &'static str)
    ensures
        s@ == "language"@,
{
    "language"
}

/// The title of the language submenu.
pub fn language_submenu_title() -> (s: &'static str)
    ensures
        s@ == "Language"@,
{
    "Language"
}

/// The notification the tray sends the UI layer when a language is picked
/// from the menu; its payload is the new code.
pub fn language_changed_event() -> (s: &'static str)
    ensures
        s@ == "tray:language-changed"@,
{
    "tray:language-changed"
}

/// The notification the UI layer sends back when its own language selection
/// changes; its payload is the new code, quoted.
pub fn language_notification_name() -> (s: &'static str)
    ensures
        s@ == "language-changed"@,
{
    "language-changed"
}

} // verus!
