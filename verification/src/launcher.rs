//! The launcher's own state: display preferences, the active global hotkey,
//! how a hotkey change and the start-up fallback cascade move it, and how the
//! launcher answers the events it receives.
use vstd::prelude::*;
use vstd::string::*;

verus! {

/// A registered global hotkey: the shortcut's identifier (as the global-shortcut service
/// derives it from the modifiers and the key) and the combination text it was parsed from.
#[derive(Debug)]
pub struct Hotkey {
    pub id: u32,
    pub combo: String,
}

impl View for Hotkey {
    type V = (u32, Seq<char>);

    open spec fn view(&self) -> (u32, Seq<char>) {
        (self.id, self.combo@)
    }
}

/// The hotkey an optional `Hotkey` stands for.
pub open spec fn hotkey_view(h: Option<Hotkey>) -> Option<(u32, Seq<char>)> {
    match h {
        Some(k) => Some(k@),
        None => None,
    }
}

/// The text pair a `Result` of strings stands for.
pub open spec fn text_result(r: Result<String, String>) -> Result<Seq<char>, Seq<char>> {
    match r {
        Ok(s) => Ok(s@),
        Err(e) => Err(e@),
    }
}

/// The abstract launcher state.
pub struct LauncherModel {
    /// The window covers the monitor under the cursor instead of sitting centred.
    pub fullsize: bool,
    /// Losing focus does not hide the window (a native dialog of the editor is open).
    pub hide_suppressed: bool,
    /// The active global hotkey, if any.
    pub hotkey: Option<(u32, Seq<char>)>,
}

/// The state Wisplet keeps while it runs.
pub struct LauncherState {
    fullsize: bool,
    hide_suppressed: bool,
    hotkey: Option<Hotkey>,
}

impl View for LauncherState {
    type V = LauncherModel;

    closed spec fn view(&self) -> LauncherModel {
        LauncherModel {
            fullsize: self.fullsize,
            hide_suppressed: self.hide_suppressed,
            hotkey: hotkey_view(self.hotkey),
        }
    }
}

/// The message for a combination that does not parse.
pub open spec fn format_error_text(combo: Seq<char>, err: Seq<char>) -> Seq<char> {
    "Format invalide ("@ + combo + "): "@ + err
}

/// The message for a combination that the system refuses to register.
pub open spec fn taken_error_text(combo: Seq<char>, err: Seq<char>) -> Seq<char> {
    "Hotkey déjà pris ("@ + combo + "): "@ + err
}

/// The first part of a hotkey change, before any registration is attempted.
pub enum BeginModel {
    /// The request is answered without registering anything.
    Done(Result<Seq<char>, Seq<char>>),
    /// The shortcut with this identifier must be registered.
    Register(u32),
}

/// What a hotkey change decides before registering: a parse error is answered with its
/// message; a shortcut equal to the active one is answered `Ok(combo)` at once; any other
/// shortcut has to be registered.
pub open spec fn begin_model(
    m: LauncherModel,
    combo: Seq<char>,
    parsed: Result<u32, Seq<char>>,
) -> BeginModel {
    match parsed {
        Err(e) => BeginModel::Done(Err(format_error_text(combo, e))),
        Ok(id) => match m.hotkey {
            Some(h) => if h.0 == id {
                BeginModel::Done(Ok(combo))
            } else {
                BeginModel::Register(id)
            },
            None => BeginModel::Register(id),
        },
    }
}

/// What a hotkey change does once registration was tried: a refusal is answered with its
/// message and changes nothing; a success makes the new shortcut the active one.
pub open spec fn finish_model(
    m: LauncherModel,
    combo: Seq<char>,
    id: u32,
    registered: Result<(), Seq<char>>,
) -> (LauncherModel, Result<Seq<char>, Seq<char>>) {
    match registered {
        Err(e) => (m, Err(taken_error_text(combo, e))),
        Ok(_) => (LauncherModel { hotkey: Some((id, combo)), ..m }, Ok(combo)),
    }
}

/// A whole hotkey change: the state after it and the answer, given how the combination
/// parsed and (when registration is attempted) how it went.
pub open spec fn set_hotkey_model(
    m: LauncherModel,
    combo: Seq<char>,
    parsed: Result<u32, Seq<char>>,
    registered: Result<(), Seq<char>>,
) -> (LauncherModel, Result<Seq<char>, Seq<char>>) {
    match begin_model(m, combo, parsed) {
        BeginModel::Done(r) => (m, r),
        BeginModel::Register(id) => finish_model(m, combo, id, registered),
    }
}

/// The first part of a hotkey change.
pub enum SetHotkeyStep {
    /// Answer the request with this result; nothing is registered.
    Done(Result<String, String>),
    /// Register the shortcut with this identifier, then call `finish_set_hotkey`.
    Register(u32),
}

/// The abstract step an exec step stands for.
pub open spec fn step_view(s: SetHotkeyStep) -> BeginModel {
    match s {
        SetHotkeyStep::Done(r) => BeginModel::Done(text_result(r)),
        SetHotkeyStep::Register(id) => BeginModel::Register(id),
    }
}

/// The fallback combinations tried at start-up, in order.
pub open spec fn fallback_combo(i: int) -> Seq<char> {
    if i == 0 {
        "Alt+Space"@
    } else if i == 1 {
        "Ctrl+Alt+Space"@
    } else {
        "Ctrl+Shift+Space"@
    }
}

/// How many fallback combinations there are.
pub open spec fn fallback_count() -> int {
    3
}

/// The `i`-th fallback combination, if there is one.
pub fn fallback_hotkey(i: usize) -> (r: Option<&'static str>)
    ensures
        r is Some <==> i < fallback_count(),
        r matches Some(s) ==> s@ == fallback_combo(i as int),
{
    if i == 0 {
        Some("Alt+Space")
    } else if i == 1 {
        Some("Ctrl+Alt+Space")
    } else if i == 2 {
        Some("Ctrl+Shift+Space")
    } else {
        None
    }
}

/// What start-up does next while it looks for a free hotkey.
pub enum CascadeAction {
    /// Parse and register this combination, then report how it went.
    Try(String),
    /// The combination tried last is now the active hotkey; start-up goes on.
    Adopted,
    /// Every combination was refused: show the window and tell the page, so that the user
    /// can pick a combination in the settings.
    Surface,
}

/// The abstract cascade decision.
pub enum CascadeModel {
    Try(Seq<char>),
    Adopted,
    Surface,
}

/// The abstract action an exec cascade action stands for.
pub open spec fn cascade_view(a: CascadeAction) -> CascadeModel {
    match a {
        CascadeAction::Try(s) => CascadeModel::Try(s@),
        CascadeAction::Adopted => CascadeModel::Adopted,
        CascadeAction::Surface => CascadeModel::Surface,
    }
}

/// One step of the start-up cascade, after `tried` combinations were tried and the last one
/// registered as `last` (`None` when it did not parse or register): a success adopts that
/// combination; otherwise the next one is tried; with none left, the window is surfaced.
pub open spec fn cascade_step_model(m: LauncherModel, tried: int, last: Option<u32>) -> (
    LauncherModel,
    CascadeModel,
) {
    match last {
        Some(id) => (
            LauncherModel { hotkey: Some((id, fallback_combo(tried - 1))), ..m },
            CascadeModel::Adopted,
        ),
        None => if tried < fallback_count() {
            (m, CascadeModel::Try(fallback_combo(tried)))
        } else {
            (m, CascadeModel::Surface)
        },
    }
}

/// The state that the cascade reaches from `m` when the `i`-th attempt registers as
/// `outcomes[i]`, having tried `tried` combinations, the last of which went as `last`.
pub open spec fn run_cascade(
    m: LauncherModel,
    outcomes: Seq<Option<u32>>,
    tried: int,
    last: Option<u32>,
) -> LauncherModel
    decreases fallback_count() - tried,
{
    let (m2, action) = cascade_step_model(m, tried, last);
    match action {
        CascadeModel::Try(_) => if 0 <= tried < fallback_count() {
            run_cascade(m2, outcomes, tried + 1, outcomes[tried])
        } else {
            m2
        },
        _ => m2,
    }
}

/// The first combination of the cascade that registers, with its identifier, looking from
/// position `from` on.
pub open spec fn first_registered(outcomes: Seq<Option<u32>>, from: int) -> Option<
    (u32, Seq<char>),
>
    decreases fallback_count() - from,
{
    if from < 0 || from >= fallback_count() {
        None
    } else {
        match outcomes[from] {
            Some(id) => Some((id, fallback_combo(from))),
            None => first_registered(outcomes, from + 1),
        }
    }
}

/// What the launcher does when the window is asked to toggle.
#[derive(Clone, Copy, Debug, PartialEq, Eq)]
pub enum Toggle {
    /// There is no window: nothing happens.
    Nothing,
    /// The window is visible: the page plays its exit animation and then hides it.
    AnimateOut,
    /// The window is hidden: place it (covering the monitor when `fullsize`), show it
    /// transparent, let the page animate in, then make it opaque.
    Reveal { fullsize: bool },
}

/// An event that reaches the launcher.
pub enum LauncherEvent {
    /// The global hotkey went down.
    ShortcutPressed,
    /// The global hotkey went up.
    ShortcutReleased,
    /// An entry of the tray menu was chosen; the text is the entry's identifier.
    TrayMenu(String),
    /// The tray icon was clicked.
    TrayClick { left: bool, released: bool },
    /// The window lost the focus.
    FocusLost,
}

/// How the launcher answers an event.
#[derive(Clone, Copy, Debug, PartialEq, Eq)]
pub enum Response {
    /// Show the window, or hide it (see `toggle`).
    Toggle,
    /// Quit the application.
    Quit,
    /// Tell the page to play its exit animation (which then hides the window).
    AnimateOut,
    /// Do nothing.
    Ignore,
}

/// The response the launcher gives to an event in state `m`.
pub open spec fn response_model(m: LauncherModel, event: LauncherEvent) -> Response {
    match event {
        LauncherEvent::ShortcutPressed => Response::Toggle,
        LauncherEvent::ShortcutReleased => Response::Ignore,
        LauncherEvent::TrayMenu(id) => if id@ == "show"@ {
            Response::Toggle
        } else if id@ == "quit"@ {
            Response::Quit
        } else {
            Response::Ignore
        },
        LauncherEvent::TrayClick { left, released } => if left && released {
            Response::Toggle
        } else {
            Response::Ignore
        },
        LauncherEvent::FocusLost => if m.hide_suppressed {
            Response::Ignore
        } else {
            Response::AnimateOut
        },
    }
}

impl LauncherState {
    /// A fresh state: windowed, hiding on focus loss, no hotkey.
    pub fn new() -> (s: Self)
        ensures
            s@ == (LauncherModel { fullsize: false, hide_suppressed: false, hotkey: None }),
    {
        LauncherState { fullsize: false, hide_suppressed: false, hotkey: None }
    }

    /// Whether the window covers the monitor under the cursor.
    pub fn fullsize(&self) -> (b: bool)
        ensures
            b == self@.fullsize,
    {
        self.fullsize
    }

    /// Records the full-size preference. The answer says whether the window must be placed
    /// again now, which is when it is visible.
    pub fn set_fullsize_pref(&mut self, value: bool, window_visible: bool) -> (reapply: bool)
        ensures
            final(self)@ == (LauncherModel { fullsize: value, ..old(self)@ }),
            reapply == window_visible,
    {
        self.fullsize = value;
        window_visible
    }

    /// Whether losing the focus leaves the window shown.
    pub fn hide_suppressed(&self) -> (b: bool)
        ensures
            b == self@.hide_suppressed,
    {
        self.hide_suppressed
    }

    /// Records whether losing the focus leaves the window shown.
    pub fn set_hide_suppressed(&mut self, value: bool)
        ensures
            final(self)@ == (LauncherModel { hide_suppressed: value, ..old(self)@ }),
    {
        self.hide_suppressed = value;
    }

    /// The combination of the active hotkey, if any.
    pub fn get_current_hotkey(&self) -> (r: Option<String>)
        ensures
            r is Some <==> self@.hotkey is Some,
            r matches Some(c) ==> c@ == self@.hotkey.unwrap().1,
    {
        match &self.hotkey {
            Some(h) => Some(h.combo.clone()),
            None => None,
        }
    }

    /// The identifier of the active hotkey, if any.
    pub fn current_shortcut(&self) -> (r: Option<u32>)
        ensures
            r is Some <==> self@.hotkey is Some,
            r matches Some(id) ==> id == self@.hotkey.unwrap().0,
    {
        match &self.hotkey {
            Some(h) => Some(h.id),
            None => None,
        }
    }

    /// Starts a hotkey change to `combo`, given how it parsed: the identifier of the shortcut,
    /// or the parser's message.
    pub fn begin_set_hotkey(&self, combo: &str, parsed: Result<u32, String>) -> (r: SetHotkeyStep)
        ensures
            step_view(r) == begin_model(
                self@,
                combo@,
                match parsed {
                    Ok(id) => Ok(id),
                    Err(e) => Err(e@),
                },
            ),
    {
        match parsed {
            Err(e) => {
                let mut msg = String::from_str("Format invalide (");
                msg.append(combo);
                msg.append("): ");
                msg.append(e.as_str());
                SetHotkeyStep::Done(Err(msg))
            },
            Ok(id) => {
                let same = match &self.hotkey {
                    Some(h) => h.id == id,
                    None => false,
                };
                if same {
                    SetHotkeyStep::Done(Ok(String::from_str(combo)))
                } else {
                    SetHotkeyStep::Register(id)
                }
            },
        }
    }

    /// Ends a hotkey change to `combo` once the shortcut `id` was registered (or refused with
    /// a message). On success the new hotkey becomes the active one and the one it replaces
    /// is handed back, to be unregistered.
    pub fn finish_set_hotkey(
        &mut self,
        combo: String,
        id: u32,
        registered: Result<(), String>,
    ) -> (r: (Result<String, String>, Option<Hotkey>))
        ensures
            (final(self)@, text_result(r.0)) == finish_model(
                old(self)@,
                combo@,
                id,
                match registered {
                    Ok(u) => Ok(u),
                    Err(e) => Err(e@),
                },
            ),
            registered is Ok ==> hotkey_view(r.1) == old(self)@.hotkey,
            registered is Err ==> r.1 is None,
    {
        match registered {
            Err(e) => {
                let mut msg = String::from_str("Hotkey déjà pris (");
                msg.append(combo.as_str());
                msg.append("): ");
                msg.append(e.as_str());
                (Err(msg), None)
            },
            Ok(_) => {
                let answer = combo.clone();
                let previous = self.hotkey.take();
                self.hotkey = Some(Hotkey { id, combo });
                proof {
                    assert(answer@ == combo@);
                }
                (Ok(answer), previous)
            },
        }
    }

    /// One step of the start-up cascade over the fallback combinations. `tried` is how many
    /// were tried so far and `last` how the last one went: its shortcut identifier when it
    /// parsed and registered, `None` otherwise.
    pub fn next_fallback(&mut self, tried: usize, last: Option<u32>) -> (a: CascadeAction)
        requires
            tried <= fallback_count(),
            last is Some ==> tried > 0,
        ensures
            (final(self)@, cascade_view(a)) == cascade_step_model(old(self)@, tried as int, last),
    {
        match last {
            Some(id) => {
                let combo = match fallback_hotkey(tried - 1) {
                    Some(s) => String::from_str(s),
                    None => String::new(),
                };
                self.hotkey = Some(Hotkey { id, combo });
                CascadeAction::Adopted
            },
            None => match fallback_hotkey(tried) {
                Some(s) => CascadeAction::Try(String::from_str(s)),
                None => CascadeAction::Surface,
            },
        }
    }

    /// How the launcher answers `event`.
    pub fn respond(&self, event: &LauncherEvent) -> (r: Response)
        ensures
            r == response_model(self@, *event),
    {
        match event {
            LauncherEvent::ShortcutPressed => Response::Toggle,
            LauncherEvent::ShortcutReleased => Response::Ignore,
            LauncherEvent::TrayMenu(id) => {
                if crate::text::same_text(id.as_str(), "show") {
                    Response::Toggle
                } else if crate::text::same_text(id.as_str(), "quit") {
                    Response::Quit
                } else {
                    Response::Ignore
                }
            },
            LauncherEvent::TrayClick { left, released } => {
                if *left && *released {
                    Response::Toggle
                } else {
                    Response::Ignore
                }
            },
            LauncherEvent::FocusLost => {
                if self.hide_suppressed {
                    Response::Ignore
                } else {
                    Response::AnimateOut
                }
            },
        }
    }

    /// What toggling the window does: with no window nothing; a visible window animates out;
    /// a hidden one is revealed, placed according to the full-size preference.
    pub fn toggle(&self, window_present: bool, visible: bool) -> (t: Toggle)
        ensures
            t == (if !window_present {
                Toggle::Nothing
            } else if visible {
                Toggle::AnimateOut
            } else {
                Toggle::Reveal { fullsize: self@.fullsize }
            }),
    {
        if !window_present {
            Toggle::Nothing
        } else if visible {
            Toggle::AnimateOut
        } else {
            Toggle::Reveal { fullsize: self.fullsize }
        }
    }
}

// ---------------------------------------------------------------------------
// Laws
// ---------------------------------------------------------------------------
/// A refused hotkey change (bad format or combination taken) leaves the whole state as it was.
pub proof fn law_refused_change_keeps_state(
    m: LauncherModel,
    combo: Seq<char>,
    parsed: Result<u32, Seq<char>>,
    registered: Result<(), Seq<char>>,
)
    ensures
        set_hotkey_model(m, combo, parsed, registered).1 is Err ==> set_hotkey_model(
            m,
            combo,
            parsed,
            registered,
        ).0 == m,
{
}

/// After an accepted hotkey change, the requested shortcut is the active one. Its recorded
/// text is the requested text, except when that very shortcut was already active: the state
/// is then left as it was, the earlier spelling included.
pub proof fn law_accepted_change_is_current(
    m: LauncherModel,
    combo: Seq<char>,
    parsed: Result<u32, Seq<char>>,
    registered: Result<(), Seq<char>>,
)
    ensures
        set_hotkey_model(m, combo, parsed, registered).1 is Ok ==> ({
            let after = set_hotkey_model(m, combo, parsed, registered).0;
            &&& parsed is Ok
            &&& set_hotkey_model(m, combo, parsed, registered).1 == Ok::<Seq<char>, Seq<char>>(
                combo,
            )
            &&& after.hotkey is Some
            &&& after.hotkey.unwrap().0 == parsed->Ok_0
            &&& (after.hotkey.unwrap().1 == combo || (m.hotkey is Some && m.hotkey.unwrap().0
                == parsed->Ok_0 && after == m))
        }),
{
}

/// A hotkey change never touches the display preferences.
pub proof fn law_change_keeps_preferences(
    m: LauncherModel,
    combo: Seq<char>,
    parsed: Result<u32, Seq<char>>,
    registered: Result<(), Seq<char>>,
)
    ensures
        set_hotkey_model(m, combo, parsed, registered).0.fullsize == m.fullsize,
        set_hotkey_model(m, combo, parsed, registered).0.hide_suppressed == m.hide_suppressed,
{
}

/// Asking again for the hotkey that an accepted change just set is answered `Ok` at once:
/// nothing is registered (whatever registration would give) and the state stays the same.
pub proof fn law_repeated_change_is_noop(
    m: LauncherModel,
    combo: Seq<char>,
    id: u32,
    first: Result<(), Seq<char>>,
    second: Result<(), Seq<char>>,
)
    requires
        set_hotkey_model(m, combo, Ok(id), first).1 is Ok,
    ensures
        ({
            let m1 = set_hotkey_model(m, combo, Ok(id), first).0;
            &&& begin_model(m1, combo, Ok(id)) == BeginModel::Done(Ok(combo))
            &&& set_hotkey_model(m1, combo, Ok(id), second) == (m1, Ok::<Seq<char>, Seq<char>>(
                combo,
            ))
        }),
{
}

proof fn lemma_cascade_from(m: LauncherModel, outcomes: Seq<Option<u32>>, tried: int)
    requires
        outcomes.len() >= fallback_count(),
        0 <= tried <= fallback_count(),
    ensures
        run_cascade(m, outcomes, tried, None).hotkey == match first_registered(outcomes, tried) {
            Some(h) => Some(h),
            None => m.hotkey,
        },
        run_cascade(m, outcomes, tried, None).fullsize == m.fullsize,
        run_cascade(m, outcomes, tried, None).hide_suppressed == m.hide_suppressed,
    decreases fallback_count() - tried,
{
    if tried < fallback_count() {
        match outcomes[tried] {
            Some(id) => {
                assert(run_cascade(m, outcomes, tried + 1, Some(id)) == cascade_step_model(
                    m,
                    tried + 1,
                    Some(id),
                ).0);
            },
            None => {
                lemma_cascade_from(m, outcomes, tried + 1);
            },
        }
    }
}

/// Start-up tries the fallback combinations in order and the first that registers wins:
/// from a state without a hotkey, the cascade ends with the first combination that
/// registered as the active hotkey, or with no hotkey at all (the window is then surfaced)
/// when every combination was refused.
pub proof fn law_first_free_fallback_wins(m: LauncherModel, outcomes: Seq<Option<u32>>)
    requires
        m.hotkey is None,
        outcomes.len() >= fallback_count(),
    ensures
        run_cascade(m, outcomes, 0, None).hotkey == first_registered(outcomes, 0),
{
    lemma_cascade_from(m, outcomes, 0);
}

/// While the editor suppresses hiding, losing the focus never hides the window; otherwise
/// it always starts the exit animation.
pub proof fn law_focus_loss_respects_suppression(m: LauncherModel)
    ensures
        m.hide_suppressed ==> response_model(m, LauncherEvent::FocusLost) == Response::Ignore,
        !m.hide_suppressed ==> response_model(m, LauncherEvent::FocusLost)
            == Response::AnimateOut,
{
}

/// A click on the tray icon shows or hides the window exactly when it is the release of the
/// left button; every other click (a press, or any right-button click, which opens the tray
/// menu) is ignored, whatever the state.
pub proof fn law_only_left_release_toggles(m: LauncherModel, left: bool, released: bool)
    ensures
        (response_model(m, LauncherEvent::TrayClick { left, released }) == Response::Toggle) <==> (
        left && released),
        !(left && released) ==> response_model(m, LauncherEvent::TrayClick { left, released })
            == Response::Ignore,
{
}

/// The hotkey answers only its press, which always shows or hides the window; the tray menu's
/// `show` entry does the same and `quit` quits, whatever the state.
pub proof fn law_hotkey_and_menu_answers(m: LauncherModel, id: String)
    ensures
        response_model(m, LauncherEvent::ShortcutPressed) == Response::Toggle,
        response_model(m, LauncherEvent::ShortcutReleased) == Response::Ignore,
        id@ == "show"@ ==> response_model(m, LauncherEvent::TrayMenu(id)) == Response::Toggle,
        id@ == "quit"@ ==> response_model(m, LauncherEvent::TrayMenu(id)) == Response::Quit,
        id@ != "show"@ && id@ != "quit"@ ==> response_model(m, LauncherEvent::TrayMenu(id))
            == Response::Ignore,
{
    reveal_strlit("show");
    reveal_strlit("quit");
    assert("show"@[0] != "quit"@[0]);
}

/// During the start-up cascade, a combination that registered is always adopted as the active
/// hotkey and start-up goes on; the window is surfaced only when the last combination was
/// refused and none is left to try; while some are left, the next one in order is tried and
/// the state does not change.
pub proof fn law_cascade_surfaces_only_when_all_refused(
    m: LauncherModel,
    tried: int,
    last: Option<u32>,
)
    requires
        0 <= tried <= fallback_count(),
        last is Some ==> tried > 0,
    ensures
        (cascade_step_model(m, tried, last).1 == CascadeModel::Surface) <==> (last is None && tried
            >= fallback_count()),
        last matches Some(id) ==> cascade_step_model(m, tried, last).1 == CascadeModel::Adopted
            && cascade_step_model(m, tried, last).0.hotkey == Some((id, fallback_combo(tried - 1))),
        last is None && tried < fallback_count() ==> cascade_step_model(m, tried, last) == (
            m,
            CascadeModel::Try(fallback_combo(tried)),
        ),
        cascade_step_model(m, tried, last).0.fullsize == m.fullsize,
        cascade_step_model(m, tried, last).0.hide_suppressed == m.hide_suppressed,
{
}

} // verus!
