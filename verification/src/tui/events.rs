//! How one terminal event changes the interface: popups first, then the
//! key bindings of the search bar and the result list.
use vstd::prelude::*;

use crate::model::Package;
use crate::tui::app::{next_row, prev_row, Action, App, Focus, ListState, Mode, Popup};
use crate::tui::input::{
    has_alt, has_control, input_cursor, input_handle_key, input_text, input_value, key_edit, Key,
    KeyKind, KeyPress,
    TermEvent,
};

verus! {

/// The action that confirming a popup asks for.
pub open spec fn confirmed(p: Popup) -> Action {
    match p {
        Popup::Confirm(pkg) => Action::Install(pkg),
        Popup::ConfirmRemove(pkg) => Action::Remove(pkg),
        Popup::ConfirmRefresh => Action::Refresh,
        _ => Action::Nothing,
    }
}

/// The popup asks a yes/no question.
pub open spec fn is_question(p: Popup) -> bool {
    p is Confirm || p is ConfirmRemove || p is ConfirmRefresh
}

/// The popup and action after a key press `k` on the open popup `p`:
/// Esc, q, n and N close it; ? closes the help; Enter confirms (or just
/// closes a popup that asks nothing); y and Y confirm a question.
pub open spec fn popup_key(p: Popup, k: KeyPress) -> (Popup, Action) {
    match k.code {
        Key::Esc => (Popup::Closed, Action::Nothing),
        Key::Enter => (Popup::Closed, confirmed(p)),
        Key::Char(c) => if c == 'q' || c == 'n' || c == 'N' {
            (Popup::Closed, Action::Nothing)
        } else if c == '?' {
            if p is Help {
                (Popup::Closed, Action::Nothing)
            } else {
                (p, Action::Nothing)
            }
        } else if c == 'y' || c == 'Y' {
            if is_question(p) {
                (Popup::Closed, confirmed(p))
            } else {
                (p, Action::Nothing)
            }
        } else {
            (p, Action::Nothing)
        },
        _ => (p, Action::Nothing),
    }
}

/// Which binding a key press selects.
pub enum KeyCase {
    /// Tab, BackTab: switch between Search and Installed.
    SwitchMode,
    /// ? in the list: the help popup.
    OpenHelp,
    /// r, R, F5 in the list: ask to refresh the sync databases.
    AskRefresh,
    /// q in the list, or Ctrl-C anywhere.
    Quit,
    /// Esc: the other pane gets the keyboard.
    ToggleFocus,
    /// /: the search bar gets the keyboard.
    FocusSearch,
    /// Enter in the search bar: search, then move to the list.
    RunSearch,
    /// Enter in the list: ask to install (Search) or remove (Installed).
    ConfirmSelected,
    /// Delete, Backspace, d, D, x, X in the Installed list: ask to remove.
    AskRemove,
    /// i, I in the list: details of the selected package.
    ShowInfo,
    /// i, I, Up, k, Down, j in the search bar: edit, and a search is due.
    Edit,
    /// Any other key in the search bar: edit; a search is due if the text changed.
    EditIfChanged,
    /// Up, k in the list.
    Prev,
    /// Down, j in the list.
    Next,
    /// A plain character in the list: the search bar gets the keyboard and the character.
    JumpAndType,
    /// Nothing happens.
    Ignore,
}

/// The binding that the key press `k` selects in state `app`.
#[verifier::opaque]
pub open spec fn key_case(app: App, k: KeyPress) -> KeyCase {
    let list_idle = app.focus == Focus::List && app.popup is Closed;
    let c = k.code;
    if c == Key::Tab || c == Key::BackTab {
        KeyCase::SwitchMode
    } else if c == Key::Char('?') && list_idle {
        KeyCase::OpenHelp
    } else if (c == Key::Char('r') || c == Key::Char('R') || c == Key::F(5)) && list_idle {
        KeyCase::AskRefresh
    } else if c == Key::Char('q') && list_idle {
        KeyCase::Quit
    } else if c == Key::Char('c') && has_control(k.modifiers) {
        KeyCase::Quit
    } else if c == Key::Esc {
        KeyCase::ToggleFocus
    } else if c == Key::Char('/') {
        KeyCase::FocusSearch
    } else if c == Key::Enter {
        if app.focus == Focus::Search {
            KeyCase::RunSearch
        } else if app.popup is Closed {
            KeyCase::ConfirmSelected
        } else {
            KeyCase::Ignore
        }
    } else if (c == Key::Delete || c == Key::Backspace || c == Key::Char('d') || c == Key::Char(
        'D',
    ) || c == Key::Char('x') || c == Key::Char('X')) && app.mode == Mode::Installed && list_idle {
        KeyCase::AskRemove
    } else if c == Key::Char('i') || c == Key::Char('I') {
        if list_idle {
            KeyCase::ShowInfo
        } else if app.focus == Focus::Search {
            KeyCase::Edit
        } else {
            KeyCase::Ignore
        }
    } else if c == Key::Up || c == Key::Char('k') {
        if app.focus == Focus::List {
            KeyCase::Prev
        } else {
            KeyCase::Edit
        }
    } else if c == Key::Down || c == Key::Char('j') {
        if app.focus == Focus::List {
            KeyCase::Next
        } else {
            KeyCase::Edit
        }
    } else if app.focus == Focus::Search {
        KeyCase::EditIfChanged
    } else if c is Char && !has_control(k.modifiers) && !has_alt(k.modifiers) {
        KeyCase::JumpAndType
    } else {
        KeyCase::Ignore
    }
}

/// What is known of the search field after it handled `k`: text and
/// cursor as `key_edit` gives them where `tui-input` fixes them, and the
/// cursor stays within the text.
pub open spec fn edited(before: tui_input::Input, after: tui_input::Input, k: KeyPress) -> bool {
    &&& key_edit(input_text(before), input_cursor(before), k) matches Some(e) ==> (input_text(
        after,
    ) == e.0 && input_cursor(after) == e.1)
    &&& input_cursor(before) <= input_text(before).len() ==> input_cursor(after) <= input_text(
        after,
    ).len()
}

/// The popup that asks about the selected package, if one is selected.
pub open spec fn ask_about(app: App, make: spec_fn(Package) -> Popup) -> Popup {
    match app.selected_package() {
        Some(p) => make(p),
        None => app.popup,
    }
}

/// What the key press `k` at time `now` does to `before` (giving `after`
/// and the action `a`), by the binding it selects.
#[verifier::opaque]
pub open spec fn key_step(before: App, after: App, a: Action, k: KeyPress, now: u64) -> bool {
    match key_case(before, k) {
        KeyCase::SwitchMode => exists|mid: App| #[trigger]
            App::switched(before, mid) && App::fetch_or_idle(mid, after, a),
        KeyCase::OpenHelp => a is Nothing && after == (App { popup: Popup::Help, ..before }),
        KeyCase::AskRefresh => a is Nothing && after == (App {
            popup: Popup::ConfirmRefresh,
            ..before
        }),
        KeyCase::Quit => a is Nothing && after == (App { should_quit: true, ..before }),
        KeyCase::ToggleFocus => a is Nothing && after == (App {
            focus: if before.focus == Focus::Search {
                Focus::List
            } else {
                Focus::Search
            },
            ..before
        }),
        KeyCase::FocusSearch => a is Nothing && after == (App { focus: Focus::Search, ..before }),
        KeyCase::RunSearch => after.focus == Focus::List && App::search_step(
            before,
            App { focus: before.focus, ..after },
            a,
            before.query_text(),
        ),
        KeyCase::ConfirmSelected => a is Nothing && after == (App {
            popup: if before.mode == Mode::Search {
                ask_about(before, |p: Package| Popup::Confirm(p))
            } else {
                ask_about(before, |p: Package| Popup::ConfirmRemove(p))
            },
            ..before
        }),
        KeyCase::AskRemove => a is Nothing && after == (App {
            popup: ask_about(before, |p: Package| Popup::ConfirmRemove(p)),
            ..before
        }),
        KeyCase::ShowInfo => a is Nothing && after == (App {
            popup: ask_about(before, |p: Package| Popup::Info(p)),
            ..before
        }),
        KeyCase::Edit => {
            &&& a is Nothing
            &&& edited(before.input, after.input, k)
            &&& after == (App {
                input: after.input,
                needs_search: true,
                last_input_change: now,
                ..before
            })
        },
        KeyCase::EditIfChanged => {
            let changed = input_text(after.input) != input_text(before.input);
            &&& a is Nothing
            &&& edited(before.input, after.input, k)
            &&& after == (App {
                input: after.input,
                needs_search: before.needs_search || changed,
                last_input_change: if changed {
                    now
                } else {
                    before.last_input_change
                },
                ..before
            })
        },
        KeyCase::Prev => a is Nothing && after == (App {
            list_state: ListState {
                selected: prev_row(before.list_state.view(), before.packages@.len()),
            },
            ..before
        }),
        KeyCase::Next => a is Nothing && after == (App {
            list_state: ListState {
                selected: next_row(before.list_state.view(), before.packages@.len()),
            },
            ..before
        }),
        KeyCase::JumpAndType => {
            &&& a is Nothing
            &&& edited(before.input, after.input, k)
            &&& after == (App {
                focus: Focus::Search,
                input: after.input,
                needs_search: true,
                last_input_change: now,
                ..before
            })
        },
        KeyCase::Ignore => a is Nothing && after == before,
    }
}

/// What the event `ev` at time `now` does to `before` when no popup takes it.
pub open spec fn event_step(before: App, after: App, a: Action, ev: TermEvent, now: u64) -> bool {
    match ev {
        TermEvent::Key(k) => if k.kind == KeyKind::Press {
            key_step(before, after, a, k, now)
        } else {
            a is Nothing && after == before
        },
        _ => a is Nothing && after == before,
    }
}

/// The event is a press of Tab or BackTab.
pub open spec fn is_tab_press(ev: TermEvent) -> bool {
    ev matches TermEvent::Key(k) && k.kind == KeyKind::Press && (k.code == Key::Tab || k.code
        == Key::BackTab)
}

/// What `law_event_frame` states of one key press.
pub open spec fn key_frame(before: App, after: App, k: KeyPress) -> bool {
    &&& after.same_settings(&before)
    &&& before.should_quit ==> after.should_quit
    &&& after.mode != before.mode ==> (k.code == Key::Tab || k.code == Key::BackTab)
    &&& after.search_cache == before.search_cache
    &&& k.code == Key::Tab && k.modifiers.bits == 0 ==> input_text(after.input) == input_text(
        before.input,
    )
}

proof fn lemma_key_frame_switch(before: App, after: App, a: Action, k: KeyPress, now: u64)
    requires
        key_case(before, k) == KeyCase::SwitchMode,
        key_step(before, after, a, k, now),
    ensures
        key_frame(before, after, k),
{
    reveal(key_step);
    reveal(key_case);
    let mid = choose|mid: App| #[trigger] App::switched(before, mid) && App::fetch_or_idle(mid, after, a);
    if mid.is_loading {
        App::lemma_search_frame(mid, after, a, mid.query_text());
    }
}

proof fn lemma_key_frame_run(before: App, after: App, a: Action, k: KeyPress, now: u64)
    requires
        key_case(before, k) == KeyCase::RunSearch,
        key_step(before, after, a, k, now),
    ensures
        key_frame(before, after, k),
{
    reveal(key_step);
    reveal(key_case);
    App::lemma_search_frame(before, App { focus: before.focus, ..after }, a, before.query_text());
}

proof fn lemma_key_frame_openhelp(before: App, after: App, a: Action, k: KeyPress, now: u64)
    requires
        key_case(before, k) == KeyCase::OpenHelp,
        key_step(before, after, a, k, now),
    ensures
        key_frame(before, after, k),
{
    reveal(key_step);
    reveal(key_case);
}

proof fn lemma_key_frame_askrefresh(before: App, after: App, a: Action, k: KeyPress, now: u64)
    requires
        key_case(before, k) == KeyCase::AskRefresh,
        key_step(before, after, a, k, now),
    ensures
        key_frame(before, after, k),
{
    reveal(key_step);
    reveal(key_case);
}

proof fn lemma_key_frame_quit(before: App, after: App, a: Action, k: KeyPress, now: u64)
    requires
        key_case(before, k) == KeyCase::Quit,
        key_step(before, after, a, k, now),
    ensures
        key_frame(before, after, k),
{
    reveal(key_step);
    reveal(key_case);
}

proof fn lemma_key_frame_togglefocus(before: App, after: App, a: Action, k: KeyPress, now: u64)
    requires
        key_case(before, k) == KeyCase::ToggleFocus,
        key_step(before, after, a, k, now),
    ensures
        key_frame(before, after, k),
{
    reveal(key_step);
    reveal(key_case);
}

proof fn lemma_key_frame_focussearch(before: App, after: App, a: Action, k: KeyPress, now: u64)
    requires
        key_case(before, k) == KeyCase::FocusSearch,
        key_step(before, after, a, k, now),
    ensures
        key_frame(before, after, k),
{
    reveal(key_step);
    reveal(key_case);
}

proof fn lemma_key_frame_confirmselected(before: App, after: App, a: Action, k: KeyPress, now: u64)
    requires
        key_case(before, k) == KeyCase::ConfirmSelected,
        key_step(before, after, a, k, now),
    ensures
        key_frame(before, after, k),
{
    reveal(key_step);
    reveal(key_case);
}

proof fn lemma_key_frame_askremove(before: App, after: App, a: Action, k: KeyPress, now: u64)
    requires
        key_case(before, k) == KeyCase::AskRemove,
        key_step(before, after, a, k, now),
    ensures
        key_frame(before, after, k),
{
    reveal(key_step);
    reveal(key_case);
}

proof fn lemma_key_frame_showinfo(before: App, after: App, a: Action, k: KeyPress, now: u64)
    requires
        key_case(before, k) == KeyCase::ShowInfo,
        key_step(before, after, a, k, now),
    ensures
        key_frame(before, after, k),
{
    reveal(key_step);
    reveal(key_case);
}

proof fn lemma_key_frame_edit(before: App, after: App, a: Action, k: KeyPress, now: u64)
    requires
        key_case(before, k) == KeyCase::Edit,
        key_step(before, after, a, k, now),
    ensures
        key_frame(before, after, k),
{
    reveal(key_step);
    reveal(key_case);
}

proof fn lemma_key_frame_editifchanged(before: App, after: App, a: Action, k: KeyPress, now: u64)
    requires
        key_case(before, k) == KeyCase::EditIfChanged,
        key_step(before, after, a, k, now),
    ensures
        key_frame(before, after, k),
{
    reveal(key_step);
    reveal(key_case);
}

proof fn lemma_key_frame_prev(before: App, after: App, a: Action, k: KeyPress, now: u64)
    requires
        key_case(before, k) == KeyCase::Prev,
        key_step(before, after, a, k, now),
    ensures
        key_frame(before, after, k),
{
    reveal(key_step);
    reveal(key_case);
}

proof fn lemma_key_frame_next(before: App, after: App, a: Action, k: KeyPress, now: u64)
    requires
        key_case(before, k) == KeyCase::Next,
        key_step(before, after, a, k, now),
    ensures
        key_frame(before, after, k),
{
    reveal(key_step);
    reveal(key_case);
}

proof fn lemma_key_frame_jumpandtype(before: App, after: App, a: Action, k: KeyPress, now: u64)
    requires
        key_case(before, k) == KeyCase::JumpAndType,
        key_step(before, after, a, k, now),
    ensures
        key_frame(before, after, k),
{
    reveal(key_step);
    reveal(key_case);
}

proof fn lemma_key_frame_ignore(before: App, after: App, a: Action, k: KeyPress, now: u64)
    requires
        key_case(before, k) == KeyCase::Ignore,
        key_step(before, after, a, k, now),
    ensures
        key_frame(before, after, k),
{
    reveal(key_step);
    reveal(key_case);
}

/// No key changes the filters, settings or theme; once asked to quit the
/// interface stays so; only Tab and BackTab change the mode, and Tab
/// (without modifiers) leaves the search text as it was; the remembered
/// results stay.
pub proof fn law_event_frame(before: App, after: App, a: Action, ev: TermEvent, now: u64)
    requires
        event_step(before, after, a, ev, now),
    ensures
        after.same_settings(&before),
        before.should_quit ==> after.should_quit,
        after.mode != before.mode ==> is_tab_press(ev),
        after.search_cache == before.search_cache,
        (ev matches TermEvent::Key(k) && k.code == Key::Tab && k.modifiers.bits == 0)
            ==> input_text(after.input) == input_text(before.input),
{
    if let TermEvent::Key(k) = ev {
        if k.kind == KeyKind::Press {
            match key_case(before, k) {
                KeyCase::SwitchMode => lemma_key_frame_switch(before, after, a, k, now),
                KeyCase::OpenHelp => lemma_key_frame_openhelp(before, after, a, k, now),
                KeyCase::AskRefresh => lemma_key_frame_askrefresh(before, after, a, k, now),
                KeyCase::Quit => lemma_key_frame_quit(before, after, a, k, now),
                KeyCase::ToggleFocus => lemma_key_frame_togglefocus(before, after, a, k, now),
                KeyCase::FocusSearch => lemma_key_frame_focussearch(before, after, a, k, now),
                KeyCase::RunSearch => lemma_key_frame_run(before, after, a, k, now),
                KeyCase::ConfirmSelected => lemma_key_frame_confirmselected(before, after, a, k, now),
                KeyCase::AskRemove => lemma_key_frame_askremove(before, after, a, k, now),
                KeyCase::ShowInfo => lemma_key_frame_showinfo(before, after, a, k, now),
                KeyCase::Edit => lemma_key_frame_edit(before, after, a, k, now),
                KeyCase::EditIfChanged => lemma_key_frame_editifchanged(before, after, a, k, now),
                KeyCase::Prev => lemma_key_frame_prev(before, after, a, k, now),
                KeyCase::Next => lemma_key_frame_next(before, after, a, k, now),
                KeyCase::JumpAndType => lemma_key_frame_jumpandtype(before, after, a, k, now),
                KeyCase::Ignore => lemma_key_frame_ignore(before, after, a, k, now),
            }
        }
    }
}

/// Installing, removing and refreshing are only asked for by confirming
/// the popup that asks about exactly that.
pub proof fn law_action_needs_confirmation(p: Popup, k: KeyPress)
    ensures
        popup_key(p, k).1 matches Action::Install(pkg) ==> p == Popup::Confirm(pkg),
        popup_key(p, k).1 matches Action::Remove(pkg) ==> p == Popup::ConfirmRemove(pkg),
        popup_key(p, k).1 is Refresh ==> p is ConfirmRefresh,
        popup_key(p, k).1 is Search ==> false,
        !(popup_key(p, k).1 is Nothing) ==> popup_key(p, k).0 is Closed,
{
}

/// Enter on a selected package in the list, with no popup open, asks
/// about it: in Search mode whether to install it, in Installed mode
/// whether to remove it; answering y then asks for exactly that.
pub proof fn law_enter_asks_about_selected(
    before: App,
    after: App,
    a: Action,
    k: KeyPress,
    now: u64,
    p: Package,
)
    requires
        before.focus == Focus::List,
        before.popup is Closed,
        before.selected_package() == Some(p),
        k.code == Key::Enter,
        k.kind == KeyKind::Press,
        key_step(before, after, a, k, now),
    ensures
        a is Nothing,
        before.mode == Mode::Search ==> after.popup == Popup::Confirm(p),
        before.mode == Mode::Installed ==> after.popup == Popup::ConfirmRemove(p),
        before.mode == Mode::Search ==> popup_key(
            after.popup,
            KeyPress { code: Key::Char('y'), modifiers: k.modifiers, kind: KeyKind::Press },
        ) == (Popup::Closed, Action::Install(p)),
        before.mode == Mode::Installed ==> popup_key(
            after.popup,
            KeyPress { code: Key::Char('y'), modifiers: k.modifiers, kind: KeyKind::Press },
        ) == (Popup::Closed, Action::Remove(p)),
{
    reveal(key_step);
    reveal(key_case);
    assert(key_case(before, k) == KeyCase::ConfirmSelected);
}

/// Esc, q, n and N always close the popup and ask for nothing.
pub proof fn law_popup_dismiss(p: Popup, k: KeyPress)
    requires
        k.code == Key::Esc || k.code == Key::Char('q') || k.code == Key::Char('n') || k.code
            == Key::Char('N'),
    ensures
        popup_key(p, k) == (Popup::Closed, Action::Nothing),
{
}

/// A key press `k` on the open popup `p` (see `popup_key`).
pub fn popup_take_key(p: &mut Popup, k: KeyPress) -> (a: Action)
    ensures
        (*final(p), a) == popup_key(*old(p), k),
{
    let closes = match k.code {
        Key::Esc => true,
        Key::Char(c) => c == 'q' || c == 'n' || c == 'N',
        _ => false,
    };
    if closes {
        *p = Popup::Closed;
        return Action::Nothing;
    }
    if k.code == Key::Char('?') {
        if let Popup::Help = *p {
            *p = Popup::Closed;
        }
        return Action::Nothing;
    }
    let confirm = k.code == Key::Enter || k.code == Key::Char('y') || k.code == Key::Char('Y');
    if !confirm {
        return Action::Nothing;
    }
    let question = match *p {
        Popup::Confirm(_) | Popup::ConfirmRemove(_) | Popup::ConfirmRefresh => true,
        _ => false,
    };
    if k.code != Key::Enter && !question {
        return Action::Nothing;
    }
    let mut taken = Popup::Closed;
    std::mem::swap(&mut taken, p);
    match taken {
        Popup::Confirm(pkg) => Action::Install(pkg),
        Popup::ConfirmRemove(pkg) => Action::Remove(pkg),
        Popup::ConfirmRefresh => Action::Refresh,
        _ => Action::Nothing,
    }
}

impl App {
    /// An open popup takes every event: a key press works on it as
    /// `popup_key` says, anything else is swallowed. Without a popup the
    /// event is left (`false`) and nothing changes.
    pub fn handle_popup_event(&mut self, ev: TermEvent) -> (r: (bool, Action))
        ensures
            old(self).popup is Closed ==> !r.0 && r.1 is Nothing && *final(self) == *old(self),
            !(old(self).popup is Closed) ==> r.0 && *final(self) == (App {
                popup: final(self).popup,
                ..*old(self)
            }) && match ev {
                TermEvent::Key(k) => if k.kind == KeyKind::Press {
                    (final(self).popup, r.1) == popup_key(old(self).popup, k)
                } else {
                    final(self).popup == old(self).popup && r.1 is Nothing
                },
                _ => final(self).popup == old(self).popup && r.1 is Nothing,
            },
    {
        if let Popup::Closed = self.popup {
            return (false, Action::Nothing);
        }
        match ev {
            TermEvent::Key(k) => if k.kind == KeyKind::Press {
                let a = popup_take_key(&mut self.popup, k);
                (true, a)
            } else {
                (true, Action::Nothing)
            },
            _ => (true, Action::Nothing),
        }
    }
}

impl App {
    /// The binding that `k` selects now (see `key_case`).
    pub fn key_case_of(&self, k: KeyPress) -> (c: KeyCase)
        ensures
            c == key_case(*self, k),
    {
        reveal(key_case);
        let list_idle = self.focus == Focus::List && self.popup_closed();
        let c = k.code;
        if c == Key::Tab || c == Key::BackTab {
            KeyCase::SwitchMode
        } else if c == Key::Char('?') && list_idle {
            KeyCase::OpenHelp
        } else if (c == Key::Char('r') || c == Key::Char('R') || c == Key::F(5)) && list_idle {
            KeyCase::AskRefresh
        } else if c == Key::Char('q') && list_idle {
            KeyCase::Quit
        } else if c == Key::Char('c') && k.modifiers.contains_control() {
            KeyCase::Quit
        } else if c == Key::Esc {
            KeyCase::ToggleFocus
        } else if c == Key::Char('/') {
            KeyCase::FocusSearch
        } else if c == Key::Enter {
            if self.focus == Focus::Search {
                KeyCase::RunSearch
            } else if self.popup_closed() {
                KeyCase::ConfirmSelected
            } else {
                KeyCase::Ignore
            }
        } else if (c == Key::Delete || c == Key::Backspace || c == Key::Char('d') || c
            == Key::Char('D') || c == Key::Char('x') || c == Key::Char('X')) && self.mode
            == Mode::Installed && list_idle {
            KeyCase::AskRemove
        } else if c == Key::Char('i') || c == Key::Char('I') {
            if list_idle {
                KeyCase::ShowInfo
            } else if self.focus == Focus::Search {
                KeyCase::Edit
            } else {
                KeyCase::Ignore
            }
        } else if c == Key::Up || c == Key::Char('k') {
            if self.focus == Focus::List {
                KeyCase::Prev
            } else {
                KeyCase::Edit
            }
        } else if c == Key::Down || c == Key::Char('j') {
            if self.focus == Focus::List {
                KeyCase::Next
            } else {
                KeyCase::Edit
            }
        } else if self.focus == Focus::Search {
            KeyCase::EditIfChanged
        } else if matches!(c, Key::Char(_)) && !k.modifiers.contains_control()
            && !k.modifiers.contains_alt() {
            KeyCase::JumpAndType
        } else {
            KeyCase::Ignore
        }
    }

    /// No popup is open.
    pub fn popup_closed(&self) -> (r: bool)
        ensures
            r == (self.popup is Closed),
    {
        if let Popup::Closed = self.popup {
            true
        } else {
            false
        }
    }

    /// A copy of the selected package, if a row of the list is selected.
    pub fn selected_copy(&self) -> (r: Option<Package>)
        ensures
            r == self.selected_package(),
    {
        match self.list_state.selected() {
            Some(i) => if i < self.packages.len() {
                Some(self.packages[i].duplicate())
            } else {
                None
            },
            None => None,
        }
    }

    /// What an event does when no popup takes it (see `event_step`).
    pub fn handle_event(&mut self, ev: TermEvent, now: u64) -> (a: Action)
        requires
            old(self).wf(),
        ensures
            final(self).wf(),
            event_step(*old(self), *final(self), a, ev, now),
    {
        match ev {
            TermEvent::Key(k) => if k.kind == KeyKind::Press {
                self.handle_key(k, now)
            } else {
                Action::Nothing
            },
            _ => Action::Nothing,
        }
    }

    /// A key press (see `key_step`).
    pub fn handle_key(&mut self, k: KeyPress, now: u64) -> (a: Action)
        requires
            old(self).wf(),
            k.kind == KeyKind::Press,
        ensures
            final(self).wf(),
            key_step(*old(self), *final(self), a, k, now),
    {
        match self.key_case_of(k) {
            KeyCase::SwitchMode => self.on_switch(k, now),
            KeyCase::OpenHelp => self.on_help(k, now),
            KeyCase::AskRefresh => self.on_refresh(k, now),
            KeyCase::Quit => self.on_quit(k, now),
            KeyCase::ToggleFocus => self.on_toggle_focus(k, now),
            KeyCase::FocusSearch => self.on_focus_search(k, now),
            KeyCase::RunSearch => self.on_run_search(k, now),
            KeyCase::ConfirmSelected => self.on_confirm(k, now),
            KeyCase::AskRemove => self.on_ask_remove(k, now),
            KeyCase::ShowInfo => self.on_info(k, now),
            KeyCase::Edit => self.on_edit(k, now),
            KeyCase::EditIfChanged => self.on_edit_if_changed(k, now),
            KeyCase::Prev => self.on_prev(k, now),
            KeyCase::Next => self.on_next(k, now),
            KeyCase::JumpAndType => self.on_jump(k, now),
            KeyCase::Ignore => self.on_ignore(k, now),
        }
    }

    fn on_switch(&mut self, k: KeyPress, now: u64) -> (a: Action)
        requires
            old(self).wf(),
            k.kind == KeyKind::Press,
            key_case(*old(self), k) == KeyCase::SwitchMode,
        ensures
            final(self).wf(),
            key_step(*old(self), *final(self), a, k, now),
    {
        proof {
            reveal(key_step);
        }
        self.switch_mode()
    }

    fn on_help(&mut self, k: KeyPress, now: u64) -> (a: Action)
        requires
            old(self).wf(),
            k.kind == KeyKind::Press,
            key_case(*old(self), k) == KeyCase::OpenHelp,
        ensures
            final(self).wf(),
            key_step(*old(self), *final(self), a, k, now),
    {
        proof {
            reveal(key_step);
        }
        self.popup = Popup::Help;
        Action::Nothing
    }

    fn on_refresh(&mut self, k: KeyPress, now: u64) -> (a: Action)
        requires
            old(self).wf(),
            k.kind == KeyKind::Press,
            key_case(*old(self), k) == KeyCase::AskRefresh,
        ensures
            final(self).wf(),
            key_step(*old(self), *final(self), a, k, now),
    {
        proof {
            reveal(key_step);
        }
        self.popup = Popup::ConfirmRefresh;
        Action::Nothing
    }

    fn on_quit(&mut self, k: KeyPress, now: u64) -> (a: Action)
        requires
            old(self).wf(),
            k.kind == KeyKind::Press,
            key_case(*old(self), k) == KeyCase::Quit,
        ensures
            final(self).wf(),
            key_step(*old(self), *final(self), a, k, now),
    {
        proof {
            reveal(key_step);
        }
        self.should_quit = true;
        Action::Nothing
    }

    fn on_toggle_focus(&mut self, k: KeyPress, now: u64) -> (a: Action)
        requires
            old(self).wf(),
            k.kind == KeyKind::Press,
            key_case(*old(self), k) == KeyCase::ToggleFocus,
        ensures
            final(self).wf(),
            key_step(*old(self), *final(self), a, k, now),
    {
        proof {
            reveal(key_step);
        }
        self.focus = if self.focus == Focus::Search {
            Focus::List
        } else {
            Focus::Search
        };
        Action::Nothing
    }

    #[verifier::rlimit(40)]
    fn on_focus_search(&mut self, k: KeyPress, now: u64) -> (a: Action)
        requires
            old(self).wf(),
            k.kind == KeyKind::Press,
            key_case(*old(self), k) == KeyCase::FocusSearch,
        ensures
            final(self).wf(),
            key_step(*old(self), *final(self), a, k, now),
    {
        proof {
            reveal(key_step);
        }
        self.focus = Focus::Search;
        Action::Nothing
    }

    fn on_run_search(&mut self, k: KeyPress, now: u64) -> (a: Action)
        requires
            old(self).wf(),
            k.kind == KeyKind::Press,
            key_case(*old(self), k) == KeyCase::RunSearch,
        ensures
            final(self).wf(),
            key_step(*old(self), *final(self), a, k, now),
    {
        proof {
            reveal(key_step);
        }
        self.run_search()
    }

    fn on_confirm(&mut self, k: KeyPress, now: u64) -> (a: Action)
        requires
            old(self).wf(),
            k.kind == KeyKind::Press,
            key_case(*old(self), k) == KeyCase::ConfirmSelected,
        ensures
            final(self).wf(),
            key_step(*old(self), *final(self), a, k, now),
    {
        proof {
            reveal(key_step);
        }
        if let Some(p) = self.selected_copy() {
            self.popup = if self.mode == Mode::Search {
                Popup::Confirm(p)
            } else {
                Popup::ConfirmRemove(p)
            };
        }
        Action::Nothing
    }

    fn on_ask_remove(&mut self, k: KeyPress, now: u64) -> (a: Action)
        requires
            old(self).wf(),
            k.kind == KeyKind::Press,
            key_case(*old(self), k) == KeyCase::AskRemove,
        ensures
            final(self).wf(),
            key_step(*old(self), *final(self), a, k, now),
    {
        proof {
            reveal(key_step);
        }
        if let Some(p) = self.selected_copy() {
            self.popup = Popup::ConfirmRemove(p);
        }
        Action::Nothing
    }

    fn on_info(&mut self, k: KeyPress, now: u64) -> (a: Action)
        requires
            old(self).wf(),
            k.kind == KeyKind::Press,
            key_case(*old(self), k) == KeyCase::ShowInfo,
        ensures
            final(self).wf(),
            key_step(*old(self), *final(self), a, k, now),
    {
        proof {
            reveal(key_step);
        }
        if let Some(p) = self.selected_copy() {
            self.popup = Popup::Info(p);
        }
        Action::Nothing
    }

    fn on_edit(&mut self, k: KeyPress, now: u64) -> (a: Action)
        requires
            old(self).wf(),
            k.kind == KeyKind::Press,
            key_case(*old(self), k) == KeyCase::Edit,
        ensures
            final(self).wf(),
            key_step(*old(self), *final(self), a, k, now),
    {
        proof {
            reveal(key_step);
        }
        input_handle_key(&mut self.input, k);
        self.needs_search = true;
        self.last_input_change = now;
        Action::Nothing
    }

    fn on_edit_if_changed(&mut self, k: KeyPress, now: u64) -> (a: Action)
        requires
            old(self).wf(),
            k.kind == KeyKind::Press,
            key_case(*old(self), k) == KeyCase::EditIfChanged,
        ensures
            final(self).wf(),
            key_step(*old(self), *final(self), a, k, now),
    {
        proof {
            reveal(key_step);
        }
        self.edit_if_changed(k, now);
        Action::Nothing
    }

    fn on_prev(&mut self, k: KeyPress, now: u64) -> (a: Action)
        requires
            old(self).wf(),
            k.kind == KeyKind::Press,
            key_case(*old(self), k) == KeyCase::Prev,
        ensures
            final(self).wf(),
            key_step(*old(self), *final(self), a, k, now),
    {
        proof {
            reveal(key_step);
        }
        self.select_prev();
        Action::Nothing
    }

    fn on_next(&mut self, k: KeyPress, now: u64) -> (a: Action)
        requires
            old(self).wf(),
            k.kind == KeyKind::Press,
            key_case(*old(self), k) == KeyCase::Next,
        ensures
            final(self).wf(),
            key_step(*old(self), *final(self), a, k, now),
    {
        proof {
            reveal(key_step);
        }
        self.select_next();
        Action::Nothing
    }

    fn on_jump(&mut self, k: KeyPress, now: u64) -> (a: Action)
        requires
            old(self).wf(),
            k.kind == KeyKind::Press,
            key_case(*old(self), k) == KeyCase::JumpAndType,
        ensures
            final(self).wf(),
            key_step(*old(self), *final(self), a, k, now),
    {
        proof {
            reveal(key_step);
        }
        self.focus = Focus::Search;
        input_handle_key(&mut self.input, k);
        self.needs_search = true;
        self.last_input_change = now;
        Action::Nothing
    }

    fn on_ignore(&mut self, k: KeyPress, now: u64) -> (a: Action)
        requires
            old(self).wf(),
            k.kind == KeyKind::Press,
            key_case(*old(self), k) == KeyCase::Ignore,
        ensures
            final(self).wf(),
            key_step(*old(self), *final(self), a, k, now),
    {
        proof {
            reveal(key_step);
        }
        Action::Nothing
    }

    /// Enter in the search bar: search, then the list gets the keyboard.
    fn run_search(&mut self) -> (a: Action)
        requires
            old(self).wf(),
        ensures
            final(self).wf(),
            final(self).focus == Focus::List,
            App::search_step(
                *old(self),
                App { focus: old(self).focus, ..*final(self) },
                a,
                old(self).query_text(),
            ),
    {
        let a = self.trigger_search();
        proof {
            App::lemma_search_frame(*old(self), *self, a, old(self).query_text());
        }
        self.focus = Focus::List;
        a
    }

    /// A key for the search field; a search is due if the text changed.
    fn edit_if_changed(&mut self, k: KeyPress, now: u64)
        requires
            k.kind == KeyKind::Press,
        ensures
            ({
                let changed = input_text(final(self).input) != input_text(old(self).input);
                &&& edited(old(self).input, final(self).input, k)
                &&& *final(self) == (App {
                    input: final(self).input,
                    needs_search: old(self).needs_search || changed,
                    last_input_change: if changed {
                        now
                    } else {
                        old(self).last_input_change
                    },
                    ..*old(self)
                })
            }),
    {
        let before = input_value(&self.input);
        input_handle_key(&mut self.input, k);
        let after = input_value(&self.input);
        if !crate::text::str_eq(before.as_str(), after.as_str()) {
            self.needs_search = true;
            self.last_input_change = now;
        }
    }
}

/// `x`, but at least 50.
pub open spec fn at_least_50(x: u64) -> u64 {
    if x < 50 {
        50
    } else {
        x
    }
}

impl App {
    /// One event of the terminal loop: an open popup takes it, else the
    /// key bindings do (`event_step`); either way the screen is redrawn.
    pub fn on_event(&mut self, ev: TermEvent, now: u64) -> (a: Action)
        requires
            old(self).wf(),
        ensures
            final(self).wf(),
            final(self).dirty,
            !(old(self).popup is Closed) ==> *final(self) == (App {
                popup: final(self).popup,
                dirty: true,
                ..*old(self)
            }) && match ev {
                TermEvent::Key(k) => if k.kind == KeyKind::Press {
                    (final(self).popup, a) == popup_key(old(self).popup, k)
                } else {
                    final(self).popup == old(self).popup && a is Nothing
                },
                _ => final(self).popup == old(self).popup && a is Nothing,
            },
            old(self).popup is Closed ==> exists|x: App| #[trigger]
                event_step(*old(self), x, a, ev, now) && *final(self) == (App {
                    dirty: true,
                    ..x
                }),
    {
        let (taken, a) = self.handle_popup_event(ev);
        if taken {
            self.dirty = true;
            return a;
        }
        let a = self.handle_event(ev, now);
        let ghost x = *self;
        self.dirty = true;
        assert(event_step(*old(self), x, a, ev, now));
        a
    }

    /// How long the loop waits for an event, in milliseconds: the
    /// configured poll time, at least 50.
    pub fn poll_interval_ms(&self) -> (r: u64)
        ensures
            r == at_least_50(self.config.tui.poll_ms),
    {
        if self.config.tui.poll_ms < 50 {
            50
        } else {
            self.config.tui.poll_ms
        }
    }

    /// The search that is due when the interface starts with a query.
    pub fn start(&mut self) -> (a: Action)
        requires
            old(self).wf(),
        ensures
            final(self).wf(),
            !old(self).needs_search ==> a is Nothing && *final(self) == *old(self),
            old(self).needs_search ==> !final(self).needs_search && App::search_step(
                *old(self),
                App { needs_search: true, ..*final(self) },
                a,
                old(self).query_text(),
            ),
    {
        if !self.needs_search {
            return Action::Nothing;
        }
        let a = self.trigger_search();
        proof {
            App::lemma_search_frame(*old(self), *self, a, old(self).query_text());
        }
        self.needs_search = false;
        a
    }

    /// The typed text has been still for longer than the debounce time
    /// (configured, at least 50 ms) at time `now`, in the search bar, and a
    /// search is due.
    pub open spec fn debounce_due(&self, now: u64) -> bool {
        &&& self.focus == Focus::Search
        &&& self.needs_search
        &&& now > self.last_input_change
        &&& now - self.last_input_change > at_least_50(self.config.tui.debounce_ms)
    }

    /// The timer step of the loop at time `now`: runs the due search once
    /// the typing has paused (see `debounce_due`).
    pub fn tick(&mut self, now: u64) -> (a: Action)
        requires
            old(self).wf(),
        ensures
            final(self).wf(),
            !old(self).debounce_due(now) ==> a is Nothing && *final(self) == *old(self),
            old(self).debounce_due(now) ==> !final(self).needs_search && App::search_step(
                *old(self),
                App { needs_search: true, ..*final(self) },
                a,
                old(self).query_text(),
            ),
    {
        let debounce = if self.config.tui.debounce_ms < 50 {
            50
        } else {
            self.config.tui.debounce_ms
        };
        if self.focus == Focus::Search && self.needs_search && now > self.last_input_change && now
            - self.last_input_change > debounce {
            let a = self.trigger_search();
            proof {
                App::lemma_search_frame(*old(self), *self, a, old(self).query_text());
            }
            self.needs_search = false;
            a
        } else {
            Action::Nothing
        }
    }

    /// The screen must be drawn: something changed, or a search is running
    /// (its spinner moves).
    pub fn needs_redraw(&self) -> (r: bool)
        ensures
            r == (self.dirty || self.is_loading),
    {
        self.dirty || self.is_loading
    }

    /// The screen was drawn.
    pub fn mark_drawn(&mut self)
        ensures
            *final(self) == (App { dirty: false, ..*old(self) }),
    {
        self.dirty = false;
    }
}

} // verus!
