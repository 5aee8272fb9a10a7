//! The application shell: how the tray utility answers the events of its
//! windows, tray icon and event loop.
//!
//! Closing the main window only hides it; the utility keeps running in the
//! system tray and says so once, on the first close.

use vstd::prelude::*;

verus! {

/// An event the shell is told about.
#[derive(Debug)]
pub enum ShellEvent {
    /// The user asked to close the main window.
    CloseRequested,
    /// A second instance of the application was started.
    SecondInstance,
    /// A tray menu item with this id was chosen.
    MenuItem(String),
    /// The tray icon was clicked.
    TrayClick { left_button: bool, released: bool },
    /// The event loop is about to exit; `code` is set when the exit was
    /// asked for explicitly.
    ExitRequested { code: Option<i32> },
}

pub enum ShellEventView {
    CloseRequested,
    SecondInstance,
    MenuItem(Seq<char>),
    TrayClick { left_button: bool, released: bool },
    ExitRequested { code: Option<i32> },
}

impl View for ShellEvent {
    type V = ShellEventView;

    open spec fn view(&self) -> ShellEventView {
        match self {
            ShellEvent::CloseRequested => ShellEventView::CloseRequested,
            ShellEvent::SecondInstance => ShellEventView::SecondInstance,
            ShellEvent::MenuItem(id) => ShellEventView::MenuItem(id@),
            ShellEvent::TrayClick { left_button, released } => ShellEventView::TrayClick {
                left_button: *left_button,
                released: *released,
            },
            ShellEvent::ExitRequested { code } => ShellEventView::ExitRequested { code: *code },
        }
    }
}

/// Something the application must do in answer to an event.
#[derive(Clone, Copy, Debug, PartialEq, Eq, Structural)]
pub enum ShellEffect {
    /// Keep the window from closing.
    PreventClose,
    /// Hide (destroy) the main window.
    HideMainWindow,
    /// Tell the user that the application still runs in the tray.
    NotifyStillRunning,
    ShowMainWindow,
    ToggleMainWindow,
    /// Exit the application with code 0.
    Quit,
    /// Keep the event loop running.
    PreventExit,
    /// Let the event loop exit.
    AllowExit,
}

/// What the shell remembers between events.
#[derive(Clone, Copy, Debug, PartialEq, Eq, Structural)]
pub struct ShellState {
    /// Whether the user has been told that the application keeps running in
    /// the tray.
    pub tray_notified: bool,
}

/// The answer to one event, from whether the user has been notified yet:
/// whether the user has been notified afterwards, and the effects in order.
pub open spec fn spec_handle(notified: bool, event: ShellEventView) -> (bool, Seq<ShellEffect>) {
    match event {
        ShellEventView::CloseRequested => (
            true,
            if notified {
                seq![ShellEffect::PreventClose, ShellEffect::HideMainWindow]
            } else {
                seq![ShellEffect::PreventClose, ShellEffect::HideMainWindow, ShellEffect::NotifyStillRunning]
            },
        ),
        ShellEventView::SecondInstance => (notified, seq![ShellEffect::ShowMainWindow]),
        ShellEventView::MenuItem(id) => (
            notified,
            if id == "show"@ {
                seq![ShellEffect::ShowMainWindow]
            } else if id == "quit"@ {
                seq![ShellEffect::Quit]
            } else {
                Seq::empty()
            },
        ),
        ShellEventView::TrayClick { left_button, released } => (
            notified,
            if left_button && released {
                seq![ShellEffect::ToggleMainWindow]
            } else {
                Seq::empty()
            },
        ),
        ShellEventView::ExitRequested { code } => (
            notified,
            if code is None {
                seq![ShellEffect::PreventExit]
            } else {
                seq![ShellEffect::AllowExit]
            },
        ),
    }
}

impl ShellState {
    /// The state at launch: nobody has been notified yet.
    pub fn new() -> (res: ShellState)
        ensures
            res.tray_notified == false,
    {
        ShellState { tray_notified: false }
    }

    /// Answers one event.
    pub fn handle_event(&mut self, event: &ShellEvent) -> (effects: Vec<ShellEffect>)
        ensures
            (final(self).tray_notified, effects@) == spec_handle(old(self).tray_notified, event@),
    {
        let mut effects: Vec<ShellEffect> = Vec::new();
        match event {
            ShellEvent::CloseRequested => {
                effects.push(ShellEffect::PreventClose);
                effects.push(ShellEffect::HideMainWindow);
                if !self.tray_notified {
                    self.tray_notified = true;
                    effects.push(ShellEffect::NotifyStillRunning);
                }
                assert(effects@ =~= spec_handle(old(self).tray_notified, event@).1);
            },
            ShellEvent::SecondInstance => {
                effects.push(ShellEffect::ShowMainWindow);
                assert(effects@ =~= spec_handle(old(self).tray_notified, event@).1);
            },
            ShellEvent::MenuItem(id) => {
                let show = String::from_str("show");
                let quit = String::from_str("quit");
                if id.eq(&show) {
                    effects.push(ShellEffect::ShowMainWindow);
                } else if id.eq(&quit) {
                    effects.push(ShellEffect::Quit);
                }
                assert(effects@ =~= spec_handle(old(self).tray_notified, event@).1);
            },
            ShellEvent::TrayClick { left_button, released } => {
                if *left_button && *released {
                    effects.push(ShellEffect::ToggleMainWindow);
                }
                assert(effects@ =~= spec_handle(old(self).tray_notified, event@).1);
            },
            ShellEvent::ExitRequested { code } => {
                match code {
                    None => effects.push(ShellEffect::PreventExit),
                    Some(_) => effects.push(ShellEffect::AllowExit),
                }
                assert(effects@ =~= spec_handle(old(self).tray_notified, event@).1);
            },
        }
        effects
    }
}

/// How many times the "still running" notice is shown while answering
/// `events` in order, starting from `notified`.
pub open spec fn notices_shown(notified: bool, events: Seq<ShellEventView>) -> nat
    decreases events.len(),
{
    if events.len() == 0 {
        0
    } else {
        let (next, effects) = spec_handle(notified, events[0]);
        (if effects.contains(ShellEffect::NotifyStillRunning) {
            1nat
        } else {
            0nat
        }) + notices_shown(next, events.drop_first())
    }
}

/// Whatever the events, the "still running" notice is shown at most once,
/// and never again once it has been shown.
pub proof fn lemma_notice_at_most_once(notified: bool, events: Seq<ShellEventView>)
    ensures
        notices_shown(notified, events) <= (if notified {
            0nat
        } else {
            1nat
        }),
    decreases events.len(),
{
    if events.len() > 0 {
        let (next, effects) = spec_handle(notified, events[0]);
        lemma_notice_at_most_once(next, events.drop_first());
        if notified {
            assert(!effects.contains(ShellEffect::NotifyStillRunning)) by {
                if effects.contains(ShellEffect::NotifyStillRunning) {
                    let i = choose|i: int| 0 <= i < effects.len() && effects[i] == ShellEffect::NotifyStillRunning;
                    assert(effects[i] != ShellEffect::NotifyStillRunning);
                }
            }
        } else if effects.contains(ShellEffect::NotifyStillRunning) {
            assert(next);
        }
    }
}

/// A tray click toggles the main window exactly when it is a release of the
/// left button, does nothing else, and never marks the user as notified.
pub proof fn lemma_tray_click(notified: bool, left_button: bool, released: bool)
    ensures
        ({
            let (next, effects) = spec_handle(
                notified,
                ShellEventView::TrayClick { left_button, released },
            );
            &&& next == notified
            &&& effects.contains(ShellEffect::ToggleMainWindow) <==> (left_button && released)
            &&& forall|i: int| 0 <= i < effects.len() ==> effects[i] == ShellEffect::ToggleMainWindow
            &&& effects.len() <= 1
        }),
{
    let (next, effects) = spec_handle(notified, ShellEventView::TrayClick { left_button, released });
    if left_button && released {
        assert(effects[0] == ShellEffect::ToggleMainWindow);
    }
}

/// Only a close request marks the user as notified; every other event
/// leaves the mark as it was. A close request always keeps the window open
/// and hides it, and shows the notice exactly when the user was not yet
/// notified.
pub proof fn lemma_only_close_notifies(notified: bool, event: ShellEventView)
    ensures
        !(event is CloseRequested) ==> spec_handle(notified, event).0 == notified,
        !(event is CloseRequested) ==> !spec_handle(notified, event).1.contains(
            ShellEffect::NotifyStillRunning,
        ),
        event is CloseRequested ==> {
            let (next, effects) = spec_handle(notified, event);
            &&& next
            &&& effects.len() >= 2
            &&& effects[0] == ShellEffect::PreventClose
            &&& effects[1] == ShellEffect::HideMainWindow
            &&& effects.contains(ShellEffect::NotifyStillRunning) <==> !notified
        },
{
    let (next, effects) = spec_handle(notified, event);
    if !(event is CloseRequested) {
        assert forall|i: int| 0 <= i < effects.len() implies effects[i]
            != ShellEffect::NotifyStillRunning by {}
    } else if !notified {
        assert(effects[2] == ShellEffect::NotifyStillRunning);
    } else {
        assert forall|i: int| 0 <= i < effects.len() implies effects[i]
            != ShellEffect::NotifyStillRunning by {}
    }
}

/// Whether the user has been notified after answering `events` in order.
pub open spec fn notified_after(notified: bool, events: Seq<ShellEventView>) -> bool
    decreases events.len(),
{
    if events.len() == 0 {
        notified
    } else {
        notified_after(spec_handle(notified, events[0]).0, events.drop_first())
    }
}

/// However many other events come first, the first close request of a run
/// shows the "still running" notice.
pub proof fn lemma_first_close_shows_notice(events: Seq<ShellEventView>)
    requires
        forall|i: int| 0 <= i < events.len() ==> !(#[trigger] events[i] is CloseRequested),
    ensures
        !notified_after(false, events),
        spec_handle(notified_after(false, events), ShellEventView::CloseRequested).1.contains(
            ShellEffect::NotifyStillRunning,
        ),
    decreases events.len(),
{
    if events.len() > 0 {
        assert(!(events[0] is CloseRequested));
        lemma_only_close_notifies(false, events[0]);
        let rest = events.drop_first();
        assert forall|i: int| 0 <= i < rest.len() implies !(#[trigger] rest[i] is CloseRequested) by {
            assert(rest[i] == events[i + 1]);
        }
        lemma_first_close_shows_notice(rest);
    }
    lemma_only_close_notifies(notified_after(false, events), ShellEventView::CloseRequested);
}

/// The tray menu shows the window on "show", quits on "quit", ignores every
/// other item, and never marks the user as notified; a second instance shows
/// the window; an exit with no code is held off and one with a code allowed.
pub proof fn lemma_menu_instance_exit(notified: bool, id: Seq<char>, code: Option<i32>)
    ensures
        spec_handle(notified, ShellEventView::MenuItem(id)).0 == notified,
        spec_handle(notified, ShellEventView::MenuItem(id)).1.contains(ShellEffect::ShowMainWindow)
            <==> id == "show"@,
        spec_handle(notified, ShellEventView::MenuItem(id)).1.contains(ShellEffect::Quit) <==> (id
            == "quit"@ && id != "show"@),
        spec_handle(notified, ShellEventView::MenuItem(id)).1.len() <= 1,
        spec_handle(notified, ShellEventView::SecondInstance).1.contains(ShellEffect::ShowMainWindow),
        spec_handle(notified, ShellEventView::SecondInstance).1.len() == 1,
        spec_handle(notified, ShellEventView::ExitRequested { code }).1.contains(
            ShellEffect::PreventExit,
        ) <==> code is None,
        spec_handle(notified, ShellEventView::ExitRequested { code }).1.contains(
            ShellEffect::AllowExit,
        ) <==> code is Some,
{
    let m = spec_handle(notified, ShellEventView::MenuItem(id)).1;
    let i = spec_handle(notified, ShellEventView::SecondInstance).1;
    let x = spec_handle(notified, ShellEventView::ExitRequested { code }).1;
    if id == "show"@ {
        assert(m[0] == ShellEffect::ShowMainWindow);
    } else if id == "quit"@ {
        assert(m[0] == ShellEffect::Quit);
    }
    assert(i[0] == ShellEffect::ShowMainWindow);
    assert(x[0] == if code is None { ShellEffect::PreventExit } else { ShellEffect::AllowExit });
}

} // verus!
