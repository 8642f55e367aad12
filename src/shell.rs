//! The launcher window's state and how it answers the user's input.
//!
//! The window toolkit reports what the user did as an [`Event`]; [`Shell::step`]
//! updates the state and names one [`Action`] for the caller to carry out.
use vstd::prelude::*;
use vstd::string::StringExecFns;
use crate::notice::{failure_notice, failure_text, Notice, NOTICE_SECS};

verus! {

/// Edge length, in points, of an application tile.
pub const APP_BUTTON_SIZE: u32 = 64;

/// The program that a launch tile starts.
pub open spec fn launch_target() -> Seq<char> {
    "notepad"@
}

/// The state that the launcher window keeps between frames.
#[derive(Debug, PartialEq, Eq)]
pub struct Shell {
    /// Whether the settings window is open.
    pub setting_window: bool,
    /// Whether the toolkit outlines widgets under the pointer.
    pub debug_draw_enabled: bool,
    /// Edge length, in points, of an application tile.
    pub app_button_size: u32,
    /// The text of the search field.
    pub search: String,
}

/// What the user did in the window.
#[derive(Debug, PartialEq, Eq)]
pub enum Event {
    /// The settings entry of the file menu was chosen.
    SettingsChosen,
    /// The settings window was closed from its title bar.
    SettingsClosed,
    /// The quit entry of the file menu was chosen.
    QuitChosen,
    /// The entry for adding an item to the launcher was chosen.
    AddItemChosen,
    /// The debug drawing check box was clicked.
    DebugDrawToggled,
    /// A launch tile was clicked.
    LaunchClicked,
    /// The operating system refused to start the program; its diagnostic text.
    LaunchFailed(String),
    /// The application tile with this index was clicked.
    ItemClicked(u32),
    /// The context menu entry of the application tile with this index was chosen.
    ItemMenuChosen(u32),
}

/// What the caller is asked to do after an event.
#[derive(Debug, PartialEq, Eq)]
pub enum Action {
    /// Nothing beyond redrawing.
    Nothing,
    /// Close the menu that is open.
    CloseMenu,
    /// End the program with a successful exit status.
    Quit,
    /// Start the named program as a new process and report whether that failed.
    Launch(String),
    /// Show this notice.
    Notify(Notice),
    /// Report that the application tile with this index was clicked.
    ReportClick(u32),
    /// Report that the context menu entry of this tile was chosen, and close that menu.
    ReportMenuChoice(u32),
}

/// The state after `e`, starting from `s`.
pub open spec fn next_shell(s: Shell, e: Event) -> Shell {
    match e {
        Event::SettingsChosen => Shell { setting_window: true, ..s },
        Event::SettingsClosed => Shell { setting_window: false, ..s },
        Event::DebugDrawToggled => Shell { debug_draw_enabled: !s.debug_draw_enabled, ..s },
        _ => s,
    }
}

/// Whether `a` is the action that answers `e`.
pub open spec fn answers(e: Event, a: Action) -> bool {
    match e {
        Event::SettingsChosen => a == Action::CloseMenu,
        Event::SettingsClosed => a == Action::Nothing,
        Event::QuitChosen => a == Action::Quit,
        Event::AddItemChosen => a == Action::CloseMenu,
        Event::DebugDrawToggled => a == Action::CloseMenu,
        Event::LaunchClicked => a is Launch && a->Launch_0@ == launch_target(),
        Event::LaunchFailed(reason) => {
            &&& a is Notify
            &&& a->Notify_0.message@ == failure_text(reason@)
            &&& a->Notify_0.duration_secs == NOTICE_SECS
        },
        Event::ItemClicked(i) => a == Action::ReportClick(i),
        Event::ItemMenuChosen(i) => a == Action::ReportMenuChoice(i),
    }
}

impl Shell {
    /// The state of a window that has just opened: no settings window, no
    /// debug drawing, no tile size chosen yet and an empty search field.
    pub fn new() -> (s: Shell)
        ensures
            !s.setting_window,
            !s.debug_draw_enabled,
            s.app_button_size == 0,
            s.search@ == Seq::<char>::empty(),
    {
        Shell {
            setting_window: false,
            debug_draw_enabled: false,
            app_button_size: 0,
            search: String::new(),
        }
    }

    /// Prepares the state for drawing a frame: tiles take their fixed size.
    pub fn begin_frame(&mut self)
        ensures
            *final(self) == (Shell { app_button_size: APP_BUTTON_SIZE, ..*old(self) }),
    {
        self.app_button_size = APP_BUTTON_SIZE;
    }

    /// Answers one event: moves to the next state and names the action that
    /// the caller carries out.
    pub fn step(&mut self, e: Event) -> (a: Action)
        ensures
            *final(self) == next_shell(*old(self), e),
            answers(e, a),
    {
        match e {
            Event::SettingsChosen => {
                self.setting_window = true;
                Action::CloseMenu
            },
            Event::SettingsClosed => {
                self.setting_window = false;
                Action::Nothing
            },
            Event::QuitChosen => Action::Quit,
            Event::AddItemChosen => Action::CloseMenu,
            Event::DebugDrawToggled => {
                self.debug_draw_enabled = !self.debug_draw_enabled;
                Action::CloseMenu
            },
            Event::LaunchClicked => Action::Launch(String::from_str("notepad")),
            Event::LaunchFailed(reason) => Action::Notify(failure_notice(reason.as_str())),
            Event::ItemClicked(i) => Action::ReportClick(i),
            Event::ItemMenuChosen(i) => Action::ReportMenuChoice(i),
        }
    }
}

} // verus!

verus! {

/// Launching leaves no trace in the shell's state: neither a click on a launch
/// tile nor the failure that the operating system reports changes it. A second
/// click is therefore answered as the first was, with a launch of its own of the
/// same program; nothing is remembered, merged or retried.
pub proof fn lemma_launch_keeps_state(s: Shell, reason: String, a1: Action, a2: Action)
    requires
        answers(Event::LaunchClicked, a1),
        answers(Event::LaunchClicked, a2),
    ensures
        next_shell(s, Event::LaunchClicked) == s,
        next_shell(next_shell(s, Event::LaunchClicked), Event::LaunchClicked) == s,
        next_shell(s, Event::LaunchFailed(reason)) == s,
        a1 is Launch && a2 is Launch,
        a1->Launch_0@ == a2->Launch_0@,
        a1->Launch_0@ == launch_target(),
{
}

} // verus!
