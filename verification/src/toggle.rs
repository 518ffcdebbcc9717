use vstd::prelude::*;
use vstd::string::StringExecFns;

use crate::config::PersistentConfig;

verus! {

/// How long the green "finished" state stays on the icon before the
/// background runner reports `Off`.
pub const SUCCESS_DISPLAY_MS: u64 = 1500;

/// How long the red "failed" state stays on the icon before it reverts.
pub const ERROR_DISPLAY_MS: u64 = 2000;

/// The toggle's state, shown as the colour of the dot on the tray icon.
#[derive(Clone, Copy, PartialEq, Eq, Structural, Debug)]
pub enum State {
    Off,
    TurningOn,
    On,
    Error,
}

/// The tray menu entries that do something.
#[derive(Clone, Copy, PartialEq, Eq, Structural, Debug)]
pub enum MenuCommand {
    Toggle,
    AddScript,
    SelectEmoji,
    Quit,
}

/// The menu item id of each command.
pub open spec fn menu_id_view(command: MenuCommand) -> Seq<char> {
    match command {
        MenuCommand::Toggle => "toggle"@,
        MenuCommand::AddScript => "add_script"@,
        MenuCommand::SelectEmoji => "select_emoji"@,
        MenuCommand::Quit => "quit"@,
    }
}

/// The command that a menu item id stands for; ids of other items do nothing.
pub open spec fn menu_command_of(id: Seq<char>) -> Option<MenuCommand> {
    if id == "quit"@ {
        Some(MenuCommand::Quit)
    } else if id == "add_script"@ {
        Some(MenuCommand::AddScript)
    } else if id == "select_emoji"@ {
        Some(MenuCommand::SelectEmoji)
    } else if id == "toggle"@ {
        Some(MenuCommand::Toggle)
    } else {
        None
    }
}

impl MenuCommand {
    /// The id under which the menu item of this command is created.
    pub fn menu_id(self) -> (id: String)
        ensures
            id@ == menu_id_view(self),
    {
        match self {
            MenuCommand::Toggle => String::from_str("toggle"),
            MenuCommand::AddScript => String::from_str("add_script"),
            MenuCommand::SelectEmoji => String::from_str("select_emoji"),
            MenuCommand::Quit => String::from_str("quit"),
        }
    }

    /// Recognises the id carried by a menu event.
    pub fn from_id(id: &String) -> (command: Option<MenuCommand>)
        ensures
            command == menu_command_of(id@),
    {
        if *id == String::from_str("quit") {
            Some(MenuCommand::Quit)
        } else if *id == String::from_str("add_script") {
            Some(MenuCommand::AddScript)
        } else if *id == String::from_str("select_emoji") {
            Some(MenuCommand::SelectEmoji)
        } else if *id == String::from_str("toggle") {
            Some(MenuCommand::Toggle)
        } else {
            None
        }
    }
}

/// The toggle menu item's text for a state reported by the script runner.
pub open spec fn state_label_view(state: State) -> Seq<char> {
    match state {
        State::Off => "State: Off"@,
        State::TurningOn => "State: TurningOn"@,
        State::On => "State: On"@,
        State::Error => "State: Error"@,
    }
}

/// The toggle menu item's text right after a toggle has started the script.
pub open spec fn starting_label_view() -> Seq<char> {
    "State: Turning on..."@
}

/// The toggle menu item's text for `state`.
pub fn state_label(state: State) -> (label: String)
    ensures
        label@ == state_label_view(state),
{
    match state {
        State::Off => String::from_str("State: Off"),
        State::TurningOn => String::from_str("State: TurningOn"),
        State::On => String::from_str("State: On"),
        State::Error => String::from_str("State: Error"),
    }
}

/// How a run of the script ended.
#[derive(Clone, Copy, PartialEq, Eq, Structural, Debug)]
pub enum ScriptOutcome {
    /// bash ran and exited with status 0.
    Succeeded,
    /// bash ran and exited with another status, or was killed by a signal.
    Failed,
    /// bash could not be started.
    LaunchFailed,
}

/// A state that the background runner reports, after waiting `delay_ms`
/// since its previous report.
#[derive(Clone, Copy, PartialEq, Eq, Structural, Debug)]
pub struct TimedState {
    pub delay_ms: u64,
    pub state: State,
}

/// What the background runner reports once the script has ended: on success
/// `On` at once and `Off` after the success delay, otherwise `Error`.
pub open spec fn script_reports_view(outcome: ScriptOutcome) -> Seq<TimedState> {
    match outcome {
        ScriptOutcome::Succeeded => seq![
            TimedState { delay_ms: 0, state: State::On },
            TimedState { delay_ms: SUCCESS_DISPLAY_MS, state: State::Off },
        ],
        _ => seq![TimedState { delay_ms: 0, state: State::Error }],
    }
}

/// The state reports that follow a run of the script.
pub fn script_reports(outcome: ScriptOutcome) -> (reports: Vec<TimedState>)
    ensures
        reports@ == script_reports_view(outcome),
{
    let mut reports: Vec<TimedState> = Vec::new();
    match outcome {
        ScriptOutcome::Succeeded => {
            reports.push(TimedState { delay_ms: 0, state: State::On });
            reports.push(TimedState { delay_ms: SUCCESS_DISPLAY_MS, state: State::Off });
        },
        _ => {
            reports.push(TimedState { delay_ms: 0, state: State::Error });
        },
    }
    assert(reports@ =~= script_reports_view(outcome));
    reports
}

/// What happens to the toggle, as the event loop hands it over.
#[derive(Clone, Debug, PartialEq, Eq)]
pub enum AppEvent {
    /// A menu item was activated.
    Menu(MenuCommand),
    /// The user picked a script in the file chooser (its path's bytes).
    ScriptChosen(Vec<u8>),
    /// The file chooser was closed without a script.
    ScriptChoiceCancelled,
    /// The user clicked an emoji in the picker window.
    EmojiChosen(String),
    /// The background runner reported a state.
    StateReported(State),
    /// The delay scheduled after an error has passed.
    RevertElapsed,
}

/// What the event loop must do in answer to an event, in order.
#[derive(Clone, Debug, PartialEq, Eq)]
pub enum AppAction {
    Quit,
    OpenScriptChooser,
    ShowEmojiPicker,
    HideEmojiPicker,
    /// Redraw the tray icon with this emoji and this state's dot.
    SetIcon { emoji: String, state: State },
    SetToggleText(String),
    /// Run `bash <path>` in the background and report its outcome.
    RunScript(Vec<u8>),
    /// Write the configuration file of this instance.
    SaveConfig(PersistentConfig),
    /// Show a desktop notification.
    Notify { title: String, body: String },
    /// Hand back `RevertElapsed` after this many milliseconds.
    ScheduleRevert { delay_ms: u64 },
}

/// An event as plain values.
pub enum EventView {
    Menu(MenuCommand),
    ScriptChosen(Seq<u8>),
    ScriptChoiceCancelled,
    EmojiChosen(Seq<char>),
    StateReported(State),
    RevertElapsed,
}

/// An action as plain values.
pub enum ActionView {
    Quit,
    OpenScriptChooser,
    ShowEmojiPicker,
    HideEmojiPicker,
    SetIcon(Seq<char>, State),
    SetToggleText(Seq<char>),
    RunScript(Seq<u8>),
    SaveConfig(Seq<char>, Seq<u8>),
    Notify(Seq<char>, Seq<char>),
    ScheduleRevert(u64),
}

impl View for AppEvent {
    type V = EventView;

    open spec fn view(&self) -> EventView {
        match self {
            AppEvent::Menu(c) => EventView::Menu(*c),
            AppEvent::ScriptChosen(p) => EventView::ScriptChosen(p@),
            AppEvent::ScriptChoiceCancelled => EventView::ScriptChoiceCancelled,
            AppEvent::EmojiChosen(e) => EventView::EmojiChosen(e@),
            AppEvent::StateReported(s) => EventView::StateReported(*s),
            AppEvent::RevertElapsed => EventView::RevertElapsed,
        }
    }
}

impl View for AppAction {
    type V = ActionView;

    open spec fn view(&self) -> ActionView {
        match self {
            AppAction::Quit => ActionView::Quit,
            AppAction::OpenScriptChooser => ActionView::OpenScriptChooser,
            AppAction::ShowEmojiPicker => ActionView::ShowEmojiPicker,
            AppAction::HideEmojiPicker => ActionView::HideEmojiPicker,
            AppAction::SetIcon { emoji, state } => ActionView::SetIcon(emoji@, *state),
            AppAction::SetToggleText(t) => ActionView::SetToggleText(t@),
            AppAction::RunScript(p) => ActionView::RunScript(p@),
            AppAction::SaveConfig(c) => ActionView::SaveConfig(c.emoji@, c.script_path@),
            AppAction::Notify { title, body } => ActionView::Notify(title@, body@),
            AppAction::ScheduleRevert { delay_ms } => ActionView::ScheduleRevert(*delay_ms),
        }
    }
}

/// The actions of a sequence, as plain values.
pub open spec fn actions_view(actions: Seq<AppAction>) -> Seq<ActionView> {
    actions.map_values(|a: AppAction| a@)
}

/// The toggle's state as plain values.
pub struct ContextView {
    pub state: State,
    pub emoji: Seq<char>,
    pub script_path: Seq<u8>,
}

/// A toggle runs the script only from these states; from the others it
/// resets to `Off`.
pub open spec fn is_idle(state: State) -> bool {
    state == State::Off || state == State::Error
}

/// The toggle's state after `event`.
pub open spec fn next_context(ctx: ContextView, event: EventView) -> ContextView {
    match event {
        EventView::Menu(MenuCommand::Toggle) => ContextView {
            state: if is_idle(ctx.state) {
                State::TurningOn
            } else {
                State::Off
            },
            emoji: ctx.emoji,
            script_path: ctx.script_path,
        },
        EventView::Menu(_) => ctx,
        EventView::ScriptChosen(path) => ContextView {
            state: ctx.state,
            emoji: ctx.emoji,
            script_path: path,
        },
        EventView::ScriptChoiceCancelled => ctx,
        EventView::EmojiChosen(emoji) => ContextView {
            state: ctx.state,
            emoji: emoji,
            script_path: ctx.script_path,
        },
        EventView::StateReported(state) => ContextView {
            state: state,
            emoji: ctx.emoji,
            script_path: ctx.script_path,
        },
        EventView::RevertElapsed => ContextView {
            state: State::Off,
            emoji: ctx.emoji,
            script_path: ctx.script_path,
        },
    }
}

/// The actions that answer `event` in state `ctx`, in the order in which the
/// event loop performs them.
pub open spec fn actions_for(ctx: ContextView, event: EventView) -> Seq<ActionView> {
    match event {
        EventView::Menu(MenuCommand::Quit) => seq![ActionView::Quit],
        EventView::Menu(MenuCommand::AddScript) => seq![ActionView::OpenScriptChooser],
        EventView::Menu(MenuCommand::SelectEmoji) => seq![ActionView::ShowEmojiPicker],
        EventView::Menu(MenuCommand::Toggle) => if is_idle(ctx.state) {
            seq![
                ActionView::SetIcon(ctx.emoji, State::TurningOn),
                ActionView::SetToggleText(starting_label_view()),
                ActionView::RunScript(ctx.script_path),
            ]
        } else {
            seq![
                ActionView::SetToggleText(state_label_view(State::Off)),
                ActionView::SetIcon(ctx.emoji, State::Off),
            ]
        },
        EventView::ScriptChosen(path) => seq![
            ActionView::SaveConfig(ctx.emoji, path),
            ActionView::Notify("Script Updated"@, "Configuration saved."@),
        ],
        EventView::ScriptChoiceCancelled => seq![],
        EventView::EmojiChosen(emoji) => seq![
            ActionView::SaveConfig(emoji, ctx.script_path),
            ActionView::SetIcon(emoji, ctx.state),
            ActionView::HideEmojiPicker,
        ],
        EventView::StateReported(state) => {
            let shown = seq![
                ActionView::SetToggleText(state_label_view(state)),
                ActionView::SetIcon(ctx.emoji, state),
            ];
            if state == State::Error {
                shown.push(ActionView::ScheduleRevert(ERROR_DISPLAY_MS))
            } else {
                shown
            }
        },
        EventView::RevertElapsed => seq![
            ActionView::SetToggleText(state_label_view(State::Off)),
            ActionView::SetIcon(ctx.emoji, State::Off),
        ],
    }
}

/// The running toggle: its state, the emoji in the tray and the script it
/// runs.
#[derive(Clone, Debug, PartialEq, Eq)]
pub struct AppContext {
    pub state: State,
    pub emoji: String,
    pub script_path: Vec<u8>,
}

impl View for AppContext {
    type V = ContextView;

    open spec fn view(&self) -> ContextView {
        ContextView { state: self.state, emoji: self.emoji@, script_path: self.script_path@ }
    }
}

impl AppContext {
    /// The toggle at start-up: `Off`, with the emoji and script of the
    /// loaded configuration.
    pub fn from_config(config: PersistentConfig) -> (ctx: Self)
        ensures
            ctx@ == (ContextView {
                state: State::Off,
                emoji: config@.0,
                script_path: config@.1,
            }),
    {
        AppContext { state: State::Off, emoji: config.emoji, script_path: config.script_path }
    }

    /// The configuration that describes this toggle.
    pub fn config(&self) -> (config: PersistentConfig)
        ensures
            config@ == (self.emoji@, self.script_path@),
    {
        PersistentConfig { emoji: self.emoji.clone(), script_path: self.script_path.clone() }
    }

    /// Takes one event: updates the toggle and says what the event loop must
    /// do.
    pub fn handle(&mut self, event: AppEvent) -> (actions: Vec<AppAction>)
        ensures
            final(self)@ == next_context(old(self)@, event@),
            actions_view(actions@) == actions_for(old(self)@, event@),
    {
        let ghost before = self@;
        let ghost ev = event@;
        let mut actions: Vec<AppAction> = Vec::new();
        match event {
            AppEvent::Menu(MenuCommand::Quit) => {
                actions.push(AppAction::Quit);
            },
            AppEvent::Menu(MenuCommand::AddScript) => {
                actions.push(AppAction::OpenScriptChooser);
            },
            AppEvent::Menu(MenuCommand::SelectEmoji) => {
                actions.push(AppAction::ShowEmojiPicker);
            },
            AppEvent::Menu(MenuCommand::Toggle) => {
                if self.state == State::Off || self.state == State::Error {
                    self.state = State::TurningOn;
                    actions.push(
                        AppAction::SetIcon { emoji: self.emoji.clone(), state: State::TurningOn },
                    );
                    actions.push(AppAction::SetToggleText(String::from_str("State: Turning on...")));
                    actions.push(AppAction::RunScript(self.script_path.clone()));
                } else {
                    self.state = State::Off;
                    actions.push(AppAction::SetToggleText(state_label(State::Off)));
                    actions.push(AppAction::SetIcon { emoji: self.emoji.clone(), state: State::Off });
                }
            },
            AppEvent::ScriptChosen(path) => {
                self.script_path = path;
                actions.push(AppAction::SaveConfig(self.config()));
                actions.push(
                    AppAction::Notify {
                        title: String::from_str("Script Updated"),
                        body: String::from_str("Configuration saved."),
                    },
                );
            },
            AppEvent::ScriptChoiceCancelled => {},
            AppEvent::EmojiChosen(emoji) => {
                self.emoji = emoji;
                actions.push(AppAction::SaveConfig(self.config()));
                actions.push(AppAction::SetIcon { emoji: self.emoji.clone(), state: self.state });
                actions.push(AppAction::HideEmojiPicker);
            },
            AppEvent::StateReported(state) => {
                self.state = state;
                actions.push(AppAction::SetToggleText(state_label(state)));
                actions.push(AppAction::SetIcon { emoji: self.emoji.clone(), state: state });
                if state == State::Error {
                    actions.push(AppAction::ScheduleRevert { delay_ms: ERROR_DISPLAY_MS });
                }
            },
            AppEvent::RevertElapsed => {
                self.state = State::Off;
                actions.push(AppAction::SetToggleText(state_label(State::Off)));
                actions.push(AppAction::SetIcon { emoji: self.emoji.clone(), state: State::Off });
            },
        }
        assert(actions_view(actions@) =~= actions_for(before, ev));
        actions
    }
}

} // verus!
