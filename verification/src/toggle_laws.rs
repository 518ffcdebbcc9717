use vstd::prelude::*;

use crate::toggle::{
    actions_for, is_idle, menu_command_of, menu_id_view, next_context, script_reports_view,
    ActionView, ContextView, EventView, MenuCommand, ScriptOutcome, State, TimedState,
    ERROR_DISPLAY_MS,
};

verus! {

/// The toggle after the background runner's reports have been handled in
/// order.
pub open spec fn after_reports(ctx: ContextView, reports: Seq<TimedState>) -> ContextView
    decreases reports.len(),
{
    if reports.len() == 0 {
        ctx
    } else {
        after_reports(
            next_context(ctx, EventView::StateReported(reports[0].state)),
            reports.drop_first(),
        )
    }
}

/// Every command's menu item id is recognised as that command.
pub proof fn lemma_menu_id_round_trip(command: MenuCommand)
    ensures
        menu_command_of(menu_id_view(command)) == Some(command),
{
    reveal_strlit("toggle");
    reveal_strlit("add_script");
    reveal_strlit("select_emoji");
    reveal_strlit("quit");
    assert("toggle"@[0] == 't');
    assert("add_script"@[0] == 'a');
    assert("select_emoji"@[0] == 's');
    assert("quit"@[0] == 'q');
}

/// The tray icon always shows the toggle as it is after the event: every
/// icon redraw carries the new emoji and state, and whenever either changes
/// the icon is redrawn.
pub proof fn lemma_icon_follows_state(ctx: ContextView, event: EventView)
    ensures
        ({
            let next = next_context(ctx, event);
            let actions = actions_for(ctx, event);
            &&& forall|i: int|
                0 <= i < actions.len() && (#[trigger] actions[i]) is SetIcon ==> actions[i]
                    == ActionView::SetIcon(next.emoji, next.state)
            &&& (next.state != ctx.state || next.emoji != ctx.emoji) ==> exists|i: int|
                0 <= i < actions.len() && #[trigger] actions[i] == ActionView::SetIcon(
                    next.emoji,
                    next.state,
                )
        }),
{
    let next = next_context(ctx, event);
    let actions = actions_for(ctx, event);
    match event {
        EventView::Menu(MenuCommand::Toggle) => {
            if is_idle(ctx.state) {
                assert(actions[0] == ActionView::SetIcon(next.emoji, next.state));
            } else {
                assert(actions[1] == ActionView::SetIcon(next.emoji, next.state));
            }
        },
        EventView::EmojiChosen(_) => {
            assert(actions[1] == ActionView::SetIcon(next.emoji, next.state));
        },
        EventView::StateReported(_) => {
            assert(actions[1] == ActionView::SetIcon(next.emoji, next.state));
        },
        EventView::RevertElapsed => {
            assert(actions[1] == ActionView::SetIcon(next.emoji, next.state));
        },
        _ => {},
    }
}

/// What is written to the configuration file is always the toggle's emoji
/// and script after the event, and it is written whenever either changes.
pub proof fn lemma_saved_config_is_current(ctx: ContextView, event: EventView)
    ensures
        ({
            let next = next_context(ctx, event);
            let actions = actions_for(ctx, event);
            &&& forall|i: int|
                0 <= i < actions.len() && (#[trigger] actions[i]) is SaveConfig ==> actions[i]
                    == ActionView::SaveConfig(next.emoji, next.script_path)
            &&& (next.emoji != ctx.emoji || next.script_path != ctx.script_path) ==> exists|i: int|
                0 <= i < actions.len() && #[trigger] actions[i] == ActionView::SaveConfig(
                    next.emoji,
                    next.script_path,
                )
        }),
{
    let next = next_context(ctx, event);
    let actions = actions_for(ctx, event);
    match event {
        EventView::ScriptChosen(_) => {
            assert(actions[0] == ActionView::SaveConfig(next.emoji, next.script_path));
        },
        EventView::EmojiChosen(_) => {
            assert(actions[0] == ActionView::SaveConfig(next.emoji, next.script_path));
        },
        _ => {},
    }
}

/// The script is started exactly when the toggle item is activated while the
/// toggle is `Off` or `Error`, and it is the configured script that runs.
pub proof fn lemma_script_runs_only_from_idle_toggle(ctx: ContextView, event: EventView)
    ensures
        ({
            let actions = actions_for(ctx, event);
            &&& (exists|i: int| 0 <= i < actions.len() && (#[trigger] actions[i]) is RunScript)
                <==> (event == EventView::Menu(MenuCommand::Toggle) && is_idle(ctx.state))
            &&& forall|i: int|
                0 <= i < actions.len() && (#[trigger] actions[i]) is RunScript ==> actions[i]
                    == ActionView::RunScript(ctx.script_path)
        }),
{
    let actions = actions_for(ctx, event);
    if event == EventView::Menu(MenuCommand::Toggle) && is_idle(ctx.state) {
        assert(actions[2] is RunScript);
    }
}

/// Activating the toggle while the script runs, or while its success is
/// shown, resets the toggle to `Off` without running anything; so a second
/// toggle right after a first one started the script turns it off again.
pub proof fn lemma_toggle_while_busy_resets(ctx: ContextView)
    ensures
        !is_idle(ctx.state) ==> next_context(ctx, EventView::Menu(MenuCommand::Toggle)).state
            == State::Off,
        is_idle(ctx.state) ==> next_context(
            next_context(ctx, EventView::Menu(MenuCommand::Toggle)),
            EventView::Menu(MenuCommand::Toggle),
        ).state == State::Off,
{
}

/// Events that ask for a window or a dialog, or that cancel one, leave the
/// toggle as it was.
pub proof fn lemma_passive_events_change_nothing(ctx: ContextView, event: EventView)
    requires
        event == EventView::Menu(MenuCommand::Quit) || event == EventView::Menu(
            MenuCommand::AddScript,
        ) || event == EventView::Menu(MenuCommand::SelectEmoji) || event
            == EventView::ScriptChoiceCancelled,
    ensures
        next_context(ctx, event) == ctx,
{
}

/// A run that succeeds shows `On` and then leaves the toggle `Off`; one that
/// fails or cannot start leaves it in `Error`, asks for the revert delay, and
/// the revert puts it back to `Off`. The emoji and the script stay as they
/// were.
pub proof fn lemma_run_cycle_returns_to_off(ctx: ContextView, outcome: ScriptOutcome)
    ensures
        ({
            let reports = script_reports_view(outcome);
            let done = after_reports(ctx, reports);
            &&& done.emoji == ctx.emoji
            &&& done.script_path == ctx.script_path
            &&& outcome == ScriptOutcome::Succeeded ==> {
                &&& reports[0].state == State::On
                &&& done.state == State::Off
            }
            &&& outcome != ScriptOutcome::Succeeded ==> {
                &&& done.state == State::Error
                &&& actions_for(ctx, EventView::StateReported(reports[0].state)).contains(
                    ActionView::ScheduleRevert(ERROR_DISPLAY_MS),
                )
                &&& next_context(done, EventView::RevertElapsed).state == State::Off
            }
        }),
{
    let reports = script_reports_view(outcome);
    reveal_with_fuel(after_reports, 3);
    assert(reports.drop_first().drop_first().len() == 0 || reports.drop_first().len() == 0);
    if outcome != ScriptOutcome::Succeeded {
        let actions = actions_for(ctx, EventView::StateReported(reports[0].state));
        assert(actions[2] == ActionView::ScheduleRevert(ERROR_DISPLAY_MS));
    }
}


/// The label the toggle item shows for a state reported by the runner,
/// spelt out: `State: ` and the state's name.
pub open spec fn reported_label(state: State) -> Seq<char> {
    match state {
        State::Off => "State: Off"@,
        State::TurningOn => "State: TurningOn"@,
        State::On => "State: On"@,
        State::Error => "State: Error"@,
    }
}

/// Choosing an emoji in the picker, whatever the toggle's state: the emoji
/// becomes the toggle's emoji and is saved with the unchanged script, the
/// icon is redrawn with it and the unchanged state, and the picker window
/// closes; nothing else happens.
pub proof fn lemma_choosing_emoji_saves_redraws_and_closes(ctx: ContextView, emoji: Seq<char>)
    ensures
        ({
            let actions = actions_for(ctx, EventView::EmojiChosen(emoji));
            let next = next_context(ctx, EventView::EmojiChosen(emoji));
            &&& actions.len() == 3
            &&& actions[0] == ActionView::SaveConfig(emoji, ctx.script_path)
            &&& actions[1] == ActionView::SetIcon(emoji, ctx.state)
            &&& actions[2] == ActionView::HideEmojiPicker
            &&& actions.contains(ActionView::HideEmojiPicker)
            &&& next.emoji == emoji
            &&& next.state == ctx.state
            &&& next.script_path == ctx.script_path
        }),
{
    let actions = actions_for(ctx, EventView::EmojiChosen(emoji));
    assert(actions[2] == ActionView::HideEmojiPicker);
}

/// Choosing a script: it becomes the toggle's script and is saved with the
/// unchanged emoji, and the user is told the configuration was saved; the
/// state and the icon stay as they were.
pub proof fn lemma_choosing_script_saves_and_notifies(ctx: ContextView, path: Seq<u8>)
    ensures
        ({
            let actions = actions_for(ctx, EventView::ScriptChosen(path));
            let next = next_context(ctx, EventView::ScriptChosen(path));
            &&& actions.len() == 2
            &&& actions[0] == ActionView::SaveConfig(ctx.emoji, path)
            &&& actions[1] == ActionView::Notify("Script Updated"@, "Configuration saved."@)
            &&& next.script_path == path
            &&& next.emoji == ctx.emoji
            &&& next.state == ctx.state
        }),
{
}

/// Activating the toggle: from `Off` or `Error` the icon turns to
/// `TurningOn`, the item says it is turning on and the configured script
/// runs; from `TurningOn` or `On` the item and icon go back to `Off` and
/// nothing runs. The emoji and script never change.
pub proof fn lemma_toggle_outcome(ctx: ContextView)
    ensures
        ({
            let actions = actions_for(ctx, EventView::Menu(MenuCommand::Toggle));
            let next = next_context(ctx, EventView::Menu(MenuCommand::Toggle));
            &&& next.emoji == ctx.emoji
            &&& next.script_path == ctx.script_path
            &&& (ctx.state == State::Off || ctx.state == State::Error) ==> {
                &&& next.state == State::TurningOn
                &&& actions == seq![
                    ActionView::SetIcon(ctx.emoji, State::TurningOn),
                    ActionView::SetToggleText("State: Turning on..."@),
                    ActionView::RunScript(ctx.script_path),
                ]
            }
            &&& (ctx.state == State::TurningOn || ctx.state == State::On) ==> {
                &&& next.state == State::Off
                &&& actions == seq![
                    ActionView::SetToggleText("State: Off"@),
                    ActionView::SetIcon(ctx.emoji, State::Off),
                ]
            }
        }),
{
}

/// A state reported by the script runner becomes the toggle's state; the
/// item names it and the icon shows it; an `Error` (and only an `Error`)
/// also asks for the revert two seconds later.
pub proof fn lemma_reported_state_is_shown(ctx: ContextView, state: State)
    ensures
        ({
            let actions = actions_for(ctx, EventView::StateReported(state));
            let next = next_context(ctx, EventView::StateReported(state));
            &&& next.state == state
            &&& next.emoji == ctx.emoji
            &&& next.script_path == ctx.script_path
            &&& actions[0] == ActionView::SetToggleText(reported_label(state))
            &&& actions[1] == ActionView::SetIcon(ctx.emoji, state)
            &&& state == State::Error ==> actions.len() == 3 && actions[2]
                == ActionView::ScheduleRevert(2000)
            &&& state != State::Error ==> actions.len() == 2
        }),
{
}

/// When the revert delay has passed the toggle is `Off`, and the item and
/// the icon say so.
pub proof fn lemma_revert_shows_off(ctx: ContextView)
    ensures
        next_context(ctx, EventView::RevertElapsed) == (ContextView {
            state: State::Off,
            emoji: ctx.emoji,
            script_path: ctx.script_path,
        }),
        actions_for(ctx, EventView::RevertElapsed) == seq![
            ActionView::SetToggleText("State: Off"@),
            ActionView::SetIcon(ctx.emoji, State::Off),
        ],
{
}

/// The other menu commands only ask for a window or for quitting, and a
/// cancelled script choice asks for nothing.
pub proof fn lemma_window_commands(ctx: ContextView)
    ensures
        actions_for(ctx, EventView::Menu(MenuCommand::Quit)) == seq![ActionView::Quit],
        actions_for(ctx, EventView::Menu(MenuCommand::AddScript)) == seq![
            ActionView::OpenScriptChooser,
        ],
        actions_for(ctx, EventView::Menu(MenuCommand::SelectEmoji)) == seq![
            ActionView::ShowEmojiPicker,
        ],
        actions_for(ctx, EventView::ScriptChoiceCancelled) == Seq::<ActionView>::empty(),
{
}

/// The background runner reports `On` at once and `Off` one and a half
/// seconds later when the script succeeds, and `Error` at once otherwise.
pub proof fn lemma_script_reports_timing(outcome: ScriptOutcome)
    ensures
        outcome == ScriptOutcome::Succeeded ==> script_reports_view(outcome) == seq![
            TimedState { delay_ms: 0, state: State::On },
            TimedState { delay_ms: 1500, state: State::Off },
        ],
        outcome != ScriptOutcome::Succeeded ==> script_reports_view(outcome) == seq![
            TimedState { delay_ms: 0, state: State::Error },
        ],
{
}

/// The menu items' ids, spelt out.
pub proof fn lemma_menu_ids(command: MenuCommand)
    ensures
        command == MenuCommand::Toggle ==> menu_id_view(command) == "toggle"@,
        command == MenuCommand::AddScript ==> menu_id_view(command) == "add_script"@,
        command == MenuCommand::SelectEmoji ==> menu_id_view(command) == "select_emoji"@,
        command == MenuCommand::Quit ==> menu_id_view(command) == "quit"@,
        menu_command_of("toggle"@) == Some(MenuCommand::Toggle),
        menu_command_of("quit"@) == Some(MenuCommand::Quit),
        menu_command_of("add_script"@) == Some(MenuCommand::AddScript),
        menu_command_of("select_emoji"@) == Some(MenuCommand::SelectEmoji),
{
    lemma_menu_id_round_trip(MenuCommand::Toggle);
    lemma_menu_id_round_trip(MenuCommand::Quit);
    lemma_menu_id_round_trip(MenuCommand::AddScript);
    lemma_menu_id_round_trip(MenuCommand::SelectEmoji);
}
} // verus!
