use gnome_topbar_toggle::{
    script_reports, state_label, AppAction, AppContext, AppEvent, MenuCommand, PersistentConfig,
    ScriptOutcome, State, TimedState, ERROR_DISPLAY_MS, SUCCESS_DISPLAY_MS,
};

fn context(state: State) -> AppContext {
    AppContext { state, emoji: "🔥".to_string(), script_path: b"/opt/vpn.sh".to_vec() }
}

fn icon(emoji: &str, state: State) -> AppAction {
    AppAction::SetIcon { emoji: emoji.to_string(), state }
}

#[test]
fn menu_ids_round_trip() {
    for command in [MenuCommand::Toggle, MenuCommand::AddScript, MenuCommand::SelectEmoji, MenuCommand::Quit] {
        assert_eq!(MenuCommand::from_id(&command.menu_id()), Some(command));
    }
    assert_eq!(MenuCommand::Toggle.menu_id(), "toggle");
    assert_eq!(MenuCommand::AddScript.menu_id(), "add_script");
    assert_eq!(MenuCommand::SelectEmoji.menu_id(), "select_emoji");
    assert_eq!(MenuCommand::Quit.menu_id(), "quit");
}

#[test]
fn unknown_menu_ids_do_nothing() {
    assert_eq!(MenuCommand::from_id(&"emoji_root".to_string()), None);
    assert_eq!(MenuCommand::from_id(&"".to_string()), None);
    assert_eq!(MenuCommand::from_id(&"Toggle".to_string()), None);
}

#[test]
fn state_labels_name_the_state() {
    assert_eq!(state_label(State::Off), "State: Off");
    assert_eq!(state_label(State::TurningOn), "State: TurningOn");
    assert_eq!(state_label(State::On), "State: On");
    assert_eq!(state_label(State::Error), "State: Error");
}

#[test]
fn start_up_context_comes_from_config() {
    let config = PersistentConfig { emoji: "⭐".to_string(), script_path: b"run.sh".to_vec() };
    let ctx = AppContext::from_config(config.clone());
    assert_eq!(ctx.state, State::Off);
    assert_eq!(ctx.emoji, "⭐");
    assert_eq!(ctx.script_path, b"run.sh".to_vec());
    assert_eq!(ctx.config(), config);
}

#[test]
fn toggle_from_off_runs_the_script() {
    let mut ctx = context(State::Off);
    let actions = ctx.handle(AppEvent::Menu(MenuCommand::Toggle));
    assert_eq!(ctx.state, State::TurningOn);
    assert_eq!(
        actions,
        vec![
            icon("🔥", State::TurningOn),
            AppAction::SetToggleText("State: Turning on...".to_string()),
            AppAction::RunScript(b"/opt/vpn.sh".to_vec()),
        ]
    );
}

#[test]
fn toggle_from_error_runs_the_script_again() {
    let mut ctx = context(State::Error);
    let actions = ctx.handle(AppEvent::Menu(MenuCommand::Toggle));
    assert_eq!(ctx.state, State::TurningOn);
    assert!(actions.contains(&AppAction::RunScript(b"/opt/vpn.sh".to_vec())));
}

#[test]
fn toggle_while_running_resets_to_off() {
    for state in [State::TurningOn, State::On] {
        let mut ctx = context(state);
        let actions = ctx.handle(AppEvent::Menu(MenuCommand::Toggle));
        assert_eq!(ctx.state, State::Off);
        assert_eq!(
            actions,
            vec![AppAction::SetToggleText("State: Off".to_string()), icon("🔥", State::Off)]
        );
    }
}

#[test]
fn double_toggle_ends_off() {
    let mut ctx = context(State::Off);
    ctx.handle(AppEvent::Menu(MenuCommand::Toggle));
    let actions = ctx.handle(AppEvent::Menu(MenuCommand::Toggle));
    assert_eq!(ctx.state, State::Off);
    assert!(!actions.iter().any(|a| matches!(a, AppAction::RunScript(_))));
}

#[test]
fn reported_error_schedules_a_revert() {
    let mut ctx = context(State::TurningOn);
    let actions = ctx.handle(AppEvent::StateReported(State::Error));
    assert_eq!(ctx.state, State::Error);
    assert_eq!(
        actions,
        vec![
            AppAction::SetToggleText("State: Error".to_string()),
            icon("🔥", State::Error),
            AppAction::ScheduleRevert { delay_ms: 2000 },
        ]
    );
    let actions = ctx.handle(AppEvent::RevertElapsed);
    assert_eq!(ctx.state, State::Off);
    assert_eq!(
        actions,
        vec![AppAction::SetToggleText("State: Off".to_string()), icon("🔥", State::Off)]
    );
}

#[test]
fn reported_success_shows_on_without_revert() {
    let mut ctx = context(State::TurningOn);
    let actions = ctx.handle(AppEvent::StateReported(State::On));
    assert_eq!(ctx.state, State::On);
    assert_eq!(
        actions,
        vec![AppAction::SetToggleText("State: On".to_string()), icon("🔥", State::On)]
    );
}

#[test]
fn successful_run_cycle_returns_to_off() {
    let mut ctx = context(State::Off);
    ctx.handle(AppEvent::Menu(MenuCommand::Toggle));
    let reports = script_reports(ScriptOutcome::Succeeded);
    assert_eq!(
        reports,
        vec![
            TimedState { delay_ms: 0, state: State::On },
            TimedState { delay_ms: SUCCESS_DISPLAY_MS, state: State::Off },
        ]
    );
    let mut seen = Vec::new();
    for r in reports {
        ctx.handle(AppEvent::StateReported(r.state));
        seen.push(ctx.state);
    }
    assert_eq!(seen, vec![State::On, State::Off]);
    assert_eq!(SUCCESS_DISPLAY_MS, 1500);
}

#[test]
fn failed_run_cycle_reverts_after_delay() {
    for outcome in [ScriptOutcome::Failed, ScriptOutcome::LaunchFailed] {
        let reports = script_reports(outcome);
        assert_eq!(reports, vec![TimedState { delay_ms: 0, state: State::Error }]);
        let mut ctx = context(State::TurningOn);
        let actions = ctx.handle(AppEvent::StateReported(reports[0].state));
        assert!(actions.contains(&AppAction::ScheduleRevert { delay_ms: ERROR_DISPLAY_MS }));
        ctx.handle(AppEvent::RevertElapsed);
        assert_eq!(ctx.state, State::Off);
    }
}

#[test]
fn choosing_a_script_saves_and_notifies() {
    let mut ctx = context(State::On);
    let actions = ctx.handle(AppEvent::ScriptChosen(b"/home/u/other.sh".to_vec()));
    assert_eq!(ctx.script_path, b"/home/u/other.sh".to_vec());
    assert_eq!(ctx.state, State::On);
    assert_eq!(
        actions,
        vec![
            AppAction::SaveConfig(PersistentConfig {
                emoji: "🔥".to_string(),
                script_path: b"/home/u/other.sh".to_vec(),
            }),
            AppAction::Notify {
                title: "Script Updated".to_string(),
                body: "Configuration saved.".to_string(),
            },
        ]
    );
}

#[test]
fn cancelled_script_choice_changes_nothing() {
    let mut ctx = context(State::Off);
    let before = ctx.clone();
    assert_eq!(ctx.handle(AppEvent::ScriptChoiceCancelled), vec![]);
    assert_eq!(ctx, before);
}

#[test]
fn choosing_an_emoji_saves_redraws_and_hides() {
    let mut ctx = context(State::TurningOn);
    let actions = ctx.handle(AppEvent::EmojiChosen("🤖".to_string()));
    assert_eq!(ctx.emoji, "🤖");
    assert_eq!(
        actions,
        vec![
            AppAction::SaveConfig(PersistentConfig {
                emoji: "🤖".to_string(),
                script_path: b"/opt/vpn.sh".to_vec(),
            }),
            icon("🤖", State::TurningOn),
            AppAction::HideEmojiPicker,
        ]
    );
}

#[test]
fn window_commands_only_ask_for_windows() {
    let cases = [
        (MenuCommand::Quit, AppAction::Quit),
        (MenuCommand::AddScript, AppAction::OpenScriptChooser),
        (MenuCommand::SelectEmoji, AppAction::ShowEmojiPicker),
    ];
    for (command, expected) in cases {
        let mut ctx = context(State::On);
        let before = ctx.clone();
        assert_eq!(ctx.handle(AppEvent::Menu(command)), vec![expected]);
        assert_eq!(ctx, before);
    }
}

#[test]
fn script_paths_that_are_not_utf8_run_unchanged() {
    let path: Vec<u8> = vec![b'/', b't', 0xff, 0xfe, b'.', b's', b'h'];
    let mut ctx = context(State::Off);
    ctx.handle(AppEvent::ScriptChosen(path.clone()));
    let actions = ctx.handle(AppEvent::Menu(MenuCommand::Toggle));
    assert_eq!(actions[2], AppAction::RunScript(path));
}
