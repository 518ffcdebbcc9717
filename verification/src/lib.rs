//! Decision logic of a GNOME tray toggle that runs a user-chosen bash script
//! and of its emoji picker, with the pixel conversion used for the tray icon.
mod catalogue;
mod config;
mod icon;
mod picker;
mod picker_laws;
mod toggle;
mod toggle_laws;

pub use config::{
    config_dir_name, config_file_name, config_file_name_view, config_location,
    config_location_view, climbs_at, default_config_view, is_instance_id, is_valid_instance_id,
    starts_at_root, stays_inside,
    lemma_instance_id_rule, lemma_instances_have_separate_files, lemma_loaded_config,
    lemma_location_parts, loaded_config_view, ConfigLocation, ConfigView,
    LocationView, PersistentConfig,
};
pub use icon::{
    bgra_to_rgba, lemma_each_pixel_swaps_red_and_blue, lemma_rgba_conversion_is_involution,
    pixel_count, rgba_of_bgra,
};
pub use toggle::{
    actions_for, actions_view, is_idle, menu_command_of, menu_id_view, next_context,
    script_reports, script_reports_view, starting_label_view, state_label, state_label_view,
    ActionView, AppAction, AppContext, AppEvent, ContextView, EventView, MenuCommand,
    ScriptOutcome, State, TimedState, ERROR_DISPLAY_MS, SUCCESS_DISPLAY_MS,
};
pub use toggle_laws::{
    after_reports, lemma_choosing_emoji_saves_redraws_and_closes,
    lemma_choosing_script_saves_and_notifies, lemma_icon_follows_state, lemma_menu_id_round_trip,
    lemma_menu_ids, lemma_reported_state_is_shown, lemma_revert_shows_off,
    lemma_script_reports_timing, lemma_toggle_outcome, lemma_window_commands, reported_label,
    lemma_passive_events_change_nothing, lemma_run_cycle_returns_to_off,
    lemma_saved_config_is_current, lemma_script_runs_only_from_idle_toggle,
    lemma_toggle_while_busy_resets,
};
pub use catalogue::{
    catalogue_ends_at, catalogue_entry_at, catalogue_prefix, emoji_catalogue, entries_view,
    entry_option_view, lemma_catalogue_end_is_unique, lemma_grouped_emojis_deterministic,
    group_emojis, group_members, grouped_emojis, grouping_view, strings_view,
    EmojiEntry, EntryView, GroupedEmojis,
};
pub use picker::{
    after_focus_in, after_focus_out, after_hide, after_present, after_show, after_window_hidden,
    cancel_if_pending, categories, categories_view, focus_out_actions, half_toward_zero,
    hide_actions, picker_actions_view, plan_sections, recents_actions, recents_id,
    section_markup, section_markup_view, sections_as_view, sections_for, show_actions,
    show_position, show_position_fits, Category, CategorySection, CategoryView, EmojiPicker,
    EmojiPickerConfig, PickerAction, PickerActionView, PickerView, SectionView, PRESENT_DELAY_MS,
    WINDOW_LIFT,
};
pub use picker_laws::{
    after_event, after_events, count_cancels, count_schedules, event_actions,
    lemma_at_most_one_pending_raise, lemma_last_show_presents_once,
    lemma_refresh_recents_replaces, live_raises, pending_count, recents_shown_after,
    timers_fire_only_when_live, lemma_focus_loss_after_focus_hides,
    lemma_focus_loss_hides_once_focused, lemma_hide_window_hides, lemma_section_markup_wraps_name,
    lemma_sections_hold_whole_groups, lemma_show_places_window, lemma_tab_table,
    is_tab_section, tab_is_shown, lemma_focus_loss_while_showing_keeps_window,
    lemma_group_members_are_the_group_entries, lemma_group_members_exact, lemma_recents_section_first_and_unique,
    lemma_sections_never_empty_except_recents, lemma_show_then_hide, PickerEvent,
};
