use gnome_topbar_toggle::{
    categories, group_emojis, plan_sections, section_markup, CategorySection, EmojiEntry,
    EmojiPicker, EmojiPickerConfig, PickerAction,
};

fn entry(text: &str, group: &str) -> EmojiEntry {
    EmojiEntry { text: text.to_string(), group: group.to_string() }
}

fn small_picker() -> EmojiPicker {
    let groups = group_emojis(&vec![entry("🍎", "FoodAndDrink"), entry("🏁", "Flags")]);
    EmojiPicker::with_groups(EmojiPickerConfig::default(), &groups)
}

#[test]
fn default_picker_config() {
    let c = EmojiPickerConfig::default();
    assert_eq!(c.window_width, 450);
    assert_eq!(c.window_height, 600);
    assert_eq!(c.button_size, 42);
    assert_eq!(c.columns, 9);
    assert_eq!(c.content_padding, 10);
}

#[test]
fn tab_table_starts_with_recents() {
    let cats = categories();
    assert_eq!(cats.len(), 10);
    assert_eq!((cats[0].group_id, cats[0].display_name, cats[0].icon), ("Recents", "Recently Used", "🕒"));
    assert_eq!((cats[9].group_id, cats[9].display_name, cats[9].icon), ("Flags", "Flags", "🏁"));
}

#[test]
fn sections_skip_empty_groups() {
    let groups = group_emojis(&vec![entry("🏁", "Flags"), entry("🍎", "FoodAndDrink"), entry("🧩", "Other")]);
    let sections = plan_sections(&groups);
    assert_eq!(
        sections,
        vec![
            CategorySection {
                display_name: "Recently Used".to_string(),
                icon: "🕒".to_string(),
                emojis: vec![],
                is_recents: true,
            },
            CategorySection {
                display_name: "Food".to_string(),
                icon: "🍎".to_string(),
                emojis: vec!["🍎".to_string()],
                is_recents: false,
            },
            CategorySection {
                display_name: "Flags".to_string(),
                icon: "🏁".to_string(),
                emojis: vec!["🏁".to_string()],
                is_recents: false,
            },
        ]
    );
}

#[test]
fn full_picker_has_all_catalogue_tabs() {
    let picker = EmojiPicker::new(EmojiPickerConfig::default());
    let names: Vec<&str> = picker.sections().iter().map(|s| s.display_name.as_str()).collect();
    assert_eq!(
        names,
        vec![
            "Recently Used", "Smileys", "People", "Nature", "Food", "Travel", "Activities",
            "Objects", "Symbols", "Flags",
        ]
    );
    assert!(!picker.is_visible());
}

#[test]
fn heading_markup_is_large_and_bold() {
    assert_eq!(section_markup("Flags"), "<span size='large' weight='bold'>Flags</span>");
}

#[test]
fn show_at_centres_above_the_point() {
    let mut p = small_picker();
    let actions = p.show_at(500, 300);
    assert!(p.is_visible());
    assert_eq!(
        actions,
        vec![
            PickerAction::MoveTo { x: 275, y: 200 },
            PickerAction::ShowAll,
            PickerAction::SchedulePresent { delay_ms: 50 },
        ]
    );
}

#[test]
fn show_at_again_cancels_the_pending_raise() {
    let mut p = small_picker();
    p.show_at(10, 10);
    let actions = p.show_at(600, 400);
    assert_eq!(actions[0], PickerAction::CancelPendingPresent);
    assert_eq!(actions[1], PickerAction::MoveTo { x: 375, y: 300 });
}

#[test]
fn negative_width_halves_toward_zero() {
    let groups = group_emojis(&vec![]);
    let config = EmojiPickerConfig { window_width: -5, ..EmojiPickerConfig::default() };
    let mut p = EmojiPicker::with_groups(config, &groups);
    let actions = p.show_at(0, 0);
    assert_eq!(actions[0], PickerAction::MoveTo { x: 2, y: -100 });
}

#[test]
fn focus_loss_while_showing_keeps_window() {
    let mut p = small_picker();
    p.show_at(100, 200);
    assert_eq!(p.focus_out(), vec![]);
    assert!(p.is_visible());
    assert_eq!(p.present_elapsed(), vec![PickerAction::Present]);
    assert!(p.is_visible());
}

#[test]
fn focus_loss_after_focus_hides() {
    let mut p = small_picker();
    p.show_at(100, 200);
    p.focus_in();
    assert_eq!(p.focus_out(), vec![PickerAction::CancelPendingPresent, PickerAction::Hide]);
    assert!(!p.is_visible());
}

#[test]
fn hide_window_drops_pending_raise() {
    let mut p = small_picker();
    p.show_at(100, 200);
    assert_eq!(p.hide_window(), vec![PickerAction::CancelPendingPresent, PickerAction::Hide]);
    assert!(!p.is_visible());
    assert_eq!(p.hide_window(), vec![PickerAction::Hide]);
}

#[test]
fn closing_the_window_hides_it() {
    let mut p = small_picker();
    p.show_at(100, 200);
    assert_eq!(p.close_requested(), vec![PickerAction::Hide]);
    assert!(!p.is_visible());
}

#[test]
fn clicking_an_emoji_hides_and_selects() {
    let mut p = small_picker();
    p.show_at(100, 200);
    assert_eq!(
        p.emoji_clicked("🍎".to_string()),
        vec![PickerAction::Hide, PickerAction::Select("🍎".to_string())]
    );
    assert!(!p.is_visible());
}

#[test]
fn switching_tabs_scrolls_to_existing_sections() {
    let p = small_picker();
    assert_eq!(p.sections().len(), 3);
    assert_eq!(p.page_switched(0), Some(0));
    assert_eq!(p.page_switched(2), Some(2));
    assert_eq!(p.page_switched(3), None);
}

#[test]
fn refresh_recents_rebuilds_the_buttons() {
    let p = small_picker();
    assert_eq!(
        p.refresh_recents(&vec!["🚀".to_string(), "🔥".to_string()]),
        vec![
            PickerAction::ClearRecents,
            PickerAction::AddRecent("🚀".to_string()),
            PickerAction::AddRecent("🔥".to_string()),
            PickerAction::ShowRecents,
        ]
    );
    assert_eq!(p.refresh_recents(&vec![]), vec![PickerAction::ClearRecents, PickerAction::ShowRecents]);
}

#[test]
fn focus_loss_hides_after_focus_even_once_raised() {
    let mut p = small_picker();
    p.show_at(100, 200);
    p.focus_in();
    p.present_elapsed();
    let actions = p.focus_out();
    assert_eq!(actions, vec![PickerAction::Hide]);
    assert!(!p.is_visible());
    assert!(!actions.iter().any(|a| matches!(a, PickerAction::Select(_))));
}

fn recents_shown(start: Vec<String>, actions: &[PickerAction]) -> Vec<String> {
    let mut shown = start;
    for a in actions {
        match a {
            PickerAction::ClearRecents => shown.clear(),
            PickerAction::AddRecent(e) => shown.push(e.clone()),
            _ => {}
        }
    }
    shown
}

#[test]
fn refreshing_recents_twice_replaces_not_appends() {
    let p = small_picker();
    let a = vec!["🚀".to_string()];
    let b = vec!["🔥".to_string(), "⭐".to_string()];
    let once = recents_shown(vec!["🤖".to_string()], &p.refresh_recents(&b));
    let after_a = recents_shown(vec!["🤖".to_string()], &p.refresh_recents(&a));
    let then_b = recents_shown(after_a, &p.refresh_recents(&b));
    let twice = recents_shown(once.clone(), &p.refresh_recents(&b));
    assert_eq!(once, b);
    assert_eq!(then_b, b);
    assert_eq!(twice, b);
}

#[test]
fn one_raise_pending_and_removed_only_while_pending() {
    let mut p = small_picker();
    let count = |acts: &[PickerAction], f: fn(&PickerAction) -> bool| acts.iter().filter(|a| f(a)).count();
    let is_cancel: fn(&PickerAction) -> bool = |a| matches!(a, PickerAction::CancelPendingPresent);
    let is_schedule: fn(&PickerAction) -> bool = |a| matches!(a, PickerAction::SchedulePresent { .. });
    let mut live: i64 = 0;
    let first = p.show_at(10, 10);
    live += count(&first, is_schedule) as i64 - count(&first, is_cancel) as i64;
    let second = p.show_at(20, 20);
    assert_eq!(count(&second, is_cancel), 1);
    live += count(&second, is_schedule) as i64 - count(&second, is_cancel) as i64;
    assert_eq!(live, 1);
    assert_eq!(p.present_elapsed(), vec![PickerAction::Present]);
    live -= 1;
    assert_eq!(live, 0);
    let hidden = p.hide_window();
    assert_eq!(count(&hidden, is_cancel), 0);
}
