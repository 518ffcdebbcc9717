use gnome_topbar_toggle::{emoji_catalogue, group_emojis, grouped_emojis, EmojiEntry};

fn entry(text: &str, group: &str) -> EmojiEntry {
    EmojiEntry { text: text.to_string(), group: group.to_string() }
}

#[test]
fn catalogue_starts_with_grinning_face() {
    let entries = emoji_catalogue();
    assert!(entries.len() > 1000);
    assert_eq!(entries[0], entry("😀", "SmileysAndEmotion"));
}

#[test]
fn catalogue_group_names_are_known() {
    let known = [
        "SmileysAndEmotion", "PeopleAndBody", "AnimalsAndNature", "FoodAndDrink",
        "TravelAndPlaces", "Activities", "Objects", "Symbols", "Flags",
    ];
    for e in emoji_catalogue() {
        assert!(known.contains(&e.group.as_str()), "{}", e.group);
    }
}

#[test]
fn grouping_keeps_order_within_each_group() {
    let entries = vec![
        entry("a", "G1"),
        entry("b", "G2"),
        entry("c", "G1"),
        entry("d", "G3"),
        entry("e", "G2"),
    ];
    let g = group_emojis(&entries);
    assert_eq!(g.get(&"G1".to_string()), Some(&vec!["a".to_string(), "c".to_string()]));
    assert_eq!(g.get(&"G2".to_string()), Some(&vec!["b".to_string(), "e".to_string()]));
    assert_eq!(g.get(&"G3".to_string()), Some(&vec!["d".to_string()]));
    assert_eq!(g.get(&"G4".to_string()), None);
}

#[test]
fn grouping_nothing_gives_no_groups() {
    let g = group_emojis(&Vec::new());
    assert_eq!(g.get(&"Flags".to_string()), None);
}

#[test]
fn grouped_catalogue_has_flags_and_smileys() {
    let g = grouped_emojis();
    let flags = g.get(&"Flags".to_string()).unwrap();
    assert_eq!(flags[0], "🏁");
    let smileys = g.get(&"SmileysAndEmotion".to_string()).unwrap();
    assert_eq!(&smileys[..3], &["😀".to_string(), "😃".to_string(), "😄".to_string()]);
    assert_eq!(g.get(&"Recents".to_string()), None);
    let total: usize = [
        "SmileysAndEmotion", "PeopleAndBody", "AnimalsAndNature", "FoodAndDrink",
        "TravelAndPlaces", "Activities", "Objects", "Symbols", "Flags",
    ]
    .iter()
    .map(|n| g.get(&n.to_string()).map(|v| v.len()).unwrap_or(0))
    .sum();
    assert_eq!(total, emoji_catalogue().len());
}
