use vstd::prelude::*;
use vstd::string::StringExecFns;

use crate::catalogue::{grouped_emojis, strings_view, GroupedEmojis};

verus! {

/// `value / 2` rounded toward zero, as integer division does in executable
/// code.
pub open spec fn half_toward_zero(value: int) -> int {
    if value >= 0 {
        value / 2
    } else {
        -((-value) / 2)
    }
}

/// Halves a width the way the picker centres its window.
fn half_width(width: i32) -> (half: i32)
    ensures
        half == half_toward_zero(width as int),
{
    width / 2
}

} // verus!

verus! {

/// Sizes and layout of the emoji picker window.
#[derive(Clone, Copy, PartialEq, Eq, Structural, Debug)]
pub struct EmojiPickerConfig {
    pub window_width: i32,
    pub window_height: i32,
    pub button_size: i32,
    pub columns: u32,
    pub content_padding: i32,
}

impl Default for EmojiPickerConfig {
    fn default() -> (config: Self)
        ensures
            config == (EmojiPickerConfig {
                window_width: 450,
                window_height: 600,
                button_size: 42,
                columns: 9,
                content_padding: 10,
            }),
    {
        EmojiPickerConfig {
            window_width: 450,
            window_height: 600,
            button_size: 42,
            columns: 9,
            content_padding: 10,
        }
    }
}

/// A tab of the picker: the catalogue group it shows (or `"Recents"` for the
/// recently used emojis), its heading and its tab icon.
#[derive(Clone, Copy, Debug, PartialEq, Eq)]
pub struct Category {
    pub group_id: &'static str,
    pub display_name: &'static str,
    pub icon: &'static str,
}

/// A category as plain values: `(group id, heading, tab icon)`.
pub type CategoryView = (Seq<char>, Seq<char>, Seq<char>);

impl View for Category {
    type V = CategoryView;

    open spec fn view(&self) -> CategoryView {
        (self.group_id@, self.display_name@, self.icon@)
    }
}

/// The group id of the tab of recently used emojis.
pub open spec fn recents_id() -> Seq<char> {
    "Recents"@
}

/// The picker's tabs, in order.
pub open spec fn categories_view() -> Seq<CategoryView> {
    seq![
        ("Recents"@, "Recently Used"@, "🕒"@),
        ("SmileysAndEmotion"@, "Smileys"@, "😀"@),
        ("PeopleAndBody"@, "People"@, "👋"@),
        ("AnimalsAndNature"@, "Nature"@, "🐶"@),
        ("FoodAndDrink"@, "Food"@, "🍎"@),
        ("TravelAndPlaces"@, "Travel"@, "🚗"@),
        ("Activities"@, "Activities"@, "⚽"@),
        ("Objects"@, "Objects"@, "💡"@),
        ("Symbols"@, "Symbols"@, "🔣"@),
        ("Flags"@, "Flags"@, "🏁"@),
    ]
}

/// Builds one entry of the tab table.
fn category(group_id: &'static str, display_name: &'static str, icon: &'static str) -> (c: Category)
    ensures
        c@ == (group_id@, display_name@, icon@),
{
    Category { group_id, display_name, icon }
}

/// The picker's tabs, in order.
pub fn categories() -> (cats: Vec<Category>)
    ensures
        cats@.map_values(|c: Category| c@) == categories_view(),
{
    let mut cats: Vec<Category> = Vec::new();
    cats.push(category("Recents", "Recently Used", "🕒"));
    cats.push(category("SmileysAndEmotion", "Smileys", "😀"));
    cats.push(category("PeopleAndBody", "People", "👋"));
    cats.push(category("AnimalsAndNature", "Nature", "🐶"));
    cats.push(category("FoodAndDrink", "Food", "🍎"));
    cats.push(category("TravelAndPlaces", "Travel", "🚗"));
    cats.push(category("Activities", "Activities", "⚽"));
    cats.push(category("Objects", "Objects", "💡"));
    cats.push(category("Symbols", "Symbols", "🔣"));
    cats.push(category("Flags", "Flags", "🏁"));
    assert(cats@.map_values(|c: Category| c@) =~= categories_view());
    cats
}

/// A section of the picker's content: heading, tab icon, the emojis it
/// starts with, and whether it is the section of recently used emojis.
#[derive(Clone, Debug, PartialEq, Eq)]
pub struct CategorySection {
    pub display_name: String,
    pub icon: String,
    pub emojis: Vec<String>,
    pub is_recents: bool,
}

/// A section as plain values: `(heading, tab icon, emojis, is recents)`.
pub type SectionView = (Seq<char>, Seq<char>, Seq<Seq<char>>, bool);

impl View for CategorySection {
    type V = SectionView;

    open spec fn view(&self) -> SectionView {
        (self.display_name@, self.icon@, strings_view(self.emojis@), self.is_recents)
    }
}

/// Sections as plain values.
pub open spec fn sections_as_view(sections: Seq<CategorySection>) -> Seq<SectionView> {
    sections.map_values(|s: CategorySection| s@)
}

/// The sections that the tabs `cats` give over the grouped catalogue
/// `groups`: the recents section always (empty at first), every other tab
/// only where its group has emojis.
pub open spec fn sections_for(
    cats: Seq<CategoryView>,
    groups: Map<Seq<char>, Seq<Seq<char>>>,
) -> Seq<SectionView>
    decreases cats.len(),
{
    if cats.len() == 0 {
        Seq::empty()
    } else {
        let rest = sections_for(cats.drop_last(), groups);
        let c = cats.last();
        if c.0 == recents_id() {
            rest.push((c.1, c.2, Seq::empty(), true))
        } else if groups.contains_key(c.0) && groups[c.0].len() > 0 {
            rest.push((c.1, c.2, groups[c.0], false))
        } else {
            rest
        }
    }
}

/// Copies a list of strings.
fn copy_strings(strings: &Vec<String>) -> (copy: Vec<String>)
    ensures
        strings_view(copy@) == strings_view(strings@),
{
    let mut copy: Vec<String> = Vec::new();
    let mut i: usize = 0;
    while i < strings.len()
        invariant
            i <= strings@.len(),
            copy@.len() == i,
            strings_view(copy@) == strings_view(strings@).take(i as int),
        decreases strings@.len() - i,
    {
        let ghost old_copy = copy@;
        copy.push(strings[i].clone());
        assert forall|k: int| 0 <= k < i + 1 implies strings_view(copy@)[k] == strings_view(
            strings@,
        ).take(i + 1)[k] by {
            if k < i {
                assert(copy@[k] == old_copy[k]);
                assert(strings_view(old_copy)[k] == strings_view(strings@).take(i as int)[k]);
            }
        }
        assert(strings_view(copy@) =~= strings_view(strings@).take(i + 1));
        i = i + 1;
    }
    assert(strings_view(strings@).take(i as int) =~= strings_view(strings@));
    copy
}

/// Lays out the picker's sections over the grouped catalogue, tab by tab.
pub fn plan_sections(groups: &GroupedEmojis) -> (sections: Vec<CategorySection>)
    ensures
        sections_as_view(sections@) == sections_for(categories_view(), groups@),
{
    let cats = categories();
    let ghost cv = cats@.map_values(|c: Category| c@);
    let mut sections: Vec<CategorySection> = Vec::new();
    let mut i: usize = 0;
    while i < cats.len()
        invariant
            i <= cats@.len(),
            cv == cats@.map_values(|c: Category| c@),
            cv == categories_view(),
            sections_as_view(sections@) == sections_for(cv.take(i as int), groups@),
        decreases cats@.len() - i,
    {
        let c = &cats[i];
        let ghost cvi = cv[i as int];
        assert(cvi == c@);
        assert(cv.take(i + 1).drop_last() =~= cv.take(i as int));
        assert(cv.take(i + 1).last() == cvi);
        let id = String::from_str(c.group_id);
        let ghost before = sections@;
        if id == String::from_str("Recents") {
            sections.push(
                CategorySection {
                    display_name: String::from_str(c.display_name),
                    icon: String::from_str(c.icon),
                    emojis: Vec::new(),
                    is_recents: true,
                },
            );
            assert(strings_view(Seq::<String>::empty()) =~= Seq::<Seq<char>>::empty());
            assert(sections_as_view(sections@) =~= sections_as_view(before).push(
                (cvi.1, cvi.2, Seq::empty(), true),
            ));
        } else {
            match groups.get(&id) {
                Some(list) => {
                    if list.len() > 0 {
                        sections.push(
                            CategorySection {
                                display_name: String::from_str(c.display_name),
                                icon: String::from_str(c.icon),
                                emojis: copy_strings(list),
                                is_recents: false,
                            },
                        );
                        assert(sections_as_view(sections@) =~= sections_as_view(before).push(
                            (cvi.1, cvi.2, groups@[cvi.0], false),
                        ));
                    }
                },
                None => {},
            }
        }
        i = i + 1;
    }
    assert(cv.take(cats@.len() as int) =~= cv);
    sections
}

/// The markup of a section heading: the name in large bold type. The name
/// is inserted as it is.
pub open spec fn section_markup_view(display_name: Seq<char>) -> Seq<char> {
    "<span size='large' weight='bold'>"@ + display_name + "</span>"@
}

/// Pango markup for the heading of a section.
pub fn section_markup(display_name: &str) -> (markup: String)
    ensures
        markup@ == section_markup_view(display_name@),
{
    let mut markup = String::from_str("<span size='large' weight='bold'>");
    markup.append(display_name);
    markup.append("</span>");
    markup
}

} // verus!

verus! {

/// How long after being shown the picker window is raised and focused.
pub const PRESENT_DELAY_MS: u64 = 50;

/// How far above the pointer the picker window's top edge is placed.
pub const WINDOW_LIFT: i32 = 100;

/// What the window code must do for the picker, in order.
#[derive(Clone, Debug, PartialEq, Eq)]
pub enum PickerAction {
    /// Remove the timer that would raise the window.
    CancelPendingPresent,
    /// Move the window's top-left corner here.
    MoveTo { x: i32, y: i32 },
    /// Show the window and everything in it.
    ShowAll,
    /// Hand back `present_elapsed` after this many milliseconds.
    SchedulePresent { delay_ms: u64 },
    /// Raise and focus the window.
    Present,
    Hide,
    /// Call the user's selection callback with this emoji.
    Select(String),
    /// Remove every button of the recents section.
    ClearRecents,
    /// Add a button for this emoji at the end of the recents section.
    AddRecent(String),
    /// Show the recents section's new buttons.
    ShowRecents,
}

/// A picker action as plain values.
pub enum PickerActionView {
    CancelPendingPresent,
    MoveTo(i32, i32),
    ShowAll,
    SchedulePresent(u64),
    Present,
    Hide,
    Select(Seq<char>),
    ClearRecents,
    AddRecent(Seq<char>),
    ShowRecents,
}

impl View for PickerAction {
    type V = PickerActionView;

    open spec fn view(&self) -> PickerActionView {
        match self {
            PickerAction::CancelPendingPresent => PickerActionView::CancelPendingPresent,
            PickerAction::MoveTo { x, y } => PickerActionView::MoveTo(*x, *y),
            PickerAction::ShowAll => PickerActionView::ShowAll,
            PickerAction::SchedulePresent { delay_ms } => PickerActionView::SchedulePresent(*delay_ms),
            PickerAction::Present => PickerActionView::Present,
            PickerAction::Hide => PickerActionView::Hide,
            PickerAction::Select(e) => PickerActionView::Select(e@),
            PickerAction::ClearRecents => PickerActionView::ClearRecents,
            PickerAction::AddRecent(e) => PickerActionView::AddRecent(e@),
            PickerAction::ShowRecents => PickerActionView::ShowRecents,
        }
    }
}

/// Picker actions as plain values.
pub open spec fn picker_actions_view(actions: Seq<PickerAction>) -> Seq<PickerActionView> {
    actions.map_values(|a: PickerAction| a@)
}

/// The picker as plain values.
pub struct PickerView {
    pub config: EmojiPickerConfig,
    pub sections: Seq<SectionView>,
    /// A loss of focus does not hide the window (set while it is being
    /// shown, cleared once it has the focus).
    pub hide_suppressed: bool,
    /// A timer that will raise the window is running.
    pub present_pending: bool,
    pub visible: bool,
}

/// The window's top-left corner when the picker is shown at `(x, y)`:
/// centred horizontally on the point, a little above it.
pub open spec fn show_position(config: EmojiPickerConfig, x: i32, y: i32) -> (int, int) {
    (x - half_toward_zero(config.window_width as int), y - WINDOW_LIFT)
}

/// Whether the position for `(x, y)` fits the window system's coordinates.
pub open spec fn show_position_fits(config: EmojiPickerConfig, x: i32, y: i32) -> bool {
    let (px, py) = show_position(config, x, y);
    i32::MIN <= px <= i32::MAX && i32::MIN <= py <= i32::MAX
}

/// The cancellation of a pending raise, where there is one.
pub open spec fn cancel_if_pending(pending: bool) -> Seq<PickerActionView> {
    if pending {
        seq![PickerActionView::CancelPendingPresent]
    } else {
        Seq::empty()
    }
}

/// The picker after `show_at(x, y)`.
pub open spec fn after_show(p: PickerView) -> PickerView {
    PickerView { hide_suppressed: true, present_pending: true, visible: true, ..p }
}

/// What `show_at(x, y)` asks of the window.
pub open spec fn show_actions(p: PickerView, x: i32, y: i32) -> Seq<PickerActionView> {
    let (px, py) = show_position(p.config, x, y);
    cancel_if_pending(p.present_pending) + seq![
        PickerActionView::MoveTo(px as i32, py as i32),
        PickerActionView::ShowAll,
        PickerActionView::SchedulePresent(PRESENT_DELAY_MS),
    ]
}

/// The picker after `hide`.
pub open spec fn after_hide(p: PickerView) -> PickerView {
    PickerView { hide_suppressed: false, present_pending: false, visible: false, ..p }
}

/// What `hide` asks of the window.
pub open spec fn hide_actions(p: PickerView) -> Seq<PickerActionView> {
    cancel_if_pending(p.present_pending) + seq![PickerActionView::Hide]
}

/// The picker after the raise timer has fired.
pub open spec fn after_present(p: PickerView) -> PickerView {
    PickerView { present_pending: false, visible: true, ..p }
}

/// The picker after its window gained the focus.
pub open spec fn after_focus_in(p: PickerView) -> PickerView {
    PickerView { hide_suppressed: false, ..p }
}

/// The picker after its window lost the focus: hidden, unless hiding is
/// suppressed.
pub open spec fn after_focus_out(p: PickerView) -> PickerView {
    if p.hide_suppressed {
        p
    } else {
        PickerView { present_pending: false, visible: false, ..p }
    }
}

/// What a loss of focus asks of the window.
pub open spec fn focus_out_actions(p: PickerView) -> Seq<PickerActionView> {
    if p.hide_suppressed {
        Seq::empty()
    } else {
        cancel_if_pending(p.present_pending) + seq![PickerActionView::Hide]
    }
}

/// The picker after its window was hidden by closing it or by choosing an
/// emoji (a raise that is pending stays pending).
pub open spec fn after_window_hidden(p: PickerView) -> PickerView {
    PickerView { visible: false, ..p }
}

/// What refreshing the recents section with `recents` asks of the window.
pub open spec fn recents_actions(recents: Seq<Seq<char>>) -> Seq<PickerActionView> {
    seq![PickerActionView::ClearRecents] + recents.map_values(
        |e: Seq<char>| PickerActionView::AddRecent(e),
    ) + seq![PickerActionView::ShowRecents]
}

/// The decision core of the emoji picker window: what it shows, and whether
/// it is visible, about to be raised, or protected from hiding on focus loss.
#[derive(Debug)]
pub struct EmojiPicker {
    config: EmojiPickerConfig,
    sections: Vec<CategorySection>,
    hide_suppressed: bool,
    present_pending: bool,
    visible: bool,
}

impl View for EmojiPicker {
    type V = PickerView;

    closed spec fn view(&self) -> PickerView {
        PickerView {
            config: self.config,
            sections: sections_as_view(self.sections@),
            hide_suppressed: self.hide_suppressed,
            present_pending: self.present_pending,
            visible: self.visible,
        }
    }
}

impl EmojiPicker {
    /// A hidden picker whose sections are laid out over `groups`.
    pub fn with_groups(config: EmojiPickerConfig, groups: &GroupedEmojis) -> (picker: Self)
        ensures
            picker@ == (PickerView {
                config: config,
                sections: sections_for(categories_view(), groups@),
                hide_suppressed: false,
                present_pending: false,
                visible: false,
            }),
    {
        EmojiPicker {
            config,
            sections: plan_sections(groups),
            hide_suppressed: false,
            present_pending: false,
            visible: false,
        }
    }

    /// A hidden picker over the whole emoji catalogue.
    pub fn new(config: EmojiPickerConfig) -> (picker: Self)
        ensures
            picker@.config == config,
            !picker@.visible,
            !picker@.present_pending,
            !picker@.hide_suppressed,
            exists|g: Map<Seq<char>, Seq<Seq<char>>>|
                picker@.sections == sections_for(categories_view(), g) && exists|n: nat|
                    crate::catalogue::catalogue_ends_at(n) && g
                        == crate::catalogue::grouping_view(crate::catalogue::catalogue_prefix(n)),
    {
        let groups = grouped_emojis();
        let picker = Self::with_groups(config, &groups);
        assert(picker@.sections == sections_for(categories_view(), groups@));
        picker
    }

    /// The picker's sizes.
    pub fn config(&self) -> (config: EmojiPickerConfig)
        ensures
            config == self@.config,
    {
        self.config
    }

    /// The picker's sections, in tab order.
    pub fn sections(&self) -> (sections: &Vec<CategorySection>)
        ensures
            sections_as_view(sections@) == self@.sections,
    {
        &self.sections
    }

    /// Whether the picker window is shown.
    pub fn is_visible(&self) -> (visible: bool)
        ensures
            visible == self@.visible,
    {
        self.visible
    }

    /// Shows the picker centred horizontally on `(x, y)` and a little above
    /// it, and asks for the window to be raised shortly after; until the
    /// window has the focus, losing the focus does not hide it.
    pub fn show_at(&mut self, x: i32, y: i32) -> (actions: Vec<PickerAction>)
        requires
            show_position_fits(old(self)@.config, x, y),
        ensures
            final(self)@ == after_show(old(self)@),
            picker_actions_view(actions@) == show_actions(old(self)@, x, y),
    {
        let mut actions: Vec<PickerAction> = Vec::new();
        if self.present_pending {
            actions.push(PickerAction::CancelPendingPresent);
            self.present_pending = false;
        }
        self.hide_suppressed = true;
        let px = x - half_width(self.config.window_width);
        let py = y - WINDOW_LIFT;
        actions.push(PickerAction::MoveTo { x: px, y: py });
        self.visible = true;
        actions.push(PickerAction::ShowAll);
        actions.push(PickerAction::SchedulePresent { delay_ms: PRESENT_DELAY_MS });
        self.present_pending = true;
        assert(picker_actions_view(actions@) =~= show_actions(old(self)@, x, y));
        actions
    }

    /// The raise timer fired: the window is raised and focused.
    pub fn present_elapsed(&mut self) -> (actions: Vec<PickerAction>)
        ensures
            final(self)@ == after_present(old(self)@),
            picker_actions_view(actions@) == seq![PickerActionView::Present],
    {
        self.present_pending = false;
        self.visible = true;
        let mut actions: Vec<PickerAction> = Vec::new();
        actions.push(PickerAction::Present);
        assert(picker_actions_view(actions@) =~= seq![PickerActionView::Present]);
        actions
    }

    /// Hides the picker and drops any pending raise.
    pub fn hide_window(&mut self) -> (actions: Vec<PickerAction>)
        ensures
            final(self)@ == after_hide(old(self)@),
            picker_actions_view(actions@) == hide_actions(old(self)@),
    {
        let mut actions: Vec<PickerAction> = Vec::new();
        if self.present_pending {
            actions.push(PickerAction::CancelPendingPresent);
            self.present_pending = false;
        }
        self.hide_suppressed = false;
        self.visible = false;
        actions.push(PickerAction::Hide);
        assert(picker_actions_view(actions@) =~= hide_actions(old(self)@));
        actions
    }

    /// The window gained the focus: from now on losing it hides the window.
    pub fn focus_in(&mut self)
        ensures
            final(self)@ == after_focus_in(old(self)@),
    {
        self.hide_suppressed = false;
    }

    /// The window lost the focus: it hides, with any pending raise dropped,
    /// unless hiding is suppressed.
    pub fn focus_out(&mut self) -> (actions: Vec<PickerAction>)
        ensures
            final(self)@ == after_focus_out(old(self)@),
            picker_actions_view(actions@) == focus_out_actions(old(self)@),
    {
        let mut actions: Vec<PickerAction> = Vec::new();
        if !self.hide_suppressed {
            if self.present_pending {
                actions.push(PickerAction::CancelPendingPresent);
                self.present_pending = false;
            }
            self.visible = false;
            actions.push(PickerAction::Hide);
        }
        assert(picker_actions_view(actions@) =~= focus_out_actions(old(self)@));
        actions
    }

    /// The window's close button was pressed: the window hides instead of
    /// being destroyed.
    pub fn close_requested(&mut self) -> (actions: Vec<PickerAction>)
        ensures
            final(self)@ == after_window_hidden(old(self)@),
            picker_actions_view(actions@) == seq![PickerActionView::Hide],
    {
        self.visible = false;
        let mut actions: Vec<PickerAction> = Vec::new();
        actions.push(PickerAction::Hide);
        assert(picker_actions_view(actions@) =~= seq![PickerActionView::Hide]);
        actions
    }

    /// An emoji button was clicked: the window hides and the emoji is handed
    /// to the user's callback.
    pub fn emoji_clicked(&mut self, emoji: String) -> (actions: Vec<PickerAction>)
        ensures
            final(self)@ == after_window_hidden(old(self)@),
            picker_actions_view(actions@) == seq![
                PickerActionView::Hide,
                PickerActionView::Select(emoji@),
            ],
    {
        self.visible = false;
        let ghost e = emoji@;
        let mut actions: Vec<PickerAction> = Vec::new();
        actions.push(PickerAction::Hide);
        actions.push(PickerAction::Select(emoji));
        assert(picker_actions_view(actions@) =~= seq![
            PickerActionView::Hide,
            PickerActionView::Select(e),
        ]);
        actions
    }

    /// The section to scroll to when the tab `page` is selected, if there is
    /// such a section.
    pub fn page_switched(&self, page: u32) -> (section: Option<usize>)
        ensures
            section == (if (page as int) < self@.sections.len() {
                Some(page as usize)
            } else {
                None
            }),
    {
        if (page as usize) < self.sections.len() {
            Some(page as usize)
        } else {
            None
        }
    }

    /// Replaces the buttons of the recents section with one button per emoji
    /// of `recents`, in order.
    pub fn refresh_recents(&self, recents: &Vec<String>) -> (actions: Vec<PickerAction>)
        ensures
            picker_actions_view(actions@) == recents_actions(strings_view(recents@)),
    {
        let ghost rv = strings_view(recents@);
        let mut actions: Vec<PickerAction> = Vec::new();
        actions.push(PickerAction::ClearRecents);
        let mut i: usize = 0;
        while i < recents.len()
            invariant
                i <= recents@.len(),
                rv == strings_view(recents@),
                actions@.len() == i + 1,
                picker_actions_view(actions@) == seq![PickerActionView::ClearRecents]
                    + rv.take(i as int).map_values(|e: Seq<char>| PickerActionView::AddRecent(e)),
            decreases recents@.len() - i,
        {
            let ghost old_actions = actions@;
            actions.push(PickerAction::AddRecent(recents[i].clone()));
            assert forall|k: int| 0 <= k < i + 2 implies picker_actions_view(actions@)[k] == (
            seq![PickerActionView::ClearRecents] + rv.take(i + 1).map_values(
                |e: Seq<char>| PickerActionView::AddRecent(e),
            ))[k] by {
                if k < i + 1 {
                    assert(actions@[k] == old_actions[k]);
                    assert(picker_actions_view(old_actions)[k] == (seq![
                        PickerActionView::ClearRecents,
                    ] + rv.take(i as int).map_values(
                        |e: Seq<char>| PickerActionView::AddRecent(e),
                    ))[k]);
                }
            }
            assert(picker_actions_view(actions@) =~= seq![PickerActionView::ClearRecents]
                + rv.take(i + 1).map_values(|e: Seq<char>| PickerActionView::AddRecent(e)));
            i = i + 1;
        }
        let ghost mid = actions@;
        actions.push(PickerAction::ShowRecents);
        assert(rv.take(i as int) =~= rv);
        assert forall|k: int| 0 <= k < i + 2 implies picker_actions_view(actions@)[k]
            == recents_actions(rv)[k] by {
            if k < i + 1 {
                assert(actions@[k] == mid[k]);
            }
        }
        assert(picker_actions_view(actions@) =~= recents_actions(rv));
        actions
    }
}

} // verus!
