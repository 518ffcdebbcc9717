use vstd::prelude::*;

use crate::catalogue::{group_members, EntryView};
use crate::picker::{
    after_focus_in, after_focus_out, after_hide, after_present, after_show, after_window_hidden,
    categories_view, focus_out_actions, hide_actions, recents_actions, recents_id, sections_for,
    show_actions, CategoryView,
    PickerActionView, PickerView, SectionView,
};

verus! {

/// Losing the focus while the picker is being shown does not hide it: the
/// window stays visible and is still raised when the timer fires.
pub proof fn lemma_focus_loss_while_showing_keeps_window(p: PickerView)
    ensures
        after_focus_out(after_show(p)) == after_show(p),
        focus_out_actions(after_show(p)) == Seq::<crate::picker::PickerActionView>::empty(),
{
}

/// Once the picker has had the focus, losing it does what `hide_window`
/// does: the window is hidden, no raise stays pending, and the same actions
/// are asked for.
pub proof fn lemma_focus_loss_after_focus_hides(p: PickerView)
    ensures
        after_focus_out(after_focus_in(p)) == after_hide(p),
        focus_out_actions(after_focus_in(p)) == hide_actions(p),
{
}

/// Showing the picker and then hiding it leaves it hidden with nothing
/// pending, whatever state it was in before.
pub proof fn lemma_show_then_hide(p: PickerView)
    ensures
        !after_hide(after_show(p)).visible,
        !after_hide(after_show(p)).present_pending,
        !after_hide(after_show(p)).hide_suppressed,
        hide_actions(after_show(p)) == seq![
            crate::picker::PickerActionView::CancelPendingPresent,
            crate::picker::PickerActionView::Hide,
        ],
{
    assert(hide_actions(after_show(p)) =~= seq![
        crate::picker::PickerActionView::CancelPendingPresent,
        crate::picker::PickerActionView::Hide,
    ]);
}

/// In any tab table, the sections of the recents tab start empty and every
/// other section that is laid out has at least one emoji.
pub proof fn lemma_sections_never_empty_except_recents(
    cats: Seq<CategoryView>,
    groups: Map<Seq<char>, Seq<Seq<char>>>,
)
    ensures
        forall|i: int|
            0 <= i < sections_for(cats, groups).len() ==> {
                let s = #[trigger] sections_for(cats, groups)[i];
                (s.3 ==> s.2.len() == 0) && (!s.3 ==> s.2.len() > 0)
            },
    decreases cats.len(),
{
    if cats.len() > 0 {
        let rest = sections_for(cats.drop_last(), groups);
        lemma_sections_never_empty_except_recents(cats.drop_last(), groups);
        let all = sections_for(cats, groups);
        assert forall|i: int| 0 <= i < all.len() implies {
            let s = #[trigger] all[i];
            (s.3 ==> s.2.len() == 0) && (!s.3 ==> s.2.len() > 0)
        } by {
            if i < rest.len() {
                assert(all[i] == rest[i]);
            }
        }
    }
}

/// Among the picker's sections, the recents section comes first and is the
/// only one, whatever the catalogue holds.
pub proof fn lemma_recents_section_first_and_unique(groups: Map<Seq<char>, Seq<Seq<char>>>)
    ensures
        sections_for(categories_view(), groups).len() >= 1,
        sections_for(categories_view(), groups)[0] == (
            "Recently Used"@,
            "🕒"@,
            Seq::<Seq<char>>::empty(),
            true,
        ),
        forall|i: int|
            1 <= i < sections_for(categories_view(), groups).len() ==> !(#[trigger] sections_for(
                categories_view(),
                groups,
            )[i]).3,
{
    reveal_strlit("Recents");
    reveal_strlit("SmileysAndEmotion");
    reveal_strlit("PeopleAndBody");
    reveal_strlit("AnimalsAndNature");
    reveal_strlit("FoodAndDrink");
    reveal_strlit("TravelAndPlaces");
    reveal_strlit("Activities");
    reveal_strlit("Objects");
    reveal_strlit("Symbols");
    reveal_strlit("Flags");
    let cats = categories_view();
    assert forall|k: int| 1 <= k < cats.len() implies (#[trigger] cats[k]).0 != recents_id() by {
        assert(cats[k].0[0] != 'R');
    }
    assert(cats[0].0 == recents_id());
    lemma_sections_of_recents_table(cats, groups);
}

/// Sections of a tab table whose first tab, and only that one, is the
/// recents tab.
proof fn lemma_sections_of_recents_table(
    cats: Seq<CategoryView>,
    groups: Map<Seq<char>, Seq<Seq<char>>>,
)
    requires
        cats.len() >= 1,
        cats[0].0 == recents_id(),
        forall|k: int| 1 <= k < cats.len() ==> (#[trigger] cats[k]).0 != recents_id(),
    ensures
        sections_for(cats, groups).len() >= 1,
        sections_for(cats, groups)[0] == (cats[0].1, cats[0].2, Seq::<Seq<char>>::empty(), true),
        forall|i: int|
            1 <= i < sections_for(cats, groups).len() ==> !(#[trigger] sections_for(
                cats,
                groups,
            )[i]).3,
    decreases cats.len(),
{
    if cats.len() == 1 {
        assert(cats.drop_last().len() == 0);
        assert(sections_for(cats.drop_last(), groups) == Seq::<SectionView>::empty());
        assert(cats.last() == cats[0]);
        assert(sections_for(cats, groups) == Seq::<SectionView>::empty().push(
            (cats[0].1, cats[0].2, Seq::<Seq<char>>::empty(), true),
        ));
    } else {
        let front = cats.drop_last();
        assert forall|k: int| 1 <= k < front.len() implies (#[trigger] front[k]).0 != recents_id() by {
            assert(front[k] == cats[k]);
        }
        lemma_sections_of_recents_table(front, groups);
        assert(cats.last() == cats[cats.len() - 1]);
        assert(cats.last().0 != recents_id());
        assert(front[0] == cats[0]);
        let rest = sections_for(front, groups);
        let all = sections_for(cats, groups);
        assert(all[0] == rest[0]);
        assert forall|i: int| 1 <= i < all.len() implies !(#[trigger] all[i]).3 by {
            if i < rest.len() {
                assert(all[i] == rest[i]);
            }
        }
    }
}

/// Every emoji of the catalogue is listed under its own group, and a group
/// lists nothing else.
pub proof fn lemma_group_members_exact(entries: Seq<EntryView>, group: Seq<char>, emoji: Seq<char>)
    ensures
        group_members(entries, group).contains(emoji) <==> exists|i: int|
            0 <= i < entries.len() && #[trigger] entries[i] == (emoji, group),
    decreases entries.len(),
{
    if entries.len() > 0 {
        let front = entries.drop_last();
        lemma_group_members_exact(front, group, emoji);
        let rest = group_members(front, group);
        if exists|i: int| 0 <= i < front.len() && #[trigger] front[i] == (emoji, group) {
            let i = choose|i: int| 0 <= i < front.len() && #[trigger] front[i] == (emoji, group);
            assert(entries[i] == front[i]);
            if entries.last().1 == group {
                assert(rest.push(entries.last().0).contains(emoji)) by {
                    let w = choose|w: int| 0 <= w < rest.len() && rest[w] == emoji;
                    assert(rest.push(entries.last().0)[w] == emoji);
                }
            }
        }
        if group_members(entries, group).contains(emoji) {
            if entries.last() == (emoji, group) {
                assert(entries[entries.len() - 1] == (emoji, group));
            } else if entries.last().1 == group {
                let w = choose|w: int|
                    0 <= w < rest.push(entries.last().0).len() && rest.push(entries.last().0)[w]
                        == emoji;
                assert(w < rest.len());
                assert(rest.contains(emoji));
                let i = choose|i: int| 0 <= i < front.len() && #[trigger] front[i] == (emoji, group);
                assert(entries[i] == front[i]);
            } else {
                let i = choose|i: int| 0 <= i < front.len() && #[trigger] front[i] == (emoji, group);
                assert(entries[i] == front[i]);
            }
        }
        if exists|i: int| 0 <= i < entries.len() && #[trigger] entries[i] == (emoji, group) {
            let i = choose|i: int| 0 <= i < entries.len() && #[trigger] entries[i] == (emoji, group);
            if i == entries.len() - 1 {
                assert(group_members(entries, group) == rest.push(emoji));
                assert(rest.push(emoji)[rest.len() as int] == emoji);
            } else {
                assert(front[i] == entries[i]);
                let w = choose|w: int| 0 <= w < rest.len() && rest[w] == emoji;
                if entries.last().1 == group {
                    assert(rest.push(entries.last().0)[w] == emoji);
                }
            }
        }
    }
}


/// A call made on the picker, as plain values.
pub enum PickerEvent {
    ShowAt(i32, i32),
    PresentElapsed,
    HideWindow,
    FocusIn,
    FocusOut,
    CloseRequested,
    EmojiClicked(Seq<char>),
}

/// The picker after one call.
pub open spec fn after_event(p: PickerView, event: PickerEvent) -> PickerView {
    match event {
        PickerEvent::ShowAt(_, _) => after_show(p),
        PickerEvent::PresentElapsed => after_present(p),
        PickerEvent::HideWindow => after_hide(p),
        PickerEvent::FocusIn => after_focus_in(p),
        PickerEvent::FocusOut => after_focus_out(p),
        PickerEvent::CloseRequested => after_window_hidden(p),
        PickerEvent::EmojiClicked(_) => after_window_hidden(p),
    }
}

/// The picker after a history of calls, oldest first.
pub open spec fn after_events(p: PickerView, history: Seq<PickerEvent>) -> PickerView
    decreases history.len(),
{
    if history.len() == 0 {
        p
    } else {
        after_event(after_events(p, history.drop_last()), history.last())
    }
}

/// Once the window has had the focus, no call but `show_at` suppresses
/// hiding again.
proof fn lemma_focus_keeps_hiding_enabled(p: PickerView, history: Seq<PickerEvent>, j: int)
    requires
        0 <= j < history.len(),
        history[j] == PickerEvent::FocusIn,
        forall|k: int| j < k < history.len() ==> !((#[trigger] history[k]) is ShowAt),
    ensures
        !after_events(p, history).hide_suppressed,
    decreases history.len(),
{
    if j < history.len() - 1 {
        let front = history.drop_last();
        assert forall|k: int| j < k < front.len() implies !((#[trigger] front[k]) is ShowAt) by {
            assert(front[k] == history[k]);
        }
        assert(front[j] == history[j]);
        lemma_focus_keeps_hiding_enabled(p, front, j);
        assert(!(history[history.len() - 1] is ShowAt));
    }
}

/// The picker hides itself on focus loss: whatever happened before, if the
/// window has had the focus since it was last shown, losing the focus hides
/// it, leaves no raise pending (it stays hidden until the next `show_at`),
/// and selects no emoji.
pub proof fn lemma_focus_loss_hides_once_focused(
    p: PickerView,
    history: Seq<PickerEvent>,
    j: int,
)
    requires
        0 <= j < history.len(),
        history[j] == PickerEvent::FocusIn,
        forall|k: int| j < k < history.len() ==> !((#[trigger] history[k]) is ShowAt),
    ensures
        ({
            let now = after_events(p, history);
            let actions = focus_out_actions(now);
            &&& !after_focus_out(now).visible
            &&& !after_focus_out(now).present_pending
            &&& actions.len() > 0 && actions.last() == PickerActionView::Hide
            &&& forall|i: int| 0 <= i < actions.len() ==> !((#[trigger] actions[i]) is Select)
        }),
{
    lemma_focus_keeps_hiding_enabled(p, history, j);
}

/// What the recents section shows after the window carried out `actions`,
/// starting from `shown`: clearing empties it, each added emoji goes at the
/// end, every other action leaves it alone.
pub open spec fn recents_shown_after(
    shown: Seq<Seq<char>>,
    actions: Seq<PickerActionView>,
) -> Seq<Seq<char>>
    decreases actions.len(),
{
    if actions.len() == 0 {
        shown
    } else {
        let next = match actions[0] {
            PickerActionView::ClearRecents => Seq::empty(),
            PickerActionView::AddRecent(e) => shown.push(e),
            _ => shown,
        };
        recents_shown_after(next, actions.drop_first())
    }
}

/// Carrying out two action lists in turn is carrying out their
/// concatenation.
proof fn lemma_recents_shown_after_concat(
    shown: Seq<Seq<char>>,
    first: Seq<PickerActionView>,
    second: Seq<PickerActionView>,
)
    ensures
        recents_shown_after(shown, first + second) == recents_shown_after(
            recents_shown_after(shown, first),
            second,
        ),
    decreases first.len(),
{
    if first.len() > 0 {
        let next = match first[0] {
            PickerActionView::ClearRecents => Seq::empty(),
            PickerActionView::AddRecent(e) => shown.push(e),
            _ => shown,
        };
        assert((first + second).drop_first() =~= first.drop_first() + second);
        assert((first + second)[0] == first[0]);
        lemma_recents_shown_after_concat(next, first.drop_first(), second);
    } else {
        assert(first + second =~= second);
    }
}

/// Adding the buttons of `recents` to an empty section shows exactly
/// `recents`.
proof fn lemma_adding_recents(recents: Seq<Seq<char>>)
    ensures
        recents_shown_after(
            Seq::empty(),
            recents.map_values(|e: Seq<char>| PickerActionView::AddRecent(e)),
        ) == recents,
    decreases recents.len(),
{
    let adds = recents.map_values(|e: Seq<char>| PickerActionView::AddRecent(e));
    if recents.len() > 0 {
        let front = recents.drop_last();
        let front_adds = front.map_values(|e: Seq<char>| PickerActionView::AddRecent(e));
        lemma_adding_recents(front);
        assert(adds =~= front_adds + seq![PickerActionView::AddRecent(recents.last())]);
        lemma_recents_shown_after_concat(
            Seq::empty(),
            front_adds,
            seq![PickerActionView::AddRecent(recents.last())],
        );
        let tail = seq![PickerActionView::AddRecent(recents.last())];
        assert(tail.drop_first() =~= Seq::<PickerActionView>::empty());
        assert(recents_shown_after(front, tail) == recents_shown_after(
            front.push(recents.last()),
            tail.drop_first(),
        ));
        assert(front.push(recents.last()) =~= recents);
    } else {
        assert(adds =~= Seq::<PickerActionView>::empty());
    }
}

/// Refreshing the recents section replaces its buttons: whatever it showed
/// before, afterwards it shows exactly `recents`; so a refresh with `a`
/// followed by one with `b` leaves what a refresh with `b` alone leaves, and
/// refreshing twice with the same list equals refreshing once.
pub proof fn lemma_refresh_recents_replaces(
    shown: Seq<Seq<char>>,
    a: Seq<Seq<char>>,
    b: Seq<Seq<char>>,
)
    ensures
        recents_shown_after(shown, recents_actions(b)) == b,
        recents_shown_after(recents_shown_after(shown, recents_actions(a)), recents_actions(b))
            == recents_shown_after(shown, recents_actions(b)),
{
    lemma_refresh_shows_exactly(shown, a);
    lemma_refresh_shows_exactly(recents_shown_after(shown, recents_actions(a)), b);
    lemma_refresh_shows_exactly(shown, b);
}

/// After a refresh with `recents` the section shows exactly `recents`.
proof fn lemma_refresh_shows_exactly(shown: Seq<Seq<char>>, recents: Seq<Seq<char>>)
    ensures
        recents_shown_after(shown, recents_actions(recents)) == recents,
{
    let clear = seq![PickerActionView::ClearRecents];
    let adds = recents.map_values(|e: Seq<char>| PickerActionView::AddRecent(e));
    let show = seq![PickerActionView::ShowRecents];
    lemma_recents_shown_after_concat(shown, clear + adds, show);
    lemma_recents_shown_after_concat(shown, clear, adds);
    assert(clear.drop_first() =~= Seq::<PickerActionView>::empty());
    assert(recents_shown_after(shown, clear) == recents_shown_after(
        Seq::<Seq<char>>::empty(),
        clear.drop_first(),
    ));
    lemma_adding_recents(recents);
    assert(show.drop_first() =~= Seq::<PickerActionView>::empty());
    assert(recents_shown_after(recents, show) == recents_shown_after(recents, show.drop_first()));
}

/// What the picker asks of the window for one call.
pub open spec fn event_actions(p: PickerView, event: PickerEvent) -> Seq<PickerActionView> {
    match event {
        PickerEvent::ShowAt(x, y) => show_actions(p, x, y),
        PickerEvent::PresentElapsed => seq![PickerActionView::Present],
        PickerEvent::HideWindow => hide_actions(p),
        PickerEvent::FocusIn => Seq::empty(),
        PickerEvent::FocusOut => focus_out_actions(p),
        PickerEvent::CloseRequested => seq![PickerActionView::Hide],
        PickerEvent::EmojiClicked(e) => seq![PickerActionView::Hide, PickerActionView::Select(e)],
    }
}

/// How many raise timers `actions` schedule.
pub open spec fn count_schedules(actions: Seq<PickerActionView>) -> int
    decreases actions.len(),
{
    if actions.len() == 0 {
        0
    } else {
        (if actions[0] is SchedulePresent {
            1int
        } else {
            0int
        }) + count_schedules(actions.drop_first())
    }
}

/// How many raise timers `actions` remove.
pub open spec fn count_cancels(actions: Seq<PickerActionView>) -> int
    decreases actions.len(),
{
    if actions.len() == 0 {
        0
    } else {
        (if actions[0] is CancelPendingPresent {
            1int
        } else {
            0int
        }) + count_cancels(actions.drop_first())
    }
}

/// One if the picker records a pending raise, zero otherwise.
pub open spec fn pending_count(p: PickerView) -> int {
    if p.present_pending {
        1
    } else {
        0
    }
}

/// The raise timers that exist after `history`: those scheduled by the
/// window's actions and neither removed by them nor fired, counting the one
/// the starting picker records as pending.
pub open spec fn live_raises(p: PickerView, history: Seq<PickerEvent>) -> int
    decreases history.len(),
{
    if history.len() == 0 {
        pending_count(p)
    } else {
        let q = after_events(p, history.drop_last());
        let e = history.last();
        let acts = event_actions(q, e);
        live_raises(p, history.drop_last()) + count_schedules(acts) - count_cancels(acts) - (if e
            is PresentElapsed {
            1int
        } else {
            0int
        })
    }
}

/// A history that the main loop can produce: a raise timer fires only
/// while one exists.
pub open spec fn timers_fire_only_when_live(p: PickerView, history: Seq<PickerEvent>) -> bool {
    forall|k: int|
        0 <= k < history.len() && (#[trigger] history[k]) is PresentElapsed ==> live_raises(
            p,
            history.take(k),
        ) >= 1
}

/// Counting over a concatenation adds the counts.
proof fn lemma_counts_concat(a: Seq<PickerActionView>, b: Seq<PickerActionView>)
    ensures
        count_schedules(a + b) == count_schedules(a) + count_schedules(b),
        count_cancels(a + b) == count_cancels(a) + count_cancels(b),
    decreases a.len(),
{
    if a.len() == 0 {
        assert(a + b =~= b);
    } else {
        assert((a + b).drop_first() =~= a.drop_first() + b);
        assert((a + b)[0] == a[0]);
        lemma_counts_concat(a.drop_first(), b);
    }
}

/// Counts of a one-action list.
proof fn lemma_counts_single(a: PickerActionView)
    ensures
        count_schedules(seq![a]) == (if a is SchedulePresent {
            1int
        } else {
            0int
        }),
        count_cancels(seq![a]) == (if a is CancelPendingPresent {
            1int
        } else {
            0int
        }),
{
    assert(count_schedules(Seq::<PickerActionView>::empty()) == 0);
    assert(count_cancels(Seq::<PickerActionView>::empty()) == 0);
    assert(seq![a].drop_first() =~= Seq::<PickerActionView>::empty());
    assert(seq![a][0] == a);
}

/// The raise timers that one call schedules and removes: `show_at` schedules
/// one, and a call removes one only where the picker records it as pending.
proof fn lemma_event_timer_counts(q: PickerView, e: PickerEvent)
    ensures
        count_schedules(event_actions(q, e)) == (if e is ShowAt {
            1int
        } else {
            0int
        }),
        count_cancels(event_actions(q, e)) == match e {
            PickerEvent::ShowAt(_, _) => pending_count(q),
            PickerEvent::HideWindow => pending_count(q),
            PickerEvent::FocusOut => if q.hide_suppressed {
                0
            } else {
                pending_count(q)
            },
            _ => 0,
        },
{
    let c = if q.present_pending {
        seq![PickerActionView::CancelPendingPresent]
    } else {
        Seq::<PickerActionView>::empty()
    };
    if q.present_pending {
        lemma_counts_single(PickerActionView::CancelPendingPresent);
    }
    lemma_counts_single(PickerActionView::Hide);
    lemma_counts_single(PickerActionView::Present);
    match e {
        PickerEvent::ShowAt(x, y) => {
            let (px, py) = crate::picker::show_position(q.config, x, y);
            let m = PickerActionView::MoveTo(px as i32, py as i32);
            let rest = seq![m, PickerActionView::ShowAll, PickerActionView::SchedulePresent(
                crate::picker::PRESENT_DELAY_MS,
            )];
            assert(rest =~= seq![m] + seq![PickerActionView::ShowAll] + seq![
                PickerActionView::SchedulePresent(crate::picker::PRESENT_DELAY_MS),
            ]);
            lemma_counts_single(m);
            lemma_counts_single(PickerActionView::ShowAll);
            lemma_counts_single(
                PickerActionView::SchedulePresent(crate::picker::PRESENT_DELAY_MS),
            );
            lemma_counts_concat(seq![m], seq![PickerActionView::ShowAll]);
            lemma_counts_concat(
                seq![m] + seq![PickerActionView::ShowAll],
                seq![PickerActionView::SchedulePresent(crate::picker::PRESENT_DELAY_MS)],
            );
            lemma_counts_concat(c, rest);
            assert(event_actions(q, e) == c + rest);
        },
        PickerEvent::HideWindow => {
            lemma_counts_concat(c, seq![PickerActionView::Hide]);
            assert(event_actions(q, e) == c + seq![PickerActionView::Hide]);
        },
        PickerEvent::FocusOut => {
            if !q.hide_suppressed {
                lemma_counts_concat(c, seq![PickerActionView::Hide]);
                assert(event_actions(q, e) == c + seq![PickerActionView::Hide]);
            }
        },
        PickerEvent::EmojiClicked(em) => {
            lemma_counts_single(PickerActionView::Select(em));
            lemma_counts_concat(seq![PickerActionView::Hide], seq![PickerActionView::Select(em)]);
            assert(event_actions(q, e) =~= seq![PickerActionView::Hide] + seq![
                PickerActionView::Select(em),
            ]);
        },
        _ => {},
    }
}

/// The picker's record of a pending raise matches the raise timers that
/// exist: over any history the main loop can produce, at most one raise is
/// pending (each `show_at` removes the previous one), and every removal the
/// picker asks for removes a raise that exists, so no timer is removed twice
/// or after it has fired.
#[verifier::rlimit(60)]
#[verifier::spinoff_prover]
pub proof fn lemma_at_most_one_pending_raise(p: PickerView, history: Seq<PickerEvent>)
    requires
        timers_fire_only_when_live(p, history),
    ensures
        live_raises(p, history) == pending_count(after_events(p, history)),
        0 <= live_raises(p, history) <= 1,
        forall|k: int|
            0 <= k < history.len() ==> count_cancels(
                event_actions(after_events(p, history.take(k)), #[trigger] history[k]),
            ) <= live_raises(p, history.take(k)),
    decreases history.len(),
{
    if history.len() > 0 {
        let front = history.drop_last();
        let n = history.len() - 1;
        assert forall|k: int| 0 <= k < front.len() && (#[trigger] front[k]) is PresentElapsed implies live_raises(
            p,
            front.take(k),
        ) >= 1 by {
            assert(front.take(k) =~= history.take(k));
            assert(front[k] == history[k]);
        }
        lemma_at_most_one_pending_raise(p, front);
        let q = after_events(p, front);
        let e = history.last();
        lemma_event_timer_counts(q, e);
        assert(history.take(n) =~= front);
        assert(history[n] == e);
        assert forall|k: int| 0 <= k < history.len() implies count_cancels(
            event_actions(after_events(p, history.take(k)), #[trigger] history[k]),
        ) <= live_raises(p, history.take(k)) by {
            if k < n {
                assert(history.take(k) =~= front.take(k));
                assert(front[k] == history[k]);
            }
        }
    }
}

/// Handling `first` then `second` is handling their concatenation.
proof fn lemma_after_events_concat(p: PickerView, first: Seq<PickerEvent>, second: Seq<PickerEvent>)
    ensures
        after_events(p, first + second) == after_events(after_events(p, first), second),
    decreases second.len(),
{
    if second.len() == 0 {
        assert(first + second =~= first);
    } else {
        assert((first + second).drop_last() =~= first + second.drop_last());
        assert((first + second).last() == second.last());
        lemma_after_events_concat(p, first, second.drop_last());
    }
}

/// Calls that neither hide the picker nor fire its timer keep a raise
/// pending.
proof fn lemma_pending_survives(q: PickerView, rest: Seq<PickerEvent>)
    requires
        q.present_pending,
        forall|k: int|
            0 <= k < rest.len() ==> !((#[trigger] rest[k]) is HideWindow || rest[k] is FocusOut
                || rest[k] is PresentElapsed),
    ensures
        after_events(q, rest).present_pending,
    decreases rest.len(),
{
    if rest.len() > 0 {
        let front = rest.drop_last();
        assert forall|k: int| 0 <= k < front.len() implies !((#[trigger] front[k]) is HideWindow
            || front[k] is FocusOut || front[k] is PresentElapsed) by {
            assert(front[k] == rest[k]);
        }
        lemma_pending_survives(q, front);
        assert(rest.last() == rest[rest.len() - 1]);
    }
}

/// After the last `show_at`, as long as the picker is neither hidden nor
/// loses the focus, exactly one raise stays pending; when it fires the
/// window is raised once and nothing is pending any more.
#[verifier::rlimit(60)]
#[verifier::spinoff_prover]
pub proof fn lemma_last_show_presents_once(
    p: PickerView,
    before: Seq<PickerEvent>,
    x: i32,
    y: i32,
    rest: Seq<PickerEvent>,
)
    requires
        forall|k: int|
            0 <= k < rest.len() ==> !((#[trigger] rest[k]) is HideWindow || rest[k] is FocusOut
                || rest[k] is PresentElapsed),
    ensures
        ({
            let history = before.push(PickerEvent::ShowAt(x, y)) + rest;
            let fired = history.push(PickerEvent::PresentElapsed);
            &&& after_events(p, history).present_pending
            &&& event_actions(after_events(p, history), PickerEvent::PresentElapsed) == seq![
                PickerActionView::Present,
            ]
            &&& !after_events(p, fired).present_pending
            &&& timers_fire_only_when_live(p, history) ==> {
                &&& timers_fire_only_when_live(p, fired)
                &&& live_raises(p, history) == 1
                &&& live_raises(p, fired) == 0
            }
        }),
{
    let shown = before.push(PickerEvent::ShowAt(x, y));
    let history = shown + rest;
    let fired = history.push(PickerEvent::PresentElapsed);
    assert(shown.drop_last() =~= before);
    assert(after_events(p, shown).present_pending);
    lemma_after_events_concat(p, shown, rest);
    lemma_pending_survives(after_events(p, shown), rest);
    assert(fired.drop_last() =~= history);
    if timers_fire_only_when_live(p, history) {
        lemma_at_most_one_pending_raise(p, history);
        assert forall|k: int| 0 <= k < fired.len() && (#[trigger] fired[k]) is PresentElapsed implies live_raises(
            p,
            fired.take(k),
        ) >= 1 by {
            if k < history.len() {
                assert(fired.take(k) =~= history.take(k));
                assert(fired[k] == history[k]);
            } else {
                assert(fired.take(k) =~= history);
            }
        }
        lemma_event_timer_counts(after_events(p, history), PickerEvent::PresentElapsed);
    }
}

/// Section `section` is the one laid out for tab `tab` over `groups`: for
/// the recents tab an empty recents section, for any other tab whose group
/// has emojis a section holding exactly that group's emojis, under the
/// tab's heading and icon.
pub open spec fn is_tab_section(
    tab: CategoryView,
    groups: Map<Seq<char>, Seq<Seq<char>>>,
    section: SectionView,
) -> bool {
    ||| tab.0 == "Recents"@ && section == (tab.1, tab.2, Seq::<Seq<char>>::empty(), true)
    ||| tab.0 != "Recents"@ && groups.contains_key(tab.0) && groups[tab.0].len() > 0 && section
        == (tab.1, tab.2, groups[tab.0], false)
}

/// Whether tab `tab` gets a section over `groups`: the recents tab always,
/// another tab when its group has emojis.
pub open spec fn tab_is_shown(tab: CategoryView, groups: Map<Seq<char>, Seq<Seq<char>>>) -> bool {
    tab.0 == "Recents"@ || (groups.contains_key(tab.0) && groups[tab.0].len() > 0)
}

/// The sections laid out for any tab table are exactly the tabs' sections:
/// every section is the section of some tab, holding all of its group's
/// emojis (not a part of them), and every tab that is shown has its section,
/// in tab order.
pub proof fn lemma_sections_hold_whole_groups(
    cats: Seq<CategoryView>,
    groups: Map<Seq<char>, Seq<Seq<char>>>,
)
    ensures
        forall|i: int|
            0 <= i < sections_for(cats, groups).len() ==> exists|j: int|
                0 <= j < cats.len() && is_tab_section(
                    cats[j],
                    groups,
                    #[trigger] sections_for(cats, groups)[i],
                ),
        forall|j: int|
            0 <= j < cats.len() && tab_is_shown(#[trigger] cats[j], groups) ==> exists|i: int|
                0 <= i < sections_for(cats, groups).len() && is_tab_section(
                    cats[j],
                    groups,
                    sections_for(cats, groups)[i],
                ),
    decreases cats.len(),
{
    reveal_strlit("Recents");
    if cats.len() > 0 {
        let front = cats.drop_last();
        let rest = sections_for(front, groups);
        let out = sections_for(cats, groups);
        let last = cats.len() - 1;
        assert(cats.last() == cats[last]);
        lemma_sections_hold_whole_groups(front, groups);
        assert(out.len() >= rest.len());
        assert forall|i: int| 0 <= i < out.len() implies exists|j: int|
            0 <= j < cats.len() && is_tab_section(cats[j], groups, #[trigger] out[i]) by {
            if i < rest.len() {
                assert(out[i] == rest[i]);
                let j = choose|j: int| 0 <= j < front.len() && is_tab_section(front[j], groups, rest[i]);
                assert(front[j] == cats[j]);
            } else {
                assert(is_tab_section(cats[last], groups, out[i]));
            }
        }
        assert forall|j: int| 0 <= j < cats.len() && tab_is_shown(#[trigger] cats[j], groups) implies exists|i: int|
            0 <= i < out.len() && is_tab_section(cats[j], groups, out[i]) by {
            if j < last {
                assert(front[j] == cats[j]);
                assert(tab_is_shown(front[j], groups));
                let i = choose|i: int| 0 <= i < rest.len() && is_tab_section(front[j], groups, rest[i]);
                assert(out[i] == rest[i]);
            } else {
                assert(is_tab_section(cats[last], groups, out[rest.len() as int]));
            }
        }
    }
}

/// The picker's tab table, spelt out: group, heading and icon of each tab,
/// recents first.
pub proof fn lemma_tab_table()
    ensures
        categories_view() == seq![
            ("Recents"@, "Recently Used"@, "🕒"@),
            ("SmileysAndEmotion"@, "Smileys"@, "😀"@),
            ("PeopleAndBody"@, "People"@, "👋"@),
            ("AnimalsAndNature"@, "Nature"@, "🐶"@),
            ("FoodAndDrink"@, "Food"@, "🍎"@),
            ("TravelAndPlaces"@, "Travel"@, "🚗"@),
            ("Activities"@, "Activities"@, "⚽"@),
            ("Objects"@, "Objects"@, "💡"@),
            ("Symbols"@, "Symbols"@, "🔣"@),
            ("Flags"@, "Flags"@, "🏁"@),
        ],
{
}

/// A group lists exactly the emojis of the entries that belong to it, in
/// the entries' order and as often as they occur: it is the entries of that
/// group, reduced to their emojis.
pub proof fn lemma_group_members_are_the_group_entries(entries: Seq<EntryView>, group: Seq<char>)
    ensures
        group_members(entries, group) == entries.filter(|e: EntryView| e.1 == group).map_values(
            |e: EntryView| e.0,
        ),
    decreases entries.len(),
{
    let pred = |e: EntryView| e.1 == group;
    reveal_with_fuel(Seq::<EntryView>::filter, 1);
    if entries.len() > 0 {
        let front = entries.drop_last();
        lemma_group_members_are_the_group_entries(front, group);
        let f = front.filter(pred);
        if pred(entries.last()) {
            assert(entries.filter(pred) == f.push(entries.last()));
            assert(f.push(entries.last()).map_values(|e: EntryView| e.0) =~= f.map_values(
                |e: EntryView| e.0,
            ).push(entries.last().0));
        } else {
            assert(entries.filter(pred) == f);
        }
    } else {
        assert(entries.filter(pred).map_values(|e: EntryView| e.0) =~= Seq::<Seq<char>>::empty());
    }
}

/// Showing the picker at `(x, y)` first removes a pending raise (only if
/// there is one), then moves the window so that its left edge is half a
/// window width (rounded toward zero) left of `x` and its top edge 100
/// pixels above `y`, shows it and asks for a raise 50 ms later; afterwards
/// the window is visible, a raise is pending and focus loss does not hide it.
pub proof fn lemma_show_places_window(p: PickerView, x: i32, y: i32)
    requires
        crate::picker::show_position_fits(p.config, x, y),
    ensures
        ({
            let w = p.config.window_width as int;
            let left = if w >= 0 {
                x - w / 2
            } else {
                x + (-w) / 2
            };
            let tail = seq![
                PickerActionView::MoveTo(left as i32, (y - 100) as i32),
                PickerActionView::ShowAll,
                PickerActionView::SchedulePresent(50),
            ];
            &&& p.present_pending ==> show_actions(p, x, y) == seq![
                PickerActionView::CancelPendingPresent,
            ] + tail
            &&& !p.present_pending ==> show_actions(p, x, y) == tail
            &&& after_show(p).visible
            &&& after_show(p).present_pending
            &&& after_show(p).hide_suppressed
            &&& after_show(p).config == p.config
            &&& after_show(p).sections == p.sections
        }),
{
    if !p.present_pending {
        let w = p.config.window_width as int;
        let left = if w >= 0 {
            x - w / 2
        } else {
            x + (-w) / 2
        };
        let tail = seq![
            PickerActionView::MoveTo(left as i32, (y - 100) as i32),
            PickerActionView::ShowAll,
            PickerActionView::SchedulePresent(50),
        ];
        assert(show_actions(p, x, y) =~= tail);
    }
}

/// Hiding the picker always ends with the window hidden, nothing pending
/// and focus loss enabled; a pending raise (and only one) is removed first.
pub proof fn lemma_hide_window_hides(p: PickerView)
    ensures
        p.present_pending ==> hide_actions(p) == seq![
            PickerActionView::CancelPendingPresent,
            PickerActionView::Hide,
        ],
        !p.present_pending ==> hide_actions(p) == seq![PickerActionView::Hide],
        !after_hide(p).visible,
        !after_hide(p).present_pending,
        !after_hide(p).hide_suppressed,
        after_hide(p).config == p.config,
        after_hide(p).sections == p.sections,
{
    if !p.present_pending {
        assert(hide_actions(p) =~= seq![PickerActionView::Hide]);
    }
}

/// A section heading shows the name, unescaped, between the opening tag for
/// large bold text and the closing tag.
pub proof fn lemma_section_markup_wraps_name(name: Seq<char>)
    ensures
        crate::picker::section_markup_view(name) == "<span size='large' weight='bold'>"@ + name
            + "</span>"@,
{
}
} // verus!
