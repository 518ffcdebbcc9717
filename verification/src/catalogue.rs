use vstd::prelude::*;

verus! {

/// An emoji of the catalogue and the name of its group (`"Flags"`,
/// `"SmileysAndEmotion"`, ...).
#[derive(Clone, Debug, PartialEq, Eq)]
pub struct EmojiEntry {
    pub text: String,
    pub group: String,
}

/// An entry as plain values: `(emoji, group name)`.
pub type EntryView = (Seq<char>, Seq<char>);

impl View for EmojiEntry {
    type V = EntryView;

    open spec fn view(&self) -> EntryView {
        (self.text@, self.group@)
    }
}

/// Entries as plain values.
pub open spec fn entries_view(entries: Seq<EmojiEntry>) -> Seq<EntryView> {
    entries.map_values(|e: EmojiEntry| e@)
}

/// Strings as plain values.
pub open spec fn strings_view(strings: Seq<String>) -> Seq<Seq<char>> {
    strings.map_values(|s: String| s@)
}

/// The `index`-th emoji of the `emojis` crate's catalogue (in the crate's
/// iteration order, default skin tones only) with the `Debug` name of its
/// group, or `None` past the end of the catalogue.
pub uninterp spec fn catalogue_entry_at(index: int) -> Option<EntryView>;

/// An optional entry as plain values.
pub open spec fn entry_option_view(entry: Option<EmojiEntry>) -> Option<EntryView> {
    match entry {
        Some(e) => Some(e@),
        None => None,
    }
}

/// Calls `emojis::iter().nth(index)` and returns the emoji's text
/// (`Emoji::as_str`) with its group formatted by `Debug`
/// (`format!("{:?}", Emoji::group())`). The catalogue is a static table
/// compiled into the `emojis` crate, so the result depends on `index` alone;
/// the contract names it and says nothing of its contents.
#[verifier::external_body]
fn catalogue_entry(index: usize) -> (entry: Option<EmojiEntry>)
    ensures
        entry_option_view(entry) == catalogue_entry_at(index as int),
{
    match emojis::iter().nth(index) {
        Some(e) => Some(EmojiEntry { text: e.as_str().to_string(), group: format!("{:?}", e.group()) }),
        None => None,
    }
}

/// The first `n` entries of the catalogue.
pub open spec fn catalogue_prefix(n: nat) -> Seq<EntryView> {
    Seq::new(n, |i: int| catalogue_entry_at(i).unwrap())
}

/// The catalogue has entries at every index below `n`, and `n` is its end
/// (or the largest length a vector can have).
pub open spec fn catalogue_ends_at(n: nat) -> bool {
    &&& n <= usize::MAX
    &&& forall|i: int| 0 <= i < n ==> (#[trigger] catalogue_entry_at(i)) is Some
    &&& (catalogue_entry_at(n as int) is None || n == usize::MAX)
}

/// The catalogue has one end: two lengths at which it ends are the same.
pub proof fn lemma_catalogue_end_is_unique(n: nat, m: nat)
    requires
        catalogue_ends_at(n),
        catalogue_ends_at(m),
    ensures
        n == m,
{
    if n < m {
        assert(catalogue_entry_at(n as int) is Some);
    } else if m < n {
        assert(catalogue_entry_at(m as int) is Some);
    }
}

/// Reading the catalogue by group always gives the same groups, each with
/// the same emojis in the same order: every result that `grouped_emojis`
/// may return is the same map.
pub proof fn lemma_grouped_emojis_deterministic(
    first: Map<Seq<char>, Seq<Seq<char>>>,
    second: Map<Seq<char>, Seq<Seq<char>>>,
)
    requires
        exists|n: nat| catalogue_ends_at(n) && first == grouping_view(catalogue_prefix(n)),
        exists|n: nat| catalogue_ends_at(n) && second == grouping_view(catalogue_prefix(n)),
    ensures
        first == second,
{
    let n = choose|n: nat| catalogue_ends_at(n) && first == grouping_view(catalogue_prefix(n));
    let m = choose|m: nat| catalogue_ends_at(m) && second == grouping_view(catalogue_prefix(m));
    lemma_catalogue_end_is_unique(n, m);
}

/// Reads the whole emoji catalogue, in order.
pub fn emoji_catalogue() -> (entries: Vec<EmojiEntry>)
    ensures
        catalogue_ends_at(entries.len() as nat),
        entries_view(entries@) == catalogue_prefix(entries.len() as nat),
{
    let mut entries: Vec<EmojiEntry> = Vec::new();
    let mut i: usize = 0;
    loop
        invariant
            i == entries.len(),
            forall|j: int| 0 <= j < i ==> (#[trigger] catalogue_entry_at(j)) is Some,
            entries_view(entries@) == catalogue_prefix(i as nat),
        ensures
            catalogue_ends_at(i as nat),
            i == entries.len(),
            entries_view(entries@) == catalogue_prefix(i as nat),
        decreases usize::MAX - i,
    {
        if i == usize::MAX {
            break;
        }
        let entry = catalogue_entry(i);
        let ghost found = entry_option_view(entry);
        match entry {
            Some(e) => {
                assert(found == Some(e@));
                let ghost old_entries = entries@;
                entries.push(e);
                assert forall|k: int| 0 <= k < i + 1 implies entries_view(entries@)[k]
                    == catalogue_prefix((i + 1) as nat)[k] by {
                    if k < i {
                        assert(entries@[k] == old_entries[k]);
                        assert(entries_view(old_entries)[k] == catalogue_prefix(i as nat)[k]);
                    }
                }
                assert(entries_view(entries@) =~= catalogue_prefix((i + 1) as nat));
                i = i + 1;
            },
            None => {
                break;
            },
        }
    }
    entries
}

/// The emojis of `entries` that belong to `group`, in catalogue order.
pub open spec fn group_members(entries: Seq<EntryView>, group: Seq<char>) -> Seq<Seq<char>>
    decreases entries.len(),
{
    if entries.len() == 0 {
        Seq::empty()
    } else {
        let rest = group_members(entries.drop_last(), group);
        if entries.last().1 == group {
            rest.push(entries.last().0)
        } else {
            rest
        }
    }
}

/// The catalogue split by group: each group that has an emoji maps to its
/// emojis in catalogue order.
pub open spec fn grouping_view(entries: Seq<EntryView>) -> Map<Seq<char>, Seq<Seq<char>>> {
    Map::new(
        |g: Seq<char>| group_members(entries, g).len() > 0,
        |g: Seq<char>| group_members(entries, g),
    )
}

/// Emojis by group name. Each group name occurs once.
#[derive(Debug)]
pub struct GroupedEmojis {
    names: Vec<String>,
    members: Vec<Vec<String>>,
}

impl GroupedEmojis {
    /// Name of the `j`-th group slot.
    pub closed spec fn slot_name(self, j: int) -> Seq<char> {
        self.names@[j]@
    }

    /// Emojis of the `j`-th group slot.
    pub closed spec fn slot_members(self, j: int) -> Seq<Seq<char>> {
        strings_view(self.members@[j]@)
    }

    /// Number of group slots.
    pub closed spec fn slot_count(self) -> nat {
        self.names@.len()
    }

    /// Whether some slot holds `group`.
    pub closed spec fn has_slot(self, group: Seq<char>) -> bool {
        exists|j: int| 0 <= j < self.slot_count() && #[trigger] self.slot_name(j) == group
    }

    /// The slots line up and no group name occurs twice.
    #[verifier::type_invariant]
    closed spec fn well_formed(self) -> bool {
        &&& self.names@.len() == self.members@.len()
        &&& forall|i: int, j: int|
            0 <= i < j < self.slot_count() ==> #[trigger] self.slot_name(i) != #[trigger] self.slot_name(j)
    }
}

impl View for GroupedEmojis {
    type V = Map<Seq<char>, Seq<Seq<char>>>;

    closed spec fn view(&self) -> Map<Seq<char>, Seq<Seq<char>>> {
        Map::new(
            |g: Seq<char>| self.has_slot(g),
            |g: Seq<char>|
                self.slot_members(
                    choose|j: int| 0 <= j < self.slot_count() && #[trigger] self.slot_name(j) == g,
                ),
        )
    }
}

impl GroupedEmojis {
    /// Finds the slot of `group`, if there is one.
    fn find_slot(&self, group: &String) -> (slot: Option<usize>)
        ensures
            match slot {
                Some(j) => j < self.slot_count() && self.slot_name(j as int) == group@,
                None => !self.has_slot(group@),
            },
    {
        let mut j: usize = 0;
        while j < self.names.len()
            invariant
                j <= self.names@.len(),
                forall|k: int| 0 <= k < j ==> #[trigger] self.slot_name(k) != group@,
            decreases self.names@.len() - j,
        {
            if self.names[j] == *group {
                return Some(j);
            }
            j = j + 1;
        }
        None
    }

    /// The emojis of `group`, or `None` where the catalogue has none.
    pub fn get(&self, group: &String) -> (found: Option<&Vec<String>>)
        ensures
            match found {
                Some(v) => self@.contains_key(group@) && strings_view(v@) == self@[group@],
                None => !self@.contains_key(group@),
            },
    {
        proof {
            use_type_invariant(self);
        }
        match self.find_slot(group) {
            Some(j) => {
                proof {
                    let c = choose|k: int| 0 <= k < self.slot_count() && #[trigger] self.slot_name(k) == group@;
                    assert(self.slot_name(j as int) == group@);
                    assert(c == j) by {
                        if c != j {
                            if c < j {
                                assert(self.slot_name(c) != self.slot_name(j as int));
                            } else {
                                assert(self.slot_name(j as int) != self.slot_name(c));
                            }
                        }
                    }
                }
                Some(&self.members[j])
            },
            None => None,
        }
    }
}


/// Adding one entry at the end adds its emoji to its own group only.
proof fn lemma_members_after_push(entries: Seq<EntryView>, entry: EntryView, group: Seq<char>)
    ensures
        group_members(entries.push(entry), group) == if entry.1 == group {
            group_members(entries, group).push(entry.0)
        } else {
            group_members(entries, group)
        },
{
    assert(entries.push(entry).drop_last() =~= entries);
}

/// Group slots, given as plain values, that describe how `entries` split by
/// group: names are distinct, each slot holds the (non-empty) emojis of its
/// group, and every group with an emoji has a slot.
spec fn slots_describe(
    names: Seq<Seq<char>>,
    members: Seq<Seq<Seq<char>>>,
    entries: Seq<EntryView>,
) -> bool {
    &&& names.len() == members.len()
    &&& forall|i: int, j: int| 0 <= i < j < names.len() ==> #[trigger] names[i] != #[trigger] names[j]
    &&& forall|j: int|
        0 <= j < names.len() ==> #[trigger] members[j] == group_members(entries, names[j])
            && members[j].len() > 0
    &&& forall|g: Seq<char>| #[trigger] group_members(entries, g).len() > 0 ==> names.contains(g)
}

/// Member lists as plain values.
spec fn member_lists_view(members: Seq<Vec<String>>) -> Seq<Seq<Seq<char>>> {
    members.map_values(|v: Vec<String>| strings_view(v@))
}

/// Splits catalogue entries by group, keeping catalogue order within each
/// group.
pub fn group_emojis(entries: &Vec<EmojiEntry>) -> (grouped: GroupedEmojis)
    ensures
        grouped@ == grouping_view(entries_view(entries@)),
{
    let ghost all = entries_view(entries@);
    let mut names: Vec<String> = Vec::new();
    let mut members: Vec<Vec<String>> = Vec::new();
    proof {
        assert forall|g: Seq<char>| #[trigger] group_members(all.take(0), g).len() == 0 by {}
        assert(slots_describe(strings_view(names@), member_lists_view(members@), all.take(0)));
    }
    let n = entries.len();
    let mut i: usize = 0;
    while i < n
        invariant
            n == entries@.len(),
            i <= n,
            all == entries_view(entries@),
            slots_describe(strings_view(names@), member_lists_view(members@), all.take(i as int)),
        decreases n - i,
    {
        let ghost before = all.take(i as int);
        let ghost entry = all[i as int];
        let ghost old_names = strings_view(names@);
        let ghost old_members = member_lists_view(members@);
        assert(all.take(i + 1) =~= before.push(entry));
        assert(entry == entries@[i as int]@);
        let text = entries[i].text.clone();
        let group = &entries[i].group;
        let mut found: Option<usize> = None;
        let mut j: usize = 0;
        while j < names.len()
            invariant_except_break
                found is None,
                forall|k: int| 0 <= k < j ==> old_names[k] != group@,
            invariant
                j <= names@.len(),
                strings_view(names@) == old_names,
            ensures
                match found {
                    Some(k) => k < old_names.len() && old_names[k as int] == group@,
                    None => forall|k: int| 0 <= k < old_names.len() ==> old_names[k] != group@,
                },
            decreases names@.len() - j,
        {
            if names[j] == *group {
                found = Some(j);
                break;
            }
            j = j + 1;
        }
        let ghost after = before.push(entry);
        match found {
            Some(k) => {
                assert(old_names[k as int] == entry.1);
                let ghost old_vecs = members@;
                assert(text@ == entry.0);
                let mut slot = members.remove(k);
                slot.push(text);
                assert(strings_view(slot@) =~= strings_view(old_vecs[k as int]@).push(entry.0));
                let ghost new_slot = slot;
                members.insert(k, slot);
                assert(members@ =~= old_vecs.update(k as int, new_slot));
                proof {
                    let new_members = member_lists_view(members@);
                    assert(new_members =~= old_members.update(
                        k as int,
                        old_members[k as int].push(entry.0),
                    ));
                    assert forall|jj: int| 0 <= jj < old_names.len() implies #[trigger] new_members[jj]
                        == group_members(after, old_names[jj]) && new_members[jj].len() > 0 by {
                        lemma_members_after_push(before, entry, old_names[jj]);
                        if jj != k {
                            assert(old_names[jj] != old_names[k as int]);
                        }
                    }
                    assert forall|g: Seq<char>| #[trigger] group_members(after, g).len() > 0 implies old_names.contains(g) by {
                        lemma_members_after_push(before, entry, g);
                        if g == entry.1 {
                            assert(old_names[k as int] == g);
                        }
                    }
                }
            },
            None => {
                assert(!old_names.contains(entry.1));
                let mut slot: Vec<String> = Vec::new();
                slot.push(text);
                assert(strings_view(slot@) =~= seq![entry.0]);
                names.push(group.clone());
                members.push(slot);
                proof {
                    let new_names = strings_view(names@);
                    let new_members = member_lists_view(members@);
                    assert(new_names =~= old_names.push(entry.1));
                    assert(new_members =~= old_members.push(seq![entry.0]));
                    lemma_members_after_push(before, entry, entry.1);
                    assert(group_members(before, entry.1).len() == 0);
                    assert(group_members(before, entry.1) =~= Seq::empty());
                    assert forall|jj: int| 0 <= jj < new_names.len() implies #[trigger] new_members[jj]
                        == group_members(after, new_names[jj]) && new_members[jj].len() > 0 by {
                        if jj < old_names.len() {
                            lemma_members_after_push(before, entry, old_names[jj]);
                            assert(old_names.contains(old_names[jj]));
                        }
                    }
                    assert forall|a: int, b: int| 0 <= a < b < new_names.len() implies #[trigger] new_names[a]
                        != #[trigger] new_names[b] by {
                        if b == old_names.len() {
                            assert(old_names.contains(old_names[a]));
                        }
                    }
                    assert forall|g: Seq<char>| #[trigger] group_members(after, g).len() > 0 implies new_names.contains(g) by {
                        lemma_members_after_push(before, entry, g);
                        if g == entry.1 {
                            assert(new_names[old_names.len() as int] == g);
                        } else {
                            assert(old_names.contains(g));
                            let w = choose|w: int| 0 <= w < old_names.len() && old_names[w] == g;
                            assert(new_names[w] == g);
                        }
                    }
                }
            },
        }
        i = i + 1;
    }
    assert(all.take(n as int) =~= all);
    proof {
        let nv = strings_view(names@);
        assert forall|a: int, b: int| 0 <= a < b < names@.len() implies names@[a]@ != names@[b]@ by {
            assert(nv[a] != nv[b]);
        }
    }
    let grouped = GroupedEmojis { names, members };
    proof {
        let nv = strings_view(grouped.names@);
        let mv = member_lists_view(grouped.members@);
        assert forall|j: int| 0 <= j < grouped.slot_count() implies #[trigger] grouped.slot_name(j) == nv[j]
            && grouped.slot_members(j) == mv[j] by {}
        assert forall|g: Seq<char>| grouped.has_slot(g) <==> #[trigger] group_members(all, g).len() > 0 by {
            if group_members(all, g).len() > 0 {
                let w = choose|w: int| 0 <= w < nv.len() && nv[w] == g;
                assert(grouped.slot_name(w) == g);
            }
            if grouped.has_slot(g) {
                let w = choose|w: int| 0 <= w < grouped.slot_count() && #[trigger] grouped.slot_name(w) == g;
                assert(nv[w] == g);
            }
        }
        assert forall|g: Seq<char>| grouped.has_slot(g) implies grouped@[g] == group_members(all, g) by {
            let w = choose|w: int| 0 <= w < grouped.slot_count() && #[trigger] grouped.slot_name(w) == g;
            assert(nv[w] == g);
            assert(mv[w] == group_members(all, nv[w]));
        }
        assert(grouped@ =~= grouping_view(all));
    }
    grouped
}

/// The emoji catalogue split by group.
pub fn grouped_emojis() -> (grouped: GroupedEmojis)
    ensures
        exists|n: nat| catalogue_ends_at(n) && grouped@ == grouping_view(catalogue_prefix(n)),
{
    let entries = emoji_catalogue();
    let grouped = group_emojis(&entries);
    assert(catalogue_ends_at(entries.len() as nat));
    grouped
}

} // verus!
