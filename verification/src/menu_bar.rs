//! The entries of one menu of the menu bar: its buttons (each with its label, the last one
//! drawn apart), the list of recent files, and separators.
use vstd::prelude::*;
use crate::common_menu::CommonMenuItem;
use crate::config::BindableMessage;
use crate::menu_command::{command_of_bindable, label_of, MenuCommand};

verus! {

/// An entry of a menu as it is drawn.
#[derive(Debug, Clone)]
pub enum MenuEntry {
    /// A button that triggers `action`; `last` marks the last button of the menu.
    Button { action: BindableMessage, last: bool },
    /// A heading.
    Label(String),
    /// A recently opened file (its path).
    RecentFile(String),
    Separator,
}

/// An entry as values.
pub enum EntryKind {
    Button(BindableMessage),
    Label(Seq<char>),
    RecentFile(Seq<char>),
    Separator,
}

/// The entries one menu item stands for: a button, a separator, or (when any file was opened
/// recently) the heading `Recent` and one entry per recent file.
pub open spec fn item_entries(item: CommonMenuItem, recent: Seq<Seq<char>>) -> Seq<EntryKind> {
    match item {
        CommonMenuItem::Button(b) => seq![EntryKind::Button(b)],
        CommonMenuItem::Separator => seq![EntryKind::Separator],
        CommonMenuItem::RecentFiles => if recent.len() == 0 {
            Seq::empty()
        } else {
            seq![EntryKind::Label("Recent"@)] + recent.map_values(|p: Seq<char>| EntryKind::RecentFile(p))
        },
    }
}

/// The entries of the menu items `items`, in order.
pub open spec fn menu_entry_kinds(items: Seq<CommonMenuItem>, recent: Seq<Seq<char>>) -> Seq<EntryKind>
    decreases items.len(),
{
    if items.len() == 0 {
        Seq::empty()
    } else {
        menu_entry_kinds(items.drop_last(), recent) + item_entries(items.last(), recent)
    }
}

/// Entry `i` of `entries` is a button and no button comes after it.
pub open spec fn is_last_button(entries: Seq<EntryKind>, i: int) -> bool {
    &&& entries[i] is Button
    &&& forall|j: int| i < j < entries.len() ==> !(#[trigger] entries[j] is Button)
}

/// `e` is the drawn form of entry `i` of `kinds`.
pub open spec fn drawn_as(e: MenuEntry, kinds: Seq<EntryKind>, i: int) -> bool {
    match kinds[i] {
        EntryKind::Button(b) => e == MenuEntry::Button { action: b, last: is_last_button(kinds, i) },
        EntryKind::Label(t) => e matches MenuEntry::Label(s) && s@ == t,
        EntryKind::RecentFile(p) => e matches MenuEntry::RecentFile(s) && s@ == p,
        EntryKind::Separator => e is Separator,
    }
}

/// The label of the button for `action`: the default label of its menu command, or
/// `(unnamed)` when it stands for none.
pub open spec fn button_label(action: BindableMessage) -> Seq<char> {
    match command_of_bindable(action) {
        Some(c) => label_of(c),
        None => "(unnamed)"@,
    }
}

/// The label of the button for `action` (`button_label`).
pub fn menu_button_label(action: BindableMessage) -> (r: &'static str)
    ensures
        r@ == button_label(action),
{
    match MenuCommand::from_bindable(action) {
        Some(c) => c.default_menu_label(),
        None => "(unnamed)",
    }
}

/// The entries of one item, appended to `out`.
fn push_item_entries(out: &mut Vec<MenuEntry>, item: CommonMenuItem, recent_files: &[String])
    ensures
        final(out)@.len() == old(out)@.len() + item_entries(item, recent_files@.map_values(|p: String| p@)).len(),
        forall|k: int| 0 <= k < old(out)@.len() ==> #[trigger] final(out)@[k] == old(out)@[k],
        forall|k: int| 0 <= k < item_entries(item, recent_files@.map_values(|p: String| p@)).len() ==>
            entry_is(
                #[trigger] final(out)@[old(out)@.len() + k],
                item_entries(item, recent_files@.map_values(|p: String| p@))[k],
            ),
{
    let ghost recent = recent_files@.map_values(|p: String| p@);
    match item {
        CommonMenuItem::Button(b) => {
            out.push(MenuEntry::Button { action: b, last: false });
        },
        CommonMenuItem::Separator => {
            out.push(MenuEntry::Separator);
        },
        CommonMenuItem::RecentFiles => {
            if recent_files.len() > 0 {
                let ghost start = out@.len();
                out.push(MenuEntry::Label(String::from_str("Recent")));
                let mut i: usize = 0;
                while i < recent_files.len()
                    invariant
                        i <= recent_files@.len(),
                        recent_files@.len() > 0,
                        recent == recent_files@.map_values(|p: String| p@),
                        out@.len() == start + 1 + i,
                        forall|k: int| 0 <= k < start ==> #[trigger] out@[k] == old(out)@[k],
                        start == old(out)@.len(),
                        entry_is(out@[start as int], EntryKind::Label("Recent"@)),
                        forall|k: int| 0 <= k < i ==> entry_is(
                            #[trigger] out@[start + 1 + k],
                            EntryKind::RecentFile(recent[k]),
                        ),
                    decreases recent_files@.len() - i,
                {
                    out.push(MenuEntry::RecentFile(recent_files[i].clone()));
                    i = i + 1;
                }
                assert forall|k: int| 0 <= k < item_entries(item, recent).len() implies entry_is(
                    #[trigger] out@[old(out)@.len() + k],
                    item_entries(item, recent)[k],
                ) by {
                    if k > 0 {
                        assert(item_entries(item, recent)[k] == EntryKind::RecentFile(recent[k - 1]));
                        assert(entry_is(out@[start + 1 + (k - 1)], EntryKind::RecentFile(recent[k - 1])));
                        assert(start + 1 + (k - 1) == old(out)@.len() + k);
                    } else {
                        assert(item_entries(item, recent)[0] == EntryKind::Label("Recent"@));
                    }
                }
            }
        },
    }
}

/// `e` is the entry `kind`, with no button marked last yet.
pub open spec fn entry_is(e: MenuEntry, kind: EntryKind) -> bool {
    match kind {
        EntryKind::Button(b) => e == MenuEntry::Button { action: b, last: false },
        EntryKind::Label(t) => e matches MenuEntry::Label(s) && s@ == t,
        EntryKind::RecentFile(p) => e matches MenuEntry::RecentFile(s) && s@ == p,
        EntryKind::Separator => e is Separator,
    }
}

/// The drawn entries of a menu with the items `items`, when `recent_files` were opened
/// recently: each item's entries in order, the last button marked.
pub fn menu_entries(items: &[CommonMenuItem], recent_files: &[String]) -> (r: Vec<MenuEntry>)
    ensures
        r@.len() == menu_entry_kinds(items@, recent_files@.map_values(|p: String| p@)).len(),
        forall|i: int| 0 <= i < r@.len() ==> drawn_as(
            #[trigger] r@[i],
            menu_entry_kinds(items@, recent_files@.map_values(|p: String| p@)),
            i,
        ),
{
    let ghost recent = recent_files@.map_values(|p: String| p@);
    let mut out: Vec<MenuEntry> = Vec::new();
    let mut i: usize = 0;
    while i < items.len()
        invariant
            i <= items@.len(),
            recent == recent_files@.map_values(|p: String| p@),
            out@.len() == menu_entry_kinds(items@.take(i as int), recent).len(),
            forall|k: int| 0 <= k < out@.len() ==> entry_is(
                #[trigger] out@[k],
                menu_entry_kinds(items@.take(i as int), recent)[k],
            ),
        decreases items@.len() - i,
    {
        let ghost before = out@;
        let ghost kinds = menu_entry_kinds(items@.take(i as int), recent);
        push_item_entries(&mut out, items[i], recent_files);
        proof {
            assert(items@.take(i + 1).drop_last() =~= items@.take(i as int));
            let next = menu_entry_kinds(items@.take(i + 1), recent);
            assert(next == kinds + item_entries(items@[i as int], recent));
            assert forall|k: int| 0 <= k < out@.len() implies entry_is(#[trigger] out@[k], next[k]) by {
                if k < before.len() {
                    assert(out@[k] == before[k]);
                } else {
                    assert(out@[before.len() + (k - before.len())] == out@[k]);
                }
            }
        }
        i = i + 1;
    }
    assert(items@.take(items@.len() as int) =~= items@);
    let ghost kinds = menu_entry_kinds(items@, recent);
    let n = out.len();
    let mut j: usize = n;
    let mut seen_button = false;
    while j > 0
        invariant
            j <= n,
            n == out@.len(),
            n == kinds.len(),
            seen_button <==> exists|m: int| j <= m < n && #[trigger] kinds[m] is Button,
            forall|k: int| 0 <= k < j ==> entry_is(#[trigger] out@[k], kinds[k]),
            forall|k: int| j <= k < n ==> drawn_as(#[trigger] out@[k], kinds, k),
        decreases j,
    {
        j = j - 1;
        let is_button = match &out[j] {
            MenuEntry::Button { .. } => true,
            _ => false,
        };
        if is_button && !seen_button {
            let action = match &out[j] {
                MenuEntry::Button { action, .. } => *action,
                _ => BindableMessage::Exit,
            };
            out.set(j, MenuEntry::Button { action, last: true });
            seen_button = true;
        }
        proof {
            assert(drawn_as(out@[j as int], kinds, j as int));
        }
    }
    out
}

/// At most one entry of a menu is marked as its last button, and when the menu has a button,
/// one is.
pub proof fn lemma_one_last_button(entries: Seq<EntryKind>)
    ensures
        forall|i: int, j: int|
            0 <= i < entries.len() && 0 <= j < entries.len() && is_last_button(entries, i)
                && is_last_button(entries, j) ==> i == j,
        (exists|i: int| 0 <= i < entries.len() && #[trigger] entries[i] is Button) ==> exists|i: int|
            0 <= i < entries.len() && is_last_button(entries, i),
    decreases entries.len(),
{
    assert forall|i: int, j: int|
        0 <= i < entries.len() && 0 <= j < entries.len() && is_last_button(entries, i)
            && is_last_button(entries, j) implies i == j by {
        if i < j {
            assert(entries[j] is Button);
        } else if j < i {
            assert(entries[i] is Button);
        }
    }
    if exists|i: int| 0 <= i < entries.len() && #[trigger] entries[i] is Button {
        let n = entries.len() as int;
        if entries[n - 1] is Button {
            assert(is_last_button(entries, n - 1));
        } else {
            let w = choose|i: int| 0 <= i < entries.len() && #[trigger] entries[i] is Button;
            let p = entries.drop_last();
            assert(p[w] is Button);
            lemma_one_last_button(p);
            let k = choose|k: int| 0 <= k < p.len() && is_last_button(p, k);
            assert forall|m: int| k < m < entries.len() implies !(#[trigger] entries[m] is Button) by {
                if m < n - 1 {
                    assert(p[m] == entries[m]);
                }
            }
            assert(is_last_button(entries, k));
        }
    }
}

} // verus!
