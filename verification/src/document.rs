//! What the interface shows of a document and of its own state.
use vstd::prelude::*;
use crate::numbers::{decimal, decimal_chars};
use crate::text::{from_chars, push_all, push_str};

verus! {

/// What is known of a loaded document.
#[derive(Debug, Clone, Copy)]
pub struct DocumentInfo {
    pub page_count: i32,
}

/// An entry of a document's outline (table of contents) and the entries below it.
#[derive(Debug)]
pub struct OutlineItem {
    pub title: String,
    pub page: Option<u32>,
    pub level: u32,
    pub children: Vec<OutlineItem>,
}

/// What a press of a mouse button is doing in the document view.
#[derive(Debug, Clone, Copy, PartialEq, Eq, Structural)]
pub enum MouseInteraction {
    /// No button is held.
    Idle,
    Panning,
    Selecting,
}

/// The tab shown in the sidebar.
#[derive(Debug, Clone, Copy, PartialEq, Eq, Structural)]
pub enum SidebarTab {
    Outline,
    Bookmark,
}

impl Default for SidebarTab {
    fn default() -> (r: Self)
        ensures
            r == SidebarTab::Outline,
    {
        SidebarTab::Outline
    }
}

/// The look of an icon button.
#[derive(Debug, Clone, Copy, PartialEq, Eq, Structural)]
pub enum ButtonVariant {
    Primary,
    Danger,
    Subtle,
}

/// Requests to the file watcher, about the file at a path.
#[derive(Debug, Clone)]
pub enum WatchMessage {
    StartWatch(String),
    StopWatch(String),
}

/// `(<current + 1> / <total>)`: the page shown (counted from 1) out of the page count.
pub open spec fn progress_text(current: nat, total: nat) -> Seq<char> {
    "("@ + decimal(current + 1) + " / "@ + decimal(total) + ")"@
}

/// The progress through the document: the current page (counted from 0) and the page count.
pub fn page_progress(current: usize, total: usize) -> (r: String)
    requires
        current < usize::MAX,
    ensures
        r@ == progress_text(current as nat, total as nat),
{
    let mut out: Vec<char> = Vec::new();
    push_str(&mut out, "(");
    let c = decimal_chars(current + 1);
    push_all(&mut out, c.as_slice());
    push_str(&mut out, " / ");
    let t = decimal_chars(total);
    push_all(&mut out, t.as_slice());
    push_str(&mut out, ")");
    from_chars(out.as_slice())
}

/// An entry of a document's outline as the document gives it: its title, its destination
/// page if it has one, and the entries below it.
#[derive(Debug)]
pub struct OutlineNode {
    pub title: String,
    pub page: Option<u32>,
    pub down: Vec<OutlineNode>,
}

/// The levels of `n` and of the entries below it, counted from `level`, fit in a `u32`.
pub open spec fn levels_fit(n: OutlineNode, level: u32) -> bool
    decreases n,
{
    &&& n.down@.len() > 0 ==> level < u32::MAX
    &&& all_levels_fit(n.down@, (level + 1) as u32)
}

/// The levels of the entries `s`, all at `level`, and of the entries below them fit in a
/// `u32`.
pub open spec fn all_levels_fit(s: Seq<OutlineNode>, level: u32) -> bool
    decreases s,
{
    if s.len() == 0 {
        true
    } else {
        all_levels_fit(s.drop_last(), level) && levels_fit(s.last(), level)
    }
}

/// `item` is the entry `n` at `level`: same title and page, and below it the entries below
/// `n`, one level deeper, in order.
pub open spec fn outline_of(n: OutlineNode, level: u32, item: OutlineItem) -> bool
    decreases n,
{
    &&& item.title == n.title
    &&& item.page == n.page
    &&& item.level == level
    &&& all_outline_of(n.down@, (level + 1) as u32, item.children@)
}

/// `items` are the entries `s` at `level`, one for one and in order.
pub open spec fn all_outline_of(s: Seq<OutlineNode>, level: u32, items: Seq<OutlineItem>) -> bool
    decreases s,
{
    &&& s.len() == items.len()
    &&& s.len() > 0 ==> all_outline_of(s.drop_last(), level, items.drop_last()) && outline_of(
        s.last(),
        level,
        items.last(),
    )
}

/// Each of the entries `s` fits when all of them do.
proof fn lemma_all_levels_fit(s: Seq<OutlineNode>, level: u32, i: int)
    requires
        all_levels_fit(s, level),
        0 <= i < s.len(),
    ensures
        levels_fit(s[i], level),
    decreases s.len(),
{
    if i < s.len() - 1 {
        lemma_all_levels_fit(s.drop_last(), level, i);
    }
}

/// The outline entry of `node` at `level`, with the entries below it one level deeper.
pub fn convert_outline(node: &OutlineNode, level: u32) -> (r: OutlineItem)
    requires
        levels_fit(*node, level),
    ensures
        outline_of(*node, level, r),
    decreases node,
{
    let mut children: Vec<OutlineItem> = Vec::new();
    let mut i: usize = 0;
    while i < node.down.len()
        invariant
            levels_fit(*node, level),
            i <= node.down@.len(),
            all_outline_of(node.down@.take(i as int), (level + 1) as u32, children@),
        decreases node.down@.len() - i,
    {
        proof {
            lemma_all_levels_fit(node.down@, (level + 1) as u32, i as int);
        }
        let child = convert_outline(&node.down[i], level + 1);
        let ghost before = children@;
        children.push(child);
        assert(node.down@.take(i + 1).drop_last() =~= node.down@.take(i as int));
        assert(children@.drop_last() =~= before);
        i = i + 1;
    }
    assert(node.down@.take(node.down@.len() as int) =~= node.down@);
    OutlineItem { title: node.title.clone(), page: node.page, level, children }
}

/// The outline of a document: its top entries at level 0, with the entries below them.
pub fn extract_outline(outlines: &[OutlineNode]) -> (r: Vec<OutlineItem>)
    requires
        all_levels_fit(outlines@, 0),
    ensures
        all_outline_of(outlines@, 0, r@),
{
    let mut items: Vec<OutlineItem> = Vec::new();
    let mut i: usize = 0;
    while i < outlines.len()
        invariant
            i <= outlines@.len(),
            all_levels_fit(outlines@, 0),
            all_outline_of(outlines@.take(i as int), 0, items@),
        decreases outlines@.len() - i,
    {
        proof {
            lemma_all_levels_fit(outlines@, 0, i as int);
        }
        let item = convert_outline(&outlines[i], 0);
        let ghost before = items@;
        items.push(item);
        assert(outlines@.take(i + 1).drop_last() =~= outlines@.take(i as int));
        assert(items@.drop_last() =~= before);
        i = i + 1;
    }
    assert(outlines@.take(outlines@.len() as int) =~= outlines@);
    items
}

} // verus!
