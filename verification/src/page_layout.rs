//! How pages are arranged in the view, and the page arithmetic of each arrangement.
use vstd::prelude::*;
use core::ops::RangeInclusive;

verus! {

/// The arrangement of the pages.
#[derive(Debug, Clone, Copy, PartialEq, Eq, Structural)]
pub enum PageLayout {
    /// One page per row, many rows
    SinglePage,
    /// Two pages per row, many rows
    DoublePage,
    /// Two pages per row, many rows, except for the first page which is on its own
    DoublePageTitlePage,
    /// Only one page on the screen at a time
    Presentation,
}

/// The first and last page of the spread (the pages side by side in one row) that holds
/// `page_idx` (clamped to the last page) in a document of `page_count` pages.
pub open spec fn spread(layout: PageLayout, page_idx: nat, page_count: nat) -> (nat, nat) {
    if page_count == 0 {
        (0, 0)
    } else {
        let last = (page_count - 1) as nat;
        let p = if page_idx < last { page_idx } else { last };
        let start: nat = match layout {
            PageLayout::SinglePage | PageLayout::Presentation => p,
            PageLayout::DoublePage => (p - p % 2) as nat,
            PageLayout::DoublePageTitlePage => if p == 0 { 0 } else { (p - (p - 1) % 2) as nat },
        };
        let end: nat = match layout {
            PageLayout::SinglePage | PageLayout::Presentation => start,
            PageLayout::DoublePageTitlePage if p == 0 => 0,
            _ => if start + 1 < last { start + 1 } else { last },
        };
        (start, end)
    }
}

/// The index of the page that "previous page" moves to from `idx`: one row up, staying on
/// the first page.
pub open spec fn page_above(layout: PageLayout, idx: nat, count: nat) -> nat {
    let up: int = match layout {
        PageLayout::SinglePage | PageLayout::Presentation => idx - 1,
        PageLayout::DoublePage | PageLayout::DoublePageTitlePage => idx - 2,
    };
    if up < 0 { 0 } else if up > count - 1 { (count - 1) as nat } else { up as nat }
}

/// The index of the page that "next page" moves to from `idx`: one row down, staying on the
/// last page.
pub open spec fn page_below(layout: PageLayout, idx: nat, count: nat) -> nat {
    let down: nat = match layout {
        PageLayout::SinglePage | PageLayout::Presentation => idx + 1,
        PageLayout::DoublePage => idx + 2,
        PageLayout::DoublePageTitlePage => if idx == 0 { idx + 1 } else { idx + 2 },
    };
    if down > count - 1 { (count - 1) as nat } else { down }
}

impl PageLayout {
    /// Returns the inclusive range of page indices that are laid out side by side in the same
    /// row (a "spread") as `page_idx`. For single-page layouts this is just `page_idx` itself.
    pub fn spread_page_range(&self, page_idx: usize, page_count: usize) -> (r: RangeInclusive<usize>)
        ensures
            r@.start == spread(*self, page_idx as nat, page_count as nat).0,
            r@.end == spread(*self, page_idx as nat, page_count as nat).1,
            !r@.exhausted,
    {
        if page_count == 0 {
            return RangeInclusive::new(0, 0);
        }
        let last = page_count - 1;
        let page_idx = if page_idx < last { page_idx } else { last };
        let start = match self {
            PageLayout::SinglePage | PageLayout::Presentation => page_idx,
            PageLayout::DoublePage => page_idx - (page_idx % 2),
            PageLayout::DoublePageTitlePage => if page_idx == 0 {
                0
            } else {
                page_idx - ((page_idx - 1) % 2)
            },
        };
        let end = match self {
            PageLayout::SinglePage | PageLayout::Presentation => start,
            PageLayout::DoublePageTitlePage if page_idx == 0 => 0,
            _ => if start + 1 < last { start + 1 } else { last },
        };
        RangeInclusive::new(start, end)
    }

    /// The page that "previous page" moves to from page `idx` of `count`.
    pub fn index_of_page_above(&self, idx: usize, count: usize) -> (r: usize)
        requires
            idx < count,
        ensures
            r == page_above(*self, idx as nat, count as nat),
    {
        let up = match self {
            PageLayout::SinglePage | PageLayout::Presentation => if idx >= 1 { idx - 1 } else { 0 },
            PageLayout::DoublePage | PageLayout::DoublePageTitlePage => if idx >= 2 {
                idx - 2
            } else {
                0
            },
        };
        if up > count - 1 { count - 1 } else { up }
    }

    /// The page that "next page" moves to from page `idx` of `count`.
    pub fn index_of_page_below(&self, idx: usize, count: usize) -> (r: usize)
        requires
            idx < count,
        ensures
            r == page_below(*self, idx as nat, count as nat),
    {
        let step: usize = match self {
            PageLayout::SinglePage | PageLayout::Presentation => 1,
            PageLayout::DoublePage => 2,
            PageLayout::DoublePageTitlePage => if idx == 0 { 1 } else { 2 },
        };
        if count - 1 - idx < step { count - 1 } else { idx + step }
    }
}

impl Default for PageLayout {
    fn default() -> (r: Self)
        ensures
            r == PageLayout::SinglePage,
    {
        PageLayout::SinglePage
    }
}

/// The spread of a page holds that page (clamped to the last page), at most two pages, and
/// no page past the last; in the one-page layouts it is the page alone.
pub proof fn lemma_spread_holds_page(layout: PageLayout, page_idx: nat, page_count: nat)
    requires
        page_count > 0,
    ensures
        ({
            let p = if page_idx < page_count - 1 { page_idx } else { (page_count - 1) as nat };
            let (start, end) = spread(layout, page_idx, page_count);
            &&& start <= p <= end
            &&& end < page_count
            &&& end <= start + 1
            &&& (layout == PageLayout::SinglePage || layout == PageLayout::Presentation) ==> start == p
                && end == p
        }),
{
}

/// Every page of a spread has that same spread: the spreads split the pages into rows.
pub proof fn lemma_spread_is_shared(layout: PageLayout, page_idx: nat, other: nat, page_count: nat)
    requires
        page_count > 0,
        spread(layout, page_idx, page_count).0 <= other <= spread(layout, page_idx, page_count).1,
    ensures
        spread(layout, other, page_count) == spread(layout, page_idx, page_count),
{
}

/// "Previous page" never moves down and "next page" never moves up; both stay on a page of
/// the document.
pub proof fn lemma_page_moves_stay_in_document(layout: PageLayout, idx: nat, count: nat)
    requires
        idx < count,
    ensures
        page_above(layout, idx, count) <= idx,
        idx <= page_below(layout, idx, count) < count,
        idx > 0 ==> page_above(layout, idx, count) < idx,
        idx < count - 1 ==> idx < page_below(layout, idx, count),
{
}

/// "Previous page" moves exactly one row up: from a page that is not in the first row it
/// goes to the row just above, whose spread ends right before the page's own spread
/// begins, keeping the page's place in its row when the row above is a full one; from the
/// first row it goes to the first page. "Next page" moves exactly one row down: from a page
/// that is not in the last row it goes to the row just below, whose spread begins right
/// after the page's own spread ends; from the last row it goes to the last page.
pub proof fn lemma_page_moves_change_row(layout: PageLayout, idx: nat, count: nat)
    requires
        idx < count,
    ensures
        spread(layout, idx, count).0 > 0 ==> spread(layout, page_above(layout, idx, count), count).1 + 1
            == spread(layout, idx, count).0,
        spread(layout, idx, count).1 + 1 < count ==> spread(layout, page_below(layout, idx, count), count).0
            == spread(layout, idx, count).1 + 1,
        spread(layout, idx, count).0 == 0 ==> page_above(layout, idx, count) == 0,
        spread(layout, idx, count).1 + 1 >= count ==> page_below(layout, idx, count) == count - 1,
        spread(layout, idx, count).0 > 1 ==> page_above(layout, idx, count) - spread(
            layout,
            page_above(layout, idx, count),
            count,
        ).0 == idx - spread(layout, idx, count).0,
{
}

} // verus!
