use miro_pdf::jumplist::{Jumplist, JUMPLIST_CAPACITY};
use miro_pdf::page_layout::PageLayout;
use miro_pdf::recent_files::{RecentFiles, MAX_RECENT_FILES};
use miro_pdf::tabs::{next_tab_index, previous_tab_index, tab_index_after_close};

#[test]
fn jumplist_back_and_forward() {
    let mut j: Jumplist<u32> = Jumplist::new();
    assert!(j.is_empty());
    assert_eq!(j.current(), None);
    assert_eq!(j.jump_back(), None);
    j.push(1, false);
    j.push(2, false);
    j.push(3, false);
    assert_eq!(j.len(), 3);
    assert_eq!(j.current(), Some(&3));
    assert_eq!(j.jump_forward(), None);
    assert_eq!(j.jump_back(), Some(&2));
    assert_eq!(j.jump_back(), Some(&1));
    assert_eq!(j.jump_back(), None);
    assert_eq!(j.jump_forward(), Some(&2));
    assert_eq!(j.current(), Some(&2));
}

#[test]
fn jumplist_push_drops_forward_history() {
    let mut j: Jumplist<u32> = Jumplist::new();
    j.push(1, false);
    j.push(2, false);
    j.push(3, false);
    j.jump_back();
    j.jump_back();
    j.push(9, false);
    assert_eq!(j.entries.iter().copied().collect::<Vec<_>>(), vec![1, 9]);
    assert_eq!(j.current_index, 1);
    assert_eq!(j.jump_forward(), None);
}

#[test]
fn jumplist_skips_duplicate_of_current() {
    let mut j: Jumplist<u32> = Jumplist::new();
    j.push(1, true);
    assert_eq!(j.len(), 1);
    j.push(2, true);
    assert_eq!(j.len(), 1);
    assert_eq!(j.current(), Some(&1));
}

#[test]
fn jumplist_is_bounded() {
    let mut j: Jumplist<usize> = Jumplist::new();
    for i in 0..(JUMPLIST_CAPACITY + 5) {
        j.push(i, false);
    }
    assert_eq!(j.len(), JUMPLIST_CAPACITY);
    assert_eq!(j.entries[0], 5);
    assert_eq!(j.current(), Some(&(JUMPLIST_CAPACITY + 4)));
}

#[test]
fn recent_files_most_recent_first() {
    let mut r = RecentFiles::new();
    assert!(r.get_recent().is_empty());
    for p in ["a.pdf", "b.pdf", "c.pdf"] {
        r.add_recent(String::from(p));
    }
    assert_eq!(r.get_recent(), &["c.pdf", "b.pdf", "a.pdf"]);
    r.add_recent(String::from("a.pdf"));
    assert_eq!(r.get_recent(), &["a.pdf", "c.pdf", "b.pdf"]);
    r.add_recent(String::from("a.pdf"));
    assert_eq!(r.get_recent(), &["a.pdf", "c.pdf", "b.pdf"]);
}

#[test]
fn recent_files_keeps_five() {
    let mut r = RecentFiles::default();
    for i in 0..8 {
        r.add_recent(format!("{i}.pdf"));
    }
    assert_eq!(r.get_recent().len(), MAX_RECENT_FILES);
    assert_eq!(r.get_recent(), &["7.pdf", "6.pdf", "5.pdf", "4.pdf", "3.pdf"]);
    let restored = RecentFiles::from_files(vec![String::from("x.pdf"), String::from("x.pdf")]);
    assert_eq!(restored.get_recent(), &["x.pdf", "x.pdf"]);
}

#[test]
fn tab_indices() {
    assert_eq!(tab_index_after_close(2, 2), 1);
    assert_eq!(tab_index_after_close(1, 2), 1);
    assert_eq!(tab_index_after_close(0, 0), 0);
    assert_eq!(previous_tab_index(0), 0);
    assert_eq!(previous_tab_index(3), 2);
    assert_eq!(next_tab_index(3, 4), 3);
    assert_eq!(next_tab_index(1, 4), 2);
    assert_eq!(next_tab_index(7, 0), 7);
}

#[test]
fn spreads() {
    let single = PageLayout::SinglePage.spread_page_range(3, 10);
    assert_eq!((*single.start(), *single.end()), (3, 3));
    let double = PageLayout::DoublePage.spread_page_range(3, 10);
    assert_eq!((*double.start(), *double.end()), (2, 3));
    let title0 = PageLayout::DoublePageTitlePage.spread_page_range(0, 10);
    assert_eq!((*title0.start(), *title0.end()), (0, 0));
    let title = PageLayout::DoublePageTitlePage.spread_page_range(3, 10);
    assert_eq!((*title.start(), *title.end()), (3, 4));
    let title2 = PageLayout::DoublePageTitlePage.spread_page_range(2, 10);
    assert_eq!((*title2.start(), *title2.end()), (1, 2));
    let clamped = PageLayout::DoublePage.spread_page_range(40, 9);
    assert_eq!((*clamped.start(), *clamped.end()), (8, 8));
    let empty = PageLayout::Presentation.spread_page_range(4, 0);
    assert_eq!((*empty.start(), *empty.end()), (0, 0));
    assert_eq!(PageLayout::default(), PageLayout::SinglePage);
}

#[test]
fn page_moves() {
    assert_eq!(PageLayout::SinglePage.index_of_page_above(0, 5), 0);
    assert_eq!(PageLayout::SinglePage.index_of_page_above(3, 5), 2);
    assert_eq!(PageLayout::DoublePage.index_of_page_above(3, 5), 1);
    assert_eq!(PageLayout::DoublePageTitlePage.index_of_page_above(1, 5), 0);
    assert_eq!(PageLayout::SinglePage.index_of_page_below(4, 5), 4);
    assert_eq!(PageLayout::DoublePage.index_of_page_below(2, 5), 4);
    assert_eq!(PageLayout::DoublePage.index_of_page_below(3, 5), 4);
    assert_eq!(PageLayout::DoublePageTitlePage.index_of_page_below(0, 5), 1);
    assert_eq!(PageLayout::DoublePageTitlePage.index_of_page_below(1, 5), 3);
    assert_eq!(PageLayout::Presentation.index_of_page_below(1, 5), 2);
}

#[test]
fn recent_files_compare_paths_not_text() {
    let mut r = RecentFiles::new();
    r.add_recent(String::from("/docs/a.pdf"));
    r.add_recent(String::from("/docs//b.pdf"));
    r.add_recent(String::from("/docs/b.pdf"));
    assert_eq!(r.get_recent(), &["/docs/b.pdf", "/docs/a.pdf"]);
    r.add_recent(String::from("/docs/a.pdf/"));
    assert_eq!(r.get_recent(), &["/docs/a.pdf/", "/docs/b.pdf"]);
}
