use miro_pdf::common_menu::{items, CommonMenuItem};
use miro_pdf::config::BindableMessage;
use miro_pdf::document::page_progress;
use miro_pdf::hints::generate_key_combinations;
use miro_pdf::links::{categorize_link, is_external_uri, is_page_link, LinkType};
use miro_pdf::menu_bar::{menu_button_label, menu_entries, MenuEntry};
use miro_pdf::menu_command::MenuCommand;
use miro_pdf::numbers::{decimal_chars, is_float_literal_chars, parse_u32};
use miro_pdf::page_layout::PageLayout;
use miro_pdf::search::{chars_in_range, plain_matches, search_byte_ranges, SearchMethod};
use miro_pdf::text::{selection_text, split_chars, split_lines, trim_chars};

fn chars(s: &str) -> Vec<char> {
    s.chars().collect()
}

fn text(c: &[char]) -> String {
    c.iter().collect()
}

#[test]
fn test_link_categorization() {
    assert!(matches!(categorize_link("https://example.com", 0), LinkType::ExternalUrl));
    assert!(matches!(categorize_link("http://example.com", 0), LinkType::ExternalUrl));
    assert!(matches!(categorize_link("mailto:test@example.com", 0), LinkType::Email));
    assert!(matches!(categorize_link("#page=5", 5), LinkType::InternalPage(5)));
    assert!(matches!(categorize_link("42", 42), LinkType::InternalPage(42)));
    assert!(matches!(categorize_link("file://local", 0), LinkType::Other));
}

#[test]
fn link_edge_cases() {
    assert_eq!(categorize_link("#nameddest=intro", 3), LinkType::InternalPage(3));
    assert_eq!(categorize_link("4294967296", 1), LinkType::Other);
    assert_eq!(categorize_link("", 1), LinkType::Other);
    assert_eq!(categorize_link("007", 1), LinkType::InternalPage(7));
    assert!(is_external_uri("mailto:a@b.c"));
    assert!(!is_external_uri("ftp://x"));
    assert!(is_page_link("#page=2"));
    assert!(!is_page_link("#nameddest=x"));
}

#[test]
fn hint_labels() {
    let few = generate_key_combinations(3);
    assert_eq!(few, vec!["a", "b", "c"]);
    let more = generate_key_combinations(25);
    assert_eq!(more.len(), 25);
    assert_eq!(more[22], "z");
    assert_eq!(more[23], "aa");
    assert_eq!(more[24], "ab");
    let all = generate_key_combinations(10_000);
    assert_eq!(all.len(), 23 + 23 * 23);
    assert_eq!(all[all.len() - 1], "zz");
    let mut sorted = all.clone();
    sorted.sort();
    sorted.dedup();
    assert_eq!(sorted.len(), all.len());
    assert!(generate_key_combinations(0).is_empty());
}

#[test]
fn plain_search() {
    assert_eq!(plain_matches("abcabcab", "ab"), vec![(0, 2), (3, 5), (6, 8)]);
    assert_eq!(plain_matches("aaaa", "aa"), vec![(0, 2), (2, 4)]);
    assert_eq!(plain_matches("é café", "é"), vec![(0, 2), (6, 8)]);
    assert!(plain_matches("abc", "").is_empty());
    assert!(plain_matches("ab", "abc").is_empty());
}

#[test]
fn regex_search() {
    assert_eq!(search_byte_ranges("a1b22c333", "[0-9]+", SearchMethod::Regex), vec![(1, 2), (3, 5), (6, 9)]);
    assert!(search_byte_ranges("abc", "(", SearchMethod::Regex).is_empty());
    assert!(search_byte_ranges("abc", "", SearchMethod::Regex).is_empty());
    assert_eq!(search_byte_ranges("x.x", ".", SearchMethod::PlainText), vec![(1, 2)]);
}

#[test]
fn characters_of_a_match() {
    let boxes = [(0usize, 0usize, 'a'), (0, 1, 'b'), (1, 2, 'c'), (1, 5, 'd')];
    assert_eq!(chars_in_range(&boxes, 1, 3), vec![(0, 'b'), (1, 'c')]);
    assert!(chars_in_range(&boxes, 3, 5).is_empty());
}

#[test]
fn numbers() {
    assert_eq!(parse_u32(&chars("4294967295")), Some(u32::MAX));
    assert_eq!(parse_u32(&chars("4294967296")), None);
    assert_eq!(parse_u32(&chars("+12")), Some(12));
    assert_eq!(parse_u32(&chars("-1")), None);
    assert_eq!(parse_u32(&chars("")), None);
    assert_eq!(parse_u32(&chars("1 2")), None);
    assert_eq!(text(&decimal_chars(0)), "0");
    assert_eq!(text(&decimal_chars(90210)), "90210");
    for s in ["0.5", "-1", "+.5", "5.", "1e3", "2.5E-2", "inf", "-Infinity", "NaN"] {
        assert!(is_float_literal_chars(&chars(s)), "{s}");
        assert!(s.parse::<f32>().is_ok());
    }
    for s in ["", ".", "e3", "1e", "abc", "1.2.3", "--1", "in"] {
        assert!(!is_float_literal_chars(&chars(s)), "{s}");
        assert!(s.parse::<f32>().is_err());
    }
}

#[test]
fn text_helpers() {
    assert_eq!(text(&trim_chars(&chars("  a b \t"))), "a b");
    assert_eq!(text(&trim_chars(&chars("   "))), "");
    let ls = split_lines(&chars("a\r\nb\n\nc\n"));
    let ls: Vec<String> = ls.iter().map(|l| text(l)).collect();
    assert_eq!(ls, "a\r\nb\n\nc\n".lines().collect::<Vec<_>>());
    let ps = split_chars(&chars("Ctrl+Shift+Left"), '+');
    let ps: Vec<String> = ps.iter().map(|l| text(l)).collect();
    assert_eq!(ps, vec!["Ctrl", "Shift", "Left"]);
}

#[test]
fn progress_text() {
    assert_eq!(page_progress(0, 12), "(1 / 12)");
    assert_eq!(page_progress(11, 12), "(12 / 12)");
    assert_eq!(page_progress(0, 0), "(1 / 0)");
}

#[test]
fn menus() {
    let menus = items();
    let titles: Vec<&str> = menus.iter().map(|(t, _)| t.as_str()).collect();
    assert_eq!(titles, vec!["File", "View", "Layout"]);
    assert_eq!(menus[0].1.len(), 6);
    assert_eq!(menus[1].1.len(), 12);
    assert_eq!(menus[2].1.len(), 4);
    assert!(matches!(menus[0].1[3], CommonMenuItem::RecentFiles));
    for (_, entries) in &menus {
        for e in entries {
            if let CommonMenuItem::Button(b) = e {
                let c = MenuCommand::from_bindable(*b).unwrap();
                assert_eq!(c.bindable(), *b);
                assert_eq!(MenuCommand::from_menu_id(&c.menu_id()), Some(c));
            }
        }
    }
}

#[test]
fn menu_commands() {
    let c = MenuCommand::SetLayout(PageLayout::DoublePageTitlePage);
    assert_eq!(c.menu_id(), "DoublePageTitlePageLayout");
    assert_eq!(c.default_menu_label(), "Double Page w/ Title");
    assert_eq!(MenuCommand::ZoomHome.default_menu_label(), "Zoom 100%");
    assert_eq!(MenuCommand::from_menu_id("OpenFileFinder"), Some(MenuCommand::OpenNewFileFinder));
    assert_eq!(MenuCommand::from_menu_id("Nope"), None);
    assert_eq!(MenuCommand::from_bindable(BindableMessage::MoveUp), None);
    assert_eq!(MenuCommand::OpenNewFileFinder.bindable(), BindableMessage::OpenFileFinder);
}

#[test]
fn menu_bar_entries() {
    let menus = items();
    let file = &menus[0].1;
    let none = menu_entries(file, &[]);
    assert_eq!(none.len(), 5);
    assert!(matches!(none[0], MenuEntry::Button { action: BindableMessage::OpenFileFinder, last: false }));
    assert!(matches!(none[2], MenuEntry::Separator));
    assert!(matches!(none[3], MenuEntry::Separator));
    assert!(matches!(none[4], MenuEntry::Button { action: BindableMessage::CloseTab, last: true }));
    let recent = vec![String::from("/a.pdf"), String::from("/b.pdf")];
    let with = menu_entries(file, &recent);
    assert_eq!(with.len(), 8);
    assert!(matches!(&with[3], MenuEntry::Label(t) if t == "Recent"));
    assert!(matches!(&with[4], MenuEntry::RecentFile(p) if p == "/a.pdf"));
    assert!(matches!(&with[5], MenuEntry::RecentFile(p) if p == "/b.pdf"));
    let lasts = with.iter().filter(|e| matches!(e, MenuEntry::Button { last: true, .. })).count();
    assert_eq!(lasts, 1);
    assert_eq!(menu_button_label(BindableMessage::ToggleSidebar), "Sidebar");
    assert_eq!(menu_button_label(BindableMessage::MoveUp), "(unnamed)");
    assert!(menu_entries(&[], &recent).is_empty());
}

#[test]
fn selected_text_joins_lines() {
    let lines = vec![chars("  Energy"), chars("harvesting "), chars("")];
    assert_eq!(selection_text(&lines), "Energy\nharvesting");
    assert_eq!(selection_text(&[]), "");
    assert_eq!(selection_text(&[chars(" "), chars("\t")]), "");
}
