use miro_pdf::document::{extract_outline, OutlineNode};
use miro_pdf::links::{link_activation, LinkTarget};
use miro_pdf::search::search_data;
use miro_pdf::numbers::parse_usize;
use miro_pdf::shader::cpu_pdf_dark_mode_shader;
use miro_pdf::worker::{signed_decimal_chars, tile_bounds, WorkerRequest, WorkerState, WorkerStep};

fn text(c: &[char]) -> String {
    c.iter().collect()
}

#[test]
fn following_links() {
    assert_eq!(link_activation("https://example.com", Some(3), 10), LinkTarget::External);
    assert_eq!(link_activation("mailto:x@y.z", None, 10), LinkTarget::External);
    assert_eq!(link_activation("#nameddest=a", Some(3), 10), LinkTarget::Page(3));
    assert_eq!(link_activation("#nameddest=a", Some(10), 10), LinkTarget::Nowhere);
    assert_eq!(link_activation("#page=4", None, 10), LinkTarget::Page(3));
    assert_eq!(link_activation("#page=0", None, 10), LinkTarget::Nowhere);
    assert_eq!(link_activation("#page=x", None, 10), LinkTarget::Nowhere);
    assert_eq!(link_activation("12", None, 10), LinkTarget::Page(11));
    assert_eq!(link_activation("0", None, 10), LinkTarget::Nowhere);
    assert_eq!(link_activation("", None, 10), LinkTarget::Nowhere);
    assert_eq!(link_activation("file:///tmp/a", None, 10), LinkTarget::Nowhere);
}

#[test]
fn usize_parsing() {
    let c = |s: &str| s.chars().collect::<Vec<_>>();
    assert_eq!(parse_usize(&c("18446744073709551615")), "18446744073709551615".parse::<usize>().ok());
    assert_eq!(parse_usize(&c("18446744073709551616")), None);
    assert_eq!(parse_usize(&c("+7")), Some(7));
    assert_eq!(parse_usize(&c("+")), None);
    assert_eq!(parse_usize(&c("7a")), None);
}

#[test]
fn dark_mode_shader() {
    let mut gradient = [[0u8; 4]; 256];
    for (i, g) in gradient.iter_mut().enumerate() {
        *g = [i as u8, 255 - i as u8, 7, 255];
    }
    let mut samples = vec![30, 60, 90, 255, 255, 255, 255, 255, 1, 2];
    cpu_pdf_dark_mode_shader(&mut samples, &gradient);
    assert_eq!(samples, vec![60, 195, 7, 255, 255, 0, 7, 255, 1, 2]);
    let mut short = vec![9, 9, 9];
    cpu_pdf_dark_mode_shader(&mut short, &gradient);
    assert_eq!(short, vec![9, 9, 9]);
}

#[test]
fn worker_decisions() {
    let mut w = WorkerState::new();
    assert!(matches!(
        w.decide(WorkerRequest::RenderTile { page_number: 0, generation: 0 }),
        WorkerStep::Fail(m) if m == "No page set"
    ));
    assert!(matches!(w.decide(WorkerRequest::SetPage(2)), WorkerStep::Fail(m) if m == "No document loaded"));
    assert!(matches!(w.decide(WorkerRequest::RefreshFile), WorkerStep::Fail(m) if m == "No document set"));
    assert!(matches!(w.decide(WorkerRequest::LoadDocument), WorkerStep::Load));
    w.document_loaded();
    assert!(matches!(w.decide(WorkerRequest::SetPage(2)), WorkerStep::LoadPage(2)));
    w.page_loaded(2);
    assert!(matches!(
        w.decide(WorkerRequest::RenderTile { page_number: 2, generation: 5 }),
        WorkerStep::Render
    ));
    assert_eq!(w.current_generation, 5);
    assert!(matches!(
        w.decide(WorkerRequest::RenderTile { page_number: 2, generation: 4 }),
        WorkerStep::Skip
    ));
    assert!(matches!(
        w.decide(WorkerRequest::RenderTile { page_number: -3, generation: 5 }),
        WorkerStep::Fail(m) if m == "Page mismatch: worker has page 2, request -3"
    ));
    assert!(matches!(w.decide(WorkerRequest::ExtractText), WorkerStep::ExtractText));
    assert!(matches!(w.decide(WorkerRequest::ExtractOutline), WorkerStep::ExtractOutline));
    assert!(matches!(w.decide(WorkerRequest::Shutdown), WorkerStep::Stop));
    let fresh = &mut WorkerState::new();
    assert!(matches!(
        fresh.decide(WorkerRequest::ExtractLinks),
        WorkerStep::Fail(m) if m == "Link extraction failed: No page set"
    ));
}

#[test]
fn tiles_and_signed_numbers() {
    assert_eq!(tile_bounds(256, 128, 2, -1), (512, -128, 768, 0));
    assert_eq!(text(&signed_decimal_chars(i32::MIN)), "-2147483648");
    assert_eq!(text(&signed_decimal_chars(0)), "0");
    assert_eq!(text(&signed_decimal_chars(407)), "407");
}

#[test]
fn search_text_and_offsets() {
    let chars = [('a', 10u8), ('é', 11), ('€', 12), ('😀', 13), ('b', 14)];
    let (text, boxes) = search_data(&chars);
    assert_eq!(text, "aé€😀b");
    assert_eq!(boxes, vec![(0, 10), (2, 11), (5, 12), (9, 13), (10, 14)]);
    let (empty, none) = search_data::<u8>(&[]);
    assert!(empty.is_empty() && none.is_empty());
}

#[test]
fn outlines_get_their_levels() {
    let leaf = |t: &str, p: Option<u32>| OutlineNode { title: String::from(t), page: p, down: vec![] };
    let tree = vec![
        OutlineNode {
            title: String::from("Intro"),
            page: Some(0),
            down: vec![leaf("Motivation", Some(1)), OutlineNode {
                title: String::from("Scope"),
                page: None,
                down: vec![leaf("Limits", Some(3))],
            }],
        },
        leaf("Appendix", Some(9)),
    ];
    let items = extract_outline(&tree);
    assert_eq!(items.len(), 2);
    assert_eq!((items[0].title.as_str(), items[0].page, items[0].level), ("Intro", Some(0), 0));
    assert_eq!(items[0].children.len(), 2);
    assert_eq!(items[0].children[1].title, "Scope");
    assert_eq!(items[0].children[1].level, 1);
    assert_eq!(items[0].children[1].children[0].level, 2);
    assert_eq!(items[0].children[1].children[0].page, Some(3));
    assert_eq!((items[1].title.as_str(), items[1].level), ("Appendix", 0));
    assert!(items[1].children.is_empty());
}

#[test]
fn worker_request_stream() {
    let mut w = WorkerState::new();
    w.document_loaded();
    w.page_loaded(0);
    let stream = [
        WorkerRequest::RenderTile { page_number: 0, generation: 1 },
        WorkerRequest::RenderTile { page_number: 0, generation: 3 },
        WorkerRequest::RenderTile { page_number: 0, generation: 2 },
        WorkerRequest::ExtractLinks,
        WorkerRequest::RenderTile { page_number: 0, generation: 3 },
        WorkerRequest::Shutdown,
        WorkerRequest::RenderTile { page_number: 0, generation: 9 },
    ];
    let mut handled = Vec::new();
    for r in stream {
        let step = w.decide(r);
        let stop = matches!(step, WorkerStep::Stop);
        handled.push(step);
        if stop {
            break;
        }
    }
    assert_eq!(handled.len(), 6);
    assert!(matches!(handled[0], WorkerStep::Render));
    assert!(matches!(handled[1], WorkerStep::Render));
    assert!(matches!(handled[2], WorkerStep::Skip));
    assert!(matches!(handled[3], WorkerStep::ExtractLinks));
    assert!(matches!(handled[4], WorkerStep::Render));
    assert!(matches!(handled[5], WorkerStep::Stop));
    assert_eq!(w.current_generation, 3);
}
