use miro_pdf::geometry::{Rect, Vector};

#[test]
fn test_screen_to_document_coordinate_simulation() {
    println!("=== COORDINATE CONVERSION SIMULATION ===");

    let screen_positions = vec![(400, 300), (200, 200), (600, 400)];

    let viewport_bounds = Rect::from_pos_size(Vector::new(0, 0), Vector::new(800, 600));

    let page_size = Vector::new(595, 842);

    let translation = Vector::new(0, 0);
    let scale = 1;

    println!("Viewport bounds: {viewport_bounds:?}");
    println!("Page size: {page_size:?}");
    println!("Translation: {translation:?}");
    println!("Scale: {scale}");

    let pdf_offset = Vector::new(
        -(viewport_bounds.width() - page_size.x * scale) / 2,
        -(viewport_bounds.height() - page_size.y * scale) / 2,
    );

    println!("PDF offset: {pdf_offset:?}");

    for (screen_x, screen_y) in screen_positions {
        let screen_pos = Vector::new(screen_x, screen_y);

        let viewport_relative = screen_pos - viewport_bounds.x0;
        let pdf_relative = viewport_relative - pdf_offset;
        let doc_pos = pdf_relative.scaled(1 / scale) + translation;

        println!(
            "Screen ({}, {}) -> Viewport rel ({}, {}) -> PDF rel ({}, {}) -> Doc ({}, {})",
            screen_x,
            screen_y,
            viewport_relative.x,
            viewport_relative.y,
            pdf_relative.x,
            pdf_relative.y,
            doc_pos.x,
            doc_pos.y
        );
    }

    println!("\n=== INTERSECTION TESTS ===");
    println!("Known text positions from coordinate debugging:");
    println!("- 'Energy harvesting': (200-394, 299-327)");
    println!("- 'Vincent Udén': (262-333, 362-376)");
}

#[test]
fn coordinate_conversion_values() {
    let viewport = Rect::from_pos_size(Vector::new(0, 0), Vector::new(800, 600));
    let page = Vector::new(595, 842);
    let offset = Vector::new(-(viewport.width() - page.x) / 2, -(viewport.height() - page.y) / 2);
    assert_eq!((offset.x, offset.y), (-102, 121));
    let doc = (Vector::new(400, 300) - viewport.x0) - offset;
    assert_eq!((doc.x, doc.y), (502, 179));
}

#[test]
fn vector_arithmetic() {
    let a = Vector::new(3, -4);
    let b = Vector::new(10, 20);
    let s = a + b;
    assert_eq!((s.x, s.y), (13, 16));
    let back = s - b;
    assert_eq!((back.x, back.y), (3, -4));
    let n = -a;
    assert_eq!((n.x, n.y), (-3, 4));
    let sc = a.scaled(3);
    assert_eq!((sc.x, sc.y), (9, -12));
    let nu = a.non_uniform_scaled(Vector::new(2, -1));
    assert_eq!((nu.x, nu.y), (6, 4));
    let mut m = a;
    m.scale(-2);
    assert_eq!((m.x, m.y), (-6, 8));
    let mut m2 = a;
    m2.non_uniform_scale(Vector::new(0, 5));
    assert_eq!((m2.x, m2.y), (0, -20));
    let z = Vector::zero();
    assert_eq!((z.x, z.y), (0, 0));
    let mut acc = Vector::new(1, 1);
    acc.add_assign(Vector::new(2, 3));
    acc.sub_assign(Vector::new(1, 1));
    assert_eq!((acc.x, acc.y), (2, 3));
}

#[test]
fn integer_reciprocals() {
    let v = Vector::new(1, 4).div_inverted();
    assert_eq!((v.x, v.y), (1, 0));
    let w = Vector::new(-1, 2).div_inverted();
    assert_eq!((w.x, w.y), (-1, 0));
}

#[test]
fn rectangles() {
    let r = Rect::from_points(Vector::new(10, 20), Vector::new(110, 70));
    assert_eq!(r.width(), 100);
    assert_eq!(r.height(), 50);
    let size = r.size();
    assert_eq!((size.x, size.y), (100, 50));
    assert!(r.contains(Vector::new(50, 50)));
    assert!(!r.contains(Vector::new(10, 50)));
    assert!(!r.contains(Vector::new(200, 50)));
    let mut t = r;
    t.translate(Vector::new(-10, 5));
    assert_eq!((t.x0.x, t.x0.y, t.x1.x, t.x1.y), (0, 25, 100, 75));
    let p = Rect::from_pos_size(Vector::new(5, 5), Vector::new(10, 10));
    assert_eq!((p.x1.x, p.x1.y), (15, 15));
    let c = r.center();
    assert_eq!((c.x, c.y), (60, 45));
    let s = r.scaled(2);
    assert_eq!((s.x0.x, s.x0.y, s.x1.x, s.x1.y), (-40, -5, 160, 95));
    let same = Rect::from_points(Vector::new(0, 0), Vector::new(4, 2)).scaled(1);
    assert_eq!((same.x0.x, same.x0.y, same.x1.x, same.x1.y), (0, 0, 4, 2));
    let mut odd = Rect::from_points(Vector::new(-3, 0), Vector::new(0, 1));
    odd.scale(0);
    assert_eq!((odd.x0.x, odd.x0.y, odd.x1.x, odd.x1.y), (-1, 0, -1, 0));
    let neg = Rect::from_points(Vector::new(-5, -5), Vector::new(0, 0)).center();
    assert_eq!((neg.x, neg.y), (-2, -2));
}
