use svg_drawing::dom::{Document, DomError, Element};
use svg_drawing::drawer::{DrawError, Drawable, ShapeDrawer, SVG_NAMESPACE};
use svg_drawing::picture::{figure, run, GREETING};
use svg_drawing::shape::{Circle, Shape};

fn attrs(e: &Element) -> Vec<(String, String)> {
    e.attributes.iter().map(|a| (a.name.clone(), a.value.clone())).collect()
}

fn pairs(list: &[(&str, &str)]) -> Vec<(String, String)> {
    list.iter().map(|(n, v)| (n.to_string(), v.to_string())).collect()
}

fn circle_attrs(cx: &str, cy: &str, r: &str) -> Vec<(String, String)> {
    pairs(&[
        ("cx", cx),
        ("cy", cy),
        ("r", r),
        ("stroke", "#fff"),
        ("stroke-width", "10"),
        ("fill", "hotpink"),
    ])
}

fn check_paragraph(d: &Document, id: usize, body: usize) {
    let p = d.element(id);
    assert_eq!(p.tag, "p");
    assert_eq!(p.namespace, None);
    assert_eq!(p.inner_html, "Hello from Rust, WebAssembly, and Parcel!");
    assert_eq!(p.parent, Some(body));
    assert!(p.children.is_empty());
}

fn check_canvas(d: &Document, id: usize, body: usize) {
    let svg = d.element(id);
    assert_eq!(svg.tag, "svg");
    assert_eq!(svg.namespace.as_deref(), Some("http://www.w3.org/2000/svg"));
    assert_eq!(attrs(svg), pairs(&[("width", "500"), ("hight", "500")]));
    assert_eq!(svg.parent, Some(body));
    assert_eq!(svg.children.len(), 3);
    let expected = [("80", "80", "60"), ("55", "80", "60"), ("80", "80", "20")];
    for (k, &c) in svg.children.iter().enumerate() {
        let e = d.element(c);
        assert_eq!(e.tag, "circle");
        assert_eq!(e.namespace.as_deref(), Some(SVG_NAMESPACE));
        let (cx, cy, r) = expected[k];
        assert_eq!(attrs(e), circle_attrs(cx, cy, r));
        assert_eq!(e.parent, Some(id));
        assert!(e.children.is_empty());
    }
}

#[test]
fn run_adds_paragraph_and_canvas() {
    let mut d = Document::new();
    assert_eq!(run(&mut d), Ok(()));
    assert_eq!(d.len(), 6);
    let body = d.body().unwrap();
    assert_eq!(d.element(body).children, vec![1, 2]);
    check_paragraph(&d, 1, body);
    check_canvas(&d, 2, body);
}

#[test]
fn run_circles_have_fixed_presentation() {
    let mut d = Document::new();
    run(&mut d).unwrap();
    for &c in &d.element(2).children {
        let a = attrs(d.element(c));
        assert_eq!(a[3], ("stroke".to_string(), "#fff".to_string()));
        assert_eq!(a[4], ("stroke-width".to_string(), "10".to_string()));
        assert_eq!(a[5], ("fill".to_string(), "hotpink".to_string()));
    }
}

#[test]
fn run_without_body_fails_before_drawing() {
    let mut d = Document::without_body();
    assert_eq!(run(&mut d), Err(DrawError::MissingBody));
    assert_eq!(d.body(), None);
    assert_eq!(d.len(), 1);
    let p = d.element(0);
    assert_eq!(p.tag, "p");
    assert_eq!(p.inner_html, GREETING);
    assert_eq!(p.parent, None);
}

#[test]
fn run_twice_draws_twice() {
    let mut d = Document::new();
    run(&mut d).unwrap();
    run(&mut d).unwrap();
    assert_eq!(d.len(), 11);
    let body = d.body().unwrap();
    assert_eq!(d.element(body).children, vec![1, 2, 6, 7]);
    check_paragraph(&d, 1, body);
    check_canvas(&d, 2, body);
    check_paragraph(&d, 6, body);
    check_canvas(&d, 7, body);
    assert_eq!(d.element(7).children, vec![8, 9, 10]);
}

#[test]
fn run_keeps_existing_body_children() {
    let mut d = Document::new();
    let h = d.create_element("h1");
    d.append_child(0, h).unwrap();
    run(&mut d).unwrap();
    assert_eq!(d.element(0).children, vec![1, 2, 3]);
    assert_eq!(d.element(h).tag, "h1");
    check_canvas(&d, 3, 0);
}

#[test]
fn figure_lists_three_circles_in_order() {
    let f = figure();
    let got: Vec<(&str, &str, &str)> = f.iter().map(|c| (c.cx(), c.cy(), c.r())).collect();
    assert_eq!(got, vec![("80", "80", "60"), ("55", "80", "60"), ("80", "80", "20")]);
}

#[test]
fn circle_keeps_fields_verbatim() {
    let c = Circle::new("1.5", "abc", "");
    assert_eq!(c.cx(), "1.5");
    assert_eq!(c.cy(), "abc");
    assert_eq!(c.r(), "");
}

#[test]
fn draw_attaches_container_once() {
    let mut d = Document::new();
    let svg = d.create_element_ns(Some(SVG_NAMESPACE), "svg");
    let drawer = ShapeDrawer::new(svg);
    assert_eq!(drawer.container(), svg);
    assert_eq!(drawer.draw(&mut d, Shape::Circle(Circle::new("1", "2", "3"))), Ok(()));
    assert_eq!(drawer.draw(&mut d, Shape::Circle(Circle::new("4", "5", "6"))), Ok(()));
    assert_eq!(d.element(0).children, vec![svg]);
    assert_eq!(d.element(svg).children, vec![2, 3]);
    assert_eq!(attrs(d.element(2)), circle_attrs("1", "2", "3"));
    assert_eq!(attrs(d.element(3)), circle_attrs("4", "5", "6"));
}

#[test]
fn draw_without_body_leaves_circle_detached() {
    let mut d = Document::without_body();
    let svg = d.create_element_ns(Some(SVG_NAMESPACE), "svg");
    let drawer = ShapeDrawer::new(svg);
    assert_eq!(drawer.draw(&mut d, Shape::Circle(Circle::new("1", "2", "3"))), Err(DrawError::MissingBody));
    assert_eq!(d.len(), 2);
    assert_eq!(d.element(1).parent, None);
    assert!(d.element(svg).children.is_empty());
}

#[test]
fn draw_into_container_held_elsewhere_is_refused() {
    let mut d = Document::new();
    let div = d.create_element("div");
    let svg = d.create_element_ns(Some(SVG_NAMESPACE), "svg");
    d.append_child(div, svg).unwrap();
    let drawer = ShapeDrawer::new(svg);
    assert_eq!(
        drawer.draw(&mut d, Shape::Circle(Circle::new("1", "2", "3"))),
        Err(DrawError::Dom(DomError::HierarchyRequest))
    );
    assert_eq!(d.len(), 4);
    assert_eq!(d.element(3).parent, None);
    assert!(d.element(svg).children.is_empty());
}

#[test]
fn set_attribute_replaces_in_place() {
    let mut d = Document::new();
    let e = d.create_element("rect");
    d.set_attribute(e, "a", "1");
    d.set_attribute(e, "b", "2");
    d.set_attribute(e, "a", "3");
    assert_eq!(attrs(d.element(e)), pairs(&[("a", "3"), ("b", "2")]));
}

#[test]
fn append_child_refusals() {
    let mut d = Document::new();
    let a = d.create_element("div");
    let b = d.create_element("span");
    assert_eq!(d.append_child(a, a), Err(DomError::HierarchyRequest));
    d.append_child(a, b).unwrap();
    assert_eq!(d.append_child(0, b), Err(DomError::HierarchyRequest));
    assert_eq!(d.append_child(0, a), Err(DomError::HierarchyRequest));
    assert_eq!(d.element(a).children, vec![b]);
    assert_eq!(d.element(0).children, Vec::<usize>::new());
}

#[test]
fn new_document_has_empty_body() {
    let d = Document::new();
    assert_eq!(d.len(), 1);
    assert_eq!(d.body(), Some(0));
    let b = d.element(0);
    assert_eq!(b.tag, "body");
    assert_eq!(b.namespace, None);
    assert!(b.children.is_empty() && b.attributes.is_empty());
}

#[test]
fn set_inner_html_replaces_markup() {
    let mut d = Document::new();
    let p = d.create_element("p");
    d.set_inner_html(p, "one");
    d.set_inner_html(p, "two");
    assert_eq!(d.element(p).inner_html, "two");
}
