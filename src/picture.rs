//! The one drawing pass: a greeting paragraph and an SVG canvas holding a
//! fixed figure of three circles.
use vstd::prelude::*;

use crate::dom::{fresh_element, set_attr, Document, DocumentView, ElementView, NodeId};
use crate::drawer::{circle_element, DrawError, Drawable, ShapeDrawer, SVG_NAMESPACE};
use crate::shape::{Circle, Shape};

verus! {

/// Text of the paragraph written before the drawing.
pub const GREETING: &'static str = "Hello from Rust, WebAssembly, and Parcel!";

/// Line logged by the host before drawing.
pub const LOG_MESSAGE: &'static str = "Lets play with SVG";

/// Width of the canvas, and value of its `hight` attribute.
pub const CANVAS_SIZE: &'static str = "500";

/// The figure: centre x, centre y and radius of each circle, in drawing order.
pub open spec fn figure_spec() -> Seq<(Seq<char>, Seq<char>, Seq<char>)> {
    seq![("80"@, "80"@, "60"@), ("55"@, "80"@, "60"@), ("80"@, "80"@, "20"@)]
}

/// The circles of the figure, in drawing order.
pub fn figure() -> (v: Vec<Circle>)
    ensures
        v@.len() == figure_spec().len(),
        forall|k: int| 0 <= k < v@.len() ==> (#[trigger] v@[k])@ == figure_spec()[k],
{
    let v = vec![Circle::new("80", "80", "60"), Circle::new("55", "80", "60"), Circle::new("80", "80", "20")];
    assert(v@.len() == 3);
    v
}

/// The greeting paragraph, before it is attached.
pub open spec fn greeting_detached() -> ElementView {
    ElementView { inner_html: GREETING@, ..fresh_element(None, "p"@) }
}

/// The greeting paragraph as a child of `body`.
pub open spec fn greeting_element(body: NodeId) -> ElementView {
    ElementView { parent: Some(body), ..greeting_detached() }
}

/// Attributes of the canvas. The height is written under the name `hight`.
pub open spec fn canvas_attributes() -> Seq<(Seq<char>, Seq<char>)> {
    seq![("width"@, CANVAS_SIZE@), ("hight"@, CANVAS_SIZE@)]
}

/// The canvas with `count` circles, the first of them at handle `first` and
/// the others right after it, and with parent `parent`.
pub open spec fn canvas_element(parent: Option<NodeId>, first: NodeId, count: nat) -> ElementView {
    ElementView {
        attributes: canvas_attributes(),
        children: Seq::new(count, |k: int| (first + k) as NodeId),
        parent,
        ..fresh_element(Some(SVG_NAMESPACE@), "svg"@)
    }
}

/// Circle `c` as a child of `svg`.
pub open spec fn placed_circle(c: (Seq<char>, Seq<char>, Seq<char>), svg: NodeId) -> ElementView {
    ElementView { parent: Some(svg), ..circle_element(c) }
}

/// Element `e` with `added` appended to its children.
pub open spec fn with_children(e: ElementView, added: Seq<NodeId>) -> ElementView {
    ElementView { children: e.children + added, ..e }
}

/// `after` is `before` with one drawing pass added: five new nodes; the
/// paragraph and the canvas, in that order, as the last children of the body;
/// the figure's circles, in order, as the canvas's children; every other node
/// as it was.
pub open spec fn picture_added(before: DocumentView, after: DocumentView) -> bool {
    let n = before.nodes.len() as int;
    let b = before.body.unwrap();
    &&& before.body is Some
    &&& after.body == before.body
    &&& after.nodes.len() == n + 5
    &&& forall|i: int| 0 <= i < n && i != b ==> #[trigger] after.nodes[i] == before.nodes[i]
    &&& after.nodes[b as int] == with_children(
        before.nodes[b as int],
        seq![n as NodeId, (n + 1) as NodeId],
    )
    &&& after.nodes[n as int] == greeting_element(b)
    &&& after.nodes[n + 1] == canvas_element(Some(b), (n + 2) as NodeId, 3)
    &&& forall|k: int|
        0 <= k < 3 ==> #[trigger] after.nodes[n + 2 + k] == placed_circle(
            figure_spec()[k],
            (n + 1) as NodeId,
        )
}

/// Outcome of a drawing pass on `before`: with a body it succeeds and adds
/// the picture; without one it fails with `MissingBody`, having only created
/// the detached paragraph, and draws no circle.
pub open spec fn pass_done(before: DocumentView, r: Result<(), DrawError>, after: DocumentView) -> bool {
    &&& after.wf()
    &&& (r is Ok <==> before.body is Some)
    &&& r is Ok ==> picture_added(before, after)
    &&& r is Err ==> {
        &&& r == Err::<(), DrawError>(DrawError::MissingBody)
        &&& after.body is None
        &&& after.nodes == before.nodes.push(greeting_detached())
    }
}

/// Writes the greeting into the body, then a 500 by 500 SVG canvas with the
/// figure's circles. A circle that cannot be drawn is skipped and the rest
/// are still drawn; with a body present none is refused.
pub fn awesome_wasm_drawing(document: &mut Document) -> (r: Result<(), DrawError>)
    requires
        old(document)@.wf(),
        old(document)@.nodes.len() + 5 <= usize::MAX,
    ensures
        pass_done(old(document)@, r, final(document)@),
{
    let ghost before = document@;
    let ghost n: int = before.nodes.len() as int;
    let p = document.create_element("p");
    document.set_inner_html(p, GREETING);
    assert(document@.nodes =~= before.nodes.push(greeting_detached()));
    let body = match document.body() {
        Some(b) => b,
        None => {
            return Err(DrawError::MissingBody);
        },
    };
    match document.append_child(body, p) {
        Ok(()) => {},
        Err(e) => {
            return Err(DrawError::Dom(e));
        },
    }
    let svg = document.create_element_ns(Some(SVG_NAMESPACE), "svg");
    document.set_attribute(svg, "width", CANVAS_SIZE);
    document.set_attribute(svg, "hight", CANVAS_SIZE);
    proof {
        reveal_strlit("width");
        reveal_strlit("hight");
        assert("width"@[0] != "hight"@[0]);
        let a1 = set_attr(Seq::empty(), "width"@, CANVAS_SIZE@);
        assert(a1 =~= seq![("width"@, CANVAS_SIZE@)]);
        assert(set_attr(a1, "hight"@, CANVAS_SIZE@) =~= canvas_attributes()) by {
            assert(a1[0].0 != "hight"@);
        }
        assert(document@.nodes[n + 1].attributes =~= canvas_attributes());
        assert(canvas_element(None, (n + 2) as NodeId, 0).children =~= Seq::<NodeId>::empty());
        assert(document@.nodes[n + 1] == canvas_element(None, (n + 2) as NodeId, 0));
        assert(document@.nodes[body as int].children =~= before.nodes[body as int].children + seq![
            n as NodeId,
        ]);
    }
    let drawer = ShapeDrawer::new(svg);
    let circles = figure();
    let mut i: usize = 0;
    while i < circles.len()
        invariant
            document@.wf(),
            document@.body == before.body,
            before.body == Some(body),
            body < n,
            n == before.nodes.len(),
            n + 5 <= usize::MAX,
            svg == n + 1,
            drawer.svg() == svg,
            circles@.len() == 3,
            forall|k: int| 0 <= k < circles@.len() ==> (#[trigger] circles@[k])@ == figure_spec()[k],
            0 <= i <= 3,
            document@.nodes.len() == n + 2 + i,
            forall|j: int| 0 <= j < n && j != body ==> #[trigger] document@.nodes[j] == before.nodes[j],
            document@.nodes[body as int] == with_children(
                before.nodes[body as int],
                if i == 0 {
                    seq![n as NodeId]
                } else {
                    seq![n as NodeId, (n + 1) as NodeId]
                },
            ),
            document@.nodes[n as int] == greeting_element(body),
            document@.nodes[n + 1] == canvas_element(
                if i == 0 {
                    None
                } else {
                    Some(body)
                },
                (n + 2) as NodeId,
                i as nat,
            ),
            forall|k: int|
                0 <= k < i ==> #[trigger] document@.nodes[n + 2 + k] == placed_circle(
                    figure_spec()[k],
                    svg,
                ),
        decreases 3 - i,
    {
        let ghost prev = document@;
        // The outcome of each circle is deliberately not passed on: a circle
        // that fails leaves the others to be drawn.
        match drawer.draw(document, Shape::Circle(circles[i])) {
            Ok(()) => {},
            Err(_) => {},
        }
        proof {
            let created = prev.nodes.push(circle_element(figure_spec()[i as int]));
            assert(created[n + 1] == prev.nodes[n + 1]);
            if i == 0 {
                assert(prev.nodes[n + 1].children.len() == 0);
                assert(!crate::dom::append_refused(created, body, svg));
            }
            assert(document@.nodes[n + 1].children =~= Seq::new(
                (i + 1) as nat,
                |k: int| (n + 2 + k) as NodeId,
            ));
            assert(document@.nodes[body as int].children =~= before.nodes[body as int].children
                + seq![n as NodeId, (n + 1) as NodeId]);
            assert(document@.nodes[n + 2 + i] == placed_circle(figure_spec()[i as int], svg));
        }
        i = i + 1;
    }
    Ok(())
}

/// Runs one drawing pass on `document`.
pub fn run(document: &mut Document) -> (r: Result<(), DrawError>)
    requires
        old(document)@.wf(),
        old(document)@.nodes.len() + 5 <= usize::MAX,
    ensures
        pass_done(old(document)@, r, final(document)@),
{
    awesome_wasm_drawing(document)
}

/// After two passes from `d0` to `d2`: the body holds, after what it held
/// before, a paragraph, a canvas, a second paragraph and a second canvas; each
/// canvas holds its own three circles.
pub open spec fn two_pictures(d0: DocumentView, d2: DocumentView) -> bool {
    let n = d0.nodes.len() as int;
    let b = d0.body.unwrap();
    &&& d2.body == d0.body
    &&& d2.nodes.len() == n + 10
    &&& d2.nodes[b as int].children == d0.nodes[b as int].children + seq![
        n as NodeId,
        (n + 1) as NodeId,
        (n + 5) as NodeId,
        (n + 6) as NodeId,
    ]
    &&& d2.nodes[n] == greeting_element(b)
    &&& d2.nodes[n + 5] == greeting_element(b)
    &&& d2.nodes[n + 1] == canvas_element(Some(b), (n + 2) as NodeId, 3)
    &&& d2.nodes[n + 6] == canvas_element(Some(b), (n + 7) as NodeId, 3)
    &&& forall|k: int|
        0 <= k < 3 ==> #[trigger] d2.nodes[n + 2 + k] == placed_circle(figure_spec()[k], (n + 1) as NodeId)
            && d2.nodes[n + 7 + k] == placed_circle(figure_spec()[k], (n + 6) as NodeId)
}

/// Drawing is not idempotent: two passes on a document with a body leave two
/// paragraphs and two canvases of three circles each, in the order drawn.
pub proof fn lemma_two_passes(d0: DocumentView, d1: DocumentView, d2: DocumentView)
    requires
        d0.wf(),
        picture_added(d0, d1),
        picture_added(d1, d2),
    ensures
        two_pictures(d0, d2),
{
    let n = d0.nodes.len() as int;
    let b = d0.body.unwrap() as int;
    assert(d2.nodes[b].children =~= d0.nodes[b].children + seq![
        n as NodeId,
        (n + 1) as NodeId,
        (n + 5) as NodeId,
        (n + 6) as NodeId,
    ]);
    assert forall|k: int| 0 <= k < 3 implies #[trigger] d2.nodes[n + 2 + k] == placed_circle(
        figure_spec()[k],
        (n + 1) as NodeId,
    ) && d2.nodes[n + 7 + k] == placed_circle(figure_spec()[k], (n + 6) as NodeId) by {
        assert(d1.nodes[n + 2 + k] == placed_circle(figure_spec()[k], (n + 1) as NodeId));
        assert(d2.nodes[(n + 5) + 2 + k] == placed_circle(figure_spec()[k], (n + 6) as NodeId));
    }
}

} // verus!
