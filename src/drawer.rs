//! Turns shapes into SVG elements under a container element.
use vstd::prelude::*;

use crate::dom::{
    append_refused, appended, fresh_element, set_attr, Document, DocumentView, DomError,
    ElementView, NodeId,
};
use crate::shape::{Circle, Shape};

verus! {

/// Namespace of SVG elements.
pub const SVG_NAMESPACE: &'static str = "http://www.w3.org/2000/svg";

/// Why drawing failed.
#[derive(Debug, Clone, Copy, PartialEq, Eq, Structural)]
pub enum DrawError {
    /// The document has no `<body>` to attach the drawing to.
    MissingBody,
    /// The document refused to insert a node.
    Dom(DomError),
}

/// Attributes of a drawn circle, in the order they are set.
pub open spec fn circle_attributes(c: (Seq<char>, Seq<char>, Seq<char>)) -> Seq<(Seq<char>, Seq<char>)> {
    seq![
        ("cx"@, c.0),
        ("cy"@, c.1),
        ("r"@, c.2),
        ("stroke"@, "#fff"@),
        ("stroke-width"@, "10"@),
        ("fill"@, "hotpink"@),
    ]
}

/// The detached `<circle>` element made for circle `c`.
pub open spec fn circle_element(c: (Seq<char>, Seq<char>, Seq<char>)) -> ElementView {
    ElementView {
        attributes: circle_attributes(c),
        ..fresh_element(Some(SVG_NAMESPACE@), "circle"@)
    }
}

/// Outcome of drawing circle `c` into container `svg`: `r` is the result and
/// `after` the document, starting from `before`. The circle element is always
/// created. Without a body nothing is attached. The container is attached as
/// the body's last child unless it is a child of the body already; then the
/// circle becomes the container's last child.
pub open spec fn circle_drawn(
    svg: NodeId,
    c: (Seq<char>, Seq<char>, Seq<char>),
    before: DocumentView,
    r: Result<(), DrawError>,
    after: DocumentView,
) -> bool {
    let n = before.nodes.len() as NodeId;
    let created = before.nodes.push(circle_element(c));
    &&& after.body == before.body
    &&& match before.body {
        None => r == Err::<(), DrawError>(DrawError::MissingBody) && after.nodes == created,
        Some(b) => if created[svg as int].parent == Some(b) {
            r is Ok && after.nodes == appended(created, svg, n)
        } else if append_refused(created, b, svg) {
            r == Err::<(), DrawError>(DrawError::Dom(DomError::HierarchyRequest))
                && after.nodes == created
        } else {
            r is Ok && after.nodes == appended(appended(created, b, svg), svg, n)
        },
    }
}

/// Something that draws shapes into a document.
pub trait Drawable {
    /// Whether this drawer can work on a document with value `d`.
    spec fn fits(&self, d: DocumentView) -> bool;

    /// Outcome of drawing `shape`: `r` is the result, `before` and `after` the
    /// document.
    spec fn drawn(
        &self,
        shape: Shape,
        before: DocumentView,
        r: Result<(), DrawError>,
        after: DocumentView,
    ) -> bool;

    /// Draws `shape` into `document`.
    fn draw(&self, document: &mut Document, shape: Shape) -> (r: Result<(), DrawError>)
        requires
            old(document)@.wf(),
            self.fits(old(document)@),
        ensures
            final(document)@.wf(),
            self.drawn(shape, old(document)@, r, final(document)@),
    ;
}

/// Draws shapes as SVG elements inside one container element.
pub struct ShapeDrawer {
    svg: NodeId,
}

impl ShapeDrawer {
    /// A drawer whose shapes go into container `svg`.
    pub fn new(svg: NodeId) -> (d: ShapeDrawer)
        ensures
            d.svg() == svg,
    {
        ShapeDrawer { svg }
    }

    /// The container element's handle.
    pub closed spec fn svg(&self) -> NodeId {
        self.svg
    }

    /// The container element's handle.
    pub fn container(&self) -> (svg: NodeId)
        ensures
            svg == self.svg(),
    {
        self.svg
    }
}

impl Drawable for ShapeDrawer {
    /// The container exists and a node can still be added.
    open spec fn fits(&self, d: DocumentView) -> bool {
        &&& self.svg() < d.nodes.len()
        &&& d.nodes.len() < usize::MAX
    }

    open spec fn drawn(
        &self,
        shape: Shape,
        before: DocumentView,
        r: Result<(), DrawError>,
        after: DocumentView,
    ) -> bool {
        match shape {
            Shape::Circle(c) => circle_drawn(self.svg(), c@, before, r, after),
        }
    }

    fn draw(&self, document: &mut Document, shape: Shape) -> (r: Result<(), DrawError>) {
        match shape {
            Shape::Circle(circ) => {
                let ghost before = document@;
                let circle = document.create_element_ns(Some(SVG_NAMESPACE), "circle");
                document.set_attribute(circle, "cx", circ.cx());
                document.set_attribute(circle, "cy", circ.cy());
                document.set_attribute(circle, "r", circ.r());
                document.set_attribute(circle, "stroke", "#fff");
                document.set_attribute(circle, "stroke-width", "10");
                document.set_attribute(circle, "fill", "hotpink");
                proof {
                    reveal_strlit("cx");
                    reveal_strlit("cy");
                    reveal_strlit("r");
                    reveal_strlit("stroke");
                    reveal_strlit("stroke-width");
                    reveal_strlit("fill");
                    let c = circ@;
                    assert("cx"@[1] != "cy"@[1]);
                    assert("cx"@.len() != "r"@.len() && "cy"@.len() != "r"@.len());
                    assert("cx"@[0] != "stroke"@[0] && "cy"@[0] != "stroke"@[0] && "r"@[0] != "stroke"@[0]);
                    assert("cx"@[0] != "fill"@[0] && "cy"@[0] != "fill"@[0] && "r"@[0] != "fill"@[0]);
                    assert("stroke"@[0] != "fill"@[0] && "stroke-width"@[0] != "fill"@[0]);
                    assert("cx"@[0] != "stroke-width"@[0] && "cy"@[0] != "stroke-width"@[0]);
                    assert("r"@[0] != "stroke-width"@[0]);
                    assert("stroke"@.len() != "stroke-width"@.len());
                    let a0 = Seq::<(Seq<char>, Seq<char>)>::empty();
                    let a1 = set_attr(a0, "cx"@, c.0);
                    assert(a1 =~= seq![("cx"@, c.0)]);
                    let a2 = set_attr(a1, "cy"@, c.1);
                    assert(a2 =~= a1.push(("cy"@, c.1))) by {
                        assert(a1[0].0 != "cy"@);
                    }
                    let a3 = set_attr(a2, "r"@, c.2);
                    assert(a3 =~= a2.push(("r"@, c.2))) by {
                        assert(a2[0].0 != "r"@);
                        assert(a2[1].0 != "r"@);
                    }
                    let a4 = set_attr(a3, "stroke"@, "#fff"@);
                    assert(a4 =~= a3.push(("stroke"@, "#fff"@))) by {
                        assert(a3[0].0 != "stroke"@);
                        assert(a3[1].0 != "stroke"@);
                        assert(a3[2].0 != "stroke"@);
                    }
                    let a5 = set_attr(a4, "stroke-width"@, "10"@);
                    assert(a5 =~= a4.push(("stroke-width"@, "10"@))) by {
                        assert(a4[0].0 != "stroke-width"@);
                        assert(a4[1].0 != "stroke-width"@);
                        assert(a4[2].0 != "stroke-width"@);
                        assert(a4[3].0 != "stroke-width"@);
                    }
                    let a6 = set_attr(a5, "fill"@, "hotpink"@);
                    assert(a6 =~= a5.push(("fill"@, "hotpink"@))) by {
                        assert(a5[0].0 != "fill"@);
                        assert(a5[1].0 != "fill"@);
                        assert(a5[2].0 != "fill"@);
                        assert(a5[3].0 != "fill"@);
                        assert(a5[4].0 != "fill"@);
                    }
                    assert(a6 =~= circle_attributes(c));
                    assert(document@.nodes =~= before.nodes.push(circle_element(c)));
                }
                let body = match document.body() {
                    Some(b) => b,
                    None => {
                        return Err(DrawError::MissingBody);
                    },
                };
                if document.element(self.svg).parent != Some(body) {
                    match document.append_child(body, self.svg) {
                        Ok(()) => {},
                        Err(e) => {
                            return Err(DrawError::Dom(e));
                        },
                    }
                }
                match document.append_child(self.svg, circle) {
                    Ok(()) => Ok(()),
                    Err(e) => Err(DrawError::Dom(e)),
                }
            },
        }
    }
}

} // verus!
