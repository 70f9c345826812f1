//! A small in-memory document tree: elements with a namespace, a tag name,
//! ordered attributes, inner markup and child elements, plus an optional
//! `<body>`. Drawing code builds its output here; the host mirrors it into a
//! live page.
use vstd::prelude::*;

verus! {

/// Handle of an element: its position in the document's node table.
pub type NodeId = usize;

/// Why the document refused an operation.
#[derive(Debug, Clone, Copy, PartialEq, Eq, Structural)]
pub enum DomError {
    /// The node to insert is the parent itself, already has a parent, or has
    /// children of its own.
    HierarchyRequest,
}

/// One `name="value"` pair of an element.
pub struct Attribute {
    pub name: String,
    pub value: String,
}

/// One element node.
pub struct Element {
    pub namespace: Option<String>,
    pub tag: String,
    pub attributes: Vec<Attribute>,
    pub inner_html: String,
    pub children: Vec<NodeId>,
    pub parent: Option<NodeId>,
}

/// Mathematical value of an [`Element`].
pub struct ElementView {
    pub namespace: Option<Seq<char>>,
    pub tag: Seq<char>,
    pub attributes: Seq<(Seq<char>, Seq<char>)>,
    pub inner_html: Seq<char>,
    pub children: Seq<NodeId>,
    pub parent: Option<NodeId>,
}

/// Mathematical value of a [`Document`]: the node table and the body's handle.
pub struct DocumentView {
    pub nodes: Seq<ElementView>,
    pub body: Option<NodeId>,
}

pub open spec fn opt_view(s: Option<String>) -> Option<Seq<char>> {
    match s {
        Some(t) => Some(t@),
        None => None,
    }
}

impl View for Attribute {
    type V = (Seq<char>, Seq<char>);

    open spec fn view(&self) -> (Seq<char>, Seq<char>) {
        (self.name@, self.value@)
    }
}

impl View for Element {
    type V = ElementView;

    open spec fn view(&self) -> ElementView {
        ElementView {
            namespace: opt_view(self.namespace),
            tag: self.tag@,
            attributes: self.attributes@.map_values(|a: Attribute| a@),
            inner_html: self.inner_html@,
            children: self.children@,
            parent: self.parent,
        }
    }
}

/// A freshly created element: no attributes, no markup, detached, childless.
pub open spec fn fresh_element(namespace: Option<Seq<char>>, tag: Seq<char>) -> ElementView {
    ElementView {
        namespace,
        tag,
        attributes: Seq::empty(),
        inner_html: Seq::empty(),
        children: Seq::empty(),
        parent: None,
    }
}

/// Whether some attribute of `attrs` is called `name`.
pub open spec fn has_attr(attrs: Seq<(Seq<char>, Seq<char>)>, name: Seq<char>) -> bool {
    exists|i: int| 0 <= i < attrs.len() && attrs[i].0 == name
}

/// Whether `i` is the first position of `attrs` whose name is `name`.
pub open spec fn first_attr_at(attrs: Seq<(Seq<char>, Seq<char>)>, name: Seq<char>, i: int) -> bool {
    &&& 0 <= i < attrs.len()
    &&& attrs[i].0 == name
    &&& forall|j: int| 0 <= j < i ==> attrs[j].0 != name
}

/// Attributes after setting `name` to `value`: the first pair with that name
/// takes the new value in place; otherwise the pair goes at the end.
pub open spec fn set_attr(
    attrs: Seq<(Seq<char>, Seq<char>)>,
    name: Seq<char>,
    value: Seq<char>,
) -> Seq<(Seq<char>, Seq<char>)> {
    if has_attr(attrs, name) {
        let i = choose|i: int| first_attr_at(attrs, name, i);
        attrs.update(i, (name, value))
    } else {
        attrs.push((name, value))
    }
}

/// The node table after `child` is appended as the last child of `parent`.
pub open spec fn appended(nodes: Seq<ElementView>, parent: NodeId, child: NodeId) -> Seq<ElementView> {
    let p = nodes[parent as int];
    let with_child = nodes.update(parent as int, ElementView { children: p.children.push(child), ..p });
    let c = with_child[child as int];
    with_child.update(child as int, ElementView { parent: Some(parent), ..c })
}

/// Whether `append_child(parent, child)` is refused.
pub open spec fn append_refused(nodes: Seq<ElementView>, parent: NodeId, child: NodeId) -> bool {
    ||| parent == child
    ||| nodes[child as int].parent is Some
    ||| nodes[child as int].children.len() > 0
}

impl DocumentView {
    /// Every handle stored in the document names one of its nodes.
    pub open spec fn wf(self) -> bool {
        &&& self.body matches Some(b) ==> b < self.nodes.len()
        &&& forall|i: int, k: int|
            0 <= i < self.nodes.len() && 0 <= k < self.nodes[i].children.len()
                ==> self.nodes[i].children[k] < self.nodes.len()
        &&& forall|i: int|
            0 <= i < self.nodes.len() && (#[trigger] self.nodes[i]).parent is Some
                ==> self.nodes[i].parent.unwrap() < self.nodes.len()
    }
}

/// A document: a table of element nodes and, optionally, which of them is the body.
pub struct Document {
    nodes: Vec<Element>,
    body: Option<NodeId>,
}

impl View for Document {
    type V = DocumentView;

    closed spec fn view(&self) -> DocumentView {
        DocumentView { nodes: self.nodes@.map_values(|e: Element| e@), body: self.body }
    }
}

fn to_string(s: &str) -> (r: String)
    ensures
        r@ == s@,
{
    s.to_owned()
}

fn new_element(namespace: Option<&str>, tag: &str) -> (e: Element)
    ensures
        e@ == fresh_element(
            match namespace {
                Some(n) => Some(n@),
                None => None,
            },
            tag@,
        ),
{
    let ns = match namespace {
        Some(n) => Some(to_string(n)),
        None => None,
    };
    let e = Element {
        namespace: ns,
        tag: to_string(tag),
        attributes: Vec::new(),
        inner_html: String::new(),
        children: Vec::new(),
        parent: None,
    };
    assert(e@.attributes =~= Seq::empty());
    e
}

impl Document {
    /// A document whose only node is an empty `<body>`.
    pub fn new() -> (d: Document)
        ensures
            d@.wf(),
            d@.nodes == seq![fresh_element(None, "body"@)],
            d@.body == Some(0usize),
    {
        let mut nodes: Vec<Element> = Vec::new();
        nodes.push(new_element(None, "body"));
        let d = Document { nodes, body: Some(0) };
        assert(d@.nodes =~= seq![fresh_element(None, "body"@)]);
        d
    }

    /// A document with no nodes and no body.
    pub fn without_body() -> (d: Document)
        ensures
            d@.wf(),
            d@.nodes.len() == 0,
            d@.body is None,
    {
        let d = Document { nodes: Vec::new(), body: None };
        assert(d@.nodes =~= Seq::empty());
        d
    }

    /// Number of nodes in the document.
    pub fn len(&self) -> (n: usize)
        ensures
            n == self@.nodes.len(),
    {
        self.nodes.len()
    }

    /// The body element, if the document has one.
    pub fn body(&self) -> (b: Option<NodeId>)
        ensures
            b == self@.body,
    {
        self.body
    }

    /// The element behind a handle.
    pub fn element(&self, id: NodeId) -> (e: &Element)
        requires
            id < self@.nodes.len(),
        ensures
            e@ == self@.nodes[id as int],
    {
        &self.nodes[id]
    }

    /// Creates a detached element, in `namespace` when one is given, and
    /// returns its handle.
    pub fn create_element_ns(&mut self, namespace: Option<&str>, tag: &str) -> (id: NodeId)
        requires
            old(self)@.wf(),
            old(self)@.nodes.len() < usize::MAX,
        ensures
            final(self)@.wf(),
            id == old(self)@.nodes.len(),
            final(self)@.body == old(self)@.body,
            final(self)@.nodes == old(self)@.nodes.push(
                fresh_element(
                    match namespace {
                        Some(n) => Some(n@),
                        None => None,
                    },
                    tag@,
                ),
            ),
    {
        let id = self.nodes.len();
        let e = new_element(namespace, tag);
        self.nodes.push(e);
        assert(self@.nodes =~= old(self)@.nodes.push(e@));
        id
    }

    /// Creates a detached element with no namespace and returns its handle.
    pub fn create_element(&mut self, tag: &str) -> (id: NodeId)
        requires
            old(self)@.wf(),
            old(self)@.nodes.len() < usize::MAX,
        ensures
            final(self)@.wf(),
            id == old(self)@.nodes.len(),
            final(self)@.body == old(self)@.body,
            final(self)@.nodes == old(self)@.nodes.push(fresh_element(None, tag@)),
    {
        self.create_element_ns(None, tag)
    }
    /// Sets attribute `name` of element `id` to `value`: an existing attribute
    /// of that name keeps its place and takes the new value; otherwise the
    /// attribute is added last.
    pub fn set_attribute(&mut self, id: NodeId, name: &str, value: &str)
        requires
            old(self)@.wf(),
            id < old(self)@.nodes.len(),
        ensures
            final(self)@.wf(),
            final(self)@.body == old(self)@.body,
            final(self)@.nodes == old(self)@.nodes.update(
                id as int,
                ElementView {
                    attributes: set_attr(old(self)@.nodes[id as int].attributes, name@, value@),
                    ..old(self)@.nodes[id as int]
                },
            ),
    {
        let ghost attrs = old(self)@.nodes[id as int].attributes;
        let n = self.nodes[id].attributes.len();
        let key = to_string(name);
        let mut i: usize = 0;
        let mut found = false;
        while i < n && !found
            invariant
                self == old(self),
                n == attrs.len(),
                0 <= i <= n,
                key@ == name@,
                attrs == self@.nodes[id as int].attributes,
                id < self@.nodes.len(),
                forall|j: int| 0 <= j < i ==> attrs[j].0 != name@,
                found ==> i < n && attrs[i as int].0 == name@,
            decreases n - i + (if found { 0int } else { 1int }),
        {
            if self.nodes[id].attributes[i].name == key {
                found = true;
            } else {
                i = i + 1;
            }
        }
        if found {
            assert(first_attr_at(attrs, name@, i as int));
            assert(has_attr(attrs, name@));
            self.nodes[id].attributes[i].value = to_string(value);
        } else {
            assert(!has_attr(attrs, name@));
            self.nodes[id].attributes.push(Attribute { name: to_string(name), value: to_string(value) });
        }
        assert(self@.nodes[id as int].attributes =~= set_attr(attrs, name@, value@));
        assert(self@.nodes =~= old(self)@.nodes.update(
            id as int,
            ElementView { attributes: set_attr(attrs, name@, value@), ..old(self)@.nodes[id as int] },
        ));
    }

    /// Replaces the markup inside element `id`.
    pub fn set_inner_html(&mut self, id: NodeId, html: &str)
        requires
            old(self)@.wf(),
            id < old(self)@.nodes.len(),
        ensures
            final(self)@.wf(),
            final(self)@.body == old(self)@.body,
            final(self)@.nodes == old(self)@.nodes.update(
                id as int,
                ElementView { inner_html: html@, ..old(self)@.nodes[id as int] },
            ),
    {
        self.nodes[id].inner_html = to_string(html);
        assert(self@.nodes =~= old(self)@.nodes.update(
            id as int,
            ElementView { inner_html: html@, ..old(self)@.nodes[id as int] },
        ));
    }

    /// Appends `child` as the last child of `parent`. Only a node that is not
    /// `parent`, has no parent and has no children can be inserted, so the
    /// nodes always form a forest.
    pub fn append_child(&mut self, parent: NodeId, child: NodeId) -> (r: Result<(), DomError>)
        requires
            old(self)@.wf(),
            parent < old(self)@.nodes.len(),
            child < old(self)@.nodes.len(),
        ensures
            final(self)@.wf(),
            final(self)@.body == old(self)@.body,
            r is Err <==> append_refused(old(self)@.nodes, parent, child),
            r matches Err(e) ==> e == DomError::HierarchyRequest && final(self)@ == old(self)@,
            r is Ok ==> final(self)@.nodes == appended(old(self)@.nodes, parent, child),
    {
        if parent == child || self.nodes[child].parent.is_some() || self.nodes[child].children.len() > 0 {
            return Err(DomError::HierarchyRequest);
        }
        self.nodes[parent].children.push(child);
        self.nodes[child].parent = Some(parent);
        assert(self@.nodes =~= appended(old(self)@.nodes, parent, child));
        Ok(())
    }
}

} // verus!
