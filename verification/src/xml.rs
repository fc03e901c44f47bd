//! The crate's own model of an XML document: a tree of named elements with
//! attributes, text, and the other node kinds the dependency file may hold.
//!
//! The dependency-document logic reads and rewrites this tree; the bytes on
//! disk are turned into it, and back, at the crate's edge.

use vstd::prelude::*;

verus! {

/// One node of the document tree.
#[derive(Debug, PartialEq)]
pub enum XmlNode {
    Element(XmlElement),
    Text(String),
    Comment(String),
    CData(String),
    ProcessingInstruction(String, Option<String>),
}

/// An element: its name with an optional namespace prefix and URI, the
/// namespace declarations in scope (prefix-to-URI pairs, sorted by
/// prefix), its attributes in document order, and its children.
#[derive(Debug, PartialEq)]
pub struct XmlElement {
    pub prefix: Option<String>,
    pub namespace: Option<String>,
    pub namespaces: Option<Vec<(String, String)>>,
    pub name: String,
    pub attributes: Vec<(String, String)>,
    pub children: Vec<XmlNode>,
}

/// Whether `n` is an element named `name`.
pub open spec fn is_named_element(n: XmlNode, name: Seq<char>) -> bool {
    n matches XmlNode::Element(e) && e.name@ == name
}

/// Index of the first element child named `name`, scanning front to back.
pub open spec fn spec_find_child(children: Seq<XmlNode>, name: Seq<char>) -> Option<int>
    decreases children.len(),
{
    if children.len() == 0 {
        None
    } else if is_named_element(children[0], name) {
        Some(0int)
    } else {
        match spec_find_child(children.drop_first(), name) {
            Some(i) => Some(i + 1),
            None => None,
        }
    }
}

/// `spec_find_child` yields exactly the first matching index.
pub proof fn lemma_find_child_characterization(children: Seq<XmlNode>, name: Seq<char>, i: int)
    requires
        0 <= i < children.len(),
        is_named_element(children[i], name),
        forall|k: int| 0 <= k < i ==> !is_named_element(children[k], name),
    ensures
        spec_find_child(children, name) == Some(i),
    decreases children.len(),
{
    if i > 0 {
        lemma_find_child_characterization(children.drop_first(), name, i - 1);
    }
}

/// A found index lies in bounds and names a matching element.
pub proof fn lemma_find_child_is_element(children: Seq<XmlNode>, name: Seq<char>)
    ensures
        spec_find_child(children, name) matches Some(i) ==> 0 <= i < children.len()
            && is_named_element(children[i], name),
    decreases children.len(),
{
    if children.len() > 0 {
        lemma_find_child_is_element(children.drop_first(), name);
    }
}

/// No child before a found index matches.
pub proof fn lemma_find_child_is_first(children: Seq<XmlNode>, name: Seq<char>)
    ensures
        spec_find_child(children, name) matches Some(i) ==> forall|k: int|
            0 <= k < i ==> !is_named_element(children[k], name),
    decreases children.len(),
{
    if children.len() > 0 && !is_named_element(children[0], name) {
        lemma_find_child_is_first(children.drop_first(), name);
        lemma_find_child_is_element(children.drop_first(), name);
        match spec_find_child(children.drop_first(), name) {
            Some(j) => {
                assert forall|k: int| 0 <= k < j + 1 implies !is_named_element(
                    children[k],
                    name,
                ) by {
                    if k > 0 {
                        assert(children.drop_first()[k - 1] == children[k]);
                    }
                }
            },
            None => {},
        }
    }
}

/// When no child matches, `spec_find_child` finds nothing.
pub proof fn lemma_find_child_none(children: Seq<XmlNode>, name: Seq<char>)
    requires
        forall|k: int| 0 <= k < children.len() ==> !is_named_element(children[k], name),
    ensures
        spec_find_child(children, name) is None,
    decreases children.len(),
{
    if children.len() > 0 {
        lemma_find_child_none(children.drop_first(), name);
    }
}

/// The text an element directly carries: its first child, when that child
/// is a text node; empty otherwise.
pub open spec fn spec_leading_text(e: XmlElement) -> Seq<char> {
    if e.children@.len() > 0 {
        match e.children@[0] {
            XmlNode::Text(t) => t@,
            _ => Seq::<char>::empty(),
        }
    } else {
        Seq::<char>::empty()
    }
}

/// String-slice comparison with its meaning on the views.
pub fn str_eq(a: &str, b: &str) -> (r: bool)
    ensures
        r == (a@ == b@),
{
    let owned_a = a.to_owned();
    let owned_b = b.to_owned();
    owned_a == owned_b
}

#[verifier::external_type_specification]
#[verifier::external_body]
pub struct ExXmltreeElement(xmltree::Element);

#[verifier::external_type_specification]
#[verifier::external_body]
pub struct ExXmltreeNode(xmltree::XMLNode);

/// What parsing a document's text yields: the root element's tree when
/// the text is well-formed XML, nothing otherwise. The tree is a function
/// of the text alone: attributes are kept in document order, the
/// namespace table in prefix order.
pub uninterp spec fn spec_parse_result(text: Seq<char>) -> Option<XmlElement>;

/// Relies on xmltree's `Element::parse`: builds the root element's tree
/// of a well-formed document — here converted field by field into the
/// crate's model — and fails on ill-formed input.
#[verifier::external_body]
fn parse_xmltree(text: &str) -> (r: Option<XmlElement>)
    ensures
        r == spec_parse_result(text@),
{
    match xmltree::Element::parse(text.as_bytes()) {
        Ok(e) => Some(elem_of_xmltree(&e)),
        Err(_) => None,
    }
}

/// Converts one parsed xmltree element into the crate's model, field by
/// field and child by child.
#[verifier::external_body]
fn elem_of_xmltree(e: &xmltree::Element) -> (r: XmlElement) {
    XmlElement {
        prefix: e.prefix.clone(),
        namespace: e.namespace.clone(),
        namespaces: e.namespaces.as_ref().map(
            |ns| ns.0.iter().map(|(k, v)| (k.clone(), v.clone())).collect(),
        ),
        name: e.name.clone(),
        attributes: e.attributes.iter().map(|(k, v)| (k.clone(), v.clone())).collect(),
        children: e.children.iter().map(node_of_xmltree).collect(),
    }
}

/// Converts one parsed xmltree node into the crate's model, variant by
/// variant.
#[verifier::external_body]
fn node_of_xmltree(n: &xmltree::XMLNode) -> (r: XmlNode) {
    match n {
        xmltree::XMLNode::Element(e) => XmlNode::Element(elem_of_xmltree(e)),
        xmltree::XMLNode::Text(t) => XmlNode::Text(t.clone()),
        xmltree::XMLNode::Comment(c) => XmlNode::Comment(c.clone()),
        xmltree::XMLNode::CData(c) => XmlNode::CData(c.clone()),
        xmltree::XMLNode::ProcessingInstruction(k, v) => XmlNode::ProcessingInstruction(
            k.clone(),
            v.clone(),
        ),
    }
}

/// Converts an element of the crate's model back into an xmltree element.
#[verifier::external_body]
fn xmltree_of_elem(e: &XmlElement) -> (r: xmltree::Element) {
    let mut out = xmltree::Element::new(e.name.as_str());
    out.prefix = e.prefix.clone();
    out.namespace = e.namespace.clone();
    out.namespaces = e.namespaces.as_ref().map(|ns| {
        let mut table = xmltree::Namespace::empty();
        for (k, v) in ns.iter() {
            table.put(k.clone(), v.clone());
        }
        table
    });
    for (k, v) in e.attributes.iter() {
        out.attributes.insert(k.clone(), v.clone());
    }
    out.children = e.children.iter().map(xmltree_of_node).collect();
    out
}

/// Converts a node of the crate's model back into an xmltree node.
#[verifier::external_body]
fn xmltree_of_node(n: &XmlNode) -> (r: xmltree::XMLNode) {
    match n {
        XmlNode::Element(e) => xmltree::XMLNode::Element(xmltree_of_elem(e)),
        XmlNode::Text(t) => xmltree::XMLNode::Text(t.clone()),
        XmlNode::Comment(c) => xmltree::XMLNode::Comment(c.clone()),
        XmlNode::CData(c) => xmltree::XMLNode::CData(c.clone()),
        XmlNode::ProcessingInstruction(k, v) => xmltree::XMLNode::ProcessingInstruction(
            k.clone(),
            v.clone(),
        ),
    }
}

/// The bytes the writer produces for a tree, when it accepts it. With
/// attributes and the namespace table in fixed order, the bytes are a
/// function of the tree alone.
pub uninterp spec fn spec_rendered_bytes(root: XmlElement) -> Option<Seq<u8>>;

/// Relies on xmltree's `Element::write`: serializes the element — here
/// converted back from the crate's model first — as a new XML document,
/// or fails when the writer refuses it.
#[verifier::external_body]
fn write_xmltree(e: &XmlElement) -> (r: Option<Vec<u8>>)
    ensures
        (match r {
            Some(b) => Some(b@),
            None => None::<Seq<u8>>,
        }) == spec_rendered_bytes(*e),
{
    let converted = xmltree_of_elem(e);
    let mut out: Vec<u8> = Vec::new();
    match converted.write(&mut out) {
        Ok(()) => Some(out),
        Err(_) => None,
    }
}

/// Parse a whole XML document into the crate's model of its root element:
/// exactly `spec_parse_result` of the text — the parsed tree when the text
/// is well-formed, `None` otherwise. Every function that reads the tree is
/// verified for all trees.
pub fn parse_document(text: &str) -> (r: Option<XmlElement>)
    ensures
        r == spec_parse_result(text@),
{
    parse_xmltree(text)
}

/// Serialize the tree as a new XML document's bytes: exactly
/// `spec_rendered_bytes` of the tree.
pub fn render_document(root: &XmlElement) -> (r: Option<Vec<u8>>)
    ensures
        (match r {
            Some(b) => Some(b@),
            None => None::<Seq<u8>>,
        }) == spec_rendered_bytes(*root),
{
    write_xmltree(root)
}

impl XmlElement {
    /// Find the first element child with the given name.
    pub fn find_child_index(&self, name: &str) -> (r: Option<usize>)
        ensures
            match r {
                Some(i) => spec_find_child(self.children@, name@) == Some(i as int),
                None => spec_find_child(self.children@, name@) is None,
            },
    {
        let n = self.children.len();
        let mut i: usize = 0;
        while i < n
            invariant
                i <= n,
                n == self.children@.len(),
                forall|k: int| 0 <= k < i ==> !is_named_element(self.children@[k], name@),
            decreases n - i,
        {
            match &self.children[i] {
                XmlNode::Element(e) => {
                    if str_eq(e.name.as_str(), name) {
                        proof {
                            lemma_find_child_characterization(self.children@, name@, i as int);
                        }
                        return Some(i);
                    }
                },
                _ => {},
            }
            i += 1;
        }
        proof {
            lemma_find_child_none(self.children@, name@);
        }
        None
    }

    /// The text this element directly carries, as `spec_leading_text` says.
    pub fn leading_text(&self) -> (r: String)
        ensures
            r@ == spec_leading_text(*self),
    {
        if self.children.len() > 0 {
            match &self.children[0] {
                XmlNode::Text(t) => t.clone(),
                _ => String::new(),
            }
        } else {
            String::new()
        }
    }
}

} // verus!
