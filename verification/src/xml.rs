//! XML documents as plain data, and the two reads the vendor clients make
//! of them: a child element by name, and an element's text.

use vstd::prelude::*;
use vstd::string::StringExecFns;
use vstd::utf8::encode_utf8;
use crate::text::str_eq;

verus! {

/// What an element holds besides its name.
#[derive(Debug, PartialEq, Eq)]
pub enum XmlNode {
    Element(XmlElement),
    Comment(String),
    CData(String),
    Text(String),
    ProcessingInstruction(String, Option<String>),
}

/// An element: its name without any namespace, and what it holds, in
/// document order.
#[derive(Debug, PartialEq, Eq)]
pub struct XmlElement {
    pub name: String,
    pub children: Vec<XmlNode>,
}

/// `xmltree::Element`, handed on without a look inside.
#[verifier::external_type_specification]
#[verifier::external_body]
pub struct ExXmltreeElement(xmltree::Element);

/// The root element that `xmltree::Element::parse_with_config` reads from
/// `text` with comments kept and no entity expanded, or `None` where it
/// reports an error.
pub uninterp spec fn xml_parse(text: Seq<char>) -> Option<XmlElement>;

/// Copies an `xmltree::Element` into an `XmlElement`, node for node;
/// attributes and namespaces are left behind.
#[verifier::external_body]
fn element_tree(e: xmltree::Element) -> XmlElement {
    let children = e.children.into_iter().map(
        |node| match node {
            xmltree::XMLNode::Element(c) => XmlNode::Element(element_tree(c)),
            xmltree::XMLNode::Comment(s) => XmlNode::Comment(s),
            xmltree::XMLNode::CData(s) => XmlNode::CData(s),
            xmltree::XMLNode::Text(s) => XmlNode::Text(s),
            xmltree::XMLNode::ProcessingInstruction(n, d) => XmlNode::ProcessingInstruction(n, d),
        },
    ).collect();
    XmlElement { name: e.name, children }
}

/// The deepest nesting of elements that is read. The reader, the copy
/// and the release of a document each go one call deeper with every
/// level; a level was measured at between one and two KiB of stack, so
/// that the deepest document stays below 256 KiB.
pub const MAX_XML_DEPTH: usize = 128;

/// How often `b` stands in `bytes`.
pub open spec fn count_of(bytes: Seq<u8>, b: u8) -> nat
    decreases bytes.len(),
{
    if bytes.len() == 0 {
        0
    } else if bytes.last() == b {
        count_of(bytes.drop_last(), b) + 1
    } else {
        count_of(bytes.drop_last(), b)
    }
}

/// Where a scan of a document stands with respect to tags.
#[derive(Copy, Clone, PartialEq, Eq, Structural, Debug)]
pub enum TagState {
    /// Between tags.
    Outside,
    /// After a `<` that opens an element, up to the next `>`.
    Opening,
    /// After `</`, up to the next `>`.
    Closing,
}

/// What a scan of a document has seen so far.
pub struct ScanState {
    /// An upper bound on the number of elements that are open.
    pub depth: nat,
    /// The largest that `depth` has been.
    pub high: nat,
    /// Whether every tag so far was a plain one: no quote, no `<!`, no
    /// `<?`, no `<` within a tag. Only then is a closing tag taken for
    /// one.
    pub plain: bool,
    pub tag: TagState,
    /// Whether the byte before was a `/`.
    pub slash: bool,
}

/// The scan before its first byte.
pub open spec fn scan_start() -> ScanState {
    ScanState { depth: 0, high: 0, plain: true, tag: TagState::Outside, slash: false }
}

/// The scan after the byte `b`, which `next` follows. Every `<` that is
/// not followed by `/` counts as an element opened. An element counts as
/// closed at `</` and at `/>` within an opening tag, as long as the
/// document is plain; after that, nothing closes any more.
pub open spec fn scan_step(st: ScanState, b: u8, next: u8) -> ScanState {
    if b == 0x3C {
        let plain = st.plain && st.tag == TagState::Outside && next != 0x21 && next != 0x3F;
        if next == 0x2F {
            ScanState {
                depth: if plain && st.depth > 0 {
                    (st.depth - 1) as nat
                } else {
                    st.depth
                },
                high: st.high,
                plain,
                tag: TagState::Closing,
                slash: false,
            }
        } else {
            ScanState {
                depth: st.depth + 1,
                high: if st.high > st.depth {
                    st.high
                } else {
                    st.depth + 1
                },
                plain,
                tag: TagState::Opening,
                slash: false,
            }
        }
    } else if b == 0x3E {
        ScanState {
            depth: if st.plain && st.tag == TagState::Opening && st.slash && st.depth > 0 {
                (st.depth - 1) as nat
            } else {
                st.depth
            },
            high: st.high,
            plain: st.plain,
            tag: TagState::Outside,
            slash: false,
        }
    } else if b == 0x22 || b == 0x27 {
        ScanState { plain: false, slash: false, ..st }
    } else {
        ScanState { slash: b == 0x2F, ..st }
    }
}

/// The byte at `i`, and zero past the end.
pub open spec fn byte_at(bytes: Seq<u8>, i: int) -> u8 {
    if 0 <= i < bytes.len() {
        bytes[i]
    } else {
        0
    }
}

/// The scan of `bytes` from `i` on, begun in the state `st`.
pub open spec fn scan_from(bytes: Seq<u8>, i: int, st: ScanState) -> ScanState
    decreases bytes.len() - i,
{
    if i < 0 || i >= bytes.len() {
        st
    } else {
        scan_from(bytes, i + 1, scan_step(st, bytes[i], byte_at(bytes, i + 1)))
    }
}

/// Where the first `?>` from `i` on ends, and the end of `bytes` where
/// there is none.
pub open spec fn instruction_end(bytes: Seq<u8>, i: int) -> int
    decreases bytes.len() - i,
{
    if i < 0 || i + 1 >= bytes.len() {
        bytes.len() as int
    } else if bytes[i] == 0x3F && bytes[i + 1] == 0x3E {
        i + 2
    } else {
        instruction_end(bytes, i + 1)
    }
}

/// Where the scan begins: after the processing instruction that a
/// document may begin with, its declaration as a rule.
pub open spec fn content_start(bytes: Seq<u8>) -> int {
    if bytes.len() >= 2 && bytes[0] == 0x3C && bytes[1] == 0x3F {
        instruction_end(bytes, 2)
    } else {
        0
    }
}

/// An upper bound on how deep the elements of a document are nested,
/// found without reading the document: the largest number of elements
/// that the scan sees open at once. A document that holds a zero byte
/// may be read in units of two bytes; for it the bound is the number of
/// bytes that can be part of a `<`.
pub open spec fn nesting_bound(bytes: Seq<u8>) -> nat {
    if count_of(bytes, 0) > 0 {
        count_of(bytes, 0x3C)
    } else {
        scan_from(bytes, content_start(bytes), scan_start()).high
    }
}

/// `xmltree::Element::parse_with_config` on the bytes of `text`, with
/// comments kept and no entity expanded, copied into an `XmlElement`. The
/// contract only names the result. Documents nested deeper than
/// `MAX_XML_DEPTH` are left out: they would exhaust the stack. Without
/// expansion every element is opened by a `<` of the text itself, which
/// is what `nesting_bound` counts.
#[verifier::external_body]
fn read_xml(text: &str) -> (r: Option<XmlElement>)
    requires
        nesting_bound(encode_utf8(text@)) <= MAX_XML_DEPTH,
    ensures
        r == xml_parse(text@),
{
    xmltree::Element::parse_with_config(
        text.as_bytes(),
        xmltree::ParserConfig::new().ignore_comments(false).max_entity_expansion_depth(0),
    ).ok().map(element_tree)
}

/// How often `b` stands in `bytes`, counted up to `limit + 1`.
#[verifier::loop_isolation(false)]
fn count_up_to(bytes: &[u8], b: u8, limit: usize) -> (r: usize)
    requires
        limit < usize::MAX,
    ensures
        r <= limit ==> r == count_of(bytes@, b),
        r > limit ==> count_of(bytes@, b) > limit,
{
    let mut count: usize = 0;
    let mut i: usize = 0;
    while i < bytes.len()
        invariant
            i <= bytes@.len(),
            count == count_of(bytes@.take(i as int), b),
            count <= limit,
        decreases bytes@.len() - i,
    {
        proof {
            let next = bytes@.take(i + 1);
            assert(next.drop_last() == bytes@.take(i as int));
            assert(next.last() == bytes@[i as int]);
        }
        if bytes[i] == b {
            if count == limit {
                proof {
                    lemma_count_grows(bytes@, b, i + 1);
                }
                return limit + 1;
            }
            count = count + 1;
        }
        i = i + 1;
    }
    assert(bytes@.take(i as int) == bytes@);
    count
}

proof fn lemma_count_grows(bytes: Seq<u8>, b: u8, k: int)
    requires
        0 <= k <= bytes.len(),
    ensures
        count_of(bytes.take(k), b) <= count_of(bytes, b),
    decreases bytes.len() - k,
{
    if k < bytes.len() {
        let next = bytes.take(k + 1);
        assert(next.drop_last() == bytes.take(k));
        lemma_count_grows(bytes, b, k + 1);
    } else {
        assert(bytes.take(k) == bytes);
    }
}

/// Where the scan of `bytes` begins.
#[verifier::loop_isolation(false)]
fn find_content_start(bytes: &[u8]) -> (r: usize)
    ensures
        r == content_start(bytes@),
        r <= bytes@.len(),
{
    let n: usize = bytes.len();
    if n >= 2 && bytes[0] == 0x3C && bytes[1] == 0x3F {
        let mut i: usize = 2;
        while i < n - 1
            invariant
                n == bytes@.len(),
                2 <= i <= n,
                instruction_end(bytes@, 2) == instruction_end(bytes@, i as int),
            decreases n - i,
        {
            if bytes[i] == 0x3F && bytes[i + 1] == 0x3E {
                return i + 2;
            }
            i = i + 1;
        }
        n
    } else {
        0
    }
}

/// The largest number of elements that the scan of `bytes` from `start`
/// on sees open at once.
fn scan_high(bytes: &[u8], start: usize) -> (r: usize)
    requires
        start <= bytes@.len(),
    ensures
        r == scan_from(bytes@, start as int, scan_start()).high,
{
    let n: usize = bytes.len();
    let mut depth: usize = 0;
    let mut high: usize = 0;
    let mut plain: bool = true;
    let mut tag: TagState = TagState::Outside;
    let mut slash: bool = false;
    let mut i: usize = start;
    while i < n
        invariant
            n == bytes@.len(),
            start <= i <= n,
            depth <= high <= i - start,
            scan_from(bytes@, start as int, scan_start()) == scan_from(
                bytes@,
                i as int,
                ScanState { depth: depth as nat, high: high as nat, plain, tag, slash },
            ),
        decreases n - i,
    {
        let b: u8 = bytes[i];
        let next: u8 = if i + 1 < n {
            bytes[i + 1]
        } else {
            0
        };
        assert(next == byte_at(bytes@, i + 1));
        if b == 0x3C {
            plain = plain && tag == TagState::Outside && next != 0x21 && next != 0x3F;
            if next == 0x2F {
                if plain && depth > 0 {
                    depth = depth - 1;
                }
                tag = TagState::Closing;
            } else {
                depth = depth + 1;
                if high < depth {
                    high = depth;
                }
                tag = TagState::Opening;
            }
            slash = false;
        } else if b == 0x3E {
            if plain && tag == TagState::Opening && slash && depth > 0 {
                depth = depth - 1;
            }
            tag = TagState::Outside;
            slash = false;
        } else if b == 0x22 || b == 0x27 {
            plain = false;
            slash = false;
        } else {
            slash = b == 0x2F;
        }
        i = i + 1;
    }
    high
}

/// Whether `text` is nested no deeper than a document may be.
pub fn within_nesting_limit(text: &str) -> (r: bool)
    ensures
        r == (nesting_bound(encode_utf8(text@)) <= MAX_XML_DEPTH),
{
    let bytes = text.as_bytes();
    if count_up_to(bytes, 0, 0) > 0 {
        count_up_to(bytes, 0x3C, MAX_XML_DEPTH) <= MAX_XML_DEPTH
    } else {
        let start = find_content_start(bytes);
        scan_high(bytes, start) <= MAX_XML_DEPTH
    }
}

/// Whether `node` is an element called `name`.
pub open spec fn is_element_named(node: XmlNode, name: Seq<char>) -> bool {
    node matches XmlNode::Element(e) && e.name@ == name
}

/// The index of the first element called `name` among `nodes`, or their
/// number where there is none.
pub open spec fn child_index(nodes: Seq<XmlNode>, name: Seq<char>) -> int
    decreases nodes.len(),
{
    if nodes.len() == 0 {
        0
    } else if is_element_named(nodes[0], name) {
        0
    } else {
        1 + child_index(nodes.drop_first(), name)
    }
}

proof fn lemma_child_index(nodes: Seq<XmlNode>, name: Seq<char>)
    ensures
        0 <= child_index(nodes, name) <= nodes.len(),
        child_index(nodes, name) < nodes.len() ==> is_element_named(
            nodes[child_index(nodes, name)],
            name,
        ),
        forall|k: int|
            0 <= k < child_index(nodes, name) ==> !is_element_named(#[trigger] nodes[k], name),
    decreases nodes.len(),
{
    if nodes.len() > 0 && !is_element_named(nodes[0], name) {
        let rest = nodes.drop_first();
        lemma_child_index(rest, name);
        let n = child_index(rest, name);
        assert forall|k: int| 0 <= k < n + 1 implies !is_element_named(
            #[trigger] nodes[k],
            name,
        ) by {
            if k > 0 {
                assert(nodes[k] == rest[k - 1]);
            }
        }
    }
}

/// The text and character data among `nodes`, joined in document order;
/// `None` where there is neither.
pub open spec fn joined_text(nodes: Seq<XmlNode>) -> Option<Seq<char>>
    decreases nodes.len(),
{
    if nodes.len() == 0 {
        None
    } else {
        let before = joined_text(nodes.drop_last());
        match nodes.last() {
            XmlNode::Text(s) => Some(
                match before {
                    Some(t) => t + s@,
                    None => s@,
                },
            ),
            XmlNode::CData(s) => Some(
                match before {
                    Some(t) => t + s@,
                    None => s@,
                },
            ),
            _ => before,
        }
    }
}

impl XmlElement {
    /// The first child element called `name`.
    pub open spec fn child(self, name: Seq<char>) -> Option<XmlElement> {
        let i = child_index(self.children@, name);
        if i < self.children@.len() {
            Some(self.children@[i]->Element_0)
        } else {
            None
        }
    }

    /// The element's own text.
    pub open spec fn text(self) -> Option<Seq<char>> {
        joined_text(self.children@)
    }

    /// The text of the first child element called `name`.
    pub open spec fn field(self, name: Seq<char>) -> Option<Seq<char>> {
        match self.child(name) {
            Some(e) => e.text(),
            None => None,
        }
    }

    /// Reads an XML document from text and hands out its root element:
    /// none for a text that is no document, and none for one that may be
    /// nested deeper than `MAX_XML_DEPTH`.
    pub fn parse(text: &str) -> (r: Option<XmlElement>)
        ensures
            r == if nesting_bound(encode_utf8(text@)) <= MAX_XML_DEPTH {
                xml_parse(text@)
            } else {
                None
            },
    {
        if within_nesting_limit(text) {
            read_xml(text)
        } else {
            None
        }
    }

    /// The first child element called `name`.
    pub fn get_child<'a>(&'a self, name: &str) -> (r: Option<&'a XmlElement>)
        ensures
            r == match self.child(name@) {
                Some(e) => Some(&e),
                None => None,
            },
    {
        let mut i: usize = 0;
        while i < self.children.len()
            invariant
                i <= self.children.len(),
                forall|k: int| 0 <= k < i ==> !is_element_named(#[trigger] self.children@[k], name@),
            decreases self.children.len() - i,
        {
            if let XmlNode::Element(e) = &self.children[i] {
                if str_eq(e.name.as_str(), name) {
                    proof {
                        lemma_child_index(self.children@, name@);
                        let c = child_index(self.children@, name@);
                        if c < i {
                            assert(is_element_named(self.children@[c], name@));
                        } else if c > i {
                            assert(!is_element_named(self.children@[i as int], name@));
                        }
                    }
                    return Some(e);
                }
            }
            i = i + 1;
        }
        proof {
            lemma_child_index(self.children@, name@);
            let c = child_index(self.children@, name@);
            if c < self.children@.len() {
                assert(is_element_named(self.children@[c], name@));
            }
        }
        None
    }

    /// The element's own text: its text and character data, joined.
    pub fn get_text(&self) -> (r: Option<String>)
        ensures
            match r {
                Some(s) => self.text() == Some(s@),
                None => self.text() is None,
            },
    {
        let mut acc: Option<String> = None;
        let mut i: usize = 0;
        while i < self.children.len()
            invariant
                i <= self.children.len(),
                match acc {
                    Some(s) => joined_text(self.children@.take(i as int)) == Some(s@),
                    None => joined_text(self.children@.take(i as int)) is None,
                },
            decreases self.children.len() - i,
        {
            proof {
                let next = self.children@.take(i + 1);
                assert(next.drop_last() == self.children@.take(i as int));
                assert(next.last() == self.children@[i as int]);
            }
            match &self.children[i] {
                XmlNode::Text(s) => {
                    acc = Some(XmlElement::joined(acc, s.as_str()));
                },
                XmlNode::CData(s) => {
                    acc = Some(XmlElement::joined(acc, s.as_str()));
                },
                _ => {},
            }
            i = i + 1;
        }
        assert(self.children@.take(i as int) == self.children@);
        acc
    }

    fn joined(before: Option<String>, s: &str) -> (r: String)
        ensures
            r@ == match before {
                Some(t) => t@ + s@,
                None => s@,
            },
    {
        match before {
            Some(t) => t.concat(s),
            None => String::from_str(s),
        }
    }
}

} // verus!
