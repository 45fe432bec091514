//! The markup tree and its renderer.
//!
//! A page is a tree of [`MarkupNode`]s. Text nodes are escaped when the tree
//! is rendered, raw nodes are written as they are, elements write their tag
//! around their children and fragments write their children only. Nothing is
//! concatenated before [`MarkupNode::render_to_string`] runs.
//!
//! Escaping text nodes is the only defence against markup in what a user
//! typed. Tag names, attribute names and attribute values are written as
//! they are, like raw nodes: whoever builds an element vouches for them.

use crate::text::{decimal, u64_to_string};
use vstd::prelude::*;

verus! {

/// One attribute of an element: a name and, unless it is a bare flag such as
/// `defer`, a value.
pub struct Attribute {
    pub name: String,
    pub value: Option<String>,
}

/// An element: its tag name, its attributes in the order they were given and
/// its children in document order.
pub struct Tag {
    pub name: String,
    pub attrs: Vec<Attribute>,
    pub children: Vec<MarkupNode>,
}

/// A node of the markup tree.
pub enum MarkupNode {
    /// Text that is escaped when rendered.
    Text(String),
    /// Markup that is written verbatim; for trusted, fixed markup only.
    Raw(String),
    /// An element with attributes and children.
    Element(Tag),
    /// A group of siblings without a tag around them.
    Fragment(Vec<MarkupNode>),
}

/// The mathematical value of an [`Attribute`].
pub struct AttributeView {
    pub name: Seq<char>,
    pub value: Option<Seq<char>>,
}

/// The mathematical value of a [`Tag`].
pub struct TagView {
    pub name: Seq<char>,
    pub attrs: Seq<AttributeView>,
    pub children: Seq<Markup>,
}

/// The mathematical value of a [`MarkupNode`].
pub enum Markup {
    Text(Seq<char>),
    Raw(Seq<char>),
    Element(TagView),
    Fragment(Seq<Markup>),
}

impl View for Attribute {
    type V = AttributeView;

    open spec fn view(&self) -> AttributeView {
        AttributeView {
            name: self.name@,
            value: match self.value {
                Some(v) => Some(v@),
                None => None,
            },
        }
    }
}

/// The values of a run of attributes, in order.
pub open spec fn attrs_view(attrs: Seq<Attribute>) -> Seq<AttributeView> {
    Seq::new(attrs.len(), |i: int| attrs[i]@)
}

/// The value of an element.
pub open spec fn tag_view(tag: Tag) -> TagView
    decreases tag,
{
    TagView {
        name: tag.name@,
        attrs: attrs_view(tag.attrs@),
        children: nodes_view(tag.children@),
    }
}

/// The value of a node.
pub open spec fn node_view(node: MarkupNode) -> Markup
    decreases node,
{
    match node {
        MarkupNode::Text(s) => Markup::Text(s@),
        MarkupNode::Raw(s) => Markup::Raw(s@),
        MarkupNode::Element(tag) => Markup::Element(tag_view(tag)),
        MarkupNode::Fragment(children) => Markup::Fragment(nodes_view(children@)),
    }
}

/// The values of a run of nodes, in order.
pub open spec fn nodes_view(nodes: Seq<MarkupNode>) -> Seq<Markup>
    decreases nodes,
{
    if nodes.len() == 0 {
        Seq::empty()
    } else {
        nodes_view(nodes.drop_last()).push(node_view(nodes.last()))
    }
}

impl View for Tag {
    type V = TagView;

    open spec fn view(&self) -> TagView {
        tag_view(*self)
    }
}

impl View for MarkupNode {
    type V = Markup;

    open spec fn view(&self) -> Markup {
        node_view(*self)
    }
}

/// What one character of text becomes in rendered output.
pub open spec fn escape_char(c: char) -> Seq<char> {
    if c == '&' {
        "&amp;"@
    } else if c == '<' {
        "&lt;"@
    } else if c == '>' {
        "&gt;"@
    } else if c == '"' {
        "&quot;"@
    } else if c == '\'' {
        "&#x27;"@
    } else if c == '/' {
        "&#x2F;"@
    } else if c == '`' {
        "&#96;"@
    } else {
        seq![c]
    }
}

/// Text with every character replaced by its escaped form, in order.
pub open spec fn escape(s: Seq<char>) -> Seq<char>
    decreases s.len(),
{
    if s.len() == 0 {
        Seq::empty()
    } else {
        escape(s.drop_last()) + escape_char(s.last())
    }
}

/// One attribute as it stands in an opening tag: a space, the name and, where
/// there is a value, `="value"`. The value is written as it is.
pub open spec fn render_attr(attr: AttributeView) -> Seq<char> {
    match attr.value {
        Some(v) => " "@ + attr.name + "=\""@ + v + "\""@,
        None => " "@ + attr.name,
    }
}

/// The attributes of an opening tag, in the order given.
pub open spec fn render_attrs(attrs: Seq<AttributeView>) -> Seq<char>
    decreases attrs.len(),
{
    if attrs.len() == 0 {
        Seq::empty()
    } else {
        render_attrs(attrs.drop_last()) + render_attr(attrs.last())
    }
}

/// The opening tag of an element.
pub open spec fn render_open(name: Seq<char>, attrs: Seq<AttributeView>) -> Seq<char> {
    "<"@ + name + render_attrs(attrs) + ">"@
}

/// The closing tag of an element.
pub open spec fn render_close(name: Seq<char>) -> Seq<char> {
    "</"@ + name + ">"@
}

/// The text that a node renders to.
pub open spec fn render(node: Markup) -> Seq<char>
    decreases node,
{
    match node {
        Markup::Text(s) => escape(s),
        Markup::Raw(s) => s,
        Markup::Element(tag) => render_open(tag.name, tag.attrs) + render_all(tag.children)
            + render_close(tag.name),
        Markup::Fragment(children) => render_all(children),
    }
}

/// The renders of a run of nodes, one after the other.
pub open spec fn render_all(nodes: Seq<Markup>) -> Seq<char>
    decreases nodes,
{
    if nodes.len() == 0 {
        Seq::empty()
    } else {
        render_all(nodes.drop_last()) + render(nodes.last())
    }
}

/// Views commute with appending one node.
pub proof fn lemma_nodes_view_push(nodes: Seq<MarkupNode>, node: MarkupNode)
    ensures
        nodes_view(nodes.push(node)) == nodes_view(nodes).push(node_view(node)),
{
    assert(nodes.push(node).drop_last() =~= nodes);
}

/// The view of a run of nodes has one entry per node.
pub proof fn lemma_nodes_view_index(nodes: Seq<MarkupNode>)
    ensures
        nodes_view(nodes).len() == nodes.len(),
        forall|i: int| 0 <= i < nodes.len() ==> #[trigger] nodes_view(nodes)[i] == node_view(nodes[i]),
    decreases nodes.len(),
{
    if nodes.len() > 0 {
        lemma_nodes_view_index(nodes.drop_last());
    }
}

/// Appends the escaped form of `text` to `out`.
pub fn push_escaped(out: &mut String, text: &str)
    ensures
        final(out)@ == old(out)@ + escape(text@),
{
    let ghost start = out@;
    let chars = text.chars();
    proof {
        vstd::string::axiom_spec_iter(text);
        assert(start + escape(text@.take(0)) =~= start);
    }
    for c in it: chars
        invariant
            it.seq() == text@,
            out@ == start + escape(text@.take(it.index())),
    {
        proof {
            let i = it.index();
            assert(c == text@[i]);
            assert(text@.take(i + 1).drop_last() =~= text@.take(i));
            assert(start + escape(text@.take(i + 1)) =~= start + escape(text@.take(i))
                + escape_char(c));
        }
        if c == '&' {
            out.append("&amp;");
        } else if c == '<' {
            out.append("&lt;");
        } else if c == '>' {
            out.append("&gt;");
        } else if c == '"' {
            out.append("&quot;");
        } else if c == '\'' {
            out.append("&#x27;");
        } else if c == '/' {
            out.append("&#x2F;");
        } else if c == '`' {
            out.append("&#96;");
        } else {
            out.push(c);
        }
    }
    assert(text@.take(text@.len() as int) =~= text@);
}

/// The escaped form of `text`.
pub fn escape_text(text: &str) -> (s: String)
    ensures
        s@ == escape(text@),
{
    let mut s = String::new();
    push_escaped(&mut s, text);
    assert(Seq::<char>::empty() + escape(text@) =~= escape(text@));
    s
}

/// Appends the attributes of an opening tag to `out`.
fn push_attrs(out: &mut String, attrs: &Vec<Attribute>)
    ensures
        final(out)@ == old(out)@ + render_attrs(attrs_view(attrs@)),
{
    let ghost start = out@;
    let ghost all = attrs_view(attrs@);
    assert(start + render_attrs(all.take(0)) =~= start);
    for i in 0..attrs.len()
        invariant
            all == attrs_view(attrs@),
            out@ == start + render_attrs(all.take(i as int)),
    {
        let attr = &attrs[i];
        let ghost before = out@;
        out.append(" ");
        out.append(attr.name.as_str());
        match &attr.value {
            Some(v) => {
                out.append("=\"");
                out.append(v.as_str());
                out.append("\"");
            },
            None => {},
        }
        proof {
            assert(all[i as int] == attr@);
            assert(out@ =~= before + render_attr(attr@));
            assert(all.take(i + 1).drop_last() =~= all.take(i as int));
            assert(start + render_attrs(all.take(i + 1)) =~= start + render_attrs(
                all.take(i as int),
            ) + render_attr(attr@));
        }
    }
    assert(all.take(attrs.len() as int) =~= all);
}

impl MarkupNode {
    /// Appends the render of this node to `out`.
    pub fn render_into(&self, out: &mut String)
        ensures
            final(out)@ == old(out)@ + render(self@),
        decreases self, 0nat,
    {
        match self {
            MarkupNode::Text(s) => {
                push_escaped(out, s.as_str());
            },
            MarkupNode::Raw(s) => {
                out.append(s.as_str());
            },
            MarkupNode::Element(tag) => {
                let ghost start = out@;
                out.append("<");
                out.append(tag.name.as_str());
                push_attrs(out, &tag.attrs);
                out.append(">");
                assert(out@ =~= start + render_open(tag@.name, tag@.attrs));
                render_nodes_into(&tag.children, out);
                out.append("</");
                out.append(tag.name.as_str());
                out.append(">");
                assert(out@ =~= start + render(self@));
            },
            MarkupNode::Fragment(children) => {
                render_nodes_into(children, out);
            },
        }
    }

    /// The text of this node: escaped text, verbatim raw markup, elements as
    /// open tag, children and close tag, fragments as their children.
    pub fn render_to_string(&self) -> (s: String)
        ensures
            s@ == render(self@),
    {
        let mut s = String::new();
        self.render_into(&mut s);
        assert(Seq::<char>::empty() + render(self@) =~= render(self@));
        s
    }
}

/// Appends the renders of `nodes`, in order, to `out`.
pub fn render_nodes_into(nodes: &Vec<MarkupNode>, out: &mut String)
    ensures
        final(out)@ == old(out)@ + render_all(nodes_view(nodes@)),
    decreases nodes, 1nat,
{
    let ghost start = out@;
    let ghost all = nodes_view(nodes@);
    proof {
        lemma_nodes_view_index(nodes@);
        assert(start + render_all(all.take(0)) =~= start);
    }
    for i in 0..nodes.len()
        invariant
            all == nodes_view(nodes@),
            all.len() == nodes.len(),
            forall|j: int| 0 <= j < nodes.len() ==> #[trigger] all[j] == node_view(nodes@[j]),
            out@ == start + render_all(all.take(i as int)),
    {
        nodes[i].render_into(out);
        proof {
            assert(all.take(i + 1).drop_last() =~= all.take(i as int));
            assert(start + render_all(all.take(i + 1)) =~= start + render_all(all.take(i as int))
                + render(all[i as int]));
        }
    }
    assert(all.take(nodes.len() as int) =~= all);
}

impl TagView {
    /// An element without attributes or children.
    pub open spec fn named(name: Seq<char>) -> TagView {
        TagView { name: name, attrs: Seq::empty(), children: Seq::empty() }
    }

    /// This element with one more attribute `key="val"`.
    pub open spec fn attr(self, key: Seq<char>, val: Seq<char>) -> TagView {
        TagView {
            attrs: self.attrs.push(AttributeView { name: key, value: Some(val) }),
            ..self
        }
    }

    /// This element with one more attribute without a value.
    pub open spec fn attr1(self, key: Seq<char>) -> TagView {
        TagView { attrs: self.attrs.push(AttributeView { name: key, value: None }), ..self }
    }

    /// This element with one more child.
    pub open spec fn child(self, node: Markup) -> TagView {
        TagView { children: self.children.push(node), ..self }
    }

    /// This element with more children.
    pub open spec fn children(self, nodes: Seq<Markup>) -> TagView {
        TagView { children: self.children + nodes, ..self }
    }

    /// This element with one more child, a text node.
    pub open spec fn text(self, s: Seq<char>) -> TagView {
        self.child(Markup::Text(s))
    }

    /// This element as a node.
    pub open spec fn node(self) -> Markup {
        Markup::Element(self)
    }

    /// This element with one more attribute `class`.
    pub open spec fn class(self, val: Seq<char>) -> TagView {
        self.attr("class"@, val)
    }

    /// This element with one more attribute `id`.
    pub open spec fn id(self, val: Seq<char>) -> TagView {
        self.attr("id"@, val)
    }

    /// This element with one more attribute `name`.
    pub open spec fn name(self, val: Seq<char>) -> TagView {
        self.attr("name"@, val)
    }

    /// This element with one more attribute `value`.
    pub open spec fn value(self, val: Seq<char>) -> TagView {
        self.attr("value"@, val)
    }

    /// This element with one more attribute `href`.
    pub open spec fn href(self, val: Seq<char>) -> TagView {
        self.attr("href"@, val)
    }

    /// This element with one more attribute `rel`.
    pub open spec fn rel(self, val: Seq<char>) -> TagView {
        self.attr("rel"@, val)
    }

    /// This element with one more attribute `src`.
    pub open spec fn src(self, val: Seq<char>) -> TagView {
        self.attr("src"@, val)
    }

    /// This element with one more attribute `charset`.
    pub open spec fn charset(self, val: Seq<char>) -> TagView {
        self.attr("charset"@, val)
    }

    /// This element with one more attribute `content`.
    pub open spec fn content(self, val: Seq<char>) -> TagView {
        self.attr("content"@, val)
    }

    /// This element with one more attribute `method`.
    pub open spec fn method(self, val: Seq<char>) -> TagView {
        self.attr("method"@, val)
    }

    /// This element with one more attribute `action`.
    pub open spec fn action(self, val: Seq<char>) -> TagView {
        self.attr("action"@, val)
    }

    /// This element with one more attribute `type`.
    pub open spec fn type_(self, val: Seq<char>) -> TagView {
        self.attr("type"@, val)
    }

    /// This element with one more attribute `for`.
    pub open spec fn for_(self, val: Seq<char>) -> TagView {
        self.attr("for"@, val)
    }

    /// This element with one more attribute `defer`, which has no value.
    pub open spec fn defer(self) -> TagView {
        self.attr1("defer"@)
    }
}

/// Views commute with joining two runs of nodes.
pub proof fn lemma_nodes_view_concat(a: Seq<MarkupNode>, b: Seq<MarkupNode>)
    ensures
        nodes_view(a + b) == nodes_view(a) + nodes_view(b),
    decreases b.len(),
{
    if b.len() == 0 {
        assert(a + b =~= a);
        assert(nodes_view(a) + nodes_view(b) =~= nodes_view(a));
    } else {
        lemma_nodes_view_concat(a, b.drop_last());
        assert((a + b).drop_last() =~= a + b.drop_last());
        assert((a + b).last() == b.last());
        assert(nodes_view(a + b) =~= nodes_view(a) + nodes_view(b));
    }
}

/// A text node: `s` is escaped when the tree is rendered.
pub fn text(s: &str) -> (node: MarkupNode)
    ensures
        node@ == Markup::Text(s@),
{
    MarkupNode::Text(String::from_str(s))
}

/// A raw node: `s` is written as it is. Only for trusted, fixed markup.
pub fn raw(s: &str) -> (node: MarkupNode)
    ensures
        node@ == Markup::Raw(s@),
{
    MarkupNode::Raw(String::from_str(s))
}

/// The markup of a document type declaration.
pub open spec fn doctype_view(t: Seq<char>) -> Markup {
    Markup::Raw("<!DOCTYPE "@ + t + ">"@)
}

/// A document type declaration, `<!DOCTYPE t>`.
pub fn doctype(t: &str) -> (node: MarkupNode)
    ensures
        node@ == doctype_view(t@),
{
    let mut s = String::from_str("<!DOCTYPE ");
    s.append(t);
    s.append(">");
    MarkupNode::Raw(s)
}

/// The markup of a number.
pub open spec fn number_view(n: nat) -> Markup {
    Markup::Raw(decimal(n))
}

/// A number, written in decimal.
pub fn number(n: u64) -> (node: MarkupNode)
    ensures
        node@ == number_view(n as nat),
{
    MarkupNode::Raw(u64_to_string(n))
}

/// A group of siblings without a tag around them.
pub fn fragment(children: Vec<MarkupNode>) -> (node: MarkupNode)
    ensures
        node@ == Markup::Fragment(nodes_view(children@)),
{
    MarkupNode::Fragment(children)
}

/// An element named `name`, so far without attributes or children.
pub fn tag(name: &str) -> (t: Tag)
    ensures
        t@ == TagView::named(name@),
{
    let t = Tag { name: String::from_str(name), attrs: Vec::new(), children: Vec::new() };
    assert(t@.attrs =~= Seq::empty());
    t
}

impl Tag {
    /// Adds the attribute `key="val"` after those already there. The value
    /// is written as it is when the tree is rendered.
    pub fn attr(self, key: &str, val: &str) -> (t: Tag)
        ensures
            t@ == self@.attr(key@, val@),
    {
        let mut attrs = self.attrs;
        attrs.push(Attribute { name: String::from_str(key), value: Some(String::from_str(val)) });
        let t = Tag { name: self.name, attrs, children: self.children };
        assert(t@.attrs =~= self@.attr(key@, val@).attrs);
        t
    }

    /// Adds the attribute `key`, which has no value, after those already
    /// there.
    pub fn attr1(self, key: &str) -> (t: Tag)
        ensures
            t@ == self@.attr1(key@),
    {
        let mut attrs = self.attrs;
        attrs.push(Attribute { name: String::from_str(key), value: None });
        let t = Tag { name: self.name, attrs, children: self.children };
        assert(t@.attrs =~= self@.attr1(key@).attrs);
        t
    }

    /// Adds `node` after the children already there.
    pub fn child(self, node: MarkupNode) -> (t: Tag)
        ensures
            t@ == self@.child(node@),
    {
        let ghost before = self.children@;
        let ghost added = node;
        let mut children = self.children;
        children.push(node);
        proof {
            lemma_nodes_view_push(before, added);
        }
        Tag { name: self.name, attrs: self.attrs, children }
    }

    /// Adds `nodes`, in order, after the children already there.
    pub fn children(self, nodes: Vec<MarkupNode>) -> (t: Tag)
        ensures
            t@ == self@.children(nodes_view(nodes@)),
    {
        let ghost before = self.children@;
        let ghost added = nodes@;
        let mut children = self.children;
        let mut nodes = nodes;
        children.append(&mut nodes);
        proof {
            lemma_nodes_view_concat(before, added);
        }
        Tag { name: self.name, attrs: self.attrs, children }
    }

    /// Adds a text node after the children already there.
    pub fn text(self, s: &str) -> (t: Tag)
        ensures
            t@ == self@.text(s@),
    {
        self.child(text(s))
    }

    /// This element as a node of the tree.
    pub fn node(self) -> (node: MarkupNode)
        ensures
            node@ == self@.node(),
    {
        MarkupNode::Element(self)
    }

    /// Adds the attribute `class`.
    pub fn class(self, val: &str) -> (t: Tag)
        ensures
            t@ == self@.class(val@),
    {
        self.attr("class", val)
    }

    /// Adds the attribute `id`.
    pub fn id(self, val: &str) -> (t: Tag)
        ensures
            t@ == self@.id(val@),
    {
        self.attr("id", val)
    }

    /// Adds the attribute `name`.
    pub fn name(self, val: &str) -> (t: Tag)
        ensures
            t@ == self@.name(val@),
    {
        self.attr("name", val)
    }

    /// Adds the attribute `value`.
    pub fn value(self, val: &str) -> (t: Tag)
        ensures
            t@ == self@.value(val@),
    {
        self.attr("value", val)
    }

    /// Adds the attribute `href`.
    pub fn href(self, val: &str) -> (t: Tag)
        ensures
            t@ == self@.href(val@),
    {
        self.attr("href", val)
    }

    /// Adds the attribute `rel`.
    pub fn rel(self, val: &str) -> (t: Tag)
        ensures
            t@ == self@.rel(val@),
    {
        self.attr("rel", val)
    }

    /// Adds the attribute `src`.
    pub fn src(self, val: &str) -> (t: Tag)
        ensures
            t@ == self@.src(val@),
    {
        self.attr("src", val)
    }

    /// Adds the attribute `charset`.
    pub fn charset(self, val: &str) -> (t: Tag)
        ensures
            t@ == self@.charset(val@),
    {
        self.attr("charset", val)
    }

    /// Adds the attribute `content`.
    pub fn content(self, val: &str) -> (t: Tag)
        ensures
            t@ == self@.content(val@),
    {
        self.attr("content", val)
    }

    /// Adds the attribute `method`.
    pub fn method(self, val: &str) -> (t: Tag)
        ensures
            t@ == self@.method(val@),
    {
        self.attr("method", val)
    }

    /// Adds the attribute `action`.
    pub fn action(self, val: &str) -> (t: Tag)
        ensures
            t@ == self@.action(val@),
    {
        self.attr("action", val)
    }

    /// Adds the attribute `type`.
    pub fn type_(self, val: &str) -> (t: Tag)
        ensures
            t@ == self@.type_(val@),
    {
        self.attr("type", val)
    }

    /// Adds the attribute `for`.
    pub fn for_(self, val: &str) -> (t: Tag)
        ensures
            t@ == self@.for_(val@),
    {
        self.attr("for", val)
    }

    /// Adds the attribute `defer`, which has no value.
    pub fn defer(self) -> (t: Tag)
        ensures
            t@ == self@.defer(),
    {
        self.attr1("defer")
    }
}

/// Escaped text holds none of the characters that open or close a tag, an
/// attribute value or an entity of its own; so a text node can never add
/// markup to the page.
pub proof fn lemma_text_is_inert(s: Seq<char>)
    ensures
        forall|i: int|
            0 <= i < render(Markup::Text(s)).len() ==> {
                let c = #[trigger] render(Markup::Text(s))[i];
                c != '<' && c != '>' && c != '"' && c != '\'' && c != '/' && c != '`'
            },
    decreases s.len(),
{
    reveal_strlit("&amp;");
    reveal_strlit("&lt;");
    reveal_strlit("&gt;");
    reveal_strlit("&quot;");
    reveal_strlit("&#x27;");
    reveal_strlit("&#x2F;");
    reveal_strlit("&#96;");
    if s.len() > 0 {
        lemma_text_is_inert(s.drop_last());
        let head = escape(s.drop_last());
        let tail = escape_char(s.last());
        assert forall|i: int| 0 <= i < escape(s).len() implies {
            let c = #[trigger] escape(s)[i];
            c != '<' && c != '>' && c != '"' && c != '\'' && c != '/' && c != '`'
        } by {
            if i < head.len() {
                assert(escape(s)[i] == render(Markup::Text(s.drop_last()))[i]);
            } else {
                assert(escape(s)[i] == tail[i - head.len()]);
            }
        }
    }
}

/// Rendering is a function of the tree alone: whatever two calls of
/// [`MarkupNode::render_to_string`] on one tree give, the two texts are the
/// same, character for character.
pub proof fn lemma_render_is_deterministic(node: MarkupNode, first: String, second: String)
    requires
        call_ensures(MarkupNode::render_to_string, (&node,), first),
        call_ensures(MarkupNode::render_to_string, (&node,), second),
    ensures
        first@ == second@,
{
}

/// Two runs of nodes, one after the other, render to the render of the
/// first followed by the render of the second.
pub proof fn lemma_render_all_concat(a: Seq<Markup>, b: Seq<Markup>)
    ensures
        render_all(a + b) == render_all(a) + render_all(b),
    decreases b.len(),
{
    if b.len() == 0 {
        assert(a + b =~= a);
        assert(render_all(a) + render_all(b) =~= render_all(a));
    } else {
        lemma_render_all_concat(a, b.drop_last());
        assert((a + b).drop_last() =~= a + b.drop_last());
        assert((a + b).last() == b.last());
        assert(render_all(a + b) =~= render_all(a) + render_all(b));
    }
}

/// A fragment adds nothing of its own: among its siblings it renders as
/// its children would in its place.
pub proof fn lemma_fragment_flattens(before: Seq<Markup>, inner: Seq<Markup>, after: Seq<Markup>)
    ensures
        render_all(before.push(Markup::Fragment(inner)) + after) == render_all(
            before + inner + after,
        ),
{
    let wrapped = before.push(Markup::Fragment(inner));
    lemma_render_all_concat(wrapped, after);
    lemma_render_all_concat(before + inner, after);
    lemma_render_all_concat(before, inner);
    assert(wrapped.drop_last() =~= before);
    assert(wrapped.last() == Markup::Fragment(inner));
    assert(render_all(wrapped) == render_all(before) + render(Markup::Fragment(inner)));
    assert(render(Markup::Fragment(inner)) == render_all(inner));
}

/// A raw node renders to exactly its content.
pub proof fn lemma_raw_is_verbatim(s: Seq<char>)
    ensures
        render(Markup::Raw(s)) == s,
{
}

} // verus!
