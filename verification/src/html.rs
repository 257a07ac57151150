//! A small builder of HTML: elements with attributes and children, and
//! their text.
use vstd::prelude::*;

verus! {

/// A child of an element: an element of its own, or text.
pub enum Node {
    HTML(Element),
    Text(String),
}

/// The attributes of an element, each name once, in the order in which they
/// were first set.
pub type Attributes = Vec<(String, String)>;

/// An element: its tag, its attributes and its children.
pub struct Element {
    pub tag: &'static str,
    pub attrs: Attributes,
    pub children: Vec<Node>,
    empty: bool,
}

/// What a [`Node`] says.
pub enum NodeView {
    HTML(ElementView),
    Text(Seq<char>),
}

/// What an [`Element`] says: its tag, its attributes as pairs of name and
/// value, its children, and whether it is an element that never has children.
pub struct ElementView {
    pub tag: Seq<char>,
    pub attrs: Seq<(Seq<char>, Seq<char>)>,
    pub children: Seq<NodeView>,
    pub void: bool,
}

/// What the attributes `attrs` say.
pub open spec fn attrs_view(attrs: Seq<(String, String)>) -> Seq<(Seq<char>, Seq<char>)> {
    attrs.map_values(|a: (String, String)| (a.0@, a.1@))
}

/// What the nodes `nodes` say, one after the other.
pub open spec fn nodes_view(nodes: Seq<Node>) -> Seq<NodeView>
    decreases nodes,
{
    if nodes.len() == 0 {
        Seq::empty()
    } else {
        nodes_view(nodes.drop_last()).push(node_view(nodes.last()))
    }
}

/// What the node `node` says.
pub open spec fn node_view(node: Node) -> NodeView
    decreases node,
{
    match node {
        Node::HTML(e) => NodeView::HTML(element_view(e)),
        Node::Text(s) => NodeView::Text(s@),
    }
}

/// What the element `e` says.
pub closed spec fn element_view(e: Element) -> ElementView
    decreases e,
{
    ElementView {
        tag: e.tag@,
        attrs: attrs_view(e.attrs@),
        children: nodes_view(e.children@),
        void: e.empty,
    }
}

impl View for Node {
    type V = NodeView;

    open spec fn view(&self) -> NodeView {
        node_view(*self)
    }
}

impl View for Element {
    type V = ElementView;

    open spec fn view(&self) -> ElementView {
        element_view(*self)
    }
}

/// Nodes say, one after the other, what each of them says.
pub proof fn lemma_nodes_view(nodes: Seq<Node>)
    ensures
        nodes_view(nodes).len() == nodes.len(),
        forall|i: int| 0 <= i < nodes.len() ==> (#[trigger] nodes_view(nodes)[i]) == nodes[i]@,
    decreases nodes.len(),
{
    if nodes.len() > 0 {
        lemma_nodes_view(nodes.drop_last());
    }
}

/// One node more says one thing more.
pub proof fn lemma_nodes_view_push(nodes: Seq<Node>, node: Node)
    ensures
        nodes_view(nodes.push(node)) == nodes_view(nodes).push(node@),
{
    assert(nodes.push(node).drop_last() =~= nodes);
}

// ---------------------------------------------------------------------------
// The text of an element

/// The tags of the elements that never have children.
pub open spec fn is_void_tag(tag: Seq<char>) -> bool {
    ||| tag == "area"@
    ||| tag == "base"@
    ||| tag == "br"@
    ||| tag == "col"@
    ||| tag == "embed"@
    ||| tag == "hr"@
    ||| tag == "img"@
    ||| tag == "input"@
    ||| tag == "link"@
    ||| tag == "meta"@
    ||| tag == "param"@
    ||| tag == "source"@
    ||| tag == "track"@
    ||| tag == "wbr"@
}

/// Of the known elements only `meta` never has children.
pub proof fn lemma_known_tags()
    ensures
        is_void_tag("meta"@),
        !is_void_tag("html"@),
        !is_void_tag("head"@),
        !is_void_tag("title"@),
        !is_void_tag("body"@),
        !is_void_tag("div"@),
        !is_void_tag("span"@),
        !is_void_tag("em"@),
        !is_void_tag("table"@),
        !is_void_tag("tr"@),
        !is_void_tag("td"@),
        !is_void_tag("code"@),
        !is_void_tag("h1"@),
        !is_void_tag("h2"@),
        !is_void_tag("h3"@),
        !is_void_tag("h4"@),
        !is_void_tag("style"@),
        !is_void_tag("a"@),
        !is_void_tag("ul"@),
        !is_void_tag("ol"@),
        !is_void_tag("li"@),
        !is_void_tag("p"@),
        !is_void_tag("details"@),
        !is_void_tag("summary"@),
{
    reveal_strlit("area");
    reveal_strlit("base");
    reveal_strlit("br");
    reveal_strlit("col");
    reveal_strlit("embed");
    reveal_strlit("hr");
    reveal_strlit("img");
    reveal_strlit("input");
    reveal_strlit("link");
    reveal_strlit("meta");
    reveal_strlit("param");
    reveal_strlit("source");
    reveal_strlit("track");
    reveal_strlit("wbr");
    reveal_strlit("html");
    reveal_strlit("head");
    reveal_strlit("title");
    reveal_strlit("body");
    reveal_strlit("div");
    reveal_strlit("span");
    reveal_strlit("em");
    reveal_strlit("table");
    reveal_strlit("tr");
    reveal_strlit("td");
    reveal_strlit("code");
    reveal_strlit("h1");
    reveal_strlit("h2");
    reveal_strlit("h3");
    reveal_strlit("h4");
    reveal_strlit("style");
    reveal_strlit("a");
    reveal_strlit("ul");
    reveal_strlit("ol");
    reveal_strlit("li");
    reveal_strlit("p");
    reveal_strlit("details");
    reveal_strlit("summary");
    assert("area"@.len() == 4);
    assert("base"@.len() == 4);
    assert("br"@.len() == 2);
    assert("col"@.len() == 3);
    assert("embed"@.len() == 5);
    assert("hr"@.len() == 2);
    assert("img"@.len() == 3);
    assert("input"@.len() == 5);
    assert("link"@.len() == 4);
    assert("meta"@.len() == 4);
    assert("param"@.len() == 5);
    assert("source"@.len() == 6);
    assert("track"@.len() == 5);
    assert("wbr"@.len() == 3);
    assert("html"@.len() == 4);
    assert("head"@.len() == 4);
    assert("title"@.len() == 5);
    assert("body"@.len() == 4);
    assert("div"@.len() == 3);
    assert("span"@.len() == 4);
    assert("em"@.len() == 2);
    assert("table"@.len() == 5);
    assert("tr"@.len() == 2);
    assert("td"@.len() == 2);
    assert("code"@.len() == 4);
    assert("h1"@.len() == 2);
    assert("h2"@.len() == 2);
    assert("h3"@.len() == 2);
    assert("h4"@.len() == 2);
    assert("style"@.len() == 5);
    assert("a"@.len() == 1);
    assert("ul"@.len() == 2);
    assert("ol"@.len() == 2);
    assert("li"@.len() == 2);
    assert("p"@.len() == 1);
    assert("details"@.len() == 7);
    assert("summary"@.len() == 7);
    assert("html"@[0] != "area"@[0]);
    assert("html"@[0] != "base"@[0]);
    assert("html"@[0] != "link"@[0]);
    assert("html"@[0] != "meta"@[0]);
    assert("head"@[0] != "area"@[0]);
    assert("head"@[0] != "base"@[0]);
    assert("head"@[0] != "link"@[0]);
    assert("head"@[0] != "meta"@[0]);
    assert("title"@[0] != "embed"@[0]);
    assert("title"@[0] != "input"@[0]);
    assert("title"@[0] != "param"@[0]);
    assert("title"@[1] != "track"@[1]);
    assert("body"@[0] != "area"@[0]);
    assert("body"@[1] != "base"@[1]);
    assert("body"@[0] != "link"@[0]);
    assert("body"@[0] != "meta"@[0]);
    assert("div"@[0] != "col"@[0]);
    assert("div"@[0] != "img"@[0]);
    assert("div"@[0] != "wbr"@[0]);
    assert("span"@[0] != "area"@[0]);
    assert("span"@[0] != "base"@[0]);
    assert("span"@[0] != "link"@[0]);
    assert("span"@[0] != "meta"@[0]);
    assert("em"@[0] != "br"@[0]);
    assert("em"@[0] != "hr"@[0]);
    assert("table"@[0] != "embed"@[0]);
    assert("table"@[0] != "input"@[0]);
    assert("table"@[0] != "param"@[0]);
    assert("table"@[1] != "track"@[1]);
    assert("tr"@[0] != "br"@[0]);
    assert("tr"@[0] != "hr"@[0]);
    assert("td"@[0] != "br"@[0]);
    assert("td"@[0] != "hr"@[0]);
    assert("code"@[0] != "area"@[0]);
    assert("code"@[0] != "base"@[0]);
    assert("code"@[0] != "link"@[0]);
    assert("code"@[0] != "meta"@[0]);
    assert("h1"@[0] != "br"@[0]);
    assert("h1"@[1] != "hr"@[1]);
    assert("h2"@[0] != "br"@[0]);
    assert("h2"@[1] != "hr"@[1]);
    assert("h3"@[0] != "br"@[0]);
    assert("h3"@[1] != "hr"@[1]);
    assert("h4"@[0] != "br"@[0]);
    assert("h4"@[1] != "hr"@[1]);
    assert("style"@[0] != "embed"@[0]);
    assert("style"@[0] != "input"@[0]);
    assert("style"@[0] != "param"@[0]);
    assert("style"@[0] != "track"@[0]);
    assert("ul"@[0] != "br"@[0]);
    assert("ul"@[0] != "hr"@[0]);
    assert("ol"@[0] != "br"@[0]);
    assert("ol"@[0] != "hr"@[0]);
    assert("li"@[0] != "br"@[0]);
    assert("li"@[0] != "hr"@[0]);
}

/// The text of the attributes `attrs`: for each a space, the name, `="`,
/// the value and `"`.
pub open spec fn attrs_text(attrs: Seq<(Seq<char>, Seq<char>)>) -> Seq<char>
    decreases attrs.len(),
{
    if attrs.len() == 0 {
        Seq::empty()
    } else {
        attrs_text(attrs.drop_last()) + " "@ + attrs.last().0 + "=\""@ + attrs.last().1 + "\""@
    }
}

/// The text of the node `node`: that of the element, or the text as it is.
pub open spec fn node_text(node: NodeView) -> Seq<char>
    decreases node,
{
    match node {
        NodeView::HTML(e) => element_text(e),
        NodeView::Text(s) => s,
    }
}

/// The texts of `nodes`, with a line break between one and the next.
pub open spec fn nodes_text(nodes: Seq<NodeView>) -> Seq<char>
    decreases nodes,
{
    if nodes.len() == 0 {
        Seq::empty()
    } else if nodes.len() == 1 {
        node_text(nodes.last())
    } else {
        nodes_text(nodes.drop_last()) + "\n"@ + node_text(nodes.last())
    }
}

/// The text of the element `e`: its opening tag with the attributes, then,
/// unless it is void and has no children, its children and its closing tag.
pub open spec fn element_text(e: ElementView) -> Seq<char>
    decreases e,
{
    let opening = "<"@ + e.tag + attrs_text(e.attrs) + ">"@;
    if e.children.len() > 0 {
        opening + nodes_text(e.children) + "</"@ + e.tag + ">"@
    } else if e.void {
        opening
    } else {
        opening + "</"@ + e.tag + ">"@
    }
}

impl Node {
    /// The text of this node.
    pub fn as_string(&self) -> (text: String)
        ensures
            text@ == node_text(self@),
    {
        match self {
            Node::HTML(e) => e.as_string(),
            Node::Text(s) => s.clone(),
        }
    }
}

/// Whether two texts are the same.
pub fn str_eq(a: &str, b: &str) -> (same: bool)
    ensures
        same == (a@ == b@),
{
    let x = String::from_str(a);
    let y = String::from_str(b);
    x == y
}

/// Whether `tag` is the tag of an element that never has children.
fn is_empty(tag: &'static str) -> (void: bool)
    ensures
        void == is_void_tag(tag@),
{
    let t = String::from_str(tag);
    t == String::from_str("area") || t == String::from_str("base") || t == String::from_str("br")
        || t == String::from_str("col") || t == String::from_str("embed") || t
        == String::from_str("hr") || t == String::from_str("img") || t == String::from_str("input")
        || t == String::from_str("link") || t == String::from_str("meta") || t
        == String::from_str("param") || t == String::from_str("source") || t == String::from_str(
        "track",
    ) || t == String::from_str("wbr")
}

/// The text of the attributes `attrs`.
fn attrs_as_string(attrs: &Attributes) -> (text: String)
    ensures
        text@ == attrs_text(attrs_view(attrs@)),
{
    let mut text = String::new();
    let mut i: usize = 0;
    assert(attrs_view(attrs@).take(0) =~= Seq::empty());
    while i < attrs.len()
        invariant
            i <= attrs.len(),
            text@ == attrs_text(attrs_view(attrs@).take(i as int)),
        decreases attrs.len() - i,
    {
        proof {
            let all = attrs_view(attrs@);
            assert(all.take(i + 1).drop_last() =~= all.take(i as int));
            assert(all.take(i + 1).last() == (attrs@[i as int].0@, attrs@[i as int].1@));
        }
        text.append(" ");
        text.append(attrs[i].0.as_str());
        text.append("=\"");
        text.append(attrs[i].1.as_str());
        text.append("\"");
        i = i + 1;
    }
    proof {
        assert(attrs_view(attrs@).take(i as int) =~= attrs_view(attrs@));
    }
    text
}

// ---------------------------------------------------------------------------
// Attributes

/// Some attribute of `attrs` has the name `key`.
pub open spec fn has_attr(attrs: Seq<(Seq<char>, Seq<char>)>, key: Seq<char>) -> bool {
    exists|i: int| 0 <= i < attrs.len() && (#[trigger] attrs[i]).0 == key
}

/// The attributes `attrs` with `key` set to `val`: in the place where `key`
/// stands already, or else at the end.
pub open spec fn with_attr(attrs: Seq<(Seq<char>, Seq<char>)>, key: Seq<char>, val: Seq<char>) -> Seq<
    (Seq<char>, Seq<char>),
> {
    if has_attr(attrs, key) {
        attrs.map_values(
            |a: (Seq<char>, Seq<char>)|
                if a.0 == key {
                    (key, val)
                } else {
                    a
                },
        )
    } else {
        attrs.push((key, val))
    }
}

/// The value of the first attribute of `attrs` with the name `key`.
pub open spec fn attr_value(attrs: Seq<(Seq<char>, Seq<char>)>, key: Seq<char>) -> Option<
    Seq<char>,
>
    decreases attrs.len(),
{
    if attrs.len() == 0 {
        None
    } else if attrs[0].0 == key {
        Some(attrs[0].1)
    } else {
        attr_value(attrs.skip(1), key)
    }
}

/// No name stands twice among `attrs`.
pub open spec fn names_once(attrs: Seq<(Seq<char>, Seq<char>)>) -> bool {
    forall|i: int, j: int|
        0 <= i < attrs.len() && 0 <= j < attrs.len() && i != j ==> (#[trigger] attrs[i]).0 != (
        #[trigger] attrs[j]).0
}

/// A name has a value among `attrs` exactly where an attribute has that name.
pub proof fn lemma_attr_value_is_some(attrs: Seq<(Seq<char>, Seq<char>)>, key: Seq<char>)
    ensures
        attr_value(attrs, key) is Some <==> has_attr(attrs, key),
    decreases attrs.len(),
{
    if attrs.len() > 0 {
        let rest = attrs.skip(1);
        lemma_attr_value_is_some(rest, key);
        if attrs[0].0 != key {
            if has_attr(rest, key) {
                let i = choose|i: int| 0 <= i < rest.len() && (#[trigger] rest[i]).0 == key;
                assert(attrs[i + 1].0 == key);
            }
            if has_attr(attrs, key) {
                let i = choose|i: int| 0 <= i < attrs.len() && (#[trigger] attrs[i]).0 == key;
                assert(rest[i - 1].0 == key);
            }
        }
    }
}

/// Attributes are a map from names to values, in the order in which the
/// names were first set. Once `key` is set to `val`, `key` has the value
/// `val` and every other name the value it had; no name is lost, and where
/// no name stood twice, none does.
pub proof fn lemma_with_attr(
    attrs: Seq<(Seq<char>, Seq<char>)>,
    key: Seq<char>,
    val: Seq<char>,
    other: Seq<char>,
)
    ensures
        attr_value(with_attr(attrs, key, val), key) == Some(val),
        other != key ==> attr_value(with_attr(attrs, key, val), other) == attr_value(attrs, other),
        with_attr(attrs, key, val).len() == if has_attr(attrs, key) {
            attrs.len()
        } else {
            attrs.len() + 1
        },
        forall|i: int| 0 <= i < attrs.len() ==> (#[trigger] with_attr(attrs, key, val)[i]).0 == attrs[i].0,
        names_once(attrs) ==> names_once(with_attr(attrs, key, val)),
    decreases attrs.len(),
{
    let set = with_attr(attrs, key, val);
    if attrs.len() == 0 {
        assert(set.skip(1) =~= attrs);
        assert(attr_value(set.skip(1), other) is None);
        assert(!has_attr(attrs, key));
        assert(set[0] == (key, val));
    } else {
        let rest = attrs.skip(1);
        lemma_with_attr(rest, key, val, other);
        lemma_attr_value_is_some(attrs, key);
        lemma_attr_value_is_some(rest, key);
        if has_attr(rest, key) {
            let i = choose|i: int| 0 <= i < rest.len() && (#[trigger] rest[i]).0 == key;
            assert(attrs[i + 1].0 == key);
        }
        if has_attr(attrs, key) && attrs[0].0 != key {
            let i = choose|i: int| 0 <= i < attrs.len() && (#[trigger] attrs[i]).0 == key;
            assert(rest[i - 1].0 == key);
        }
        if has_attr(attrs, key) {
            assert(set[0].0 == attrs[0].0);
            if attrs[0].0 != key || has_attr(rest, key) {
                assert(set.skip(1) =~= with_attr(rest, key, val));
            } else {
                assert forall|i: int| 0 <= i < rest.len() implies set.skip(1)[i] == rest[i] by {
                    assert(rest[i].0 != key);
                }
                assert(set.skip(1) =~= rest);
            }
        } else {
            assert(set.skip(1) =~= with_attr(rest, key, val));
        }
        assert forall|i: int, j: int|
            names_once(attrs) && 0 <= i < set.len() && 0 <= j < set.len() && i != j implies (
        #[trigger] set[i]).0 != (#[trigger] set[j]).0 by {
            if i < attrs.len() && j < attrs.len() {
                assert(attrs[i].0 != attrs[j].0);
            } else if i < attrs.len() {
                assert(attrs[i].0 != key);
            } else if j < attrs.len() {
                assert(attrs[j].0 != key);
            }
        }
    }
}

/// The class that an element with the attributes `attrs` has once `val` is
/// added: `val` alone, or the class it had, a space and `val`.
pub open spec fn added_class(attrs: Seq<(Seq<char>, Seq<char>)>, val: Seq<char>) -> Seq<char> {
    match attr_value(attrs, "class"@) {
        None => val,
        Some(class) => class + " "@ + val,
    }
}

impl Element {
    /// An element with the tag `tag`, without attributes or children.
    pub fn new(tag: &'static str) -> (e: Element)
        ensures
            e@ == (ElementView {
                tag: tag@,
                attrs: Seq::empty(),
                children: Seq::empty(),
                void: is_void_tag(tag@),
            }),
    {
        let e = Element { tag, attrs: Vec::new(), children: Vec::new(), empty: is_empty(tag) };
        assert(attrs_view(e.attrs@) =~= Seq::empty());
        e
    }

    /// This element with the attribute `key` set to `val`.
    pub fn set(self, key: &str, val: &str) -> (e: Element)
        ensures
            e@ == (ElementView { attrs: with_attr(self@.attrs, key@, val@), ..self@ }),
    {
        let mut e = self;
        let name = String::from_str(key);
        let ghost had = attrs_view(e.attrs@);
        let mut found = false;
        let mut i: usize = 0;
        while i < e.attrs.len()
            invariant
                i <= e.attrs.len(),
                name@ == key@,
                e.attrs.len() == had.len(),
                e.tag == self.tag,
                e.children == self.children,
                e.empty == self.empty,
                found <==> has_attr(had.take(i as int), key@),
                forall|j: int|
                    0 <= j < i ==> (#[trigger] attrs_view(e.attrs@)[j]) == if had[j].0 == key@ {
                        (key@, val@)
                    } else {
                        had[j]
                    },
                forall|j: int| i <= j < had.len() ==> (#[trigger] attrs_view(e.attrs@)[j]) == had[j],
            decreases e.attrs.len() - i,
        {
            let ghost before = attrs_view(e.attrs@);
            proof {
                assert(forall|j: int| 0 <= j < i ==> had.take(i as int)[j] == had.take(i + 1)[j]);
                assert(had.take(i + 1)[i as int] == had[i as int]);
                assert(before[i as int] == had[i as int]);
            }
            if e.attrs[i].0 == name {
                e.attrs[i] = (String::from_str(key), String::from_str(val));
                found = true;
                assert(has_attr(had.take(i + 1), key@)) by {
                    assert(had.take(i + 1)[i as int].0 == key@);
                }
            } else {
                proof {
                    if has_attr(had.take(i + 1), key@) {
                        let w = choose|w: int|
                            0 <= w < i + 1 && (#[trigger] had.take(i + 1)[w]).0 == key@;
                        assert(had.take(i as int)[w].0 == key@);
                    }
                    if found {
                        let w = choose|w: int|
                            0 <= w < i && (#[trigger] had.take(i as int)[w]).0 == key@;
                        assert(had.take(i + 1)[w].0 == key@);
                    }
                }
            }
            proof {
                let after = attrs_view(e.attrs@);
                assert forall|j: int| 0 <= j < had.len() && j != i implies (#[trigger] after[j])
                    == before[j] by {}
            }
            i = i + 1;
        }
        proof {
            assert(had.take(i as int) =~= had);
        }
        let ghost scanned = attrs_view(e.attrs@);
        if !found {
            e.attrs.push((String::from_str(key), String::from_str(val)));
            proof {
                let now = attrs_view(e.attrs@);
                assert forall|j: int| 0 <= j < had.len() implies now[j] == had[j] by {
                    assert(now[j] == scanned[j]);
                    if had[j].0 == key@ {
                        assert(has_attr(had, key@));
                    }
                }
                assert(now =~= had.push((key@, val@)));
            }
        } else {
            assert(scanned =~= with_attr(had, key@, val@));
        }
        e
    }

    /// This element with the class `val`.
    pub fn class(self, val: &str) -> (e: Element)
        ensures
            e@ == (ElementView { attrs: with_attr(self@.attrs, "class"@, val@), ..self@ }),
    {
        self.set("class", val)
    }

    /// The value of the attribute `key`, where this element has it.
    pub fn get(&self, key: &str) -> (val: Option<&String>)
        ensures
            match val {
                Some(v) => attr_value(self@.attrs, key@) == Some(v@),
                None => attr_value(self@.attrs, key@) is None,
            },
    {
        let name = String::from_str(key);
        let ghost all = attrs_view(self.attrs@);
        let mut i: usize = 0;
        assert(all.skip(0) =~= all);
        while i < self.attrs.len()
            invariant
                i <= self.attrs.len(),
                name@ == key@,
                all == attrs_view(self.attrs@),
                attr_value(all, key@) == attr_value(all.skip(i as int), key@),
            decreases self.attrs.len() - i,
        {
            proof {
                assert(all.skip(i as int)[0] == all[i as int]);
                assert(all.skip(i as int).skip(1) =~= all.skip(i + 1));
            }
            if self.attrs[i].0 == name {
                return Some(&self.attrs[i].1);
            }
            i = i + 1;
        }
        None
    }

    /// This element with `val` added to its classes.
    pub fn add_class(self, val: &str) -> (e: Element)
        ensures
            e@ == (ElementView {
                attrs: with_attr(self@.attrs, "class"@, added_class(self@.attrs, val@)),
                ..self@
            }),
    {
        let new_class = match self.get("class") {
            None => String::from_str(val),
            Some(class) => {
                let mut both = class.clone();
                both.append(" ");
                both.append(val);
                both
            },
        };
        self.set("class", new_class.as_str())
    }

    /// This element with `node` as its last child; the element as it is
    /// where it never has children.
    pub fn append_node(self, node: Node) -> (e: Element)
        ensures
            e@ == if self@.void {
                self@
            } else {
                ElementView { children: self@.children.push(node@), ..self@ }
            },
    {
        if self.empty {
            return self;
        }
        let mut e = self;
        proof {
            lemma_nodes_view_push(e.children@, node);
        }
        e.children.push(node);
        e
    }

    /// This element with the element `child` as its last child.
    pub fn append(self, child: Element) -> (e: Element)
        ensures
            e@ == if self@.void {
                self@
            } else {
                ElementView { children: self@.children.push(NodeView::HTML(child@)), ..self@ }
            },
    {
        self.append_node(Node::HTML(child))
    }

    /// This element with the text `t` as its last child.
    pub fn append_text(self, t: &str) -> (e: Element)
        ensures
            e@ == if self@.void {
                self@
            } else {
                ElementView { children: self@.children.push(NodeView::Text(t@)), ..self@ }
            },
    {
        self.append_node(Node::Text(String::from_str(t)))
    }

    /// The text of this element.
    pub fn as_string(&self) -> (text: String)
        ensures
            text@ == element_text(self@),
        decreases self,
    {
        let mut text = String::from_str("<");
        text.append(self.tag);
        let attrs = attrs_as_string(&self.attrs);
        text.append(attrs.as_str());
        text.append(">");
        let ghost opening = text@;
        let ghost kids = nodes_view(self.children@);
        proof {
            lemma_nodes_view(self.children@);
        }
        if self.children.len() > 0 {
            let mut i: usize = 0;
            let mut inner = String::new();
            assert(kids.take(0) =~= Seq::empty());
            while i < self.children.len()
                invariant
                    i <= self.children.len(),
                    kids == nodes_view(self.children@),
                    kids.len() == self.children.len(),
                    forall|j: int|
                        0 <= j < self.children.len() ==> (#[trigger] kids[j])
                            == self.children@[j]@,
                    inner@ == nodes_text(kids.take(i as int)),
                decreases self.children.len() - i,
            {
                proof {
                    assert(kids.take(i + 1).drop_last() =~= kids.take(i as int));
                    assert(kids.take(i + 1).last() == kids[i as int]);
                }
                let ghost so_far = inner@;
                if i > 0 {
                    inner.append("\n");
                }
                match &self.children[i] {
                    Node::HTML(e) => {
                        let t = e.as_string();
                        inner.append(t.as_str());
                    },
                    Node::Text(s) => {
                        inner.append(s.as_str());
                    },
                }
                proof {
                    let this = node_text(kids[i as int]);
                    if i > 0 {
                        assert(inner@ =~= so_far + "\n"@ + this);
                    } else {
                        assert(inner@ =~= this);
                    }
                }
                i = i + 1;
            }
            proof {
                assert(kids.take(i as int) =~= kids);
            }
            text.append(inner.as_str());
            text.append("</");
            text.append(self.tag);
            text.append(">");
            assert(text@ =~= opening + nodes_text(kids) + "</"@ + self.tag@ + ">"@);
        } else if !self.empty {
            text.append("</");
            text.append(self.tag);
            text.append(">");
            assert(text@ =~= opening + "</"@ + self.tag@ + ">"@);
        }
        text
    }
}

// ---------------------------------------------------------------------------
// Children

/// What an element is made with: no child, one, or many.
pub enum Children {
    Empty,
    One(Node),
    Many(Vec<Node>),
}

/// No child at all.
pub struct Empty;

/// What [`Children`] say.
pub enum ChildrenView {
    Empty,
    One(NodeView),
    Many(Seq<NodeView>),
}

impl View for Children {
    type V = ChildrenView;

    open spec fn view(&self) -> ChildrenView {
        match *self {
            Children::Empty => ChildrenView::Empty,
            Children::One(n) => ChildrenView::One(n@),
            Children::Many(ns) => ChildrenView::Many(nodes_view(ns@)),
        }
    }
}

/// What the elements `elements` say, one after the other.
pub open spec fn element_views(elements: Seq<Element>) -> Seq<ElementView> {
    elements.map_values(|e: Element| e@)
}

/// The elements `elements` as nodes.
pub open spec fn as_nodes(elements: Seq<ElementView>) -> Seq<NodeView> {
    elements.map_values(|e: ElementView| NodeView::HTML(e))
}

/// What the elements `elements` say as nodes, one after the other.
pub open spec fn elements_view(elements: Seq<Element>) -> Seq<NodeView> {
    as_nodes(element_views(elements))
}

/// What the element with the tag `tag` says whose one child is the text `text`.
pub open spec fn text_element(tag: Seq<char>, text: Seq<char>) -> ElementView {
    element_of(tag, ChildrenView::One(NodeView::Text(text)))
}

/// What the element with the tag `tag` says whose one child is the element `child`.
pub open spec fn wrap(tag: Seq<char>, child: ElementView) -> ElementView {
    element_of(tag, ChildrenView::One(NodeView::HTML(child)))
}

/// What the element with the tag `tag` says whose children are the
/// elements `kids`.
pub open spec fn group(tag: Seq<char>, kids: Seq<ElementView>) -> ElementView {
    element_of(tag, ChildrenView::Many(as_nodes(kids)))
}

/// What can be the children of an element.
pub trait IntoChildren: Sized {
    /// The children that this stands for.
    spec fn children(self) -> ChildrenView;

    /// The children that this stands for.
    fn into_children(self) -> (c: Children)
        ensures
            c@ == self.children(),
    ;
}

impl IntoChildren for Children {
    open spec fn children(self) -> ChildrenView {
        self@
    }

    fn into_children(self) -> (c: Children) {
        self
    }
}

impl IntoChildren for Empty {
    open spec fn children(self) -> ChildrenView {
        ChildrenView::Empty
    }

    fn into_children(self) -> (c: Children) {
        Children::Empty
    }
}

impl IntoChildren for Node {
    open spec fn children(self) -> ChildrenView {
        ChildrenView::One(self@)
    }

    fn into_children(self) -> (c: Children) {
        Children::One(self)
    }
}

impl IntoChildren for Vec<Node> {
    open spec fn children(self) -> ChildrenView {
        ChildrenView::Many(nodes_view(self@))
    }

    fn into_children(self) -> (c: Children) {
        Children::Many(self)
    }
}

impl IntoChildren for Element {
    open spec fn children(self) -> ChildrenView {
        ChildrenView::One(NodeView::HTML(self@))
    }

    fn into_children(self) -> (c: Children) {
        Children::One(Node::HTML(self))
    }
}

impl IntoChildren for Vec<Element> {
    open spec fn children(self) -> ChildrenView {
        ChildrenView::Many(elements_view(self@))
    }

    fn into_children(self) -> (c: Children) {
        let ghost all = elements_view(self@);
        let mut nodes: Vec<Node> = Vec::new();
        for e in it: self
            invariant
                it.seq() == self@,
                all == elements_view(self@),
                nodes.len() == it.index(),
                forall|i: int| 0 <= i < nodes.len() ==> (#[trigger] nodes@[i])@ == all[i],
        {
            assert(all[it.index() as int] == NodeView::HTML(e@));
            nodes.push(Node::HTML(e));
        }
        proof {
            lemma_nodes_view(nodes@);
            assert(nodes_view(nodes@) =~= all);
        }
        Children::Many(nodes)
    }
}

impl IntoChildren for String {
    open spec fn children(self) -> ChildrenView {
        ChildrenView::One(NodeView::Text(self@))
    }

    fn into_children(self) -> (c: Children) {
        Children::One(Node::Text(self))
    }
}

impl IntoChildren for &String {
    open spec fn children(self) -> ChildrenView {
        ChildrenView::One(NodeView::Text(self@))
    }

    fn into_children(self) -> (c: Children) {
        Children::One(Node::Text(self.clone()))
    }
}

impl IntoChildren for &str {
    open spec fn children(self) -> ChildrenView {
        ChildrenView::One(NodeView::Text(self@))
    }

    fn into_children(self) -> (c: Children) {
        Children::One(Node::Text(String::from_str(self)))
    }
}

/// What the element with the tag `tag` and the children `c` says. A void
/// element takes no single child, but keeps many.
pub open spec fn element_of(tag: Seq<char>, c: ChildrenView) -> ElementView {
    ElementView {
        tag,
        attrs: Seq::empty(),
        children: match c {
            ChildrenView::Empty => Seq::empty(),
            ChildrenView::One(n) => if is_void_tag(tag) {
                Seq::empty()
            } else {
                seq![n]
            },
            ChildrenView::Many(ns) => ns,
        },
        void: is_void_tag(tag),
    }
}

/// The element with the tag `tag` and the children `c`.
fn element<C: IntoChildren>(tag: &'static str, c: C) -> (e: Element)
    ensures
        e@ == element_of(tag@, c.children()),
{
    let children: Children = c.into_children();
    match children {
        Children::Empty => Element::new(tag),
        Children::One(n) => {
            let e = Element::new(tag).append_node(n);
            assert(e@.children =~= element_of(tag@, c.children()).children);
            e
        },
        Children::Many(ns) => {
            let e = Element { tag, attrs: Vec::new(), children: ns, empty: is_empty(tag) };
            assert(e@.attrs =~= Seq::empty());
            e
        },
    }
}

// ---------------------------------------------------------------------------
// The known elements

/// An `html` element with the children `c`.
pub fn html<C: IntoChildren>(c: C) -> (e: Element)
    ensures
        e@ == element_of("html"@, c.children()),
{
    element("html", c)
}

/// A `meta` element with the children `c`.
pub fn meta<C: IntoChildren>(c: C) -> (e: Element)
    ensures
        e@ == element_of("meta"@, c.children()),
{
    element("meta", c)
}

/// A `head` element with the children `c`.
pub fn head<C: IntoChildren>(c: C) -> (e: Element)
    ensures
        e@ == element_of("head"@, c.children()),
{
    element("head", c)
}

/// A `title` element with the children `c`.
pub fn title<C: IntoChildren>(c: C) -> (e: Element)
    ensures
        e@ == element_of("title"@, c.children()),
{
    element("title", c)
}

/// A `body` element with the children `c`.
pub fn body<C: IntoChildren>(c: C) -> (e: Element)
    ensures
        e@ == element_of("body"@, c.children()),
{
    element("body", c)
}

/// A `div` element with the children `c`.
pub fn div<C: IntoChildren>(c: C) -> (e: Element)
    ensures
        e@ == element_of("div"@, c.children()),
{
    element("div", c)
}

/// A `span` element with the children `c`.
pub fn span<C: IntoChildren>(c: C) -> (e: Element)
    ensures
        e@ == element_of("span"@, c.children()),
{
    element("span", c)
}

/// An `em` element with the children `c`.
pub fn em<C: IntoChildren>(c: C) -> (e: Element)
    ensures
        e@ == element_of("em"@, c.children()),
{
    element("em", c)
}

/// A `table` element with the children `c`.
pub fn table<C: IntoChildren>(c: C) -> (e: Element)
    ensures
        e@ == element_of("table"@, c.children()),
{
    element("table", c)
}

/// A `tr` element with the children `c`.
pub fn tr<C: IntoChildren>(c: C) -> (e: Element)
    ensures
        e@ == element_of("tr"@, c.children()),
{
    element("tr", c)
}

/// A `td` element with the children `c`.
pub fn td<C: IntoChildren>(c: C) -> (e: Element)
    ensures
        e@ == element_of("td"@, c.children()),
{
    element("td", c)
}

/// A `code` element with the children `c`.
pub fn code<C: IntoChildren>(c: C) -> (e: Element)
    ensures
        e@ == element_of("code"@, c.children()),
{
    element("code", c)
}

/// An `h1` element with the children `c`.
pub fn h1<C: IntoChildren>(c: C) -> (e: Element)
    ensures
        e@ == element_of("h1"@, c.children()),
{
    element("h1", c)
}

/// An `h2` element with the children `c`.
pub fn h2<C: IntoChildren>(c: C) -> (e: Element)
    ensures
        e@ == element_of("h2"@, c.children()),
{
    element("h2", c)
}

/// An `h3` element with the children `c`.
pub fn h3<C: IntoChildren>(c: C) -> (e: Element)
    ensures
        e@ == element_of("h3"@, c.children()),
{
    element("h3", c)
}

/// An `h4` element with the children `c`.
pub fn h4<C: IntoChildren>(c: C) -> (e: Element)
    ensures
        e@ == element_of("h4"@, c.children()),
{
    element("h4", c)
}

/// A `style` element with the children `c`.
pub fn style<C: IntoChildren>(c: C) -> (e: Element)
    ensures
        e@ == element_of("style"@, c.children()),
{
    element("style", c)
}

/// An `a` element with the children `c`.
pub fn anchor<C: IntoChildren>(c: C) -> (e: Element)
    ensures
        e@ == element_of("a"@, c.children()),
{
    element("a", c)
}

/// An `ul` element with the children `c`.
pub fn ul<C: IntoChildren>(c: C) -> (e: Element)
    ensures
        e@ == element_of("ul"@, c.children()),
{
    element("ul", c)
}

/// An `ol` element with the children `c`.
pub fn ol<C: IntoChildren>(c: C) -> (e: Element)
    ensures
        e@ == element_of("ol"@, c.children()),
{
    element("ol", c)
}

/// An `li` element with the children `c`.
pub fn li<C: IntoChildren>(c: C) -> (e: Element)
    ensures
        e@ == element_of("li"@, c.children()),
{
    element("li", c)
}

/// A `p` element with the children `c`.
pub fn paragraph<C: IntoChildren>(c: C) -> (e: Element)
    ensures
        e@ == element_of("p"@, c.children()),
{
    element("p", c)
}

/// A `details` element with the children `c`.
pub fn details<C: IntoChildren>(c: C) -> (e: Element)
    ensures
        e@ == element_of("details"@, c.children()),
{
    element("details", c)
}

/// A `summary` element with the children `c`.
pub fn summary<C: IntoChildren>(c: C) -> (e: Element)
    ensures
        e@ == element_of("summary"@, c.children()),
{
    element("summary", c)
}

/// The element `e` with the attribute `key` set to `val`.
pub open spec fn attributed(e: ElementView, key: Seq<char>, val: Seq<char>) -> ElementView {
    ElementView { attrs: with_attr(e.attrs, key, val), ..e }
}

/// The element `e` with the class `class`.
pub open spec fn classed(e: ElementView, class: Seq<char>) -> ElementView {
    attributed(e, "class"@, class)
}

/// The element `e` with `class` added to its classes.
pub open spec fn with_class_added(e: ElementView, class: Seq<char>) -> ElementView {
    attributed(e, "class"@, added_class(e.attrs, class))
}

/// What a link says that shows `text` and leads to `href`.
pub open spec fn linked(text: Seq<char>, href: Seq<char>) -> ElementView {
    ElementView { attrs: seq![("href"@, href)], ..text_element("a"@, text) }
}

/// A link that shows `text` and leads to `href`.
pub fn link(text: &str, href: &str) -> (e: Element)
    ensures
        e@ == linked(text@, href@),
{
    let e = anchor(text).set("href", href);
    proof {
        let none = Seq::<(Seq<char>, Seq<char>)>::empty();
        assert(!has_attr(none, "href"@));
        assert(with_attr(none, "href"@, href@) =~= seq![("href"@, href@)]);
    }
    e
}

/// What a `span` says that is not shown.
pub open spec fn hidden() -> ElementView {
    ElementView {
        attrs: seq![("style"@, "display:none"@)],
        ..element_of("span"@, ChildrenView::Empty)
    }
}

/// A `span` that is not shown.
pub fn no_display() -> (e: Element)
    ensures
        e@ == hidden(),
{
    let e = Element::new("span").set("style", "display:none");
    proof {
        let none = Seq::<(Seq<char>, Seq<char>)>::empty();
        assert(!has_attr(none, "style"@));
        assert(with_attr(none, "style"@, "display:none"@) =~= seq![("style"@, "display:none"@)]);
    }
    e
}

/// The text of a document whose root is `e`.
pub fn with_doctype(e: Element) -> (text: String)
    ensures
        text@ == "<!DOCTYPE html>\n"@ + element_text(e@),
{
    let mut text = String::from_str("<!DOCTYPE html>\n");
    let body = e.as_string();
    text.append(body.as_str());
    text
}

} // verus!
