//! The template as the compiler receives it: elements, text, and runs of
//! conditional siblings.

use vstd::prelude::*;

verus! {

/// A static attribute of an element: `name="value"`.
#[derive(Debug, PartialEq)]
pub struct HtmlAttribute {
    pub name: String,
    pub value: String,
}

/// The opening tag of an element.
#[derive(Debug, PartialEq)]
pub struct StartingTag {
    pub tag_name: String,
    pub attributes: Vec<HtmlAttribute>,
}

/// A node of the template.
#[derive(Debug, PartialEq)]
pub enum Node {
    Element(ElementNode),
    Text(String),
    ConditionalSeq(ConditionalNodeSequence),
}

/// An element with its children and the scope that its expressions are
/// resolved in.
#[derive(Debug, PartialEq)]
pub struct ElementNode {
    pub starting_tag: StartingTag,
    pub children: Vec<Node>,
    pub template_scope: u32,
}

/// A run of sibling elements governed by `if`, `else-if` and `else`, in
/// source order. Each condition is the text of an expression.
#[derive(Debug, PartialEq)]
pub struct ConditionalNodeSequence {
    pub if_node: (String, Box<ElementNode>),
    pub else_if_nodes: Vec<(String, ElementNode)>,
    pub else_node: Option<Box<ElementNode>>,
}

/// The template block of a component.
#[derive(Debug, PartialEq)]
pub struct SfcTemplateBlock {
    pub roots: Vec<Node>,
}

/// The view of an [`HtmlAttribute`].
pub ghost struct HtmlAttributeView {
    pub name: Seq<char>,
    pub value: Seq<char>,
}

/// The view of a [`Node`].
pub ghost enum NodeView {
    Element(ElementNodeView),
    Text(Seq<char>),
    ConditionalSeq(ConditionalNodeSequenceView),
}

/// The view of an [`ElementNode`].
pub ghost struct ElementNodeView {
    pub tag_name: Seq<char>,
    pub attributes: Seq<HtmlAttributeView>,
    pub children: Seq<NodeView>,
    pub template_scope: u32,
}

/// One conditional branch: the text of its condition and its element.
pub ghost struct BranchView {
    pub condition: Seq<char>,
    pub node: ElementNodeView,
}

/// The view of a [`ConditionalNodeSequence`].
pub ghost struct ConditionalNodeSequenceView {
    pub if_branch: BranchView,
    pub else_if_branches: Seq<BranchView>,
    pub else_node: Option<ElementNodeView>,
}

impl View for HtmlAttribute {
    type V = HtmlAttributeView;

    open spec fn view(&self) -> HtmlAttributeView {
        HtmlAttributeView { name: self.name@, value: self.value@ }
    }
}

impl Node {
    /// The tree that this node stands for.
    pub open spec fn model(&self) -> NodeView
        decreases self,
    {
        match self {
            Node::Element(element) => NodeView::Element(element.model()),
            Node::Text(text) => NodeView::Text(text@),
            Node::ConditionalSeq(sequence) => NodeView::ConditionalSeq(sequence.model()),
        }
    }
}

impl ElementNode {
    /// The tree that this element stands for.
    pub open spec fn model(&self) -> ElementNodeView
        decreases self,
    {
        ElementNodeView {
            tag_name: self.starting_tag.tag_name@,
            attributes: self.starting_tag.attributes@.map_values(|a: HtmlAttribute| a@),
            children: Seq::new(
                self.children.len() as nat,
                |i: int|
                    if 0 <= i < self.children.len() {
                        self.children[i].model()
                    } else {
                        arbitrary()
                    },
            ),
            template_scope: self.template_scope,
        }
    }
}

impl View for Node {
    type V = NodeView;

    open spec fn view(&self) -> NodeView {
        self.model()
    }
}

impl View for ElementNode {
    type V = ElementNodeView;

    open spec fn view(&self) -> ElementNodeView {
        self.model()
    }
}

impl ConditionalNodeSequence {
    /// The tree that this run stands for.
    pub open spec fn model(&self) -> ConditionalNodeSequenceView
        decreases self,
    {
        ConditionalNodeSequenceView {
            if_branch: BranchView { condition: self.if_node.0@, node: self.if_node.1.model() },
            else_if_branches: Seq::new(
                self.else_if_nodes.len() as nat,
                |i: int|
                    if 0 <= i < self.else_if_nodes.len() {
                        BranchView {
                            condition: self.else_if_nodes[i].0@,
                            node: self.else_if_nodes[i].1.model(),
                        }
                    } else {
                        arbitrary()
                    },
            ),
            else_node: match self.else_node {
                Some(node) => Some(node.model()),
                None => None,
            },
        }
    }
}

impl View for ConditionalNodeSequence {
    type V = ConditionalNodeSequenceView;

    open spec fn view(&self) -> ConditionalNodeSequenceView {
        self.model()
    }
}

} // verus!
