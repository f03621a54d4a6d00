//! Compiling elements and text into the expressions that build them.

use vstd::prelude::*;
use crate::ast::args_view;
use crate::ast::Expression;
use crate::ast::ExpressionView;
use crate::ast::ExprOrSpread;
use crate::ast::ExprOrSpreadView;
use crate::ast::exprs_view;
use crate::ast::ObjectLit;
use crate::ast::ObjectLitView;
use crate::ast::PropertyName;
use crate::ast::PropertyNameView;
use crate::ast::PropertyView;
use crate::ast::PropOrSpread;
use crate::ast::PropOrSpreadView;
use crate::conditional_seq::conditional_expr;
use crate::conditional_seq::conditional_imports;
use crate::conditional_seq::generate_comment;
use crate::conditional_seq::generate_conditional;
use crate::context::CodegenContext;
use crate::context::local_name;
use crate::context::UsedImports;
use crate::context::VueImports;
use crate::nodes::ElementNode;
use crate::nodes::ElementNodeView;
use crate::nodes::HtmlAttribute;
use crate::nodes::HtmlAttributeView;
use crate::nodes::Node;
use crate::nodes::NodeView;
use crate::sound::all_writable;
use crate::sound::lemma_attributes_are_writable;
use crate::sound::lemma_element_is_writable;
use crate::sound::lemma_helper_call_is_writable;
use crate::sound::lemma_node_is_writable;
use crate::sound::lemma_root_is_writable;
use crate::sound::sound_element;
use crate::sound::sound_node;
use crate::structs::ScopeHelper;
use crate::structs::ScopeHelperView;
use crate::writable::writable;

verus! {

/// The string literal that holds `value`.
pub open spec fn string_lit(value: Seq<char>) -> ExpressionView {
    ExpressionView::Str { value, raw: None }
}

/// `exprs` as arguments, none of them spread.
pub open spec fn plain_args(exprs: Seq<ExpressionView>) -> Seq<ExprOrSpreadView> {
    Seq::new(exprs.len(), |i: int| ExprOrSpreadView { spread: false, expr: exprs[i] })
}

/// The call of a runtime helper, by its local name, on `args`.
pub open spec fn helper_call(helper: VueImports, args: Seq<ExpressionView>) -> ExpressionView {
    ExpressionView::Call {
        callee: Box::new(ExpressionView::Ident(local_name(helper))),
        args: plain_args(args),
    }
}

/// The property `"name": "value"` for an attribute.
pub open spec fn attribute_prop(attribute: HtmlAttributeView) -> PropOrSpreadView {
    PropOrSpreadView::Prop(
        PropertyView::KeyValue {
            key: PropertyNameView::Str { value: attribute.name, raw: None },
            value: string_lit(attribute.value),
        },
    )
}

/// The expression for the attributes of an element: `null` where it has
/// none, else an object with one property for each, in their order.
pub open spec fn attributes_expr(attributes: Seq<HtmlAttributeView>) -> ExpressionView {
    if attributes.len() == 0 {
        ExpressionView::Null
    } else {
        ExpressionView::Object(
            ObjectLitView {
                props: Seq::new(attributes.len(), |i: int| attribute_prop(attributes[i])),
            },
        )
    }
}

/// Whether the children are exactly one piece of text.
pub open spec fn is_single_text(children: Seq<NodeView>) -> bool {
    children.len() == 1 && children[0] is Text
}

/// The expression that builds a child node: for text, a call of the text
/// helper on it; for an element, the expression that builds the element;
/// for a run of conditional siblings, the expression that it folds into.
/// Conditions are resolved against `helper`.
pub open spec fn node_vnode(node: NodeView, helper: ScopeHelperView) -> ExpressionView
    decreases node, 0nat,
{
    match node {
        NodeView::Text(text) => helper_call(VueImports::CreateTextVNode, seq![string_lit(text)]),
        NodeView::Element(element) => element_vnode(element, false, helper),
        NodeView::ConditionalSeq(sequence) => conditional_expr(sequence, helper),
    }
}

/// The expressions that build the children, in their order.
pub open spec fn children_vnodes(children: Seq<NodeView>, helper: ScopeHelperView) -> Seq<
    ExpressionView,
>
    decreases children, 0nat,
{
    if children.len() == 0 {
        Seq::empty()
    } else {
        children_vnodes(children.drop_last(), helper).push(node_vnode(children.last(), helper))
    }
}

/// The arguments of the helper that builds an element: its tag name, its
/// attributes, and its children if it has any. Children that are exactly
/// one piece of text are given as a string; any others as an array of the
/// expressions that build them.
pub open spec fn element_args(element: ElementNodeView, helper: ScopeHelperView) -> Seq<
    ExpressionView,
>
    decreases element, 0nat,
{
    let head = seq![string_lit(element.tag_name), attributes_expr(element.attributes)];
    if element.children.len() == 0 {
        head
    } else if is_single_text(element.children) {
        head.push(string_lit(element.children[0]->Text_0))
    } else {
        let vnodes = children_vnodes(element.children, helper);
        head.push(
            ExpressionView::Array(
                Seq::new(
                    vnodes.len(),
                    |i: int| Some(ExprOrSpreadView { spread: false, expr: vnodes[i] }),
                ),
            ),
        )
    }
}

/// The expression that builds an element: a call of the element helper on
/// [`element_args`]. Where the element opens a block, the call goes to the
/// block helper instead and follows a call that opens the block, the two
/// in parentheses.
pub open spec fn element_vnode(
    element: ElementNodeView,
    wrap_in_block: bool,
    helper: ScopeHelperView,
) -> ExpressionView
    decreases element, 1nat,
{
    if wrap_in_block {
        ExpressionView::Paren(
            Box::new(
                ExpressionView::Sequence(
                    seq![
                        helper_call(VueImports::OpenBlock, Seq::empty()),
                        helper_call(VueImports::CreateElementBlock, element_args(element, helper)),
                    ],
                ),
            ),
        )
    } else {
        helper_call(VueImports::CreateElementVNode, element_args(element, helper))
    }
}

/// The expression that builds a node at the root of a template: an
/// element opens a block where `wrap_in_block`; any other node is built as
/// a child is.
pub open spec fn root_vnode(node: NodeView, wrap_in_block: bool, helper: ScopeHelperView) -> ExpressionView {
    match node {
        NodeView::Element(element) => element_vnode(element, wrap_in_block, helper),
        _ => node_vnode(node, helper),
    }
}

/// The helpers that the expression for a node at the root of a template
/// calls.
pub open spec fn root_imports(node: NodeView, wrap_in_block: bool) -> Set<VueImports> {
    match node {
        NodeView::Element(element) => element_imports(element, wrap_in_block),
        _ => node_imports(node),
    }
}

/// The expression that builds the comment that stands for a node left
/// out.
pub open spec fn comment_vnode(comment: Seq<char>) -> ExpressionView {
    helper_call(VueImports::CreateCommentVNode, seq![string_lit(comment)])
}

/// The helpers that the expression for a child node calls.
pub open spec fn node_imports(node: NodeView) -> Set<VueImports>
    decreases node, 0nat,
{
    match node {
        NodeView::Text(text) => set![VueImports::CreateTextVNode],
        NodeView::Element(element) => element_imports(element, false),
        NodeView::ConditionalSeq(sequence) => conditional_imports(sequence),
    }
}

/// The helpers that the expressions for the children call.
pub open spec fn children_imports(children: Seq<NodeView>) -> Set<VueImports>
    decreases children, 0nat,
{
    if children.len() == 0 {
        Set::empty()
    } else {
        children_imports(children.drop_last()).union(node_imports(children.last()))
    }
}

/// The helpers that the expression for an element calls.
pub open spec fn element_imports(element: ElementNodeView, wrap_in_block: bool) -> Set<VueImports>
    decreases element, 1nat,
{
    let own = if wrap_in_block {
        set![VueImports::OpenBlock, VueImports::CreateElementBlock]
    } else {
        set![VueImports::CreateElementVNode]
    };
    if element.children.len() == 0 || is_single_text(element.children) {
        own
    } else {
        own.union(children_imports(element.children))
    }
}

/// The call of `helper` on `args`; the helper is noted as used.
pub fn call_helper(used: &mut UsedImports, helper: VueImports, args: Vec<Expression>) -> (call:
    Expression)
    ensures
        call@ == helper_call(helper, exprs_view(args@)),
        final(used)@ == old(used)@.insert(helper),
        all_writable(exprs_view(args@)) ==> writable(call@),
{
    proof {
        if all_writable(exprs_view(args@)) {
            lemma_helper_call_is_writable(helper, exprs_view(args@));
        }
    }
    used.insert(helper);
    let ghost old_args = args@;
    let mut plain: Vec<ExprOrSpread> = Vec::new();
    for arg in it: args.into_iter()
        invariant
            it.seq() == old_args,
            plain@.len() == it.index(),
            forall|i: int|
                0 <= i < it.index() ==> #[trigger] plain@[i]@ == (ExprOrSpreadView {
                    spread: false,
                    expr: old_args[i]@,
                }),
    {
        plain.push(ExprOrSpread::plain(arg));
    }
    assert(args_view(plain@) =~= plain_args(exprs_view(old_args)));
    Expression::call(Expression::ident(helper.local()), plain)
}

/// The expression for the attributes of an element.
pub fn generate_attributes(attributes: &Vec<HtmlAttribute>) -> (expr: Expression)
    ensures
        expr@ == attributes_expr(attributes@.map_values(|a: HtmlAttribute| a@)),
        writable(expr@),
{
    let ghost views = attributes@.map_values(|a: HtmlAttribute| a@);
    proof {
        lemma_attributes_are_writable(views);
    }
    if attributes.len() == 0 {
        return Expression::Null;
    }
    let mut props: Vec<PropOrSpread> = Vec::new();
    let mut i: usize = 0;
    while i < attributes.len()
        invariant
            i <= attributes.len(),
            views == attributes@.map_values(|a: HtmlAttribute| a@),
            props@.len() == i,
            forall|j: int| 0 <= j < i ==> #[trigger] props@[j]@ == attribute_prop(views[j]),
        decreases attributes.len() - i,
    {
        let attribute = &attributes[i];
        props.push(
            PropOrSpread::key_value(
                PropertyName::Str { value: attribute.name.clone(), raw: None },
                Expression::string(attribute.value.clone()),
            ),
        );
        i = i + 1;
    }
    let obj = ObjectLit::new(props);
    assert(obj@.props =~= attributes_expr(views)->Object_0.props);
    Expression::object(obj)
}

/// The expression that builds a child node, with the helpers that it
/// calls noted as used.
pub fn generate_child(used: &mut UsedImports, helper: &ScopeHelper, node: &Node) -> (expr:
    Expression)
    ensures
        expr@ == node_vnode(node@, helper@),
        final(used)@ == old(used)@.union(node_imports(node@)),
        sound_node(node@) ==> writable(expr@),
    decreases node, 0nat,
{
    proof {
        if sound_node(node@) {
            lemma_node_is_writable(node@, helper@);
        }
    }
    match node {
        Node::Text(text) => {
            let mut args: Vec<Expression> = Vec::new();
            args.push(Expression::string(text.clone()));
            assert(exprs_view(args@) =~= seq![string_lit(text@)]);
            let call = call_helper(used, VueImports::CreateTextVNode, args);
            call
        },
        Node::Element(element) => generate_element(used, helper, element, false),
        Node::ConditionalSeq(sequence) => generate_conditional(used, helper, sequence),
    }
}

/// The expression that builds an element, with the helpers that it calls
/// noted as used.
pub fn generate_element(
    used: &mut UsedImports,
    helper: &ScopeHelper,
    element: &ElementNode,
    wrap_in_block: bool,
) -> (expr: Expression)
    ensures
        expr@ == element_vnode(element@, wrap_in_block, helper@),
        final(used)@ == old(used)@.union(element_imports(element@, wrap_in_block)),
        sound_element(element@) ==> writable(expr@),
    decreases element, 1nat,
{
    proof {
        if sound_element(element@) {
            lemma_element_is_writable(element@, wrap_in_block, helper@);
        }
    }
    let ghost view = element@;
    let ghost scopes = helper@;
    let mut args: Vec<Expression> = Vec::new();
    args.push(Expression::string(element.starting_tag.tag_name.clone()));
    args.push(generate_attributes(&element.starting_tag.attributes));
    let ghost head = seq![string_lit(view.tag_name), attributes_expr(view.attributes)];
    assert(exprs_view(args@) =~= head);
    let children = &element.children;
    if children.len() == 1 && matches!(children[0], Node::Text(_)) {
        if let Node::Text(text) = &children[0] {
            args.push(Expression::string(text.clone()));
            assert(exprs_view(args@) =~= head.push(string_lit(text@)));
        }
    } else if children.len() > 0 {
        let mut elems: Vec<Option<ExprOrSpread>> = Vec::new();
        let mut i: usize = 0;
        while i < children.len()
            invariant
                i <= children.len(),
                children == &element.children,
                view == element@,
                scopes == helper@,
                elems@.len() == i,
                children_vnodes(view.children.take(i as int), scopes).len() == i,
                forall|j: int|
                    0 <= j < i ==> (#[trigger] elems@[j]) is Some && elems@[j]->Some_0@ == (
                    ExprOrSpreadView {
                        spread: false,
                        expr: children_vnodes(view.children.take(i as int), scopes)[j],
                    }),
                used@ == old(used)@.union(children_imports(view.children.take(i as int))),
            decreases children.len() - i,
        {
            let ghost before = view.children.take(i as int);
            let ghost after = view.children.take(i + 1);
            assert(after.drop_last() == before);
            let child = generate_child(used, helper, &children[i]);
            elems.push(Some(ExprOrSpread::plain(child)));
            i = i + 1;
        }
        assert(view.children.take(i as int) == view.children);
        let array = Expression::array(elems);
        assert(array@->Array_0 =~= element_args(view, scopes).last()->Array_0);
        args.push(array);
        assert(exprs_view(args@) =~= element_args(view, scopes));
    }
    if wrap_in_block {
        let open = call_helper(used, VueImports::OpenBlock, Vec::new());
        assert(exprs_view(Seq::<Expression>::empty()) =~= Seq::<ExpressionView>::empty());
        let block = call_helper(used, VueImports::CreateElementBlock, args);
        let mut both: Vec<Expression> = Vec::new();
        both.push(open);
        both.push(block);
        assert(exprs_view(both@) =~= seq![
            helper_call(VueImports::OpenBlock, Seq::empty()),
            helper_call(VueImports::CreateElementBlock, element_args(view, scopes)),
        ]);
        Expression::paren(Expression::sequence(both))
    } else {
        let call = call_helper(used, VueImports::CreateElementVNode, args);
        call
    }
}

impl CodegenContext {
    /// Compiles an element into the expression that builds it, and notes
    /// the helpers that the expression calls.
    pub fn generate_element_or_component(
        &mut self,
        element_node: &ElementNode,
        wrap_in_block: bool,
    ) -> (expr: Expression)
        ensures
            expr@ == element_vnode(element_node@, wrap_in_block, old(self).scope_helper@),
            final(self).used_imports@ == old(self).used_imports@.union(
                element_imports(element_node@, wrap_in_block),
            ),
            final(self).scope_helper == old(self).scope_helper,
            sound_element(element_node@) ==> writable(expr@),
    {
        generate_element(&mut self.used_imports, &self.scope_helper, element_node, wrap_in_block)
    }

    /// Compiles a node into the expression that builds it, and notes the
    /// helpers that the expression calls. Only an element opens a block
    /// where one is asked for.
    pub fn generate_node(&mut self, node: &Node, wrap_in_block: bool) -> (expr: Expression)
        ensures
            expr@ == root_vnode(node@, wrap_in_block, old(self).scope_helper@),
            final(self).used_imports@ == old(self).used_imports@.union(
                root_imports(node@, wrap_in_block),
            ),
            final(self).scope_helper == old(self).scope_helper,
            sound_node(node@) ==> writable(expr@),
    {
        proof {
            if sound_node(node@) {
                lemma_root_is_writable(node@, wrap_in_block, self.scope_helper@);
            }
        }
        match node {
            Node::Element(element) => generate_element(
                &mut self.used_imports,
                &self.scope_helper,
                element,
                wrap_in_block,
            ),
            _ => generate_child(&mut self.used_imports, &self.scope_helper, node),
        }
    }

    /// The expression that builds a comment, which stands for a node that
    /// is left out; the comment helper is noted as used.
    pub fn generate_comment_vnode(&mut self, comment: &str) -> (expr: Expression)
        ensures
            expr@ == comment_vnode(comment@),
            final(self).used_imports@ == old(self).used_imports@.insert(
                VueImports::CreateCommentVNode,
            ),
            final(self).scope_helper == old(self).scope_helper,
            writable(expr@),
    {
        generate_comment(&mut self.used_imports, comment)
    }
}

} // verus!
