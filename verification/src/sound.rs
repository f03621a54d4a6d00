//! Templates whose compiled code can be written out: those whose
//! conditions are read as expressions that can be written out. They
//! include the templates in whose conditions a member follows each `?.`
//! at once, which can be told by looking.

use vstd::prelude::*;
use crate::ast::ExpressionView;
use crate::ast::ExprOrSpreadView;
use crate::ast::ObjectLitView;
use crate::ast::PropOrSpreadView;
use crate::ast::StatementView;
use crate::conditional_seq::branch_entries;
use crate::conditional_seq::branches_entries;
use crate::conditional_seq::conditional_entries;
use crate::conditional_seq::conditional_expr;
use crate::conditional_seq::nested;
use crate::context::local_name;
use crate::context::VueImports;
use crate::elements::attribute_prop;
use crate::elements::attributes_expr;
use crate::elements::children_vnodes;
use crate::elements::element_args;
use crate::elements::element_vnode;
use crate::elements::helper_call;
use crate::elements::is_single_text;
use crate::elements::node_vnode;
use crate::elements::plain_args;
use crate::elements::root_vnode;
use crate::elements::string_lit;
use crate::module::ModuleItemView;
use crate::nodes::BranchView;
use crate::nodes::ConditionalNodeSequence;
use crate::nodes::ConditionalNodeSequenceView;
use crate::nodes::ElementNode;
use crate::nodes::ElementNodeView;
use crate::nodes::HtmlAttributeView;
use crate::nodes::Node;
use crate::nodes::NodeView;
use crate::parse::has_plain_chains;
use crate::parse::parse_js;
use crate::parse::parsed;
use crate::raw::plain_chains;
use crate::script::default_export_obj;
use crate::script::exported;
use crate::script::exposing_props;
use crate::script::first_default_export;
use crate::script::is_default_export;
use crate::script::setup_declared;
use crate::script::setup_fields;
use crate::script::setup_method;
use crate::script::setup_statements;
use crate::script::stripped;
use crate::script::unrolled;
use crate::sfc::all_helpers;
use crate::sfc::assembled;
use crate::sfc::render_method;
use crate::sfc::specifiers_of;
use crate::structs::ScopeHelperView;
use crate::transform::lemma_transformed_is_writable;
use crate::writable::lemma_writable_args;
use crate::writable::lemma_writable_elems;
use crate::writable::lemma_writable_exprs;
use crate::writable::lemma_writable_props;
use crate::writable::writable;
use crate::writable::writable_entry;
use crate::writable::writable_item;
use crate::writable::writable_items;
use crate::writable::writable_props;
use crate::writable::writable_stmt;
use crate::writable::writable_stmts;

verus! {

/// Whether the condition of a branch, where it can be read, is read as an
/// expression that can be written out, and the element of the branch is
/// sound.
pub open spec fn sound_branch(branch: BranchView) -> bool
    decreases branch, 0nat,
{
    sound_element(branch.node) && match parsed(branch.condition) {
        Some(condition) => writable(condition),
        None => true,
    }
}

/// Whether each of `branches` is sound.
pub open spec fn sound_branches(branches: Seq<BranchView>) -> bool
    decreases branches, 0nat,
{
    branches.len() == 0 || (sound_branches(branches.drop_last()) && sound_branch(branches.last()))
}

/// Whether each branch of a run of conditional siblings is sound, and the
/// `else` element too.
pub open spec fn sound_sequence(sequence: ConditionalNodeSequenceView) -> bool
    decreases sequence, 1nat,
{
    sound_branch(sequence.if_branch) && sound_branches(sequence.else_if_branches)
        && match sequence.else_node {
        Some(element) => sound_element(element),
        None => true,
    }
}

/// Whether each condition in `node` that can be read is read as an
/// expression that can be written out.
pub open spec fn sound_node(node: NodeView) -> bool
    decreases node, 0nat,
{
    match node {
        NodeView::Text(text) => true,
        NodeView::Element(element) => sound_element(element),
        NodeView::ConditionalSeq(sequence) => sound_sequence(sequence),
    }
}

/// Whether each of `children` is sound.
pub open spec fn sound_children(children: Seq<NodeView>) -> bool
    decreases children, 0nat,
{
    children.len() == 0 || (sound_children(children.drop_last()) && sound_node(children.last()))
}

/// Whether each child of `element` is sound.
pub open spec fn sound_element(element: ElementNodeView) -> bool
    decreases element, 1nat,
{
    sound_children(element.children)
}

/// Whether each of `exprs` can be written out.
pub open spec fn all_writable(exprs: Seq<ExpressionView>) -> bool {
    forall|i: int| 0 <= i < exprs.len() ==> writable(#[trigger] exprs[i])
}

/// The call of a helper on arguments that can be written out can be
/// written out.
pub proof fn lemma_helper_call_is_writable(helper: VueImports, args: Seq<ExpressionView>)
    requires
        all_writable(args),
    ensures
        writable(helper_call(helper, args)),
{
    lemma_writable_args(plain_args(args));
    assert(writable(ExpressionView::Ident(local_name(helper))));
}

/// The expression for the attributes of an element can be written out.
pub proof fn lemma_attributes_are_writable(attributes: Seq<HtmlAttributeView>)
    ensures
        writable(attributes_expr(attributes)),
{
    if attributes.len() > 0 {
        let props = Seq::new(attributes.len(), |i: int| attribute_prop(attributes[i]));
        lemma_writable_props(props);
    }
}

/// Nesting expressions that can be written out gives an expression that
/// can be written out.
pub proof fn lemma_nested_is_writable(entries: Seq<ExpressionView>)
    requires
        entries.len() > 0,
        all_writable(entries),
    ensures
        writable(nested(entries)),
    decreases entries.len(),
{
    if entries.len() >= 3 {
        let rest = entries.skip(2);
        lemma_nested_is_writable(rest);
    }
}

/// The expression that builds a sound element can be written out.
pub proof fn lemma_element_is_writable(
    element: ElementNodeView,
    wrap_in_block: bool,
    helper: ScopeHelperView,
)
    requires
        sound_element(element),
    ensures
        writable(element_vnode(element, wrap_in_block, helper)),
    decreases element, 1nat,
{
    let args = element_args(element, helper);
    lemma_attributes_are_writable(element.attributes);
    assert(all_writable(args)) by {
        if element.children.len() != 0 && !is_single_text(element.children) {
            let vnodes = children_vnodes(element.children, helper);
            lemma_children_are_writable(element.children, helper);
            let elems = Seq::new(
                vnodes.len(),
                |i: int| Some(ExprOrSpreadView { spread: false, expr: vnodes[i] }),
            );
            lemma_writable_elems(elems);
        }
    }
    if wrap_in_block {
        let open = helper_call(VueImports::OpenBlock, Seq::empty());
        let block = helper_call(VueImports::CreateElementBlock, args);
        lemma_helper_call_is_writable(VueImports::OpenBlock, Seq::empty());
        lemma_helper_call_is_writable(VueImports::CreateElementBlock, args);
        let both = seq![open, block];
        lemma_writable_exprs(both);
        assert(writable(ExpressionView::Sequence(both)));
    } else {
        lemma_helper_call_is_writable(VueImports::CreateElementVNode, args);
    }
}

/// The expressions that build sound children can be written out.
pub proof fn lemma_children_are_writable(children: Seq<NodeView>, helper: ScopeHelperView)
    requires
        sound_children(children),
    ensures
        all_writable(children_vnodes(children, helper)),
        children_vnodes(children, helper).len() == children.len(),
    decreases children, 0nat,
{
    if children.len() > 0 {
        lemma_children_are_writable(children.drop_last(), helper);
        lemma_node_is_writable(children.last(), helper);
    }
}

/// The expression that builds a sound node can be written out.
pub proof fn lemma_node_is_writable(node: NodeView, helper: ScopeHelperView)
    requires
        sound_node(node),
    ensures
        writable(node_vnode(node, helper)),
    decreases node, 0nat,
{
    match node {
        NodeView::Text(text) => {
            lemma_helper_call_is_writable(VueImports::CreateTextVNode, seq![string_lit(text)]);
        },
        NodeView::Element(element) => {
            lemma_element_is_writable(element, false, helper);
        },
        NodeView::ConditionalSeq(sequence) => {
            lemma_sequence_is_writable(sequence, helper);
        },
    }
}

/// What a sound branch adds to the list that is folded can be written
/// out.
pub proof fn lemma_branch_is_writable(branch: BranchView, helper: ScopeHelperView)
    requires
        sound_branch(branch),
    ensures
        all_writable(branch_entries(branch, helper)),
    decreases branch, 0nat,
{
    if let Some(condition) = parsed(branch.condition) {
        lemma_transformed_is_writable(condition, helper, branch.node.template_scope, Seq::empty());
        lemma_element_is_writable(branch.node, false, helper);
    }
}

/// What sound branches add to the list that is folded can be written out.
pub proof fn lemma_branches_are_writable(branches: Seq<BranchView>, helper: ScopeHelperView)
    requires
        sound_branches(branches),
    ensures
        all_writable(branches_entries(branches, helper)),
    decreases branches, 0nat,
{
    if branches.len() > 0 {
        lemma_branches_are_writable(branches.drop_last(), helper);
        lemma_branch_is_writable(branches.last(), helper);
    }
}

/// The expression for a sound run of conditional siblings can be written
/// out.
pub proof fn lemma_sequence_is_writable(
    sequence: ConditionalNodeSequenceView,
    helper: ScopeHelperView,
)
    requires
        sound_sequence(sequence),
    ensures
        writable(conditional_expr(sequence, helper)),
    decreases sequence, 1nat,
{
    if parsed(sequence.if_branch.condition) is Some {
        lemma_branch_is_writable(sequence.if_branch, helper);
        lemma_branches_are_writable(sequence.else_if_branches, helper);
        match sequence.else_node {
            Some(element) => {
                lemma_element_is_writable(element, false, helper);
            },
            None => {
                lemma_helper_call_is_writable(
                    VueImports::CreateCommentVNode,
                    seq![string_lit("v-if"@)],
                );
            },
        }
        lemma_nested_is_writable(conditional_entries(sequence, helper));
    }
}

/// The expression that builds a sound node at the root of a template can
/// be written out.
pub proof fn lemma_root_is_writable(node: NodeView, wrap_in_block: bool, helper: ScopeHelperView)
    requires
        sound_node(node),
    ensures
        writable(root_vnode(node, wrap_in_block, helper)),
{
    match node {
        NodeView::Element(element) => {
            lemma_element_is_writable(element, wrap_in_block, helper);
        },
        _ => {
            lemma_node_is_writable(node, helper);
        },
    }
}

/// The helpers are imported by name.
pub proof fn lemma_specifiers_are_named(helpers: Seq<VueImports>, used: Set<VueImports>)
    ensures
        forall|i: int|
            0 <= i < specifiers_of(helpers, used).len() ==> (#[trigger] specifiers_of(
                helpers,
                used,
            )[i]) is Named,
    decreases helpers.len(),
{
    if helpers.len() > 0 {
        lemma_specifiers_are_named(helpers.drop_last(), used);
    }
}

/// A module assembled from parts that can be written out can be written
/// out.
pub proof fn lemma_assembled_is_writable(
    template_expr: ExpressionView,
    script: Seq<ModuleItemView>,
    definition: Seq<PropOrSpreadView>,
    used: Set<VueImports>,
)
    requires
        writable(template_expr),
        writable_items(script),
        writable_props(definition),
    ensures
        writable_items(assembled(template_expr, script, definition, used)),
{
    let props = definition.push(render_method(template_expr));
    lemma_specifiers_are_named(all_helpers(), used);
    assert(writable_entry(render_method(template_expr))) by {
        let stmts = seq![StatementView::Return(Some(template_expr))];
        assert(writable_stmts(stmts.drop_last()));
        assert(writable_stmt(stmts.last()));
        assert(writable_stmts(stmts));
    }
    assert(props.drop_last() =~= definition);
    assert(writable_props(props));
}

/// The first default export of a module is one of its items.
pub proof fn lemma_first_default_export(body: Seq<ModuleItemView>)
    ensures
        match first_default_export(body) {
            Some(i) => 0 <= i < body.len() && is_default_export(body[i]),
            None => true,
        },
    decreases body.len(),
{
    if body.len() > 0 && !is_default_export(body[0]) {
        lemma_first_default_export(body.skip(1));
    }
}

/// What is left of a module that can be written out, and the definition
/// object that it exports, can be written out.
pub proof fn lemma_stripped_is_writable(body: Seq<ModuleItemView>)
    requires
        writable_items(body),
    ensures
        writable_items(stripped(body)),
        writable_props(default_export_obj(body).props),
{
    lemma_first_default_export(body);
    match first_default_export(body) {
        Some(i) => {
            let expr = exported(body[i]);
            if let ExpressionView::Call { callee, args } = expr {
                lemma_writable_args(args);
            }
            let inner = unrolled(expr);
            if !(inner is Object) {
                let props = seq![PropOrSpreadView::Spread(inner)];
                assert(writable_props(props.drop_last()));
                assert(writable_entry(props.last()));
            }
        },
        None => {},
    }
}

/// The statements of a setup script that can be written out can be
/// written out.
pub proof fn lemma_setup_statements_are_writable(body: Seq<ModuleItemView>)
    requires
        writable_items(body),
    ensures
        writable_stmts(setup_statements(body)),
    decreases body.len(),
{
    if body.len() > 0 {
        let front = body.drop_last();
        lemma_setup_statements_are_writable(front);
        if let ModuleItemView::Stmt { bindings, raw } = body.last() {
            let before = setup_statements(front);
            assert(before.push(StatementView::Raw(raw)).drop_last() =~= before);
            assert(writable_item(body[body.len() - 1]));
            assert(writable_stmt(StatementView::Raw(raw)));
        }
    }
}

/// The fields that a setup script that can be written out adds can be
/// written out.
pub proof fn lemma_setup_fields_are_writable(body: Seq<ModuleItemView>)
    requires
        writable_items(body),
    ensures
        writable_props(setup_fields(body)),
{
    let stmts = setup_statements(body);
    let exposing = exposing_props(setup_declared(body));
    let object = ExpressionView::Object(ObjectLitView { props: exposing });
    lemma_setup_statements_are_writable(body);
    lemma_writable_props(exposing);
    assert(writable(object));
    let all = stmts.push(StatementView::Return(Some(object)));
    assert(all.drop_last() =~= stmts);
    assert(writable_stmt(all.last()));
    assert(writable_stmts(all));
    let method = setup_method(stmts, setup_declared(body));
    assert(writable_entry(method));
    let fields = seq![method];
    assert(writable_props(fields.drop_last()));
}

/// One list of entries after another can be written out where both can.
pub proof fn lemma_joined_props_are_writable(
    first: Seq<PropOrSpreadView>,
    second: Seq<PropOrSpreadView>,
)
    requires
        writable_props(first),
        writable_props(second),
    ensures
        writable_props(first + second),
{
    lemma_writable_props(first);
    lemma_writable_props(second);
    lemma_writable_props(first + second);
}

/// Whether a member follows each `?.` of the condition of a branch at
/// once, and of each condition in its element.
pub open spec fn plain_branch(branch: BranchView) -> bool
    decreases branch, 0nat,
{
    plain_chains(branch.condition) && plain_element(branch.node)
}

/// Whether each of `branches` is plain.
pub open spec fn plain_branches(branches: Seq<BranchView>) -> bool
    decreases branches, 0nat,
{
    branches.len() == 0 || (plain_branches(branches.drop_last()) && plain_branch(branches.last()))
}

/// Whether each branch of a run of conditional siblings is plain, and the
/// `else` element too.
pub open spec fn plain_sequence(sequence: ConditionalNodeSequenceView) -> bool
    decreases sequence, 1nat,
{
    plain_branch(sequence.if_branch) && plain_branches(sequence.else_if_branches)
        && match sequence.else_node {
        Some(element) => plain_element(element),
        None => true,
    }
}

/// Whether a member follows each `?.` of each condition in `node` at
/// once.
pub open spec fn plain_node(node: NodeView) -> bool
    decreases node, 0nat,
{
    match node {
        NodeView::Text(text) => true,
        NodeView::Element(element) => plain_element(element),
        NodeView::ConditionalSeq(sequence) => plain_sequence(sequence),
    }
}

/// Whether each of `children` is plain.
pub open spec fn plain_children(children: Seq<NodeView>) -> bool
    decreases children, 0nat,
{
    children.len() == 0 || (plain_children(children.drop_last()) && plain_node(children.last()))
}

/// Whether each child of `element` is plain.
pub open spec fn plain_element(element: ElementNodeView) -> bool
    decreases element, 1nat,
{
    plain_children(element.children)
}

/// Plain children are plain one by one.
pub proof fn lemma_plain_children(children: Seq<NodeView>, i: int)
    requires
        plain_children(children),
        0 <= i < children.len(),
    ensures
        plain_node(children[i]),
    decreases children.len(),
{
    if i < children.len() - 1 {
        lemma_plain_children(children.drop_last(), i);
    }
}

/// Plain branches are plain one by one.
pub proof fn lemma_plain_branches(branches: Seq<BranchView>, i: int)
    requires
        plain_branches(branches),
        0 <= i < branches.len(),
    ensures
        plain_branch(branches[i]),
    decreases branches.len(),
{
    if i < branches.len() - 1 {
        lemma_plain_branches(branches.drop_last(), i);
    }
}

/// Whether a member follows each `?.` of each condition in `node` at
/// once. The compiled code of such a node can be written out.
pub fn has_plain_conditions(node: &Node) -> (plain: bool)
    ensures
        plain == plain_node(node@),
        plain ==> sound_node(node@),
    decreases node, 0nat,
{
    match node {
        Node::Text(_) => true,
        Node::Element(element) => element_has_plain_conditions(element),
        Node::ConditionalSeq(sequence) => sequence_has_plain_conditions(sequence),
    }
}

/// Whether a member follows each `?.` of each condition in `element` at
/// once. The compiled code of such an element can be written out.
pub fn element_has_plain_conditions(element: &ElementNode) -> (plain: bool)
    ensures
        plain == plain_element(element@),
        plain ==> sound_element(element@),
    decreases element, 1nat,
{
    let ghost view = element@;
    let children = &element.children;
    let mut i: usize = 0;
    while i < children.len()
        invariant
            i <= children.len(),
            children == &element.children,
            view == element@,
            plain_children(view.children.take(i as int)),
            sound_children(view.children.take(i as int)),
        decreases children.len() - i,
    {
        let ghost before = view.children.take(i as int);
        let ghost after = view.children.take(i + 1);
        assert(after.drop_last() == before);
        if !has_plain_conditions(&children[i]) {
            proof {
                if plain_children(view.children) {
                    lemma_plain_children(view.children, i as int);
                }
            }
            return false;
        }
        i = i + 1;
    }
    assert(view.children.take(i as int) == view.children);
    true
}

/// Whether a member follows each `?.` of `condition` and of each
/// condition in `element` at once.
fn branch_has_plain_conditions(condition: &str, element: &ElementNode) -> (plain: bool)
    ensures
        plain == plain_branch(BranchView { condition: condition@, node: element@ }),
        plain ==> sound_branch(BranchView { condition: condition@, node: element@ }),
    decreases element, 2nat,
{
    if !has_plain_chains(condition) {
        return false;
    }
    // Reading a condition with plain chains gives what can be written out
    let _read = parse_js(condition);
    element_has_plain_conditions(element)
}

/// Whether a member follows each `?.` of each condition in `sequence` at
/// once. The compiled code of such a run can be written out.
pub fn sequence_has_plain_conditions(sequence: &ConditionalNodeSequence) -> (plain: bool)
    ensures
        plain == plain_sequence(sequence@),
        plain ==> sound_sequence(sequence@),
    decreases sequence, 3nat,
{
    let ghost view = sequence@;
    if !branch_has_plain_conditions(sequence.if_node.0.as_str(), &sequence.if_node.1) {
        return false;
    }
    let else_if_nodes = &sequence.else_if_nodes;
    let mut i: usize = 0;
    while i < else_if_nodes.len()
        invariant
            i <= else_if_nodes.len(),
            else_if_nodes == &sequence.else_if_nodes,
            view == sequence@,
            plain_branches(view.else_if_branches.take(i as int)),
            sound_branches(view.else_if_branches.take(i as int)),
        decreases else_if_nodes.len() - i,
    {
        let ghost before = view.else_if_branches.take(i as int);
        let ghost after = view.else_if_branches.take(i + 1);
        assert(after.drop_last() == before);
        let plain = branch_has_plain_conditions(else_if_nodes[i].0.as_str(), &else_if_nodes[i].1);
        if !plain {
            proof {
                if plain_branches(view.else_if_branches) {
                    lemma_plain_branches(view.else_if_branches, i as int);
                }
            }
            return false;
        }
        i = i + 1;
    }
    assert(view.else_if_branches.take(i as int) == view.else_if_branches);
    match &sequence.else_node {
        Some(element) => element_has_plain_conditions(element),
        None => true,
    }
}

} // verus!
