//! Folding a run of conditional siblings into one expression.

use vstd::prelude::*;
use crate::ast::Expression;
use crate::ast::ExpressionView;
use crate::ast::exprs_view;
use crate::context::CodegenContext;
use crate::context::UsedImports;
use crate::context::VueImports;
use crate::elements::call_helper;
use crate::elements::comment_vnode;
use crate::elements::element_imports;
use crate::elements::element_vnode;
use crate::elements::generate_element;
use crate::elements::string_lit;
use crate::nodes::BranchView;
use crate::nodes::ConditionalNodeSequence;
use crate::nodes::ConditionalNodeSequenceView;
use crate::nodes::ElementNodeView;
use crate::parse::parse_js;
use crate::parse::parsed;
use crate::sound::all_writable;
use crate::sound::lemma_nested_is_writable;
use crate::sound::lemma_sequence_is_writable;
use crate::sound::sound_sequence;
use crate::structs::ScopeHelper;
use crate::structs::ScopeHelperView;
use crate::transform::transform_scoped;
use crate::transform::transformed;
use crate::writable::writable;

verus! {

/// What a branch adds to the list that is folded: its condition, rewritten
/// in the scope of its element, and then the expression that builds its
/// element. A branch whose condition cannot be read adds nothing.
pub open spec fn branch_entries(branch: BranchView, helper: ScopeHelperView) -> Seq<ExpressionView>
    decreases branch, 0nat,
{
    match parsed(branch.condition) {
        Some(condition) => seq![
            transformed(condition, helper, branch.node.template_scope),
            element_vnode(branch.node, false, helper),
        ],
        None => Seq::empty(),
    }
}

/// What the branches add to the list that is folded, in their order.
pub open spec fn branches_entries(branches: Seq<BranchView>, helper: ScopeHelperView) -> Seq<
    ExpressionView,
>
    decreases branches, 0nat,
{
    if branches.len() == 0 {
        Seq::empty()
    } else {
        branches_entries(branches.drop_last(), helper) + branch_entries(branches.last(), helper)
    }
}

/// The last entry of the list: the expression that builds the `else`
/// element, or a comment where there is none.
pub open spec fn else_entry(else_node: Option<ElementNodeView>, helper: ScopeHelperView) -> ExpressionView
    decreases else_node, 0nat,
{
    match else_node {
        Some(element) => element_vnode(element, false, helper),
        None => comment_vnode("v-if"@),
    }
}

/// The list that is folded: the entries of the `if` branch, those of the
/// `else-if` branches, and the last entry.
pub open spec fn conditional_entries(
    sequence: ConditionalNodeSequenceView,
    helper: ScopeHelperView,
) -> Seq<ExpressionView>
    decreases sequence, 0nat,
{
    branch_entries(sequence.if_branch, helper) + branches_entries(
        sequence.else_if_branches,
        helper,
    ) + seq![else_entry(sequence.else_node, helper)]
}

/// The list `condition, consequent, condition, consequent, .., last` as
/// nested conditionals: the first condition is the outermost test, and
/// each alternative holds the rest of the list.
pub open spec fn nested(entries: Seq<ExpressionView>) -> ExpressionView
    decreases entries.len(),
{
    if entries.len() >= 3 {
        ExpressionView::Cond {
            test: Box::new(entries[0]),
            cons: Box::new(entries[1]),
            alt: Box::new(nested(entries.skip(2))),
        }
    } else {
        entries.last()
    }
}

/// The expression for a run of conditional siblings: the placeholder for
/// an unreadable expression where the `if` condition cannot be read, else
/// the nested conditionals of its entries.
pub open spec fn conditional_expr(
    sequence: ConditionalNodeSequenceView,
    helper: ScopeHelperView,
) -> ExpressionView
    decreases sequence, 1nat,
{
    if parsed(sequence.if_branch.condition) is None {
        ExpressionView::Invalid
    } else {
        nested(conditional_entries(sequence, helper))
    }
}

/// The helpers that the entries of a branch call.
pub open spec fn branch_imports(branch: BranchView) -> Set<VueImports>
    decreases branch, 0nat,
{
    if parsed(branch.condition) is Some {
        element_imports(branch.node, false)
    } else {
        Set::empty()
    }
}

/// The helpers that the entries of the branches call.
pub open spec fn branches_imports(branches: Seq<BranchView>) -> Set<VueImports>
    decreases branches, 0nat,
{
    if branches.len() == 0 {
        Set::empty()
    } else {
        branches_imports(branches.drop_last()).union(branch_imports(branches.last()))
    }
}

/// The helpers that the expression for a run of conditional siblings
/// calls: none where the `if` condition cannot be read.
pub open spec fn conditional_imports(sequence: ConditionalNodeSequenceView) -> Set<VueImports>
    decreases sequence, 0nat,
{
    if parsed(sequence.if_branch.condition) is None {
        Set::empty()
    } else {
        branch_imports(sequence.if_branch).union(
            branches_imports(sequence.else_if_branches),
        ).union(
            match sequence.else_node {
                Some(element) => element_imports(element, false),
                None => set![VueImports::CreateCommentVNode],
            },
        )
    }
}

/// Folding the last three entries of a list into one conditional leaves
/// the nested conditionals of the list as they are.
pub proof fn lemma_fold_last_three(entries: Seq<ExpressionView>)
    requires
        entries.len() >= 3,
        entries.len() % 2 == 1,
    ensures
        nested(entries) == nested(
            entries.take(entries.len() - 3).push(
                ExpressionView::Cond {
                    test: Box::new(entries[entries.len() - 3]),
                    cons: Box::new(entries[entries.len() - 2]),
                    alt: Box::new(entries[entries.len() - 1]),
                },
            ),
        ),
    decreases entries.len(),
{
    let n = entries.len() as int;
    let last = ExpressionView::Cond {
        test: Box::new(entries[n - 3]),
        cons: Box::new(entries[n - 2]),
        alt: Box::new(entries[n - 1]),
    };
    let folded = entries.take(n - 3).push(last);
    if n == 3 {
        assert(nested(entries.skip(2)) == entries[2]);
    } else {
        let rest = entries.skip(2);
        lemma_fold_last_three(rest);
        let m = rest.len() as int;
        assert(rest.take(m - 3).push(
            ExpressionView::Cond {
                test: Box::new(rest[m - 3]),
                cons: Box::new(rest[m - 2]),
                alt: Box::new(rest[m - 1]),
            },
        ) =~= folded.skip(2));
    }
}

/// Folds the list `condition, consequent, .., last` from its end: the last
/// three entries become one conditional, until one entry is left.
pub fn fold_conditional(entries: Vec<Expression>) -> (expr: Expression)
    requires
        entries@.len() % 2 == 1,
    ensures
        expr@ == nested(exprs_view(entries@)),
        all_writable(exprs_view(entries@)) ==> writable(expr@),
{
    let ghost all = exprs_view(entries@);
    proof {
        if all_writable(all) {
            lemma_nested_is_writable(all);
        }
    }
    let mut entries = entries;
    while entries.len() >= 3
        invariant
            entries@.len() % 2 == 1,
            nested(exprs_view(entries@)) == nested(all),
        decreases entries@.len(),
    {
        let ghost before = exprs_view(entries@);
        let negative_branch = entries.pop().unwrap();
        let positive_branch = entries.pop().unwrap();
        let condition = entries.pop().unwrap();
        let ternary = Expression::conditional(condition, positive_branch, negative_branch);
        entries.push(ternary);
        proof {
            lemma_fold_last_three(before);
            assert(exprs_view(entries@) =~= before.take(before.len() - 3).push(ternary@));
        }
    }
    entries.pop().unwrap()
}

/// Compiles a run of conditional siblings into one expression, with the
/// helpers that it calls noted as used: each condition, resolved against
/// `helper`, tests whether its element is built, in source order, and the
/// `else` element, or a comment, is built when none holds. A condition
/// that cannot be read drops its `else-if` branch; an unreadable `if`
/// condition gives the placeholder for an unreadable expression, and
/// compiles nothing.
pub fn generate_conditional(
    used: &mut UsedImports,
    helper: &ScopeHelper,
    conditional_seq: &ConditionalNodeSequence,
) -> (expr: Expression)
    ensures
        expr@ == conditional_expr(conditional_seq@, helper@),
        final(used)@ == old(used)@.union(conditional_imports(conditional_seq@)),
        sound_sequence(conditional_seq@) ==> writable(expr@),
    decreases conditional_seq, 2nat,
{
    let ghost sequence = conditional_seq@;
    proof {
        if sound_sequence(sequence) {
            lemma_sequence_is_writable(sequence, helper@);
        }
    }
    let ghost scopes = helper@;
    let ghost noted = used@;
    let if_cond = &conditional_seq.if_node.0;
    let if_element_node = &conditional_seq.if_node.1;

    let mut conditional_exprs: Vec<Expression> = Vec::new();

    // First, the `if` branch
    let mut if_expr = match parse_js(if_cond.as_str()) {
        Some(if_expr) => if_expr,
        None => {
            return Expression::Invalid;
        },
    };
    let _has_js = transform_scoped(&mut if_expr, helper, if_element_node.template_scope);
    conditional_exprs.push(if_expr);
    conditional_exprs.push(generate_element(used, helper, if_element_node, false));

    // Then, all the `else-if` branches
    let else_if_nodes = &conditional_seq.else_if_nodes;
    let mut i: usize = 0;
    while i < else_if_nodes.len()
        invariant
            i <= else_if_nodes.len(),
            else_if_nodes == &conditional_seq.else_if_nodes,
            sequence == conditional_seq@,
            scopes == helper@,
            exprs_view(conditional_exprs@) == branch_entries(sequence.if_branch, scopes)
                + branches_entries(sequence.else_if_branches.take(i as int), scopes),
            used@ == noted.union(branch_imports(sequence.if_branch)).union(
                branches_imports(sequence.else_if_branches.take(i as int)),
            ),
        decreases else_if_nodes.len() - i,
    {
        let ghost before = sequence.else_if_branches.take(i as int);
        let ghost after = sequence.else_if_branches.take(i + 1);
        let ghost entries_before = exprs_view(conditional_exprs@);
        assert(after.drop_last() == before);
        let else_if_cond = &else_if_nodes[i].0;
        let else_if_node = &else_if_nodes[i].1;
        i = i + 1;
        assert(branches_entries(after, scopes) == branches_entries(before, scopes)
            + branch_entries(after.last(), scopes));
        assert(branches_imports(after) == branches_imports(before).union(
            branch_imports(after.last()),
        ));
        let mut else_if_expr = match parse_js(else_if_cond.as_str()) {
            Some(else_if_expr) => else_if_expr,
            None => {
                continue ;
            },
        };
        let _has_js = transform_scoped(&mut else_if_expr, helper, else_if_node.template_scope);
        conditional_exprs.push(else_if_expr);
        conditional_exprs.push(generate_element(used, helper, else_if_node, false));
        assert(exprs_view(conditional_exprs@) =~= entries_before + branch_entries(
            after.last(),
            scopes,
        ));
    }
    assert(sequence.else_if_branches.take(i as int) == sequence.else_if_branches);

    // Either the `else` element or a comment
    let else_expr = match &conditional_seq.else_node {
        Some(else_node) => generate_element(used, helper, else_node, false),
        None => generate_comment(used, "v-if"),
    };
    conditional_exprs.push(else_expr);
    assert(exprs_view(conditional_exprs@) =~= conditional_entries(sequence, scopes));

    // And lastly, the fold from the back
    proof {
        lemma_entries_odd(sequence, scopes);
    }
    fold_conditional(conditional_exprs)
}

/// The expression that builds a comment; the comment helper is noted as
/// used.
pub fn generate_comment(used: &mut UsedImports, comment: &str) -> (expr: Expression)
    ensures
        expr@ == comment_vnode(comment@),
        final(used)@ == old(used)@.insert(VueImports::CreateCommentVNode),
        writable(expr@),
{
    let mut args: Vec<Expression> = Vec::new();
    args.push(Expression::string(comment.to_owned()));
    assert(exprs_view(args@) =~= seq![string_lit(comment@)]);
    assert(all_writable(exprs_view(args@)));
    call_helper(used, VueImports::CreateCommentVNode, args)
}

impl CodegenContext {
    /// Compiles a run of conditional siblings into one expression, as
    /// [`generate_conditional`] does, against the registries of this
    /// compilation.
    pub fn generate_conditional_seq(&mut self, conditional_seq: &ConditionalNodeSequence) -> (expr:
        Expression)
        ensures
            expr@ == conditional_expr(conditional_seq@, old(self).scope_helper@),
            final(self).used_imports@ == old(self).used_imports@.union(
                conditional_imports(conditional_seq@),
            ),
            final(self).scope_helper == old(self).scope_helper,
            sound_sequence(conditional_seq@) ==> writable(expr@),
    {
        generate_conditional(&mut self.used_imports, &self.scope_helper, conditional_seq)
    }
}

/// The branches add an even number of entries.
pub proof fn lemma_branches_entries_even(branches: Seq<BranchView>, helper: ScopeHelperView)
    ensures
        branches_entries(branches, helper).len() % 2 == 0,
    decreases branches.len(),
{
    if branches.len() > 0 {
        lemma_branches_entries_even(branches.drop_last(), helper);
        assert(branch_entries(branches.last(), helper).len() % 2 == 0);
    }
}

/// The list that is folded has an odd number of entries.
pub proof fn lemma_entries_odd(sequence: ConditionalNodeSequenceView, helper: ScopeHelperView)
    ensures
        conditional_entries(sequence, helper).len() % 2 == 1,
{
    lemma_branches_entries_even(sequence.else_if_branches, helper);
}

/// The expression reached from `expr` by going `depth` times into the
/// alternative of a conditional.
pub open spec fn alternative_at(expr: ExpressionView, depth: nat) -> ExpressionView
    decreases depth,
{
    if depth == 0 {
        expr
    } else {
        match expr {
            ExpressionView::Cond { test, cons, alt } => alternative_at(*alt, (depth - 1) as nat),
            _ => expr,
        }
    }
}

/// Whether every one of `branches` has a condition that can be read.
pub open spec fn all_readable(branches: Seq<BranchView>) -> bool {
    forall|i: int| 0 <= i < branches.len() ==> parsed(#[trigger] branches[i].condition) is Some
}

/// The rewritten condition of a branch whose condition can be read.
pub open spec fn branch_condition(branch: BranchView, helper: ScopeHelperView) -> ExpressionView {
    transformed(parsed(branch.condition)->Some_0, helper, branch.node.template_scope)
}

/// Whether `expr` is a conditional that tests the rewritten condition of
/// `branch` and, where it holds, builds the element of `branch`.
pub open spec fn tests_branch(expr: ExpressionView, branch: BranchView, helper: ScopeHelperView) -> bool {
    &&& expr is Cond
    &&& *expr->Cond_test == branch_condition(branch, helper)
    &&& *expr->Cond_cons == element_vnode(branch.node, false, helper)
}

/// In the nested conditionals of a list of `2 * pairs + 1` entries, going
/// `k` times into the alternative reaches the conditional of the `k`-th
/// pair, and going `pairs` times reaches the last entry.
pub proof fn lemma_nested_spine(entries: Seq<ExpressionView>, pairs: int, k: int)
    requires
        entries.len() == 2 * pairs + 1,
        0 <= k <= pairs,
    ensures
        k < pairs ==> alternative_at(nested(entries), k as nat) == (ExpressionView::Cond {
            test: Box::new(entries[2 * k]),
            cons: Box::new(entries[2 * k + 1]),
            alt: Box::new(nested(entries.skip(2 * k + 2))),
        }),
        k == pairs ==> alternative_at(nested(entries), k as nat) == entries[2 * pairs],
    decreases k,
{
    if k > 0 {
        let rest = entries.skip(2);
        lemma_nested_spine(rest, pairs - 1, k - 1);
        if k < pairs {
            assert(rest.skip(2 * (k - 1) + 2) =~= entries.skip(2 * k + 2));
        }
    }
}

/// Branches whose conditions can all be read add two entries each: the
/// rewritten condition and the expression that builds the element.
pub proof fn lemma_readable_entries(branches: Seq<BranchView>, helper: ScopeHelperView)
    requires
        all_readable(branches),
    ensures
        branches_entries(branches, helper).len() == 2 * branches.len(),
        forall|i: int|
            0 <= i < branches.len() ==> {
                &&& branches_entries(branches, helper)[2 * i] == branch_condition(
                    #[trigger] branches[i],
                    helper,
                )
                &&& branches_entries(branches, helper)[2 * i + 1] == element_vnode(
                    branches[i].node,
                    false,
                    helper,
                )
            },
    decreases branches.len(),
{
    if branches.len() > 0 {
        let before = branches.drop_last();
        assert forall|i: int| 0 <= i < before.len() implies parsed(
            #[trigger] before[i].condition,
        ) is Some by {
            assert(before[i] == branches[i]);
        }
        lemma_readable_entries(before, helper);
        assert(branch_entries(branches.last(), helper) =~= seq![
            branch_condition(branches.last(), helper),
            element_vnode(branches.last().node, false, helper),
        ]);
        assert forall|i: int| 0 <= i < branches.len() implies {
            &&& branches_entries(branches, helper)[2 * i] == branch_condition(
                #[trigger] branches[i],
                helper,
            )
            &&& branches_entries(branches, helper)[2 * i + 1] == element_vnode(
                branches[i].node,
                false,
                helper,
            )
        } by {
            if i < before.len() {
                assert(before[i] == branches[i]);
            }
        }
    }
}

/// Where the `if` condition and the conditions of all `N` `else-if`
/// branches can be read, the expression for the run is a conditional
/// nested `N + 1` deep along its alternatives: the outermost test is the
/// `if` condition, the conditional reached by going `k` times into the
/// alternative tests the `k`-th `else-if` condition and builds its
/// element, and below the innermost stands the last entry.
pub proof fn lemma_nests_every_branch(
    sequence: ConditionalNodeSequenceView,
    helper: ScopeHelperView,
    k: int,
)
    requires
        parsed(sequence.if_branch.condition) is Some,
        all_readable(sequence.else_if_branches),
        0 <= k <= sequence.else_if_branches.len() + 1,
    ensures
        k == 0 ==> tests_branch(
            alternative_at(conditional_expr(sequence, helper), k as nat),
            sequence.if_branch,
            helper,
        ),
        0 < k <= sequence.else_if_branches.len() ==> tests_branch(
            alternative_at(conditional_expr(sequence, helper), k as nat),
            sequence.else_if_branches[k - 1],
            helper,
        ),
        k == sequence.else_if_branches.len() + 1 ==> alternative_at(
            conditional_expr(sequence, helper),
            k as nat,
        ) == else_entry(sequence.else_node, helper),
{
    let branches = sequence.else_if_branches;
    let entries = conditional_entries(sequence, helper);
    let pairs: int = branches.len() as int + 1;
    lemma_readable_entries(branches, helper);
    lemma_nested_spine(entries, pairs, k);
}

/// Branches that follow one another add the entries of the first group and
/// then those of the second.
pub proof fn lemma_entries_of_both(
    first: Seq<BranchView>,
    second: Seq<BranchView>,
    helper: ScopeHelperView,
)
    ensures
        branches_entries(first + second, helper) == branches_entries(first, helper)
            + branches_entries(second, helper),
    decreases second.len(),
{
    if second.len() > 0 {
        lemma_entries_of_both(first, second.drop_last(), helper);
        assert((first + second).drop_last() =~= first + second.drop_last());
    }
}

/// An `else-if` branch whose condition cannot be read leaves no trace in
/// the list that is folded: the list is that of the run without the
/// branch, in which all other branches keep their order.
pub proof fn lemma_unreadable_branch_is_dropped(
    sequence: ConditionalNodeSequenceView,
    helper: ScopeHelperView,
    i: int,
)
    requires
        0 <= i < sequence.else_if_branches.len(),
        parsed(sequence.else_if_branches[i].condition) is None,
    ensures
        conditional_entries(sequence, helper) == conditional_entries(
            ConditionalNodeSequenceView {
                else_if_branches: sequence.else_if_branches.remove(i),
                ..sequence
            },
            helper,
        ),
{
    let branches = sequence.else_if_branches;
    let before = branches.take(i);
    let dropped = seq![branches[i]];
    let after = branches.skip(i + 1);
    let without = ConditionalNodeSequenceView { else_if_branches: branches.remove(i), ..sequence };
    assert(branches =~= before + dropped + after);
    lemma_entries_of_both(before + dropped, after, helper);
    lemma_entries_of_both(before, dropped, helper);
    lemma_entries_of_both(before, after, helper);
    assert(branches_entries(dropped, helper) =~= Seq::<ExpressionView>::empty()) by {
        assert(branches_entries(dropped, helper) == branches_entries(dropped.drop_last(), helper)
            + branch_entries(dropped.last(), helper));
    }
}

} // verus!
