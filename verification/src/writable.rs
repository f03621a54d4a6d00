//! Which trees can be written out as text. The emitter stops the program
//! at a few malformed nodes; a writable tree holds none of them.

use vstd::prelude::*;
use crate::ast::BlockStmtOrExprView;
use crate::ast::ExpressionView;
use crate::ast::ExprOrSpreadView;
use crate::ast::FunctionView;
use crate::ast::PatternView;
use crate::ast::PropertyNameView;
use crate::ast::PropertyView;
use crate::ast::PropOrSpreadView;
use crate::ast::StatementView;
use crate::module::ImportDeclView;
use crate::module::ModuleItemView;
use crate::raw::RawNode;
use crate::raw::well_formed;
use crate::raw::wf_expr;

verus! {

/// Whether `callee` stands for an expression that is known to be no `new`
/// expression: it is neither one nor a node kept whole, nor a link of an
/// optional chain that is written as its base alone.
pub open spec fn plain_callee(callee: ExpressionView) -> bool {
    match callee {
        ExpressionView::New { callee, args } => false,
        ExpressionView::Raw(raw) => false,
        ExpressionView::Literal(raw) => false,
        ExpressionView::OptChain { optional, base } => *base is Member || *base is Index
            || *base is Call,
        _ => true,
    }
}

/// Whether `expr` can be written out: each template literal in it has
/// exactly one more piece of text than it has expressions, no optional
/// call in it calls a `new` expression, and each `swc` node that it
/// carries is well formed.
pub open spec fn writable(expr: ExpressionView) -> bool
    decreases expr,
{
    match expr {
        ExpressionView::Literal(raw) => wf_expr(raw),
        ExpressionView::Raw(raw) => wf_expr(raw),
        ExpressionView::Member { obj, prop } => writable(*obj),
        ExpressionView::Index { obj, index } => writable(*obj) && writable(*index),
        ExpressionView::Call { callee, args } => writable(*callee) && writable_args(args),
        ExpressionView::New { callee, args } => writable(*callee) && match args {
            Some(args) => writable_args(args),
            None => true,
        },
        ExpressionView::OptChain { optional, base } => match *base {
            ExpressionView::Call { callee, args } => plain_callee(*callee) && writable(*callee)
                && writable_args(args),
            ExpressionView::Raw(raw) => well_formed(RawNode::Link(raw)),
            ExpressionView::Literal(raw) => well_formed(RawNode::Link(raw)),
            _ => writable(*base),
        },
        ExpressionView::Unary { op, arg } => writable(*arg),
        ExpressionView::Bin { op, left, right } => writable(*left) && writable(*right),
        ExpressionView::Cond { test, cons, alt } => writable(*test) && writable(*cons)
            && writable(*alt),
        ExpressionView::Paren(inner) => writable(*inner),
        ExpressionView::Assign { op, left, right } => writable(*left) && writable(*right),
        ExpressionView::Update { op, prefix, arg } => writable(*arg),
        ExpressionView::Await(arg) => writable(*arg),
        ExpressionView::Sequence(exprs) => writable_exprs(exprs),
        ExpressionView::Array(elems) => writable_elems(elems),
        ExpressionView::Object(obj) => writable_props(obj.props),
        ExpressionView::Fn(function) => writable_function(function),
        ExpressionView::Arrow(arrow) => writable_params(arrow.params) && match arrow.body {
            BlockStmtOrExprView::BlockStmt(block) => writable_stmts(block.stmts),
            BlockStmtOrExprView::Expr(body) => writable(*body),
        },
        ExpressionView::Tpl(tpl) => tpl.quasis.len() == tpl.exprs.len() + 1 && writable_exprs(
            tpl.exprs,
        ),
        _ => true,
    }
}

/// Whether each of `exprs` can be written out.
pub open spec fn writable_exprs(exprs: Seq<ExpressionView>) -> bool
    decreases exprs,
{
    exprs.len() == 0 || (writable_exprs(exprs.drop_last()) && writable(exprs.last()))
}

/// Whether each of `args` can be written out.
pub open spec fn writable_args(args: Seq<ExprOrSpreadView>) -> bool
    decreases args,
{
    args.len() == 0 || (writable_args(args.drop_last()) && writable(args.last().expr))
}

/// Whether each of `elems` that is there can be written out.
pub open spec fn writable_elems(elems: Seq<Option<ExprOrSpreadView>>) -> bool
    decreases elems,
{
    elems.len() == 0 || (writable_elems(elems.drop_last()) && match elems.last() {
        Some(elem) => writable(elem.expr),
        None => true,
    })
}

/// Whether a property name can be written out.
pub open spec fn writable_name(name: PropertyNameView) -> bool {
    match name {
        PropertyNameView::Raw(raw) => well_formed(RawNode::PropName(raw)),
        _ => true,
    }
}

/// Whether an entry of an object literal can be written out.
pub open spec fn writable_entry(entry: PropOrSpreadView) -> bool
    decreases entry,
{
    match entry {
        PropOrSpreadView::Spread(spread) => writable(spread),
        PropOrSpreadView::Prop(PropertyView::KeyValue { key, value }) => writable_name(key)
            && writable(value),
        PropOrSpreadView::Prop(PropertyView::Method { key, function }) => writable_name(key)
            && writable_function(function),
        PropOrSpreadView::Prop(PropertyView::Raw(raw)) => well_formed(RawNode::Prop(raw)),
    }
}

/// Whether each entry of an object literal can be written out.
pub open spec fn writable_props(props: Seq<PropOrSpreadView>) -> bool
    decreases props,
{
    props.len() == 0 || (writable_props(props.drop_last()) && writable_entry(props.last()))
}

/// Whether a parameter can be written out.
pub open spec fn writable_pat(param: PatternView) -> bool {
    match param {
        PatternView::Raw(raw) => well_formed(RawNode::Pat(raw)),
        PatternView::Ident(name) => true,
    }
}

/// Whether each of `params` can be written out.
pub open spec fn writable_params(params: Seq<PatternView>) -> bool {
    forall|i: int| 0 <= i < params.len() ==> writable_pat(#[trigger] params[i])
}

/// Whether a function can be written out.
pub open spec fn writable_function(function: FunctionView) -> bool
    decreases function,
{
    writable_params(function.params) && match function.body {
        Some(block) => writable_stmts(block.stmts),
        None => true,
    }
}

/// Whether a statement can be written out.
pub open spec fn writable_stmt(stmt: StatementView) -> bool
    decreases stmt,
{
    match stmt {
        StatementView::Return(Some(arg)) => writable(arg),
        StatementView::Return(None) => true,
        StatementView::Expr(expr) => writable(expr),
        StatementView::Raw(raw) => well_formed(RawNode::Stmt(raw)),
    }
}

/// Whether each of `stmts` can be written out.
pub open spec fn writable_stmts(stmts: Seq<StatementView>) -> bool
    decreases stmts,
{
    stmts.len() == 0 || (writable_stmts(stmts.drop_last()) && writable_stmt(stmts.last()))
}

/// Whether an import can be written out: beside a namespace specifier it
/// has at most one other specifier.
pub open spec fn writable_import(decl: ImportDeclView) -> bool {
    decl.specifiers.len() <= 2 || forall|i: int|
        0 <= i < decl.specifiers.len() ==> !(#[trigger] decl.specifiers[i] is Namespace)
}

/// Whether an item of a module can be written out.
pub open spec fn writable_item(item: ModuleItemView) -> bool {
    match item {
        ModuleItemView::Import(decl) => writable_import(decl),
        ModuleItemView::ExportDefaultExpr(expr) => writable(expr),
        ModuleItemView::ExportDefaultDecl(expr) => writable(expr),
        ModuleItemView::ExportNamed { bindings, raw } => well_formed(RawNode::Decl(raw)),
        ModuleItemView::ExportDecl { bindings, raw } => well_formed(RawNode::Decl(raw)),
        ModuleItemView::Decl(raw) => well_formed(RawNode::Decl(raw)),
        ModuleItemView::Stmt { bindings, raw } => well_formed(RawNode::Stmt(raw)),
    }
}

/// Whether each item of a module can be written out.
pub open spec fn writable_items(items: Seq<ModuleItemView>) -> bool {
    forall|i: int| 0 <= i < items.len() ==> writable_item(#[trigger] items[i])
}

/// A sequence of expressions can be written out exactly if each of them
/// can.
pub proof fn lemma_writable_exprs(exprs: Seq<ExpressionView>)
    ensures
        writable_exprs(exprs) <==> forall|i: int|
            0 <= i < exprs.len() ==> writable(#[trigger] exprs[i]),
    decreases exprs.len(),
{
    if exprs.len() > 0 {
        let front = exprs.drop_last();
        lemma_writable_exprs(front);
        assert(forall|i: int| 0 <= i < front.len() ==> front[i] == exprs[i]);
    }
}

/// A sequence of arguments can be written out exactly if each of them
/// can.
pub proof fn lemma_writable_args(args: Seq<ExprOrSpreadView>)
    ensures
        writable_args(args) <==> forall|i: int|
            0 <= i < args.len() ==> writable((#[trigger] args[i]).expr),
    decreases args.len(),
{
    if args.len() > 0 {
        let front = args.drop_last();
        lemma_writable_args(front);
        assert(forall|i: int| 0 <= i < front.len() ==> front[i] == args[i]);
    }
}

/// Whether an element of an array, where it is there, can be written out.
pub open spec fn writable_elem(elem: Option<ExprOrSpreadView>) -> bool {
    match elem {
        Some(elem) => writable(elem.expr),
        None => true,
    }
}

/// The elements of an array can be written out exactly if each of them
/// can.
pub proof fn lemma_writable_elems(elems: Seq<Option<ExprOrSpreadView>>)
    ensures
        writable_elems(elems) <==> forall|i: int|
            0 <= i < elems.len() ==> writable_elem(#[trigger] elems[i]),
    decreases elems.len(),
{
    if elems.len() > 0 {
        let front = elems.drop_last();
        lemma_writable_elems(front);
        assert(forall|i: int| 0 <= i < front.len() ==> front[i] == elems[i]);
    }
}

/// Statements can be written out exactly if each of them can.
pub proof fn lemma_writable_stmts(stmts: Seq<StatementView>)
    ensures
        writable_stmts(stmts) <==> forall|i: int|
            0 <= i < stmts.len() ==> writable_stmt(#[trigger] stmts[i]),
    decreases stmts.len(),
{
    if stmts.len() > 0 {
        let front = stmts.drop_last();
        lemma_writable_stmts(front);
        assert(forall|i: int| 0 <= i < front.len() ==> front[i] == stmts[i]);
    }
}

/// The entries of an object literal can be written out exactly if each of
/// them can.
pub proof fn lemma_writable_props(props: Seq<PropOrSpreadView>)
    ensures
        writable_props(props) <==> forall|i: int|
            0 <= i < props.len() ==> writable_entry(#[trigger] props[i]),
    decreases props.len(),
{
    if props.len() > 0 {
        let front = props.drop_last();
        lemma_writable_props(front);
        assert(forall|i: int| 0 <= i < front.len() ==> front[i] == props[i]);
    }
}

} // verus!
