//! Building the `swc` tree that a syntax tree of this library stands for,
//! and writing it out as text.

use vstd::prelude::*;
use swc_core::ecma::ast::Expr as RawExpr;
use swc_core::ecma::ast::Pat as RawPat;
use swc_core::ecma::ast::Prop as RawProp;
use swc_core::ecma::ast::PropName as RawPropName;
use swc_core::ecma::ast::Stmt as RawStmt;
use crate::ast::BlockStmt;
use crate::ast::BlockStmtOrExpr;
use crate::ast::Expression;
use crate::ast::ExprOrSpread;
use crate::ast::Function;
use crate::ast::ObjectLit;
use crate::ast::Pattern;
use crate::ast::Property;
use crate::ast::PropertyName;
use crate::ast::PropOrSpread;
use crate::ast::Statement;
use crate::context::CodegenContext;
use crate::module::ImportDecl;
use crate::module::ImportName;
use crate::module::Module;
use crate::module::ModuleItem;
use crate::raw::ArrowBody;
use crate::raw::ArrowBodyShape;
use crate::raw::build;
use crate::raw::build_arrow;
use crate::raw::build_call;
use crate::raw::build_chain;
use crate::raw::build_effect;
use crate::raw::build_export_default;
use crate::raw::build_export_default_decl;
use crate::raw::build_expr_stmt;
use crate::raw::build_fn_expr;
use crate::raw::build_import;
use crate::raw::build_index;
use crate::raw::build_key_value;
use crate::raw::build_literal;
use crate::raw::build_member;
use crate::raw::build_method;
use crate::raw::build_new;
use crate::raw::build_object;
use crate::raw::build_pat;
use crate::raw::build_prop_name;
use crate::raw::build_return;
use crate::raw::build_specifier;
use crate::raw::build_tpl;
use crate::raw::Effect;
use crate::raw::emit_expr;
use crate::raw::emit_module;
use crate::raw::emitted_expr;
use crate::raw::emitted_module;
use crate::raw::Entry;
use crate::raw::ExprShape;
use crate::raw::FunctionParts;
use crate::raw::FunctionShape;
use crate::raw::Layer;
use crate::raw::Literal;
use crate::raw::NameParts;
use crate::raw::NameShape;
use crate::raw::PropShape;
use crate::raw::raw_chain_of;
use crate::raw::raw_effect_of;
use crate::raw::raw_export_default_decl_of;
use crate::raw::raw_export_default_of;
use crate::raw::raw_expr_of;
use crate::raw::raw_expr_stmt_of;
use crate::raw::raw_import_of;
use crate::raw::raw_pat_of;
use crate::raw::raw_prop_name_of;
use crate::raw::raw_prop_of;
use crate::raw::raw_return_of;
use crate::raw::raw_specifier_of;
use crate::raw::RawArg;
use crate::raw::RawItem;
use crate::writable::writable;
use crate::writable::writable_items;

verus! {

/// The `swc` expression that `expr` stands for: each node built from its
/// parts, and each `Raw` node as it is.
pub open spec fn lowered(expr: Expression) -> RawExpr
    decreases expr,
{
    match expr {
        Expression::Ident(name) => raw_expr_of(ExprShape::Ident(name@)),
        Expression::Str { value, raw } => raw_expr_of(
            ExprShape::Str(
                value@,
                match raw {
                    Some(r) => Some(r@),
                    None => None,
                },
            ),
        ),
        Expression::Bool(value) => raw_expr_of(ExprShape::Bool(value)),
        Expression::Null => raw_expr_of(ExprShape::Null),
        Expression::Literal(raw) => *raw,
        Expression::Member { obj, prop } => raw_expr_of(ExprShape::Member(lowered(*obj), prop@)),
        Expression::Index { obj, index } => raw_expr_of(
            ExprShape::Index(lowered(*obj), lowered(*index)),
        ),
        Expression::Call { callee, args } => raw_expr_of(
            ExprShape::Call(lowered(*callee), lowered_args(args)),
        ),
        Expression::New { callee, args } => raw_expr_of(
            ExprShape::New(
                lowered(*callee),
                match args {
                    Some(args) => Some(lowered_args(args)),
                    None => None,
                },
            ),
        ),
        Expression::OptChain { optional, base } => raw_chain_of(optional, lowered(*base)),
        Expression::Unary { op, arg } => raw_expr_of(ExprShape::Unary(op, lowered(*arg))),
        Expression::Bin { op, left, right } => raw_expr_of(
            ExprShape::Bin(op, lowered(*left), lowered(*right)),
        ),
        Expression::Cond { test, cons, alt } => raw_expr_of(
            ExprShape::Cond(lowered(*test), lowered(*cons), lowered(*alt)),
        ),
        Expression::Paren(inner) => raw_expr_of(ExprShape::Paren(lowered(*inner))),
        Expression::Assign { op, left, right } => raw_effect_of(
            Effect::Assign(op, Box::new(lowered(*left)), Box::new(lowered(*right))),
        ),
        Expression::Update { op, prefix, arg } => raw_effect_of(
            Effect::Update(op, prefix, Box::new(lowered(*arg))),
        ),
        Expression::Await(arg) => raw_effect_of(Effect::Await(Box::new(lowered(*arg)))),
        Expression::Sequence(exprs) => raw_expr_of(ExprShape::Sequence(lowered_exprs(exprs))),
        Expression::Array(elems) => raw_expr_of(ExprShape::Array(lowered_elems(elems))),
        Expression::Object(obj) => raw_expr_of(ExprShape::Object(lowered_object(obj))),
        Expression::Fn(function) => raw_expr_of(ExprShape::Fn(lowered_function(function))),
        Expression::Arrow(arrow) => raw_expr_of(
            ExprShape::Arrow(
                lowered_params(arrow.params@),
                match arrow.body {
                    BlockStmtOrExpr::BlockStmt(block) => ArrowBodyShape::Block(lowered_block(block)),
                    BlockStmtOrExpr::Expr(body) => ArrowBodyShape::Expr(lowered(*body)),
                },
                arrow.is_async,
            ),
        ),
        Expression::Tpl(tpl) => raw_expr_of(ExprShape::Tpl(tpl.quasis@, lowered_exprs(tpl.exprs))),
        Expression::Invalid => raw_expr_of(ExprShape::Invalid),
        Expression::Raw(raw) => *raw,
    }
}

/// The `swc` arguments that `args` stand for.
pub open spec fn lowered_args(args: Vec<ExprOrSpread>) -> Seq<RawArg>
    decreases args,
{
    Seq::new(
        args.len() as nat,
        |i: int|
            if 0 <= i < args.len() {
                lowered_arg(args[i])
            } else {
                arbitrary()
            },
    )
}

/// The `swc` expressions that `exprs` stand for.
pub open spec fn lowered_exprs(exprs: Vec<Expression>) -> Seq<RawExpr>
    decreases exprs,
{
    Seq::new(
        exprs.len() as nat,
        |i: int|
            if 0 <= i < exprs.len() {
                lowered(exprs[i])
            } else {
                arbitrary()
            },
    )
}

/// The `swc` array elements that `elems` stand for.
pub open spec fn lowered_elems(elems: Vec<Option<ExprOrSpread>>) -> Seq<Option<RawArg>>
    decreases elems,
{
    Seq::new(
        elems.len() as nat,
        |i: int|
            if 0 <= i < elems.len() {
                match elems[i] {
                    Some(elem) => Some(lowered_arg(elem)),
                    None => None,
                }
            } else {
                arbitrary()
            },
    )
}

/// The `swc` argument that `arg` stands for.
pub open spec fn lowered_arg(arg: ExprOrSpread) -> RawArg
    decreases arg,
{
    RawArg { spread: arg.spread, expr: Box::new(lowered(arg.expr)) }
}

/// The `swc` entries that the entries of `obj` stand for.
pub open spec fn lowered_object(obj: ObjectLit) -> Seq<Entry>
    decreases obj,
{
    Seq::new(
        obj.props.len() as nat,
        |i: int|
            if 0 <= i < obj.props.len() {
                lowered_entry(obj.props[i])
            } else {
                arbitrary()
            },
    )
}

/// The `swc` entry that `entry` stands for.
pub open spec fn lowered_entry(entry: PropOrSpread) -> Entry
    decreases entry,
{
    match entry {
        PropOrSpread::Spread(expr) => Entry::Spread(Box::new(lowered(expr))),
        PropOrSpread::Prop(prop) => Entry::Prop(Box::new(lowered_prop(prop))),
    }
}

/// The `swc` property that `prop` stands for.
pub open spec fn lowered_prop(prop: Property) -> RawProp
    decreases prop,
{
    match prop {
        Property::KeyValue { key, value } => raw_prop_of(
            PropShape::KeyValue(lowered_prop_name(key), lowered(value)),
        ),
        Property::Method { key, function } => raw_prop_of(
            PropShape::Method(lowered_prop_name(key), lowered_function(function)),
        ),
        Property::Raw(raw) => *raw,
    }
}

/// The `swc` property name that `name` stands for.
pub open spec fn lowered_prop_name(name: PropertyName) -> RawPropName {
    match name {
        PropertyName::Ident(name) => raw_prop_name_of(NameShape::Ident(name@)),
        PropertyName::Str { value, raw } => raw_prop_name_of(
            NameShape::Str(
                value@,
                match raw {
                    Some(r) => Some(r@),
                    None => None,
                },
            ),
        ),
        PropertyName::Raw(raw) => *raw,
    }
}

/// The `swc` pattern that `param` stands for.
pub open spec fn lowered_pat(param: Pattern) -> RawPat {
    match param {
        Pattern::Ident(name) => raw_pat_of(name@),
        Pattern::Raw(raw) => *raw,
    }
}

/// The `swc` patterns that `params` stand for.
pub open spec fn lowered_params(params: Seq<Pattern>) -> Seq<RawPat> {
    params.map_values(|p: Pattern| lowered_pat(p))
}

/// The parts of the `swc` function that `function` stands for.
pub open spec fn lowered_function(function: Function) -> FunctionShape
    decreases function,
{
    FunctionShape {
        params: lowered_params(function.params@),
        body: match function.body {
            Some(block) => Some(lowered_block(block)),
            None => None,
        },
        is_async: function.is_async,
        is_generator: function.is_generator,
    }
}

/// The `swc` statements that the statements of `block` stand for.
pub open spec fn lowered_block(block: BlockStmt) -> Seq<RawStmt>
    decreases block,
{
    Seq::new(
        block.stmts.len() as nat,
        |i: int|
            if 0 <= i < block.stmts.len() {
                lowered_stmt(block.stmts[i])
            } else {
                arbitrary()
            },
    )
}

/// The `swc` statement that `stmt` stands for.
pub open spec fn lowered_stmt(stmt: Statement) -> RawStmt
    decreases stmt,
{
    match stmt {
        Statement::Return(arg) => raw_return_of(
            match arg {
                Some(expr) => Some(lowered(expr)),
                None => None,
            },
        ),
        Statement::Expr(expr) => raw_expr_stmt_of(lowered(expr)),
        Statement::Raw(raw) => *raw,
    }
}

/// Builds the `swc` property name that `name` stands for.
fn lower_prop_name(name: &PropertyName) -> (raw: RawPropName)
    ensures
        raw == lowered_prop_name(*name),
{
    match name {
        PropertyName::Ident(name) => build_prop_name(NameParts::Ident(name.clone())),
        PropertyName::Str { value, raw } => {
            let raw = match raw {
                Some(r) => Some(r.clone()),
                None => None,
            };
            build_prop_name(NameParts::Str(value.clone(), raw))
        },
        PropertyName::Raw(raw) => build_prop_name(NameParts::Other((**raw).clone())),
    }
}

/// Builds the `swc` patterns that `params` stand for.
fn lower_params(params: &Vec<Pattern>) -> (raw: Vec<RawPat>)
    ensures
        raw@ == lowered_params(params@),
{
    let mut raw: Vec<RawPat> = Vec::new();
    let mut i: usize = 0;
    while i < params.len()
        invariant
            i <= params.len(),
            raw@.len() == i,
            forall|j: int| 0 <= j < i ==> #[trigger] raw@[j] == lowered_pat(params@[j]),
        decreases params.len() - i,
    {
        let pat = match &params[i] {
            Pattern::Ident(name) => build_pat(name.clone()),
            Pattern::Raw(pat) => (**pat).clone(),
        };
        raw.push(pat);
        i = i + 1;
    }
    raw
}

/// Builds the `swc` expression that `expr` stands for.
pub fn lower(expr: &Expression) -> (raw: Box<RawExpr>)
    ensures
        *raw == lowered(*expr),
    decreases expr,
{
    let out: Box<RawExpr> = match expr {
        Expression::Ident(name) => build(Layer::Ident(name.clone())),
        Expression::Str { value, raw } => {
            let raw = match raw {
                Some(r) => Some(r.clone()),
                None => None,
            };
            build_literal(Literal::Str(value.clone(), raw))
        },
        Expression::Bool(value) => build_literal(Literal::Bool(*value)),
        Expression::Null => build_literal(Literal::Null),
        Expression::Literal(raw) => Box::new((**raw).clone()),
        Expression::Member { obj, prop } => build_member(lower(obj), prop.clone()),
        Expression::Index { obj, index } => build_index(lower(obj), lower(index)),
        Expression::Call { callee, args } => build_call(lower(callee), lower_args(args)),
        Expression::New { callee, args } => {
            let raw_args = match args {
                Some(args) => Some(lower_args(args)),
                None => None,
            };
            build_new(lower(callee), raw_args)
        },
        Expression::OptChain { optional, base } => build_chain(*optional, lower(base)),
        Expression::Unary { op, arg } => build(Layer::Unary(*op, lower(arg))),
        Expression::Bin { op, left, right } => build(Layer::Bin(*op, lower(left), lower(right))),
        Expression::Cond { test, cons, alt } => build(
            Layer::Cond(lower(test), lower(cons), lower(alt)),
        ),
        Expression::Paren(inner) => build(Layer::Paren(lower(inner))),
        Expression::Assign { op, left, right } => build_effect(
            Effect::Assign(*op, lower(left), lower(right)),
        ),
        Expression::Update { op, prefix, arg } => build_effect(
            Effect::Update(*op, *prefix, lower(arg)),
        ),
        Expression::Await(arg) => build_effect(Effect::Await(lower(arg))),
        Expression::Sequence(exprs) => build_literal(Literal::Sequence(lower_exprs(exprs))),
        Expression::Array(elems) => {
            let ghost expected = lowered_elems(*elems);
            let mut raw_elems: Vec<Option<RawArg>> = Vec::new();
            let mut i: usize = 0;
            while i < elems.len()
                invariant
                    *expr is Array,
                    expr->Array_0 == *elems,
                    i <= elems.len(),
                    raw_elems@.len() == i,
                    forall|j: int| 0 <= j < i ==> #[trigger] raw_elems@[j] == expected[j],
                    expected.len() == elems.len(),
                    forall|j: int|
                        0 <= j < elems.len() ==> #[trigger] expected[j] == match elems@[j] {
                            Some(elem) => Some(lowered_arg(elem)),
                            None => None,
                        },
                decreases elems.len() - i,
            {
                let raw_elem = match &elems[i] {
                    Some(elem) => Some(lower_arg(elem)),
                    None => None,
                };
                raw_elems.push(raw_elem);
                i = i + 1;
            }
            assert(raw_elems@ =~= expected);
            build_literal(Literal::Array(raw_elems))
        },
        Expression::Object(obj) => build_object(lower_object(obj)),
        Expression::Fn(function) => build_fn_expr(lower_function(function)),
        Expression::Arrow(arrow) => {
            let params = lower_params(&arrow.params);
            let body = match &arrow.body {
                BlockStmtOrExpr::BlockStmt(block) => ArrowBody::Block(lower_block(block)),
                BlockStmtOrExpr::Expr(body) => ArrowBody::Expr(lower(body)),
            };
            build_arrow(params, body, arrow.is_async)
        },
        Expression::Tpl(tpl) => {
            let mut quasis: Vec<swc_core::ecma::ast::TplElement> = Vec::new();
            let mut i: usize = 0;
            while i < tpl.quasis.len()
                invariant
                    i <= tpl.quasis.len(),
                    quasis@ == tpl.quasis@.take(i as int),
                decreases tpl.quasis.len() - i,
            {
                quasis.push(tpl.quasis[i].clone());
                i = i + 1;
            }
            assert(tpl.quasis@.take(i as int) == tpl.quasis@);
            build_tpl(quasis, lower_exprs(&tpl.exprs))
        },
        Expression::Invalid => build_literal(Literal::Invalid),
        Expression::Raw(raw) => Box::new((**raw).clone()),
    };
    out
}

/// Builds the `swc` expressions that `exprs` stand for.
fn lower_exprs(exprs: &Vec<Expression>) -> (raw: Vec<Box<RawExpr>>)
    ensures
        raw@.map_values(|e: Box<RawExpr>| *e) == lowered_exprs(*exprs),
    decreases exprs,
{
    let mut raw: Vec<Box<RawExpr>> = Vec::new();
    let mut i: usize = 0;
    while i < exprs.len()
        invariant
            i <= exprs.len(),
            raw@.len() == i,
            forall|j: int| 0 <= j < i ==> *(#[trigger] raw@[j]) == lowered(exprs@[j]),
        decreases exprs.len() - i,
    {
        raw.push(lower(&exprs[i]));
        i = i + 1;
    }
    raw
}

/// Builds the `swc` arguments that `args` stand for.
fn lower_args(args: &Vec<ExprOrSpread>) -> (raw: Vec<RawArg>)
    ensures
        raw@ == lowered_args(*args),
    decreases args,
{
    let mut raw: Vec<RawArg> = Vec::new();
    let mut i: usize = 0;
    while i < args.len()
        invariant
            i <= args.len(),
            raw@.len() == i,
            forall|j: int| 0 <= j < i ==> #[trigger] raw@[j] == lowered_arg(args@[j]),
        decreases args.len() - i,
    {
        raw.push(lower_arg(&args[i]));
        i = i + 1;
    }
    raw
}

/// Builds the `swc` argument that `arg` stands for.
fn lower_arg(arg: &ExprOrSpread) -> (raw: RawArg)
    ensures
        raw == lowered_arg(*arg),
    decreases arg,
{
    RawArg { spread: arg.spread, expr: lower(&arg.expr) }
}

/// Builds the `swc` entries that the entries of `obj` stand for.
fn lower_object(obj: &ObjectLit) -> (entries: Vec<Entry>)
    ensures
        entries@ == lowered_object(*obj),
    decreases obj,
{
    let mut entries: Vec<Entry> = Vec::new();
    let mut i: usize = 0;
    while i < obj.props.len()
        invariant
            i <= obj.props.len(),
            entries@.len() == i,
            forall|j: int| 0 <= j < i ==> #[trigger] entries@[j] == lowered_entry(obj.props@[j]),
        decreases obj.props.len() - i,
    {
        let entry = match &obj.props[i] {
            PropOrSpread::Spread(expr) => Entry::Spread(lower(expr)),
            PropOrSpread::Prop(prop) => Entry::Prop(lower_prop(prop)),
        };
        entries.push(entry);
        i = i + 1;
    }
    entries
}

/// Builds the `swc` property that `prop` stands for.
fn lower_prop(prop: &Property) -> (raw: Box<RawProp>)
    ensures
        *raw == lowered_prop(*prop),
    decreases prop,
{
    match prop {
        Property::KeyValue { key, value } => build_key_value(lower_prop_name(key), lower(value)),
        Property::Method { key, function } => build_method(
            lower_prop_name(key),
            lower_function(function),
        ),
        Property::Raw(raw) => Box::new((**raw).clone()),
    }
}

/// Builds the parts of the `swc` function that `function` stands for.
fn lower_function(function: &Function) -> (parts: FunctionParts)
    ensures
        parts.shape() == lowered_function(*function),
    decreases function,
{
    let body = match &function.body {
        Some(block) => Some(lower_block(block)),
        None => None,
    };
    FunctionParts {
        params: lower_params(&function.params),
        body,
        is_async: function.is_async,
        is_generator: function.is_generator,
    }
}

/// Builds the `swc` statements that the statements of `block` stand for.
fn lower_block(block: &BlockStmt) -> (stmts: Vec<RawStmt>)
    ensures
        stmts@ == lowered_block(*block),
    decreases block,
{
    let mut stmts: Vec<RawStmt> = Vec::new();
    let mut i: usize = 0;
    while i < block.stmts.len()
        invariant
            i <= block.stmts.len(),
            stmts@.len() == i,
            forall|j: int| 0 <= j < i ==> #[trigger] stmts@[j] == lowered_stmt(block.stmts@[j]),
        decreases block.stmts.len() - i,
    {
        let stmt = match &block.stmts[i] {
            Statement::Return(arg) => {
                let arg = match arg {
                    Some(expr) => Some(lower(expr)),
                    None => None,
                };
                build_return(arg)
            },
            Statement::Expr(expr) => build_expr_stmt(lower(expr)),
            Statement::Raw(raw) => (**raw).clone(),
        };
        stmts.push(stmt);
        i = i + 1;
    }
    stmts
}

/// The `swc` item that `item` stands for: an import or a default export
/// built from its parts, and any other item as it is. A default export in
/// declaration form declares the class or the function that it holds, and
/// exports any other expression as an expression.
pub open spec fn lowered_item(item: ModuleItem) -> RawItem {
    match item {
        ModuleItem::Import(decl) => RawItem::Decl(
            Box::new(
                raw_import_of(
                    decl.specifiers@.map_values(|name: ImportName| raw_specifier_of(name@)),
                    decl.src@,
                ),
            ),
        ),
        ModuleItem::ExportDefaultExpr(expr) => RawItem::Decl(
            Box::new(raw_export_default_of(lowered(expr))),
        ),
        ModuleItem::ExportDefaultDecl(expr) => RawItem::Decl(
            Box::new(raw_export_default_decl_of(lowered(expr))),
        ),
        ModuleItem::ExportNamed { bindings, raw } => RawItem::Decl(raw),
        ModuleItem::ExportDecl { bindings, raw } => RawItem::Decl(raw),
        ModuleItem::Decl(raw) => RawItem::Decl(raw),
        ModuleItem::Stmt { bindings, raw } => RawItem::Stmt(raw),
    }
}

/// The `swc` items that the items of a module stand for.
pub open spec fn lowered_items(items: Seq<ModuleItem>) -> Seq<RawItem> {
    items.map_values(|item: ModuleItem| lowered_item(item))
}

/// Builds the `swc` import declaration that `decl` stands for.
fn lower_import(decl: &ImportDecl) -> (raw: Box<swc_core::ecma::ast::ModuleDecl>)
    ensures
        *raw == raw_import_of(
            decl.specifiers@.map_values(|name: ImportName| raw_specifier_of(name@)),
            decl.src@,
        ),
{
    let mut specifiers: Vec<swc_core::ecma::ast::ImportSpecifier> = Vec::new();
    let mut i: usize = 0;
    while i < decl.specifiers.len()
        invariant
            i <= decl.specifiers.len(),
            specifiers@.len() == i,
            forall|j: int|
                0 <= j < i ==> #[trigger] specifiers@[j] == raw_specifier_of(decl.specifiers@[j]@),
        decreases decl.specifiers.len() - i,
    {
        specifiers.push(build_specifier(&decl.specifiers[i]));
        i = i + 1;
    }
    assert(specifiers@ =~= decl.specifiers@.map_values(
        |name: ImportName| raw_specifier_of(name@),
    ));
    build_import(specifiers, decl.src.clone())
}

/// Builds the `swc` items that the items of `module` stand for.
pub fn lower_module(module: &Module) -> (items: Vec<RawItem>)
    ensures
        items@ == lowered_items(module.body@),
{
    let mut items: Vec<RawItem> = Vec::new();
    let mut i: usize = 0;
    while i < module.body.len()
        invariant
            i <= module.body.len(),
            items@.len() == i,
            forall|j: int| 0 <= j < i ==> #[trigger] items@[j] == lowered_item(module.body@[j]),
        decreases module.body.len() - i,
    {
        let item = match &module.body[i] {
            ModuleItem::Import(decl) => RawItem::Decl(lower_import(decl)),
            ModuleItem::ExportDefaultExpr(expr) => RawItem::Decl(build_export_default(lower(expr))),
            ModuleItem::ExportDefaultDecl(expr) => RawItem::Decl(
                build_export_default_decl(lower(expr)),
            ),
            ModuleItem::ExportNamed { bindings, raw } => RawItem::Decl(Box::new((**raw).clone())),
            ModuleItem::ExportDecl { bindings, raw } => RawItem::Decl(Box::new((**raw).clone())),
            ModuleItem::Decl(raw) => RawItem::Decl(Box::new((**raw).clone())),
            ModuleItem::Stmt { bindings, raw } => RawItem::Stmt(Box::new((**raw).clone())),
        };
        items.push(item);
        i = i + 1;
    }
    items
}

impl CodegenContext {
    /// Writes `item` out as source text, compact where `minify`. The text
    /// is what the `swc` emitter writes for the `swc` expression that
    /// `item` stands for; `source` is the text that `item` was read from,
    /// which the emitter does not look at. The emitter stops the program
    /// at a malformed node, so `item` is a tree that can be written.
    pub fn stringify(source: &str, item: &Expression, minify: bool) -> (text: String)
        requires
            writable(item@),
        ensures
            text@ == emitted_expr(lowered(*item), minify),
    {
        let raw = lower(item);
        assert(writable(item@) && *raw == lowered(*item));
        emit_expr(&raw, minify)
    }

    /// Writes `module` out as source text, compact where `minify`. The
    /// text is what the `swc` emitter writes for the module of the `swc`
    /// items that the items of `module` stand for, behind the interpreter
    /// line of `module`; `source` is the text
    /// that `module` was read from, which the emitter does not look at.
    /// The emitter stops the program at a malformed node, so each item of
    /// `module` is one that can be written.
    pub fn stringify_module(source: &str, module: &Module, minify: bool) -> (text: String)
        requires
            writable_items(module@.body),
        ensures
            text@ == emitted_module(lowered_items(module.body@), module@.shebang, minify),
    {
        let items = lower_module(module);
        assert(writable_items(module@.body) && items@ == lowered_items(module.body@));
        let shebang = match &module.shebang {
            Some(line) => Some(line.clone()),
            None => None,
        };
        emit_module(items, shebang, minify)
    }
}

} // verus!
