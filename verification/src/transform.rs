//! Resolution of the identifiers of a template expression, and the
//! rewriting of the expression so that each of them reads its binding.

use vstd::prelude::*;
use crate::ast::args_view;
use crate::ast::ArrowExpr;
use crate::ast::ArrowExprView;
use crate::ast::BlockStmt;
use crate::ast::BlockStmtOrExpr;
use crate::ast::BlockStmtOrExprView;
use crate::ast::BlockStmtView;
use crate::ast::elems_view;
use crate::ast::Expression;
use crate::ast::ExpressionView;
use crate::ast::ExprOrSpread;
use crate::ast::ExprOrSpreadView;
use crate::ast::exprs_view;
use crate::ast::ObjectLit;
use crate::ast::ObjectLitView;
use crate::ast::params_view;
use crate::ast::Pattern;
use crate::ast::PatternView;
use crate::ast::Property;
use crate::ast::PropertyName;
use crate::ast::PropertyView;
use crate::ast::PropOrSpread;
use crate::ast::PropOrSpreadView;
use crate::ast::props_view;
use crate::ast::Statement;
use crate::ast::StatementView;
use crate::ast::stmts_view;
use crate::ast::Tpl;
use crate::ast::TplView;
use crate::structs::bindings_view;
use crate::structs::BindingTypes;
use crate::structs::names_view;
use crate::structs::ScopeHelper;
use crate::structs::ScopeHelperView;
use crate::structs::ScriptLegacyVars;
use crate::structs::ScriptLegacyVarsView;
use crate::structs::SetupBinding;
use crate::structs::SetupBindingView;
use crate::structs::str_eq;
use crate::structs::TemplateGenerationMode;
use crate::structs::TemplateScopeView;
use crate::writable::lemma_writable_args;
use crate::writable::lemma_writable_elems;
use crate::writable::lemma_writable_exprs;
use crate::writable::lemma_writable_props;
use crate::writable::lemma_writable_stmts;
use crate::writable::plain_callee;
use crate::writable::writable;
use crate::writable::writable_args;
use crate::writable::writable_elem;
use crate::writable::writable_entry;
use crate::writable::writable_exprs;
use crate::writable::writable_stmt;
use crate::writable::writable_stmts;

verus! {

/// The argument of the render function that a binding is read from.
#[derive(Debug, Clone, Copy, PartialEq, Eq, Structural)]
pub enum Namespace {
    /// `$props`.
    Props,
    /// `$setup`.
    Setup,
    /// `$data`.
    Data,
    /// `$options`.
    Options,
}

/// What an identifier of a template expression refers to.
#[derive(Debug, Clone, Copy, PartialEq, Eq, Structural)]
pub enum Resolution {
    /// A name that templates read from the global object, such as
    /// `undefined`, `Math` or `JSON`.
    Global,
    /// A name introduced by an enclosing template scope.
    Local,
    /// A binding declared by a script.
    Bound { category: BindingTypes, namespace: Namespace },
    /// Nothing known: the name is read from the context object.
    Context,
}

/// Whether `name` is one of the names that a template reads from the global
/// object: the built-in values, functions and constructors that need no
/// binding.
pub open spec fn is_global_value(name: Seq<char>) -> bool {
    name == "Infinity"@
    || name == "undefined"@
    || name == "NaN"@
    || name == "isFinite"@
    || name == "isNaN"@
    || name == "parseFloat"@
    || name == "parseInt"@
    || name == "decodeURI"@
    || name == "decodeURIComponent"@
    || name == "encodeURI"@
    || name == "encodeURIComponent"@
    || name == "Math"@
    || name == "Number"@
    || name == "Date"@
    || name == "Array"@
    || name == "Object"@
    || name == "Boolean"@
    || name == "String"@
    || name == "RegExp"@
    || name == "Map"@
    || name == "Set"@
    || name == "JSON"@
    || name == "Intl"@
    || name == "BigInt"@
    || name == "console"@
    || name == "Error"@
    || name == "Symbol"@
}

/// Whether the scope at index `scope`, or one that encloses it, introduces
/// `name`. The walk goes from a scope to its parent and ends at the root,
/// at an index outside the registry, or at a parent index that is not
/// smaller than the scope's own.
pub open spec fn declared_in_scopes(
    scopes: Seq<TemplateScopeView>,
    scope: int,
    name: Seq<char>,
) -> bool
    decreases scope,
{
    if scope < 0 || scope >= scopes.len() {
        false
    } else if scopes[scope].variables.contains(name) {
        true
    } else if scope == 0 || scopes[scope].parent >= scope {
        false
    } else {
        declared_in_scopes(scopes, scopes[scope].parent as int, name)
    }
}

/// Whether every scope but the root has a parent with a smaller index than
/// its own: the scopes then form a tree with the root at index 0.
pub open spec fn scopes_well_formed(scopes: Seq<TemplateScopeView>) -> bool {
    forall|i: int| 0 < i < scopes.len() ==> (#[trigger] scopes[i]).parent < i
}

/// In well-formed scopes the walk never ends early: a scope other than the
/// root that does not introduce a name hands the question on to its
/// parent.
pub proof fn lemma_walk_reaches_parent(scopes: Seq<TemplateScopeView>, scope: int, name: Seq<char>)
    requires
        scopes_well_formed(scopes),
        0 < scope < scopes.len(),
        !scopes[scope].variables.contains(name),
    ensures
        declared_in_scopes(scopes, scope, name) == declared_in_scopes(
            scopes,
            scopes[scope].parent as int,
            name,
        ),
{
}

/// The category of the first binding called `name`, if there is one.
pub open spec fn find_binding(bindings: Seq<SetupBindingView>, name: Seq<char>) -> Option<
    BindingTypes,
>
    decreases bindings.len(),
{
    if bindings.len() == 0 {
        None
    } else if bindings[0].name == name {
        Some(bindings[0].category)
    } else {
        find_binding(bindings.skip(1), name)
    }
}

/// Where a binding of the setup code is read from: props from `$props`,
/// anything else from `$setup`.
pub open spec fn setup_namespace(category: BindingTypes) -> Namespace {
    if category == BindingTypes::Props {
        Namespace::Props
    } else {
        Namespace::Setup
    }
}

/// What `name` refers to among the bindings of an options-style script.
/// The categories are asked in this order: props, data, setup, computed,
/// methods, inject. A name that none of them holds is left to the context
/// object.
pub open spec fn resolve_legacy(vars: ScriptLegacyVarsView, name: Seq<char>) -> Resolution {
    if vars.props.contains(name) {
        Resolution::Bound { category: BindingTypes::Props, namespace: Namespace::Props }
    } else if vars.data.contains(name) {
        Resolution::Bound { category: BindingTypes::ReactiveState, namespace: Namespace::Data }
    } else if let Some(category) = find_binding(vars.setup, name) {
        Resolution::Bound { category, namespace: setup_namespace(category) }
    } else if vars.computed.contains(name) {
        Resolution::Bound { category: BindingTypes::Computed, namespace: Namespace::Options }
    } else if vars.methods.contains(name) {
        Resolution::Bound { category: BindingTypes::Method, namespace: Namespace::Options }
    } else if vars.inject.contains(name) {
        Resolution::Bound { category: BindingTypes::Injected, namespace: Namespace::Options }
    } else {
        Resolution::Context
    }
}

/// What the identifier `name`, met in the scope `scope`, refers to: a name
/// of the scope chain; else a binding of the setup code; else a binding of
/// the options-style script; else, where nothing declares it, a name of
/// the global object or the context object.
pub open spec fn resolve_spec(helper: ScopeHelperView, scope: u32, name: Seq<char>) -> Resolution {
    if declared_in_scopes(helper.template_scopes, scope as int, name) {
        Resolution::Local
    } else if let Some(category) = find_binding(helper.setup_bindings, name) {
        Resolution::Bound { category, namespace: setup_namespace(category) }
    } else if resolve_legacy(helper.options_api_vars, name) != Resolution::Context {
        resolve_legacy(helper.options_api_vars, name)
    } else if is_global_value(name) {
        Resolution::Global
    } else {
        Resolution::Context
    }
}

/// The name of the render function's argument for `namespace`.
pub open spec fn namespace_name(namespace: Namespace) -> Seq<char> {
    match namespace {
        Namespace::Props => "$props"@,
        Namespace::Setup => "$setup"@,
        Namespace::Data => "$data"@,
        Namespace::Options => "$options"@,
    }
}

/// `object.prop`, where `object` is an identifier.
pub open spec fn member_of(object: Seq<char>, prop: Seq<char>) -> ExpressionView {
    ExpressionView::Member { obj: Box::new(ExpressionView::Ident(object)), prop }
}

/// The expression that reads the identifier `name`, given what it refers
/// to. Globals, locals and literal constants stay as they are. An unknown
/// name is read from `_ctx`. Any other binding is read from its namespace
/// when compiling for a render function; inline it stays bare, but for
/// reactive state, which is read through `.value`.
pub open spec fn rewritten(
    name: Seq<char>,
    resolution: Resolution,
    mode: TemplateGenerationMode,
) -> ExpressionView {
    match resolution {
        Resolution::Global => ExpressionView::Ident(name),
        Resolution::Local => ExpressionView::Ident(name),
        Resolution::Context => member_of("_ctx"@, name),
        Resolution::Bound { category, namespace } => {
            if category == BindingTypes::LiteralConst {
                ExpressionView::Ident(name)
            } else if mode == TemplateGenerationMode::RenderFn {
                member_of(namespace_name(namespace), name)
            } else if category == BindingTypes::ReactiveState {
                member_of(name, "value"@)
            } else {
                ExpressionView::Ident(name)
            }
        },
    }
}

/// Whether reading an identifier with this resolution needs a value that
/// is known only when the component runs: true of all but globals and
/// literal constants.
pub open spec fn needs_runtime(resolution: Resolution) -> bool {
    match resolution {
        Resolution::Global => false,
        Resolution::Bound { category, namespace } => category != BindingTypes::LiteralConst,
        _ => true,
    }
}

/// The names that `params` bind, where each of them is a plain name.
pub open spec fn param_names(params: Seq<PatternView>) -> Option<Seq<Seq<char>>>
    decreases params.len(),
{
    if params.len() == 0 {
        Some(Seq::empty())
    } else {
        match (param_names(params.drop_last()), params.last()) {
            (Some(names), PatternView::Ident(name)) => Some(names.push(name)),
            _ => None,
        }
    }
}

/// The expression `expr` with every identifier that it evaluates replaced
/// by the expression that reads it, as [`transformed_in`] says, outside of
/// any function.
pub open spec fn transformed(expr: ExpressionView, helper: ScopeHelperView, scope: u32) -> ExpressionView {
    transformed_in(expr, helper, scope, Seq::empty())
}

/// Whether `expr` may evaluate an identifier whose value is known only
/// when the component runs, as [`has_runtime_in`] says, outside of any
/// function.
pub open spec fn has_runtime_bindings(expr: ExpressionView, helper: ScopeHelperView, scope: u32) -> bool {
    has_runtime_in(expr, helper, scope, Seq::empty())
}

/// Whether each of `stmts` is a `return` or an expression statement.
pub open spec fn plain_stmts(stmts: Seq<StatementView>) -> bool {
    forall|i: int| 0 <= i < stmts.len() ==> !(#[trigger] stmts[i] is Raw)
}

/// The statement `stmt` with the identifiers of its expression rewritten,
/// as [`transformed_in`] says.
pub open spec fn transformed_stmt(
    stmt: StatementView,
    helper: ScopeHelperView,
    scope: u32,
    locals: Seq<Seq<char>>,
) -> StatementView
    decreases stmt,
{
    match stmt {
        StatementView::Return(Some(arg)) => StatementView::Return(
            Some(transformed_in(arg, helper, scope, locals)),
        ),
        StatementView::Expr(expr) => StatementView::Expr(
            transformed_in(expr, helper, scope, locals),
        ),
        _ => stmt,
    }
}

/// Each of `stmts` with the identifiers of its expression rewritten.
pub open spec fn transformed_stmts(
    stmts: Seq<StatementView>,
    helper: ScopeHelperView,
    scope: u32,
    locals: Seq<Seq<char>>,
) -> Seq<StatementView>
    decreases stmts,
{
    Seq::new(
        stmts.len(),
        |i: int|
            if 0 <= i < stmts.len() {
                transformed_stmt(stmts[i], helper, scope, locals)
            } else {
                arbitrary()
            },
    )
}

/// The expression `expr` with every identifier that it evaluates replaced
/// by the expression that reads it; `locals` are the parameters of the
/// arrow functions around `expr`, which stay as they are. Identifiers are
/// looked for in:
///
/// - the object of a member access and a computed key;
/// - callees and arguments, also of `new`, and the links of an optional
///   chain;
/// - operands, the three parts of a conditional, and inside parentheses;
/// - the target and the value of an assignment, and what is updated or
///   awaited;
/// - the members of a sequence, the expressions of a template literal and
///   the elements of an array;
/// - the spread entries of an object and the values of its `key: value`
///   properties;
/// - the body of an arrow function whose parameters are plain names,
///   where it is an expression or a block of nothing but `return` and
///   expression statements.
///
/// Every other node stays as it is.
pub open spec fn transformed_in(
    expr: ExpressionView,
    helper: ScopeHelperView,
    scope: u32,
    locals: Seq<Seq<char>>,
) -> ExpressionView
    decreases expr,
{
    match expr {
        ExpressionView::Ident(name) => if locals.contains(name) {
            expr
        } else {
            rewritten(name, resolve_spec(helper, scope, name), helper.transform_mode)
        },
        ExpressionView::Arrow(arrow) => match (param_names(arrow.params), arrow.body) {
            (Some(names), BlockStmtOrExprView::Expr(body)) => ExpressionView::Arrow(
                ArrowExprView {
                    params: arrow.params,
                    body: BlockStmtOrExprView::Expr(
                        Box::new(transformed_in(*body, helper, scope, locals + names)),
                    ),
                    is_async: arrow.is_async,
                },
            ),
            (Some(names), BlockStmtOrExprView::BlockStmt(block)) => if plain_stmts(block.stmts) {
                ExpressionView::Arrow(
                    ArrowExprView {
                        params: arrow.params,
                        body: BlockStmtOrExprView::BlockStmt(
                            BlockStmtView {
                                stmts: transformed_stmts(
                                    block.stmts,
                                    helper,
                                    scope,
                                    locals + names,
                                ),
                            },
                        ),
                        is_async: arrow.is_async,
                    },
                )
            } else {
                expr
            },
            _ => expr,
        },
        ExpressionView::Member { obj, prop } => ExpressionView::Member {
            obj: Box::new(transformed_in(*obj, helper, scope, locals)),
            prop,
        },
        ExpressionView::Index { obj, index } => ExpressionView::Index {
            obj: Box::new(transformed_in(*obj, helper, scope, locals)),
            index: Box::new(transformed_in(*index, helper, scope, locals)),
        },
        ExpressionView::Sequence(exprs) => ExpressionView::Sequence(
            Seq::new(
                exprs.len(),
                |i: int|
                    if 0 <= i < exprs.len() {
                        transformed_in(exprs[i], helper, scope, locals)
                    } else {
                        arbitrary()
                    },
            ),
        ),
        ExpressionView::Tpl(tpl) => ExpressionView::Tpl(
            TplView {
                quasis: tpl.quasis,
                exprs: Seq::new(
                    tpl.exprs.len(),
                    |i: int|
                        if 0 <= i < tpl.exprs.len() {
                            transformed_in(tpl.exprs[i], helper, scope, locals)
                        } else {
                            arbitrary()
                        },
                ),
            },
        ),
        ExpressionView::Array(elems) => ExpressionView::Array(
            Seq::new(
                elems.len(),
                |i: int|
                    if 0 <= i < elems.len() {
                        match elems[i] {
                            Some(elem) => Some(
                                ExprOrSpreadView {
                                    spread: elem.spread,
                                    expr: transformed_in(elem.expr, helper, scope, locals),
                                },
                            ),
                            None => None,
                        }
                    } else {
                        arbitrary()
                    },
            ),
        ),
        ExpressionView::Object(obj) => ExpressionView::Object(
            ObjectLitView {
                props: Seq::new(
                    obj.props.len(),
                    |i: int|
                        if 0 <= i < obj.props.len() {
                            match obj.props[i] {
                                PropOrSpreadView::Spread(spread) => PropOrSpreadView::Spread(
                                    transformed_in(spread, helper, scope, locals),
                                ),
                                PropOrSpreadView::Prop(
                                    PropertyView::KeyValue { key, value },
                                ) => PropOrSpreadView::Prop(
                                    PropertyView::KeyValue {
                                        key,
                                        value: transformed_in(value, helper, scope, locals),
                                    },
                                ),
                                entry => entry,
                            }
                        } else {
                            arbitrary()
                        },
                ),
            },
        ),
        ExpressionView::Call { callee, args } => ExpressionView::Call {
            callee: Box::new(transformed_in(*callee, helper, scope, locals)),
            args: Seq::new(
                args.len(),
                |i: int|
                    if 0 <= i < args.len() {
                        ExprOrSpreadView {
                            spread: args[i].spread,
                            expr: transformed_in(args[i].expr, helper, scope, locals),
                        }
                    } else {
                        arbitrary()
                    },
            ),
        },
        ExpressionView::New { callee, args } => ExpressionView::New {
            callee: Box::new(transformed_in(*callee, helper, scope, locals)),
            args: match args {
                Some(args) => Some(
                    Seq::new(
                        args.len(),
                        |i: int|
                            if 0 <= i < args.len() {
                                ExprOrSpreadView {
                                    spread: args[i].spread,
                                    expr: transformed_in(args[i].expr, helper, scope, locals),
                                }
                            } else {
                                arbitrary()
                            },
                    ),
                ),
                None => None,
            },
        },
        ExpressionView::OptChain { optional, base } => ExpressionView::OptChain {
            optional,
            base: Box::new(transformed_in(*base, helper, scope, locals)),
        },
        ExpressionView::Unary { op, arg } => ExpressionView::Unary {
            op,
            arg: Box::new(transformed_in(*arg, helper, scope, locals)),
        },
        ExpressionView::Bin { op, left, right } => ExpressionView::Bin {
            op,
            left: Box::new(transformed_in(*left, helper, scope, locals)),
            right: Box::new(transformed_in(*right, helper, scope, locals)),
        },
        ExpressionView::Cond { test, cons, alt } => ExpressionView::Cond {
            test: Box::new(transformed_in(*test, helper, scope, locals)),
            cons: Box::new(transformed_in(*cons, helper, scope, locals)),
            alt: Box::new(transformed_in(*alt, helper, scope, locals)),
        },
        ExpressionView::Paren(inner) => ExpressionView::Paren(
            Box::new(transformed_in(*inner, helper, scope, locals)),
        ),
        ExpressionView::Assign { op, left, right } => ExpressionView::Assign {
            op,
            left: Box::new(transformed_in(*left, helper, scope, locals)),
            right: Box::new(transformed_in(*right, helper, scope, locals)),
        },
        ExpressionView::Update { op, prefix, arg } => ExpressionView::Update {
            op,
            prefix,
            arg: Box::new(transformed_in(*arg, helper, scope, locals)),
        },
        ExpressionView::Await(arg) => ExpressionView::Await(
            Box::new(transformed_in(*arg, helper, scope, locals)),
        ),
        _ => expr,
    }
}

/// Rewriting keeps the outermost node of an expression, but for an
/// identifier, which stays one or becomes a member access: a callee that
/// is plainly no `new` expression stays one.
proof fn lemma_transformed_shape(
    expr: ExpressionView,
    helper: ScopeHelperView,
    scope: u32,
    locals: Seq<Seq<char>>,
)
    ensures
        plain_callee(expr) ==> plain_callee(transformed_in(expr, helper, scope, locals)),
        transformed_in(expr, helper, scope, locals) is Call ==> expr is Call,
        transformed_in(expr, helper, scope, locals) is Raw ==> expr is Raw,
        transformed_in(expr, helper, scope, locals) is Literal ==> expr is Literal,
{
    reveal_with_fuel(transformed_in, 2);
}

/// Rewriting the identifiers of an expression that can be written out
/// gives an expression that can be written out.
pub proof fn lemma_transformed_is_writable(
    expr: ExpressionView,
    helper: ScopeHelperView,
    scope: u32,
    locals: Seq<Seq<char>>,
)
    requires
        writable(expr),
    ensures
        writable(transformed_in(expr, helper, scope, locals)),
    decreases expr,
{
    let out = transformed_in(expr, helper, scope, locals);
    match expr {
        ExpressionView::Ident(name) => {
            reveal_with_fuel(writable, 2);
        },
        ExpressionView::Arrow(arrow) => match (param_names(arrow.params), arrow.body) {
            (Some(names), BlockStmtOrExprView::Expr(body)) => {
                lemma_transformed_is_writable(*body, helper, scope, locals + names);
                assert(out->Arrow_0.params == arrow.params);
                assert(out->Arrow_0.body == BlockStmtOrExprView::Expr(
                    Box::new(transformed_in(*body, helper, scope, locals + names)),
                ));
            },
            (Some(names), BlockStmtOrExprView::BlockStmt(block)) => {
                if plain_stmts(block.stmts) {
                    lemma_transformed_stmts(block.stmts, helper, scope, locals + names);
                    assert(out->Arrow_0.params == arrow.params);
                    assert(out->Arrow_0.body == BlockStmtOrExprView::BlockStmt(
                        BlockStmtView {
                            stmts: transformed_stmts(block.stmts, helper, scope, locals + names),
                        },
                    ));
                } else {
                    assert(out == expr);
                }
            },
            _ => {
                assert(out == expr);
            },
        },
        ExpressionView::Member { obj, prop } => {
            lemma_transformed_is_writable(*obj, helper, scope, locals);
        },
        ExpressionView::Index { obj, index } => {
            lemma_transformed_is_writable(*obj, helper, scope, locals);
            lemma_transformed_is_writable(*index, helper, scope, locals);
        },
        ExpressionView::Sequence(exprs) => {
            lemma_transformed_exprs(exprs, out->Sequence_0, helper, scope, locals);
        },
        ExpressionView::Tpl(tpl) => {
            lemma_transformed_exprs(tpl.exprs, out->Tpl_0.exprs, helper, scope, locals);
        },
        ExpressionView::Array(elems) => {
            let after = out->Array_0;
            lemma_writable_elems(elems);
            lemma_writable_elems(after);
            assert forall|i: int| 0 <= i < after.len() implies writable_elem(
                #[trigger] after[i],
            ) by {
                assert(writable_elem(elems[i]));
                if let Some(elem) = elems[i] {
                    lemma_transformed_is_writable(elem.expr, helper, scope, locals);
                }
            }
        },
        ExpressionView::Object(obj) => {
            let after = out->Object_0.props;
            lemma_writable_props(obj.props);
            lemma_writable_props(after);
            assert forall|i: int| 0 <= i < after.len() implies writable_entry(
                #[trigger] after[i],
            ) by {
                assert(writable_entry(obj.props[i]));
                match obj.props[i] {
                    PropOrSpreadView::Spread(spread) => {
                        lemma_transformed_is_writable(spread, helper, scope, locals);
                    },
                    PropOrSpreadView::Prop(PropertyView::KeyValue { key, value }) => {
                        lemma_transformed_is_writable(value, helper, scope, locals);
                    },
                    _ => {},
                }
            }
        },
        ExpressionView::Call { callee, args } => {
            lemma_transformed_is_writable(*callee, helper, scope, locals);
            lemma_transformed_args(args, out->Call_args, helper, scope, locals);
        },
        ExpressionView::New { callee, args } => {
            lemma_transformed_is_writable(*callee, helper, scope, locals);
            if let Some(args) = args {
                lemma_transformed_args(args, out->New_args->Some_0, helper, scope, locals);
            }
        },
        ExpressionView::OptChain { optional, base } => {
            lemma_transformed_shape(*base, helper, scope, locals);
            match *base {
                ExpressionView::Call { callee, args } => {
                    let after = transformed_in(*base, helper, scope, locals);
                    lemma_transformed_shape(*callee, helper, scope, locals);
                    lemma_transformed_is_writable(*callee, helper, scope, locals);
                    lemma_transformed_args(args, after->Call_args, helper, scope, locals);
                },
                ExpressionView::Raw(raw) => {},
                ExpressionView::Literal(raw) => {},
                _ => {
                    lemma_transformed_is_writable(*base, helper, scope, locals);
                },
            }
        },
        ExpressionView::Unary { op, arg } => {
            lemma_transformed_is_writable(*arg, helper, scope, locals);
        },
        ExpressionView::Bin { op, left, right } => {
            lemma_transformed_is_writable(*left, helper, scope, locals);
            lemma_transformed_is_writable(*right, helper, scope, locals);
        },
        ExpressionView::Cond { test, cons, alt } => {
            lemma_transformed_is_writable(*test, helper, scope, locals);
            lemma_transformed_is_writable(*cons, helper, scope, locals);
            lemma_transformed_is_writable(*alt, helper, scope, locals);
        },
        ExpressionView::Paren(inner) => {
            lemma_transformed_is_writable(*inner, helper, scope, locals);
        },
        ExpressionView::Assign { op, left, right } => {
            lemma_transformed_is_writable(*left, helper, scope, locals);
            lemma_transformed_is_writable(*right, helper, scope, locals);
        },
        ExpressionView::Update { op, prefix, arg } => {
            lemma_transformed_is_writable(*arg, helper, scope, locals);
        },
        ExpressionView::Await(arg) => {
            lemma_transformed_is_writable(*arg, helper, scope, locals);
        },
        _ => {},
    }
}

/// Rewriting each of some statements that can be written out gives
/// statements that can be written out.
proof fn lemma_transformed_stmts(
    stmts: Seq<StatementView>,
    helper: ScopeHelperView,
    scope: u32,
    locals: Seq<Seq<char>>,
)
    requires
        writable_stmts(stmts),
    ensures
        writable_stmts(transformed_stmts(stmts, helper, scope, locals)),
    decreases stmts,
{
    let after = transformed_stmts(stmts, helper, scope, locals);
    lemma_writable_stmts(stmts);
    lemma_writable_stmts(after);
    assert forall|i: int| 0 <= i < after.len() implies writable_stmt(#[trigger] after[i]) by {
        assert(writable_stmt(stmts[i]));
        assert(after[i] == transformed_stmt(stmts[i], helper, scope, locals));
        match stmts[i] {
            StatementView::Return(Some(arg)) => {
                lemma_transformed_is_writable(arg, helper, scope, locals);
            },
            StatementView::Expr(inner) => {
                lemma_transformed_is_writable(inner, helper, scope, locals);
            },
            _ => {},
        }
    }
}

/// Rewriting each of some expressions that can be written out gives
/// expressions that can be written out.
proof fn lemma_transformed_exprs(
    exprs: Seq<ExpressionView>,
    after: Seq<ExpressionView>,
    helper: ScopeHelperView,
    scope: u32,
    locals: Seq<Seq<char>>,
)
    requires
        writable_exprs(exprs),
        after.len() == exprs.len(),
        forall|i: int|
            0 <= i < exprs.len() ==> #[trigger] after[i] == transformed_in(
                exprs[i],
                helper,
                scope,
                locals,
            ),
    ensures
        writable_exprs(after),
    decreases exprs,
{
    lemma_writable_exprs(exprs);
    lemma_writable_exprs(after);
    assert forall|i: int| 0 <= i < after.len() implies writable(#[trigger] after[i]) by {
        lemma_transformed_is_writable(exprs[i], helper, scope, locals);
    }
}

/// Rewriting each of some arguments that can be written out gives
/// arguments that can be written out.
proof fn lemma_transformed_args(
    args: Seq<ExprOrSpreadView>,
    after: Seq<ExprOrSpreadView>,
    helper: ScopeHelperView,
    scope: u32,
    locals: Seq<Seq<char>>,
)
    requires
        writable_args(args),
        after.len() == args.len(),
        forall|i: int|
            0 <= i < args.len() ==> (#[trigger] after[i]).expr == transformed_in(
                args[i].expr,
                helper,
                scope,
                locals,
            ),
    ensures
        writable_args(after),
    decreases args,
{
    lemma_writable_args(args);
    lemma_writable_args(after);
    assert forall|i: int| 0 <= i < after.len() implies writable((#[trigger] after[i]).expr) by {
        lemma_transformed_is_writable(args[i].expr, helper, scope, locals);
    }
}

/// Whether `expr` may evaluate an identifier whose value is known only
/// when the component runs. The same nodes are looked into as by
/// [`transformed_in`]; a parameter of an arrow function is such an
/// identifier, literals hold none, and a node that is not looked into (a
/// function, a raw node) counts as holding one.
pub open spec fn has_runtime_in(
    expr: ExpressionView,
    helper: ScopeHelperView,
    scope: u32,
    locals: Seq<Seq<char>>,
) -> bool
    decreases expr,
{
    match expr {
        ExpressionView::Ident(name) => locals.contains(name) || needs_runtime(
            resolve_spec(helper, scope, name),
        ),
        ExpressionView::Arrow(arrow) => match (param_names(arrow.params), arrow.body) {
            (Some(names), BlockStmtOrExprView::Expr(body)) => has_runtime_in(
                *body,
                helper,
                scope,
                locals + names,
            ),
            (Some(names), BlockStmtOrExprView::BlockStmt(block)) => !plain_stmts(block.stmts)
                || any_runtime_stmts(block.stmts, helper, scope, locals + names),
            _ => true,
        },
        ExpressionView::Member { obj, prop } => has_runtime_in(*obj, helper, scope, locals),
        ExpressionView::Index { obj, index } => has_runtime_in(*obj, helper, scope, locals)
            || has_runtime_in(*index, helper, scope, locals),
        ExpressionView::Sequence(exprs) => any_runtime_exprs(exprs, helper, scope, locals),
        ExpressionView::Tpl(tpl) => any_runtime_exprs(tpl.exprs, helper, scope, locals),
        ExpressionView::Array(elems) => any_runtime_elems(elems, helper, scope, locals),
        ExpressionView::Object(obj) => any_runtime_props(obj.props, helper, scope, locals),
        ExpressionView::Call { callee, args } => has_runtime_in(*callee, helper, scope, locals)
            || any_runtime_bindings(args, helper, scope, locals),
        ExpressionView::New { callee, args } => has_runtime_in(*callee, helper, scope, locals)
            || match args {
            Some(args) => any_runtime_bindings(args, helper, scope, locals),
            None => false,
        },
        ExpressionView::OptChain { optional, base } => has_runtime_in(*base, helper, scope, locals),
        ExpressionView::Unary { op, arg } => has_runtime_in(*arg, helper, scope, locals),
        ExpressionView::Bin { op, left, right } => has_runtime_in(*left, helper, scope, locals)
            || has_runtime_in(*right, helper, scope, locals),
        ExpressionView::Cond { test, cons, alt } => has_runtime_in(*test, helper, scope, locals)
            || has_runtime_in(*cons, helper, scope, locals) || has_runtime_in(
            *alt,
            helper,
            scope,
            locals,
        ),
        ExpressionView::Paren(inner) => has_runtime_in(*inner, helper, scope, locals),
        ExpressionView::Assign { op, left, right } => has_runtime_in(*left, helper, scope, locals)
            || has_runtime_in(*right, helper, scope, locals),
        ExpressionView::Update { op, prefix, arg } => has_runtime_in(*arg, helper, scope, locals),
        ExpressionView::Await(arg) => has_runtime_in(*arg, helper, scope, locals),
        ExpressionView::Fn(function) => true,
        ExpressionView::Raw(raw) => true,
        _ => false,
    }
}

/// Whether one of `args` evaluates an identifier whose value is known only
/// when the component runs.
pub open spec fn any_runtime_bindings(
    args: Seq<ExprOrSpreadView>,
    helper: ScopeHelperView,
    scope: u32,
    locals: Seq<Seq<char>>,
) -> bool
    decreases args,
{
    if args.len() == 0 {
        false
    } else {
        any_runtime_bindings(args.drop_last(), helper, scope, locals) || has_runtime_in(
            args.last().expr,
            helper,
            scope,
            locals,
        )
    }
}

/// Whether one of `stmts` evaluates an identifier whose value is known
/// only when the component runs. A statement that is not looked into
/// counts as doing so.
pub open spec fn any_runtime_stmts(
    stmts: Seq<StatementView>,
    helper: ScopeHelperView,
    scope: u32,
    locals: Seq<Seq<char>>,
) -> bool
    decreases stmts,
{
    if stmts.len() == 0 {
        false
    } else {
        any_runtime_stmts(stmts.drop_last(), helper, scope, locals) || match stmts.last() {
            StatementView::Return(Some(arg)) => has_runtime_in(arg, helper, scope, locals),
            StatementView::Return(None) => false,
            StatementView::Expr(expr) => has_runtime_in(expr, helper, scope, locals),
            StatementView::Raw(raw) => true,
        }
    }
}

/// Whether one of `exprs` evaluates an identifier whose value is known
/// only when the component runs.
pub open spec fn any_runtime_exprs(
    exprs: Seq<ExpressionView>,
    helper: ScopeHelperView,
    scope: u32,
    locals: Seq<Seq<char>>,
) -> bool
    decreases exprs,
{
    if exprs.len() == 0 {
        false
    } else {
        any_runtime_exprs(exprs.drop_last(), helper, scope, locals) || has_runtime_in(
            exprs.last(),
            helper,
            scope,
            locals,
        )
    }
}

/// Whether one of the elements of an array evaluates an identifier whose
/// value is known only when the component runs.
pub open spec fn any_runtime_elems(
    elems: Seq<Option<ExprOrSpreadView>>,
    helper: ScopeHelperView,
    scope: u32,
    locals: Seq<Seq<char>>,
) -> bool
    decreases elems,
{
    if elems.len() == 0 {
        false
    } else {
        any_runtime_elems(elems.drop_last(), helper, scope, locals) || match elems.last() {
            Some(elem) => has_runtime_in(elem.expr, helper, scope, locals),
            None => false,
        }
    }
}

/// Whether one of the entries of an object may evaluate an identifier
/// whose value is known only when the component runs. A property name
/// that is not spelled out, and a property that is not `key: value`, count
/// as holding one.
pub open spec fn any_runtime_props(
    props: Seq<PropOrSpreadView>,
    helper: ScopeHelperView,
    scope: u32,
    locals: Seq<Seq<char>>,
) -> bool
    decreases props,
{
    if props.len() == 0 {
        false
    } else {
        any_runtime_props(props.drop_last(), helper, scope, locals) || match props.last() {
            PropOrSpreadView::Spread(spread) => has_runtime_in(spread, helper, scope, locals),
            PropOrSpreadView::Prop(PropertyView::KeyValue { key, value }) => key is Raw
                || has_runtime_in(value, helper, scope, locals),
            _ => true,
        }
    }
}

/// Whether `name` is one of the names that a template reads from the global
/// object.
fn is_global(name: &str) -> (global: bool)
    ensures
        global == is_global_value(name@),
{
    str_eq(name, "Infinity")
        || str_eq(name, "undefined")
        || str_eq(name, "NaN")
        || str_eq(name, "isFinite")
        || str_eq(name, "isNaN")
        || str_eq(name, "parseFloat")
        || str_eq(name, "parseInt")
        || str_eq(name, "decodeURI")
        || str_eq(name, "decodeURIComponent")
        || str_eq(name, "encodeURI")
        || str_eq(name, "encodeURIComponent")
        || str_eq(name, "Math")
        || str_eq(name, "Number")
        || str_eq(name, "Date")
        || str_eq(name, "Array")
        || str_eq(name, "Object")
        || str_eq(name, "Boolean")
        || str_eq(name, "String")
        || str_eq(name, "RegExp")
        || str_eq(name, "Map")
        || str_eq(name, "Set")
        || str_eq(name, "JSON")
        || str_eq(name, "Intl")
        || str_eq(name, "BigInt")
        || str_eq(name, "console")
        || str_eq(name, "Error")
        || str_eq(name, "Symbol")
}

/// Whether one of `names` is `name`.
fn names_contain(names: &Vec<String>, name: &str) -> (found: bool)
    ensures
        found == names_view(names@).contains(name@),
{
    let mut i: usize = 0;
    while i < names.len()
        invariant
            i <= names.len(),
            forall|j: int| 0 <= j < i ==> names_view(names@)[j] != name@,
        decreases names.len() - i,
    {
        if str_eq(names[i].as_str(), name) {
            assert(names_view(names@)[i as int] == name@);
            return true;
        }
        i = i + 1;
    }
    false
}

/// The category of the first of `bindings` that is called `name`.
fn first_binding(bindings: &Vec<SetupBinding>, name: &str) -> (found: Option<BindingTypes>)
    ensures
        found == find_binding(bindings_view(bindings@), name@),
{
    let ghost all = bindings_view(bindings@);
    assert(all.skip(0) == all);
    let mut i: usize = 0;
    while i < bindings.len()
        invariant
            i <= bindings.len(),
            all == bindings_view(bindings@),
            find_binding(all, name@) == find_binding(all.skip(i as int), name@),
        decreases bindings.len() - i,
    {
        if str_eq(bindings[i].0.as_str(), name) {
            return Some(bindings[i].1);
        }
        assert(all.skip(i as int).skip(1) == all.skip(i + 1));
        i = i + 1;
    }
    None
}

/// Where a binding of the setup code is read from.
fn namespace_of_setup(category: BindingTypes) -> (namespace: Namespace)
    ensures
        namespace == setup_namespace(category),
{
    match category {
        BindingTypes::Props => Namespace::Props,
        _ => Namespace::Setup,
    }
}

/// The expression that reads `name`, given what it refers to.
fn rewrite_ident(name: String, resolution: Resolution, mode: TemplateGenerationMode) -> (expr:
    Expression)
    ensures
        expr@ == rewritten(name@, resolution, mode),
{
    match resolution {
        Resolution::Global => Expression::ident(name),
        Resolution::Local => Expression::ident(name),
        Resolution::Context => Expression::member(Expression::ident("_ctx".to_owned()), name),
        Resolution::Bound { category, namespace } => {
            match category {
                BindingTypes::LiteralConst => Expression::ident(name),
                _ => match mode {
                    TemplateGenerationMode::RenderFn => {
                        let prefix = match namespace {
                            Namespace::Props => "$props",
                            Namespace::Setup => "$setup",
                            Namespace::Data => "$data",
                            Namespace::Options => "$options",
                        };
                        Expression::member(Expression::ident(prefix.to_owned()), name)
                    },
                    TemplateGenerationMode::Inline => match category {
                        BindingTypes::ReactiveState => Expression::member(
                            Expression::ident(name),
                            "value".to_owned(),
                        ),
                        _ => Expression::ident(name),
                    },
                },
            }
        },
    }
}

/// Whether reading an identifier with this resolution needs a value that
/// is known only when the component runs.
fn resolution_needs_runtime(resolution: Resolution) -> (needs: bool)
    ensures
        needs == needs_runtime(resolution),
{
    match resolution {
        Resolution::Global => false,
        Resolution::Bound { category, namespace } => match category {
            BindingTypes::LiteralConst => false,
            _ => true,
        },
        _ => true,
    }
}

/// `locals` and after them the names that `params` bind, where each of
/// `params` is a plain name.
fn names_of_params(params: &Vec<Pattern>, locals: &Vec<String>) -> (names: Option<Vec<String>>)
    ensures
        match names {
            Some(all) => param_names(params_view(params@)) is Some && names_view(all@)
                == names_view(locals@) + param_names(params_view(params@))->Some_0,
            None => param_names(params_view(params@)) is None,
        },
{
    let ghost views = params_view(params@);
    let mut all: Vec<String> = Vec::new();
    let mut i: usize = 0;
    while i < locals.len()
        invariant
            i <= locals.len(),
            names_view(all@) == names_view(locals@).take(i as int),
        decreases locals.len() - i,
    {
        all.push(locals[i].clone());
        assert(names_view(all@) =~= names_view(locals@).take(i as int).push(locals@[i as int]@));
        i = i + 1;
    }
    let mut j: usize = 0;
    while j < params.len()
        invariant
            j <= params.len(),
            views == params_view(params@),
            param_names(views.take(j as int)) is Some,
            names_view(all@) == names_view(locals@) + param_names(views.take(j as int))->Some_0,
        decreases params.len() - j,
    {
        let ghost seen = views.take(j + 1);
        assert(seen.drop_last() =~= views.take(j as int));
        match &params[j] {
            Pattern::Ident(name) => {
                let ghost before = names_view(all@);
                all.push(name.clone());
                assert(names_view(all@) =~= before.push(name@));
            },
            Pattern::Raw(_) => {
                proof {
                    lemma_param_names_none(views, j as int);
                }
                return None;
            },
        }
        j = j + 1;
    }
    assert(views.take(j as int) == views);
    Some(all)
}

/// Where one of `params` is no plain name, the names of `params` are not
/// known.
proof fn lemma_param_names_none(params: Seq<PatternView>, i: int)
    requires
        0 <= i < params.len(),
        !(params[i] is Ident),
    ensures
        param_names(params) is None,
    decreases params.len(),
{
    if i < params.len() - 1 {
        lemma_param_names_none(params.drop_last(), i);
    }
}

/// Rewrites the identifiers of `expr` and hands the new expression back,
/// with the answer to whether it may need a value that is known only when
/// the component runs.
pub fn transform_expr(expr: Expression, helper: &ScopeHelper, scope: u32) -> (out: (
    Expression,
    bool,
))
    ensures
        out.0@ == transformed(expr@, helper@, scope),
        out.1 == has_runtime_bindings(expr@, helper@, scope),
        writable(expr@) ==> writable(out.0@),
{
    let locals: Vec<String> = Vec::new();
    assert(names_view(locals@) =~= Seq::<Seq<char>>::empty());
    transform_in(expr, helper, scope, &locals)
}

/// Rewrites the identifiers of `expr`, but for `locals`, the parameters of
/// the arrow functions around it, and hands the new expression back, with
/// the answer to whether it may need a value that is known only when the
/// component runs.
pub fn transform_in(
    expr: Expression,
    helper: &ScopeHelper,
    scope: u32,
    locals: &Vec<String>,
) -> (out: (Expression, bool))
    ensures
        out.0@ == transformed_in(expr@, helper@, scope, names_view(locals@)),
        out.1 == has_runtime_in(expr@, helper@, scope, names_view(locals@)),
        writable(expr@) ==> writable(out.0@),
    decreases expr,
{
    proof {
        if writable(expr@) {
            lemma_transformed_is_writable(expr@, helper@, scope, names_view(locals@));
        }
    }
    match expr {
        Expression::Ident(name) => {
            if names_contain(locals, name.as_str()) {
                return (Expression::ident(name), true);
            }
            let resolution = helper.resolve(scope, name.as_str());
            let needs = resolution_needs_runtime(resolution);
            (rewrite_ident(name, resolution, helper.transform_mode), needs)
        },
        Expression::Arrow(arrow) => {
            let ghost view = arrow@;
            let ArrowExpr { params, body, is_async } = arrow;
            assert(view.params =~= params_view(params@));
            match (names_of_params(&params, locals), body) {
                (Some(inner), BlockStmtOrExpr::Expr(body)) => {
                    let (body, dynamic) = transform_in(*body, helper, scope, &inner);
                    (Expression::arrow(params, BlockStmtOrExpr::Expr(Box::new(body)), is_async), dynamic)
                },
                (Some(inner), BlockStmtOrExpr::BlockStmt(block)) => {
                    let (block, dynamic) = transform_block(block, helper, scope, &inner);
                    (Expression::arrow(params, BlockStmtOrExpr::BlockStmt(block), is_async), dynamic)
                },
                (_, body) => {
                    let out = Expression::arrow(params, body, is_async);
                    (out, true)
                },
            }
        },
        Expression::Member { obj, prop } => {
            let (obj, dynamic) = transform_in(*obj, helper, scope, locals);
            (Expression::member(obj, prop), dynamic)
        },
        Expression::Index { obj, index } => {
            let (obj, obj_dynamic) = transform_in(*obj, helper, scope, locals);
            let (index, index_dynamic) = transform_in(*index, helper, scope, locals);
            (Expression::index(obj, index), obj_dynamic || index_dynamic)
        },
        Expression::Sequence(exprs) => {
            let ghost old_views = expr@->Sequence_0;
            assert(old_views =~= exprs_view(exprs@));
            let (exprs, dynamic) = transform_exprs(exprs, helper, scope, locals);
            let out = Expression::sequence(exprs);
            assert(out@->Sequence_0 =~=
                transformed_in(expr@, helper@, scope, names_view(locals@))->Sequence_0);
            (out, dynamic)
        },
        Expression::Tpl(tpl) => {
            let ghost old_views = tpl@.exprs;
            let Tpl { quasis, exprs } = tpl;
            assert(old_views =~= exprs_view(exprs@));
            let (exprs, dynamic) = transform_exprs(exprs, helper, scope, locals);
            let out = Expression::template(quasis, exprs);
            assert(out@->Tpl_0.exprs =~= transformed_in(
                expr@,
                helper@,
                scope,
                names_view(locals@),
            )->Tpl_0.exprs);
            (out, dynamic)
        },
        Expression::Array(elems) => {
            let ghost old_views = expr@->Array_0;
            assert(old_views =~= elems_view(elems@));
            let (elems, dynamic) = transform_elems(elems, helper, scope, locals);
            let out = Expression::array(elems);
            assert(out@->Array_0 =~=
                transformed_in(expr@, helper@, scope, names_view(locals@))->Array_0);
            (out, dynamic)
        },
        Expression::Object(obj) => {
            let ghost old_views = obj@.props;
            let ObjectLit { props } = obj;
            assert(old_views =~= props_view(props@));
            let (props, dynamic) = transform_props(props, helper, scope, locals);
            let out = Expression::object(ObjectLit::new(props));
            assert(out@->Object_0.props =~=
                transformed_in(expr@, helper@, scope, names_view(locals@))->Object_0.props);
            (out, dynamic)
        },
        Expression::Call { callee, args } => {
            let ghost old_views = expr@->Call_args;
            assert(old_views =~= args_view(args@));
            let (callee, callee_dynamic) = transform_in(*callee, helper, scope, locals);
            let (args, args_dynamic) = transform_args(args, helper, scope, locals);
            let out = Expression::call(callee, args);
            assert(out@->Call_args =~=
                transformed_in(expr@, helper@, scope, names_view(locals@))->Call_args);
            (out, callee_dynamic || args_dynamic)
        },
        Expression::New { callee, args } => {
            let ghost old_views = expr@->New_args;
            let (callee, callee_dynamic) = transform_in(*callee, helper, scope, locals);
            match args {
                Some(args) => {
                    assert(old_views->Some_0 =~= args_view(args@));
                    let (args, args_dynamic) = transform_args(args, helper, scope, locals);
                    let out = Expression::new_object(callee, Some(args));
                    assert(out@->New_args->Some_0 =~= transformed_in(
                        expr@,
                        helper@,
                        scope,
                        names_view(locals@),
                    )->New_args->Some_0);
                    (out, callee_dynamic || args_dynamic)
                },
                None => (Expression::new_object(callee, None), callee_dynamic),
            }
        },
        Expression::OptChain { optional, base } => {
            let (base, dynamic) = transform_in(*base, helper, scope, locals);
            (Expression::opt_chain(optional, base), dynamic)
        },
        Expression::Unary { op, arg } => {
            let (arg, dynamic) = transform_in(*arg, helper, scope, locals);
            (Expression::unary(op, arg), dynamic)
        },
        Expression::Bin { op, left, right } => {
            let (left, left_dynamic) = transform_in(*left, helper, scope, locals);
            let (right, right_dynamic) = transform_in(*right, helper, scope, locals);
            (Expression::binary(op, left, right), left_dynamic || right_dynamic)
        },
        Expression::Cond { test, cons, alt } => {
            let (test, test_dynamic) = transform_in(*test, helper, scope, locals);
            let (cons, cons_dynamic) = transform_in(*cons, helper, scope, locals);
            let (alt, alt_dynamic) = transform_in(*alt, helper, scope, locals);
            (Expression::conditional(test, cons, alt), test_dynamic || cons_dynamic || alt_dynamic)
        },
        Expression::Paren(inner) => {
            let (inner, dynamic) = transform_in(*inner, helper, scope, locals);
            (Expression::paren(inner), dynamic)
        },
        Expression::Assign { op, left, right } => {
            let (left, left_dynamic) = transform_in(*left, helper, scope, locals);
            let (right, right_dynamic) = transform_in(*right, helper, scope, locals);
            (Expression::assign(op, left, right), left_dynamic || right_dynamic)
        },
        Expression::Update { op, prefix, arg } => {
            let (arg, dynamic) = transform_in(*arg, helper, scope, locals);
            (Expression::update(op, prefix, arg), dynamic)
        },
        Expression::Await(arg) => {
            let (arg, dynamic) = transform_in(*arg, helper, scope, locals);
            (Expression::awaited(arg), dynamic)
        },
        Expression::Fn(function) => (Expression::Fn(function), true),
        Expression::Raw(raw) => (Expression::Raw(raw), true),
        other => (other, false),
    }
}

/// Whether each statement of `block` is a `return` or an expression
/// statement.
fn block_is_plain(block: &BlockStmt) -> (plain: bool)
    ensures
        plain == plain_stmts(block@.stmts),
{
    let mut i: usize = 0;
    while i < block.stmts.len()
        invariant
            i <= block.stmts.len(),
            forall|j: int| 0 <= j < i ==> !(#[trigger] block@.stmts[j] is Raw),
        decreases block.stmts.len() - i,
    {
        assert(block@.stmts[i as int] == block.stmts@[i as int]@);
        if let Statement::Raw(_) = &block.stmts[i] {
            return false;
        }
        i = i + 1;
    }
    true
}

/// Rewrites the identifiers in a block of nothing but `return` and
/// expression statements, as [`transform_expr`] does; any other block
/// stays as it is.
fn transform_block(
    block: BlockStmt,
    helper: &ScopeHelper,
    scope: u32,
    locals: &Vec<String>,
) -> (out: (BlockStmt, bool))
    ensures
        out.0@.stmts == if plain_stmts(block@.stmts) {
            transformed_stmts(block@.stmts, helper@, scope, names_view(locals@))
        } else {
            block@.stmts
        },
        out.1 == (!plain_stmts(block@.stmts) || any_runtime_stmts(
            block@.stmts,
            helper@,
            scope,
            names_view(locals@),
        )),
    decreases block,
{
    if block_is_plain(&block) {
        let ghost views = block@.stmts;
        assert(views =~= stmts_view(block.stmts@));
        let (stmts, dynamic) = transform_stmts(block.stmts, helper, scope, locals);
        let out = BlockStmt::new(stmts);
        assert(out@.stmts =~= transformed_stmts(views, helper@, scope, names_view(locals@)));
        (out, dynamic)
    } else {
        (block, true)
    }
}

/// Rewrites the identifiers of the expression of each statement, as
/// [`transform_expr`] does.
fn transform_stmts(
    stmts: Vec<Statement>,
    helper: &ScopeHelper,
    scope: u32,
    locals: &Vec<String>,
) -> (out: (Vec<Statement>, bool))
    ensures
        out.0@.len() == stmts@.len(),
        forall|i: int|
            0 <= i < stmts@.len() ==> #[trigger] out.0@[i]@ == transformed_stmt(
                stmts@[i]@,
                helper@,
                scope,
                names_view(locals@),
            ),
        out.1 == any_runtime_stmts(stmts_view(stmts@), helper@, scope, names_view(locals@)),
    decreases stmts,
{
    let ghost old_stmts = stmts@;
    let mut result: Vec<Statement> = Vec::new();
    let mut dynamic = false;
    for stmt in it: stmts.into_iter()
        invariant
            it.seq() == old_stmts,
            old_stmts == stmts@,
            result@.len() == it.index(),
            forall|i: int|
                0 <= i < it.index() ==> #[trigger] result@[i]@ == transformed_stmt(
                    old_stmts[i]@,
                    helper@,
                    scope,
                    names_view(locals@),
                ),
            dynamic == any_runtime_stmts(
                stmts_view(old_stmts).take(it.index()),
                helper@,
                scope,
                names_view(locals@),
            ),
    {
        let ghost seen = stmts_view(old_stmts).take(it.index() + 1);
        assert(seen.drop_last() == stmts_view(old_stmts).take(it.index()));
        assert(seen.last() == stmt@);
        match stmt {
            Statement::Return(Some(arg)) => {
                let (arg, arg_dynamic) = transform_in(arg, helper, scope, locals);
                dynamic = dynamic || arg_dynamic;
                result.push(Statement::Return(Some(arg)));
            },
            Statement::Expr(expr) => {
                let (expr, expr_dynamic) = transform_in(expr, helper, scope, locals);
                dynamic = dynamic || expr_dynamic;
                result.push(Statement::Expr(expr));
            },
            Statement::Return(None) => {
                result.push(Statement::Return(None));
            },
            Statement::Raw(raw) => {
                dynamic = true;
                result.push(Statement::Raw(raw));
            },
        }
    }
    assert(stmts_view(old_stmts).take(old_stmts.len() as int) == stmts_view(old_stmts));
    (result, dynamic)
}

/// Rewrites the identifiers of each expression, as [`transform_expr`]
/// does.
fn transform_exprs(
    exprs: Vec<Expression>,
    helper: &ScopeHelper,
    scope: u32,
    locals: &Vec<String>,
) -> (out: (Vec<Expression>, bool))
    ensures
        out.0@.len() == exprs@.len(),
        forall|i: int|
            0 <= i < exprs@.len() ==> #[trigger] out.0@[i]@ == transformed_in(
                exprs@[i]@,
                helper@,
                scope,
                names_view(locals@),
            ),
        out.1 == any_runtime_exprs(exprs_view(exprs@), helper@, scope, names_view(locals@)),
    decreases exprs,
{
    let ghost old_exprs = exprs@;
    let mut result: Vec<Expression> = Vec::new();
    let mut dynamic = false;
    for expr in it: exprs.into_iter()
        invariant
            it.seq() == old_exprs,
            old_exprs == exprs@,
            result@.len() == it.index(),
            forall|i: int|
                0 <= i < it.index() ==> #[trigger] result@[i]@ == transformed_in(
                    old_exprs[i]@,
                    helper@,
                    scope,
                    names_view(locals@),
                ),
            dynamic ==
                any_runtime_exprs(exprs_view(old_exprs).take(it.index()), helper@, scope, names_view(locals@)),
    {
        let ghost seen = exprs_view(old_exprs).take(it.index() + 1);
        assert(seen.drop_last() == exprs_view(old_exprs).take(it.index()));
        let (expr, expr_dynamic) = transform_in(expr, helper, scope, locals);
        dynamic = dynamic || expr_dynamic;
        result.push(expr);
    }
    assert(exprs_view(old_exprs).take(old_exprs.len() as int) == exprs_view(old_exprs));
    (result, dynamic)
}

/// Rewrites the identifiers of each element of an array, as
/// [`transform_expr`] does.
fn transform_elems(
    elems: Vec<Option<ExprOrSpread>>,
    helper: &ScopeHelper,
    scope: u32,
    locals: &Vec<String>,
) -> (out: (Vec<Option<ExprOrSpread>>, bool))
    ensures
        out.0@.len() == elems@.len(),
        forall|i: int|
            0 <= i < elems@.len() ==> elems_view(out.0@)[i] == match #[trigger] elems@[i] {
                Some(elem) => Some(
                    ExprOrSpreadView {
                        spread: elem.spread,
                        expr: transformed_in(elem.expr@, helper@, scope, names_view(locals@)),
                    },
                ),
                None => None,
            },
        out.1 == any_runtime_elems(elems_view(elems@), helper@, scope, names_view(locals@)),
    decreases elems,
{
    let ghost old_elems = elems@;
    let mut result: Vec<Option<ExprOrSpread>> = Vec::new();
    let mut dynamic = false;
    for elem in it: elems.into_iter()
        invariant
            it.seq() == old_elems,
            old_elems == elems@,
            result@.len() == it.index(),
            forall|i: int|
                0 <= i < it.index() ==> elems_view(result@)[i] == match #[trigger] old_elems[i] {
                    Some(elem) => Some(
                        ExprOrSpreadView {
                            spread: elem.spread,
                            expr: transformed_in(elem.expr@, helper@, scope, names_view(locals@)),
                        },
                    ),
                    None => None,
                },
            dynamic ==
                any_runtime_elems(elems_view(old_elems).take(it.index()), helper@, scope, names_view(locals@)),
    {
        let ghost seen = elems_view(old_elems).take(it.index() + 1);
        assert(seen.drop_last() == elems_view(old_elems).take(it.index()));
        match elem {
            Some(ExprOrSpread { spread, expr }) => {
                let (expr, expr_dynamic) = transform_in(expr, helper, scope, locals);
                dynamic = dynamic || expr_dynamic;
                result.push(Some(ExprOrSpread { spread, expr }));
            },
            None => {
                result.push(None);
            },
        }
    }
    assert(elems_view(old_elems).take(old_elems.len() as int) == elems_view(old_elems));
    (result, dynamic)
}

/// Rewrites the identifiers of each entry of an object, as
/// [`transform_expr`] does.
fn transform_props(
    props: Vec<PropOrSpread>,
    helper: &ScopeHelper,
    scope: u32,
    locals: &Vec<String>,
) -> (out: (Vec<PropOrSpread>, bool))
    ensures
        out.0@.len() == props@.len(),
        forall|i: int|
            0 <= i < props@.len() ==> #[trigger] out.0@[i]@ == match props@[i]@ {
                PropOrSpreadView::Spread(spread) => PropOrSpreadView::Spread(
                    transformed_in(spread, helper@, scope, names_view(locals@)),
                ),
                PropOrSpreadView::Prop(PropertyView::KeyValue { key, value }) => PropOrSpreadView::Prop(
                    PropertyView::KeyValue {
                        key,
                        value: transformed_in(value, helper@, scope, names_view(locals@)),
                    },
                ),
                entry => entry,
            },
        out.1 == any_runtime_props(props_view(props@), helper@, scope, names_view(locals@)),
    decreases props,
{
    let ghost old_props = props@;
    let mut result: Vec<PropOrSpread> = Vec::new();
    let mut dynamic = false;
    for prop in it: props.into_iter()
        invariant
            it.seq() == old_props,
            old_props == props@,
            result@.len() == it.index(),
            forall|i: int|
                0 <= i < it.index() ==> #[trigger] result@[i]@ == match old_props[i]@ {
                    PropOrSpreadView::Spread(spread) => PropOrSpreadView::Spread(
                        transformed_in(spread, helper@, scope, names_view(locals@)),
                    ),
                    PropOrSpreadView::Prop(
                        PropertyView::KeyValue { key, value },
                    ) => PropOrSpreadView::Prop(
                        PropertyView::KeyValue {
                        key,
                        value: transformed_in(value, helper@, scope, names_view(locals@)),
                    },
                    ),
                    entry => entry,
                },
            dynamic ==
                any_runtime_props(props_view(old_props).take(it.index()), helper@, scope, names_view(locals@)),
    {
        let ghost seen = props_view(old_props).take(it.index() + 1);
        assert(seen.drop_last() == props_view(old_props).take(it.index()));
        match prop {
            PropOrSpread::Spread(spread) => {
                let (spread, spread_dynamic) = transform_in(spread, helper, scope, locals);
                dynamic = dynamic || spread_dynamic;
                result.push(PropOrSpread::spread(spread));
            },
            PropOrSpread::Prop(Property::KeyValue { key, value }) => {
                let (value, value_dynamic) = transform_in(value, helper, scope, locals);
                let computed = matches!(key, PropertyName::Raw(_));
                dynamic = dynamic || computed || value_dynamic;
                result.push(PropOrSpread::key_value(key, value));
            },
            other => {
                dynamic = true;
                result.push(other);
            },
        }
    }
    assert(props_view(old_props).take(old_props.len() as int) == props_view(old_props));
    (result, dynamic)
}

/// Rewrites the identifiers of `expr` in place, so that each reads its
/// binding as seen from the scope `scope_to_use`. Returns whether the
/// expression may need a value that is known only when the component runs.
pub fn transform_scoped(expr: &mut Expression, scope_helper: &ScopeHelper, scope_to_use: u32) -> (has_js:
    bool)
    ensures
        final(expr)@ == transformed(old(expr)@, scope_helper@, scope_to_use),
        has_js == has_runtime_bindings(old(expr)@, scope_helper@, scope_to_use),
        writable(old(expr)@) ==> writable(final(expr)@),
{
    let mut taken = Expression::Invalid;
    core::mem::swap(expr, &mut taken);
    let (rewritten, has_js) = transform_expr(taken, scope_helper, scope_to_use);
    *expr = rewritten;
    has_js
}

/// Rewrites the identifiers of each argument, as [`transform_expr`] does.
fn transform_args(
    args: Vec<ExprOrSpread>,
    helper: &ScopeHelper,
    scope: u32,
    locals: &Vec<String>,
) -> (out: (Vec<ExprOrSpread>, bool))
    ensures
        out.0@.len() == args@.len(),
        forall|i: int|
            0 <= i < args@.len() ==> #[trigger] out.0@[i]@ == (ExprOrSpreadView {
                spread: args@[i].spread,
                expr: transformed_in(args@[i].expr@, helper@, scope, names_view(locals@)),
            }),
        out.1 == any_runtime_bindings(args_view(args@), helper@, scope, names_view(locals@)),
    decreases args,
{
    let ghost old_args = args@;
    let mut result: Vec<ExprOrSpread> = Vec::new();
    let mut dynamic = false;
    for arg in it: args.into_iter()
        invariant
            it.seq() == old_args,
            old_args == args@,
            result@.len() == it.index(),
            forall|i: int|
                0 <= i < it.index() ==> #[trigger] result@[i]@ == (ExprOrSpreadView {
                    spread: old_args[i].spread,
                    expr: transformed_in(old_args[i].expr@, helper@, scope, names_view(locals@)),
                }),
            dynamic == any_runtime_bindings(
                args_view(old_args).take(it.index()),
                helper@,
                scope,
                names_view(locals@),
            ),
    {
        let ghost seen = args_view(old_args).take(it.index() + 1);
        assert(seen.drop_last() == args_view(old_args).take(it.index()));
        let ExprOrSpread { spread, expr } = arg;
        let (expr, expr_dynamic) = transform_in(expr, helper, scope, locals);
        dynamic = dynamic || expr_dynamic;
        result.push(ExprOrSpread { spread, expr });
    }
    assert(args_view(old_args).take(old_args.len() as int) == args_view(old_args));
    (result, dynamic)
}

impl ScriptLegacyVars {
    /// What `name` refers to among the bindings recorded from the
    /// options-style script.
    pub fn resolve(&self, name: &str) -> (resolution: Resolution)
        ensures
            resolution == resolve_legacy(self@, name@),
    {
        if names_contain(&self.props, name) {
            return Resolution::Bound { category: BindingTypes::Props, namespace: Namespace::Props };
        }
        if names_contain(&self.data, name) {
            return Resolution::Bound {
                category: BindingTypes::ReactiveState,
                namespace: Namespace::Data,
            };
        }
        if let Some(category) = first_binding(&self.setup, name) {
            return Resolution::Bound { category, namespace: namespace_of_setup(category) };
        }
        if names_contain(&self.computed, name) {
            return Resolution::Bound {
                category: BindingTypes::Computed,
                namespace: Namespace::Options,
            };
        }
        if names_contain(&self.methods, name) {
            return Resolution::Bound { category: BindingTypes::Method, namespace: Namespace::Options };
        }
        if names_contain(&self.inject, name) {
            return Resolution::Bound {
                category: BindingTypes::Injected,
                namespace: Namespace::Options,
            };
        }
        Resolution::Context
    }
}

impl ScopeHelper {
    /// Whether every scope but the root has a parent with a smaller index
    /// than its own.
    pub fn has_well_formed_scopes(&self) -> (well_formed: bool)
        ensures
            well_formed == scopes_well_formed(self@.template_scopes),
    {
        let ghost scopes = self@.template_scopes;
        let mut i: usize = 1;
        while i < self.template_scopes.len()
            invariant
                1 <= i,
                scopes == self@.template_scopes,
                forall|j: int| 0 < j < i && j < scopes.len() ==> (#[trigger] scopes[j]).parent < j,
            decreases self.template_scopes.len() - i,
        {
            assert(scopes[i as int] == self.template_scopes@[i as int]@);
            if self.template_scopes[i].parent as usize >= i {
                return false;
            }
            i = i + 1;
        }
        true
    }

    /// Whether the scope `scope_id`, or one that encloses it, introduces
    /// `name`.
    pub fn find_in_scopes(&self, scope_id: u32, name: &str) -> (found: bool)
        ensures
            found == declared_in_scopes(self@.template_scopes, scope_id as int, name@),
    {
        let ghost scopes = self@.template_scopes;
        let mut current: usize = scope_id as usize;
        loop
            invariant
                scopes == self@.template_scopes,
                current <= u32::MAX,
                declared_in_scopes(scopes, scope_id as int, name@) == declared_in_scopes(
                    scopes,
                    current as int,
                    name@,
                ),
            decreases current,
        {
            if current >= self.template_scopes.len() {
                return false;
            }
            let scope = &self.template_scopes[current];
            if scope.variables.contains(name) {
                return true;
            }
            let parent = scope.parent as usize;
            if current == 0 || parent >= current {
                return false;
            }
            current = parent;
        }
    }

    /// What the identifier `identifier`, met in the scope `scope_id`,
    /// refers to. Never fails: a name that nothing declares resolves to the
    /// context object.
    pub fn resolve(&self, scope_id: u32, identifier: &str) -> (resolution: Resolution)
        ensures
            resolution == resolve_spec(self@, scope_id, identifier@),
    {
        if self.find_in_scopes(scope_id, identifier) {
            return Resolution::Local;
        }
        if let Some(category) = first_binding(&self.setup_bindings, identifier) {
            return Resolution::Bound { category, namespace: namespace_of_setup(category) };
        }
        match self.options_api_vars.resolve(identifier) {
            Resolution::Context => if is_global(identifier) {
                Resolution::Global
            } else {
                Resolution::Context
            },
            resolution => resolution,
        }
    }
}

} // verus!

