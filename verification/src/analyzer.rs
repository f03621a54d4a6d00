//! Reading what an options-style script declares: the fields of its
//! default export, and the items at its top level.

use vstd::prelude::*;
use crate::ast::ArrowExpr;
use crate::ast::ArrowExprView;
use crate::ast::BlockStmt;
use crate::ast::BlockStmtOrExpr;
use crate::ast::BlockStmtOrExprView;
use crate::ast::elems_view;
use crate::ast::Expression;
use crate::ast::ExpressionView;
use crate::ast::ExprOrSpread;
use crate::ast::ExprOrSpreadView;
use crate::ast::Function;
use crate::ast::FunctionView;
use crate::ast::ObjectLit;
use crate::ast::Property;
use crate::ast::PropertyName;
use crate::ast::PropertyNameView;
use crate::ast::PropertyView;
use crate::ast::PropOrSpread;
use crate::ast::PropOrSpreadView;
use crate::ast::Statement;
use crate::ast::StatementView;
use crate::ast::Tpl;
use crate::ast::TplView;
use crate::module::ImportDecl;
use crate::module::ImportDeclView;
use crate::module::ImportName;
use crate::module::ImportNameView;
use crate::module::Module;
use crate::module::ModuleItem;
use crate::module::ModuleItemView;
use crate::raw::piece_text;
use crate::raw::tpl_piece_text;
use crate::structs::bindings_view;
use crate::structs::BindingTypes;
use crate::structs::names_view;
use crate::structs::ScriptLegacyVars;
use crate::structs::ScriptLegacyVarsView;
use crate::structs::SetupBinding;
use crate::structs::SetupBindingView;
use crate::structs::str_eq;

verus! {

/// The values of the elements that are string literals and not spread, in
/// their order.
pub open spec fn string_elements(elems: Seq<Option<ExprOrSpreadView>>) -> Seq<Seq<char>>
    decreases elems.len(),
{
    if elems.len() == 0 {
        Seq::empty()
    } else {
        let before = string_elements(elems.drop_last());
        match elems.last() {
            Some(ExprOrSpreadView { spread: false, expr: ExpressionView::Str { value, raw } }) => {
                before.push(value)
            },
            _ => before,
        }
    }
}

/// The name that a property name spells out, where it is an identifier or
/// a string.
pub open spec fn key_name(key: PropertyNameView) -> Option<Seq<char>> {
    match key {
        PropertyNameView::Ident(name) => Some(name),
        PropertyNameView::Str { value, raw } => Some(value),
        PropertyNameView::Raw(raw) => None,
    }
}

/// The name of an entry of an object literal: that of a `key: value`
/// property or a method whose name is spelled out.
pub open spec fn entry_name(entry: PropOrSpreadView) -> Option<Seq<char>> {
    match entry {
        PropOrSpreadView::Prop(PropertyView::KeyValue { key, value }) => key_name(key),
        PropOrSpreadView::Prop(PropertyView::Method { key, function }) => key_name(key),
        _ => None,
    }
}

/// The names of the entries of an object literal, in their order.
pub open spec fn own_keys(props: Seq<PropOrSpreadView>) -> Seq<Seq<char>>
    decreases props.len(),
{
    if props.len() == 0 {
        Seq::empty()
    } else {
        let before = own_keys(props.drop_last());
        match entry_name(props.last()) {
            Some(name) => before.push(name),
            None => before,
        }
    }
}

/// The expression inside any parentheses around it.
pub open spec fn unparen(expr: ExpressionView) -> ExpressionView
    decreases expr,
{
    match expr {
        ExpressionView::Paren(inner) => unparen(*inner),
        _ => expr,
    }
}

/// The names of the object that an expression gives: the names of its
/// entries where it is an object literal, possibly in parentheses; none
/// otherwise.
pub open spec fn returned_keys(expr: ExpressionView) -> Seq<Seq<char>> {
    match unparen(expr) {
        ExpressionView::Object(obj) => own_keys(obj.props),
        _ => Seq::empty(),
    }
}

/// The names of the object that a block returns: those of its first
/// `return` statement, provided that it returns a value.
pub open spec fn block_keys(stmts: Seq<StatementView>) -> Seq<Seq<char>>
    decreases stmts.len(),
{
    if stmts.len() == 0 {
        Seq::empty()
    } else {
        match stmts[0] {
            StatementView::Return(Some(expr)) => returned_keys(expr),
            StatementView::Return(None) => Seq::empty(),
            _ => block_keys(stmts.skip(1)),
        }
    }
}

/// `names` as plain values of the setup code.
pub open spec fn setup_values(names: Seq<Seq<char>>) -> Seq<SetupBindingView> {
    names.map_values(
        |name: Seq<char>| SetupBindingView { name, category: BindingTypes::SetupValue },
    )
}

/// What a field with an array as its value adds: the strings in the array
/// are the names of `props`, `inject`, `emits` or `expose`.
pub open spec fn array_collected(
    field: Seq<char>,
    elems: Seq<Option<ExprOrSpreadView>>,
    vars: ScriptLegacyVarsView,
) -> ScriptLegacyVarsView {
    let names = string_elements(elems);
    if field == "props"@ {
        ScriptLegacyVarsView { props: vars.props + names, ..vars }
    } else if field == "inject"@ {
        ScriptLegacyVarsView { inject: vars.inject + names, ..vars }
    } else if field == "emits"@ {
        ScriptLegacyVarsView { emits: vars.emits + names, ..vars }
    } else if field == "expose"@ {
        ScriptLegacyVarsView { expose: vars.expose + names, ..vars }
    } else {
        vars
    }
}

/// What a field with an object as its value adds: the names of the
/// object's entries are the names of `props`, `computed`, `inject`,
/// `emits`, `components`, `methods` or `directives`.
pub open spec fn object_collected(
    field: Seq<char>,
    props: Seq<PropOrSpreadView>,
    vars: ScriptLegacyVarsView,
) -> ScriptLegacyVarsView {
    let names = own_keys(props);
    if field == "props"@ {
        ScriptLegacyVarsView { props: vars.props + names, ..vars }
    } else if field == "computed"@ {
        ScriptLegacyVarsView { computed: vars.computed + names, ..vars }
    } else if field == "inject"@ {
        ScriptLegacyVarsView { inject: vars.inject + names, ..vars }
    } else if field == "emits"@ {
        ScriptLegacyVarsView { emits: vars.emits + names, ..vars }
    } else if field == "components"@ {
        ScriptLegacyVarsView { components: vars.components + names, ..vars }
    } else if field == "methods"@ {
        ScriptLegacyVarsView { methods: vars.methods + names, ..vars }
    } else if field == "directives"@ {
        ScriptLegacyVarsView { directives: vars.directives + names, ..vars }
    } else {
        vars
    }
}

/// What a field adds whose value gives an object with these names: they
/// are the names of `data`, or plain values of `setup`.
pub open spec fn returned_collected(
    field: Seq<char>,
    names: Seq<Seq<char>>,
    vars: ScriptLegacyVarsView,
) -> ScriptLegacyVarsView {
    if field == "data"@ {
        ScriptLegacyVarsView { data: vars.data + names, ..vars }
    } else if field == "setup"@ {
        ScriptLegacyVarsView { setup: vars.setup + setup_values(names), ..vars }
    } else {
        vars
    }
}

/// What a field with a function as its value adds: nothing where the
/// function has no body, else what the object that its body returns adds.
pub open spec fn function_collected(
    field: Seq<char>,
    function: FunctionView,
    vars: ScriptLegacyVarsView,
) -> ScriptLegacyVarsView {
    match function.body {
        Some(block) => returned_collected(field, block_keys(block.stmts), vars),
        None => vars,
    }
}

/// What a field with an arrow function as its value adds: what the object
/// adds that its body returns or is.
pub open spec fn arrow_collected(
    field: Seq<char>,
    arrow: ArrowExprView,
    vars: ScriptLegacyVarsView,
) -> ScriptLegacyVarsView {
    match arrow.body {
        BlockStmtOrExprView::BlockStmt(block) => returned_collected(
            field,
            block_keys(block.stmts),
            vars,
        ),
        BlockStmtOrExprView::Expr(expr) => returned_collected(field, returned_keys(*expr), vars),
    }
}

/// What a field with a literal as its value adds: a string is the `name`.
pub open spec fn lit_collected(
    field: Seq<char>,
    lit: ExpressionView,
    vars: ScriptLegacyVarsView,
) -> ScriptLegacyVarsView {
    match lit {
        ExpressionView::Str { value, raw } => if field == "name"@ {
            ScriptLegacyVarsView { name: Some(value), ..vars }
        } else {
            vars
        },
        _ => vars,
    }
}

/// The text of a template literal that holds nothing but text: one piece
/// and no expression.
pub open spec fn tpl_text(tpl: TplView) -> Option<Seq<char>> {
    if tpl.exprs.len() == 0 && tpl.quasis.len() == 1 {
        piece_text(tpl.quasis[0])
    } else {
        None
    }
}

/// What a field with a template literal as its value adds: to `name`, the
/// text of the template, or nothing where it holds more than text.
pub open spec fn tpl_collected(
    field: Seq<char>,
    text: Option<Seq<char>>,
    vars: ScriptLegacyVarsView,
) -> ScriptLegacyVarsView {
    if field == "name"@ {
        ScriptLegacyVarsView { name: text, ..vars }
    } else {
        vars
    }
}

/// What the field `name: value` adds, by the form of its value: an array,
/// an object, a function, an arrow function, a literal or a template
/// literal. A value of any other form adds nothing.
pub open spec fn value_collected(
    field: Seq<char>,
    value: ExpressionView,
    vars: ScriptLegacyVarsView,
) -> ScriptLegacyVarsView {
    match value {
        ExpressionView::Array(elems) => array_collected(field, elems, vars),
        ExpressionView::Object(obj) => object_collected(field, obj.props, vars),
        ExpressionView::Fn(function) => function_collected(field, function, vars),
        ExpressionView::Arrow(arrow) => arrow_collected(field, arrow, vars),
        ExpressionView::Str { value: text, raw } => lit_collected(field, value, vars),
        ExpressionView::Bool(b) => lit_collected(field, value, vars),
        ExpressionView::Null => lit_collected(field, value, vars),
        ExpressionView::Tpl(tpl) => tpl_collected(field, tpl_text(tpl), vars),
        _ => vars,
    }
}

/// What one entry of the default export adds. Only properties of the
/// object itself with a spelled-out name add anything: a `key: value`
/// property by the form of its value, a method as a function.
pub open spec fn entry_collected(
    entry: PropOrSpreadView,
    vars: ScriptLegacyVarsView,
) -> ScriptLegacyVarsView {
    match entry {
        PropOrSpreadView::Prop(PropertyView::KeyValue { key, value }) => match key_name(key) {
            Some(field) => value_collected(field, value, vars),
            None => vars,
        },
        PropOrSpreadView::Prop(PropertyView::Method { key, function }) => match key_name(key) {
            Some(field) => function_collected(field, function, vars),
            None => vars,
        },
        _ => vars,
    }
}

/// What the entries of the default export add, one after the other.
pub open spec fn entries_collected(
    entries: Seq<PropOrSpreadView>,
    vars: ScriptLegacyVarsView,
) -> ScriptLegacyVarsView
    decreases entries.len(),
{
    if entries.len() == 0 {
        vars
    } else {
        entry_collected(entries.last(), entries_collected(entries.drop_last(), vars))
    }
}

/// The name that a property name spells out.
fn name_of_key(key: &PropertyName) -> (name: Option<&String>)
    ensures
        match name {
            Some(n) => key_name(key@) == Some(n@),
            None => key_name(key@) is None,
        },
{
    match key {
        PropertyName::Ident(name) => Some(name),
        PropertyName::Str { value, raw } => Some(value),
        PropertyName::Raw(_) => None,
    }
}

/// Appends the strings of an array literal to `out`.
fn collect_string_arr(elems: &Vec<Option<ExprOrSpread>>, out: &mut Vec<String>)
    ensures
        names_view(final(out)@) == names_view(old(out)@) + string_elements(elems_view(elems@)),
{
    let ghost views = elems_view(elems@);
    let ghost known = names_view(out@);
    let mut i: usize = 0;
    while i < elems.len()
        invariant
            i <= elems.len(),
            views == elems_view(elems@),
            names_view(out@) == known + string_elements(views.take(i as int)),
        decreases elems.len() - i,
    {
        let ghost seen = views.take(i + 1);
        assert(seen.drop_last() =~= views.take(i as int));
        if let Some(elem) = &elems[i] {
            if !elem.spread {
                if let Expression::Str { value, raw } = &elem.expr {
                    let ghost before = names_view(out@);
                    out.push(value.clone());
                    assert(names_view(out@) =~= before.push(value@));
                }
            }
        }
        i = i + 1;
    }
    assert(views.take(i as int) == views);
}

/// Appends the names of the entries of an object literal to `out`.
fn collect_obj_fields(obj: &ObjectLit, out: &mut Vec<String>)
    ensures
        names_view(final(out)@) == names_view(old(out)@) + own_keys(obj@.props),
{
    let ghost views = obj@.props;
    let ghost known = names_view(out@);
    let mut i: usize = 0;
    while i < obj.props.len()
        invariant
            i <= obj.props.len(),
            views == obj@.props,
            names_view(out@) == known + own_keys(views.take(i as int)),
        decreases obj.props.len() - i,
    {
        let ghost seen = views.take(i + 1);
        assert(seen.drop_last() =~= views.take(i as int));
        let name = match &obj.props[i] {
            PropOrSpread::Prop(Property::KeyValue { key, value }) => name_of_key(key),
            PropOrSpread::Prop(Property::Method { key, function }) => name_of_key(key),
            _ => None,
        };
        if let Some(name) = name {
            let ghost before = names_view(out@);
            out.push(name.clone());
            assert(names_view(out@) =~= before.push(name@));
        }
        i = i + 1;
    }
    assert(views.take(i as int) == views);
}

/// The expression inside any parentheses around it.
fn strip_parens(expr: &Expression) -> (inner: &Expression)
    ensures
        inner@ == unparen(expr@),
        !(inner@ is Paren),
    decreases expr,
{
    match expr {
        Expression::Paren(inner) => strip_parens(inner),
        _ => expr,
    }
}

/// The names of the object that an expression gives.
fn keys_of_expr(expr: &Expression) -> (names: Vec<String>)
    ensures
        names_view(names@) == returned_keys(expr@),
{
    let mut names: Vec<String> = Vec::new();
    if let Expression::Object(obj) = strip_parens(expr) {
        collect_obj_fields(obj, &mut names);
    }
    names
}

/// The names of the object that a block returns.
fn keys_of_block(block: &BlockStmt) -> (names: Vec<String>)
    ensures
        names_view(names@) == block_keys(block@.stmts),
{
    let ghost views = block@.stmts;
    let mut i: usize = 0;
    assert(views.skip(0) == views);
    while i < block.stmts.len()
        invariant
            i <= block.stmts.len(),
            views == block@.stmts,
            block_keys(views) == block_keys(views.skip(i as int)),
        decreases block.stmts.len() - i,
    {
        match &block.stmts[i] {
            Statement::Return(Some(expr)) => {
                return keys_of_expr(expr);
            },
            Statement::Return(None) => {
                let names: Vec<String> = Vec::new();
                return names;
            },
            _ => {},
        }
        assert(views.skip(i as int).skip(1) == views.skip(i + 1));
        i = i + 1;
    }
    let names: Vec<String> = Vec::new();
    names
}

/// Records the names of a returned object under `data` or `setup`.
fn collect_returned(field: &str, names: Vec<String>, script_legacy_vars: &mut ScriptLegacyVars)
    ensures
        final(script_legacy_vars)@ == returned_collected(
            field@,
            names_view(names@),
            old(script_legacy_vars)@,
        ),
{
    let mut names = names;
    let ghost added = names_view(names@);
    if str_eq(field, "data") {
        let ghost before = names_view(script_legacy_vars.data@);
        script_legacy_vars.data.append(&mut names);
        assert(names_view(script_legacy_vars.data@) =~= before + added);
    } else if str_eq(field, "setup") {
        let ghost before = bindings_view(script_legacy_vars.setup@);
        let ghost all = names@;
        for name in it: names.into_iter()
            invariant
                it.seq() == all,
                added == names_view(all),
                bindings_view(script_legacy_vars.setup@) == before + setup_values(
                    added.take(it.index()),
                ),
                *script_legacy_vars == (ScriptLegacyVars {
                    setup: script_legacy_vars.setup,
                    ..*old(script_legacy_vars)
                }),
        {
            let ghost recorded = bindings_view(script_legacy_vars.setup@);
            script_legacy_vars.setup.push(SetupBinding(name, BindingTypes::SetupValue));
            assert(bindings_view(script_legacy_vars.setup@) =~= recorded.push(
                SetupBindingView { name: name@, category: BindingTypes::SetupValue },
            ));
        }
        assert(added.take(all.len() as int) == added);
    }
}

/// In the options API, `props`, `inject`, `emits` and `expose` may be
/// arrays: the strings of the array are recorded under the field's name.
pub fn handle_options_array(
    field: &str,
    array_lit: &Vec<Option<ExprOrSpread>>,
    script_legacy_vars: &mut ScriptLegacyVars,
)
    ensures
        final(script_legacy_vars)@ == array_collected(
            field@,
            elems_view(array_lit@),
            old(script_legacy_vars)@,
        ),
{
    if str_eq(field, "props") {
        collect_string_arr(array_lit, &mut script_legacy_vars.props)
    } else if str_eq(field, "inject") {
        collect_string_arr(array_lit, &mut script_legacy_vars.inject)
    } else if str_eq(field, "emits") {
        collect_string_arr(array_lit, &mut script_legacy_vars.emits)
    } else if str_eq(field, "expose") {
        collect_string_arr(array_lit, &mut script_legacy_vars.expose)
    }
}

/// Only `data` and `setup` may be arrow functions: the names of the object
/// that the arrow function returns are recorded under the field's name.
pub fn handle_options_arrow_function(
    field: &str,
    arrow_expr: &ArrowExpr,
    script_legacy_vars: &mut ScriptLegacyVars,
)
    ensures
        final(script_legacy_vars)@ == arrow_collected(
            field@,
            arrow_expr@,
            old(script_legacy_vars)@,
        ),
{
    // An arrow function has either a block or an expression as its body:
    // `() => {}` returns nothing, `() => ({})` returns an empty object
    let names = match &arrow_expr.body {
        BlockStmtOrExpr::BlockStmt(block_stmt) => keys_of_block(block_stmt),
        BlockStmtOrExpr::Expr(arrow_body_expr) => keys_of_expr(arrow_body_expr),
    };
    collect_returned(field, names, script_legacy_vars)
}

/// Only `data` and `setup` may be functions: the names of the object that
/// the function returns are recorded under the field's name.
pub fn handle_options_function(
    field: &str,
    function: &Function,
    script_legacy_vars: &mut ScriptLegacyVars,
)
    ensures
        final(script_legacy_vars)@ == function_collected(
            field@,
            function@,
            old(script_legacy_vars)@,
        ),
{
    let function_body = match &function.body {
        Some(function_body) => function_body,
        None => {
            return ;
        },
    };
    collect_returned(field, keys_of_block(function_body), script_legacy_vars)
}

/// `name` may be a string literal.
pub fn handle_options_lit(field: &str, lit: &Expression, script_legacy_vars: &mut ScriptLegacyVars)
    ensures
        final(script_legacy_vars)@ == lit_collected(field@, lit@, old(script_legacy_vars)@),
{
    if str_eq(field, "name") {
        if let Expression::Str { value, raw } = lit {
            script_legacy_vars.name = Some(value.clone())
        }
    }
}

/// `name` may be a template literal that holds nothing but text.
pub fn handle_options_tpl(field: &str, tpl: &Tpl, script_legacy_vars: &mut ScriptLegacyVars)
    ensures
        final(script_legacy_vars)@ == tpl_collected(
            field@,
            tpl_text(tpl@),
            old(script_legacy_vars)@,
        ),
{
    if str_eq(field, "name") {
        script_legacy_vars.name = get_string_tpl(tpl);
    }
}

/// The text of a template literal that holds nothing but text.
pub fn get_string_tpl(tpl: &Tpl) -> (text: Option<String>)
    ensures
        name_view(text) == tpl_text(tpl@),
{
    if tpl.exprs.len() != 0 || tpl.quasis.len() != 1 {
        return None;
    }
    tpl_piece_text(&tpl.quasis[0])
}

/// `props`, `computed`, `inject`, `emits`, `components`, `methods` and
/// `directives` may be objects: the names of the object's entries are
/// recorded under the field's name.
pub fn handle_options_obj(field: &str, obj_lit: &ObjectLit, script_legacy_vars: &mut ScriptLegacyVars)
    ensures
        final(script_legacy_vars)@ == object_collected(
            field@,
            obj_lit@.props,
            old(script_legacy_vars)@,
        ),
{
    if str_eq(field, "props") {
        collect_obj_fields(obj_lit, &mut script_legacy_vars.props)
    } else if str_eq(field, "computed") {
        collect_obj_fields(obj_lit, &mut script_legacy_vars.computed)
    } else if str_eq(field, "inject") {
        collect_obj_fields(obj_lit, &mut script_legacy_vars.inject)
    } else if str_eq(field, "emits") {
        collect_obj_fields(obj_lit, &mut script_legacy_vars.emits)
    } else if str_eq(field, "components") {
        collect_obj_fields(obj_lit, &mut script_legacy_vars.components)
    } else if str_eq(field, "methods") {
        collect_obj_fields(obj_lit, &mut script_legacy_vars.methods)
    } else if str_eq(field, "directives") {
        collect_obj_fields(obj_lit, &mut script_legacy_vars.directives)
    }
}

/// Reads the fields of the default export, as the options API has them:
/// each property of the object itself is handed on by the form of its
/// value, and what it declares is recorded in `out`. Spread entries,
/// properties without a spelled-out name, fields with other names and
/// values of other forms are passed over.
pub fn analyze_default_export(default_export: &ObjectLit, out: &mut ScriptLegacyVars)
    ensures
        final(out)@ == entries_collected(default_export@.props, old(out)@),
{
    let ghost entries = default_export@.props;
    let ghost start = out@;
    let mut i: usize = 0;
    while i < default_export.props.len()
        invariant
            i <= default_export.props.len(),
            entries == default_export@.props,
            out@ == entries_collected(entries.take(i as int), start),
        decreases default_export.props.len() - i,
    {
        let ghost seen = entries.take(i + 1);
        assert(seen.drop_last() =~= entries.take(i as int));
        let field = &default_export.props[i];
        i = i + 1;
        let prop = match field {
            PropOrSpread::Prop(prop) => prop,
            _ => {
                continue ;
            },
        };

        match prop {
            Property::KeyValue { key, value } => {
                let sym = match name_of_key(key) {
                    Some(sym) => sym.as_str(),
                    None => {
                        continue ;
                    },
                };

                match value {
                    Expression::Array(array_lit) => {
                        assert(value@->Array_0 =~= elems_view(array_lit@));
                        handle_options_array(sym, array_lit, out)
                    },
                    Expression::Object(obj_lit) => handle_options_obj(sym, obj_lit, out),
                    Expression::Fn(function) => handle_options_function(sym, function, out),
                    Expression::Arrow(arrow_expr) => handle_options_arrow_function(
                        sym,
                        arrow_expr,
                        out,
                    ),
                    Expression::Str { value: text, raw } => handle_options_lit(sym, value, out),
                    Expression::Bool(b) => handle_options_lit(sym, value, out),
                    Expression::Null => handle_options_lit(sym, value, out),
                    Expression::Tpl(tpl) => handle_options_tpl(sym, tpl, out),
                    _ => {
                        continue ;
                    },
                }
            },
            Property::Method { key, function } => {
                let sym = match name_of_key(key) {
                    Some(sym) => sym.as_str(),
                    None => {
                        continue ;
                    },
                };

                handle_options_function(sym, function, out)
            },
            _ => {},
        }
    }
    assert(entries.take(i as int) == entries);
}

/// The names that the runtime's `ref`, `computed` and `reactive` are
/// imported under, as far as the script imports them.
#[derive(Debug, PartialEq)]
pub struct VueResolvedImports {
    pub vue_ref: Option<String>,
    pub vue_computed: Option<String>,
    pub vue_reactive: Option<String>,
}

/// The view of a [`VueResolvedImports`].
pub ghost struct VueResolvedImportsView {
    pub vue_ref: Option<Seq<char>>,
    pub vue_computed: Option<Seq<char>>,
    pub vue_reactive: Option<Seq<char>>,
}

/// The view of a name that may be missing.
pub open spec fn name_view(name: Option<String>) -> Option<Seq<char>> {
    match name {
        Some(n) => Some(n@),
        None => None,
    }
}

impl View for VueResolvedImports {
    type V = VueResolvedImportsView;

    open spec fn view(&self) -> VueResolvedImportsView {
        VueResolvedImportsView {
            vue_ref: name_view(self.vue_ref),
            vue_computed: name_view(self.vue_computed),
            vue_reactive: name_view(self.vue_reactive),
        }
    }
}

impl Default for VueResolvedImports {
    fn default() -> (imports: VueResolvedImports)
        ensures
            imports@ == (VueResolvedImportsView {
                vue_ref: None,
                vue_computed: None,
                vue_reactive: None,
            }),
    {
        VueResolvedImports { vue_ref: None, vue_computed: None, vue_reactive: None }
    }
}

/// The name that an import specifier binds in the module.
pub open spec fn local_of(specifier: ImportNameView) -> Seq<char> {
    match specifier {
        ImportNameView::Named { local, imported } => local,
        ImportNameView::Default(local) => local,
        ImportNameView::Namespace(local) => local,
    }
}

/// The names that import specifiers bind in the module, in their order.
pub open spec fn locals_of(specifiers: Seq<ImportNameView>) -> Seq<Seq<char>> {
    specifiers.map_values(|specifier: ImportNameView| local_of(specifier))
}

/// What one specifier of an import from the runtime module resolves: a
/// named import of `ref`, `computed` or `reactive` gives the name that it
/// is imported under.
pub open spec fn specifier_resolved(
    specifier: ImportNameView,
    vue_imports: VueResolvedImportsView,
) -> VueResolvedImportsView {
    match specifier {
        ImportNameView::Named { local, imported } => {
            let exported = match imported {
                Some(name) => name,
                None => local,
            };
            if exported == "ref"@ {
                VueResolvedImportsView { vue_ref: Some(local), ..vue_imports }
            } else if exported == "computed"@ {
                VueResolvedImportsView { vue_computed: Some(local), ..vue_imports }
            } else if exported == "reactive"@ {
                VueResolvedImportsView { vue_reactive: Some(local), ..vue_imports }
            } else {
                vue_imports
            }
        },
        _ => vue_imports,
    }
}

/// What the specifiers of an import from the runtime module resolve, one
/// after the other.
pub open spec fn specifiers_resolved(
    specifiers: Seq<ImportNameView>,
    vue_imports: VueResolvedImportsView,
) -> VueResolvedImportsView
    decreases specifiers.len(),
{
    if specifiers.len() == 0 {
        vue_imports
    } else {
        specifier_resolved(
            specifiers.last(),
            specifiers_resolved(specifiers.drop_last(), vue_imports),
        )
    }
}

/// What an import declaration resolves: its specifiers, where it imports
/// from `vue`.
pub open spec fn import_resolved(
    decl: ImportDeclView,
    vue_imports: VueResolvedImportsView,
) -> VueResolvedImportsView {
    if decl.src == "vue"@ {
        specifiers_resolved(decl.specifiers, vue_imports)
    } else {
        vue_imports
    }
}

/// What a top-level item adds to the record of the script: an import, the
/// names that it binds; an export of names or of a declaration, and a
/// statement, the bindings that it declares, as setup bindings. Any other
/// item adds nothing.
pub open spec fn item_collected(
    item: ModuleItemView,
    vars: ScriptLegacyVarsView,
) -> ScriptLegacyVarsView {
    match item {
        ModuleItemView::Import(decl) => ScriptLegacyVarsView {
            imports: vars.imports + locals_of(decl.specifiers),
            ..vars
        },
        ModuleItemView::ExportNamed { bindings, raw } => ScriptLegacyVarsView {
            setup: vars.setup + bindings,
            ..vars
        },
        ModuleItemView::ExportDecl { bindings, raw } => ScriptLegacyVarsView {
            setup: vars.setup + bindings,
            ..vars
        },
        ModuleItemView::Stmt { bindings, raw } => ScriptLegacyVarsView {
            setup: vars.setup + bindings,
            ..vars
        },
        _ => vars,
    }
}

/// What a top-level item resolves of the runtime's imports.
pub open spec fn item_resolved(
    item: ModuleItemView,
    vue_imports: VueResolvedImportsView,
) -> VueResolvedImportsView {
    match item {
        ModuleItemView::Import(decl) => import_resolved(decl, vue_imports),
        _ => vue_imports,
    }
}

/// What the top-level items add to the record of the script, one after
/// the other.
pub open spec fn items_collected(
    items: Seq<ModuleItemView>,
    vars: ScriptLegacyVarsView,
) -> ScriptLegacyVarsView
    decreases items.len(),
{
    if items.len() == 0 {
        vars
    } else {
        item_collected(items.last(), items_collected(items.drop_last(), vars))
    }
}

/// What the top-level items resolve of the runtime's imports, one after
/// the other.
pub open spec fn items_resolved(
    items: Seq<ModuleItemView>,
    vue_imports: VueResolvedImportsView,
) -> VueResolvedImportsView
    decreases items.len(),
{
    if items.len() == 0 {
        vue_imports
    } else {
        item_resolved(items.last(), items_resolved(items.drop_last(), vue_imports))
    }
}

/// Records the names that an import declaration binds, and what it
/// resolves of the runtime's imports.
pub fn collect_imports(
    import_decl: &ImportDecl,
    out: &mut Vec<String>,
    vue_imports: &mut VueResolvedImports,
)
    ensures
        names_view(final(out)@) == names_view(old(out)@) + locals_of(import_decl@.specifiers),
        final(vue_imports)@ == import_resolved(import_decl@, old(vue_imports)@),
{
    let ghost specifiers = import_decl@.specifiers;
    let ghost known = names_view(out@);
    let ghost resolved = vue_imports@;
    let from_vue = str_eq(import_decl.src.as_str(), "vue");
    let mut i: usize = 0;
    while i < import_decl.specifiers.len()
        invariant
            i <= import_decl.specifiers.len(),
            specifiers == import_decl@.specifiers,
            from_vue == (import_decl@.src == "vue"@),
            names_view(out@) == known + locals_of(specifiers.take(i as int)),
            vue_imports@ == if from_vue {
                specifiers_resolved(specifiers.take(i as int), resolved)
            } else {
                resolved
            },
        decreases import_decl.specifiers.len() - i,
    {
        let ghost seen = specifiers.take(i + 1);
        assert(seen.drop_last() =~= specifiers.take(i as int));
        let ghost before = names_view(out@);
        let specifier = &import_decl.specifiers[i];
        let local = match specifier {
            ImportName::Named { local, imported } => local,
            ImportName::Default(local) => local,
            ImportName::Namespace(local) => local,
        };
        out.push(local.clone());
        assert(names_view(out@) =~= before.push(local@));
        if from_vue {
            if let ImportName::Named { local, imported } = specifier {
                let exported = match imported {
                    Some(name) => name.as_str(),
                    None => local.as_str(),
                };
                if str_eq(exported, "ref") {
                    vue_imports.vue_ref = Some(local.clone());
                } else if str_eq(exported, "computed") {
                    vue_imports.vue_computed = Some(local.clone());
                } else if str_eq(exported, "reactive") {
                    vue_imports.vue_reactive = Some(local.clone());
                }
            }
        }
        i = i + 1;
    }
    assert(specifiers.take(i as int) == specifiers);
}

/// Records bindings as setup bindings, after those already recorded.
pub fn collect_bindings(bindings: &Vec<SetupBinding>, out: &mut Vec<SetupBinding>)
    ensures
        bindings_view(final(out)@) == bindings_view(old(out)@) + bindings_view(bindings@),
{
    let ghost known = bindings_view(out@);
    let ghost added = bindings_view(bindings@);
    let mut i: usize = 0;
    while i < bindings.len()
        invariant
            i <= bindings.len(),
            added == bindings_view(bindings@),
            bindings_view(out@) == known + added.take(i as int),
        decreases bindings.len() - i,
    {
        let ghost before = bindings_view(out@);
        let binding = &bindings[i];
        out.push(SetupBinding(binding.0.clone(), binding.1));
        assert(bindings_view(out@) =~= before.push(binding@));
        i = i + 1;
    }
}

/// Reads the items at the top level of a script that stands beside a setup
/// script: what its imports bind and resolve, and what its exports and
/// statements declare, is recorded.
pub fn analyze_top_level_items(
    module: &Module,
    out: &mut ScriptLegacyVars,
    vue_imports: &mut VueResolvedImports,
)
    ensures
        final(out)@ == items_collected(module@.body, old(out)@),
        final(vue_imports)@ == items_resolved(module@.body, old(vue_imports)@),
{
    let ghost items = module@.body;
    let ghost start = out@;
    let ghost resolved = vue_imports@;
    let mut i: usize = 0;
    while i < module.body.len()
        invariant
            i <= module.body.len(),
            items == module@.body,
            out@ == items_collected(items.take(i as int), start),
            vue_imports@ == items_resolved(items.take(i as int), resolved),
        decreases module.body.len() - i,
    {
        let ghost seen = items.take(i + 1);
        assert(seen.drop_last() =~= items.take(i as int));
        match &module.body[i] {
            ModuleItem::Import(import_decl) => {
                collect_imports(import_decl, &mut out.imports, vue_imports)
            },
            ModuleItem::ExportNamed { bindings, raw } => {
                collect_bindings(bindings, &mut out.setup)
            },
            ModuleItem::ExportDecl { bindings, raw } => {
                collect_bindings(bindings, &mut out.setup)
            },
            // Other declarations are passed over
            ModuleItem::Stmt { bindings, raw } => {
                collect_bindings(bindings, &mut out.setup)
            },
            _ => {},
        }
        i = i + 1;
    }
    assert(items.take(i as int) == items);
}

} // verus!
