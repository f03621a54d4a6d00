//! Merging the scripts of a component into one module and one definition
//! object.

use vstd::prelude::*;
use crate::analyzer::analyze_default_export;
use crate::analyzer::analyze_top_level_items;
use crate::analyzer::entries_collected;
use crate::analyzer::items_collected;
use crate::analyzer::VueResolvedImports;
use crate::ast::args_view;
use crate::ast::BlockStmt;
use crate::ast::BlockStmtView;
use crate::ast::Expression;
use crate::ast::ExpressionView;
use crate::ast::Function;
use crate::ast::FunctionView;
use crate::ast::ObjectLit;
use crate::ast::ObjectLitView;
use crate::ast::PropertyName;
use crate::ast::PropertyNameView;
use crate::ast::PropertyView;
use crate::ast::PropOrSpread;
use crate::ast::PropOrSpreadView;
use crate::ast::props_view;
use crate::ast::Statement;
use crate::ast::StatementView;
use crate::ast::stmts_view;
use crate::module::items_view;
use crate::module::Module;
use crate::module::ModuleItem;
use crate::module::ModuleItemView;
use crate::module::SfcScriptBlock;
use crate::sound::lemma_joined_props_are_writable;
use crate::sound::lemma_setup_fields_are_writable;
use crate::sound::lemma_stripped_is_writable;
use crate::structs::bindings_view;
use crate::structs::ScopeHelper;
use crate::structs::ScopeHelperView;
use crate::structs::ScriptLegacyVarsView;
use crate::structs::SetupBindingView;
use crate::structs::str_eq;
use crate::writable::writable_items;
use crate::writable::writable_props;

verus! {

/// Whether `item` is a default export, of an expression or in front of a
/// declaration.
pub open spec fn is_default_export(item: ModuleItemView) -> bool {
    item is ExportDefaultExpr || item is ExportDefaultDecl
}

/// What a default export exports, as an expression.
pub open spec fn exported(item: ModuleItemView) -> ExpressionView {
    match item {
        ModuleItemView::ExportDefaultExpr(expr) => expr,
        ModuleItemView::ExportDefaultDecl(expr) => expr,
        _ => ExpressionView::Invalid,
    }
}

/// The index of the first default export among `body`, if there is one.
pub open spec fn first_default_export(body: Seq<ModuleItemView>) -> Option<int>
    decreases body.len(),
{
    if body.len() == 0 {
        None
    } else if is_default_export(body[0]) {
        Some(0)
    } else {
        match first_default_export(body.skip(1)) {
            Some(i) => Some(i + 1),
            None => None,
        }
    }
}

/// The exported expression without its wrapper: the argument of a call of
/// `defineComponent` on one argument that is not spread; any other
/// expression as it is.
pub open spec fn unrolled(expr: ExpressionView) -> ExpressionView {
    match expr {
        ExpressionView::Call { callee, args } => {
            if args.len() == 1 && *callee == ExpressionView::Ident("defineComponent"@)
                && !args[0].spread {
                args[0].expr
            } else {
                expr
            }
        },
        _ => expr,
    }
}

/// The exported expression as a definition object: an object literal as it
/// is, any other expression as the one spread entry of a new object.
pub open spec fn as_definition(expr: ExpressionView) -> ObjectLitView {
    match expr {
        ExpressionView::Object(obj) => obj,
        _ => ObjectLitView { props: seq![PropOrSpreadView::Spread(expr)] },
    }
}

/// The definition object that a module exports by default, whatever the
/// form of the export: an empty object where it exports none.
pub open spec fn default_export_obj(body: Seq<ModuleItemView>) -> ObjectLitView {
    match first_default_export(body) {
        Some(i) => as_definition(unrolled(exported(body[i]))),
        None => ObjectLitView { props: Seq::empty() },
    }
}

/// The items of a module without its first default export.
pub open spec fn stripped(body: Seq<ModuleItemView>) -> Seq<ModuleItemView> {
    match first_default_export(body) {
        Some(i) => body.remove(i),
        None => body,
    }
}

/// The statements of a setup script, in order; its other items are left
/// out.
pub open spec fn setup_statements(body: Seq<ModuleItemView>) -> Seq<StatementView>
    decreases body.len(),
{
    if body.len() == 0 {
        Seq::empty()
    } else {
        let before = setup_statements(body.drop_last());
        match body.last() {
            ModuleItemView::Stmt { bindings, raw } => before.push(StatementView::Raw(raw)),
            _ => before,
        }
    }
}

/// The bindings that the statements of a setup script declare, in order.
pub open spec fn setup_declared(body: Seq<ModuleItemView>) -> Seq<SetupBindingView>
    decreases body.len(),
{
    if body.len() == 0 {
        Seq::empty()
    } else {
        let before = setup_declared(body.drop_last());
        match body.last() {
            ModuleItemView::Stmt { bindings, raw } => before + bindings,
            _ => before,
        }
    }
}

/// The property `name: name`, which exposes a binding.
pub open spec fn exposing_prop(binding: SetupBindingView) -> PropOrSpreadView {
    PropOrSpreadView::Prop(
        PropertyView::KeyValue {
            key: PropertyNameView::Ident(binding.name),
            value: ExpressionView::Ident(binding.name),
        },
    )
}

/// The properties that expose `bindings`, in their order.
pub open spec fn exposing_props(bindings: Seq<SetupBindingView>) -> Seq<PropOrSpreadView> {
    bindings.map_values(|binding: SetupBindingView| exposing_prop(binding))
}

/// The method `setup`, which runs `stmts` and then returns an object that
/// exposes `bindings`.
pub open spec fn setup_method(
    stmts: Seq<StatementView>,
    bindings: Seq<SetupBindingView>,
) -> PropOrSpreadView {
    PropOrSpreadView::Prop(
        PropertyView::Method {
            key: PropertyNameView::Ident("setup"@),
            function: FunctionView {
                params: Seq::empty(),
                body: Some(
                    BlockStmtView {
                        stmts: stmts.push(
                            StatementView::Return(
                                Some(
                                    ExpressionView::Object(
                                        ObjectLitView { props: exposing_props(bindings) },
                                    ),
                                ),
                            ),
                        ),
                    },
                ),
                is_async: false,
                is_generator: false,
            },
        },
    )
}

/// The fields that a setup script adds to the definition object: one
/// method `setup`, which runs the statements of the script and returns an
/// object that exposes each binding they declare.
pub open spec fn setup_fields(body: Seq<ModuleItemView>) -> Seq<PropOrSpreadView> {
    seq![setup_method(setup_statements(body), setup_declared(body))]
}

/// What the processing of a setup script hands back.
#[derive(Debug, PartialEq)]
pub struct SetupTransformResult {
    /// The fields to be added to the definition object.
    pub fields: Vec<PropOrSpread>,
}

/// Takes the wrapper off an exported expression: a call of
/// `defineComponent` on one argument that is not spread gives that
/// argument; any other expression comes back as it is.
pub fn unroll_default_export_expr(expr: Expression) -> (out: Expression)
    ensures
        out@ == unrolled(expr@),
{
    match expr {
        Expression::Call { callee, args } => {
            let ghost views = expr@->Call_args;
            assert(views =~= args_view(args@));
            assert(*expr@->Call_callee == callee@);
            let mut args = args;
            let named = match &*callee {
                Expression::Ident(name) => str_eq(name.as_str(), "defineComponent"),
                _ => false,
            };
            if args.len() == 1 && named && !args[0].spread {
                let arg = args.pop().unwrap();
                arg.expr
            } else {
                let out = Expression::Call { callee, args };
                out
            }
        },
        other => other,
    }
}

/// Finds the first default export of a module, whatever its form, and
/// takes it out. Gives the definition object that it exports: the exported
/// object literal, with the `defineComponent` wrapper taken off; anything
/// else that is exported, also a class or a function, as the one spread
/// entry of a new object; and an empty object where the module has no
/// default export.
pub fn get_default_export_obj(module: &mut Module) -> (obj: ObjectLit)
    ensures
        obj@ == default_export_obj(old(module)@.body),
        final(module)@.body == stripped(old(module)@.body),
        final(module)@.shebang == old(module)@.shebang,
        writable_items(old(module)@.body) ==> writable_items(final(module)@.body)
            && writable_props(obj@.props),
{
    let ghost body = module@.body;
    let mut idx: usize = 0;
    let mut found = false;
    assert(body.skip(0) == body);
    while idx < module.body.len()
        invariant_except_break
            !found,
            first_default_export(body) == match first_default_export(body.skip(idx as int)) {
                Some(i) => Some(i + idx),
                None => None,
            },
        invariant
            idx <= module.body.len(),
            body == module@.body,
            *module == *old(module),
        ensures
            idx <= module.body.len(),
            body == module@.body,
            *module == *old(module),
            found ==> idx < module.body.len() && is_default_export(module.body@[idx as int]@)
                && first_default_export(body) == Some(idx as int),
            !found ==> first_default_export(body) is None,
        decreases module.body.len() - idx,
    {
        assert(body.skip(idx as int)[0] == module.body@[idx as int]@);
        match &module.body[idx] {
            ModuleItem::ExportDefaultExpr(_) => {
                found = true;
                break ;
            },
            ModuleItem::ExportDefaultDecl(_) => {
                found = true;
                break ;
            },
            _ => {},
        }
        assert(body.skip(idx as int).skip(1) == body.skip(idx + 1));
        idx = idx + 1;
    }
    if !found {
        let obj = ObjectLit::new(Vec::new());
        assert(obj@.props =~= Seq::<PropOrSpreadView>::empty());
        proof {
            if writable_items(body) {
                lemma_stripped_is_writable(body);
            }
        }
        return obj;
    }
    let item = module.body.remove(idx);
    assert(item@ == body[idx as int]);
    let expr = match item {
        ModuleItem::ExportDefaultExpr(expr) => expr,
        ModuleItem::ExportDefaultDecl(expr) => expr,
        _ => Expression::Invalid,
    };
    assert(expr@ == exported(body[idx as int]));
    let expr = unroll_default_export_expr(expr);
    let ghost exported = expr@;
    proof {
        assert(module@.body =~= stripped(body));
        if writable_items(body) {
            lemma_stripped_is_writable(body);
        }
    }
    match expr {
        Expression::Object(obj) => {
            obj
        },
        other => {
            let mut props: Vec<PropOrSpread> = Vec::new();
            props.push(PropOrSpread::spread(other));
            assert(props_view(props@) =~= seq![PropOrSpreadView::Spread(exported)]);
            ObjectLit::new(props)
        },
    }
}

/// Processes a setup script: the bindings that its statements declare are
/// recorded as setup bindings, after those already known, and the fields
/// that the script adds to the definition object are handed back.
pub fn transform_and_record_script_setup(
    script_setup: SfcScriptBlock,
    scope_helper: &mut ScopeHelper,
) -> (result: SetupTransformResult)
    ensures
        props_view(result.fields@) == setup_fields(script_setup.content@.body),
        final(scope_helper)@ == (ScopeHelperView {
            setup_bindings: old(scope_helper)@.setup_bindings + setup_declared(
                script_setup.content@.body,
            ),
            ..old(scope_helper)@
        }),
        writable_items(script_setup.content@.body) ==> writable_props(props_view(result.fields@)),
{
    let ghost body = script_setup.content@.body;
    let ghost known = scope_helper@.setup_bindings;
    let ghost old_helper = scope_helper@;
    let module = *script_setup.content;
    let items = module.body;
    let ghost old_items = items@;
    let mut stmts: Vec<Statement> = Vec::new();
    let mut exposed: Vec<PropOrSpread> = Vec::new();
    for item in it: items.into_iter()
        invariant
            it.seq() == old_items,
            stmts_view(stmts@) == setup_statements(items_view(old_items.take(it.index()))),
            props_view(exposed@) == exposing_props(
                setup_declared(items_view(old_items.take(it.index()))),
            ),
            scope_helper@ == (ScopeHelperView {
                setup_bindings: known + setup_declared(
                    items_view(old_items.take(it.index())),
                ),
                ..old_helper
            }),
    {
        let ghost before = items_view(old_items.take(it.index()));
        let ghost after = items_view(old_items.take(it.index() + 1));
        assert(after.drop_last() =~= before);
        let ghost stmts_before = stmts_view(stmts@);
        if let ModuleItem::Stmt { bindings, raw } = item {
            stmts.push(Statement::Raw(raw));
            let ghost declared = bindings@;
            let ghost declared_before = setup_declared(before);
            for binding in inner: bindings.into_iter()
                invariant
                    inner.seq() == declared,
                    props_view(exposed@) == exposing_props(
                        declared_before + bindings_view(declared.take(inner.index())),
                    ),
                    scope_helper@ == (ScopeHelperView {
                        setup_bindings: known + (declared_before + bindings_view(
                            declared.take(inner.index()),
                        )),
                        ..old_helper
                    }),
            {
                let ghost seen = bindings_view(declared.take(inner.index()));
                let ghost seen_after = bindings_view(declared.take(inner.index() + 1));
                assert(seen_after =~= seen.push(binding@));
                let ghost exposed_before = props_view(exposed@);
                exposed.push(
                    PropOrSpread::key_value(
                        PropertyName::Ident(binding.0.clone()),
                        Expression::ident(binding.0.clone()),
                    ),
                );
                assert(props_view(exposed@) =~= exposed_before.push(exposing_prop(binding@)));
                let ghost recorded = scope_helper.setup_bindings@;
                scope_helper.setup_bindings.push(binding);
                assert(bindings_view(scope_helper.setup_bindings@) =~= bindings_view(
                    recorded,
                ).push(binding@));
            }
            assert(declared.take(declared.len() as int) == declared);
        }
    }
    assert(old_items.take(old_items.len() as int) == old_items);
    let returned = Statement::Return(Some(Expression::object(ObjectLit::new(exposed))));
    let ghost stmts_before = stmts_view(stmts@);
    stmts.push(returned);
    assert(stmts_view(stmts@) =~= stmts_before.push(returned@));
    let function = Function {
        params: Vec::new(),
        body: Some(BlockStmt::new(stmts)),
        is_async: false,
        is_generator: false,
    };
    assert(function@.params =~= Seq::empty());
    let mut fields: Vec<PropOrSpread> = Vec::new();
    fields.push(PropOrSpread::method(PropertyName::Ident("setup".to_owned()), function));
    proof {
        assert(props_view(fields@) =~= setup_fields(body));
        if writable_items(body) {
            lemma_setup_fields_are_writable(body);
        }
    }
    SetupTransformResult { fields }
}

/// The interpreter line of a script block, where there is a block that
/// has one.
pub open spec fn script_shebang(script: Option<SfcScriptBlock>) -> Option<Seq<char>> {
    match script {
        Some(block) => block.content@.shebang,
        None => None,
    }
}

/// The items of a script block, or none where there is no block.
pub open spec fn script_body(script: Option<SfcScriptBlock>) -> Seq<ModuleItemView> {
    match script {
        Some(block) => block.content@.body,
        None => Seq::empty(),
    }
}

/// The fields that the setup script adds, or none where there is no setup
/// script.
pub open spec fn added_fields(script_setup: Option<SfcScriptBlock>) -> Seq<PropOrSpreadView> {
    match script_setup {
        Some(block) => setup_fields(block.content@.body),
        None => Seq::empty(),
    }
}

/// The bindings that the setup script declares, or none where there is no
/// setup script.
pub open spec fn added_bindings(script_setup: Option<SfcScriptBlock>) -> Seq<SetupBindingView> {
    match script_setup {
        Some(block) => setup_declared(block.content@.body),
        None => Seq::empty(),
    }
}

/// The fields of the merged definition object: those of the default
/// export of the options-style script, and after them those that the setup
/// script adds.
pub open spec fn merged_fields(
    script_setup: Option<SfcScriptBlock>,
    script_legacy: Option<SfcScriptBlock>,
) -> Seq<PropOrSpreadView> {
    default_export_obj(script_body(script_legacy)).props + added_fields(script_setup)
}

/// In the merged definition object every field of the options-style
/// script stands before every field that the setup script adds, each group
/// in its own order; none is dropped, whatever the names are.
pub proof fn lemma_legacy_fields_come_first(
    script_setup: Option<SfcScriptBlock>,
    script_legacy: Option<SfcScriptBlock>,
)
    ensures
        merged_fields(script_setup, script_legacy).len() == default_export_obj(
            script_body(script_legacy),
        ).props.len() + added_fields(script_setup).len(),
        forall|i: int|
            0 <= i < default_export_obj(script_body(script_legacy)).props.len()
                ==> merged_fields(script_setup, script_legacy)[i] == default_export_obj(
                script_body(script_legacy),
            ).props[i],
        forall|j: int|
            0 <= j < added_fields(script_setup).len() ==> merged_fields(
                script_setup,
                script_legacy,
            )[default_export_obj(script_body(script_legacy)).props.len() + j] == added_fields(
                script_setup,
            )[j],
{
}

/// What merging the scripts records of the options-style script: what the
/// fields of its default export declare and, where a setup script stands
/// beside it, what the items at its top level declare.
pub open spec fn legacy_recorded(
    script_setup: Option<SfcScriptBlock>,
    script_legacy: Option<SfcScriptBlock>,
    vars: ScriptLegacyVarsView,
) -> ScriptLegacyVarsView {
    let declared = entries_collected(default_export_obj(script_body(script_legacy)).props, vars);
    if script_setup is Some {
        items_collected(stripped(script_body(script_legacy)), declared)
    } else {
        declared
    }
}

/// Merges the scripts of a component. The module handed back is the
/// options-style script without its first `export default`, or an empty
/// module where there is no such script. What the options-style script
/// declares is recorded first; then the setup script is processed and its
/// bindings are recorded. The definition object holds the fields of the
/// default export first, and after them the fields that the setup script
/// adds; no field is dropped or merged with another of the same name.
pub fn transform_and_record_scripts(
    script_setup: Option<SfcScriptBlock>,
    script_legacy: Option<SfcScriptBlock>,
    scope_helper: &mut ScopeHelper,
) -> (merged: (Module, ObjectLit))
    ensures
        merged.0@.body == stripped(script_body(script_legacy)),
        merged.0@.shebang == script_shebang(script_legacy),
        merged.1@.props == merged_fields(script_setup, script_legacy),
        final(scope_helper)@ == (ScopeHelperView {
            options_api_vars: legacy_recorded(
                script_setup,
                script_legacy,
                old(scope_helper)@.options_api_vars,
            ),
            setup_bindings: old(scope_helper)@.setup_bindings + added_bindings(script_setup),
            ..old(scope_helper)@
        }),
        writable_items(script_body(script_legacy)) && writable_items(script_body(script_setup))
            ==> writable_items(merged.0@.body) && writable_props(merged.1@.props),
{
    proof {
        if writable_items(script_body(script_legacy)) && writable_items(
            script_body(script_setup),
        ) {
            lemma_stripped_is_writable(script_body(script_legacy));
            if script_setup is Some {
                lemma_setup_fields_are_writable(script_body(script_setup));
            }
            assert(writable_props(added_fields(script_setup)));
            lemma_joined_props_are_writable(
                default_export_obj(script_body(script_legacy)).props,
                added_fields(script_setup),
            );
        }
    }
    let mut module_base: Module = match script_legacy {
        Some(script) => *script.content,
        None => Module::new(),
    };
    assert(stripped(Seq::<ModuleItemView>::empty()) =~= Seq::<ModuleItemView>::empty());

    let default_export = get_default_export_obj(&mut module_base);

    // What the options-style script declares is recorded first
    analyze_default_export(&default_export, &mut *scope_helper.options_api_vars);
    assert(scope_helper@.template_scopes =~= old(scope_helper)@.template_scopes);
    let ghost legacy_props = default_export@.props;
    let mut props = default_export.props;
    assert(props_view(props@) =~= legacy_props);

    match script_setup {
        Some(script_setup) => {
            let mut vue_imports = VueResolvedImports::default();
            analyze_top_level_items(
                &module_base,
                &mut *scope_helper.options_api_vars,
                &mut vue_imports,
            );
            assert(scope_helper@.template_scopes =~= old(scope_helper)@.template_scopes);
            let mut setup_transform_result = transform_and_record_script_setup(
                script_setup,
                scope_helper,
            );
            let ghost fields = props_view(setup_transform_result.fields@);
            // The fields of the setup script go after those of the default export
            props.append(&mut setup_transform_result.fields);
            assert(props_view(props@) =~= legacy_props + fields);
        },
        None => {
            assert(scope_helper@.setup_bindings + Seq::<SetupBindingView>::empty()
                =~= scope_helper@.setup_bindings);
            assert(legacy_props + Seq::<PropOrSpreadView>::empty() =~= legacy_props);
        },
    }
    (module_base, ObjectLit::new(props))
}

} // verus!
