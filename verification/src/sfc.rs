//! Assembling the module of a component: the script, the import of the
//! runtime helpers, and the default export of the definition object with
//! its render function.

use vstd::prelude::*;
use crate::ast::BlockStmt;
use crate::ast::BlockStmtView;
use crate::ast::Expression;
use crate::ast::ExpressionView;
use crate::ast::Function;
use crate::ast::FunctionView;
use crate::ast::ObjectLit;
use crate::ast::ObjectLitView;
use crate::ast::Pattern;
use crate::ast::PatternView;
use crate::ast::PropertyName;
use crate::ast::PropertyNameView;
use crate::ast::PropertyView;
use crate::ast::PropOrSpread;
use crate::ast::PropOrSpreadView;
use crate::ast::props_view;
use crate::ast::Statement;
use crate::ast::StatementView;
use crate::ast::stmts_view;
use crate::context::CodegenContext;
use crate::context::exported_name;
use crate::context::local_name;
use crate::context::VueImports;
use crate::elements::root_imports;
use crate::elements::root_vnode;
use crate::lower::lowered;
use crate::module::ImportDecl;
use crate::module::ImportDeclView;
use crate::module::ImportName;
use crate::module::ImportNameView;
use crate::module::Module;
use crate::module::ModuleItem;
use crate::module::ModuleItemView;
use crate::module::specifiers_view;
use crate::nodes::SfcTemplateBlock;
use crate::raw::emitted_expr;
use crate::sound::has_plain_conditions;
use crate::sound::lemma_assembled_is_writable;
use crate::sound::plain_node;
use crate::sound::sound_node;
use crate::writable::writable;
use crate::writable::writable_items;
use crate::writable::writable_props;

verus! {

/// The import specifier for a helper: its exported name, brought in under
/// its local name.
pub open spec fn helper_specifier(helper: VueImports) -> ImportNameView {
    ImportNameView::Named {
        local: local_name(helper),
        imported: Some(exported_name(helper)),
    }
}

/// All helpers, in the order in which they are imported.
pub open spec fn all_helpers() -> Seq<VueImports> {
    seq![
        VueImports::CreateCommentVNode,
        VueImports::CreateElementBlock,
        VueImports::CreateElementVNode,
        VueImports::CreateTextVNode,
        VueImports::OpenBlock,
    ]
}

/// The import specifiers for those of `helpers` that are in `used`, in
/// their order.
pub open spec fn specifiers_of(helpers: Seq<VueImports>, used: Set<VueImports>) -> Seq<
    ImportNameView,
>
    decreases helpers.len(),
{
    if helpers.len() == 0 {
        Seq::empty()
    } else if used.contains(helpers.last()) {
        specifiers_of(helpers.drop_last(), used).push(helper_specifier(helpers.last()))
    } else {
        specifiers_of(helpers.drop_last(), used)
    }
}

/// The import of the runtime helpers in `used` from the runtime module.
pub open spec fn runtime_import(used: Set<VueImports>) -> ModuleItemView {
    ModuleItemView::Import(
        ImportDeclView { specifiers: specifiers_of(all_helpers(), used), src: "vue"@ },
    )
}

/// The method `render(_ctx) { return template_expr }`.
pub open spec fn render_method(template_expr: ExpressionView) -> PropOrSpreadView {
    PropOrSpreadView::Prop(
        PropertyView::Method {
            key: PropertyNameView::Ident("render"@),
            function: FunctionView {
                params: seq![PatternView::Ident("_ctx"@)],
                body: Some(
                    BlockStmtView { stmts: seq![StatementView::Return(Some(template_expr))] },
                ),
                is_async: false,
                is_generator: false,
            },
        },
    )
}

/// The items of the assembled module: those of the script, then the
/// import of the helpers in `used`, then the default export of the
/// definition object with the render method as its last field.
pub open spec fn assembled(
    template_expr: ExpressionView,
    script: Seq<ModuleItemView>,
    definition: Seq<PropOrSpreadView>,
    used: Set<VueImports>,
) -> Seq<ModuleItemView> {
    script.push(runtime_import(used)).push(
        ModuleItemView::ExportDefaultExpr(
            ExpressionView::Object(
                ObjectLitView { props: definition.push(render_method(template_expr)) },
            ),
        ),
    )
}

impl CodegenContext {
    /// Compiles the template of a component: the expression that builds
    /// its first root, which opens a block.
    pub fn generate_sfc_template(&mut self, sfc_template: &SfcTemplateBlock) -> (expr: Expression)
        requires
            sfc_template.roots@.len() > 0,
        ensures
            expr@ == root_vnode(sfc_template.roots@[0]@, true, old(self).scope_helper@),
            final(self).used_imports@ == old(self).used_imports@.union(
                root_imports(sfc_template.roots@[0]@, true),
            ),
            final(self).scope_helper == old(self).scope_helper,
            sound_node(sfc_template.roots@[0]@) ==> writable(expr@),
    {
        let first_child = &sfc_template.roots[0];
        self.generate_node(first_child, true)
    }

    /// Compiles the template of a component and writes the expression
    /// out, compact where `minify`. The emitter stops the program at an
    /// optional call of a `new` expression, so nothing is compiled, and
    /// `None` comes back, where something other than a member follows a
    /// `?.` in a condition of the first root; and where the template has
    /// no root.
    pub fn stringify_sfc_template(&mut self, sfc_template: &SfcTemplateBlock, minify: bool) -> (text:
        Option<String>)
        ensures
            text is Some <==> sfc_template.roots@.len() > 0 && plain_node(
                sfc_template.roots@[0]@,
            ),
            match text {
                Some(text) => exists|expr: Expression|
                    expr@ == root_vnode(sfc_template.roots@[0]@, true, old(self).scope_helper@)
                        && text@ == #[trigger] emitted_expr(lowered(expr), minify),
                None => true,
            },
            final(self).used_imports@ == if text is Some {
                old(self).used_imports@.union(root_imports(sfc_template.roots@[0]@, true))
            } else {
                old(self).used_imports@
            },
            final(self).scope_helper == old(self).scope_helper,
    {
        if sfc_template.roots.len() == 0 || !has_plain_conditions(&sfc_template.roots[0]) {
            return None;
        }
        let expr = self.generate_sfc_template(sfc_template);
        Some(CodegenContext::stringify("", &expr, minify))
    }

    /// The import specifiers for the helpers that the code compiled so far
    /// calls: one for each, and none for any other.
    pub fn generate_imports(&self) -> (specifiers: Vec<ImportName>)
        ensures
            specifiers_view(specifiers@) == specifiers_of(all_helpers(), self.used_imports@),
    {
        let ghost used = self.used_imports@;
        let helpers = [
            VueImports::CreateCommentVNode,
            VueImports::CreateElementBlock,
            VueImports::CreateElementVNode,
            VueImports::CreateTextVNode,
            VueImports::OpenBlock,
        ];
        let mut specifiers: Vec<ImportName> = Vec::new();
        let mut i: usize = 0;
        while i < 5
            invariant
                i <= 5,
                helpers@.len() == 5,
                used == self.used_imports@,
                specifiers_view(specifiers@) == specifiers_of(helpers@.take(i as int), used),
            decreases 5 - i,
        {
            let helper = helpers[i];
            assert(helpers@.take(i + 1).drop_last() == helpers@.take(i as int));
            if self.used_imports.contains(helper) {
                specifiers.push(
                    ImportName::Named {
                        local: helper.local(),
                        imported: Some(helper.exported()),
                    },
                );
            }
            i = i + 1;
        }
        assert(helpers@.take(5) == helpers@);
        specifiers
    }

    /// Assembles the module of a component. The render function, which
    /// takes `_ctx` and returns `template_expr`, becomes the last field of
    /// the definition object; the script is followed by one import of
    /// exactly the helpers that the compiled code calls, from `vue`, and by
    /// the default export of the definition object.
    pub fn generate_module(
        &mut self,
        template_expr: Expression,
        script: Module,
        sfc_export_obj: ObjectLit,
    ) -> (module: Module)
        ensures
            module@.body == assembled(
                template_expr@,
                script@.body,
                sfc_export_obj@.props,
                old(self).used_imports@,
            ),
            module@.shebang == script@.shebang,
            *final(self) == *old(self),
            writable(template_expr@) && writable_items(script@.body) && writable_props(
                sfc_export_obj@.props,
            ) ==> writable_items(module@.body),
    {
        let ghost definition = sfc_export_obj@.props;
        let ghost template = template_expr@;
        let ghost items = script@.body;
        let mut script = script;
        let mut sfc_export_obj = sfc_export_obj;

        let mut params: Vec<Pattern> = Vec::new();
        params.push(Pattern::Ident("_ctx".to_owned()));
        let mut stmts: Vec<Statement> = Vec::new();
        stmts.push(Statement::Return(Some(template_expr)));
        assert(stmts_view(stmts@) =~= seq![StatementView::Return(Some(template_expr@))]);
        let render_fn = Function {
            params,
            body: Some(BlockStmt::new(stmts)),
            is_async: false,
            is_generator: false,
        };
        assert(render_fn@.params =~= seq![PatternView::Ident("_ctx"@)]);

        // `render(_ctx) { return template_expression }`
        let render = PropOrSpread::method(PropertyName::Ident("render".to_owned()), render_fn);
        let mut props = sfc_export_obj.props;
        props.push(render);
        assert(props_view(props@) =~= definition.push(render_method(template_expr@)));

        // The import of the helpers
        let used_imports = self.generate_imports();
        let import = ModuleItem::Import(
            ImportDecl { specifiers: used_imports, src: "vue".to_owned() },
        );
        script.body.push(import);

        // The default export
        let export = ModuleItem::ExportDefaultExpr(Expression::object(ObjectLit::new(props)));
        script.body.push(export);
        proof {
            assert(script@.body =~= assembled(template, items, definition, self.used_imports@));
            if writable(template) && writable_items(items) && writable_props(definition) {
                lemma_assembled_is_writable(template, items, definition, self.used_imports@);
            }
        }
        script
    }
}

} // verus!
