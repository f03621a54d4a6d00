use fervid::ast::Expression;
use fervid::ast::ObjectLit;
use fervid::ast::PropOrSpread;
use fervid::ast::Property;
use fervid::ast::PropertyName;
use fervid::context::CodegenContext;
use fervid::context::VueImports;
use fervid::module::ImportDecl;
use fervid::module::ImportName;
use fervid::module::Module;
use fervid::module::ModuleItem;
use fervid::nodes::ConditionalNodeSequence;
use fervid::nodes::ElementNode;
use fervid::nodes::HtmlAttribute;
use fervid::nodes::Node;
use fervid::nodes::SfcTemplateBlock;
use fervid::nodes::StartingTag;
use fervid::sound::element_has_plain_conditions;
use fervid::sound::has_plain_conditions;
use fervid::sound::sequence_has_plain_conditions;
use swc_core::common::sync::Lrc;
use swc_core::common::FileName;
use swc_core::common::SourceMap;
use swc_core::ecma::ast::EsVersion;
use swc_core::ecma::ast::ModuleItem as SwcModuleItem;
use swc_core::ecma::parser::parse_file_as_module;
use swc_core::ecma::parser::Syntax;

fn parse_module(text: &str) -> swc_core::ecma::ast::Module {
    let cm: Lrc<SourceMap> = Default::default();
    let file = cm.new_source_file(FileName::Anon.into(), text.to_owned());
    let mut recovered = Vec::new();
    parse_file_as_module(&file, Syntax::Es(Default::default()), EsVersion::latest(), None, &mut recovered)
        .expect("the text is a module")
}

fn statement(text: &str) -> ModuleItem {
    match parse_module(text).body.remove(0) {
        SwcModuleItem::Stmt(stmt) => ModuleItem::Stmt { bindings: vec![], raw: Box::new(stmt) },
        SwcModuleItem::ModuleDecl(decl) => ModuleItem::Decl(Box::new(decl)),
    }
}

fn element(tag_name: &str, attributes: Vec<(&str, &str)>, children: Vec<Node>) -> ElementNode {
    ElementNode {
        starting_tag: StartingTag {
            tag_name: tag_name.to_owned(),
            attributes: attributes
                .into_iter()
                .map(|(name, value)| HtmlAttribute { name: name.to_owned(), value: value.to_owned() })
                .collect(),
        },
        children,
        template_scope: 0,
    }
}

fn text(value: &str) -> Node {
    Node::Text(value.to_owned())
}

fn name_field(value: &str) -> PropOrSpread {
    PropOrSpread::Prop(Property::KeyValue {
        key: PropertyName::Ident("name".to_owned()),
        value: Expression::Str { value: value.to_owned(), raw: None },
    })
}

#[test]
fn element_without_children_has_two_arguments() {
    let mut ctx = CodegenContext::default();
    let out = ctx.generate_element_or_component(&element("br", vec![], vec![]), false);
    assert_eq!(CodegenContext::stringify("", &out, true), r#"_createElementVNode("br",null)"#);
}

#[test]
fn element_with_attributes_and_children() {
    let mut ctx = CodegenContext::default();
    let out = ctx.generate_element_or_component(
        &element(
            "div",
            vec![("class", "box"), ("data-id", "7")],
            vec![text("a"), Node::Element(element("b", vec![], vec![text("bold")])), text("c")],
        ),
        false,
    );
    assert_eq!(
        CodegenContext::stringify("", &out, true),
        r#"_createElementVNode("div",{"class":"box","data-id":"7"},[_createTextVNode("a"),_createElementVNode("b",null,"bold"),_createTextVNode("c")])"#
    );
    assert!(ctx.used_imports.contains(VueImports::CreateElementVNode));
    assert!(ctx.used_imports.contains(VueImports::CreateTextVNode));
    assert!(!ctx.used_imports.contains(VueImports::CreateCommentVNode));
}

#[test]
fn conditional_children_are_folded_in_place() {
    let mut ctx = CodegenContext::default();
    let conditional = Node::ConditionalSeq(ConditionalNodeSequence {
        if_node: ("ok".to_owned(), Box::new(element("b", vec![], vec![text("yes")]))),
        else_if_nodes: vec![("1 +".to_owned(), element("i", vec![], vec![]))],
        else_node: Some(Box::new(element(
            "u",
            vec![],
            vec![Node::ConditionalSeq(ConditionalNodeSequence {
                if_node: ("deep".to_owned(), Box::new(element("s", vec![], vec![]))),
                else_if_nodes: vec![],
                else_node: None,
            })],
        ))),
    });
    let template = SfcTemplateBlock {
        roots: vec![Node::Element(element("div", vec![], vec![text("a"), conditional]))],
    };
    let out = ctx.generate_sfc_template(&template);
    assert_eq!(
        CodegenContext::stringify("", &out, true),
        r#"(_openBlock(),_createElementBlock("div",null,[_createTextVNode("a"),_ctx.ok?_createElementVNode("b",null,"yes"):_createElementVNode("u",null,[_ctx.deep?_createElementVNode("s",null):_createCommentVNode("v-if")])]))"#
    );
    for helper in [
        VueImports::OpenBlock,
        VueImports::CreateElementBlock,
        VueImports::CreateTextVNode,
        VueImports::CreateElementVNode,
        VueImports::CreateCommentVNode,
    ] {
        assert!(ctx.used_imports.contains(helper));
    }
    // A conditional at the root opens no block
    let mut ctx = CodegenContext::default();
    let root = Node::ConditionalSeq(ConditionalNodeSequence {
        if_node: ("ok".to_owned(), Box::new(element("b", vec![], vec![]))),
        else_if_nodes: vec![],
        else_node: None,
    });
    let out = ctx.generate_node(&root, true);
    assert_eq!(
        CodegenContext::stringify("", &out, true),
        r#"_ctx.ok?_createElementVNode("b",null):_createCommentVNode("v-if")"#
    );
    assert!(!ctx.used_imports.contains(VueImports::OpenBlock));
}

#[test]
fn comment_vnode_calls_the_comment_helper() {
    let mut ctx = CodegenContext::default();
    let out = ctx.generate_comment_vnode("v-if");
    assert_eq!(CodegenContext::stringify("", &out, true), r#"_createCommentVNode("v-if")"#);
    assert!(ctx.used_imports.contains(VueImports::CreateCommentVNode));
}

#[test]
fn template_root_opens_a_block() {
    let mut ctx = CodegenContext::default();
    let template = SfcTemplateBlock {
        roots: vec![Node::Element(element("h1", vec![], vec![text("hello")])), text("ignored")],
    };
    let out = ctx.generate_sfc_template(&template);
    assert_eq!(
        CodegenContext::stringify("", &out, true),
        r#"(_openBlock(),_createElementBlock("h1",null,"hello"))"#
    );
    assert!(ctx.used_imports.contains(VueImports::OpenBlock));
    assert!(ctx.used_imports.contains(VueImports::CreateElementBlock));
    assert!(!ctx.used_imports.contains(VueImports::CreateElementVNode));
}

#[test]
fn imports_name_exactly_the_helpers_used() {
    let mut ctx = CodegenContext::default();
    assert_eq!(ctx.generate_imports(), vec![]);
    ctx.used_imports.insert(VueImports::OpenBlock);
    ctx.used_imports.insert(VueImports::CreateCommentVNode);
    ctx.used_imports.insert(VueImports::OpenBlock);
    assert_eq!(
        ctx.generate_imports(),
        vec![
            ImportName::Named {
                local: "_createCommentVNode".to_owned(),
                imported: Some("createCommentVNode".to_owned())
            },
            ImportName::Named {
                local: "_openBlock".to_owned(),
                imported: Some("openBlock".to_owned())
            },
        ]
    );
    assert_eq!(VueImports::CreateTextVNode.local(), "_createTextVNode");
    assert_eq!(VueImports::CreateTextVNode.exported(), "createTextVNode");
}

fn assembled() -> Module {
    let mut ctx = CodegenContext::default();
    let template = SfcTemplateBlock {
        roots: vec![Node::Element(element("h1", vec![], vec![text("hello")]))],
    };
    let template_expr = ctx.generate_sfc_template(&template);
    let script = Module { shebang: None, body: vec![statement("const a = 1;")] };
    let definition = ObjectLit { props: vec![name_field("x")] };
    ctx.generate_module(template_expr, script, definition)
}

#[test]
fn module_ends_with_import_and_default_export() {
    let module = assembled();
    assert_eq!(module.body.len(), 3);
    assert!(matches!(module.body[0], ModuleItem::Stmt { .. }));
    assert_eq!(
        module.body[1],
        ModuleItem::Import(ImportDecl {
            specifiers: vec![
                ImportName::Named {
                    local: "_createElementBlock".to_owned(),
                    imported: Some("createElementBlock".to_owned())
                },
                ImportName::Named {
                    local: "_openBlock".to_owned(),
                    imported: Some("openBlock".to_owned())
                },
            ],
            src: "vue".to_owned(),
        })
    );
    match &module.body[2] {
        ModuleItem::ExportDefaultExpr(Expression::Object(obj)) => {
            assert_eq!(obj.props.len(), 2);
            assert_eq!(obj.props[0], name_field("x"));
            match &obj.props[1] {
                PropOrSpread::Prop(Property::Method { key, function }) => {
                    assert_eq!(*key, PropertyName::Ident("render".to_owned()));
                    assert_eq!(function.params.len(), 1);
                    assert!(!function.is_async);
                    assert!(!function.is_generator);
                },
                _ => panic!("the last field is the render method"),
            }
        },
        _ => panic!("the last item is the default export of an object"),
    }
    assert_eq!(
        CodegenContext::stringify_module("", &module, true),
        r#"const a=1;import{createElementBlock as _createElementBlock,openBlock as _openBlock}from"vue";export default{name:"x",render(_ctx){return(_openBlock(),_createElementBlock("h1",null,"hello"));}};"#
    );
}

#[test]
fn module_text_survives_a_round_trip() {
    let first = CodegenContext::stringify_module("", &assembled(), false);
    let again = CodegenContext::stringify_module("", &assembled(), false);
    assert_eq!(first, again);
    // Reading the text and writing it out again gives the same text
    let reparsed = parse_module(&first);
    let items = reparsed
        .body
        .into_iter()
        .map(|item| match item {
            SwcModuleItem::Stmt(stmt) => ModuleItem::Stmt { bindings: vec![], raw: Box::new(stmt) },
            SwcModuleItem::ModuleDecl(decl) => ModuleItem::Decl(Box::new(decl)),
        })
        .collect();
    let second = CodegenContext::stringify_module(&first, &Module { shebang: None, body: items }, false);
    assert_eq!(first, second);
    assert_eq!(
        first,
        r#"const a = 1;
import { createElementBlock as _createElementBlock, openBlock as _openBlock } from "vue";
export default {
    name: "x",
    render (_ctx) {
        return (_openBlock(), _createElementBlock("h1", null, "hello"));
    }
};
"#
    );
}

fn run(if_condition: &str, else_if_condition: &str, inner_condition: &str) -> ConditionalNodeSequence {
    ConditionalNodeSequence {
        if_node: (if_condition.to_owned(), Box::new(element("b", vec![], vec![text("yes")]))),
        else_if_nodes: vec![(else_if_condition.to_owned(), element("i", vec![], vec![]))],
        else_node: Some(Box::new(element(
            "u",
            vec![],
            vec![Node::ConditionalSeq(ConditionalNodeSequence {
                if_node: (inner_condition.to_owned(), Box::new(element("s", vec![], vec![]))),
                else_if_nodes: vec![],
                else_node: None,
            })],
        ))),
    }
}

#[test]
fn plain_conditions_are_told_at_any_depth() {
    assert!(has_plain_conditions(&text("a?.()")));
    assert!(element_has_plain_conditions(&element("div", vec![("a", "b?.()")], vec![text("c?.()")])));
    assert!(sequence_has_plain_conditions(&run("a?.b", "1 +", "c?.[d]")));
    assert!(!sequence_has_plain_conditions(&run("a?.()", "b", "c")));
    assert!(!sequence_has_plain_conditions(&run("a", "b?.()", "c")));
    assert!(!sequence_has_plain_conditions(&run("a", "b", "c?.()")));
    let nested = Node::Element(element(
        "div",
        vec![],
        vec![text("a"), Node::ConditionalSeq(run("a", "b", "new C()?.()"))],
    ));
    assert!(!has_plain_conditions(&nested));
    let nested = Node::Element(element(
        "div",
        vec![],
        vec![text("a"), Node::ConditionalSeq(run("a", "b", "c"))],
    ));
    assert!(has_plain_conditions(&nested));
}

#[test]
fn template_is_written_where_its_conditions_are_plain() {
    let mut ctx = CodegenContext::default();
    let template = SfcTemplateBlock {
        roots: vec![Node::Element(element(
            "div",
            vec![],
            vec![text("a"), Node::ConditionalSeq(run("ok?.now", "1 +", "deep"))],
        ))],
    };
    assert_eq!(
        ctx.stringify_sfc_template(&template, true),
        Some(
            [
                r#"(_openBlock(),_createElementBlock("div",null,[_createTextVNode("a"),"#,
                r#"_ctx.ok?.now?_createElementVNode("b",null,"yes"):"#,
                r#"_createElementVNode("u",null,[_ctx.deep?_createElementVNode("s",null):_createCommentVNode("v-if")])]))"#,
            ]
            .concat()
        )
    );
    assert!(ctx.used_imports.contains(VueImports::OpenBlock));
    assert!(ctx.used_imports.contains(VueImports::CreateCommentVNode));

    let mut ctx = CodegenContext::default();
    let template = SfcTemplateBlock {
        roots: vec![Node::Element(element(
            "div",
            vec![],
            vec![Node::ConditionalSeq(run("ok", "go?.()", "deep"))],
        ))],
    };
    assert_eq!(ctx.stringify_sfc_template(&template, true), None);
    assert!(!ctx.used_imports.contains(VueImports::OpenBlock));
    assert!(!ctx.used_imports.contains(VueImports::CreateElementVNode));

    let mut ctx = CodegenContext::default();
    assert_eq!(ctx.stringify_sfc_template(&SfcTemplateBlock { roots: vec![] }, true), None);
}
