use fervid::ast::Expression;
use fervid::context::CodegenContext;
use fervid::context::VueImports;
use fervid::conditional_seq::fold_conditional;
use fervid::nodes::ConditionalNodeSequence;
use fervid::nodes::ElementNode;
use fervid::nodes::Node;
use fervid::nodes::StartingTag;

fn element(tag_name: &str, text: &str) -> ElementNode {
    ElementNode {
        starting_tag: StartingTag { tag_name: tag_name.to_owned(), attributes: vec![] },
        children: vec![Node::Text(text.to_owned())],
        template_scope: 0,
    }
}

fn test_out(input: ConditionalNodeSequence, expected: &str) {
    let mut ctx = CodegenContext::default();
    let out = ctx.generate_conditional_seq(&input);
    assert_eq!(CodegenContext::stringify("", &out, true), expected)
}

#[test]
fn it_generates_v_if() {
    // <h1 v-if="foo || true">hello</h1>
    test_out(
        ConditionalNodeSequence {
            if_node: ("foo || true".to_owned(), Box::new(element("h1", "hello"))),
            else_if_nodes: vec![],
            else_node: None,
        },
        r#"_ctx.foo||true?_createElementVNode("h1",null,"hello"):_createCommentVNode("v-if")"#,
    )
}

#[test]
fn it_generates_v_else() {
    // <h1 v-if="foo || true">hello</h1>
    // <h2 v-else>bye</h2>
    test_out(
        ConditionalNodeSequence {
            if_node: ("foo || true".to_owned(), Box::new(element("h1", "hello"))),
            else_if_nodes: vec![],
            else_node: Some(Box::new(element("h2", "bye"))),
        },
        r#"_ctx.foo||true?_createElementVNode("h1",null,"hello"):_createElementVNode("h2",null,"bye")"#,
    )
}

#[test]
fn it_generates_v_else_if() {
    // <h1 v-if="foo">hello</h1>
    // <h2 v-else-if="true">hi</h2>
    // <h3 v-else-if="undefined">bye</h2>
    test_out(
        ConditionalNodeSequence {
            if_node: ("foo".to_owned(), Box::new(element("h1", "hello"))),
            else_if_nodes: vec![
                ("true".to_owned(), element("h2", "hi")),
                ("undefined".to_owned(), element("h3", "bye")),
            ],
            else_node: None,
        },
        r#"_ctx.foo?_createElementVNode("h1",null,"hello"):true?_createElementVNode("h2",null,"hi"):undefined?_createElementVNode("h3",null,"bye"):_createCommentVNode("v-if")"#,
    )
}

#[test]
fn it_generates_complex() {
    // <h1 v-if="foo">hello</h1>
    // <h2 v-else-if="true">hi</h2>
    // <h3 v-else-if="undefined">good morning</h2>
    // <h4 v-else>bye</h4>
    test_out(
        ConditionalNodeSequence {
            if_node: ("foo".to_owned(), Box::new(element("h1", "hello"))),
            else_if_nodes: vec![
                ("true".to_owned(), element("h2", "hi")),
                ("undefined".to_owned(), element("h3", "good morning")),
            ],
            else_node: Some(Box::new(element("h4", "bye"))),
        },
        r#"_ctx.foo?_createElementVNode("h1",null,"hello"):true?_createElementVNode("h2",null,"hi"):undefined?_createElementVNode("h3",null,"good morning"):_createElementVNode("h4",null,"bye")"#,
    )
}

#[test]
fn it_drops_else_if_with_unreadable_condition() {
    // <h1 v-if="foo">hello</h1>
    // <h2 v-else-if="1 +">hi</h2>
    // <h3 v-else-if="bar">bye</h3>
    test_out(
        ConditionalNodeSequence {
            if_node: ("foo".to_owned(), Box::new(element("h1", "hello"))),
            else_if_nodes: vec![
                ("1 +".to_owned(), element("h2", "hi")),
                ("bar".to_owned(), element("h3", "bye")),
            ],
            else_node: None,
        },
        r#"_ctx.foo?_createElementVNode("h1",null,"hello"):_ctx.bar?_createElementVNode("h3",null,"bye"):_createCommentVNode("v-if")"#,
    )
}

#[test]
fn it_gives_invalid_for_unreadable_if_condition() {
    let mut ctx = CodegenContext::default();
    let out = ctx.generate_conditional_seq(&ConditionalNodeSequence {
        if_node: ("foo +".to_owned(), Box::new(element("h1", "hello"))),
        else_if_nodes: vec![("bar".to_owned(), element("h2", "hi"))],
        else_node: Some(Box::new(element("h3", "bye"))),
    });
    assert_eq!(out, Expression::Invalid);
    // Nothing was compiled, so no helper is noted as used
    assert!(!ctx.used_imports.contains(VueImports::CreateElementVNode));
    assert!(!ctx.used_imports.contains(VueImports::CreateCommentVNode));
}

#[test]
fn it_nests_one_conditional_per_branch() {
    let mut ctx = CodegenContext::default();
    let out = ctx.generate_conditional_seq(&ConditionalNodeSequence {
        if_node: ("a".to_owned(), Box::new(element("h1", "1"))),
        else_if_nodes: vec![
            ("b".to_owned(), element("h2", "2")),
            ("c".to_owned(), element("h3", "3")),
            ("d".to_owned(), element("h4", "4")),
        ],
        else_node: None,
    });
    // Three else-if branches: four conditionals along the alternatives
    let mut depth = 0;
    let mut tests = vec![];
    let mut current = &out;
    while let Expression::Cond { test, cons: _, alt } = current {
        depth += 1;
        tests.push(CodegenContext::stringify("", test, true));
        current = alt;
    }
    assert_eq!(depth, 4);
    assert_eq!(tests, vec!["_ctx.a", "_ctx.b", "_ctx.c", "_ctx.d"]);
    assert_eq!(CodegenContext::stringify("", current, true), r#"_createCommentVNode("v-if")"#);
}

#[test]
fn it_notes_the_helpers_of_a_conditional() {
    let mut ctx = CodegenContext::default();
    ctx.generate_conditional_seq(&ConditionalNodeSequence {
        if_node: ("a".to_owned(), Box::new(element("h1", "1"))),
        else_if_nodes: vec![],
        else_node: None,
    });
    assert!(ctx.used_imports.contains(VueImports::CreateElementVNode));
    assert!(ctx.used_imports.contains(VueImports::CreateCommentVNode));
    assert!(!ctx.used_imports.contains(VueImports::CreateTextVNode));
    assert!(!ctx.used_imports.contains(VueImports::OpenBlock));
    assert!(!ctx.used_imports.contains(VueImports::CreateElementBlock));
}

#[test]
fn it_folds_a_flat_list_from_the_back() {
    let ident = |name: &str| Expression::Ident(name.to_owned());
    let folded = fold_conditional(vec![ident("a"), ident("b"), ident("c"), ident("d"), ident("e")]);
    assert_eq!(
        folded,
        Expression::Cond {
            test: Box::new(ident("a")),
            cons: Box::new(ident("b")),
            alt: Box::new(Expression::Cond {
                test: Box::new(ident("c")),
                cons: Box::new(ident("d")),
                alt: Box::new(ident("e")),
            }),
        }
    );
    assert_eq!(fold_conditional(vec![ident("a")]), ident("a"));
}
