use fervid::ast::ArrowExpr;
use fervid::ast::BlockStmt;
use fervid::ast::BlockStmtOrExpr;
use fervid::ast::Expression;
use fervid::ast::ExprOrSpread;
use fervid::ast::Function;
use fervid::ast::ObjectLit;
use fervid::ast::Pattern;
use fervid::ast::PropOrSpread;
use fervid::ast::Property;
use fervid::ast::PropertyName;
use fervid::ast::Statement;
use fervid::context::CodegenContext;
use fervid::lower::lower;
use fervid::module::ImportDecl;
use fervid::module::ImportName;
use fervid::module::Module;
use fervid::module::ModuleItem;
use fervid::parse::has_plain_chains;
use fervid::parse::lift;
use fervid::parse::parse_js;
use swc_core::common::sync::Lrc;
use swc_core::common::FileName;
use swc_core::common::SourceMap;
use swc_core::ecma::ast::EsVersion;
use swc_core::ecma::ast::Expr as SwcExpr;
use swc_core::ecma::ast::ModuleDecl as SwcModuleDecl;
use swc_core::ecma::ast::ModuleItem as SwcModuleItem;
use swc_core::ecma::ast::Prop as SwcProp;
use swc_core::ecma::ast::PropOrSpread as SwcPropOrSpread;
use swc_core::ecma::ast::Stmt as SwcStmt;
use swc_core::ecma::parser::parse_file_as_expr;
use swc_core::ecma::parser::parse_file_as_module;
use swc_core::ecma::parser::Syntax;

fn swc_expr(text: &str) -> Box<SwcExpr> {
    let cm: Lrc<SourceMap> = Default::default();
    let file = cm.new_source_file(FileName::Anon.into(), text.to_owned());
    let mut recovered = Vec::new();
    parse_file_as_expr(&file, Syntax::Es(Default::default()), EsVersion::latest(), None, &mut recovered)
        .expect("the text is an expression")
}

fn swc_items(text: &str) -> Vec<SwcModuleItem> {
    let cm: Lrc<SourceMap> = Default::default();
    let file = cm.new_source_file(FileName::Anon.into(), text.to_owned());
    let mut recovered = Vec::new();
    parse_file_as_module(&file, Syntax::Es(Default::default()), EsVersion::latest(), None, &mut recovered)
        .expect("the text is a module")
        .body
}

fn swc_stmt(text: &str) -> Box<SwcStmt> {
    match swc_items(text).remove(0) {
        SwcModuleItem::Stmt(stmt) => Box::new(stmt),
        SwcModuleItem::ModuleDecl(_) => panic!("the text is a statement"),
    }
}

fn swc_decl(text: &str) -> Box<SwcModuleDecl> {
    match swc_items(text).remove(0) {
        SwcModuleItem::ModuleDecl(decl) => Box::new(decl),
        SwcModuleItem::Stmt(_) => panic!("the text is a module declaration"),
    }
}

fn text_of(expr: &Expression) -> String {
    CodegenContext::stringify("", expr, true)
}

fn ident(name: &str) -> Expression {
    Expression::Ident(name.to_owned())
}

fn key(name: &str) -> PropertyName {
    PropertyName::Ident(name.to_owned())
}

#[test]
fn literals_are_written_out() {
    assert_eq!(text_of(&Expression::Null), "null");
    assert_eq!(text_of(&Expression::Bool(true)), "true");
    assert_eq!(text_of(&Expression::Bool(false)), "false");
    assert_eq!(text_of(&Expression::Str { value: "a\"b".to_owned(), raw: None }), r#"'a"b'"#);
    assert_eq!(text_of(&ident("name")), "name");
    assert_eq!(text_of(&Expression::Raw(swc_expr("1.5e3"))), "1500");
    let template = parse_js("`a${b}c${d.e}`").expect("the text is an expression");
    assert!(matches!(template, Expression::Tpl(_)));
    assert_eq!(text_of(&template), "`a${b}c${d.e}`");
}

#[test]
fn source_form_of_a_string_is_kept_when_not_compact() {
    let single = Expression::Str { value: "a".to_owned(), raw: Some("'a'".to_owned()) };
    assert_eq!(CodegenContext::stringify("", &single, false), "'a'");
    let built = Expression::Str { value: "a".to_owned(), raw: None };
    assert_eq!(CodegenContext::stringify("", &built, false), "\"a\"");
}

#[test]
fn operations_are_written_out() {
    for text in [
        "!a", "-a", "typeof a", "a+b", "a&&b||c", "a?b:c", "(a)", "a.b.c", "a[b]", "a(b,...c)", "a,b",
        "a?.b", "a?.b.c", "a?.[b]", "a?.(b)", "a.b?.(c).d", "new A", "new A(b,...c)", "new(a.b)(c)",
    ] {
        let expr = parse_js(text).expect("the text is an expression");
        assert_eq!(text_of(&expr), text);
    }
    let invalid = Expression::Paren(Box::new(Expression::Invalid));
    assert_eq!(text_of(&invalid), "(<invalid>)");
}

#[test]
fn lists_and_objects_are_written_out() {
    let array = Expression::Array(vec![
        Some(ExprOrSpread { spread: false, expr: ident("a") }),
        None,
        Some(ExprOrSpread { spread: true, expr: ident("b") }),
    ]);
    assert_eq!(text_of(&array), "[a,,...b]");
    assert_eq!(text_of(&Expression::Array(vec![])), "[]");
    assert_eq!(text_of(&Expression::Sequence(vec![ident("a"), ident("b")])), "a,b");

    let shorthand = match *swc_expr("({ short, get value() { return 1 } })") {
        SwcExpr::Paren(paren) => match *paren.expr {
            SwcExpr::Object(object) => object
                .props
                .into_iter()
                .map(|entry| match entry {
                    SwcPropOrSpread::Prop(prop) => prop,
                    SwcPropOrSpread::Spread(_) => panic!("the entries are properties"),
                })
                .collect::<Vec<Box<SwcProp>>>(),
            _ => panic!("the text is an object"),
        },
        _ => panic!("the text is in parentheses"),
    };
    let mut props = vec![
        PropOrSpread::Prop(Property::KeyValue { key: key("a"), value: ident("b") }),
        PropOrSpread::Prop(Property::KeyValue {
            key: PropertyName::Str { value: "c-d".to_owned(), raw: None },
            value: Expression::Null,
        }),
        PropOrSpread::Spread(ident("rest")),
    ];
    props.extend(shorthand.into_iter().map(|prop| PropOrSpread::Prop(Property::Raw(prop))));
    assert_eq!(
        text_of(&Expression::Object(ObjectLit { props })),
        r#"{a:b,"c-d":null,...rest,short,get value(){return 1;}}"#
    );
    assert_eq!(text_of(&Expression::Object(ObjectLit { props: vec![] })), "{}");
}

fn function(is_async: bool, is_generator: bool) -> Function {
    let destructured = match *swc_stmt("function f({ a }) {}") {
        SwcStmt::Decl(swc_core::ecma::ast::Decl::Fn(mut decl)) => decl.function.params.remove(0).pat,
        _ => panic!("the text is a function"),
    };
    Function {
        params: vec![Pattern::Ident("x".to_owned()), Pattern::Raw(Box::new(destructured))],
        body: Some(BlockStmt {
            stmts: vec![
                Statement::Raw(swc_stmt("call(x);")),
                Statement::Return(Some(ident("a"))),
                Statement::Return(None),
            ],
        }),
        is_async,
        is_generator,
    }
}

#[test]
fn functions_are_written_out() {
    assert_eq!(
        text_of(&Expression::Paren(Box::new(Expression::Fn(function(false, false))))),
        "(function(x,{a}){call(x);return a;return;})"
    );
    assert_eq!(
        text_of(&Expression::Paren(Box::new(Expression::Fn(function(true, true))))),
        "(async function*(x,{a}){call(x);return a;return;})"
    );
    let method = Expression::Object(ObjectLit {
        props: vec![PropOrSpread::Prop(Property::Method {
            key: key("run"),
            function: function(true, false),
        })],
    });
    assert_eq!(text_of(&method), "{async run(x,{a}){call(x);return a;return;}}");
    let by_expression = ArrowExpr {
        params: vec![Pattern::Ident("x".to_owned())],
        body: BlockStmtOrExpr::Expr(Box::new(ident("x"))),
        is_async: false,
    };
    assert_eq!(text_of(&Expression::Arrow(by_expression)), "x=>x");
    let by_block = ArrowExpr {
        params: vec![],
        body: BlockStmtOrExpr::BlockStmt(BlockStmt { stmts: vec![Statement::Return(None)] }),
        is_async: true,
    };
    assert_eq!(text_of(&Expression::Arrow(by_block)), "async()=>{return;}");
}

#[test]
fn lowering_and_lifting_give_the_tree_back() {
    for text in ["a ? b.c : d(e, ...f)[g]", "[a, , !b]", "({ a: b, c, ...d })", "a, b", "a?.b.c?.[d]?.(e)",
        "async (a, { b }) => a", "() => { use(a); return b; return }", "`a${b}c${[d]}`", "``"] {
        let expr = parse_js(text).expect("the text is an expression");
        assert_eq!(lift(lower(&expr), 100), expr);
    }
    // Below the depth asked for, the tree is kept as it is
    let shallow = lift(swc_expr("a.b.c"), 1);
    match shallow {
        Expression::Member { obj, prop } => {
            assert_eq!(prop, "c");
            assert!(matches!(*obj, Expression::Raw(_)));
        },
        _ => panic!("the outermost node is a member access"),
    }
    assert!(matches!(lift(swc_expr("a.b.c"), 0), Expression::Raw(_)));
}

#[test]
fn items_of_a_module_are_written_out() {
    let module = Module {
        shebang: None,
        body: vec![
            ModuleItem::Import(ImportDecl {
                specifiers: vec![
                    ImportName::Default("Child".to_owned()),
                    ImportName::Named { local: "a".to_owned(), imported: None },
                    ImportName::Named { local: "c".to_owned(), imported: Some("b".to_owned()) },
                ],
                src: "./child".to_owned(),
            }),
            ModuleItem::Import(ImportDecl {
                specifiers: vec![ImportName::Namespace("all".to_owned())],
                src: "lib".to_owned(),
            }),
            ModuleItem::Import(ImportDecl { specifiers: vec![], src: "effect".to_owned() }),
            ModuleItem::Stmt { bindings: vec![], raw: swc_stmt("let x = 1;") },
            ModuleItem::ExportNamed { bindings: vec![], raw: swc_decl("export { x };") },
            ModuleItem::ExportDecl { bindings: vec![], raw: swc_decl("export const y = 2;") },
            ModuleItem::Decl(swc_decl("export * from 'other';")),
            ModuleItem::ExportDefaultExpr(ident("x")),
        ],
    };
    assert_eq!(
        CodegenContext::stringify_module("", &module, true),
        r#"import Child,{a,b as c}from"./child";import*as all from"lib";import"effect";let x=1;export{x};export const y=2;export*from"other";export default x;"#
    );
    assert_eq!(CodegenContext::stringify_module("", &Module::new(), true), "");
}

#[test]
fn optional_call_on_a_new_object_is_written_in_parentheses() {
    let expr = parse_js("new A()?.()").expect("the text is an expression");
    assert_eq!(CodegenContext::stringify("", &expr, true), "(new A)?.()");
    let expr = parse_js("this?.(1)").expect("the text is an expression");
    assert_eq!(CodegenContext::stringify("", &expr, true), "(this)?.(1)");
    let expr = parse_js("a?.b?.(c)").expect("the text is an expression");
    assert_eq!(CodegenContext::stringify("", &expr, true), "a?.b?.(c)");
    let expr = parse_js("a?.(c).d").expect("the text is an expression");
    assert_eq!(CodegenContext::stringify("", &expr, true), "a?.(c).d");
    let expr = parse_js("a?.#b?.[c]").expect("the text is an expression");
    assert_eq!(CodegenContext::stringify("", &expr, true), "a?.#b?.[c]");
}

#[test]
fn plain_chains_are_told_from_optional_calls() {
    assert!(has_plain_chains(""));
    assert!(has_plain_chains("?"));
    assert!(has_plain_chains("a + b"));
    assert!(has_plain_chains("a?.b"));
    assert!(has_plain_chains("a?.b?.[c]?.$d?._e?.#f?.Z"));
    assert!(has_plain_chains("a ? .5 : 1"));
    assert!(!has_plain_chains("a?.()"));
    assert!(!has_plain_chains("a?.b?. (c)"));
    assert!(!has_plain_chains("a?./**/b"));
    assert!(!has_plain_chains("a?."));
    assert!(!has_plain_chains("a?.5:1"));
    assert!(!has_plain_chains("x = new A()?.()"));
}
