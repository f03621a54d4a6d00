use fervid::analyzer::analyze_default_export;
use fervid::analyzer::analyze_top_level_items;
use fervid::analyzer::handle_options_array;
use fervid::analyzer::handle_options_arrow_function;
use fervid::analyzer::handle_options_function;
use fervid::analyzer::handle_options_lit;
use fervid::analyzer::handle_options_obj;
use fervid::analyzer::handle_options_tpl;
use fervid::analyzer::VueResolvedImports;
use fervid::ast::ArrowExpr;
use fervid::ast::BlockStmt;
use fervid::ast::BlockStmtOrExpr;
use fervid::ast::Expression;
use fervid::ast::ExprOrSpread;
use fervid::ast::Function;
use fervid::ast::ObjectLit;
use fervid::ast::PropOrSpread;
use fervid::ast::Property;
use fervid::ast::PropertyName;
use fervid::ast::Statement;
use fervid::ast::Tpl;
use fervid::parse::parse_js;
use fervid::context::CodegenContext;
use fervid::declarations::collect_declaration_bindings;
use fervid::declarations::collect_named_export_bindings;
use fervid::declarations::collect_pattern_names;
use fervid::declarations::BindingPattern;
use fervid::declarations::Declaration;
use fervid::declarations::Declarator;
use fervid::declarations::ObjectPatternProp;
use fervid::module::ImportDecl;
use fervid::module::ImportName;
use fervid::module::Module;
use fervid::module::ModuleItem;
use fervid::module::SfcScriptBlock;
use fervid::script::get_default_export_obj;
use fervid::script::transform_and_record_script_setup;
use fervid::script::transform_and_record_scripts;
use fervid::script::unroll_default_export_expr;
use fervid::structs::BindingTypes;
use fervid::structs::ScopeHelper;
use fervid::structs::ScriptLegacyVars;
use fervid::structs::SetupBinding;
use swc_core::common::sync::Lrc;
use swc_core::common::FileName;
use swc_core::common::SourceMap;
use swc_core::ecma::ast::DefaultDecl;
use swc_core::ecma::ast::EsVersion;
use swc_core::ecma::ast::Expr as SwcExpr;
use swc_core::ecma::ast::ModuleDecl as SwcModuleDecl;
use swc_core::ecma::ast::ModuleItem as SwcModuleItem;
use swc_core::ecma::parser::parse_file_as_module;
use swc_core::ecma::parser::Syntax;

fn swc_item(text: &str) -> SwcModuleItem {
    let cm: Lrc<SourceMap> = Default::default();
    let file = cm.new_source_file(FileName::Anon.into(), text.to_owned());
    let mut recovered = Vec::new();
    parse_file_as_module(&file, Syntax::Es(Default::default()), EsVersion::latest(), None, &mut recovered)
        .expect("the text is a module")
        .body
        .remove(0)
}

fn statement(text: &str, declared: &[&str]) -> ModuleItem {
    let bindings = declared
        .iter()
        .map(|name| SetupBinding(name.to_string(), BindingTypes::SetupValue))
        .collect();
    match swc_item(text) {
        SwcModuleItem::Stmt(stmt) => ModuleItem::Stmt { bindings, raw: Box::new(stmt) },
        SwcModuleItem::ModuleDecl(decl) => ModuleItem::ExportDecl { bindings, raw: Box::new(decl) },
    }
}

fn ident(name: &str) -> Expression {
    Expression::Ident(name.to_owned())
}

fn string(value: &str) -> Expression {
    Expression::Str { value: value.to_owned(), raw: None }
}

fn plain(expr: Expression) -> ExprOrSpread {
    ExprOrSpread { spread: false, expr }
}

fn field(name: &str, value: Expression) -> PropOrSpread {
    PropOrSpread::Prop(Property::KeyValue { key: PropertyName::Ident(name.to_owned()), value })
}

fn method(name: &str, body: Option<Vec<Statement>>) -> PropOrSpread {
    PropOrSpread::Prop(Property::Method {
        key: PropertyName::Ident(name.to_owned()),
        function: function(body),
    })
}

fn function(body: Option<Vec<Statement>>) -> Function {
    Function {
        params: vec![],
        body: body.map(|stmts| BlockStmt { stmts }),
        is_async: false,
        is_generator: false,
    }
}

fn object(props: Vec<PropOrSpread>) -> Expression {
    Expression::Object(ObjectLit { props })
}

fn strings(values: &[&str]) -> Expression {
    Expression::Array(values.iter().map(|value| Some(plain(string(value)))).collect())
}

fn names(list: &[&str]) -> Vec<String> {
    list.iter().map(|name| name.to_string()).collect()
}

fn call(callee: &str, args: Vec<ExprOrSpread>) -> Expression {
    Expression::Call { callee: Box::new(ident(callee)), args }
}

fn script(body: Vec<ModuleItem>) -> Option<SfcScriptBlock> {
    Some(SfcScriptBlock { content: Box::new(Module { shebang: None, body }) })
}

#[test]
fn unroll_takes_define_component_off() {
    let definition = || object(vec![field("name", string("x"))]);
    assert_eq!(
        unroll_default_export_expr(call("defineComponent", vec![plain(definition())])),
        definition()
    );
    // Anything else stays as it is
    let spread = || call("defineComponent", vec![ExprOrSpread { spread: true, expr: ident("a") }]);
    assert_eq!(unroll_default_export_expr(spread()), spread());
    let two = || call("defineComponent", vec![plain(ident("a")), plain(ident("b"))]);
    assert_eq!(unroll_default_export_expr(two()), two());
    let none = || call("defineComponent", vec![]);
    assert_eq!(unroll_default_export_expr(none()), none());
    let other = || call("define", vec![plain(definition())]);
    assert_eq!(unroll_default_export_expr(other()), other());
    let member = || Expression::Call {
        callee: Box::new(Expression::Member {
            obj: Box::new(ident("Vue")),
            prop: "defineComponent".to_owned(),
        }),
        args: vec![plain(definition())],
    };
    assert_eq!(unroll_default_export_expr(member()), member());
    assert_eq!(unroll_default_export_expr(definition()), definition());
    assert_eq!(unroll_default_export_expr(ident("a")), ident("a"));
}

#[test]
fn default_export_is_taken_out_of_the_module() {
    let mut module = Module {
        shebang: None,
        body: vec![
            statement("const a = 1;", &["a"]),
            ModuleItem::ExportDefaultExpr(object(vec![field("name", string("x"))])),
            statement("const b = 2;", &["b"]),
            ModuleItem::ExportDefaultExpr(ident("second")),
        ],
    };
    let obj = get_default_export_obj(&mut module);
    assert_eq!(obj, ObjectLit { props: vec![field("name", string("x"))] });
    assert_eq!(
        module,
        Module {
            shebang: None,
            body: vec![
                statement("const a = 1;", &["a"]),
                statement("const b = 2;", &["b"]),
                ModuleItem::ExportDefaultExpr(ident("second")),
            ],
        }
    );
}

#[test]
fn missing_default_export_gives_an_empty_object() {
    let mut module = Module { shebang: None, body: vec![statement("const a = 1;", &["a"])] };
    assert_eq!(get_default_export_obj(&mut module), ObjectLit { props: vec![] });
    assert_eq!(module, Module { shebang: None, body: vec![statement("const a = 1;", &["a"])] });
    let mut empty = Module::new();
    assert_eq!(get_default_export_obj(&mut empty), ObjectLit { props: vec![] });
    assert_eq!(empty, Module { shebang: None, body: vec![] });
}

#[test]
fn default_export_of_other_forms_is_spread() {
    let mut module = Module { shebang: None, body: vec![ModuleItem::ExportDefaultExpr(ident("component"))] };
    assert_eq!(
        get_default_export_obj(&mut module),
        ObjectLit { props: vec![PropOrSpread::Spread(ident("component"))] }
    );
    assert_eq!(module, Module { shebang: None, body: vec![] });

    let wrapped = call("defineComponent", vec![plain(object(vec![field("name", string("x"))]))]);
    let mut module = Module { shebang: None, body: vec![ModuleItem::ExportDefaultExpr(wrapped)] };
    assert_eq!(
        get_default_export_obj(&mut module),
        ObjectLit { props: vec![field("name", string("x"))] }
    );

    let wrapped = call("defineComponent", vec![plain(ident("options"))]);
    let mut module = Module { shebang: None, body: vec![ModuleItem::ExportDefaultExpr(wrapped)] };
    assert_eq!(
        get_default_export_obj(&mut module),
        ObjectLit { props: vec![PropOrSpread::Spread(ident("options"))] }
    );

    let call_of_two = || call("defineComponent", vec![plain(ident("a")), plain(ident("b"))]);
    let mut module = Module { shebang: None, body: vec![ModuleItem::ExportDefaultExpr(call_of_two())] };
    assert_eq!(
        get_default_export_obj(&mut module),
        ObjectLit { props: vec![PropOrSpread::Spread(call_of_two())] }
    );
}

fn setup_method(text: &str) -> String {
    format!("({})", text)
}

#[test]
fn setup_script_becomes_a_setup_method() {
    let mut helper = ScopeHelper::default();
    helper.setup_bindings.push(SetupBinding("known".to_owned(), BindingTypes::Props));
    let setup = SfcScriptBlock {
        content: Box::new(Module {
            shebang: None,
            body: vec![
                ModuleItem::Import(ImportDecl {
                    specifiers: vec![ImportName::Default("x".to_owned())],
                    src: "./x".to_owned(),
                }),
                statement("const a = 1, b = 2;", &["a", "b"]),
                statement("run();", &[]),
                statement("function c() {}", &["c"]),
            ],
        }),
    };
    let result = transform_and_record_script_setup(setup, &mut helper);
    assert_eq!(result.fields.len(), 1);
    let text = CodegenContext::stringify(
        "",
        &Expression::Object(ObjectLit { props: result.fields }),
        true,
    );
    assert_eq!(
        setup_method(&text),
        "({setup(){const a=1,b=2;run();function c(){}return{a:a,b:b,c:c};}})"
    );
    assert_eq!(
        helper.setup_bindings,
        vec![
            SetupBinding("known".to_owned(), BindingTypes::Props),
            SetupBinding("a".to_owned(), BindingTypes::SetupValue),
            SetupBinding("b".to_owned(), BindingTypes::SetupValue),
            SetupBinding("c".to_owned(), BindingTypes::SetupValue),
        ]
    );
}

#[test]
fn legacy_fields_come_before_setup_fields() {
    let mut helper = ScopeHelper::default();
    let legacy = script(vec![
        statement("const outer = 0;", &["outer"]),
        ModuleItem::ExportDefaultExpr(object(vec![
            field("name", string("x")),
            method("setup", Some(vec![])),
            field("props", strings(&["a"])),
        ])),
    ]);
    let setup = script(vec![statement("const a = 1;", &["a"])]);
    let (module, definition) = transform_and_record_scripts(setup, legacy, &mut helper);
    assert_eq!(module, Module { shebang: None, body: vec![statement("const outer = 0;", &["outer"])] });
    // The `setup` of the options-style script stays, and stands before that of the setup script
    assert_eq!(definition.props.len(), 4);
    assert_eq!(definition.props[0], field("name", string("x")));
    assert_eq!(definition.props[1], method("setup", Some(vec![])));
    assert_eq!(definition.props[2], field("props", strings(&["a"])));
    assert_eq!(
        CodegenContext::stringify("", &Expression::Object(definition), true),
        r#"{name:"x",setup(){},props:["a"],setup(){const a=1;return{a:a};}}"#
    );
    assert_eq!(helper.setup_bindings, vec![SetupBinding("a".to_owned(), BindingTypes::SetupValue)]);
    // What the options-style script declares was recorded on the way
    assert_eq!(helper.options_api_vars.name, Some("x".to_owned()));
    assert_eq!(helper.options_api_vars.props, names(&["a"]));
    assert_eq!(
        helper.options_api_vars.setup,
        vec![SetupBinding("outer".to_owned(), BindingTypes::SetupValue)]
    );
}

#[test]
fn top_level_items_are_recorded_only_beside_a_setup_script() {
    let legacy = || {
        script(vec![
            statement("const outer = 0;", &["outer"]),
            ModuleItem::ExportDefaultExpr(object(vec![field("props", strings(&["a"]))])),
        ])
    };
    let mut alone = ScopeHelper::default();
    transform_and_record_scripts(None, legacy(), &mut alone);
    assert_eq!(alone.options_api_vars.props, names(&["a"]));
    assert_eq!(alone.options_api_vars.setup, vec![]);
    let mut beside = ScopeHelper::default();
    transform_and_record_scripts(script(vec![]), legacy(), &mut beside);
    assert_eq!(beside.options_api_vars.props, names(&["a"]));
    assert_eq!(
        beside.options_api_vars.setup,
        vec![SetupBinding("outer".to_owned(), BindingTypes::SetupValue)]
    );
}

#[test]
fn scripts_may_be_missing() {
    let mut helper = ScopeHelper::default();
    let (module, definition) = transform_and_record_scripts(None, None, &mut helper);
    assert_eq!(module, Module { shebang: None, body: vec![] });
    assert_eq!(definition, ObjectLit { props: vec![] });
    assert_eq!(helper.setup_bindings, vec![]);

    let legacy = script(vec![ModuleItem::ExportDefaultExpr(ident("base"))]);
    let (module, definition) = transform_and_record_scripts(None, legacy, &mut helper);
    assert_eq!(module, Module { shebang: None, body: vec![] });
    assert_eq!(definition, ObjectLit { props: vec![PropOrSpread::Spread(ident("base"))] });

    let setup = script(vec![]);
    let (module, definition) = transform_and_record_scripts(setup, None, &mut helper);
    assert_eq!(module, Module { shebang: None, body: vec![] });
    assert_eq!(
        CodegenContext::stringify("", &Expression::Object(definition), true),
        "{setup(){return{};}}"
    );
}

fn template(text: &str) -> Tpl {
    match parse_js(text) {
        Some(Expression::Tpl(tpl)) => tpl,
        _ => panic!("the text is a template literal"),
    }
}

fn returning(keys: &[&str]) -> Vec<Statement> {
    vec![
        Statement::Return(Some(object(keys.iter().map(|key| field(key, ident("v"))).collect()))),
        Statement::Return(Some(object(vec![field("later", ident("v"))]))),
    ]
}

#[test]
fn default_export_fields_are_recorded_by_name_and_form() {
    let definition = ObjectLit {
        props: vec![
            field("name", Expression::Tpl(template("`Ignored`"))),
            field("name", string("MyComponent")),
            field("props", strings(&["a", "b"])),
            field(
                "props",
                object(vec![
                    field("c", object(vec![])),
                    PropOrSpread::Prop(Property::KeyValue {
                        key: PropertyName::Str { value: "d-e".to_owned(), raw: None },
                        value: ident("String"),
                    }),
                    PropOrSpread::Spread(ident("more")),
                ]),
            ),
            method("data", Some(returning(&["x", "y"]))),
            field("computed", object(vec![method("total", Some(vec![]))])),
            field("methods", object(vec![method("submit", Some(vec![]))])),
            field("components", object(vec![field("Child", ident("Child"))])),
            field("directives", object(vec![field("focus", ident("focus"))])),
            field("emits", strings(&["change"])),
            field("inject", object(vec![field("theme", string("theme"))])),
            field("expose", strings(&["open"])),
            field(
                "setup",
                Expression::Arrow(ArrowExpr {
                    params: vec![],
                    body: BlockStmtOrExpr::Expr(Box::new(Expression::Paren(Box::new(object(
                        vec![field("s", ident("v"))],
                    ))))),
                    is_async: false,
                }),
            ),
            // Passed over: a spread, an unknown name, a form that the field does not take
            PropOrSpread::Spread(ident("mixin")),
            field("unknown", strings(&["u"])),
            field("data", strings(&["not", "data"])),
            field("methods", strings(&["not", "methods"])),
            field("name", ident("notALiteral")),
            field("props", Expression::Bool(true)),
        ],
    };
    let mut vars = ScriptLegacyVars::default();
    analyze_default_export(&definition, &mut vars);
    assert_eq!(vars.name, Some("MyComponent".to_owned()));
    assert_eq!(vars.props, names(&["a", "b", "c", "d-e"]));
    assert_eq!(vars.data, names(&["x", "y"]));
    assert_eq!(vars.computed, names(&["total"]));
    assert_eq!(vars.methods, names(&["submit"]));
    assert_eq!(vars.components, names(&["Child"]));
    assert_eq!(vars.directives, names(&["focus"]));
    assert_eq!(vars.emits, names(&["change"]));
    assert_eq!(vars.inject, names(&["theme"]));
    assert_eq!(vars.expose, names(&["open"]));
    assert_eq!(vars.setup, vec![SetupBinding("s".to_owned(), BindingTypes::SetupValue)]);
    assert_eq!(vars.imports, names(&[]));
}

#[test]
fn handlers_pass_over_what_a_field_does_not_take() {
    let mut vars = ScriptLegacyVars::default();
    let array = vec![
        Some(plain(string("a"))),
        None,
        Some(ExprOrSpread { spread: true, expr: string("spread") }),
        Some(plain(ident("notAString"))),
        Some(plain(string("b"))),
    ];
    handle_options_array("inject", &array, &mut vars);
    handle_options_array("computed", &array, &mut vars);
    assert_eq!(vars.inject, names(&["a", "b"]));
    assert_eq!(vars.computed, names(&[]));

    let obj = ObjectLit { props: vec![field("a", ident("v")), method("b", None)] };
    handle_options_obj("emits", &obj, &mut vars);
    handle_options_obj("expose", &obj, &mut vars);
    assert_eq!(vars.emits, names(&["a", "b"]));
    assert_eq!(vars.expose, names(&[]));

    // A function without a body declares nothing; one that returns no object neither
    handle_options_function("data", &function(None), &mut vars);
    handle_options_function("data", &function(Some(vec![Statement::Return(None)])), &mut vars);
    handle_options_function(
        "data",
        &function(Some(vec![Statement::Return(Some(ident("state")))])),
        &mut vars,
    );
    handle_options_function("props", &function(Some(returning(&["p"]))), &mut vars);
    assert_eq!(vars.data, names(&[]));
    assert_eq!(vars.props, names(&[]));
    handle_options_function("setup", &function(Some(returning(&["p", "q"]))), &mut vars);
    assert_eq!(
        vars.setup,
        vec![
            SetupBinding("p".to_owned(), BindingTypes::SetupValue),
            SetupBinding("q".to_owned(), BindingTypes::SetupValue),
        ]
    );

    let arrow = ArrowExpr {
        params: vec![],
        body: BlockStmtOrExpr::BlockStmt(BlockStmt { stmts: returning(&["d"]) }),
        is_async: false,
    };
    handle_options_arrow_function("data", &arrow, &mut vars);
    handle_options_arrow_function("methods", &arrow, &mut vars);
    assert_eq!(vars.data, names(&["d"]));
    assert_eq!(vars.methods, names(&[]));

    handle_options_lit("name", &Expression::Bool(true), &mut vars);
    assert_eq!(vars.name, None);
    handle_options_lit("title", &string("no"), &mut vars);
    assert_eq!(vars.name, None);
    handle_options_lit("name", &string("yes"), &mut vars);
    assert_eq!(vars.name, Some("yes".to_owned()));
    handle_options_tpl("title", &template("`no`"), &mut vars);
    assert_eq!(vars.name, Some("yes".to_owned()));
    handle_options_tpl("name", &template("`from\\nTemplate`"), &mut vars);
    assert_eq!(vars.name, Some("from\nTemplate".to_owned()));
    // A template that holds more than text leaves no name
    handle_options_tpl("name", &template("`a${b}c`"), &mut vars);
    assert_eq!(vars.name, None);
}

#[test]
fn top_level_items_are_recorded() {
    let module = Module {
        shebang: None,
        body: vec![
            ModuleItem::Import(ImportDecl {
                specifiers: vec![
                    ImportName::Named { local: "ref".to_owned(), imported: None },
                    ImportName::Named {
                        local: "comp".to_owned(),
                        imported: Some("computed".to_owned()),
                    },
                    ImportName::Named { local: "watch".to_owned(), imported: None },
                ],
                src: "vue".to_owned(),
            }),
            ModuleItem::Import(ImportDecl {
                specifiers: vec![
                    ImportName::Default("Child".to_owned()),
                    ImportName::Namespace("all".to_owned()),
                    ImportName::Named { local: "reactive".to_owned(), imported: None },
                ],
                src: "./child".to_owned(),
            }),
            statement("const a = ref(0);", &["a"]),
            statement("export const b = 1;", &["b"]),
            ModuleItem::ExportDefaultExpr(object(vec![field("props", strings(&["p"]))])),
        ],
    };
    let mut vars = ScriptLegacyVars::default();
    let mut vue_imports = VueResolvedImports::default();
    analyze_top_level_items(&module, &mut vars, &mut vue_imports);
    assert_eq!(vars.imports, names(&["ref", "comp", "watch", "Child", "all", "reactive"]));
    assert_eq!(
        vars.setup,
        vec![
            SetupBinding("a".to_owned(), BindingTypes::SetupValue),
            SetupBinding("b".to_owned(), BindingTypes::SetupValue),
        ]
    );
    assert_eq!(vars.props, names(&[]));
    assert_eq!(
        vue_imports,
        VueResolvedImports {
            vue_ref: Some("ref".to_owned()),
            vue_computed: Some("comp".to_owned()),
            vue_reactive: None,
        }
    );
}

fn default_declaration(text: &str) -> Expression {
    let SwcModuleItem::ModuleDecl(SwcModuleDecl::ExportDefaultDecl(export)) = swc_item(text) else {
        panic!("the text is a default export in declaration form");
    };
    match export.decl {
        DefaultDecl::Class(class) => Expression::Raw(Box::new(SwcExpr::Class(class))),
        DefaultDecl::Fn(function) => Expression::Raw(Box::new(SwcExpr::Fn(function))),
        _ => panic!("the text declares a class or a function"),
    }
}

#[test]
fn default_export_in_declaration_form_is_taken_out() {
    let class = || default_declaration("export default class A {}");
    let mut module = Module {
        shebang: None,
        body: vec![
            statement("const a = 1;", &["a"]),
            ModuleItem::ExportDefaultDecl(class()),
            ModuleItem::ExportDefaultExpr(ident("second")),
        ],
    };
    let obj = get_default_export_obj(&mut module);
    assert_eq!(obj, ObjectLit { props: vec![PropOrSpread::Spread(class())] });
    assert_eq!(
        module,
        Module {
            shebang: None,
            body: vec![
                statement("const a = 1;", &["a"]),
                ModuleItem::ExportDefaultExpr(ident("second")),
            ],
        }
    );
    assert_eq!(CodegenContext::stringify("", &Expression::Object(obj), true), "{...class A{}}");

    let function = || default_declaration("export default function f() { return 1; }");
    let mut module = Module {
        shebang: None,
        body: vec![
            ModuleItem::ExportDefaultExpr(ident("first")),
            ModuleItem::ExportDefaultDecl(function()),
        ],
    };
    let obj = get_default_export_obj(&mut module);
    assert_eq!(obj, ObjectLit { props: vec![PropOrSpread::Spread(ident("first"))] });
    assert_eq!(module, Module { shebang: None, body: vec![ModuleItem::ExportDefaultDecl(function())] });
    let obj = get_default_export_obj(&mut module);
    assert_eq!(obj, ObjectLit { props: vec![PropOrSpread::Spread(function())] });
    assert_eq!(module, Module { shebang: None, body: vec![] });
}

#[test]
fn merged_scripts_keep_no_default_export_in_declaration_form() {
    let legacy = script(vec![
        ModuleItem::ExportDefaultDecl(default_declaration("export default class A {}")),
        statement("const a = 1;", &["a"]),
    ]);
    let mut scope_helper = ScopeHelper::default();
    let (module, obj) = transform_and_record_scripts(None, legacy, &mut scope_helper);
    assert_eq!(module, Module { shebang: None, body: vec![statement("const a = 1;", &["a"])] });
    assert_eq!(
        obj,
        ObjectLit {
            props: vec![PropOrSpread::Spread(default_declaration("export default class A {}"))],
        }
    );
}

#[test]
fn default_export_in_declaration_form_is_written_as_a_declaration() {
    let module = Module {
        shebang: None,
        body: vec![ModuleItem::ExportDefaultDecl(default_declaration("export default class A {}"))],
    };
    assert_eq!(CodegenContext::stringify_module("", &module, true), "export default class A{}");
    let module = Module {
        shebang: None,
        body: vec![ModuleItem::ExportDefaultDecl(default_declaration(
            "export default function f() { return 1; }",
        ))],
    };
    assert_eq!(
        CodegenContext::stringify_module("", &module, true),
        "export default function f(){return 1;}"
    );
    let module = Module { shebang: None, body: vec![ModuleItem::ExportDefaultDecl(ident("x"))] };
    assert_eq!(CodegenContext::stringify_module("", &module, true), "export default x;");
}

#[test]
fn quoted_field_names_are_read() {
    let text = r#"({ 'methods': { 'go-on': f, stop: g }, "computed": { 'total': h } })"#;
    let Some(Expression::Paren(inner)) = parse_js(text) else {
        panic!("the text is an object in parentheses");
    };
    let Expression::Object(definition) = *inner else {
        panic!("the text is an object in parentheses");
    };
    match &definition.props[0] {
        PropOrSpread::Prop(Property::KeyValue { key, .. }) => assert_eq!(
            key,
            &PropertyName::Str { value: "methods".to_owned(), raw: Some("'methods'".to_owned()) }
        ),
        _ => panic!("the first entry is a field"),
    }
    let mut vars = ScriptLegacyVars::default();
    analyze_default_export(&definition, &mut vars);
    assert_eq!(vars.methods, names(&["go-on", "stop"]));
    assert_eq!(vars.computed, names(&["total"]));
    assert_eq!(
        CodegenContext::stringify("", &Expression::Object(definition), true),
        r#"{"methods":{"go-on":f,stop:g},"computed":{"total":h}}"#
    );
}

#[test]
fn interpreter_line_stays_with_the_module() {
    let legacy = Some(SfcScriptBlock {
        content: Box::new(Module {
            shebang: Some("/usr/bin/env node".to_owned()),
            body: vec![
                ModuleItem::ExportDefaultExpr(ident("base")),
                statement("const a = 1;", &["a"]),
            ],
        }),
    });
    let mut scope_helper = ScopeHelper::default();
    let (module, _) = transform_and_record_scripts(None, legacy, &mut scope_helper);
    assert_eq!(
        module,
        Module {
            shebang: Some("/usr/bin/env node".to_owned()),
            body: vec![statement("const a = 1;", &["a"])],
        }
    );
    assert_eq!(
        CodegenContext::stringify_module("", &module, true),
        "#!/usr/bin/env node\nconst a=1;"
    );
}

fn name(text: &str) -> BindingPattern {
    BindingPattern::Ident(text.to_owned())
}

#[test]
fn pattern_names_come_in_source_order() {
    // `[a, , { b, c: [d], ...e }, f = 1, ...g]`
    let pattern = BindingPattern::Array(vec![
        Some(name("a")),
        None,
        Some(BindingPattern::Object(vec![
            ObjectPatternProp::Assign("b".to_owned()),
            ObjectPatternProp::KeyValue(BindingPattern::Array(vec![Some(name("d"))])),
            ObjectPatternProp::Rest(name("e")),
        ])),
        Some(BindingPattern::Assign(Box::new(name("f")))),
        Some(BindingPattern::Rest(Box::new(name("g")))),
        Some(BindingPattern::Other),
    ]);
    let mut found = names(&["before"]);
    collect_pattern_names(&pattern, &mut found);
    assert_eq!(found, names(&["before", "a", "b", "d", "e", "f", "g"]));

    let mut found = Vec::new();
    collect_pattern_names(&BindingPattern::Other, &mut found);
    collect_pattern_names(&BindingPattern::Array(vec![]), &mut found);
    collect_pattern_names(&BindingPattern::Object(vec![]), &mut found);
    assert_eq!(found, names(&[]));
}

#[test]
fn declarations_introduce_bindings() {
    let plain = |name: &str| SetupBinding(name.to_owned(), BindingTypes::SetupValue);
    let literal = |name: &str| SetupBinding(name.to_owned(), BindingTypes::LiteralConst);
    assert_eq!(collect_declaration_bindings(&Declaration::Function("f".to_owned())), vec![plain("f")]);
    assert_eq!(collect_declaration_bindings(&Declaration::Class("C".to_owned())), vec![plain("C")]);
    assert_eq!(collect_declaration_bindings(&Declaration::Other), vec![]);
    // `const a = 1, [b, c] = list, d = 2;`
    let declarators = |literal_d: bool| {
        vec![
            Declarator { name: name("a"), literal: true },
            Declarator {
                name: BindingPattern::Array(vec![Some(name("b")), Some(name("c"))]),
                literal: false,
            },
            Declarator { name: name("d"), literal: literal_d },
        ]
    };
    assert_eq!(
        collect_declaration_bindings(&Declaration::Variables {
            constant: true,
            declarators: declarators(true),
        }),
        vec![literal("a"), plain("b"), plain("c"), literal("d")]
    );
    // `let` declares no constant, whatever its value
    assert_eq!(
        collect_declaration_bindings(&Declaration::Variables {
            constant: false,
            declarators: declarators(true),
        }),
        vec![plain("a"), plain("b"), plain("c"), plain("d")]
    );
    assert_eq!(
        collect_declaration_bindings(&Declaration::Variables { constant: true, declarators: vec![] }),
        vec![]
    );
}

#[test]
fn named_exports_introduce_bindings_of_this_module() {
    let exported = vec![Some("a".to_owned()), None, Some("b".to_owned())];
    assert_eq!(
        collect_named_export_bindings(false, &exported),
        vec![
            SetupBinding("a".to_owned(), BindingTypes::SetupValue),
            SetupBinding("b".to_owned(), BindingTypes::SetupValue),
        ]
    );
    assert_eq!(collect_named_export_bindings(true, &exported), vec![]);
    assert_eq!(collect_named_export_bindings(false, &vec![]), vec![]);
}
