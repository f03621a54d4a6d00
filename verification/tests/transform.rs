use fervid::ast::Expression;
use fervid::context::CodegenContext;
use fervid::parse::parse_js;
use fervid::structs::BindingTypes;
use fervid::structs::ScopeHelper;
use fervid::structs::ScopeVariables;
use fervid::structs::SetupBinding;
use fervid::structs::TemplateGenerationMode;
use fervid::structs::TemplateScope;
use fervid::transform::transform_expr;
use fervid::transform::transform_scoped;
use fervid::transform::Namespace;
use fervid::transform::Resolution;

fn names(list: &[&str]) -> Vec<String> {
    list.iter().map(|name| name.to_string()).collect()
}

fn scope(variables: &[&str], parent: u32) -> TemplateScope {
    TemplateScope { variables: ScopeVariables::from_names(names(variables)), parent }
}

/// Scopes: 0 is the root, 1 introduces `item` and `index`, 2 is inside 1
/// and introduces `inner`, 3 is another child of the root.
fn helper() -> ScopeHelper {
    let mut helper = ScopeHelper::default();
    helper.template_scopes = vec![
        scope(&[], 0),
        scope(&["item", "index"], 0),
        scope(&["inner"], 1),
        scope(&["other"], 0),
    ];
    helper.setup_bindings = vec![
        SetupBinding("count".to_owned(), BindingTypes::ReactiveState),
        SetupBinding("title".to_owned(), BindingTypes::Props),
        SetupBinding("LIMIT".to_owned(), BindingTypes::LiteralConst),
        SetupBinding("helperFn".to_owned(), BindingTypes::SetupValue),
        SetupBinding("count".to_owned(), BindingTypes::SetupValue),
    ];
    helper.options_api_vars.props = names(&["size", "both"]);
    helper.options_api_vars.data = names(&["items", "both"]);
    helper.options_api_vars.computed = names(&["total"]);
    helper.options_api_vars.methods = names(&["submit"]);
    helper.options_api_vars.inject = names(&["theme"]);
    helper.options_api_vars.setup =
        vec![SetupBinding("fromSetup".to_owned(), BindingTypes::SetupValue)];
    helper
}

fn rewritten(text: &str, helper: &ScopeHelper, scope: u32) -> (String, bool) {
    let mut expr = parse_js(text).expect("the text is an expression");
    let has_js = transform_scoped(&mut expr, helper, scope);
    (CodegenContext::stringify("", &expr, true), has_js)
}

#[test]
fn scope_variables_hold_their_names() {
    let variables = ScopeVariables::from_names(names(&["a", "b", "c"]));
    assert!(variables.contains("a"));
    assert!(variables.contains("c"));
    assert!(!variables.contains("d"));
    assert!(!ScopeVariables::from_names(vec![]).contains("a"));
}

#[test]
fn resolve_walks_the_scope_chain() {
    let helper = helper();
    assert_eq!(helper.resolve(2, "inner"), Resolution::Local);
    assert_eq!(helper.resolve(2, "item"), Resolution::Local);
    assert_eq!(helper.resolve(1, "item"), Resolution::Local);
    // `inner` is introduced below scope 1, `other` beside it
    assert_eq!(helper.resolve(1, "inner"), Resolution::Context);
    assert_eq!(helper.resolve(2, "other"), Resolution::Context);
    assert_eq!(helper.resolve(0, "item"), Resolution::Context);
    // A scope that does not exist declares nothing
    assert_eq!(helper.resolve(9, "item"), Resolution::Context);
    assert!(helper.find_in_scopes(3, "other"));
    assert!(!helper.find_in_scopes(3, "item"));
}

#[test]
fn resolve_asks_scopes_then_setup_then_options() {
    let mut helper = helper();
    let bound = |category, namespace| Resolution::Bound { category, namespace };
    assert_eq!(helper.resolve(0, "undefined"), Resolution::Global);
    assert_eq!(helper.resolve(0, "NaN"), Resolution::Global);
    assert_eq!(helper.resolve(0, "Infinity"), Resolution::Global);
    // The first setup binding of a name decides
    assert_eq!(helper.resolve(0, "count"), bound(BindingTypes::ReactiveState, Namespace::Setup));
    assert_eq!(helper.resolve(0, "title"), bound(BindingTypes::Props, Namespace::Props));
    assert_eq!(helper.resolve(0, "LIMIT"), bound(BindingTypes::LiteralConst, Namespace::Setup));
    assert_eq!(helper.resolve(0, "size"), bound(BindingTypes::Props, Namespace::Props));
    assert_eq!(helper.resolve(0, "both"), bound(BindingTypes::Props, Namespace::Props));
    assert_eq!(helper.resolve(0, "items"), bound(BindingTypes::ReactiveState, Namespace::Data));
    assert_eq!(helper.resolve(0, "fromSetup"), bound(BindingTypes::SetupValue, Namespace::Setup));
    assert_eq!(helper.resolve(0, "total"), bound(BindingTypes::Computed, Namespace::Options));
    assert_eq!(helper.resolve(0, "submit"), bound(BindingTypes::Method, Namespace::Options));
    assert_eq!(helper.resolve(0, "theme"), bound(BindingTypes::Injected, Namespace::Options));
    assert_eq!(helper.resolve(0, "nothing"), Resolution::Context);
    assert_eq!(helper.resolve(0, "Math"), Resolution::Global);
    assert_eq!(helper.resolve(0, "Symbol"), Resolution::Global);
    assert_eq!(helper.resolve(0, "math"), Resolution::Context);
    assert_eq!(helper.resolve(0, "window"), Resolution::Context);
    // A declared name wins over a global one
    helper.options_api_vars.data.push("Date".to_owned());
    assert_eq!(helper.resolve(0, "Date"), bound(BindingTypes::ReactiveState, Namespace::Data));
    // A template scope wins over a setup binding, a setup binding over the options
    helper.template_scopes.push(scope(&["count"], 0));
    assert_eq!(helper.resolve(4, "count"), Resolution::Local);
    helper.setup_bindings.push(SetupBinding("size".to_owned(), BindingTypes::SetupValue));
    assert_eq!(helper.resolve(0, "size"), bound(BindingTypes::SetupValue, Namespace::Setup));
    assert_eq!(helper.options_api_vars.resolve("size"), bound(BindingTypes::Props, Namespace::Props));
}

#[test]
fn scopes_are_checked_for_well_formedness() {
    let mut helper = helper();
    assert!(helper.has_well_formed_scopes());
    helper.template_scopes.push(scope(&["x"], 4));
    assert!(!helper.has_well_formed_scopes());
    // The walk ends at a scope that is its own parent
    assert!(helper.find_in_scopes(4, "x"));
    assert!(!helper.find_in_scopes(4, "item"));
    assert!(ScopeHelper::default().has_well_formed_scopes());
}

#[test]
fn transform_reads_bindings_from_their_namespaces() {
    let helper = helper();
    assert_eq!(rewritten("foo", &helper, 0), ("_ctx.foo".to_owned(), true));
    assert_eq!(rewritten("count", &helper, 0), ("$setup.count".to_owned(), true));
    assert_eq!(rewritten("title", &helper, 0), ("$props.title".to_owned(), true));
    assert_eq!(rewritten("items", &helper, 0), ("$data.items".to_owned(), true));
    assert_eq!(rewritten("total", &helper, 0), ("$options.total".to_owned(), true));
    assert_eq!(rewritten("LIMIT", &helper, 0), ("LIMIT".to_owned(), false));
    assert_eq!(rewritten("undefined", &helper, 0), ("undefined".to_owned(), false));
    assert_eq!(rewritten("item", &helper, 1), ("item".to_owned(), true));
    assert_eq!(rewritten("item", &helper, 0), ("_ctx.item".to_owned(), true));
    assert_eq!(rewritten("42", &helper, 0), ("42".to_owned(), false));
}

#[test]
fn transform_looks_into_operations_members_and_calls() {
    let helper = helper();
    assert_eq!(
        rewritten("item.name + count * LIMIT", &helper, 2),
        ("item.name+$setup.count*LIMIT".to_owned(), true)
    );
    // The property of a member access is no reference
    assert_eq!(rewritten("foo.count", &helper, 0), ("_ctx.foo.count".to_owned(), true));
    assert_eq!(
        rewritten("submit(items, ...rest, 1)", &helper, 0),
        ("$options.submit($data.items,..._ctx.rest,1)".to_owned(), true)
    );
    assert_eq!(
        rewritten("!(size ? title : theme)", &helper, 0),
        ("!($props.size?$props.title:$options.theme)".to_owned(), true)
    );
    assert_eq!(rewritten("LIMIT + 1", &helper, 0), ("LIMIT+1".to_owned(), false));
    assert_eq!(rewritten("Math.max(LIMIT, 2)", &helper, 0), ("Math.max(LIMIT,2)".to_owned(), false));
    assert_eq!(
        rewritten("JSON.stringify(items) + parseInt(size)", &helper, 0),
        ("JSON.stringify($data.items)+parseInt($props.size)".to_owned(), true)
    );
}

#[test]
fn transform_looks_into_lists_and_objects() {
    let helper = helper();
    assert_eq!(rewritten("items[index]", &helper, 1), ("$data.items[index]".to_owned(), true));
    assert_eq!(
        rewritten("[size, , ...items, LIMIT, 'text']", &helper, 0),
        ("[$props.size,,...$data.items,LIMIT,\"text\"]".to_owned(), true)
    );
    assert_eq!(rewritten("[LIMIT, 1]", &helper, 0), ("[LIMIT,1]".to_owned(), false));
    assert_eq!(rewritten("(foo, LIMIT)", &helper, 0), ("(_ctx.foo,LIMIT)".to_owned(), true));
    // A key is no reference; a shorthand is one
    assert_eq!(
        rewritten("{ active: count, size, ...theme, 'quoted': total, [LIMIT]: 1 }", &helper, 0),
        (r#"{active:$setup.count,size:$props.size,...$options.theme,"quoted":$options.total,[LIMIT]:1}"#
            .to_owned(), true)
    );
    assert_eq!(rewritten("{ a: 1, b: LIMIT }", &helper, 0), ("{a:1,b:LIMIT}".to_owned(), false));
    assert_eq!(
        rewritten("user?.profile.name", &helper, 0),
        ("_ctx.user?.profile.name".to_owned(), true)
    );
    assert_eq!(
        rewritten("submit?.(items?.[index], LIMIT)", &helper, 1),
        ("$options.submit?.($data.items?.[index],LIMIT)".to_owned(), true)
    );
    assert_eq!(
        rewritten("new Date(items[0]) > new Foo", &helper, 0),
        ("new Date($data.items[0])>new _ctx.Foo".to_owned(), true)
    );
    assert_eq!(rewritten("new Date(LIMIT)", &helper, 0), ("new Date(LIMIT)".to_owned(), false));
    assert_eq!(
        rewritten("`${size}px ${LIMIT}`", &helper, 0),
        ("`${$props.size}px ${LIMIT}`".to_owned(), true)
    );
    assert_eq!(rewritten("`${LIMIT}`", &helper, 0), ("`${LIMIT}`".to_owned(), false));
    // What is not looked into stays as it is, and counts as needing the running component
    assert_eq!(rewritten("tag`a${foo}`", &helper, 0), ("tag`a${foo}`".to_owned(), true));
    assert_eq!(rewritten("this.foo", &helper, 0), ("this.foo".to_owned(), true));
    assert_eq!(rewritten("[1, function() {}]", &helper, 0), ("[1,function(){}]".to_owned(), true));
    assert_eq!(rewritten("[1, 'a', /b/, null, true]", &helper, 0).1, false);
}

#[test]
fn transform_keeps_the_parameters_of_arrow_functions() {
    let helper = helper();
    assert_eq!(rewritten("() => foo", &helper, 0), ("()=>_ctx.foo".to_owned(), true));
    assert_eq!(rewritten("() => LIMIT", &helper, 0), ("()=>LIMIT".to_owned(), false));
    assert_eq!(
        rewritten("items.some(i => i.active && count)", &helper, 0),
        ("$data.items.some(i=>i.active&&$setup.count)".to_owned(), true)
    );
    // A parameter hides a binding of the same name, inside the function only
    assert_eq!(
        rewritten("[count, (count, x) => count + x + size]", &helper, 0),
        ("[$setup.count,(count,x)=>count+x+$props.size]".to_owned(), true)
    );
    assert_eq!(rewritten("a => b => a + b + c", &helper, 0), ("a=>b=>a+b+_ctx.c".to_owned(), true));
    assert_eq!(rewritten("undefined => undefined", &helper, 0).1, true);
    // Behind other parameters nothing is looked into
    assert_eq!(rewritten("({ a }) => a + foo", &helper, 0), ("({a})=>a+foo".to_owned(), true));
    assert_eq!(rewritten("() => { return foo }", &helper, 0), ("()=>{return _ctx.foo;}".to_owned(), true));
}

#[test]
fn transform_inline_marks_reactive_state() {
    let mut helper = helper();
    helper.transform_mode = TemplateGenerationMode::Inline;
    assert_eq!(rewritten("count", &helper, 0), ("count.value".to_owned(), true));
    assert_eq!(rewritten("items", &helper, 0), ("items.value".to_owned(), true));
    assert_eq!(rewritten("title", &helper, 0), ("title".to_owned(), true));
    assert_eq!(rewritten("helperFn(count)", &helper, 0), ("helperFn(count.value)".to_owned(), true));
    assert_eq!(rewritten("LIMIT", &helper, 0), ("LIMIT".to_owned(), false));
    assert_eq!(rewritten("foo", &helper, 0), ("_ctx.foo".to_owned(), true));
    assert_eq!(rewritten("item", &helper, 1), ("item".to_owned(), true));
}

#[test]
fn transform_is_the_same_on_every_run() {
    let helper = helper();
    let first = rewritten("a ? count : item.b(c)", &helper, 1);
    let second = rewritten("a ? count : item.b(c)", &helper, 1);
    assert_eq!(first, second);
    // Rewriting by value gives what rewriting in place gives
    let (expr, has_js) = transform_expr(parse_js("a ? count : item.b(c)").unwrap(), &helper, 1);
    assert_eq!((CodegenContext::stringify("", &expr, true), has_js), first);
}

#[test]
fn default_mode_is_render_fn() {
    assert_eq!(TemplateGenerationMode::default(), TemplateGenerationMode::RenderFn);
    assert_eq!(ScopeHelper::default().transform_mode, TemplateGenerationMode::RenderFn);
}

#[test]
fn parse_reads_what_it_models_and_keeps_the_rest() {
    assert_eq!(parse_js("foo"), Some(Expression::Ident("foo".to_owned())));
    assert_eq!(
        parse_js("a.b"),
        Some(Expression::Member {
            obj: Box::new(Expression::Ident("a".to_owned())),
            prop: "b".to_owned()
        })
    );
    assert!(matches!(parse_js("(a)"), Some(Expression::Paren(_))));
    assert!(matches!(parse_js("a ? b : c"), Some(Expression::Cond { .. })));
    assert!(matches!(parse_js("f(a)"), Some(Expression::Call { .. })));
    assert!(matches!(parse_js("!a"), Some(Expression::Unary { .. })));
    assert!(matches!(parse_js("a || b"), Some(Expression::Bin { .. })));
    assert!(matches!(parse_js("[a]"), Some(Expression::Array(_))));
    assert!(matches!(parse_js("a[b]"), Some(Expression::Index { .. })));
    assert!(matches!(parse_js("a, b"), Some(Expression::Sequence(_))));
    assert!(matches!(parse_js("{ a: b }"), Some(Expression::Object(_))));
    assert!(matches!(parse_js("a?.b"), Some(Expression::OptChain { optional: true, .. })));
    assert!(matches!(parse_js("a?.b.c"), Some(Expression::OptChain { optional: false, .. })));
    assert!(matches!(parse_js("1"), Some(Expression::Literal(_))));
    assert!(matches!(parse_js("'text'"), Some(Expression::Literal(_))));
    assert!(matches!(parse_js("/a+/g"), Some(Expression::Literal(_))));
    assert!(matches!(parse_js("() => a"), Some(Expression::Arrow(_))));
    assert!(matches!(parse_js("function() {}"), Some(Expression::Raw(_))));
    assert!(matches!(parse_js("new A()"), Some(Expression::New { args: Some(_), .. })));
    assert!(matches!(parse_js("new A"), Some(Expression::New { args: None, .. })));
    assert!(matches!(parse_js("a = b"), Some(Expression::Assign { .. })));
    assert!(matches!(parse_js("a.b += c"), Some(Expression::Assign { .. })));
    assert!(matches!(parse_js("[a] = b"), Some(Expression::Raw(_))));
    assert!(matches!(parse_js("a++"), Some(Expression::Update { prefix: false, .. })));
    assert!(matches!(parse_js("--a"), Some(Expression::Update { prefix: true, .. })));
    assert!(matches!(parse_js("await a"), Some(Expression::Await(_))));
    assert!(matches!(parse_js("this"), Some(Expression::Raw(_))));
    assert_eq!(parse_js("a +"), None);
    assert_eq!(parse_js(""), None);
}

#[test]
fn transform_looks_into_assignments_updates_and_await() {
    let helper = helper();
    assert_eq!(rewritten("count = size + 1", &helper, 0), ("$setup.count=$props.size+1".to_owned(), true));
    assert_eq!(rewritten("foo.bar.baz ||= item", &helper, 1), ("_ctx.foo.bar.baz||=item".to_owned(), true));
    assert_eq!(rewritten("items[index] = inner", &helper, 2), ("$data.items[index]=inner".to_owned(), true));
    assert_eq!(rewritten("count++", &helper, 0), ("$setup.count++".to_owned(), true));
    assert_eq!(rewritten("--items.length", &helper, 0), ("--$data.items.length".to_owned(), true));
    assert_eq!(rewritten("await submit(total)", &helper, 0), ("await $options.submit($options.total)".to_owned(), true));
    assert_eq!(rewritten("() => (count = LIMIT)", &helper, 0), ("()=>($setup.count=LIMIT)".to_owned(), true));
    assert_eq!(rewritten("(x) => x++", &helper, 0), ("x=>x++".to_owned(), true));
    // A target that is taken apart is kept as it was read
    assert_eq!(rewritten("[count] = items", &helper, 0), ("[count]=items".to_owned(), true));

    let mut inline = self::helper();
    inline.transform_mode = TemplateGenerationMode::Inline;
    assert_eq!(rewritten("count = LIMIT", &inline, 0), ("count.value=LIMIT".to_owned(), true));
    assert_eq!(rewritten("count++", &inline, 0), ("count.value++".to_owned(), true));
}

#[test]
fn transform_looks_into_plain_blocks_of_arrow_functions() {
    let helper = helper();
    assert_eq!(
        rewritten("() => { count++; submit(total) }", &helper, 0),
        ("()=>{$setup.count++;$options.submit($options.total);}".to_owned(), true)
    );
    assert_eq!(
        rewritten("(item) => { return item + count }", &helper, 0),
        ("item=>{return item+$setup.count;}".to_owned(), true)
    );
    assert_eq!(rewritten("() => { return }", &helper, 0), ("()=>{return;}".to_owned(), false));
    assert_eq!(rewritten("() => { LIMIT }", &helper, 0), ("()=>{LIMIT;}".to_owned(), false));
    assert_eq!(rewritten("() => {}", &helper, 0), ("()=>{}".to_owned(), false));
    // A block that holds any other statement stays as it was read
    assert_eq!(
        rewritten("() => { const a = count; return a + size }", &helper, 0),
        ("()=>{const a=count;return a+size;}".to_owned(), true)
    );
    assert_eq!(
        rewritten("() => { if (count) { submit() } }", &helper, 0),
        ("()=>{if(count){submit();}}".to_owned(), true)
    );
}
