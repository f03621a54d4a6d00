//! The syntax tree of the script language, as far as the compiler reads or
//! builds it. Whatever it does not look into is carried as a `Raw` node.
//!
//! Every type has a view: the same tree with strings as `Seq<char>` and
//! vectors as `Seq`. Contracts are stated over views.

use vstd::prelude::*;
use swc_core::ecma::ast::AssignOp;
use swc_core::ecma::ast::BinaryOp;
use swc_core::ecma::ast::UnaryOp;
use swc_core::ecma::ast::UpdateOp;

verus! {

/// An expression.
#[derive(Debug, PartialEq)]
#[allow(inconsistent_fields)]
pub enum Expression {
    /// A reference to an identifier.
    Ident(String),
    /// A string literal; `raw` is its source form, when it came from source.
    Str { value: String, raw: Option<String> },
    /// `true` or `false`.
    Bool(bool),
    /// `null`.
    Null,
    /// Any other literal, or a string literal as the source has it.
    Literal(Box<swc_core::ecma::ast::Expr>),
    /// `obj.prop`.
    Member { obj: Box<Expression>, prop: String },
    /// `obj[index]`.
    Index { obj: Box<Expression>, index: Box<Expression> },
    /// `callee(args)`.
    Call { callee: Box<Expression>, args: Vec<ExprOrSpread> },
    /// `new callee(args)`, or `new callee` where `args` is `None`.
    New { callee: Box<Expression>, args: Option<Vec<ExprOrSpread>> },
    /// A link of an optional chain: the member access or call `base`, which
    /// is skipped where what it starts from is missing; `optional` where the
    /// `?.` stands at this link. A `base` of any other form stands for
    /// itself.
    OptChain { optional: bool, base: Box<Expression> },
    /// `op arg`.
    Unary { op: UnaryOp, arg: Box<Expression> },
    /// `left op right`, an assignment to a name or to a member.
    Assign { op: AssignOp, left: Box<Expression>, right: Box<Expression> },
    /// `op arg` where `prefix`, else `arg op`.
    Update { op: UpdateOp, prefix: bool, arg: Box<Expression> },
    /// `await arg`.
    Await(Box<Expression>),
    /// `left op right`.
    Bin { op: BinaryOp, left: Box<Expression>, right: Box<Expression> },
    /// `test ? cons : alt`.
    Cond { test: Box<Expression>, cons: Box<Expression>, alt: Box<Expression> },
    /// `(expr)`.
    Paren(Box<Expression>),
    /// `a, b, c`.
    Sequence(Vec<Expression>),
    /// `[elems]`; a hole is `None`.
    Array(Vec<Option<ExprOrSpread>>),
    /// `{ props }`.
    Object(ObjectLit),
    /// `function (params) { body }`.
    Fn(Function),
    /// `(params) => body`.
    Arrow(ArrowExpr),
    /// A template literal.
    Tpl(Tpl),
    /// The placeholder for an expression that could not be read.
    Invalid,
    /// Any other expression, which may hold anything.
    Raw(Box<swc_core::ecma::ast::Expr>),
}

/// An argument or array element, possibly spread (`...expr`).
#[derive(Debug, PartialEq)]
pub struct ExprOrSpread {
    pub spread: bool,
    pub expr: Expression,
}

/// An object literal.
#[derive(Debug, PartialEq)]
pub struct ObjectLit {
    pub props: Vec<PropOrSpread>,
}

/// One entry of an object literal.
#[derive(Debug, PartialEq)]
pub enum PropOrSpread {
    /// `...expr`.
    Spread(Expression),
    /// A property of the object itself.
    Prop(Property),
}

/// A property of an object literal.
#[derive(Debug, PartialEq)]
pub enum Property {
    /// `key: value`.
    KeyValue { key: PropertyName, value: Expression },
    /// `key(params) { body }`.
    Method { key: PropertyName, function: Function },
    /// Any other property (shorthand, getter, setter).
    Raw(Box<swc_core::ecma::ast::Prop>),
}

/// The name of a property.
#[derive(Debug, PartialEq)]
pub enum PropertyName {
    /// `name`.
    Ident(String),
    /// `"name"`: the name, and its source form where it has one.
    Str { value: String, raw: Option<String> },
    /// Any other name (numeric, computed).
    Raw(Box<swc_core::ecma::ast::PropName>),
}

/// A function: its parameters and its body.
#[derive(Debug, PartialEq)]
pub struct Function {
    pub params: Vec<Pattern>,
    pub body: Option<BlockStmt>,
    pub is_async: bool,
    pub is_generator: bool,
}

/// An arrow function.
#[derive(Debug, PartialEq)]
pub struct ArrowExpr {
    pub params: Vec<Pattern>,
    pub body: BlockStmtOrExpr,
    pub is_async: bool,
}

/// The body of an arrow function.
#[derive(Debug, PartialEq)]
pub enum BlockStmtOrExpr {
    /// `=> { stmts }`.
    BlockStmt(BlockStmt),
    /// `=> expr`.
    Expr(Box<Expression>),
}

/// A parameter.
#[derive(Debug, PartialEq)]
pub enum Pattern {
    /// A plain name.
    Ident(String),
    /// Any other pattern.
    Raw(Box<swc_core::ecma::ast::Pat>),
}

/// A block of statements.
#[derive(Debug, PartialEq)]
pub struct BlockStmt {
    pub stmts: Vec<Statement>,
}

/// A statement.
#[derive(Debug, PartialEq)]
pub enum Statement {
    /// `return arg;`.
    Return(Option<Expression>),
    /// `expr;`.
    Expr(Expression),
    /// Any other statement.
    Raw(Box<swc_core::ecma::ast::Stmt>),
}

/// A template literal: its pieces of text, as `swc` has them, and the
/// expressions that stand between them.
#[derive(Debug, PartialEq)]
pub struct Tpl {
    pub quasis: Vec<swc_core::ecma::ast::TplElement>,
    pub exprs: Vec<Expression>,
}

/// The view of an [`Expression`].
#[allow(inconsistent_fields)]
pub ghost enum ExpressionView {
    Ident(Seq<char>),
    Str { value: Seq<char>, raw: Option<Seq<char>> },
    Bool(bool),
    Null,
    Literal(swc_core::ecma::ast::Expr),
    Member { obj: Box<ExpressionView>, prop: Seq<char> },
    Index { obj: Box<ExpressionView>, index: Box<ExpressionView> },
    Call { callee: Box<ExpressionView>, args: Seq<ExprOrSpreadView> },
    New { callee: Box<ExpressionView>, args: Option<Seq<ExprOrSpreadView>> },
    OptChain { optional: bool, base: Box<ExpressionView> },
    Unary { op: UnaryOp, arg: Box<ExpressionView> },
    Assign { op: AssignOp, left: Box<ExpressionView>, right: Box<ExpressionView> },
    Update { op: UpdateOp, prefix: bool, arg: Box<ExpressionView> },
    Await(Box<ExpressionView>),
    Bin { op: BinaryOp, left: Box<ExpressionView>, right: Box<ExpressionView> },
    Cond { test: Box<ExpressionView>, cons: Box<ExpressionView>, alt: Box<ExpressionView> },
    Paren(Box<ExpressionView>),
    Sequence(Seq<ExpressionView>),
    Array(Seq<Option<ExprOrSpreadView>>),
    Object(ObjectLitView),
    Fn(FunctionView),
    Arrow(ArrowExprView),
    Tpl(TplView),
    Invalid,
    Raw(swc_core::ecma::ast::Expr),
}

/// The view of a [`Tpl`].
pub ghost struct TplView {
    pub quasis: Seq<swc_core::ecma::ast::TplElement>,
    pub exprs: Seq<ExpressionView>,
}

/// The view of an [`ExprOrSpread`].
pub ghost struct ExprOrSpreadView {
    pub spread: bool,
    pub expr: ExpressionView,
}

/// The view of an [`ObjectLit`].
pub ghost struct ObjectLitView {
    pub props: Seq<PropOrSpreadView>,
}

/// The view of a [`PropOrSpread`].
pub ghost enum PropOrSpreadView {
    Spread(ExpressionView),
    Prop(PropertyView),
}

/// The view of a [`Property`].
pub ghost enum PropertyView {
    KeyValue { key: PropertyNameView, value: ExpressionView },
    Method { key: PropertyNameView, function: FunctionView },
    Raw(swc_core::ecma::ast::Prop),
}

/// The view of a [`PropertyName`].
pub ghost enum PropertyNameView {
    Ident(Seq<char>),
    Str { value: Seq<char>, raw: Option<Seq<char>> },
    Raw(swc_core::ecma::ast::PropName),
}

/// The view of a [`Function`].
pub ghost struct FunctionView {
    pub params: Seq<PatternView>,
    pub body: Option<BlockStmtView>,
    pub is_async: bool,
    pub is_generator: bool,
}

/// The view of an [`ArrowExpr`].
pub ghost struct ArrowExprView {
    pub params: Seq<PatternView>,
    pub body: BlockStmtOrExprView,
    pub is_async: bool,
}

/// The view of a [`BlockStmtOrExpr`].
pub ghost enum BlockStmtOrExprView {
    BlockStmt(BlockStmtView),
    Expr(Box<ExpressionView>),
}

/// The view of a [`Pattern`].
pub ghost enum PatternView {
    Ident(Seq<char>),
    Raw(swc_core::ecma::ast::Pat),
}

/// The view of a [`BlockStmt`].
pub ghost struct BlockStmtView {
    pub stmts: Seq<StatementView>,
}

/// The view of a [`Statement`].
pub ghost enum StatementView {
    Return(Option<ExpressionView>),
    Expr(ExpressionView),
    Raw(swc_core::ecma::ast::Stmt),
}

impl Expression {
    /// The tree that this value stands for.
    pub open spec fn model(&self) -> ExpressionView
        decreases self,
    {
        match self {
            Expression::Ident(name) => ExpressionView::Ident(name@),
            Expression::Str { value, raw } => ExpressionView::Str {
                value: value@,
                raw: match raw {
                    Some(r) => Some(r@),
                    None => None,
                },
            },
            Expression::Bool(b) => ExpressionView::Bool(*b),
            Expression::Null => ExpressionView::Null,
            Expression::Literal(raw) => ExpressionView::Literal(**raw),
            Expression::Member { obj, prop } => ExpressionView::Member {
                obj: Box::new(obj.model()),
                prop: prop@,
            },
            Expression::Index { obj, index } => ExpressionView::Index {
                obj: Box::new(obj.model()),
                index: Box::new(index.model()),
            },
            Expression::Call { callee, args } => ExpressionView::Call {
                callee: Box::new(callee.model()),
                args: Seq::new(
                    args.len() as nat,
                    |i: int|
                        if 0 <= i < args.len() {
                            args[i].model()
                        } else {
                            arbitrary()
                        },
                ),
            },
            Expression::New { callee, args } => ExpressionView::New {
                callee: Box::new(callee.model()),
                args: match args {
                    Some(args) => Some(
                        Seq::new(
                            args.len() as nat,
                            |i: int|
                                if 0 <= i < args.len() {
                                    args[i].model()
                                } else {
                                    arbitrary()
                                },
                        ),
                    ),
                    None => None,
                },
            },
            Expression::OptChain { optional, base } => ExpressionView::OptChain {
                optional: *optional,
                base: Box::new(base.model()),
            },
            Expression::Unary { op, arg } => ExpressionView::Unary {
                op: *op,
                arg: Box::new(arg.model()),
            },
            Expression::Bin { op, left, right } => ExpressionView::Bin {
                op: *op,
                left: Box::new(left.model()),
                right: Box::new(right.model()),
            },
            Expression::Cond { test, cons, alt } => ExpressionView::Cond {
                test: Box::new(test.model()),
                cons: Box::new(cons.model()),
                alt: Box::new(alt.model()),
            },
            Expression::Paren(inner) => ExpressionView::Paren(Box::new(inner.model())),
            Expression::Assign { op, left, right } => ExpressionView::Assign {
                op: *op,
                left: Box::new(left.model()),
                right: Box::new(right.model()),
            },
            Expression::Update { op, prefix, arg } => ExpressionView::Update {
                op: *op,
                prefix: *prefix,
                arg: Box::new(arg.model()),
            },
            Expression::Await(arg) => ExpressionView::Await(Box::new(arg.model())),
            Expression::Sequence(exprs) => ExpressionView::Sequence(
                Seq::new(
                    exprs.len() as nat,
                    |i: int|
                        if 0 <= i < exprs.len() {
                            exprs[i].model()
                        } else {
                            arbitrary()
                        },
                ),
            ),
            Expression::Array(elems) => ExpressionView::Array(
                Seq::new(
                    elems.len() as nat,
                    |i: int|
                        if 0 <= i < elems.len() {
                            match elems[i] {
                                Some(e) => Some(e.model()),
                                None => None,
                            }
                        } else {
                            arbitrary()
                        },
                ),
            ),
            Expression::Object(obj) => ExpressionView::Object(obj.model()),
            Expression::Fn(function) => ExpressionView::Fn(function.model()),
            Expression::Arrow(arrow) => ExpressionView::Arrow(arrow.model()),
            Expression::Tpl(tpl) => ExpressionView::Tpl(tpl.model()),
            Expression::Invalid => ExpressionView::Invalid,
            Expression::Raw(raw) => ExpressionView::Raw(**raw),
        }
    }
}

impl Tpl {
    /// The tree that this value stands for.
    pub open spec fn model(&self) -> TplView
        decreases self,
    {
        TplView {
            quasis: self.quasis@,
            exprs: Seq::new(
                self.exprs.len() as nat,
                |i: int|
                    if 0 <= i < self.exprs.len() {
                        self.exprs[i].model()
                    } else {
                        arbitrary()
                    },
            ),
        }
    }
}

impl ExprOrSpread {
    /// The tree that this value stands for.
    pub open spec fn model(&self) -> ExprOrSpreadView
        decreases self,
    {
        ExprOrSpreadView { spread: self.spread, expr: self.expr.model() }
    }
}

impl ObjectLit {
    /// The tree that this value stands for.
    pub open spec fn model(&self) -> ObjectLitView
        decreases self,
    {
        ObjectLitView {
            props: Seq::new(
                self.props.len() as nat,
                |i: int|
                    if 0 <= i < self.props.len() {
                        self.props[i].model()
                    } else {
                        arbitrary()
                    },
            ),
        }
    }
}

impl PropOrSpread {
    /// The tree that this value stands for.
    pub open spec fn model(&self) -> PropOrSpreadView
        decreases self,
    {
        match self {
            PropOrSpread::Spread(expr) => PropOrSpreadView::Spread(expr.model()),
            PropOrSpread::Prop(prop) => PropOrSpreadView::Prop(prop.model()),
        }
    }
}

impl Property {
    /// The tree that this value stands for.
    pub open spec fn model(&self) -> PropertyView
        decreases self,
    {
        match self {
            Property::KeyValue { key, value } => PropertyView::KeyValue {
                key: key.model(),
                value: value.model(),
            },
            Property::Method { key, function } => PropertyView::Method {
                key: key.model(),
                function: function.model(),
            },
            Property::Raw(raw) => PropertyView::Raw(**raw),
        }
    }
}

impl PropertyName {
    /// The tree that this value stands for.
    pub open spec fn model(&self) -> PropertyNameView {
        match self {
            PropertyName::Ident(name) => PropertyNameView::Ident(name@),
            PropertyName::Str { value, raw } => PropertyNameView::Str {
                value: value@,
                raw: match raw {
                    Some(r) => Some(r@),
                    None => None,
                },
            },
            PropertyName::Raw(raw) => PropertyNameView::Raw(**raw),
        }
    }
}

impl Pattern {
    /// The tree that this value stands for.
    pub open spec fn model(&self) -> PatternView {
        match self {
            Pattern::Ident(name) => PatternView::Ident(name@),
            Pattern::Raw(raw) => PatternView::Raw(**raw),
        }
    }
}

impl Function {
    /// The tree that this value stands for.
    pub open spec fn model(&self) -> FunctionView
        decreases self,
    {
        FunctionView {
            params: self.params@.map_values(|p: Pattern| p.model()),
            body: match self.body {
                Some(body) => Some(body.model()),
                None => None,
            },
            is_async: self.is_async,
            is_generator: self.is_generator,
        }
    }
}

impl ArrowExpr {
    /// The tree that this value stands for.
    pub open spec fn model(&self) -> ArrowExprView
        decreases self,
    {
        ArrowExprView {
            params: self.params@.map_values(|p: Pattern| p.model()),
            body: self.body.model(),
            is_async: self.is_async,
        }
    }
}

impl BlockStmtOrExpr {
    /// The tree that this value stands for.
    pub open spec fn model(&self) -> BlockStmtOrExprView
        decreases self,
    {
        match self {
            BlockStmtOrExpr::BlockStmt(block) => BlockStmtOrExprView::BlockStmt(block.model()),
            BlockStmtOrExpr::Expr(expr) => BlockStmtOrExprView::Expr(Box::new(expr.model())),
        }
    }
}

impl BlockStmt {
    /// The tree that this value stands for.
    pub open spec fn model(&self) -> BlockStmtView
        decreases self,
    {
        BlockStmtView {
            stmts: Seq::new(
                self.stmts.len() as nat,
                |i: int|
                    if 0 <= i < self.stmts.len() {
                        self.stmts[i].model()
                    } else {
                        arbitrary()
                    },
            ),
        }
    }
}

impl Statement {
    /// The tree that this value stands for.
    pub open spec fn model(&self) -> StatementView
        decreases self,
    {
        match self {
            Statement::Return(arg) => StatementView::Return(
                match arg {
                    Some(expr) => Some(expr.model()),
                    None => None,
                },
            ),
            Statement::Expr(expr) => StatementView::Expr(expr.model()),
            Statement::Raw(raw) => StatementView::Raw(**raw),
        }
    }
}

/// The views of a sequence of arguments.
pub open spec fn args_view(args: Seq<ExprOrSpread>) -> Seq<ExprOrSpreadView> {
    Seq::new(args.len(), |i: int| args[i]@)
}

/// The views of arguments that may be missing.
pub open spec fn opt_args_view(args: Option<Vec<ExprOrSpread>>) -> Option<Seq<ExprOrSpreadView>> {
    match args {
        Some(args) => Some(args_view(args@)),
        None => None,
    }
}

/// The views of a sequence of expressions.
pub open spec fn exprs_view(exprs: Seq<Expression>) -> Seq<ExpressionView> {
    Seq::new(exprs.len(), |i: int| exprs[i]@)
}

/// The views of the elements of an array literal.
pub open spec fn elems_view(elems: Seq<Option<ExprOrSpread>>) -> Seq<Option<ExprOrSpreadView>> {
    Seq::new(
        elems.len(),
        |i: int|
            match elems[i] {
                Some(e) => Some(e@),
                None => None,
            },
    )
}

/// The views of the entries of an object literal.
pub open spec fn props_view(props: Seq<PropOrSpread>) -> Seq<PropOrSpreadView> {
    Seq::new(props.len(), |i: int| props[i]@)
}

/// The views of a sequence of statements.
pub open spec fn stmts_view(stmts: Seq<Statement>) -> Seq<StatementView> {
    Seq::new(stmts.len(), |i: int| stmts[i]@)
}

/// The views of a sequence of parameters.
pub open spec fn params_view(params: Seq<Pattern>) -> Seq<PatternView> {
    params.map_values(|p: Pattern| p@)
}

impl ObjectLit {
    /// The object literal with these entries.
    pub fn new(props: Vec<PropOrSpread>) -> (obj: ObjectLit)
        ensures
            obj@ == (ObjectLitView { props: props_view(props@) }),
            obj.props == props,
    {
        let obj = ObjectLit { props };
        assert(obj@.props =~= props_view(obj.props@));
        obj
    }
}

impl BlockStmt {
    /// The block that holds these statements.
    pub fn new(stmts: Vec<Statement>) -> (block: BlockStmt)
        ensures
            block@ == (BlockStmtView { stmts: stmts_view(stmts@) }),
            block.stmts == stmts,
    {
        let block = BlockStmt { stmts };
        assert(block@.stmts =~= stmts_view(block.stmts@));
        block
    }
}

impl ExprOrSpread {
    /// `expr` as an argument that is not spread.
    pub fn plain(expr: Expression) -> (arg: ExprOrSpread)
        ensures
            arg@ == (ExprOrSpreadView { spread: false, expr: expr@ }),
    {
        ExprOrSpread { spread: false, expr }
    }
}

impl PropOrSpread {
    /// The property `key: value`.
    pub fn key_value(key: PropertyName, value: Expression) -> (prop: PropOrSpread)
        ensures
            prop@ == PropOrSpreadView::Prop(PropertyView::KeyValue { key: key@, value: value@ }),
    {
        PropOrSpread::Prop(Property::KeyValue { key, value })
    }

    /// The method `key(params) { body }`.
    pub fn method(key: PropertyName, function: Function) -> (prop: PropOrSpread)
        ensures
            prop@ == PropOrSpreadView::Prop(
                PropertyView::Method { key: key@, function: function@ },
            ),
    {
        PropOrSpread::Prop(Property::Method { key, function })
    }

    /// The spread entry `...expr`.
    pub fn spread(expr: Expression) -> (prop: PropOrSpread)
        ensures
            prop@ == PropOrSpreadView::Spread(expr@),
    {
        PropOrSpread::Spread(expr)
    }
}

impl Expression {
    /// The identifier `name`.
    pub fn ident(name: String) -> (expr: Expression)
        ensures
            expr@ == ExpressionView::Ident(name@),
    {
        Expression::Ident(name)
    }

    /// The string literal that holds `value`.
    pub fn string(value: String) -> (expr: Expression)
        ensures
            expr@ == (ExpressionView::Str { value: value@, raw: None }),
    {
        Expression::Str { value, raw: None }
    }

    /// `obj.prop`.
    pub fn member(obj: Expression, prop: String) -> (expr: Expression)
        ensures
            expr@ == (ExpressionView::Member { obj: Box::new(obj@), prop: prop@ }),
    {
        Expression::Member { obj: Box::new(obj), prop }
    }

    /// `obj[index]`.
    pub fn index(obj: Expression, index: Expression) -> (expr: Expression)
        ensures
            expr@ == (ExpressionView::Index { obj: Box::new(obj@), index: Box::new(index@) }),
    {
        Expression::Index { obj: Box::new(obj), index: Box::new(index) }
    }

    /// `callee(args)`.
    pub fn call(callee: Expression, args: Vec<ExprOrSpread>) -> (expr: Expression)
        ensures
            expr@ == (ExpressionView::Call { callee: Box::new(callee@), args: args_view(args@) }),
    {
        let ghost views = args_view(args@);
        let expr = Expression::Call { callee: Box::new(callee), args };
        assert(expr@->Call_args =~= views);
        expr
    }

    /// `new callee(args)`, or `new callee` where `args` is `None`.
    pub fn new_object(callee: Expression, args: Option<Vec<ExprOrSpread>>) -> (expr: Expression)
        ensures
            expr@ == (ExpressionView::New { callee: Box::new(callee@), args: opt_args_view(args) }),
    {
        let ghost views = opt_args_view(args);
        let expr = Expression::New { callee: Box::new(callee), args };
        assert(views is Some ==> expr@->New_args->Some_0 =~= views->Some_0);
        expr
    }

    /// The link `base` of an optional chain.
    pub fn opt_chain(optional: bool, base: Expression) -> (expr: Expression)
        ensures
            expr@ == (ExpressionView::OptChain { optional, base: Box::new(base@) }),
    {
        Expression::OptChain { optional, base: Box::new(base) }
    }

    /// `op arg`.
    pub fn unary(op: UnaryOp, arg: Expression) -> (expr: Expression)
        ensures
            expr@ == (ExpressionView::Unary { op, arg: Box::new(arg@) }),
    {
        Expression::Unary { op, arg: Box::new(arg) }
    }

    /// `left op right`.
    pub fn binary(op: BinaryOp, left: Expression, right: Expression) -> (expr: Expression)
        ensures
            expr@ == (ExpressionView::Bin { op, left: Box::new(left@), right: Box::new(right@) }),
    {
        Expression::Bin { op, left: Box::new(left), right: Box::new(right) }
    }

    /// `test ? cons : alt`.
    pub fn conditional(test: Expression, cons: Expression, alt: Expression) -> (expr: Expression)
        ensures
            expr@ == (ExpressionView::Cond {
                test: Box::new(test@),
                cons: Box::new(cons@),
                alt: Box::new(alt@),
            }),
    {
        Expression::Cond { test: Box::new(test), cons: Box::new(cons), alt: Box::new(alt) }
    }

    /// `left op right`, an assignment.
    pub fn assign(op: AssignOp, left: Expression, right: Expression) -> (expr: Expression)
        ensures
            expr@ == (ExpressionView::Assign { op, left: Box::new(left@), right: Box::new(right@) }),
    {
        Expression::Assign { op, left: Box::new(left), right: Box::new(right) }
    }

    /// `op arg` where `prefix`, else `arg op`.
    pub fn update(op: UpdateOp, prefix: bool, arg: Expression) -> (expr: Expression)
        ensures
            expr@ == (ExpressionView::Update { op, prefix, arg: Box::new(arg@) }),
    {
        Expression::Update { op, prefix, arg: Box::new(arg) }
    }

    /// `await arg`.
    pub fn awaited(arg: Expression) -> (expr: Expression)
        ensures
            expr@ == ExpressionView::Await(Box::new(arg@)),
    {
        Expression::Await(Box::new(arg))
    }

    /// `(inner)`.
    pub fn paren(inner: Expression) -> (expr: Expression)
        ensures
            expr@ == ExpressionView::Paren(Box::new(inner@)),
    {
        Expression::Paren(Box::new(inner))
    }

    /// `[elems]`.
    pub fn array(elems: Vec<Option<ExprOrSpread>>) -> (expr: Expression)
        ensures
            expr@ == ExpressionView::Array(elems_view(elems@)),
    {
        let ghost views = elems_view(elems@);
        let expr = Expression::Array(elems);
        assert(expr@->Array_0 =~= views);
        expr
    }

    /// The object literal `obj` as an expression.
    pub fn object(obj: ObjectLit) -> (expr: Expression)
        ensures
            expr@ == ExpressionView::Object(obj@),
    {
        Expression::Object(obj)
    }

    /// `(params) => body`.
    pub fn arrow(params: Vec<Pattern>, body: BlockStmtOrExpr, is_async: bool) -> (expr: Expression)
        ensures
            expr@ == ExpressionView::Arrow(
                ArrowExprView { params: params_view(params@), body: body@, is_async },
            ),
    {
        let ghost views = params_view(params@);
        let arrow = ArrowExpr { params, body, is_async };
        assert(arrow@.params =~= views);
        Expression::Arrow(arrow)
    }

    /// The template literal with these pieces of text and these
    /// expressions between them.
    pub fn template(quasis: Vec<swc_core::ecma::ast::TplElement>, exprs: Vec<Expression>) -> (expr:
        Expression)
        ensures
            expr@ == ExpressionView::Tpl(TplView { quasis: quasis@, exprs: exprs_view(exprs@) }),
    {
        let ghost views = exprs_view(exprs@);
        let tpl = Tpl { quasis, exprs };
        assert(tpl@.exprs =~= views);
        Expression::Tpl(tpl)
    }

    /// `a, b, c`.
    pub fn sequence(exprs: Vec<Expression>) -> (expr: Expression)
        ensures
            expr@ == ExpressionView::Sequence(exprs_view(exprs@)),
    {
        let ghost views = exprs_view(exprs@);
        let expr = Expression::Sequence(exprs);
        assert(expr@->Sequence_0 =~= views);
        expr
    }
}

impl View for Expression {
    type V = ExpressionView;

    open spec fn view(&self) -> ExpressionView {
        self.model()
    }
}

impl View for Tpl {
    type V = TplView;

    open spec fn view(&self) -> TplView {
        self.model()
    }
}

impl View for ExprOrSpread {
    type V = ExprOrSpreadView;

    open spec fn view(&self) -> ExprOrSpreadView {
        self.model()
    }
}

impl View for ObjectLit {
    type V = ObjectLitView;

    open spec fn view(&self) -> ObjectLitView {
        self.model()
    }
}

impl View for PropOrSpread {
    type V = PropOrSpreadView;

    open spec fn view(&self) -> PropOrSpreadView {
        self.model()
    }
}

impl View for Property {
    type V = PropertyView;

    open spec fn view(&self) -> PropertyView {
        self.model()
    }
}

impl View for PropertyName {
    type V = PropertyNameView;

    open spec fn view(&self) -> PropertyNameView {
        self.model()
    }
}

impl View for Pattern {
    type V = PatternView;

    open spec fn view(&self) -> PatternView {
        self.model()
    }
}

impl View for Function {
    type V = FunctionView;

    open spec fn view(&self) -> FunctionView {
        self.model()
    }
}

impl View for ArrowExpr {
    type V = ArrowExprView;

    open spec fn view(&self) -> ArrowExprView {
        self.model()
    }
}

impl View for BlockStmtOrExpr {
    type V = BlockStmtOrExprView;

    open spec fn view(&self) -> BlockStmtOrExprView {
        self.model()
    }
}

impl View for BlockStmt {
    type V = BlockStmtView;

    open spec fn view(&self) -> BlockStmtView {
        self.model()
    }
}

impl View for Statement {
    type V = StatementView;

    open spec fn view(&self) -> StatementView {
        self.model()
    }
}

} // verus!
