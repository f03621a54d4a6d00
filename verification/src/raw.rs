//! The boundary with `swc`, which reads and writes the text. Its node
//! types are carried through as opaque values, and every call into `swc`
//! is made here, in four kinds of small functions whose bodies are not
//! verified:
//!
//! - `parse_raw` reads text into an `swc` expression;
//! - the `peel` functions take the outermost node off an `swc` value and
//!   hand its fields on, one for one;
//! - the `build` functions put an `swc` value together from its fields;
//! - the `emit` functions write an `swc` value out as text.
//!
//! What each of them claims is that its result is the same for the same
//! arguments: the result has a name, a function without a body. Of the
//! copies that `swc` makes of its own values it is said that they equal
//! what they were made from.
//!
//! One property of `swc` values has a name too, `well_formed`: the value
//! holds none of the few malformed nodes at which the emitter stops the
//! program. It is claimed of what the parser returns for a text with
//! plain chains, the `peel` functions hand it down from a node to its
//! parts, and the `emit` functions take only what a writable tree stands
//! for.

use vstd::prelude::*;
use swc_core::common::DUMMY_SP;
use swc_core::common::FileName;
use swc_core::common::SourceMap;
use swc_core::common::sync::Lrc;
use swc_core::ecma::ast::ArrayLit;
use swc_core::ecma::ast::ArrowExpr as RawArrowExpr;
use swc_core::ecma::ast::ArrowFunctionBody;
use swc_core::ecma::ast::AssignExpr;
use swc_core::ecma::ast::AssignOp;
use swc_core::ecma::ast::AssignTarget;
use swc_core::ecma::ast::AwaitExpr;
use swc_core::ecma::ast::BinaryOp;
use swc_core::ecma::ast::BindingIdent;
use swc_core::ecma::ast::BinExpr;
use swc_core::ecma::ast::Bool;
use swc_core::ecma::ast::Callee;
use swc_core::ecma::ast::CallExpr;
use swc_core::ecma::ast::ComputedPropName;
use swc_core::ecma::ast::CondExpr;
use swc_core::ecma::ast::DefaultDecl;
use swc_core::ecma::ast::EsVersion;
use swc_core::ecma::ast::ExportDefaultDecl;
use swc_core::ecma::ast::ExportDefaultExpr;
use swc_core::ecma::ast::Expr as RawExpr;
use swc_core::ecma::ast::ExprOrSpread as RawExprOrSpread;
use swc_core::ecma::ast::ExprStmt;
use swc_core::ecma::ast::FnExpr;
use swc_core::ecma::ast::Function as RawFunction;
use swc_core::ecma::ast::FunctionBody;
use swc_core::ecma::ast::Ident;
use swc_core::ecma::ast::IdentName;
use swc_core::ecma::ast::ImportDecl as RawImportDecl;
use swc_core::ecma::ast::ImportDefaultSpecifier;
use swc_core::ecma::ast::ImportNamedSpecifier;
use swc_core::ecma::ast::ImportSpecifier as RawImportSpecifier;
use swc_core::ecma::ast::ImportStarAsSpecifier;
use swc_core::ecma::ast::Invalid;
use swc_core::ecma::ast::KeyValueProp;
use swc_core::ecma::ast::Lit;
use swc_core::ecma::ast::MemberExpr;
use swc_core::ecma::ast::MemberProp;
use swc_core::ecma::ast::MethodProp;
use swc_core::ecma::ast::Module as RawModule;
use swc_core::ecma::ast::ModuleDecl as RawModuleDecl;
use swc_core::ecma::ast::ModuleExportName;
use swc_core::ecma::ast::ModuleItem as RawModuleItem;
use swc_core::ecma::ast::NewExpr;
use swc_core::ecma::ast::Null;
use swc_core::ecma::ast::ObjectLit as RawObjectLit;
use swc_core::ecma::ast::OptCall;
use swc_core::ecma::ast::OptChainBase;
use swc_core::ecma::ast::OptChainExpr;
use swc_core::ecma::ast::ParenExpr;
use swc_core::ecma::ast::Pat as RawPat;
use swc_core::ecma::ast::Prop as RawProp;
use swc_core::ecma::ast::PropName as RawPropName;
use swc_core::ecma::ast::PropOrSpread as RawPropOrSpread;
use swc_core::ecma::ast::ReturnStmt;
use swc_core::ecma::ast::SeqExpr;
use swc_core::ecma::ast::SimpleAssignTarget;
use swc_core::ecma::ast::SpreadElement;
use swc_core::ecma::ast::Stmt as RawStmt;
use swc_core::ecma::ast::Str;
use swc_core::ecma::ast::Tpl as RawTpl;
use swc_core::ecma::ast::TplElement as RawTplElement;
use swc_core::ecma::ast::UnaryExpr;
use swc_core::ecma::ast::UnaryOp;
use swc_core::ecma::ast::UpdateExpr;
use swc_core::ecma::ast::UpdateOp;
use swc_core::ecma::parser::parse_file_as_expr;
use swc_core::ecma::parser::Syntax;
use swc_ecma_codegen::Config;
use swc_ecma_codegen::Emitter;
use swc_ecma_codegen::Node;
use swc_ecma_codegen::text_writer::JsWriter;
use crate::ast::Expression;
use crate::lower::lowered;
use crate::lower::lowered_items;
use crate::module::ImportName;
use crate::module::ImportNameView;
use crate::module::Module;
use crate::writable::writable;
use crate::writable::writable_items;

verus! {

// The `swc` types that are carried through.

/// An `swc` expression node, carried through without being looked into.
#[verifier::external_type_specification]
#[verifier::external_body]
pub struct ExRawExpr(swc_core::ecma::ast::Expr);

/// An `swc` binary operator.
#[verifier::external_type_specification]
#[verifier::external_body]
pub struct ExBinaryOp(swc_core::ecma::ast::BinaryOp);

/// An `swc` unary operator.
#[verifier::external_type_specification]
#[verifier::external_body]
pub struct ExUnaryOp(swc_core::ecma::ast::UnaryOp);

/// An `swc` assignment operator.
#[verifier::external_type_specification]
#[verifier::external_body]
pub struct ExAssignOp(swc_core::ecma::ast::AssignOp);

/// An `swc` update operator.
#[verifier::external_type_specification]
#[verifier::external_body]
pub struct ExUpdateOp(swc_core::ecma::ast::UpdateOp);

/// An `swc` object property of a form that this library does not model.
#[verifier::external_type_specification]
#[verifier::external_body]
pub struct ExRawProp(swc_core::ecma::ast::Prop);

/// An `swc` property name of a form that this library does not model.
#[verifier::external_type_specification]
#[verifier::external_body]
pub struct ExRawPropName(swc_core::ecma::ast::PropName);

/// An `swc` binding pattern of a form that this library does not model.
#[verifier::external_type_specification]
#[verifier::external_body]
pub struct ExRawPat(swc_core::ecma::ast::Pat);

/// An `swc` statement of a form that this library does not model.
#[verifier::external_type_specification]
#[verifier::external_body]
pub struct ExRawStmt(swc_core::ecma::ast::Stmt);

/// A piece of text of an `swc` template literal.
#[verifier::external_type_specification]
#[verifier::external_body]
pub struct ExRawTplElement(swc_core::ecma::ast::TplElement);

/// An `swc` import specifier.
#[verifier::external_type_specification]
#[verifier::external_body]
pub struct ExRawImportSpecifier(swc_core::ecma::ast::ImportSpecifier);

/// An `swc` module declaration of a form that this library does not model.
#[verifier::external_type_specification]
#[verifier::external_body]
pub struct ExRawModuleDecl(swc_core::ecma::ast::ModuleDecl);

// The fields of `swc` nodes, as they are handed on.

/// An argument of an `swc` call: whether it is spread, and its expression.
pub struct RawArg {
    pub spread: bool,
    pub expr: Box<RawExpr>,
}

/// The outermost node of an `swc` expression that is an identifier or an
/// operation, with the expressions below it still as `swc` has them.
pub enum Layer {
    /// An identifier reference.
    Ident(String),
    /// `(expr)`.
    Paren(Box<RawExpr>),
    /// `op arg`.
    Unary(UnaryOp, Box<RawExpr>),
    /// `left op right`.
    Bin(BinaryOp, Box<RawExpr>, Box<RawExpr>),
    /// `test ? cons : alt`.
    Cond(Box<RawExpr>, Box<RawExpr>, Box<RawExpr>),
    /// A literal, whole.
    Literal(Box<RawExpr>),
    /// Any other expression, whole.
    Other(Box<RawExpr>),
}

/// The outermost node of an `swc` expression that is a member access or a
/// call, with the expressions below it still as `swc` has them.
pub enum Access {
    /// `obj.prop`, where `prop` is a plain name.
    Member(Box<RawExpr>, String),
    /// `obj[index]`.
    Index(Box<RawExpr>, Box<RawExpr>),
    /// `callee(args)`, where `callee` is an expression and the call has no
    /// type arguments.
    Call(Box<RawExpr>, Vec<RawArg>),
    /// Any other expression, whole.
    Other(Box<RawExpr>),
}

/// The outermost node of an `swc` expression that is a link of an optional
/// chain, with the expressions below it still as `swc` has them.
pub enum Chain {
    /// A link of an optional chain: whether the `?.` stands at it, and its
    /// member access or call as an expression of its own.
    Link(bool, Box<RawExpr>),
    /// Any other expression, whole.
    Other(Box<RawExpr>),
}

/// The outermost node of an `swc` expression that is a list of
/// expressions, with the expressions below it still as `swc` has them.
pub enum List {
    /// `a, b, c`.
    Sequence(Vec<Box<RawExpr>>),
    /// `[elems]`.
    Array(Vec<Option<RawArg>>),
    /// `{ entries }`.
    Object(Vec<Entry>),
    /// Any other expression, whole.
    Other(Box<RawExpr>),
}

/// The outermost node of an `swc` expression that is an assignment, an
/// update or an `await`, with the expressions below it still as `swc` has
/// them.
pub enum Effect {
    /// `left op right`, where `left` is a plain name without a type or a
    /// member access, as an expression of its own.
    Assign(AssignOp, Box<RawExpr>, Box<RawExpr>),
    /// `op arg` where the flag is set, else `arg op`.
    Update(UpdateOp, bool, Box<RawExpr>),
    /// `await arg`.
    Await(Box<RawExpr>),
    /// Any other expression, whole.
    Other(Box<RawExpr>),
}

/// The outermost node of an `swc` expression that is a template literal,
/// with the expressions below it still as `swc` has them.
pub enum TplParts {
    /// A template literal: its pieces of text, and the expressions between
    /// them.
    Tpl(Vec<RawTplElement>, Vec<Box<RawExpr>>),
    /// Any other expression, whole.
    Other(Box<RawExpr>),
}

/// The outermost node of an `swc` expression that makes an object, with
/// the expressions below it still as `swc` has them.
pub enum NewParts {
    /// `new callee(args)` without type arguments, or `new callee`.
    New(Box<RawExpr>, Option<Vec<RawArg>>),
    /// Any other expression, whole.
    Other(Box<RawExpr>),
}

/// The outermost node of an `swc` expression that is an arrow function,
/// with what is below it still as `swc` has it.
pub enum ArrowParts {
    /// `(params) => body`, possibly `async`, without types.
    Arrow(Vec<RawPat>, ArrowBody, bool),
    /// Any other expression, whole.
    Other(Box<RawExpr>),
}

/// The body of an arrow function, as `swc` takes it.
pub enum ArrowBody {
    Block(Vec<RawStmt>),
    Expr(Box<RawExpr>),
}

/// The parts of an `swc` pattern.
pub enum PatParts {
    /// A plain name, without a type.
    Ident(String),
    /// Any other pattern, whole.
    Other(RawPat),
}

/// The parts of an `swc` statement.
pub enum StmtParts {
    /// `return arg;`.
    Return(Option<Box<RawExpr>>),
    /// `expr;`.
    Expr(Box<RawExpr>),
    /// Any other statement, whole.
    Other(RawStmt),
}

/// An entry of an object literal, as `swc` takes it.
pub enum Entry {
    /// `...expr`.
    Spread(Box<RawExpr>),
    /// A property.
    Prop(Box<RawProp>),
}

/// The parts of an `swc` property, with what is below it still as `swc`
/// has it.
pub enum PropParts {
    /// `key: value`.
    KeyValue(RawPropName, Box<RawExpr>),
    /// `name`, which stands for `name: name`.
    Shorthand(String),
    /// Any other property, whole.
    Other(Box<RawProp>),
}

/// The parts of an `swc` property name.
pub enum NameParts {
    /// A plain name.
    Ident(String),
    /// A name written as a string: the name, and its source form where
    /// it has one.
    Str(String, Option<String>),
    /// Any other property name, whole.
    Other(RawPropName),
}

/// The parts that a property name is built from.
pub ghost enum NameShape {
    Ident(Seq<char>),
    Str(Seq<char>, Option<Seq<char>>),
}

/// The parts of a literal or of a list of expressions, as `swc` takes
/// them.
pub enum Literal {
    /// A string literal: its value, and its source form where it has one.
    Str(String, Option<String>),
    /// `true` or `false`.
    Bool(bool),
    /// `null`.
    Null,
    /// The placeholder for an expression that could not be read.
    Invalid,
    /// `a, b, c`.
    Sequence(Vec<Box<RawExpr>>),
    /// `[elems]`.
    Array(Vec<Option<RawArg>>),
}

/// The parts of a function, as `swc` takes them.
pub struct FunctionParts {
    pub params: Vec<RawPat>,
    pub body: Option<Vec<RawStmt>>,
    pub is_async: bool,
    pub is_generator: bool,
}

/// An item of a module, as `swc` takes it.
pub enum RawItem {
    Decl(Box<RawModuleDecl>),
    Stmt(Box<RawStmt>),
}

// The parts that `swc` nodes are built from, as the contracts speak of them.

/// The parts that an `swc` expression is built from.
pub ghost enum ExprShape {
    Ident(Seq<char>),
    Paren(RawExpr),
    Unary(UnaryOp, RawExpr),
    Bin(BinaryOp, RawExpr, RawExpr),
    Cond(RawExpr, RawExpr, RawExpr),
    Member(RawExpr, Seq<char>),
    Index(RawExpr, RawExpr),
    Call(RawExpr, Seq<RawArg>),
    New(RawExpr, Option<Seq<RawArg>>),
    Tpl(Seq<RawTplElement>, Seq<RawExpr>),
    Str(Seq<char>, Option<Seq<char>>),
    Bool(bool),
    Null,
    Invalid,
    Sequence(Seq<RawExpr>),
    Array(Seq<Option<RawArg>>),
    Object(Seq<Entry>),
    Fn(FunctionShape),
    Arrow(Seq<RawPat>, ArrowBodyShape, bool),
}

/// The body that an `swc` arrow function is built from.
pub ghost enum ArrowBodyShape {
    Block(Seq<RawStmt>),
    Expr(RawExpr),
}

/// The parts that an `swc` function is built from.
pub ghost struct FunctionShape {
    pub params: Seq<RawPat>,
    pub body: Option<Seq<RawStmt>>,
    pub is_async: bool,
    pub is_generator: bool,
}

/// The parts that an `swc` property is built from.
pub ghost enum PropShape {
    KeyValue(RawPropName, RawExpr),
    Method(RawPropName, FunctionShape),
}

impl Literal {
    /// The parts that this literal is built from.
    pub open spec fn shape(self) -> ExprShape {
        match self {
            Literal::Str(value, raw) => ExprShape::Str(
                value@,
                match raw {
                    Some(r) => Some(r@),
                    None => None,
                },
            ),
            Literal::Bool(value) => ExprShape::Bool(value),
            Literal::Null => ExprShape::Null,
            Literal::Invalid => ExprShape::Invalid,
            Literal::Sequence(exprs) => ExprShape::Sequence(exprs@.map_values(|e: Box<RawExpr>| *e)),
            Literal::Array(elems) => ExprShape::Array(elems@),
        }
    }
}

impl ArrowBody {
    /// The body that this arrow function is built from.
    pub open spec fn shape(self) -> ArrowBodyShape {
        match self {
            ArrowBody::Block(stmts) => ArrowBodyShape::Block(stmts@),
            ArrowBody::Expr(expr) => ArrowBodyShape::Expr(*expr),
        }
    }
}

impl FunctionParts {
    /// The parts that this function is built from.
    pub open spec fn shape(self) -> FunctionShape {
        FunctionShape {
            params: self.params@,
            body: match self.body {
                Some(stmts) => Some(stmts@),
                None => None,
            },
            is_async: self.is_async,
            is_generator: self.is_generator,
        }
    }
}

// What the emitter can write.

/// A node of an `swc` tree, of one of the kinds that are carried through.
pub ghost enum RawNode {
    Expr(RawExpr),
    /// An expression taken as the base of a link of an optional chain.
    Link(RawExpr),
    Prop(RawProp),
    PropName(RawPropName),
    Pat(RawPat),
    Stmt(RawStmt),
    Decl(RawModuleDecl),
}

/// Whether `node` is free of what the `swc` emitter stops at: neither
/// `node` nor any node within it is a template literal, tagged or not,
/// that has not exactly one more piece of text than it has expressions,
/// an import with a namespace specifier among more than two specifiers,
/// an export with a default specifier, or an optional call whose callee
/// is a `new` expression. The base of a link is well formed where the
/// expression is and, being a call, does not call a `new` expression.
pub uninterp spec fn well_formed(node: RawNode) -> bool;

/// Whether `c` begins the name of a member behind `?.`: a letter of the
/// ASCII alphabet, `_`, `$`, `#` or `[`.
pub open spec fn begins_member(c: char) -> bool {
    ('a' <= c && c <= 'z') || ('A' <= c && c <= 'Z') || c == '_' || c == '$' || c == '#' || c
        == '['
}

/// Whether a member follows each `?.` of `text` at once. Such a text
/// holds no optional call.
pub open spec fn plain_chains(text: Seq<char>) -> bool {
    forall|i: int|
        0 <= i && i + 1 < text.len() && text[i] == '?' && #[trigger] text[i + 1] == '.' ==> i + 2
            < text.len() && begins_member(text[i + 2])
}

/// Whether an expression is well formed.
pub open spec fn wf_expr(raw: RawExpr) -> bool {
    well_formed(RawNode::Expr(raw))
}

/// Whether each of `exprs` is well formed.
pub open spec fn wf_exprs(exprs: Seq<Box<RawExpr>>) -> bool {
    forall|i: int| 0 <= i < exprs.len() ==> wf_expr(*#[trigger] exprs[i])
}

/// Whether each of `args` is well formed.
pub open spec fn wf_args(args: Seq<RawArg>) -> bool {
    forall|i: int| 0 <= i < args.len() ==> wf_expr(*(#[trigger] args[i]).expr)
}

/// Whether each of `elems` that is there is well formed.
pub open spec fn wf_elems(elems: Seq<Option<RawArg>>) -> bool {
    forall|i: int|
        0 <= i < elems.len() ==> match #[trigger] elems[i] {
            Some(elem) => wf_expr(*elem.expr),
            None => true,
        }
}

/// Whether an entry of an object literal is well formed.
pub open spec fn wf_entry(entry: Entry) -> bool {
    match entry {
        Entry::Spread(expr) => wf_expr(*expr),
        Entry::Prop(prop) => well_formed(RawNode::Prop(*prop)),
    }
}

/// Whether each of `entries` is well formed.
pub open spec fn wf_entries(entries: Seq<Entry>) -> bool {
    forall|i: int| 0 <= i < entries.len() ==> wf_entry(#[trigger] entries[i])
}

/// Whether each of `stmts` is well formed.
pub open spec fn wf_stmts(stmts: Seq<RawStmt>) -> bool {
    forall|i: int| 0 <= i < stmts.len() ==> well_formed(RawNode::Stmt(#[trigger] stmts[i]))
}

/// Whether each of `pats` is well formed.
pub open spec fn wf_pats(pats: Seq<RawPat>) -> bool {
    forall|i: int| 0 <= i < pats.len() ==> well_formed(RawNode::Pat(#[trigger] pats[i]))
}

impl Layer {
    /// Whether what this layer holds is well formed.
    pub open spec fn wf(self) -> bool {
        match self {
            Layer::Ident(name) => true,
            Layer::Paren(inner) => wf_expr(*inner),
            Layer::Unary(op, arg) => wf_expr(*arg),
            Layer::Bin(op, left, right) => wf_expr(*left) && wf_expr(*right),
            Layer::Cond(test, cons, alt) => wf_expr(*test) && wf_expr(*cons) && wf_expr(*alt),
            Layer::Literal(literal) => wf_expr(*literal),
            Layer::Other(rest) => wf_expr(*rest),
        }
    }
}

impl Access {
    /// Whether what this node holds is well formed.
    pub open spec fn wf(self) -> bool {
        match self {
            Access::Member(obj, prop) => wf_expr(*obj),
            Access::Index(obj, index) => wf_expr(*obj) && wf_expr(*index),
            Access::Call(callee, args) => wf_expr(*callee) && wf_args(args@),
            Access::Other(rest) => wf_expr(*rest),
        }
    }

    /// Whether this node, where it is kept whole, is well formed as the
    /// base of a link.
    pub open spec fn wf_link(self) -> bool {
        match self {
            Access::Other(rest) => well_formed(RawNode::Link(*rest)),
            _ => true,
        }
    }
}

impl Chain {
    /// Whether what this node holds is well formed.
    pub open spec fn wf(self) -> bool {
        match self {
            Chain::Link(optional, base) => wf_expr(*base) && well_formed(RawNode::Link(*base)),
            Chain::Other(rest) => wf_expr(*rest),
        }
    }
}

impl List {
    /// Whether what this node holds is well formed.
    pub open spec fn wf(self) -> bool {
        match self {
            List::Sequence(exprs) => wf_exprs(exprs@),
            List::Array(elems) => wf_elems(elems@),
            List::Object(entries) => wf_entries(entries@),
            List::Other(rest) => wf_expr(*rest),
        }
    }
}

impl TplParts {
    /// Whether what this node holds is well formed, and as many pieces of
    /// text stand around its expressions as a template literal has.
    pub open spec fn wf(self) -> bool {
        match self {
            TplParts::Tpl(quasis, exprs) => quasis@.len() == exprs@.len() + 1 && wf_exprs(exprs@),
            TplParts::Other(rest) => wf_expr(*rest),
        }
    }
}

impl Effect {
    /// Whether what this node holds is well formed.
    pub open spec fn wf(self) -> bool {
        match self {
            Effect::Assign(op, left, right) => wf_expr(*left) && wf_expr(*right),
            Effect::Update(op, prefix, arg) => wf_expr(*arg),
            Effect::Await(arg) => wf_expr(*arg),
            Effect::Other(rest) => wf_expr(*rest),
        }
    }
}

impl NewParts {
    /// Whether what this node holds is well formed.
    pub open spec fn wf(self) -> bool {
        match self {
            NewParts::New(callee, Some(args)) => wf_expr(*callee) && wf_args(args@),
            NewParts::New(callee, None) => wf_expr(*callee),
            NewParts::Other(rest) => wf_expr(*rest),
        }
    }
}

impl ArrowParts {
    /// Whether what this node holds is well formed.
    pub open spec fn wf(self) -> bool {
        match self {
            ArrowParts::Arrow(params, ArrowBody::Block(stmts), is_async) => wf_pats(params@)
                && wf_stmts(stmts@),
            ArrowParts::Arrow(params, ArrowBody::Expr(expr), is_async) => wf_pats(params@)
                && wf_expr(*expr),
            ArrowParts::Other(rest) => wf_expr(*rest),
        }
    }
}

impl PatParts {
    /// Whether what this pattern holds is well formed.
    pub open spec fn wf(self) -> bool {
        match self {
            PatParts::Ident(name) => true,
            PatParts::Other(rest) => well_formed(RawNode::Pat(rest)),
        }
    }
}

impl StmtParts {
    /// Whether what this statement holds is well formed.
    pub open spec fn wf(self) -> bool {
        match self {
            StmtParts::Return(Some(arg)) => wf_expr(*arg),
            StmtParts::Return(None) => true,
            StmtParts::Expr(expr) => wf_expr(*expr),
            StmtParts::Other(rest) => well_formed(RawNode::Stmt(rest)),
        }
    }
}

impl PropParts {
    /// Whether what this property holds is well formed.
    pub open spec fn wf(self) -> bool {
        match self {
            PropParts::KeyValue(key, value) => well_formed(RawNode::PropName(key)) && wf_expr(
                *value,
            ),
            PropParts::Shorthand(name) => true,
            PropParts::Other(rest) => well_formed(RawNode::Prop(*rest)),
        }
    }
}

impl NameParts {
    /// Whether what this name holds is well formed.
    pub open spec fn wf(self) -> bool {
        match self {
            NameParts::Other(rest) => well_formed(RawNode::PropName(rest)),
            _ => true,
        }
    }
}

// Reading.

/// What the `swc` parser makes of `text` read as one expression, if it
/// accepts it.
pub uninterp spec fn raw_parsed(text: Seq<char>) -> Option<RawExpr>;

/// The outermost node of `raw`, where it is an identifier, a parenthesis, a
/// unary or binary operation or a conditional; `raw` itself as
/// `Layer::Literal` where it is a literal, else as `Layer::Other`.
pub uninterp spec fn peeled(raw: RawExpr) -> Layer;

/// The outermost node of `raw`, where it is a member access by a plain name
/// or by a computed key, or a call of an expression without type
/// arguments; else `raw` itself as `Access::Other`.
pub uninterp spec fn peeled_access(raw: RawExpr) -> Access;

/// The outermost node of `raw`, where it is a sequence, an array literal
/// or an object literal; else `raw` itself as `List::Other`.
pub uninterp spec fn peeled_list(raw: RawExpr) -> List;

/// The outermost node of `raw`, where it is a link of an optional chain:
/// its flag, and its base as a member access or a call; else `raw` itself
/// as `Chain::Other`.
pub uninterp spec fn peeled_chain(raw: RawExpr) -> Chain;

/// The outermost node of `raw`, where it is an arrow function without
/// types; else `raw` itself as `ArrowParts::Other`.
pub uninterp spec fn peeled_arrow(raw: RawExpr) -> ArrowParts;

/// The outermost node of `raw`, where it is a `new` expression without
/// type arguments; else `raw` itself as `NewParts::Other`.
pub uninterp spec fn peeled_new(raw: RawExpr) -> NewParts;

/// The outermost node of `raw`, where it is a template literal; else `raw`
/// itself as `TplParts::Other`.
pub uninterp spec fn peeled_tpl(raw: RawExpr) -> TplParts;

/// The outermost node of `raw`, where it is an assignment to a plain name
/// or to a member, an update or an `await`; else `raw` itself as
/// `Effect::Other`.
pub uninterp spec fn peeled_effect(raw: RawExpr) -> Effect;

/// The text that a piece of a template literal stands for, where it
/// stands for one.
pub uninterp spec fn piece_text(piece: RawTplElement) -> Option<Seq<char>>;

/// The name that `pat` binds, where it is a plain name without a type;
/// else `pat` itself as `PatParts::Other`.
pub uninterp spec fn peeled_pat(pat: RawPat) -> PatParts;

/// The argument of `stmt`, where it is a `return` statement, and its
/// expression, where it is an expression statement; else `stmt` itself as
/// `StmtParts::Other`.
pub uninterp spec fn peeled_stmt(stmt: RawStmt) -> StmtParts;

/// The parts of `prop`, where it is a `key: value` property or a
/// shorthand; else `prop` itself as `PropParts::Other`.
pub uninterp spec fn peeled_prop(prop: RawProp) -> PropParts;

/// The name that `name` spells out, where it is an identifier, as
/// `NameParts::Ident`; where it is a string of well-formed text, as
/// `NameParts::Str` with its source form; else `name` itself as
/// `NameParts::Other`.
pub uninterp spec fn peeled_prop_name(name: RawPropName) -> NameParts;

/// `swc_ecma_parser::parse_file_as_expr`, on a source file that holds
/// `text`, with the default ECMAScript syntax and the latest language
/// version: the expression that the parser returns, or `None` where it
/// returns an error. The parser gives each template literal one more
/// piece of text than expressions, an expression holds no import or
/// export, and the parser makes an optional call only where it reads `(`
/// as the next token behind `?.`: so what it returns for a text with
/// plain chains is well formed.
#[verifier::external_body]
pub(crate) fn parse_raw(text: &str) -> (raw: Option<Box<RawExpr>>)
    ensures
        raw == match raw_parsed(text@) {
            Some(expr) => Some(Box::new(expr)),
            None => None,
        },
        match raw {
            Some(expr) => plain_chains(text@) ==> wf_expr(*expr),
            None => true,
        },
{
    let cm: Lrc<SourceMap> = Default::default();
    let file = cm.new_source_file(FileName::Anon.into(), text.to_owned());
    let mut recovered = Vec::new();
    let syntax = Syntax::Es(Default::default());
    parse_file_as_expr(&file, syntax, EsVersion::latest(), None, &mut recovered).ok()
}

/// Takes the outermost node off an `swc` expression: the fields of
/// `Expr::Ident`, `Expr::Paren`, `Expr::Unary`, `Expr::Bin` and
/// `Expr::Cond`, without their spans. An `Expr::Lit` is told apart from
/// the rest and handed back whole.
#[verifier::external_body]
pub(crate) fn peel(raw: Box<RawExpr>) -> (layer: Layer)
    ensures
        layer == peeled(*raw),
        wf_expr(*raw) ==> layer.wf(),
{
    match *raw {
        RawExpr::Ident(ident) => Layer::Ident(ident.sym.to_string()),
        RawExpr::Paren(paren) => Layer::Paren(paren.expr),
        RawExpr::Unary(unary) => Layer::Unary(unary.op, unary.arg),
        RawExpr::Bin(bin) => Layer::Bin(bin.op, bin.left, bin.right),
        RawExpr::Cond(cond) => Layer::Cond(cond.test, cond.cons, cond.alt),
        RawExpr::Lit(lit) => Layer::Literal(Box::new(RawExpr::Lit(lit))),
        other => Layer::Other(Box::new(other)),
    }
}

/// Takes the outermost node off an `swc` expression: the fields of
/// `Expr::Member`, with an identifier or a computed key as its property,
/// and of `Expr::Call`, without their spans.
#[verifier::external_body]
pub(crate) fn peel_access(raw: Box<RawExpr>) -> (access: Access)
    ensures
        access == peeled_access(*raw),
        wf_expr(*raw) ==> access.wf(),
        well_formed(RawNode::Link(*raw)) ==> access.wf_link(),
{
    match *raw {
        RawExpr::Member(MemberExpr { obj, prop: MemberProp::Ident(name), .. }) => {
            Access::Member(obj, name.sym.to_string())
        },
        RawExpr::Member(MemberExpr { obj, prop: MemberProp::Computed(key), .. }) => {
            Access::Index(obj, key.expr)
        },
        RawExpr::Call(CallExpr { callee: Callee::Expr(callee), args, type_args: None, .. }) => {
            let args = args.into_iter();
            Access::Call(callee, args.map(|a| RawArg { spread: a.spread.is_some(), expr: a.expr }).collect())
        },
        other => Access::Other(Box::new(other)),
    }
}

/// Takes the outermost node off an `swc` expression: the fields of
/// `Expr::Seq`, `Expr::Array` and `Expr::Object`, without their spans.
#[verifier::external_body]
pub(crate) fn peel_list(raw: Box<RawExpr>) -> (list: List)
    ensures
        list == peeled_list(*raw),
        wf_expr(*raw) ==> list.wf(),
{
    match *raw {
        RawExpr::Seq(seq) => List::Sequence(seq.exprs),
        RawExpr::Array(array) => List::Array(array.elems.into_iter().map(|elem| elem.map(
            |a| RawArg { spread: a.spread.is_some(), expr: a.expr },
        )).collect()),
        RawExpr::Object(object) => List::Object(object.props.into_iter().map(|entry| match entry {
            RawPropOrSpread::Spread(spread) => Entry::Spread(spread.expr),
            RawPropOrSpread::Prop(prop) => Entry::Prop(prop),
        }).collect()),
        other => List::Other(Box::new(other)),
    }
}

/// Takes the outermost node off an `swc` expression: the flag of
/// `Expr::OptChain`, and its base as an expression: `OptChainBase::Member`
/// as `Expr::Member`, `OptChainBase::Call` as `Expr::Call` with the same
/// fields.
#[verifier::external_body]
pub(crate) fn peel_chain(raw: Box<RawExpr>) -> (chain: Chain)
    ensures
        chain == peeled_chain(*raw),
        wf_expr(*raw) ==> chain.wf(),
{
    match *raw {
        RawExpr::OptChain(link) => Chain::Link(link.optional, Box::new(match *link.base {
            OptChainBase::Member(member) => RawExpr::Member(member),
            OptChainBase::Call(OptCall { span, ctxt, callee, args, type_args }) => {
                RawExpr::Call(CallExpr { span, ctxt, callee: Callee::Expr(callee), args, type_args })
            },
        })),
        other => Chain::Other(Box::new(other)),
    }
}

/// Takes the outermost node off an `swc` expression: the parameters, the
/// body and the `async` flag of an `Expr::Arrow` that has neither type
/// parameters nor a return type, without its span.
#[verifier::external_body]
pub(crate) fn peel_arrow(raw: Box<RawExpr>) -> (parts: ArrowParts)
    ensures
        parts == peeled_arrow(*raw),
        wf_expr(*raw) ==> parts.wf(),
{
    match *raw {
        RawExpr::Arrow(RawArrowExpr { params, body, is_async, type_params: None, return_type: None, .. }) => {
            ArrowParts::Arrow(params, match *body {
                ArrowFunctionBody::FunctionBody(block) => ArrowBody::Block(block.stmts),
                ArrowFunctionBody::Expr(expr) => ArrowBody::Expr(expr),
            }, is_async)
        },
        other => ArrowParts::Other(Box::new(other)),
    }
}

/// Takes the outermost node off an `swc` expression: the callee and the
/// arguments of an `Expr::New` that has no type arguments, without its
/// span.
#[verifier::external_body]
pub(crate) fn peel_new(raw: Box<RawExpr>) -> (parts: NewParts)
    ensures
        parts == peeled_new(*raw),
        wf_expr(*raw) ==> parts.wf(),
{
    match *raw {
        RawExpr::New(NewExpr { callee, args, type_args: None, .. }) => {
            NewParts::New(callee, args.map(|args| args.into_iter().map(
                |a| RawArg { spread: a.spread.is_some(), expr: a.expr },
            ).collect()))
        },
        other => NewParts::Other(Box::new(other)),
    }
}

/// Takes the outermost node off an `swc` expression: the pieces of text
/// and the expressions of an `Expr::Tpl`, without its span.
#[verifier::external_body]
pub(crate) fn peel_tpl(raw: Box<RawExpr>) -> (parts: TplParts)
    ensures
        parts == peeled_tpl(*raw),
        wf_expr(*raw) ==> parts.wf(),
{
    match *raw {
        RawExpr::Tpl(tpl) => TplParts::Tpl(tpl.quasis, tpl.exprs),
        other => TplParts::Other(Box::new(other)),
    }
}

/// Takes the outermost node off an `swc` expression: the operator, the
/// target and the value of an `Expr::Assign` whose target is a plain name
/// without a type or a member access, the target as `Expr::Ident` or
/// `Expr::Member`; the fields of `Expr::Update`; the argument of
/// `Expr::Await`; all without their spans.
#[verifier::external_body]
pub(crate) fn peel_effect(raw: Box<RawExpr>) -> (effect: Effect)
    ensures
        effect == peeled_effect(*raw),
        wf_expr(*raw) ==> effect.wf(),
{
    match *raw {
        RawExpr::Assign(AssignExpr { op, left: AssignTarget::Simple(left), right, span }) => match left {
            SimpleAssignTarget::Ident(BindingIdent { id, type_ann: None }) => {
                Effect::Assign(op, Box::new(id.into()), right)
            },
            SimpleAssignTarget::Member(member) => Effect::Assign(op, Box::new(member.into()), right),
            left => Effect::Other(Box::new(AssignExpr { op, left: left.into(), right, span }.into())),
        },
        RawExpr::Update(update) => Effect::Update(update.op, update.prefix, update.arg),
        RawExpr::Await(wait) => Effect::Await(wait.arg),
        other => Effect::Other(Box::new(other)),
    }
}

/// The `cooked` text of an `swc` `TplElement`, where it has one that is
/// well-formed.
#[verifier::external_body]
pub(crate) fn tpl_piece_text(piece: &RawTplElement) -> (text: Option<String>)
    ensures
        match text {
            Some(t) => piece_text(*piece) == Some(t@),
            None => piece_text(*piece) is None,
        },
{
    piece.cooked.as_ref().and_then(|cooked| cooked.as_str()).map(str::to_owned)
}

/// Takes an `swc` pattern apart: the name of a `Pat::Ident` that has no
/// type.
#[verifier::external_body]
pub(crate) fn peel_pat(pat: RawPat) -> (parts: PatParts)
    ensures
        parts == peeled_pat(pat),
        well_formed(RawNode::Pat(pat)) ==> parts.wf(),
{
    match pat {
        RawPat::Ident(BindingIdent { id: Ident { sym, .. }, type_ann: None }) => {
            PatParts::Ident(sym.to_string())
        },
        other => PatParts::Other(other),
    }
}

/// Takes an `swc` statement apart: the argument of a `Stmt::Return`, and
/// the expression of a `Stmt::Expr`.
#[verifier::external_body]
pub(crate) fn peel_stmt(stmt: RawStmt) -> (parts: StmtParts)
    ensures
        parts == peeled_stmt(stmt),
        well_formed(RawNode::Stmt(stmt)) ==> parts.wf(),
{
    match stmt {
        RawStmt::Return(ret) => StmtParts::Return(ret.arg),
        RawStmt::Expr(stmt) => StmtParts::Expr(stmt.expr),
        other => StmtParts::Other(other),
    }
}

/// Takes an `swc` property apart: the fields of `Prop::KeyValue`, and the
/// name of `Prop::Shorthand`.
#[verifier::external_body]
pub(crate) fn peel_prop(prop: Box<RawProp>) -> (parts: PropParts)
    ensures
        parts == peeled_prop(*prop),
        well_formed(RawNode::Prop(*prop)) ==> parts.wf(),
{
    match *prop {
        RawProp::KeyValue(key_value) => PropParts::KeyValue(key_value.key, key_value.value),
        RawProp::Shorthand(ident) => PropParts::Shorthand(ident.sym.to_string()),
        other => PropParts::Other(Box::new(other)),
    }
}

/// Takes an `swc` property name apart: the name of `PropName::Ident`, and
/// the value and the source form of a `PropName::Str` whose value is
/// well-formed text.
#[verifier::external_body]
pub(crate) fn peel_prop_name(name: RawPropName) -> (parts: NameParts)
    ensures
        parts == peeled_prop_name(name),
        well_formed(RawNode::PropName(name)) ==> parts.wf(),
{
    match name {
        RawPropName::Ident(ident) => NameParts::Ident(ident.sym.to_string()),
        RawPropName::Str(text) => match text.value.as_str() {
            Some(value) => NameParts::Str(value.to_owned(), text.raw.as_ref().map(|r| r.to_string())),
            None => NameParts::Other(RawPropName::Str(text)),
        },
        other => NameParts::Other(other),
    }
}

// Building.

/// The `swc` expression that is built from these parts, without positions.
pub uninterp spec fn raw_expr_of(shape: ExprShape) -> RawExpr;

/// The `swc` link of an optional chain whose base is the member access or
/// call `base`; `base` itself where it is neither.
pub uninterp spec fn raw_chain_of(optional: bool, base: RawExpr) -> RawExpr;

/// The `swc` property that is built from these parts.
pub uninterp spec fn raw_prop_of(shape: PropShape) -> RawProp;

/// The `swc` property name that is built from these parts, without a
/// position.
pub uninterp spec fn raw_prop_name_of(shape: NameShape) -> RawPropName;

/// The `swc` pattern that binds the plain name `name`.
pub uninterp spec fn raw_pat_of(name: Seq<char>) -> RawPat;

/// The `swc` statement `return arg;`.
pub uninterp spec fn raw_return_of(arg: Option<RawExpr>) -> RawStmt;

/// The `swc` import specifier for `name`, without positions.
pub uninterp spec fn raw_specifier_of(name: ImportNameView) -> RawImportSpecifier;

/// The `swc` import declaration that brings in `specifiers` from the
/// module `src`: a plain import, without positions.
pub uninterp spec fn raw_import_of(specifiers: Seq<RawImportSpecifier>, src: Seq<char>) -> RawModuleDecl;

/// The `swc` declaration `export default expr`.
pub uninterp spec fn raw_export_default_of(expr: RawExpr) -> RawModuleDecl;

/// The `swc` declaration `export default` in front of the class or the
/// function that `expr` is; `export default expr` for any other
/// expression.
pub uninterp spec fn raw_export_default_decl_of(expr: RawExpr) -> RawModuleDecl;

/// Builds the `swc` expression whose outermost node is `layer`:
/// `Expr::Ident`, `Expr::Paren`, `Expr::Unary`, `Expr::Bin` or `Expr::Cond`
/// with these fields and no position. `Layer::Literal` and `Layer::Other`
/// give their expression back.
#[verifier::external_body]
pub(crate) fn build(layer: Layer) -> (raw: Box<RawExpr>)
    ensures
        *raw == match layer {
            Layer::Ident(name) => raw_expr_of(ExprShape::Ident(name@)),
            Layer::Paren(expr) => raw_expr_of(ExprShape::Paren(*expr)),
            Layer::Unary(op, arg) => raw_expr_of(ExprShape::Unary(op, *arg)),
            Layer::Bin(op, left, right) => raw_expr_of(ExprShape::Bin(op, *left, *right)),
            Layer::Cond(test, cons, alt) => raw_expr_of(ExprShape::Cond(*test, *cons, *alt)),
            Layer::Literal(literal) => *literal,
            Layer::Other(rest) => *rest,
        },
{
    Box::new(match layer {
        Layer::Ident(name) => RawExpr::Ident(Ident::new_no_ctxt(name.into(), DUMMY_SP)),
        Layer::Paren(expr) => RawExpr::Paren(ParenExpr { span: DUMMY_SP, expr }),
        Layer::Unary(op, arg) => RawExpr::Unary(UnaryExpr { span: DUMMY_SP, op, arg }),
        Layer::Bin(op, left, right) => RawExpr::Bin(BinExpr { span: DUMMY_SP, op, left, right }),
        Layer::Cond(test, cons, alt) => RawExpr::Cond(CondExpr { span: DUMMY_SP, test, cons, alt }),
        Layer::Literal(raw) => *raw,
        Layer::Other(raw) => *raw,
    })
}

/// Builds the `swc` member access `obj.prop`, as `Expr::Member` with an
/// identifier as its property and no position.
#[verifier::external_body]
pub(crate) fn build_member(obj: Box<RawExpr>, prop: String) -> (raw: Box<RawExpr>)
    ensures
        *raw == raw_expr_of(ExprShape::Member(*obj, prop@)),
{
    let prop = MemberProp::Ident(IdentName::new(prop.into(), DUMMY_SP));
    Box::new(RawExpr::Member(MemberExpr { span: DUMMY_SP, obj, prop }))
}

/// Builds the `swc` member access `obj[index]`, as `Expr::Member` with a
/// computed key as its property and no position.
#[verifier::external_body]
pub(crate) fn build_index(obj: Box<RawExpr>, index: Box<RawExpr>) -> (raw: Box<RawExpr>)
    ensures
        *raw == raw_expr_of(ExprShape::Index(*obj, *index)),
{
    let prop = MemberProp::Computed(ComputedPropName { span: DUMMY_SP, expr: index });
    Box::new(RawExpr::Member(MemberExpr { span: DUMMY_SP, obj, prop }))
}

/// Builds the `swc` call `callee(args)`, as `Expr::Call` with an
/// expression as its callee, no type arguments and no position.
#[verifier::external_body]
pub(crate) fn build_call(callee: Box<RawExpr>, args: Vec<RawArg>) -> (raw: Box<RawExpr>)
    ensures
        *raw == raw_expr_of(ExprShape::Call(*callee, args@)),
{
    let args = args.into_iter().map(
        |a| RawExprOrSpread { spread: a.spread.then_some(DUMMY_SP), expr: a.expr },
    ).collect();
    let call = CallExpr { callee: Callee::Expr(callee), args, ..Default::default() };
    Box::new(RawExpr::Call(call))
}

/// Builds the `swc` expression `new callee(args)`, as `Expr::New` without
/// type arguments and without a position.
#[verifier::external_body]
pub(crate) fn build_new(callee: Box<RawExpr>, args: Option<Vec<RawArg>>) -> (raw: Box<RawExpr>)
    ensures
        *raw == raw_expr_of(
            ExprShape::New(
                *callee,
                match args {
                    Some(args) => Some(args@),
                    None => None,
                },
            ),
        ),
{
    let args = args.map(|args| args.into_iter().map(
        |a| RawExprOrSpread { spread: a.spread.then_some(DUMMY_SP), expr: a.expr },
    ).collect());
    Box::new(RawExpr::New(NewExpr { callee, args, ..Default::default() }))
}

/// Builds the `swc` link of an optional chain, `Expr::OptChain` without a
/// position, whose base holds the fields of `base`: of an `Expr::Member`,
/// or of an `Expr::Call` whose callee is an expression. Any other `base`
/// comes back as it is.
#[verifier::external_body]
pub(crate) fn build_chain(optional: bool, base: Box<RawExpr>) -> (raw: Box<RawExpr>)
    ensures
        *raw == raw_chain_of(optional, *base),
{
    let base = Box::new(match *base {
        RawExpr::Member(member) => OptChainBase::Member(member),
        RawExpr::Call(CallExpr { span, ctxt, callee: Callee::Expr(callee), args, type_args }) => {
            OptChainBase::Call(OptCall { span, ctxt, callee, args, type_args })
        },
        other => return Box::new(other),
    });
    Box::new(RawExpr::OptChain(OptChainExpr { span: DUMMY_SP, optional, base }))
}

/// Builds the `swc` expression for a literal or a list: `Lit::Str`,
/// `Lit::Bool`, `Lit::Null`, `Expr::Invalid`, `Expr::Seq` or `Expr::Array`
/// with these fields and no position.
#[verifier::external_body]
pub(crate) fn build_literal(literal: Literal) -> (raw: Box<RawExpr>)
    ensures
        *raw == raw_expr_of(literal.shape()),
{
    Box::new(match literal {
        Literal::Str(v, raw) => Str { span: DUMMY_SP, value: v.into(), raw: raw.map(Into::into) }.into(),
        Literal::Bool(value) => Lit::Bool(Bool { span: DUMMY_SP, value }).into(),
        Literal::Null => Lit::Null(Null { span: DUMMY_SP }).into(),
        Literal::Invalid => RawExpr::Invalid(Invalid { span: DUMMY_SP }),
        Literal::Sequence(exprs) => RawExpr::Seq(SeqExpr { span: DUMMY_SP, exprs }),
        Literal::Array(elems) => RawExpr::Array(ArrayLit {
            span: DUMMY_SP,
            elems: elems.into_iter().map(|e| e.map(
                |a| RawExprOrSpread { spread: a.spread.then_some(DUMMY_SP), expr: a.expr },
            )).collect(),
        }),
    })
}

/// Builds the `swc` template literal `Expr::Tpl` with these pieces of text
/// and these expressions, without a position.
#[verifier::external_body]
pub(crate) fn build_tpl(quasis: Vec<RawTplElement>, exprs: Vec<Box<RawExpr>>) -> (raw: Box<RawExpr>)
    ensures
        *raw == raw_expr_of(ExprShape::Tpl(quasis@, exprs@.map_values(|e: Box<RawExpr>| *e))),
{
    Box::new(RawExpr::Tpl(RawTpl { span: DUMMY_SP, exprs, quasis }))
}

/// Builds the `swc` object literal `Expr::Object` with these entries, in
/// their order and without positions.
#[verifier::external_body]
pub(crate) fn build_object(entries: Vec<Entry>) -> (raw: Box<RawExpr>)
    ensures
        *raw == raw_expr_of(ExprShape::Object(entries@)),
{
    let props = entries.into_iter().map(|entry| match entry {
        Entry::Spread(expr) => RawPropOrSpread::Spread(SpreadElement { dot3_token: DUMMY_SP, expr }),
        Entry::Prop(prop) => RawPropOrSpread::Prop(prop),
    }).collect();
    Box::new(RawExpr::Object(RawObjectLit { span: DUMMY_SP, props }))
}

/// Builds the `swc` property `key: value`, as `Prop::KeyValue`.
#[verifier::external_body]
pub(crate) fn build_key_value(key: RawPropName, value: Box<RawExpr>) -> (raw: Box<RawProp>)
    ensures
        *raw == raw_prop_of(PropShape::KeyValue(key, *value)),
{
    Box::new(RawProp::KeyValue(KeyValueProp { key, value }))
}

/// Builds the `swc` method property `Prop::Method` from its name and the
/// parts of its function; whatever else a function can have is left unset.
#[verifier::external_body]
pub(crate) fn build_method(key: RawPropName, parts: FunctionParts) -> (raw: Box<RawProp>)
    ensures
        *raw == raw_prop_of(PropShape::Method(key, parts.shape())),
{
    let function = Box::new(RawFunction {
        params: parts.params.into_iter().map(Into::into).collect(),
        body: parts.body.map(|stmts| FunctionBody { span: DUMMY_SP, stmts }),
        is_async: parts.is_async,
        is_generator: parts.is_generator,
        ..Default::default()
    });
    Box::new(RawProp::Method(MethodProp { key, function }))
}

/// Builds an `swc` property name from its parts: `PropName::Ident`, or
/// `PropName::Str` with its value and source form, without a position.
/// `NameParts::Other` gives its name back.
#[verifier::external_body]
pub(crate) fn build_prop_name(parts: NameParts) -> (raw: RawPropName)
    ensures
        raw == match parts {
            NameParts::Ident(name) => raw_prop_name_of(NameShape::Ident(name@)),
            NameParts::Str(value, raw) => raw_prop_name_of(
                NameShape::Str(
                    value@,
                    match raw {
                        Some(r) => Some(r@),
                        None => None,
                    },
                ),
            ),
            NameParts::Other(rest) => rest,
        },
{
    match parts {
        NameParts::Ident(name) => RawPropName::Ident(IdentName::new(name.into(), DUMMY_SP)),
        NameParts::Str(v, raw) => {
            RawPropName::Str(Str { span: DUMMY_SP, value: v.into(), raw: raw.map(Into::into) })
        },
        NameParts::Other(rest) => rest,
    }
}

/// Builds the `swc` function expression `Expr::Fn`, without a name, from
/// the parts of its function; whatever else a function can have is left
/// unset.
#[verifier::external_body]
pub(crate) fn build_fn_expr(parts: FunctionParts) -> (raw: Box<RawExpr>)
    ensures
        *raw == raw_expr_of(ExprShape::Fn(parts.shape())),
{
    let function = Box::new(RawFunction {
        params: parts.params.into_iter().map(Into::into).collect(),
        body: parts.body.map(|stmts| FunctionBody { span: DUMMY_SP, stmts }),
        is_async: parts.is_async,
        is_generator: parts.is_generator,
        ..Default::default()
    });
    Box::new(RawExpr::Fn(FnExpr { ident: None, function }))
}

/// Builds the `swc` arrow function `Expr::Arrow` from its parameters and
/// its body, with nothing else set.
#[verifier::external_body]
pub(crate) fn build_arrow(params: Vec<RawPat>, body: ArrowBody, is_async: bool) -> (raw: Box<
    RawExpr,
>)
    ensures
        *raw == raw_expr_of(ExprShape::Arrow(params@, body.shape(), is_async)),
{
    let body = Box::new(match body {
        ArrowBody::Block(stmts) => ArrowFunctionBody::FunctionBody(
            FunctionBody { span: DUMMY_SP, stmts },
        ),
        ArrowBody::Expr(expr) => ArrowFunctionBody::Expr(expr),
    });
    Box::new(RawExpr::Arrow(RawArrowExpr { params, body, is_async, ..Default::default() }))
}

/// Builds the `swc` pattern that binds the plain name `name`.
#[verifier::external_body]
pub(crate) fn build_pat(name: String) -> (raw: RawPat)
    ensures
        raw == raw_pat_of(name@),
{
    RawPat::Ident(Ident::new_no_ctxt(name.into(), DUMMY_SP).into())
}

/// The `swc` statement `expr;`, without a position.
pub uninterp spec fn raw_expr_stmt_of(expr: RawExpr) -> RawStmt;

/// Builds the `swc` statement `expr;`, a `Stmt::Expr` without a position.
#[verifier::external_body]
pub(crate) fn build_expr_stmt(expr: Box<RawExpr>) -> (raw: RawStmt)
    ensures
        raw == raw_expr_stmt_of(*expr),
{
    RawStmt::Expr(ExprStmt { span: DUMMY_SP, expr })
}

/// Builds the `swc` statement `return arg;`.
#[verifier::external_body]
pub(crate) fn build_return(arg: Option<Box<RawExpr>>) -> (raw: RawStmt)
    ensures
        raw == raw_return_of(
            match arg {
                Some(expr) => Some(*expr),
                None => None,
            },
        ),
{
    RawStmt::Return(ReturnStmt { span: DUMMY_SP, arg })
}

/// Builds the `swc` import specifier for `name`: `ImportSpecifier::Named`,
/// `Default` or `Namespace` with identifiers of these names; a named one
/// is not type-only.
#[verifier::external_body]
pub(crate) fn build_specifier(name: &ImportName) -> (raw: RawImportSpecifier)
    ensures
        raw == raw_specifier_of(name@),
{
    let id = |name: &String| Ident::new_no_ctxt(name.as_str().into(), DUMMY_SP);
    match name {
        ImportName::Named { local, imported } => {
            let imported = imported.as_ref().map(|name| ModuleExportName::Ident(id(name)));
            ImportNamedSpecifier { span: DUMMY_SP, local: id(local), imported, is_type_only: false }.into()
        },
        ImportName::Default(l) => ImportDefaultSpecifier { span: DUMMY_SP, local: id(l) }.into(),
        ImportName::Namespace(l) => ImportStarAsSpecifier { span: DUMMY_SP, local: id(l) }.into(),
    }
}

/// Builds the `swc` import declaration `ModuleDecl::Import` with these
/// specifiers, from the module `src`; nothing else is set.
#[verifier::external_body]
pub(crate) fn build_import(specifiers: Vec<RawImportSpecifier>, src: String) -> (raw: Box<
    RawModuleDecl,
>)
    ensures
        *raw == raw_import_of(specifiers@, src@),
{
    let src = Box::new(src.into());
    let phase = Default::default();
    let import = RawImportDecl { span: DUMMY_SP, specifiers, src, type_only: false, with: None, phase };
    Box::new(RawModuleDecl::Import(import))
}

/// Builds the `swc` declaration `export default expr`, as
/// `ModuleDecl::ExportDefaultExpr` without a position.
#[verifier::external_body]
pub(crate) fn build_export_default(expr: Box<RawExpr>) -> (raw: Box<RawModuleDecl>)
    ensures
        *raw == raw_export_default_of(*expr),
{
    Box::new(RawModuleDecl::ExportDefaultExpr(ExportDefaultExpr { span: DUMMY_SP, expr }))
}

/// Builds the `swc` declaration `ModuleDecl::ExportDefaultDecl`, without a
/// position, that declares the class of an `Expr::Class` or the function
/// of an `Expr::Fn`. Any other expression is exported as
/// `ModuleDecl::ExportDefaultExpr`.
#[verifier::external_body]
pub(crate) fn build_export_default_decl(expr: Box<RawExpr>) -> (raw: Box<RawModuleDecl>)
    ensures
        *raw == raw_export_default_decl_of(*expr),
{
    let decl = match *expr {
        RawExpr::Class(class) => DefaultDecl::Class(class),
        RawExpr::Fn(function) => DefaultDecl::Fn(function),
        other => {
            let expr = Box::new(other);
            return Box::new(RawModuleDecl::ExportDefaultExpr(ExportDefaultExpr { span: DUMMY_SP, expr }));
        },
    };
    Box::new(RawModuleDecl::ExportDefaultDecl(ExportDefaultDecl { span: DUMMY_SP, decl }))
}

/// The `swc` expression that is built from the parts of an assignment, an
/// update or an `await`, without positions.
pub uninterp spec fn raw_effect_of(effect: Effect) -> RawExpr;

/// Builds the `swc` expression `Expr::Assign`, `Expr::Update` or
/// `Expr::Await` with these fields and no position. The target of an
/// assignment is what `swc` makes of the expression as a target, and its
/// placeholder for an invalid target where it makes none.
/// `Effect::Other` gives its expression back.
#[verifier::external_body]
pub(crate) fn build_effect(effect: Effect) -> (raw: Box<RawExpr>)
    ensures
        *raw == raw_effect_of(effect),
{
    Box::new(match effect {
        Effect::Assign(op, left, right) => {
            let left = match AssignTarget::try_from(left) {
                Ok(target) => target,
                Err(_) => SimpleAssignTarget::Invalid(Invalid { span: DUMMY_SP }).into(),
            };
            AssignExpr { span: DUMMY_SP, op, left, right }.into()
        },
        Effect::Update(op, prefix, arg) => UpdateExpr { span: DUMMY_SP, op, prefix, arg }.into(),
        Effect::Await(arg) => AwaitExpr { span: DUMMY_SP, arg }.into(),
        Effect::Other(rest) => *rest,
    })
}

// Copying.

/// `swc`'s own copy of an expression is the same expression.
pub assume_specification[ <swc_core::ecma::ast::Expr as Clone>::clone ](
    raw: &swc_core::ecma::ast::Expr,
) -> (copy: swc_core::ecma::ast::Expr)
    ensures
        copy == *raw,
;

/// `swc`'s own copy of a property is the same property.
pub assume_specification[ <swc_core::ecma::ast::Prop as Clone>::clone ](
    raw: &swc_core::ecma::ast::Prop,
) -> (copy: swc_core::ecma::ast::Prop)
    ensures
        copy == *raw,
;

/// `swc`'s own copy of a property name is the same name.
pub assume_specification[ <swc_core::ecma::ast::PropName as Clone>::clone ](
    raw: &swc_core::ecma::ast::PropName,
) -> (copy: swc_core::ecma::ast::PropName)
    ensures
        copy == *raw,
;

/// `swc`'s own copy of a pattern is the same pattern.
pub assume_specification[ <swc_core::ecma::ast::Pat as Clone>::clone ](
    raw: &swc_core::ecma::ast::Pat,
) -> (copy: swc_core::ecma::ast::Pat)
    ensures
        copy == *raw,
;

/// `swc`'s own copy of a piece of a template literal is the same piece.
pub assume_specification[ <swc_core::ecma::ast::TplElement as Clone>::clone ](
    raw: &swc_core::ecma::ast::TplElement,
) -> (copy: swc_core::ecma::ast::TplElement)
    ensures
        copy == *raw,
;

/// `swc`'s own copy of a statement is the same statement.
pub assume_specification[ <swc_core::ecma::ast::Stmt as Clone>::clone ](
    raw: &swc_core::ecma::ast::Stmt,
) -> (copy: swc_core::ecma::ast::Stmt)
    ensures
        copy == *raw,
;

/// `swc`'s own copy of a module declaration is the same declaration.
pub assume_specification[ <swc_core::ecma::ast::ModuleDecl as Clone>::clone ](
    raw: &swc_core::ecma::ast::ModuleDecl,
) -> (copy: swc_core::ecma::ast::ModuleDecl)
    ensures
        copy == *raw,
;

// Writing.

/// The text that the `swc` emitter writes for an expression, compact where
/// `minify`.
pub uninterp spec fn emitted_expr(raw: RawExpr, minify: bool) -> Seq<char>;

/// The text that the `swc` emitter writes for the module that holds these
/// items and begins with this interpreter line, compact where `minify`.
pub uninterp spec fn emitted_module(
    items: Seq<RawItem>,
    shebang: Option<Seq<char>>,
    minify: bool,
) -> Seq<char>;

/// `swc_ecma_codegen`'s emitter on an expression, writing into memory with
/// `"\n"` as its line end, no comments, the target that `EsVersion` has by
/// default and otherwise the default configuration but for `minify`: the
/// text that it wrote. The emitter stops the program at a template
/// literal whose pieces of text and expressions do not match in number
/// and, where it is built with debug assertions, at an optional call
/// whose callee is a `new` expression; the expression is therefore one
/// that a writable tree stands for.
#[verifier::external_body]
pub(crate) fn emit_expr(raw: &RawExpr, minify: bool) -> (text: String)
    requires
        exists|item: Expression| writable(item@) && *raw == #[trigger] lowered(item),
    ensures
        text@ == emitted_expr(*raw, minify),
{
    let cm: Lrc<SourceMap> = Default::default();
    let mut buffer: Vec<u8> = Vec::new();
    let mut emitter = Emitter {
        cfg: Config::default().with_target(EsVersion::default()).with_minify(minify),
        comments: None,
        wr: JsWriter::new(cm.clone(), "\n", &mut buffer, None),
        cm,
    };
    let _ = raw.emit_with(&mut emitter);
    drop(emitter);
    String::from_utf8_lossy(&buffer).into_owned()
}

/// `swc_ecma_codegen`'s emitter on the module that holds `items` and
/// begins with the interpreter line `shebang`, without a position, writing
/// into memory with `"\n"` as its line end, no comments, the target that
/// `EsVersion` has by default and otherwise the default configuration but
/// for `minify`: the text that it wrote. The emitter stops the program at
/// a template literal whose pieces of text and expressions do not match
/// in number, at an import with a namespace specifier among more than two
/// specifiers, at an export with a default specifier and, where it is
/// built with debug assertions, at an optional call whose callee is a
/// `new` expression; the items are therefore those that the items of a
/// writable module stand for.
#[verifier::external_body]
pub(crate) fn emit_module(items: Vec<RawItem>, shebang: Option<String>, minify: bool) -> (text:
    String)
    requires
        exists|module: Module|
            writable_items(module@.body) && items@ == #[trigger] lowered_items(module.body@),
    ensures
        text@ == emitted_module(
            items@,
            match shebang {
                Some(line) => Some(line@),
                None => None,
            },
            minify,
        ),
{
    let body = items.into_iter().map(|item| match item {
        RawItem::Decl(decl) => RawModuleItem::ModuleDecl(*decl),
        RawItem::Stmt(stmt) => RawModuleItem::Stmt(*stmt),
    }).collect();
    let module = RawModule { span: DUMMY_SP, body, shebang: shebang.map(Into::into) };
    let cm: Lrc<SourceMap> = Default::default();
    let mut buffer: Vec<u8> = Vec::new();
    let wr = JsWriter::new(cm.clone(), "\n", &mut buffer, None);
    let cfg = Config::default().with_target(EsVersion::default()).with_minify(minify);
    let mut emitter = Emitter { cfg, comments: None, wr, cm };
    let _ = module.emit_with(&mut emitter);
    drop(emitter);
    String::from_utf8_lossy(&buffer).into_owned()
}

} // verus!
