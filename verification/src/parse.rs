//! Reading the text of a template expression into a syntax tree.

use vstd::prelude::*;
use vstd::string::StrSliceExecFns;
use swc_core::ecma::ast::Expr as RawExpr;
use swc_core::ecma::ast::Pat as RawPat;
use swc_core::ecma::ast::PropName as RawPropName;
use swc_core::ecma::ast::Stmt as RawStmt;
use crate::ast::ArrowExprView;
use crate::ast::BlockStmt;
use crate::ast::BlockStmtOrExpr;
use crate::ast::BlockStmtOrExprView;
use crate::ast::BlockStmtView;
use crate::ast::Expression;
use crate::ast::ExpressionView;
use crate::ast::ExprOrSpread;
use crate::ast::ExprOrSpreadView;
use crate::ast::ObjectLit;
use crate::ast::ObjectLitView;
use crate::ast::Pattern;
use crate::ast::PatternView;
use crate::ast::Property;
use crate::ast::PropertyName;
use crate::ast::PropertyNameView;
use crate::ast::PropertyView;
use crate::ast::PropOrSpread;
use crate::ast::PropOrSpreadView;
use crate::ast::Statement;
use crate::ast::StatementView;
use crate::ast::TplView;
use crate::raw::Access;
use crate::raw::ArrowBody;
use crate::raw::ArrowParts;
use crate::raw::begins_member;
use crate::raw::Chain;
use crate::raw::Effect;
use crate::raw::Entry;
use crate::raw::Layer;
use crate::raw::List;
use crate::raw::NameParts;
use crate::raw::NewParts;
use crate::raw::parse_raw;
use crate::raw::PatParts;
use crate::raw::peel;
use crate::raw::peel_access;
use crate::raw::peel_arrow;
use crate::raw::peel_chain;
use crate::raw::peel_effect;
use crate::raw::peel_list;
use crate::raw::peel_new;
use crate::raw::peel_pat;
use crate::raw::peel_prop;
use crate::raw::peel_prop_name;
use crate::raw::peel_stmt;
use crate::raw::peel_tpl;
use crate::raw::peeled;
use crate::raw::peeled_access;
use crate::raw::peeled_arrow;
use crate::raw::peeled_chain;
use crate::raw::peeled_effect;
use crate::raw::peeled_list;
use crate::raw::peeled_new;
use crate::raw::peeled_pat;
use crate::raw::peeled_prop;
use crate::raw::peeled_prop_name;
use crate::raw::peeled_stmt;
use crate::raw::peeled_tpl;
use crate::raw::plain_chains;
use crate::raw::PropParts;
use crate::raw::raw_parsed;
use crate::raw::RawArg;
use crate::raw::RawNode;
use crate::raw::StmtParts;
use crate::raw::TplParts;
use crate::raw::well_formed;
use crate::raw::wf_args;
use crate::raw::wf_elems;
use crate::raw::wf_entries;
use crate::raw::wf_entry;
use crate::raw::wf_expr;
use crate::raw::wf_exprs;
use crate::raw::wf_pats;
use crate::raw::wf_stmts;
use crate::writable::plain_callee;
use crate::writable::writable;
use crate::writable::writable_args;
use crate::writable::writable_elems;
use crate::writable::writable_entry;
use crate::writable::writable_exprs;
use crate::writable::writable_name;
use crate::writable::writable_params;
use crate::writable::writable_pat;
use crate::writable::writable_props;
use crate::writable::writable_stmt;
use crate::writable::writable_stmts;

verus! {

/// The tree that stands for the `swc` expression `raw`, read down to
/// `depth` nodes deep. Identifiers, parentheses, unary and binary
/// operations, conditionals, member accesses, calls, the links of optional
/// chains, `new` expressions, sequences, array literals, object literals,
/// template literals, arrow functions, assignments to a name or to a
/// member, updates and `await` are read; a literal is kept whole as
/// `Literal`, and any other node, and any node below that depth, as `Raw`.
pub open spec fn lifted(raw: RawExpr, depth: nat) -> ExpressionView
    decreases depth, 0nat, 0nat,
{
    if depth == 0 {
        ExpressionView::Raw(raw)
    } else {
        let below = (depth - 1) as nat;
        match peeled(raw) {
            Layer::Ident(name) => ExpressionView::Ident(name@),
            Layer::Paren(inner) => ExpressionView::Paren(Box::new(lifted(*inner, below))),
            Layer::Unary(op, arg) => ExpressionView::Unary {
                op,
                arg: Box::new(lifted(*arg, below)),
            },
            Layer::Bin(op, left, right) => ExpressionView::Bin {
                op,
                left: Box::new(lifted(*left, below)),
                right: Box::new(lifted(*right, below)),
            },
            Layer::Cond(test, cons, alt) => ExpressionView::Cond {
                test: Box::new(lifted(*test, below)),
                cons: Box::new(lifted(*cons, below)),
                alt: Box::new(lifted(*alt, below)),
            },
            Layer::Literal(literal) => ExpressionView::Literal(*literal),
            Layer::Other(rest) => match peeled_access(*rest) {
                Access::Other(rest) => lifted_list(*rest, below),
                access => lifted_access(access, below),
            },
        }
    }
}

/// The tree that stands for `raw`, where it is a sequence, an array
/// literal or an object literal, with what is below it read down to
/// `depth` nodes deep; else what [`lifted_rest`] gives.
pub open spec fn lifted_list(raw: RawExpr, depth: nat) -> ExpressionView
    decreases depth, 5nat, 0nat,
{
    match peeled_list(raw) {
        List::Sequence(exprs) => ExpressionView::Sequence(lifted_exprs(exprs@, depth)),
        List::Array(elems) => ExpressionView::Array(lifted_elems(elems@, depth)),
        List::Object(entries) => ExpressionView::Object(
            ObjectLitView { props: lifted_entries(entries@, depth) },
        ),
        List::Other(rest) => lifted_rest(*rest, depth),
    }
}

/// A callee of an optional call: `callee` itself where it is plainly no
/// `new` expression, else `callee` in parentheses, which the emitter
/// asks for round a `new` expression there.
pub open spec fn guarded(callee: ExpressionView) -> ExpressionView {
    if plain_callee(callee) {
        callee
    } else {
        ExpressionView::Paren(Box::new(callee))
    }
}

/// The base of a link of an optional chain, with what is below it read
/// down to `depth` nodes deep: a member access, or a call with its callee
/// guarded.
pub open spec fn lifted_link(access: Access, depth: nat) -> ExpressionView
    decreases depth, 3nat, 1nat,
{
    match access {
        Access::Call(callee, args) => ExpressionView::Call {
            callee: Box::new(guarded(lifted(*callee, depth))),
            args: lifted_args(args@, depth),
        },
        access => lifted_access(access, depth),
    }
}

/// The tree that stands for `raw`, where it is a link of an optional
/// chain, an arrow function, a `new` expression, a template literal, an
/// assignment to a name or to a member, an update or an `await`, with
/// what is below it read down to `depth` nodes deep; else `raw`, kept
/// whole.
pub open spec fn lifted_rest(raw: RawExpr, depth: nat) -> ExpressionView
    decreases depth, 4nat, 0nat,
{
    match peeled_chain(raw) {
        Chain::Link(optional, base) => ExpressionView::OptChain {
            optional,
            base: Box::new(lifted_link(peeled_access(*base), depth)),
        },
        Chain::Other(rest) => match peeled_arrow(*rest) {
            ArrowParts::Arrow(params, body, is_async) => ExpressionView::Arrow(
                ArrowExprView {
                    params: lifted_params(params@),
                    body: match body {
                        ArrowBody::Expr(expr) => BlockStmtOrExprView::Expr(
                            Box::new(lifted(*expr, depth)),
                        ),
                        ArrowBody::Block(stmts) => BlockStmtOrExprView::BlockStmt(
                            BlockStmtView { stmts: lifted_stmts(stmts@, depth) },
                        ),
                    },
                    is_async,
                },
            ),
            ArrowParts::Other(rest) => match peeled_new(*rest) {
                NewParts::New(callee, args) => ExpressionView::New {
                    callee: Box::new(lifted(*callee, depth)),
                    args: match args {
                        Some(args) => Some(lifted_args(args@, depth)),
                        None => None,
                    },
                },
                NewParts::Other(rest) => match peeled_tpl(*rest) {
                    TplParts::Tpl(quasis, exprs) => ExpressionView::Tpl(
                        TplView { quasis: quasis@, exprs: lifted_exprs(exprs@, depth) },
                    ),
                    TplParts::Other(rest) => match peeled_effect(*rest) {
                        Effect::Assign(op, left, right) => ExpressionView::Assign {
                            op,
                            left: Box::new(lifted(*left, depth)),
                            right: Box::new(lifted(*right, depth)),
                        },
                        Effect::Update(op, prefix, arg) => ExpressionView::Update {
                            op,
                            prefix,
                            arg: Box::new(lifted(*arg, depth)),
                        },
                        Effect::Await(arg) => ExpressionView::Await(
                            Box::new(lifted(*arg, depth)),
                        ),
                        Effect::Other(rest) => ExpressionView::Raw(*rest),
                    },
                },
            },
        },
    }
}

/// The parameter that stands for `pat`: a plain name is read, any other
/// pattern is kept whole.
pub open spec fn lifted_pat(pat: RawPat) -> PatternView {
    match peeled_pat(pat) {
        PatParts::Ident(name) => PatternView::Ident(name@),
        PatParts::Other(rest) => PatternView::Raw(rest),
    }
}

/// The parameters that stand for `params`.
pub open spec fn lifted_params(params: Seq<RawPat>) -> Seq<PatternView> {
    params.map_values(|pat: RawPat| lifted_pat(pat))
}

/// The statement that stands for `stmt`, read down to `depth` nodes deep:
/// a `return` statement and an expression statement are read, any other
/// statement is kept whole.
pub open spec fn lifted_stmt(stmt: RawStmt, depth: nat) -> StatementView
    decreases depth, 1nat, 0nat,
{
    match peeled_stmt(stmt) {
        StmtParts::Return(Some(expr)) => StatementView::Return(Some(lifted(*expr, depth))),
        StmtParts::Return(None) => StatementView::Return(None),
        StmtParts::Expr(expr) => StatementView::Expr(lifted(*expr, depth)),
        StmtParts::Other(rest) => StatementView::Raw(rest),
    }
}

/// The statements that stand for `stmts`, each read down to `depth` nodes
/// deep.
pub open spec fn lifted_stmts(stmts: Seq<RawStmt>, depth: nat) -> Seq<StatementView>
    decreases depth, 2nat, stmts.len(),
{
    if stmts.len() == 0 {
        Seq::empty()
    } else {
        lifted_stmts(stmts.drop_last(), depth).push(lifted_stmt(stmts.last(), depth))
    }
}

/// The member access or call that stands for `access`, with what is below
/// it read down to `depth` nodes deep.
pub open spec fn lifted_access(access: Access, depth: nat) -> ExpressionView
    decreases depth, 3nat, 0nat,
{
    match access {
        Access::Member(obj, prop) => ExpressionView::Member {
            obj: Box::new(lifted(*obj, depth)),
            prop: prop@,
        },
        Access::Index(obj, index) => ExpressionView::Index {
            obj: Box::new(lifted(*obj, depth)),
            index: Box::new(lifted(*index, depth)),
        },
        Access::Call(callee, args) => ExpressionView::Call {
            callee: Box::new(lifted(*callee, depth)),
            args: lifted_args(args@, depth),
        },
        Access::Other(rest) => ExpressionView::Raw(*rest),
    }
}

/// The arguments that stand for `args`, each read down to `depth` nodes
/// deep.
pub open spec fn lifted_args(args: Seq<RawArg>, depth: nat) -> Seq<ExprOrSpreadView>
    decreases depth, 1nat, args.len(),
{
    if args.len() == 0 {
        Seq::empty()
    } else {
        lifted_args(args.drop_last(), depth).push(
            ExprOrSpreadView {
                spread: args.last().spread,
                expr: lifted(*args.last().expr, depth),
            },
        )
    }
}

/// The expressions that stand for `exprs`, each read down to `depth` nodes
/// deep.
pub open spec fn lifted_exprs(exprs: Seq<Box<RawExpr>>, depth: nat) -> Seq<ExpressionView>
    decreases depth, 1nat, exprs.len(),
{
    if exprs.len() == 0 {
        Seq::empty()
    } else {
        lifted_exprs(exprs.drop_last(), depth).push(lifted(*exprs.last(), depth))
    }
}

/// The array elements that stand for `elems`, each read down to `depth`
/// nodes deep.
pub open spec fn lifted_elems(elems: Seq<Option<RawArg>>, depth: nat) -> Seq<
    Option<ExprOrSpreadView>,
>
    decreases depth, 1nat, elems.len(),
{
    if elems.len() == 0 {
        Seq::empty()
    } else {
        lifted_elems(elems.drop_last(), depth).push(
            match elems.last() {
                Some(elem) => Some(
                    ExprOrSpreadView { spread: elem.spread, expr: lifted(*elem.expr, depth) },
                ),
                None => None,
            },
        )
    }
}

/// The property name that stands for `name`: a plain name and a name
/// written as a string are read, any other is kept whole.
pub open spec fn lifted_prop_name(name: RawPropName) -> PropertyNameView {
    match peeled_prop_name(name) {
        NameParts::Ident(name) => PropertyNameView::Ident(name@),
        NameParts::Str(value, raw) => PropertyNameView::Str {
            value: value@,
            raw: match raw {
                Some(r) => Some(r@),
                None => None,
            },
        },
        NameParts::Other(rest) => PropertyNameView::Raw(rest),
    }
}

/// The entry that stands for `entry`, read down to `depth` nodes deep. A
/// spread entry and a `key: value` property are read; a shorthand `name`
/// is read as `name: name`; any other property is kept whole.
pub open spec fn lifted_entry(entry: Entry, depth: nat) -> PropOrSpreadView
    decreases depth, 1nat, 0nat,
{
    match entry {
        Entry::Spread(expr) => PropOrSpreadView::Spread(lifted(*expr, depth)),
        Entry::Prop(prop) => PropOrSpreadView::Prop(
            match peeled_prop(*prop) {
                PropParts::KeyValue(key, value) => PropertyView::KeyValue {
                    key: lifted_prop_name(key),
                    value: lifted(*value, depth),
                },
                PropParts::Shorthand(name) => PropertyView::KeyValue {
                    key: PropertyNameView::Ident(name@),
                    value: ExpressionView::Ident(name@),
                },
                PropParts::Other(rest) => PropertyView::Raw(*rest),
            },
        ),
    }
}

/// The entries that stand for `entries`, each read down to `depth` nodes
/// deep.
pub open spec fn lifted_entries(entries: Seq<Entry>, depth: nat) -> Seq<PropOrSpreadView>
    decreases depth, 2nat, entries.len(),
{
    if entries.len() == 0 {
        Seq::empty()
    } else {
        lifted_entries(entries.drop_last(), depth).push(lifted_entry(entries.last(), depth))
    }
}

/// What the text of an expression is read as: the tree that stands for
/// what the `swc` parser makes of it, or `None` where the parser refuses
/// the text. The tree is read as deep as the text has characters, which is
/// deeper than any expression written in that many characters.
pub open spec fn parsed(text: Seq<char>) -> Option<ExpressionView> {
    match raw_parsed(text) {
        Some(raw) => Some(lifted(raw, text.len())),
        None => None,
    }
}

/// The tree that stands for `raw`, read down to `depth` nodes deep.
pub fn lift(raw: Box<RawExpr>, depth: usize) -> (expr: Expression)
    ensures
        expr@ == lifted(*raw, depth as nat),
        wf_expr(*raw) ==> writable(expr@),
    decreases depth, 0nat,
{
    if depth == 0 {
        return Expression::Raw(raw);
    }
    let below = depth - 1;
    match peel(raw) {
        Layer::Ident(name) => Expression::ident(name),
        Layer::Paren(inner) => Expression::paren(lift(inner, below)),
        Layer::Unary(op, arg) => Expression::unary(op, lift(arg, below)),
        Layer::Bin(op, left, right) => {
            let left = lift(left, below);
            let right = lift(right, below);
            Expression::binary(op, left, right)
        },
        Layer::Cond(test, cons, alt) => {
            let test = lift(test, below);
            let cons = lift(cons, below);
            let alt = lift(alt, below);
            Expression::conditional(test, cons, alt)
        },
        Layer::Literal(literal) => Expression::Literal(literal),
        Layer::Other(rest) => match peel_access(rest) {
            Access::Other(rest) => lift_list(rest, below),
            access => lift_access(access, below),
        },
    }
}

/// The tree that stands for `raw`, where it is a sequence, an array
/// literal or an object literal; else what [`lift_rest`] gives.
fn lift_list(raw: Box<RawExpr>, depth: usize) -> (expr: Expression)
    ensures
        expr@ == lifted_list(*raw, depth as nat),
        wf_expr(*raw) ==> writable(expr@),
    decreases depth, 5nat,
{
    match peel_list(raw) {
        List::Sequence(exprs) => Expression::sequence(lift_exprs(exprs, depth)),
        List::Array(elems) => Expression::array(lift_elems(elems, depth)),
        List::Object(entries) => Expression::object(ObjectLit::new(lift_entries(entries, depth))),
        List::Other(rest) => lift_rest(rest, depth),
    }
}

/// Puts a callee of an optional call in parentheses, unless it is plainly
/// no `new` expression.
fn guard(callee: Expression) -> (out: Expression)
    ensures
        out@ == guarded(callee@),
        plain_callee(out@),
        writable(callee@) ==> writable(out@),
{
    proof {
        reveal_with_fuel(Expression::model, 2);
    }
    let plain = match &callee {
        Expression::New { .. } => false,
        Expression::Raw(_) => false,
        Expression::Literal(_) => false,
        Expression::OptChain { optional, base } => match &**base {
            Expression::Member { .. } => true,
            Expression::Index { .. } => true,
            Expression::Call { .. } => true,
            _ => false,
        },
        _ => true,
    };
    if plain {
        callee
    } else {
        Expression::paren(callee)
    }
}

/// Whether a member follows each `?.` of `text` at once.
pub fn has_plain_chains(text: &str) -> (plain: bool)
    ensures
        plain == plain_chains(text@),
{
    let len = text.unicode_len();
    if len < 2 {
        return true;
    }
    let mut i: usize = 0;
    while i < len - 1
        invariant
            2 <= len == text@.len(),
            forall|j: int|
                0 <= j < i && j + 1 < len && text@[j] == '?' && #[trigger] text@[j + 1] == '.' ==> j
                    + 2 < len && begins_member(text@[j + 2]),
        decreases len - i,
    {
        if text.get_char(i) == '?' && text.get_char(i + 1) == '.' {
            if i + 2 >= len {
                return false;
            }
            let c = text.get_char(i + 2);
            let begins = ('a' <= c && c <= 'z') || ('A' <= c && c <= 'Z') || c == '_' || c == '$'
                || c == '#' || c == '[';
            if !begins {
                return false;
            }
        }
        i = i + 1;
    }
    true
}

/// The tree that stands for `raw`, where it is a link of an optional
/// chain, an arrow function, a `new` expression, a template literal, an
/// assignment, an update or an `await`; else `raw`, kept whole.
fn lift_rest(raw: Box<RawExpr>, depth: usize) -> (expr: Expression)
    ensures
        expr@ == lifted_rest(*raw, depth as nat),
        wf_expr(*raw) ==> writable(expr@),
    decreases depth, 4nat,
{
    let rest = match peel_chain(raw) {
        Chain::Link(optional, base) => {
            let base = match peel_access(base) {
                Access::Call(callee, args) => {
                    let callee = guard(lift(callee, depth));
                    let args = lift_args(args, depth);
                    Expression::call(callee, args)
                },
                access => lift_access(access, depth),
            };
            return Expression::opt_chain(optional, base);
        },
        Chain::Other(rest) => rest,
    };
    let rest = match peel_arrow(rest) {
        ArrowParts::Arrow(params, body, is_async) => {
            let params = lift_params(params);
            let body = match body {
                ArrowBody::Expr(expr) => BlockStmtOrExpr::Expr(Box::new(lift(expr, depth))),
                ArrowBody::Block(stmts) => BlockStmtOrExpr::BlockStmt(
                    BlockStmt::new(lift_stmts(stmts, depth)),
                ),
            };
            return Expression::arrow(params, body, is_async);
        },
        ArrowParts::Other(rest) => rest,
    };
    let rest = match peel_new(rest) {
        NewParts::New(callee, args) => {
            let callee = lift(callee, depth);
            let args = match args {
                Some(args) => Some(lift_args(args, depth)),
                None => None,
            };
            return Expression::new_object(callee, args);
        },
        NewParts::Other(rest) => rest,
    };
    let rest = match peel_tpl(rest) {
        TplParts::Tpl(quasis, exprs) => {
            return Expression::template(quasis, lift_exprs(exprs, depth));
        },
        TplParts::Other(rest) => rest,
    };
    match peel_effect(rest) {
        Effect::Assign(op, left, right) => {
            let left = lift(left, depth);
            let right = lift(right, depth);
            Expression::assign(op, left, right)
        },
        Effect::Update(op, prefix, arg) => Expression::update(op, prefix, lift(arg, depth)),
        Effect::Await(arg) => Expression::awaited(lift(arg, depth)),
        Effect::Other(rest) => Expression::Raw(rest),
    }
}

/// The parameters that stand for `params`.
fn lift_params(params: Vec<RawPat>) -> (out: Vec<Pattern>)
    ensures
        crate::ast::params_view(out@) == lifted_params(params@),
        wf_pats(params@) ==> writable_params(lifted_params(params@)),
{
    let ghost old_params = params@;
    let mut out: Vec<Pattern> = Vec::new();
    for pat in it: params.into_iter()
        invariant
            it.seq() == old_params,
            out@.len() == it.index(),
            forall|i: int| 0 <= i < it.index() ==> #[trigger] out@[i]@ == lifted_pat(old_params[i]),
            forall|i: int|
                0 <= i < it.index() && well_formed(RawNode::Pat(old_params[i])) ==> writable_pat(
                    #[trigger] lifted_pat(old_params[i]),
                ),
    {
        let read = match peel_pat(pat) {
            PatParts::Ident(name) => Pattern::Ident(name),
            PatParts::Other(rest) => Pattern::Raw(Box::new(rest)),
        };
        out.push(read);
    }
    out
}

/// The statement that stands for `stmt`, read down to `depth` nodes deep.
fn lift_stmt(stmt: RawStmt, depth: usize) -> (out: Statement)
    ensures
        out@ == lifted_stmt(stmt, depth as nat),
        well_formed(RawNode::Stmt(stmt)) ==> writable_stmt(out@),
    decreases depth, 2nat,
{
    match peel_stmt(stmt) {
        StmtParts::Return(Some(expr)) => Statement::Return(Some(lift(expr, depth))),
        StmtParts::Return(None) => Statement::Return(None),
        StmtParts::Expr(expr) => Statement::Expr(lift(expr, depth)),
        StmtParts::Other(rest) => Statement::Raw(Box::new(rest)),
    }
}

/// The statements that stand for `stmts`, each read down to `depth` nodes
/// deep.
fn lift_stmts(stmts: Vec<RawStmt>, depth: usize) -> (out: Vec<Statement>)
    ensures
        crate::ast::stmts_view(out@) == lifted_stmts(stmts@, depth as nat),
        wf_stmts(stmts@) ==> writable_stmts(lifted_stmts(stmts@, depth as nat)),
    decreases depth, 3nat,
{
    let ghost old_stmts = stmts@;
    let mut out: Vec<Statement> = Vec::new();
    for stmt in it: stmts.into_iter()
        invariant
            it.seq() == old_stmts,
            crate::ast::stmts_view(out@) == lifted_stmts(old_stmts.take(it.index()), depth as nat),
            wf_stmts(old_stmts) ==> writable_stmts(
                lifted_stmts(old_stmts.take(it.index()), depth as nat),
            ),
    {
        let ghost seen = old_stmts.take(it.index() + 1);
        assert(seen.drop_last() == old_stmts.take(it.index()));
        assert(lifted_stmts(seen, depth as nat).drop_last() == lifted_stmts(
            seen.drop_last(),
            depth as nat,
        ));
        assert(wf_stmts(old_stmts) ==> well_formed(RawNode::Stmt(old_stmts[it.index()])));
        out.push(lift_stmt(stmt, depth));
    }
    assert(old_stmts.take(old_stmts.len() as int) == old_stmts);
    out
}

/// The member access or call that stands for `access`, with what is below
/// it read down to `depth` nodes deep.
fn lift_access(access: Access, depth: usize) -> (expr: Expression)
    ensures
        expr@ == lifted_access(access, depth as nat),
        access.wf() ==> writable(expr@),
    decreases depth, 3nat,
{
    match access {
        Access::Member(obj, prop) => Expression::member(lift(obj, depth), prop),
        Access::Index(obj, index) => {
            let obj = lift(obj, depth);
            let index = lift(index, depth);
            Expression::index(obj, index)
        },
        Access::Call(callee, args) => {
            let callee = lift(callee, depth);
            let args = lift_args(args, depth);
            Expression::call(callee, args)
        },
        Access::Other(rest) => Expression::Raw(rest),
    }
}

/// The arguments that stand for `args`, each read down to `depth` nodes
/// deep.
fn lift_args(args: Vec<RawArg>, depth: usize) -> (out: Vec<ExprOrSpread>)
    ensures
        crate::ast::args_view(out@) == lifted_args(args@, depth as nat),
        wf_args(args@) ==> writable_args(lifted_args(args@, depth as nat)),
    decreases depth, 1nat,
{
    let ghost old_args = args@;
    let mut out: Vec<ExprOrSpread> = Vec::new();
    for arg in it: args.into_iter()
        invariant
            it.seq() == old_args,
            crate::ast::args_view(out@) == lifted_args(old_args.take(it.index()), depth as nat),
            wf_args(old_args) ==> writable_args(
                lifted_args(old_args.take(it.index()), depth as nat),
            ),
    {
        let ghost seen = old_args.take(it.index() + 1);
        assert(seen.drop_last() == old_args.take(it.index()));
        assert(lifted_args(seen, depth as nat).drop_last() == lifted_args(
            seen.drop_last(),
            depth as nat,
        ));
        let RawArg { spread, expr } = arg;
        let expr = lift(expr, depth);
        out.push(ExprOrSpread { spread, expr });
    }
    assert(old_args.take(old_args.len() as int) == old_args);
    out
}

/// The expressions that stand for `exprs`, each read down to `depth` nodes
/// deep.
fn lift_exprs(exprs: Vec<Box<RawExpr>>, depth: usize) -> (out: Vec<Expression>)
    ensures
        crate::ast::exprs_view(out@) == lifted_exprs(exprs@, depth as nat),
        wf_exprs(exprs@) ==> writable_exprs(lifted_exprs(exprs@, depth as nat)),
        out@.len() == exprs@.len(),
    decreases depth, 1nat,
{
    let ghost old_exprs = exprs@;
    let mut out: Vec<Expression> = Vec::new();
    for expr in it: exprs.into_iter()
        invariant
            it.seq() == old_exprs,
            out@.len() == it.index(),
            crate::ast::exprs_view(out@) == lifted_exprs(old_exprs.take(it.index()), depth as nat),
            wf_exprs(old_exprs) ==> writable_exprs(
                lifted_exprs(old_exprs.take(it.index()), depth as nat),
            ),
    {
        let ghost seen = old_exprs.take(it.index() + 1);
        assert(seen.drop_last() == old_exprs.take(it.index()));
        assert(lifted_exprs(seen, depth as nat).drop_last() == lifted_exprs(
            seen.drop_last(),
            depth as nat,
        ));
        out.push(lift(expr, depth));
    }
    assert(old_exprs.take(old_exprs.len() as int) == old_exprs);
    out
}

/// The array elements that stand for `elems`, each read down to `depth`
/// nodes deep.
fn lift_elems(elems: Vec<Option<RawArg>>, depth: usize) -> (out: Vec<Option<ExprOrSpread>>)
    ensures
        crate::ast::elems_view(out@) == lifted_elems(elems@, depth as nat),
        wf_elems(elems@) ==> writable_elems(lifted_elems(elems@, depth as nat)),
    decreases depth, 1nat,
{
    let ghost old_elems = elems@;
    let mut out: Vec<Option<ExprOrSpread>> = Vec::new();
    for elem in it: elems.into_iter()
        invariant
            it.seq() == old_elems,
            crate::ast::elems_view(out@) == lifted_elems(old_elems.take(it.index()), depth as nat),
            wf_elems(old_elems) ==> writable_elems(
                lifted_elems(old_elems.take(it.index()), depth as nat),
            ),
    {
        let ghost seen = old_elems.take(it.index() + 1);
        assert(seen.drop_last() == old_elems.take(it.index()));
        assert(lifted_elems(seen, depth as nat).drop_last() == lifted_elems(
            seen.drop_last(),
            depth as nat,
        ));
        let read = match elem {
            Some(RawArg { spread, expr }) => Some(ExprOrSpread { spread, expr: lift(expr, depth) }),
            None => None,
        };
        out.push(read);
    }
    assert(old_elems.take(old_elems.len() as int) == old_elems);
    out
}

/// The property name that stands for `name`.
fn lift_prop_name(name: RawPropName) -> (out: PropertyName)
    ensures
        out@ == lifted_prop_name(name),
        well_formed(RawNode::PropName(name)) ==> writable_name(out@),
{
    match peel_prop_name(name) {
        NameParts::Ident(name) => PropertyName::Ident(name),
        NameParts::Str(value, raw) => PropertyName::Str { value, raw },
        NameParts::Other(rest) => PropertyName::Raw(Box::new(rest)),
    }
}

/// The entry that stands for `entry`, read down to `depth` nodes deep.
fn lift_entry(entry: Entry, depth: usize) -> (out: PropOrSpread)
    ensures
        out@ == lifted_entry(entry, depth as nat),
        wf_entry(entry) ==> writable_entry(out@),
    decreases depth, 1nat,
{
    match entry {
        Entry::Spread(expr) => PropOrSpread::spread(lift(expr, depth)),
        Entry::Prop(prop) => match peel_prop(prop) {
            PropParts::KeyValue(key, value) => {
                let key = lift_prop_name(key);
                PropOrSpread::key_value(key, lift(value, depth))
            },
            PropParts::Shorthand(name) => {
                let key = PropertyName::Ident(name.clone());
                PropOrSpread::key_value(key, Expression::ident(name))
            },
            PropParts::Other(rest) => PropOrSpread::Prop(Property::Raw(rest)),
        },
    }
}

/// The entries that stand for `entries`, each read down to `depth` nodes
/// deep.
fn lift_entries(entries: Vec<Entry>, depth: usize) -> (out: Vec<PropOrSpread>)
    ensures
        crate::ast::props_view(out@) == lifted_entries(entries@, depth as nat),
        wf_entries(entries@) ==> writable_props(lifted_entries(entries@, depth as nat)),
    decreases depth, 2nat,
{
    let ghost old_entries = entries@;
    let mut out: Vec<PropOrSpread> = Vec::new();
    for entry in it: entries.into_iter()
        invariant
            it.seq() == old_entries,
            crate::ast::props_view(out@) == lifted_entries(
                old_entries.take(it.index()),
                depth as nat,
            ),
            wf_entries(old_entries) ==> writable_props(
                lifted_entries(old_entries.take(it.index()), depth as nat),
            ),
    {
        let ghost seen = old_entries.take(it.index() + 1);
        assert(seen.drop_last() == old_entries.take(it.index()));
        assert(lifted_entries(seen, depth as nat).drop_last() == lifted_entries(
            seen.drop_last(),
            depth as nat,
        ));
        out.push(lift_entry(entry, depth));
    }
    assert(old_entries.take(old_entries.len() as int) == old_entries);
    out
}

/// Reads the text of an expression. `None` where the text is not an
/// expression. What is read from a text with plain chains can be written
/// out again.
pub fn parse_js(text: &str) -> (expr: Option<Expression>)
    ensures
        match expr {
            Some(e) => parsed(text@) == Some(e@) && (plain_chains(text@) ==> writable(e@)),
            None => parsed(text@) is None,
        },
{
    match parse_raw(text) {
        Some(raw) => Some(lift(raw, text.unicode_len())),
        None => None,
    }
}

} // verus!
