//! Laws of the global analysis.
//!
//! `resolved_*` defines what it means for a piece of syntax to have no
//! free identifier: every read reference in it resolves against the
//! active scope chain.  The lemmas prove that the analysis reports no
//! global for such syntax, that a block's lexical bindings are not
//! visible after the block, and that a hoisted `var` or function
//! declaration is visible to reads anywhere in the module.
use vstd::prelude::*;

use crate::ast::{
    Arrow, ArrowBody, Class, ClassMember, Declarator, Expr, ForHead, ForInit, Function, Module,
    ModuleItem, Pat, Prop, Stmt, SwitchCase,
};
use crate::globals_scope::{
    arrow_frame, function_frame, g_arrow, g_cases, g_class, g_decls, g_export_names, g_expr,
    g_exprs, g_forhead, g_forinit, g_function, g_items, g_members, g_opt_expr, g_opt_pat_refs,
    g_pat, g_pats, g_props, g_ref, g_stmt, g_stmts, module_frame, spec_globals,
};
use crate::oset::{distinct, lemma_add_contains, lemma_add_distinct};
use crate::scope::{
    for_head_lexical, for_init_lexical, hoisted_stmt, hoisted_stmts, lexical_cases, lexical_stmt,
    lexical_stmts, module_item_names, module_names, opt_pat_names, resolves, FrameModel,
    ScopeKind,
};

verus! {

broadcast use crate::names::lemma_app_contains, crate::names::lemma_app_empty_right,
    crate::names::lemma_app_empty_left;

/// Every reference of the expression resolves.
pub open spec fn resolved_expr(e: Expr, env: Seq<FrameModel>) -> bool
    decreases e, 0int,
{
    match e {
        Expr::Ident(n) => resolves(env, n@),
        Expr::Lit => true,
        Expr::Str(_) => true,
        Expr::Tpl(es) => resolved_exprs(es@, es@.len() as int, env),
        Expr::Array(es) => resolved_exprs(es@, es@.len() as int, env),
        Expr::Object(ps) => resolved_props(ps@, ps@.len() as int, env),
        Expr::Member(obj, _) => resolved_expr(*obj, env),
        Expr::Index(obj, ix) => resolved_expr(*obj, env) && resolved_expr(*ix, env),
        Expr::Call(callee, args) => resolved_expr(*callee, env) && resolved_exprs(
            args@,
            args@.len() as int,
            env,
        ),
        Expr::New(callee, args) => resolved_expr(*callee, env) && resolved_exprs(
            args@,
            args@.len() as int,
            env,
        ),
        Expr::Assign(t, v) => resolved_expr(*t, env) && resolved_expr(*v, env),
        Expr::Unary(e2) => resolved_expr(*e2, env),
        Expr::Update(e2) => resolved_expr(*e2, env),
        Expr::Binary(l, r) => resolved_expr(*l, env) && resolved_expr(*r, env),
        Expr::Cond(t, c, a) => resolved_expr(*t, env) && resolved_expr(*c, env) && resolved_expr(
            *a,
            env,
        ),
        Expr::Paren(e2) => resolved_expr(*e2, env),
        Expr::Comma(es) => resolved_exprs(es@, es@.len() as int, env),
        Expr::Yield(o) => (match o {
            Option::Some(e2) => resolved_expr(*e2, env),
            Option::None => true,
        }),
        Expr::Await(e2) => resolved_expr(*e2, env),
        Expr::Func(f) => resolved_function(f, env),
        Expr::ArrowFunc(a) => resolved_arrow(a, env),
        Expr::ClassExpr(c) => resolved_class(c, env),
    }
}

/// Every reference of the first `i` expressions resolves.
pub open spec fn resolved_exprs(es: Seq<Expr>, i: int, env: Seq<FrameModel>) -> bool
    decreases es, i,
{
    if i <= 0 || i > es.len() {
        true
    } else {
        resolved_exprs(es, i - 1, env) && resolved_expr(es[i - 1], env)
    }
}

/// Every reference of an optional expression resolves.
pub open spec fn resolved_opt_expr(o: Option<Expr>, env: Seq<FrameModel>) -> bool
    decreases o, 0int,
{
    match o {
        Option::Some(e) => resolved_expr(e, env),
        Option::None => true,
    }
}

/// Every reference of the first `i` object properties resolves.
pub open spec fn resolved_props(ps: Seq<Prop>, i: int, env: Seq<FrameModel>) -> bool
    decreases ps, i,
{
    if i <= 0 || i > ps.len() {
        true
    } else {
        resolved_props(ps, i - 1, env) && (match ps[i - 1] {
            Prop::Shorthand(n) => resolves(env, n@),
            Prop::KeyValue(_, v) => resolved_expr(*v, env),
            Prop::Spread(e) => resolved_expr(*e, env),
        })
    }
}

/// Every reference in a pattern's default values resolves.
pub open spec fn resolved_pat(p: Pat, env: Seq<FrameModel>) -> bool
    decreases p, 0int,
{
    match p {
        Pat::Ident(_) => true,
        Pat::Array(ps) => resolved_pats(ps@, ps@.len() as int, env),
        Pat::Object(ps) => resolved_pats(ps@, ps@.len() as int, env),
        Pat::Assign(p2, e) => resolved_pat(*p2, env) && resolved_expr(*e, env),
        Pat::Rest(p2) => resolved_pat(*p2, env),
    }
}

/// Every reference in the first `i` patterns resolves.
pub open spec fn resolved_pats(ps: Seq<Pat>, i: int, env: Seq<FrameModel>) -> bool
    decreases ps, i,
{
    if i <= 0 || i > ps.len() {
        true
    } else {
        resolved_pats(ps, i - 1, env) && resolved_pat(ps[i - 1], env)
    }
}

/// Every reference in the first `i` declarators resolves.
pub open spec fn resolved_decls(ds: Seq<Declarator>, i: int, env: Seq<FrameModel>) -> bool
    decreases ds, i,
{
    if i <= 0 || i > ds.len() {
        true
    } else {
        resolved_decls(ds, i - 1, env) && resolved_pat(ds[i - 1].pat, env) && resolved_opt_expr(
            ds[i - 1].init,
            env,
        )
    }
}

/// Every reference in an optional catch parameter resolves.
pub open spec fn resolved_opt_pat(p: Option<Pat>, env: Seq<FrameModel>) -> bool
    decreases p, 0int,
{
    match p {
        Option::Some(p2) => resolved_pat(p2, env),
        Option::None => true,
    }
}

/// Every reference of a function resolves, inside its own frame.
pub open spec fn resolved_function(f: Function, env: Seq<FrameModel>) -> bool
    decreases f, 0int,
{
    let env2 = env.push(function_frame(f));
    resolved_pats(f.params@, f.params@.len() as int, env2) && resolved_stmts(
        f.body@,
        f.body@.len() as int,
        env2,
    )
}

/// Every reference of an arrow function resolves.
pub open spec fn resolved_arrow(a: Arrow, env: Seq<FrameModel>) -> bool
    decreases a, 0int,
{
    let env2 = env.push(arrow_frame(a));
    resolved_pats(a.params@, a.params@.len() as int, env2) && (match a.body {
        ArrowBody::Expr(e) => resolved_expr(*e, env2),
        ArrowBody::Block(ss) => resolved_stmts(ss@, ss@.len() as int, env2),
    })
}

/// Every reference of a class resolves.
pub open spec fn resolved_class(c: Class, env: Seq<FrameModel>) -> bool
    decreases c, 0int,
{
    let env2 = env.push(FrameModel { kind: ScopeKind::Block, names: crate::scope::opt_name(c.name) });
    (match c.parent {
        Option::Some(p) => resolved_expr(*p, env2),
        Option::None => true,
    }) && resolved_members(c.members@, c.members@.len() as int, env2)
}

/// Every reference of the first `i` class members resolves.
pub open spec fn resolved_members(ms: Seq<ClassMember>, i: int, env: Seq<FrameModel>) -> bool
    decreases ms, i,
{
    if i <= 0 || i > ms.len() {
        true
    } else {
        resolved_members(ms, i - 1, env) && (match ms[i - 1] {
            ClassMember::Method(f) => resolved_function(f, env),
            ClassMember::Field(o) => resolved_opt_expr(o, env),
        })
    }
}

/// Every reference of a classic `for` head resolves.
pub open spec fn resolved_forinit(init: Option<ForInit>, env: Seq<FrameModel>) -> bool
    decreases init, 0int,
{
    match init {
        Option::Some(ForInit::Decl(_, ds)) => resolved_decls(ds@, ds@.len() as int, env),
        Option::Some(ForInit::Expr(e)) => resolved_expr(*e, env),
        Option::None => true,
    }
}

/// Every reference of a `for-in`/`for-of` head resolves.
pub open spec fn resolved_forhead(h: ForHead, env: Seq<FrameModel>) -> bool
    decreases h, 0int,
{
    match h {
        ForHead::Decl(_, p) => resolved_pat(p, env),
        ForHead::Target(e) => resolved_expr(*e, env),
    }
}

/// Every reference of a statement resolves, under the frames it
/// introduces.
pub open spec fn resolved_stmt(s: Stmt, env: Seq<FrameModel>) -> bool
    decreases s, 0int,
{
    match s {
        Stmt::Block(ss) => resolved_stmts(
            ss@,
            ss@.len() as int,
            env.push(
                FrameModel { kind: ScopeKind::Block, names: lexical_stmts(ss@, ss@.len() as int) },
            ),
        ),
        Stmt::Decl(_, ds) => resolved_decls(ds@, ds@.len() as int, env),
        Stmt::FuncDecl(f) => resolved_function(f, env),
        Stmt::ClassDecl(c) => resolved_class(c, env),
        Stmt::Expr(e) => resolved_expr(e, env),
        Stmt::If(t, c, a) => resolved_expr(t, env) && resolved_stmt(*c, env) && (match a {
            Option::Some(s2) => resolved_stmt(*s2, env),
            Option::None => true,
        }),
        Stmt::While(t, b) => resolved_expr(t, env) && resolved_stmt(
            *b,
            env.push(FrameModel { kind: ScopeKind::Loop, names: Seq::empty() }),
        ),
        Stmt::DoWhile(b, t) => resolved_stmt(
            *b,
            env.push(FrameModel { kind: ScopeKind::Loop, names: Seq::empty() }),
        ) && resolved_expr(t, env),
        Stmt::For(init, test, upd, b) => {
            let env2 = env.push(
                FrameModel { kind: ScopeKind::Loop, names: for_init_lexical(init) },
            );
            resolved_forinit(init, env2) && resolved_opt_expr(test, env2) && resolved_opt_expr(
                upd,
                env2,
            ) && resolved_stmt(*b, env2)
        },
        Stmt::ForIn(h, obj, b) => {
            let env2 = env.push(FrameModel { kind: ScopeKind::Loop, names: for_head_lexical(h) });
            resolved_forhead(h, env2) && resolved_expr(obj, env2) && resolved_stmt(*b, env2)
        },
        Stmt::ForOf(h, obj, b) => {
            let env2 = env.push(FrameModel { kind: ScopeKind::Loop, names: for_head_lexical(h) });
            resolved_forhead(h, env2) && resolved_expr(obj, env2) && resolved_stmt(*b, env2)
        },
        Stmt::Switch(d, cs) => resolved_expr(d, env) && resolved_cases(
            cs@,
            cs@.len() as int,
            env.push(
                FrameModel {
                    kind: ScopeKind::Switch,
                    names: lexical_cases(cs@, cs@.len() as int),
                },
            ),
        ),
        Stmt::Try(b, c, f) => {
            resolved_stmts(
                b@,
                b@.len() as int,
                env.push(
                    FrameModel {
                        kind: ScopeKind::Block,
                        names: lexical_stmts(b@, b@.len() as int),
                    },
                ),
            ) && (match c {
                Option::Some(cc) => {
                    let env_c = env.push(
                        FrameModel {
                            kind: ScopeKind::Catch,
                            names: opt_pat_names(cc.param) + lexical_stmts(
                                cc.body@,
                                cc.body@.len() as int,
                            ),
                        },
                    );
                    resolved_opt_pat(cc.param, env_c) && resolved_stmts(
                        cc.body@,
                        cc.body@.len() as int,
                        env_c,
                    )
                },
                Option::None => true,
            }) && (match f {
                Option::Some(fs) => resolved_stmts(
                    fs@,
                    fs@.len() as int,
                    env.push(
                        FrameModel {
                            kind: ScopeKind::Block,
                            names: lexical_stmts(fs@, fs@.len() as int),
                        },
                    ),
                ),
                Option::None => true,
            })
        },
        Stmt::With(obj, b) => resolved_expr(obj, env) && resolved_stmt(
            *b,
            env.push(FrameModel { kind: ScopeKind::Opaque, names: Seq::empty() }),
        ),
        Stmt::Return(o) => resolved_opt_expr(o, env),
        Stmt::Throw(e) => resolved_expr(e, env),
        Stmt::Labeled(b) => resolved_stmt(*b, env),
        Stmt::Empty => true,
    }
}

/// Every reference of the first `i` statements resolves.
pub open spec fn resolved_stmts(ss: Seq<Stmt>, i: int, env: Seq<FrameModel>) -> bool
    decreases ss, i,
{
    if i <= 0 || i > ss.len() {
        true
    } else {
        resolved_stmts(ss, i - 1, env) && resolved_stmt(ss[i - 1], env)
    }
}

/// Every reference of the first `i` switch arms resolves.
pub open spec fn resolved_cases(cs: Seq<SwitchCase>, i: int, env: Seq<FrameModel>) -> bool
    decreases cs, i,
{
    if i <= 0 || i > cs.len() {
        true
    } else {
        resolved_cases(cs, i - 1, env) && resolved_opt_expr(cs[i - 1].test, env) && resolved_stmts(
            cs[i - 1].body@,
            cs[i - 1].body@.len() as int,
            env,
        )
    }
}

/// Every exported name among the first `i` resolves.
pub open spec fn resolved_export_names(ns: Seq<String>, i: int, env: Seq<FrameModel>) -> bool
    decreases i,
{
    if i <= 0 || i > ns.len() {
        true
    } else {
        resolved_export_names(ns, i - 1, env) && resolves(env, ns[i - 1]@)
    }
}

/// Every reference of the first `i` top-level items resolves.
pub open spec fn resolved_items(items: Seq<ModuleItem>, i: int, env: Seq<FrameModel>) -> bool
    decreases items, i,
{
    if i <= 0 || i > items.len() {
        true
    } else {
        resolved_items(items, i - 1, env) && (match items[i - 1] {
            ModuleItem::Import(_) => true,
            ModuleItem::ExportDecl(s) => resolved_stmt(*s, env),
            ModuleItem::ExportNamed(ns) => resolved_export_names(ns@, ns@.len() as int, env),
            ModuleItem::ExportDefault(e) => resolved_expr(*e, env),
            ModuleItem::Stmt(s) => resolved_stmt(s, env),
        })
    }
}

/// A module with no free identifiers: every reference resolves against
/// its chain.
pub open spec fn module_closed(m: Module) -> bool {
    resolved_items(m.items@, m.items@.len() as int, seq![module_frame(m.items@)])
}

proof fn lemma_resolved_expr(e: Expr, env: Seq<FrameModel>, acc: Seq<Seq<char>>)
    requires
        resolved_expr(e, env),
    ensures
        g_expr(e, env, acc) == acc,
    decreases e, 0int,
{
    match e {
        Expr::Tpl(es) => {
            lemma_resolved_exprs(es@, es@.len() as int, env, acc);
        },
        Expr::Array(es) => {
            lemma_resolved_exprs(es@, es@.len() as int, env, acc);
        },
        Expr::Object(ps) => {
            lemma_resolved_props(ps@, ps@.len() as int, env, acc);
        },
        Expr::Member(obj, _) => {
            lemma_resolved_expr(*obj, env, acc);
        },
        Expr::Index(obj, ix) => {
            lemma_resolved_expr(*obj, env, acc);
            lemma_resolved_expr(*ix, env, acc);
        },
        Expr::Call(callee, args) => {
            lemma_resolved_expr(*callee, env, acc);
            lemma_resolved_exprs(args@, args@.len() as int, env, acc);
        },
        Expr::New(callee, args) => {
            lemma_resolved_expr(*callee, env, acc);
            lemma_resolved_exprs(args@, args@.len() as int, env, acc);
        },
        Expr::Assign(t, v) => {
            lemma_resolved_expr(*t, env, acc);
            lemma_resolved_expr(*v, env, acc);
        },
        Expr::Unary(e2) => {
            lemma_resolved_expr(*e2, env, acc);
        },
        Expr::Update(e2) => {
            lemma_resolved_expr(*e2, env, acc);
        },
        Expr::Binary(l, r) => {
            lemma_resolved_expr(*l, env, acc);
            lemma_resolved_expr(*r, env, acc);
        },
        Expr::Cond(t, c, a) => {
            lemma_resolved_expr(*t, env, acc);
            lemma_resolved_expr(*c, env, acc);
            lemma_resolved_expr(*a, env, acc);
        },
        Expr::Paren(e2) => {
            lemma_resolved_expr(*e2, env, acc);
        },
        Expr::Comma(es) => {
            lemma_resolved_exprs(es@, es@.len() as int, env, acc);
        },
        Expr::Yield(o) => {
            match o {
                Option::Some(e2) => {
                    lemma_resolved_expr(*e2, env, acc);
                },
                Option::None => {},
            }
        },
        Expr::Await(e2) => {
            lemma_resolved_expr(*e2, env, acc);
        },
        Expr::Func(f) => {
            lemma_resolved_function(f, env, acc);
        },
        Expr::ArrowFunc(a) => {
            lemma_resolved_arrow(a, env, acc);
        },
        Expr::ClassExpr(c) => {
            lemma_resolved_class(c, env, acc);
        },
        _ => {},
    }
}

proof fn lemma_resolved_exprs(es: Seq<Expr>, i: int, env: Seq<FrameModel>, acc: Seq<Seq<char>>)
    requires
        resolved_exprs(es, i, env),
    ensures
        g_exprs(es, i, env, acc) == acc,
    decreases es, i,
{
    if 0 < i <= es.len() {
        lemma_resolved_exprs(es, i - 1, env, acc);
        lemma_resolved_expr(es[i - 1], env, acc);
    }
}

proof fn lemma_resolved_opt_expr(o: Option<Expr>, env: Seq<FrameModel>, acc: Seq<Seq<char>>)
    requires
        resolved_opt_expr(o, env),
    ensures
        g_opt_expr(o, env, acc) == acc,
    decreases o, 0int,
{
    match o {
        Option::Some(e) => {
            lemma_resolved_expr(e, env, acc);
        },
        Option::None => {},
    }
}

proof fn lemma_resolved_props(ps: Seq<Prop>, i: int, env: Seq<FrameModel>, acc: Seq<Seq<char>>)
    requires
        resolved_props(ps, i, env),
    ensures
        g_props(ps, i, env, acc) == acc,
    decreases ps, i,
{
    if 0 < i <= ps.len() {
        lemma_resolved_props(ps, i - 1, env, acc);
        match ps[i - 1] {
            Prop::KeyValue(_, v) => {
                lemma_resolved_expr(*v, env, acc);
            },
            Prop::Spread(e) => {
                lemma_resolved_expr(*e, env, acc);
            },
            _ => {},
        }
    }
}

proof fn lemma_resolved_pat(p: Pat, env: Seq<FrameModel>, acc: Seq<Seq<char>>)
    requires
        resolved_pat(p, env),
    ensures
        g_pat(p, env, acc) == acc,
    decreases p, 0int,
{
    match p {
        Pat::Array(ps) => {
            lemma_resolved_pats(ps@, ps@.len() as int, env, acc);
        },
        Pat::Object(ps) => {
            lemma_resolved_pats(ps@, ps@.len() as int, env, acc);
        },
        Pat::Assign(p2, e) => {
            lemma_resolved_pat(*p2, env, acc);
            lemma_resolved_expr(*e, env, acc);
        },
        Pat::Rest(p2) => {
            lemma_resolved_pat(*p2, env, acc);
        },
        _ => {},
    }
}

proof fn lemma_resolved_pats(ps: Seq<Pat>, i: int, env: Seq<FrameModel>, acc: Seq<Seq<char>>)
    requires
        resolved_pats(ps, i, env),
    ensures
        g_pats(ps, i, env, acc) == acc,
    decreases ps, i,
{
    if 0 < i <= ps.len() {
        lemma_resolved_pats(ps, i - 1, env, acc);
        lemma_resolved_pat(ps[i - 1], env, acc);
    }
}

proof fn lemma_resolved_decls(
    ds: Seq<Declarator>,
    i: int,
    env: Seq<FrameModel>,
    acc: Seq<Seq<char>>,
)
    requires
        resolved_decls(ds, i, env),
    ensures
        g_decls(ds, i, env, acc) == acc,
    decreases ds, i,
{
    if 0 < i <= ds.len() {
        lemma_resolved_decls(ds, i - 1, env, acc);
        lemma_resolved_pat(ds[i - 1].pat, env, acc);
        lemma_resolved_opt_expr(ds[i - 1].init, env, acc);
    }
}

proof fn lemma_resolved_opt_pat(p: Option<Pat>, env: Seq<FrameModel>, acc: Seq<Seq<char>>)
    requires
        resolved_opt_pat(p, env),
    ensures
        g_opt_pat_refs(p, env, acc) == acc,
    decreases p, 0int,
{
    match p {
        Option::Some(p2) => {
            lemma_resolved_pat(p2, env, acc);
        },
        Option::None => {},
    }
}

proof fn lemma_resolved_function(f: Function, env: Seq<FrameModel>, acc: Seq<Seq<char>>)
    requires
        resolved_function(f, env),
    ensures
        g_function(f, env, acc) == acc,
    decreases f, 0int,
{
    let env2 = env.push(function_frame(f));
    lemma_resolved_pats(f.params@, f.params@.len() as int, env2, acc);
    lemma_resolved_stmts(f.body@, f.body@.len() as int, env2, acc);
}

proof fn lemma_resolved_arrow(a: Arrow, env: Seq<FrameModel>, acc: Seq<Seq<char>>)
    requires
        resolved_arrow(a, env),
    ensures
        g_arrow(a, env, acc) == acc,
    decreases a, 0int,
{
    let env2 = env.push(arrow_frame(a));
    lemma_resolved_pats(a.params@, a.params@.len() as int, env2, acc);
    match a.body {
        ArrowBody::Expr(e) => {
            lemma_resolved_expr(*e, env2, acc);
        },
        ArrowBody::Block(ss) => {
            lemma_resolved_stmts(ss@, ss@.len() as int, env2, acc);
        },
    }
}

proof fn lemma_resolved_class(c: Class, env: Seq<FrameModel>, acc: Seq<Seq<char>>)
    requires
        resolved_class(c, env),
    ensures
        g_class(c, env, acc) == acc,
    decreases c, 0int,
{
    let env2 = env.push(
        FrameModel { kind: ScopeKind::Block, names: crate::scope::opt_name(c.name) },
    );
    match c.parent {
        Option::Some(p) => {
            lemma_resolved_expr(*p, env2, acc);
        },
        Option::None => {},
    }
    lemma_resolved_members(c.members@, c.members@.len() as int, env2, acc);
}

proof fn lemma_resolved_members(
    ms: Seq<ClassMember>,
    i: int,
    env: Seq<FrameModel>,
    acc: Seq<Seq<char>>,
)
    requires
        resolved_members(ms, i, env),
    ensures
        g_members(ms, i, env, acc) == acc,
    decreases ms, i,
{
    if 0 < i <= ms.len() {
        lemma_resolved_members(ms, i - 1, env, acc);
        match ms[i - 1] {
            ClassMember::Method(f) => {
                lemma_resolved_function(f, env, acc);
            },
            ClassMember::Field(o) => {
                lemma_resolved_opt_expr(o, env, acc);
            },
        }
    }
}

proof fn lemma_resolved_forinit(
    init: Option<ForInit>,
    env: Seq<FrameModel>,
    acc: Seq<Seq<char>>,
)
    requires
        resolved_forinit(init, env),
    ensures
        g_forinit(init, env, acc) == acc,
    decreases init, 0int,
{
    match init {
        Option::Some(ForInit::Decl(_, ds)) => {
            lemma_resolved_decls(ds@, ds@.len() as int, env, acc);
        },
        Option::Some(ForInit::Expr(e)) => {
            lemma_resolved_expr(*e, env, acc);
        },
        Option::None => {},
    }
}

proof fn lemma_resolved_forhead(h: ForHead, env: Seq<FrameModel>, acc: Seq<Seq<char>>)
    requires
        resolved_forhead(h, env),
    ensures
        g_forhead(h, env, acc) == acc,
    decreases h, 0int,
{
    match h {
        ForHead::Decl(_, p) => {
            lemma_resolved_pat(p, env, acc);
        },
        ForHead::Target(e) => {
            lemma_resolved_expr(*e, env, acc);
        },
    }
}

proof fn lemma_resolved_stmt(s: Stmt, env: Seq<FrameModel>, acc: Seq<Seq<char>>)
    requires
        resolved_stmt(s, env),
    ensures
        g_stmt(s, env, acc) == acc,
    decreases s, 0int,
{
    match s {
        Stmt::Block(ss) => {
            let env2 = env.push(
                FrameModel { kind: ScopeKind::Block, names: lexical_stmts(ss@, ss@.len() as int) },
            );
            lemma_resolved_stmts(ss@, ss@.len() as int, env2, acc);
        },
        Stmt::Decl(_, ds) => {
            lemma_resolved_decls(ds@, ds@.len() as int, env, acc);
        },
        Stmt::FuncDecl(f) => {
            lemma_resolved_function(f, env, acc);
        },
        Stmt::ClassDecl(c) => {
            lemma_resolved_class(c, env, acc);
        },
        Stmt::Expr(e) => {
            lemma_resolved_expr(e, env, acc);
        },
        Stmt::If(t, c, a) => {
            lemma_resolved_expr(t, env, acc);
            lemma_resolved_stmt(*c, env, acc);
            match a {
                Option::Some(s2) => {
                    lemma_resolved_stmt(*s2, env, acc);
                },
                Option::None => {},
            }
        },
        Stmt::While(t, b) => {
            lemma_resolved_expr(t, env, acc);
            let env2 = env.push(FrameModel { kind: ScopeKind::Loop, names: Seq::empty() });
            lemma_resolved_stmt(*b, env2, acc);
        },
        Stmt::DoWhile(b, t) => {
            let env2 = env.push(FrameModel { kind: ScopeKind::Loop, names: Seq::empty() });
            lemma_resolved_stmt(*b, env2, acc);
            lemma_resolved_expr(t, env, acc);
        },
        Stmt::For(init, test, upd, b) => {
            let env2 = env.push(
                FrameModel { kind: ScopeKind::Loop, names: for_init_lexical(init) },
            );
            lemma_resolved_forinit(init, env2, acc);
            lemma_resolved_opt_expr(test, env2, acc);
            lemma_resolved_opt_expr(upd, env2, acc);
            lemma_resolved_stmt(*b, env2, acc);
        },
        Stmt::ForIn(h, obj, b) => {
            let env2 = env.push(FrameModel { kind: ScopeKind::Loop, names: for_head_lexical(h) });
            lemma_resolved_forhead(h, env2, acc);
            lemma_resolved_expr(obj, env2, acc);
            lemma_resolved_stmt(*b, env2, acc);
        },
        Stmt::ForOf(h, obj, b) => {
            let env2 = env.push(FrameModel { kind: ScopeKind::Loop, names: for_head_lexical(h) });
            lemma_resolved_forhead(h, env2, acc);
            lemma_resolved_expr(obj, env2, acc);
            lemma_resolved_stmt(*b, env2, acc);
        },
        Stmt::Switch(d, cs) => {
            lemma_resolved_expr(d, env, acc);
            let env2 = env.push(
                FrameModel {
                    kind: ScopeKind::Switch,
                    names: lexical_cases(cs@, cs@.len() as int),
                },
            );
            lemma_resolved_cases(cs@, cs@.len() as int, env2, acc);
        },
        Stmt::Try(b, c, f) => {
            let env_b = env.push(
                FrameModel { kind: ScopeKind::Block, names: lexical_stmts(b@, b@.len() as int) },
            );
            lemma_resolved_stmts(b@, b@.len() as int, env_b, acc);
            match c {
                Option::Some(cc) => {
                    let env_c = env.push(
                        FrameModel {
                            kind: ScopeKind::Catch,
                            names: opt_pat_names(cc.param) + lexical_stmts(
                                cc.body@,
                                cc.body@.len() as int,
                            ),
                        },
                    );
                    lemma_resolved_opt_pat(cc.param, env_c, acc);
                    lemma_resolved_stmts(cc.body@, cc.body@.len() as int, env_c, acc);
                },
                Option::None => {},
            }
            match f {
                Option::Some(fs) => {
                    let env_f = env.push(
                        FrameModel {
                            kind: ScopeKind::Block,
                            names: lexical_stmts(fs@, fs@.len() as int),
                        },
                    );
                    lemma_resolved_stmts(fs@, fs@.len() as int, env_f, acc);
                },
                Option::None => {},
            }
        },
        Stmt::With(obj, b) => {
            lemma_resolved_expr(obj, env, acc);
            let env2 = env.push(FrameModel { kind: ScopeKind::Opaque, names: Seq::empty() });
            lemma_resolved_stmt(*b, env2, acc);
        },
        Stmt::Return(o) => {
            lemma_resolved_opt_expr(o, env, acc);
        },
        Stmt::Throw(e) => {
            lemma_resolved_expr(e, env, acc);
        },
        Stmt::Labeled(b) => {
            lemma_resolved_stmt(*b, env, acc);
        },
        _ => {},
    }
}

proof fn lemma_resolved_stmts(ss: Seq<Stmt>, i: int, env: Seq<FrameModel>, acc: Seq<Seq<char>>)
    requires
        resolved_stmts(ss, i, env),
    ensures
        g_stmts(ss, i, env, acc) == acc,
    decreases ss, i,
{
    if 0 < i <= ss.len() {
        lemma_resolved_stmts(ss, i - 1, env, acc);
        lemma_resolved_stmt(ss[i - 1], env, acc);
    }
}

proof fn lemma_resolved_cases(cs: Seq<SwitchCase>, i: int, env: Seq<FrameModel>, acc: Seq<Seq<char>>)
    requires
        resolved_cases(cs, i, env),
    ensures
        g_cases(cs, i, env, acc) == acc,
    decreases cs, i,
{
    if 0 < i <= cs.len() {
        lemma_resolved_cases(cs, i - 1, env, acc);
        lemma_resolved_opt_expr(cs[i - 1].test, env, acc);
        lemma_resolved_stmts(cs[i - 1].body@, cs[i - 1].body@.len() as int, env, acc);
    }
}

proof fn lemma_resolved_export_names(
    ns: Seq<String>,
    i: int,
    env: Seq<FrameModel>,
    acc: Seq<Seq<char>>,
)
    requires
        resolved_export_names(ns, i, env),
    ensures
        g_export_names(ns, i, env, acc) == acc,
    decreases i,
{
    if 0 < i <= ns.len() {
        lemma_resolved_export_names(ns, i - 1, env, acc);
    }
}

proof fn lemma_resolved_items(
    items: Seq<ModuleItem>,
    i: int,
    env: Seq<FrameModel>,
    acc: Seq<Seq<char>>,
)
    requires
        resolved_items(items, i, env),
    ensures
        g_items(items, i, env, acc) == acc,
    decreases items, i,
{
    if 0 < i <= items.len() {
        lemma_resolved_items(items, i - 1, env, acc);
        match items[i - 1] {
            ModuleItem::ExportDecl(s) => {
                lemma_resolved_stmt(*s, env, acc);
            },
            ModuleItem::ExportNamed(ns) => {
                lemma_resolved_export_names(ns@, ns@.len() as int, env, acc);
            },
            ModuleItem::ExportDefault(e) => {
                lemma_resolved_expr(*e, env, acc);
            },
            ModuleItem::Stmt(s) => {
                lemma_resolved_stmt(s, env, acc);
            },
            _ => {},
        }
    }
}

proof fn lemma_distinct_ref(n: Seq<char>, env: Seq<FrameModel>, acc: Seq<Seq<char>>)
    requires
        distinct(acc),
    ensures
        distinct(g_ref(n, env, acc)),
{
    lemma_add_distinct(acc, n);
}

proof fn lemma_distinct_expr(e: Expr, env: Seq<FrameModel>, acc: Seq<Seq<char>>)
    requires
        distinct(acc),
    ensures
        distinct(g_expr(e, env, acc)),
    decreases e, 0int,
{
    match e {
        Expr::Ident(n) => {
            lemma_distinct_ref(n@, env, acc);
        },
        Expr::Tpl(es) => {
            lemma_distinct_exprs(es@, es@.len() as int, env, acc);
        },
        Expr::Array(es) => {
            lemma_distinct_exprs(es@, es@.len() as int, env, acc);
        },
        Expr::Object(ps) => {
            lemma_distinct_props(ps@, ps@.len() as int, env, acc);
        },
        Expr::Member(obj, _) => {
            lemma_distinct_expr(*obj, env, acc);
        },
        Expr::Index(obj, ix) => {
            lemma_distinct_expr(*obj, env, acc);
            lemma_distinct_expr(*ix, env, g_expr(*obj, env, acc));
        },
        Expr::Call(callee, args) => {
            lemma_distinct_expr(*callee, env, acc);
            lemma_distinct_exprs(args@, args@.len() as int, env, g_expr(*callee, env, acc));
        },
        Expr::New(callee, args) => {
            lemma_distinct_expr(*callee, env, acc);
            lemma_distinct_exprs(args@, args@.len() as int, env, g_expr(*callee, env, acc));
        },
        Expr::Assign(t, v) => {
            lemma_distinct_expr(*t, env, acc);
            lemma_distinct_expr(*v, env, g_expr(*t, env, acc));
        },
        Expr::Unary(e2) => {
            lemma_distinct_expr(*e2, env, acc);
        },
        Expr::Update(e2) => {
            lemma_distinct_expr(*e2, env, acc);
        },
        Expr::Binary(l, r) => {
            lemma_distinct_expr(*l, env, acc);
            lemma_distinct_expr(*r, env, g_expr(*l, env, acc));
        },
        Expr::Cond(t, c, a) => {
            lemma_distinct_expr(*t, env, acc);
            lemma_distinct_expr(*c, env, g_expr(*t, env, acc));
            lemma_distinct_expr(*a, env, g_expr(*c, env, g_expr(*t, env, acc)));
        },
        Expr::Paren(e2) => {
            lemma_distinct_expr(*e2, env, acc);
        },
        Expr::Comma(es) => {
            lemma_distinct_exprs(es@, es@.len() as int, env, acc);
        },
        Expr::Yield(o) => {
            match o {
                Option::Some(e2) => {
                    lemma_distinct_expr(*e2, env, acc);
                },
                Option::None => {},
            }
        },
        Expr::Await(e2) => {
            lemma_distinct_expr(*e2, env, acc);
        },
        Expr::Func(f) => {
            lemma_distinct_function(f, env, acc);
        },
        Expr::ArrowFunc(a) => {
            lemma_distinct_arrow(a, env, acc);
        },
        Expr::ClassExpr(c) => {
            lemma_distinct_class(c, env, acc);
        },
        _ => {},
    }
}

proof fn lemma_distinct_exprs(es: Seq<Expr>, i: int, env: Seq<FrameModel>, acc: Seq<Seq<char>>)
    requires
        distinct(acc),
    ensures
        distinct(g_exprs(es, i, env, acc)),
    decreases es, i,
{
    if 0 < i <= es.len() {
        lemma_distinct_exprs(es, i - 1, env, acc);
        lemma_distinct_expr(es[i - 1], env, g_exprs(es, i - 1, env, acc));
    }
}

proof fn lemma_distinct_opt_expr(o: Option<Expr>, env: Seq<FrameModel>, acc: Seq<Seq<char>>)
    requires
        distinct(acc),
    ensures
        distinct(g_opt_expr(o, env, acc)),
    decreases o, 0int,
{
    match o {
        Option::Some(e) => {
            lemma_distinct_expr(e, env, acc);
        },
        Option::None => {},
    }
}

proof fn lemma_distinct_props(ps: Seq<Prop>, i: int, env: Seq<FrameModel>, acc: Seq<Seq<char>>)
    requires
        distinct(acc),
    ensures
        distinct(g_props(ps, i, env, acc)),
    decreases ps, i,
{
    if 0 < i <= ps.len() {
        lemma_distinct_props(ps, i - 1, env, acc);
        let acc1 = g_props(ps, i - 1, env, acc);
        match ps[i - 1] {
            Prop::Shorthand(n) => {
                lemma_distinct_ref(n@, env, acc1);
            },
            Prop::KeyValue(_, v) => {
                lemma_distinct_expr(*v, env, acc1);
            },
            Prop::Spread(e) => {
                lemma_distinct_expr(*e, env, acc1);
            },
        }
    }
}

proof fn lemma_distinct_pat(p: Pat, env: Seq<FrameModel>, acc: Seq<Seq<char>>)
    requires
        distinct(acc),
    ensures
        distinct(g_pat(p, env, acc)),
    decreases p, 0int,
{
    match p {
        Pat::Array(ps) => {
            lemma_distinct_pats(ps@, ps@.len() as int, env, acc);
        },
        Pat::Object(ps) => {
            lemma_distinct_pats(ps@, ps@.len() as int, env, acc);
        },
        Pat::Assign(p2, e) => {
            lemma_distinct_pat(*p2, env, acc);
            lemma_distinct_expr(*e, env, g_pat(*p2, env, acc));
        },
        Pat::Rest(p2) => {
            lemma_distinct_pat(*p2, env, acc);
        },
        _ => {},
    }
}

proof fn lemma_distinct_pats(ps: Seq<Pat>, i: int, env: Seq<FrameModel>, acc: Seq<Seq<char>>)
    requires
        distinct(acc),
    ensures
        distinct(g_pats(ps, i, env, acc)),
    decreases ps, i,
{
    if 0 < i <= ps.len() {
        lemma_distinct_pats(ps, i - 1, env, acc);
        lemma_distinct_pat(ps[i - 1], env, g_pats(ps, i - 1, env, acc));
    }
}

proof fn lemma_distinct_decls(
    ds: Seq<Declarator>,
    i: int,
    env: Seq<FrameModel>,
    acc: Seq<Seq<char>>,
)
    requires
        distinct(acc),
    ensures
        distinct(g_decls(ds, i, env, acc)),
    decreases ds, i,
{
    if 0 < i <= ds.len() {
        lemma_distinct_decls(ds, i - 1, env, acc);
        let acc1 = g_decls(ds, i - 1, env, acc);
        lemma_distinct_pat(ds[i - 1].pat, env, acc1);
        lemma_distinct_opt_expr(ds[i - 1].init, env, g_pat(ds[i - 1].pat, env, acc1));
    }
}

proof fn lemma_distinct_opt_pat(p: Option<Pat>, env: Seq<FrameModel>, acc: Seq<Seq<char>>)
    requires
        distinct(acc),
    ensures
        distinct(g_opt_pat_refs(p, env, acc)),
    decreases p, 0int,
{
    match p {
        Option::Some(p2) => {
            lemma_distinct_pat(p2, env, acc);
        },
        Option::None => {},
    }
}

proof fn lemma_distinct_function(f: Function, env: Seq<FrameModel>, acc: Seq<Seq<char>>)
    requires
        distinct(acc),
    ensures
        distinct(g_function(f, env, acc)),
    decreases f, 0int,
{
    let env2 = env.push(function_frame(f));
    lemma_distinct_pats(f.params@, f.params@.len() as int, env2, acc);
    lemma_distinct_stmts(
        f.body@,
        f.body@.len() as int,
        env2,
        g_pats(f.params@, f.params@.len() as int, env2, acc),
    );
}

proof fn lemma_distinct_arrow(a: Arrow, env: Seq<FrameModel>, acc: Seq<Seq<char>>)
    requires
        distinct(acc),
    ensures
        distinct(g_arrow(a, env, acc)),
    decreases a, 0int,
{
    let env2 = env.push(arrow_frame(a));
    lemma_distinct_pats(a.params@, a.params@.len() as int, env2, acc);
    let acc1 = g_pats(a.params@, a.params@.len() as int, env2, acc);
    match a.body {
        ArrowBody::Expr(e) => {
            lemma_distinct_expr(*e, env2, acc1);
        },
        ArrowBody::Block(ss) => {
            lemma_distinct_stmts(ss@, ss@.len() as int, env2, acc1);
        },
    }
}

proof fn lemma_distinct_class(c: Class, env: Seq<FrameModel>, acc: Seq<Seq<char>>)
    requires
        distinct(acc),
    ensures
        distinct(g_class(c, env, acc)),
    decreases c, 0int,
{
    let env2 = env.push(
        FrameModel { kind: ScopeKind::Block, names: crate::scope::opt_name(c.name) },
    );
    let acc1 = match c.parent {
        Option::Some(p) => {
            lemma_distinct_expr(*p, env2, acc);
            g_expr(*p, env2, acc)
        },
        Option::None => acc,
    };
    lemma_distinct_members(c.members@, c.members@.len() as int, env2, acc1);
}

proof fn lemma_distinct_members(
    ms: Seq<ClassMember>,
    i: int,
    env: Seq<FrameModel>,
    acc: Seq<Seq<char>>,
)
    requires
        distinct(acc),
    ensures
        distinct(g_members(ms, i, env, acc)),
    decreases ms, i,
{
    if 0 < i <= ms.len() {
        lemma_distinct_members(ms, i - 1, env, acc);
        let acc1 = g_members(ms, i - 1, env, acc);
        match ms[i - 1] {
            ClassMember::Method(f) => {
                lemma_distinct_function(f, env, acc1);
            },
            ClassMember::Field(o) => {
                lemma_distinct_opt_expr(o, env, acc1);
            },
        }
    }
}

proof fn lemma_distinct_forinit(
    init: Option<ForInit>,
    env: Seq<FrameModel>,
    acc: Seq<Seq<char>>,
)
    requires
        distinct(acc),
    ensures
        distinct(g_forinit(init, env, acc)),
    decreases init, 0int,
{
    match init {
        Option::Some(ForInit::Decl(_, ds)) => {
            lemma_distinct_decls(ds@, ds@.len() as int, env, acc);
        },
        Option::Some(ForInit::Expr(e)) => {
            lemma_distinct_expr(*e, env, acc);
        },
        Option::None => {},
    }
}

proof fn lemma_distinct_forhead(h: ForHead, env: Seq<FrameModel>, acc: Seq<Seq<char>>)
    requires
        distinct(acc),
    ensures
        distinct(g_forhead(h, env, acc)),
    decreases h, 0int,
{
    match h {
        ForHead::Decl(_, p) => {
            lemma_distinct_pat(p, env, acc);
        },
        ForHead::Target(e) => {
            lemma_distinct_expr(*e, env, acc);
        },
    }
}

proof fn lemma_distinct_stmt(s: Stmt, env: Seq<FrameModel>, acc: Seq<Seq<char>>)
    requires
        distinct(acc),
    ensures
        distinct(g_stmt(s, env, acc)),
    decreases s, 0int,
{
    match s {
        Stmt::Block(ss) => {
            let env2 = env.push(
                FrameModel { kind: ScopeKind::Block, names: lexical_stmts(ss@, ss@.len() as int) },
            );
            lemma_distinct_stmts(ss@, ss@.len() as int, env2, acc);
        },
        Stmt::Decl(_, ds) => {
            lemma_distinct_decls(ds@, ds@.len() as int, env, acc);
        },
        Stmt::FuncDecl(f) => {
            lemma_distinct_function(f, env, acc);
        },
        Stmt::ClassDecl(c) => {
            lemma_distinct_class(c, env, acc);
        },
        Stmt::Expr(e) => {
            lemma_distinct_expr(e, env, acc);
        },
        Stmt::If(t, c, a) => {
            lemma_distinct_expr(t, env, acc);
            lemma_distinct_stmt(*c, env, g_expr(t, env, acc));
            let acc2 = g_stmt(*c, env, g_expr(t, env, acc));
            match a {
                Option::Some(s2) => {
                    lemma_distinct_stmt(*s2, env, acc2);
                },
                Option::None => {},
            }
        },
        Stmt::While(t, b) => {
            lemma_distinct_expr(t, env, acc);
            let env2 = env.push(FrameModel { kind: ScopeKind::Loop, names: Seq::empty() });
            lemma_distinct_stmt(*b, env2, g_expr(t, env, acc));
        },
        Stmt::DoWhile(b, t) => {
            let env2 = env.push(FrameModel { kind: ScopeKind::Loop, names: Seq::empty() });
            lemma_distinct_stmt(*b, env2, acc);
            lemma_distinct_expr(t, env, g_stmt(*b, env2, acc));
        },
        Stmt::For(init, test, upd, b) => {
            let env2 = env.push(
                FrameModel { kind: ScopeKind::Loop, names: for_init_lexical(init) },
            );
            lemma_distinct_forinit(init, env2, acc);
            let acc1 = g_forinit(init, env2, acc);
            lemma_distinct_opt_expr(test, env2, acc1);
            let acc2 = g_opt_expr(test, env2, acc1);
            lemma_distinct_opt_expr(upd, env2, acc2);
            lemma_distinct_stmt(*b, env2, g_opt_expr(upd, env2, acc2));
        },
        Stmt::ForIn(h, obj, b) => {
            let env2 = env.push(FrameModel { kind: ScopeKind::Loop, names: for_head_lexical(h) });
            lemma_distinct_forhead(h, env2, acc);
            lemma_distinct_expr(obj, env2, g_forhead(h, env2, acc));
            lemma_distinct_stmt(*b, env2, g_expr(obj, env2, g_forhead(h, env2, acc)));
        },
        Stmt::ForOf(h, obj, b) => {
            let env2 = env.push(FrameModel { kind: ScopeKind::Loop, names: for_head_lexical(h) });
            lemma_distinct_forhead(h, env2, acc);
            lemma_distinct_expr(obj, env2, g_forhead(h, env2, acc));
            lemma_distinct_stmt(*b, env2, g_expr(obj, env2, g_forhead(h, env2, acc)));
        },
        Stmt::Switch(d, cs) => {
            lemma_distinct_expr(d, env, acc);
            let env2 = env.push(
                FrameModel {
                    kind: ScopeKind::Switch,
                    names: lexical_cases(cs@, cs@.len() as int),
                },
            );
            lemma_distinct_cases(cs@, cs@.len() as int, env2, g_expr(d, env, acc));
        },
        Stmt::Try(b, c, f) => {
            let env_b = env.push(
                FrameModel { kind: ScopeKind::Block, names: lexical_stmts(b@, b@.len() as int) },
            );
            lemma_distinct_stmts(b@, b@.len() as int, env_b, acc);
            let acc1 = g_stmts(b@, b@.len() as int, env_b, acc);
            let acc2 = match c {
                Option::Some(cc) => {
                    let env_c = env.push(
                        FrameModel {
                            kind: ScopeKind::Catch,
                            names: opt_pat_names(cc.param) + lexical_stmts(
                                cc.body@,
                                cc.body@.len() as int,
                            ),
                        },
                    );
                    lemma_distinct_opt_pat(cc.param, env_c, acc1);
                    lemma_distinct_stmts(
                        cc.body@,
                        cc.body@.len() as int,
                        env_c,
                        g_opt_pat_refs(cc.param, env_c, acc1),
                    );
                    g_stmts(
                        cc.body@,
                        cc.body@.len() as int,
                        env_c,
                        g_opt_pat_refs(cc.param, env_c, acc1),
                    )
                },
                Option::None => acc1,
            };
            match f {
                Option::Some(fs) => {
                    let env_f = env.push(
                        FrameModel {
                            kind: ScopeKind::Block,
                            names: lexical_stmts(fs@, fs@.len() as int),
                        },
                    );
                    lemma_distinct_stmts(fs@, fs@.len() as int, env_f, acc2);
                },
                Option::None => {},
            }
        },
        Stmt::With(obj, b) => {
            lemma_distinct_expr(obj, env, acc);
            let env2 = env.push(FrameModel { kind: ScopeKind::Opaque, names: Seq::empty() });
            lemma_distinct_stmt(*b, env2, g_expr(obj, env, acc));
        },
        Stmt::Return(o) => {
            lemma_distinct_opt_expr(o, env, acc);
        },
        Stmt::Throw(e) => {
            lemma_distinct_expr(e, env, acc);
        },
        Stmt::Labeled(b) => {
            lemma_distinct_stmt(*b, env, acc);
        },
        _ => {},
    }
}

proof fn lemma_distinct_stmts(ss: Seq<Stmt>, i: int, env: Seq<FrameModel>, acc: Seq<Seq<char>>)
    requires
        distinct(acc),
    ensures
        distinct(g_stmts(ss, i, env, acc)),
    decreases ss, i,
{
    if 0 < i <= ss.len() {
        lemma_distinct_stmts(ss, i - 1, env, acc);
        lemma_distinct_stmt(ss[i - 1], env, g_stmts(ss, i - 1, env, acc));
    }
}

proof fn lemma_distinct_cases(
    cs: Seq<SwitchCase>,
    i: int,
    env: Seq<FrameModel>,
    acc: Seq<Seq<char>>,
)
    requires
        distinct(acc),
    ensures
        distinct(g_cases(cs, i, env, acc)),
    decreases cs, i,
{
    if 0 < i <= cs.len() {
        lemma_distinct_cases(cs, i - 1, env, acc);
        let acc1 = g_cases(cs, i - 1, env, acc);
        lemma_distinct_opt_expr(cs[i - 1].test, env, acc1);
        lemma_distinct_stmts(
            cs[i - 1].body@,
            cs[i - 1].body@.len() as int,
            env,
            g_opt_expr(cs[i - 1].test, env, acc1),
        );
    }
}

proof fn lemma_distinct_export_names(
    ns: Seq<String>,
    i: int,
    env: Seq<FrameModel>,
    acc: Seq<Seq<char>>,
)
    requires
        distinct(acc),
    ensures
        distinct(g_export_names(ns, i, env, acc)),
    decreases i,
{
    if 0 < i <= ns.len() {
        lemma_distinct_export_names(ns, i - 1, env, acc);
        lemma_distinct_ref(ns[i - 1]@, env, g_export_names(ns, i - 1, env, acc));
    }
}

proof fn lemma_distinct_items(
    items: Seq<ModuleItem>,
    i: int,
    env: Seq<FrameModel>,
    acc: Seq<Seq<char>>,
)
    requires
        distinct(acc),
    ensures
        distinct(g_items(items, i, env, acc)),
    decreases items, i,
{
    if 0 < i <= items.len() {
        lemma_distinct_items(items, i - 1, env, acc);
        let acc1 = g_items(items, i - 1, env, acc);
        match items[i - 1] {
            ModuleItem::ExportDecl(s) => {
                lemma_distinct_stmt(*s, env, acc1);
            },
            ModuleItem::ExportNamed(ns) => {
                lemma_distinct_export_names(ns@, ns@.len() as int, env, acc1);
            },
            ModuleItem::ExportDefault(e) => {
                lemma_distinct_expr(*e, env, acc1);
            },
            ModuleItem::Stmt(s) => {
                lemma_distinct_stmt(s, env, acc1);
            },
            _ => {},
        }
    }
}

/// The global set of a module holds no duplicate: a name is reported
/// once, at its first occurrence.
pub proof fn lemma_globals_no_duplicates(m: Module)
    ensures
        distinct(spec_globals(m)),
{
    lemma_distinct_items(
        m.items@,
        m.items@.len() as int,
        seq![module_frame(m.items@)],
        Seq::<Seq<char>>::empty(),
    );
}

/// For any module with no free identifiers, the global set is empty.
pub proof fn lemma_no_free_identifiers(m: Module)
    requires
        module_closed(m),
    ensures
        spec_globals(m) == Seq::<Seq<char>>::empty(),
{
    lemma_resolved_items(
        m.items@,
        m.items@.len() as int,
        seq![module_frame(m.items@)],
        Seq::<Seq<char>>::empty(),
    );
}

/// A `let`/`const` binding inside a block is never visible outside the
/// block: in a module whose first item is a block and whose second
/// reads `n`, the read is reported global whenever the block hoists no
/// `var` or function declaration of that name — even when the block
/// declares `n` with `let` or `const`.
pub proof fn lemma_block_binding_invisible(m: Module, b: Vec<Stmt>, n: String)
    requires
        m.items@.len() == 2,
        m.items@[0] == ModuleItem::Stmt(Stmt::Block(b)),
        m.items@[1] == ModuleItem::Stmt(Stmt::Expr(Expr::Ident(n))),
        !hoisted_stmts(b@, b@.len() as int).contains(n@),
    ensures
        spec_globals(m).contains(n@),
{
    let items = m.items@;
    let mn = module_names(items, 2);
    assert(module_names(items, 2) == module_names(items, 1) + module_item_names(items[1]));
    assert(module_names(items, 1) == module_names(items, 0) + module_item_names(items[0]));
    assert(module_item_names(items[0]) == hoisted_stmt(Stmt::Block(b)) + lexical_stmt(
        Stmt::Block(b),
    ));
    assert(!mn.contains(n@));
    let env0 = seq![module_frame(items)];
    assert(!resolves(env0, n@)) by {
        assert(env0.last() == module_frame(items));
        assert(env0.drop_last() =~= Seq::<FrameModel>::empty());
        assert(!resolves(Seq::<FrameModel>::empty(), n@));
    }
    let acc0 = Seq::<Seq<char>>::empty();
    let acc1 = g_items(items, 1, env0, acc0);
    assert(spec_globals(m) == g_items(items, 2, env0, acc0));
    assert(g_items(items, 2, env0, acc0) == g_stmt(Stmt::Expr(Expr::Ident(n)), env0, acc1));
    assert(g_stmt(Stmt::Expr(Expr::Ident(n)), env0, acc1) == g_expr(Expr::Ident(n), env0, acc1));
    assert(g_expr(Expr::Ident(n), env0, acc1) == g_ref(n@, env0, acc1));
    assert(spec_globals(m) == g_ref(n@, env0, acc1));
    lemma_add_contains(acc1, n@);
}

/// A `var` or function declaration anywhere inside a statement is
/// hoisted to the module frame: a read of the name after that
/// statement resolves and is not reported global.
pub proof fn lemma_hoisted_read_after(m: Module, s: Stmt, n: String)
    requires
        m.items@.len() == 2,
        m.items@[0] == ModuleItem::Stmt(s),
        m.items@[1] == ModuleItem::Stmt(Stmt::Expr(Expr::Ident(n))),
        hoisted_stmt(s).contains(n@),
    ensures
        spec_globals(m) == g_stmt(s, seq![module_frame(m.items@)], Seq::<Seq<char>>::empty()),
{
    let items = m.items@;
    let mn = module_names(items, 2);
    assert(module_names(items, 2) == module_names(items, 1) + module_item_names(items[1]));
    assert(module_names(items, 1) == module_names(items, 0) + module_item_names(items[0]));
    assert(module_item_names(items[0]) == hoisted_stmt(s) + lexical_stmt(s));
    assert(mn.contains(n@));
    let env0 = seq![module_frame(items)];
    assert(resolves(env0, n@)) by {
        assert(env0.last() == module_frame(items));
    }
    let acc0 = Seq::<Seq<char>>::empty();
    let acc1 = g_items(items, 1, env0, acc0);
    assert(g_items(items, 0, env0, acc0) == acc0);
    assert(acc1 == g_stmt(s, env0, acc0));
    assert(spec_globals(m) == g_items(items, 2, env0, acc0));
    assert(g_items(items, 2, env0, acc0) == g_stmt(Stmt::Expr(Expr::Ident(n)), env0, acc1));
    assert(g_stmt(Stmt::Expr(Expr::Ident(n)), env0, acc1) == g_expr(Expr::Ident(n), env0, acc1));
    assert(g_expr(Expr::Ident(n), env0, acc1) == g_ref(n@, env0, acc1));
    assert(spec_globals(m) == g_ref(n@, env0, acc1));
}

/// Hoisting works backwards too: a read of the name before the
/// declaring statement also resolves, because the module frame is
/// built from the whole item list before any reference is resolved.
pub proof fn lemma_hoisted_read_before(m: Module, s: Stmt, n: String)
    requires
        m.items@.len() == 2,
        m.items@[0] == ModuleItem::Stmt(Stmt::Expr(Expr::Ident(n))),
        m.items@[1] == ModuleItem::Stmt(s),
        hoisted_stmt(s).contains(n@),
    ensures
        spec_globals(m) == g_stmt(s, seq![module_frame(m.items@)], Seq::<Seq<char>>::empty()),
{
    let items = m.items@;
    let mn = module_names(items, 2);
    assert(module_names(items, 2) == module_names(items, 1) + module_item_names(items[1]));
    assert(module_names(items, 1) == module_names(items, 0) + module_item_names(items[0]));
    assert(module_item_names(items[1]) == hoisted_stmt(s) + lexical_stmt(s));
    assert(mn.contains(n@));
    let env0 = seq![module_frame(items)];
    assert(resolves(env0, n@)) by {
        assert(env0.last() == module_frame(items));
    }
    let acc0 = Seq::<Seq<char>>::empty();
    let acc1 = g_items(items, 1, env0, acc0);
    assert(g_items(items, 0, env0, acc0) == acc0);
    assert(acc1 == g_stmt(Stmt::Expr(Expr::Ident(n)), env0, acc0));
    assert(g_stmt(Stmt::Expr(Expr::Ident(n)), env0, acc0) == g_expr(Expr::Ident(n), env0, acc0));
    assert(g_expr(Expr::Ident(n), env0, acc0) == g_ref(n@, env0, acc0));
    assert(acc1 == g_ref(n@, env0, acc0));
    assert(acc1 == acc0);
    assert(spec_globals(m) == g_items(items, 2, env0, acc0));
    assert(g_items(items, 2, env0, acc0) == g_stmt(s, env0, acc1));
}

} // verus!
