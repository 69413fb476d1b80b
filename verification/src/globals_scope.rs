//! Global (free identifier) analysis.
//!
//! One traversal of a module resolves every read reference against the
//! active scope chain and accumulates the unresolved names, in first
//! occurrence order, as the module's global set.  The specification
//! functions below define the traversal; the executable walker is
//! proved equal to them.
use vstd::prelude::*;

use crate::ast::{
    Arrow, ArrowBody, Class, ClassMember, Declarator, Expr, ForHead, ForInit, Function, Module,
    ModuleItem, Pat, Prop, Stmt, SwitchCase,
};
use crate::oset::{oset_add, OrderedSet};
use crate::scope::{
    collect_for_head_lexical, collect_for_init_lexical, collect_hoisted_stmts,
    collect_lexical_cases, collect_lexical_stmts, collect_module_names, collect_opt_name,
    collect_opt_pat, collect_pats, env_view, for_head_lexical, for_init_lexical, hoisted_stmts,
    lexical_cases, lexical_stmts, module_names, opt_name, opt_pat_names, pats_names, resolves,
    Frame, FrameModel, ScopeKind,
};
use crate::names::names_view;

verus! {

broadcast use crate::names::lemma_app_assoc, crate::names::lemma_app_empty_right,
    crate::names::lemma_app_empty_left, crate::names::lemma_names_view_push,
    crate::names::lemma_names_view_empty, crate::names::lemma_push_drop_last,
    crate::scope::lemma_env_view_push;

/// One read reference: a name that resolves leaves the accumulator
/// unchanged; an unresolved name is appended unless already present.
pub open spec fn g_ref(n: Seq<char>, env: Seq<FrameModel>, acc: Seq<Seq<char>>) -> Seq<
    Seq<char>,
> {
    if resolves(env, n) {
        acc
    } else {
        oset_add(acc, n)
    }
}

/// The frame a function pushes: its own name (for a named function
/// expression's self-recursion), its parameters, and the hoisted and
/// lexical names of its body.
pub open spec fn function_frame(f: Function) -> FrameModel {
    FrameModel {
        kind: ScopeKind::Function,
        names: opt_name(f.name) + pats_names(f.params@, f.params@.len() as int) + hoisted_stmts(
            f.body@,
            f.body@.len() as int,
        ) + lexical_stmts(f.body@, f.body@.len() as int),
    }
}

/// The frame an arrow function pushes.
pub open spec fn arrow_frame(a: Arrow) -> FrameModel {
    FrameModel {
        kind: ScopeKind::Function,
        names: pats_names(a.params@, a.params@.len() as int) + (match a.body {
            ArrowBody::Block(ss) => hoisted_stmts(ss@, ss@.len() as int) + lexical_stmts(
                ss@,
                ss@.len() as int,
            ),
            ArrowBody::Expr(_) => Seq::empty(),
        }),
    }
}

/// The module frame: every top-level binding of the module.
pub open spec fn module_frame(items: Seq<ModuleItem>) -> FrameModel {
    FrameModel { kind: ScopeKind::Module, names: module_names(items, items.len() as int) }
}

/// The references of an expression, folded into `acc`.
pub open spec fn g_expr(e: Expr, env: Seq<FrameModel>, acc: Seq<Seq<char>>) -> Seq<Seq<char>>
    decreases e, 0int,
{
    match e {
        Expr::Ident(n) => g_ref(n@, env, acc),
        Expr::Lit => acc,
        Expr::Str(_) => acc,
        Expr::Tpl(es) => g_exprs(es@, es@.len() as int, env, acc),
        Expr::Array(es) => g_exprs(es@, es@.len() as int, env, acc),
        Expr::Object(ps) => g_props(ps@, ps@.len() as int, env, acc),
        Expr::Member(obj, _) => g_expr(*obj, env, acc),
        Expr::Index(obj, ix) => g_expr(*ix, env, g_expr(*obj, env, acc)),
        Expr::Call(callee, args) => g_exprs(args@, args@.len() as int, env, g_expr(*callee, env, acc)),
        Expr::New(callee, args) => g_exprs(args@, args@.len() as int, env, g_expr(*callee, env, acc)),
        Expr::Assign(t, v) => g_expr(*v, env, g_expr(*t, env, acc)),
        Expr::Unary(e2) => g_expr(*e2, env, acc),
        Expr::Update(e2) => g_expr(*e2, env, acc),
        Expr::Binary(l, r) => g_expr(*r, env, g_expr(*l, env, acc)),
        Expr::Cond(t, c, a) => g_expr(*a, env, g_expr(*c, env, g_expr(*t, env, acc))),
        Expr::Paren(e2) => g_expr(*e2, env, acc),
        Expr::Comma(es) => g_exprs(es@, es@.len() as int, env, acc),
        Expr::Yield(o) => (match o {
            Option::Some(e2) => g_expr(*e2, env, acc),
            Option::None => acc,
        }),
        Expr::Await(e2) => g_expr(*e2, env, acc),
        Expr::Func(f) => g_function(f, env, acc),
        Expr::ArrowFunc(a) => g_arrow(a, env, acc),
        Expr::ClassExpr(c) => g_class(c, env, acc),
    }
}

/// The references of the first `i` expressions.
pub open spec fn g_exprs(es: Seq<Expr>, i: int, env: Seq<FrameModel>, acc: Seq<Seq<char>>) -> Seq<
    Seq<char>,
>
    decreases es, i,
{
    if i <= 0 || i > es.len() {
        acc
    } else {
        g_expr(es[i - 1], env, g_exprs(es, i - 1, env, acc))
    }
}

/// The references of an optional expression.
pub open spec fn g_opt_expr(o: Option<Expr>, env: Seq<FrameModel>, acc: Seq<Seq<char>>) -> Seq<
    Seq<char>,
>
    decreases o, 0int,
{
    match o {
        Option::Some(e) => g_expr(e, env, acc),
        Option::None => acc,
    }
}

/// The references of the first `i` object literal properties.
pub open spec fn g_props(ps: Seq<Prop>, i: int, env: Seq<FrameModel>, acc: Seq<Seq<char>>) -> Seq<
    Seq<char>,
>
    decreases ps, i,
{
    if i <= 0 || i > ps.len() {
        acc
    } else {
        let acc1 = g_props(ps, i - 1, env, acc);
        match ps[i - 1] {
            Prop::Shorthand(n) => g_ref(n@, env, acc1),
            Prop::KeyValue(_, v) => g_expr(*v, env, acc1),
            Prop::Spread(e) => g_expr(*e, env, acc1),
        }
    }
}

/// The references inside a pattern: only default values are read;
/// the bound identifiers are binding occurrences and are skipped.
pub open spec fn g_pat(p: Pat, env: Seq<FrameModel>, acc: Seq<Seq<char>>) -> Seq<Seq<char>>
    decreases p, 0int,
{
    match p {
        Pat::Ident(_) => acc,
        Pat::Array(ps) => g_pats(ps@, ps@.len() as int, env, acc),
        Pat::Object(ps) => g_pats(ps@, ps@.len() as int, env, acc),
        Pat::Assign(p2, e) => g_expr(*e, env, g_pat(*p2, env, acc)),
        Pat::Rest(p2) => g_pat(*p2, env, acc),
    }
}

/// The references inside the first `i` patterns.
pub open spec fn g_pats(ps: Seq<Pat>, i: int, env: Seq<FrameModel>, acc: Seq<Seq<char>>) -> Seq<
    Seq<char>,
>
    decreases ps, i,
{
    if i <= 0 || i > ps.len() {
        acc
    } else {
        g_pat(ps[i - 1], env, g_pats(ps, i - 1, env, acc))
    }
}

/// The references of the first `i` declarators: each pattern's
/// defaults, then its initializer.
pub open spec fn g_decls(ds: Seq<Declarator>, i: int, env: Seq<FrameModel>, acc: Seq<Seq<char>>) -> Seq<
    Seq<char>,
>
    decreases ds, i,
{
    if i <= 0 || i > ds.len() {
        acc
    } else {
        g_opt_expr(ds[i - 1].init, env, g_pat(ds[i - 1].pat, env, g_decls(ds, i - 1, env, acc)))
    }
}

/// The references of a function: parameter defaults and body, inside
/// the function's own frame.
pub open spec fn g_function(f: Function, env: Seq<FrameModel>, acc: Seq<Seq<char>>) -> Seq<
    Seq<char>,
>
    decreases f, 0int,
{
    let env2 = env.push(function_frame(f));
    g_stmts(f.body@, f.body@.len() as int, env2, g_pats(f.params@, f.params@.len() as int, env2, acc))
}

/// The references of an arrow function.
pub open spec fn g_arrow(a: Arrow, env: Seq<FrameModel>, acc: Seq<Seq<char>>) -> Seq<Seq<char>>
    decreases a, 0int,
{
    let env2 = env.push(arrow_frame(a));
    let acc1 = g_pats(a.params@, a.params@.len() as int, env2, acc);
    match a.body {
        ArrowBody::Expr(e) => g_expr(*e, env2, acc1),
        ArrowBody::Block(ss) => g_stmts(ss@, ss@.len() as int, env2, acc1),
    }
}

/// The references of a class: a class expression's own name is visible
/// only inside the class body; the parent expression and the members
/// are traversed within that inner frame.
pub open spec fn g_class(c: Class, env: Seq<FrameModel>, acc: Seq<Seq<char>>) -> Seq<Seq<char>>
    decreases c, 0int,
{
    let env2 = env.push(FrameModel { kind: ScopeKind::Block, names: opt_name(c.name) });
    let acc1 = match c.parent {
        Option::Some(p) => g_expr(*p, env2, acc),
        Option::None => acc,
    };
    g_members(c.members@, c.members@.len() as int, env2, acc1)
}

/// The references of the first `i` class members.
pub open spec fn g_members(
    ms: Seq<ClassMember>,
    i: int,
    env: Seq<FrameModel>,
    acc: Seq<Seq<char>>,
) -> Seq<Seq<char>>
    decreases ms, i,
{
    if i <= 0 || i > ms.len() {
        acc
    } else {
        let acc1 = g_members(ms, i - 1, env, acc);
        match ms[i - 1] {
            ClassMember::Method(f) => g_function(f, env, acc1),
            ClassMember::Field(o) => g_opt_expr(o, env, acc1),
        }
    }
}

/// The references of a classic `for` head.
pub open spec fn g_forinit(init: Option<ForInit>, env: Seq<FrameModel>, acc: Seq<Seq<char>>) -> Seq<
    Seq<char>,
>
    decreases init, 0int,
{
    match init {
        Option::Some(ForInit::Decl(_, ds)) => g_decls(ds@, ds@.len() as int, env, acc),
        Option::Some(ForInit::Expr(e)) => g_expr(*e, env, acc),
        Option::None => acc,
    }
}

/// The references of a `for-in`/`for-of` head.
pub open spec fn g_forhead(h: ForHead, env: Seq<FrameModel>, acc: Seq<Seq<char>>) -> Seq<Seq<char>>
    decreases h, 0int,
{
    match h {
        ForHead::Decl(_, p) => g_pat(p, env, acc),
        ForHead::Target(e) => g_expr(*e, env, acc),
    }
}

/// The references of a statement, with the scope frames the statement
/// itself introduces.
pub open spec fn g_stmt(s: Stmt, env: Seq<FrameModel>, acc: Seq<Seq<char>>) -> Seq<Seq<char>>
    decreases s, 0int,
{
    match s {
        Stmt::Block(ss) => {
            let env2 = env.push(
                FrameModel {
                    kind: ScopeKind::Block,
                    names: lexical_stmts(ss@, ss@.len() as int),
                },
            );
            g_stmts(ss@, ss@.len() as int, env2, acc)
        },
        Stmt::Decl(_, ds) => g_decls(ds@, ds@.len() as int, env, acc),
        Stmt::FuncDecl(f) => g_function(f, env, acc),
        Stmt::ClassDecl(c) => g_class(c, env, acc),
        Stmt::Expr(e) => g_expr(e, env, acc),
        Stmt::If(t, c, a) => {
            let acc2 = g_stmt(*c, env, g_expr(t, env, acc));
            match a {
                Option::Some(s2) => g_stmt(*s2, env, acc2),
                Option::None => acc2,
            }
        },
        Stmt::While(t, b) => {
            let acc1 = g_expr(t, env, acc);
            let env2 = env.push(FrameModel { kind: ScopeKind::Loop, names: Seq::empty() });
            g_stmt(*b, env2, acc1)
        },
        Stmt::DoWhile(b, t) => {
            let env2 = env.push(FrameModel { kind: ScopeKind::Loop, names: Seq::empty() });
            g_expr(t, env, g_stmt(*b, env2, acc))
        },
        Stmt::For(init, test, upd, b) => {
            let env2 = env.push(
                FrameModel { kind: ScopeKind::Loop, names: for_init_lexical(init) },
            );
            let acc1 = g_opt_expr(upd, env2, g_opt_expr(test, env2, g_forinit(init, env2, acc)));
            g_stmt(*b, env2, acc1)
        },
        Stmt::ForIn(h, obj, b) => {
            let env2 = env.push(FrameModel { kind: ScopeKind::Loop, names: for_head_lexical(h) });
            g_stmt(*b, env2, g_expr(obj, env2, g_forhead(h, env2, acc)))
        },
        Stmt::ForOf(h, obj, b) => {
            let env2 = env.push(FrameModel { kind: ScopeKind::Loop, names: for_head_lexical(h) });
            g_stmt(*b, env2, g_expr(obj, env2, g_forhead(h, env2, acc)))
        },
        Stmt::Switch(d, cs) => {
            let acc1 = g_expr(d, env, acc);
            let env2 = env.push(
                FrameModel {
                    kind: ScopeKind::Switch,
                    names: lexical_cases(cs@, cs@.len() as int),
                },
            );
            g_cases(cs@, cs@.len() as int, env2, acc1)
        },
        Stmt::Try(b, c, f) => {
            let env_b = env.push(
                FrameModel { kind: ScopeKind::Block, names: lexical_stmts(b@, b@.len() as int) },
            );
            let acc1 = g_stmts(b@, b@.len() as int, env_b, acc);
            let acc2 = match c {
                Option::Some(cc) => {
                    let env_c = env.push(
                        FrameModel {
                            kind: ScopeKind::Catch,
                            names: opt_pat_names(cc.param) + lexical_stmts(
                                cc.body@,
                                cc.body@.len() as int,
                            ),
                        },
                    );
                    g_stmts(
                        cc.body@,
                        cc.body@.len() as int,
                        env_c,
                        g_opt_pat_refs(cc.param, env_c, acc1),
                    )
                },
                Option::None => acc1,
            };
            match f {
                Option::Some(fs) => {
                    let env_f = env.push(
                        FrameModel {
                            kind: ScopeKind::Block,
                            names: lexical_stmts(fs@, fs@.len() as int),
                        },
                    );
                    g_stmts(fs@, fs@.len() as int, env_f, acc2)
                },
                Option::None => acc2,
            }
        },
        Stmt::With(obj, b) => {
            let acc1 = g_expr(obj, env, acc);
            let env2 = env.push(FrameModel { kind: ScopeKind::Opaque, names: Seq::empty() });
            g_stmt(*b, env2, acc1)
        },
        Stmt::Return(o) => g_opt_expr(o, env, acc),
        Stmt::Throw(e) => g_expr(e, env, acc),
        Stmt::Labeled(b) => g_stmt(*b, env, acc),
        Stmt::Empty => acc,
    }
}

/// The references inside an optional catch parameter pattern.
pub open spec fn g_opt_pat_refs(p: Option<Pat>, env: Seq<FrameModel>, acc: Seq<Seq<char>>) -> Seq<
    Seq<char>,
>
    decreases p, 0int,
{
    match p {
        Option::Some(p2) => g_pat(p2, env, acc),
        Option::None => acc,
    }
}

/// The references of the first `i` statements.
pub open spec fn g_stmts(ss: Seq<Stmt>, i: int, env: Seq<FrameModel>, acc: Seq<Seq<char>>) -> Seq<
    Seq<char>,
>
    decreases ss, i,
{
    if i <= 0 || i > ss.len() {
        acc
    } else {
        g_stmt(ss[i - 1], env, g_stmts(ss, i - 1, env, acc))
    }
}

/// The references of the first `i` switch arms: each test, then its
/// statements, all in the switch's shared frame.
pub open spec fn g_cases(cs: Seq<SwitchCase>, i: int, env: Seq<FrameModel>, acc: Seq<Seq<char>>) -> Seq<
    Seq<char>,
>
    decreases cs, i,
{
    if i <= 0 || i > cs.len() {
        acc
    } else {
        let acc1 = g_cases(cs, i - 1, env, acc);
        g_stmts(
            cs[i - 1].body@,
            cs[i - 1].body@.len() as int,
            env,
            g_opt_expr(cs[i - 1].test, env, acc1),
        )
    }
}

/// The references of the first `i` exported names.
pub open spec fn g_export_names(
    ns: Seq<String>,
    i: int,
    env: Seq<FrameModel>,
    acc: Seq<Seq<char>>,
) -> Seq<Seq<char>>
    decreases i,
{
    if i <= 0 || i > ns.len() {
        acc
    } else {
        g_ref(ns[i - 1]@, env, g_export_names(ns, i - 1, env, acc))
    }
}

/// The references of the first `i` top-level items.
pub open spec fn g_items(
    items: Seq<ModuleItem>,
    i: int,
    env: Seq<FrameModel>,
    acc: Seq<Seq<char>>,
) -> Seq<Seq<char>>
    decreases items, i,
{
    if i <= 0 || i > items.len() {
        acc
    } else {
        let acc1 = g_items(items, i - 1, env, acc);
        match items[i - 1] {
            ModuleItem::Import(_) => acc1,
            ModuleItem::ExportDecl(s) => g_stmt(*s, env, acc1),
            ModuleItem::ExportNamed(ns) => g_export_names(ns@, ns@.len() as int, env, acc1),
            ModuleItem::ExportDefault(e) => g_expr(*e, env, acc1),
            ModuleItem::Stmt(s) => g_stmt(s, env, acc1),
        }
    }
}

/// The global set of a module: every unresolved read reference, in
/// first occurrence order.
pub open spec fn spec_globals(m: Module) -> Seq<Seq<char>> {
    g_items(
        m.items@,
        m.items@.len() as int,
        seq![module_frame(m.items@)],
        Seq::<Seq<char>>::empty(),
    )
}

/// Whether a frame of the chain binds `n`.
fn frame_has(f: &Frame, n: &String) -> (r: bool)
    ensures
        r == f@.names.contains(n@),
{
    let mut i: usize = 0;
    while i < f.names.len()
        invariant
            i <= f.names.len(),
            forall|k: int| 0 <= k < i ==> f.names@[k]@ != n@,
        decreases f.names.len() - i,
    {
        let x = &f.names[i];
        if x.eq(n) {
            proof {
                assert(f@.names[i as int] == n@);
            }
            return true;
        }
        i = i + 1;
    }
    proof {
        assert forall|k: int| 0 <= k < f@.names.len() implies f@.names[k] != n@ by {
            assert(f@.names[k] == f.names@[k]@);
        }
    }
    false
}

/// Resolve a read reference against the scope chain, innermost frame
/// first; an opaque frame that does not bind the name ends the walk.
fn resolve_name(env: &Vec<Frame>, n: &String) -> (r: bool)
    ensures
        r == resolves(env_view(env@), n@),
{
    let mut j: usize = env.len();
    proof {
        assert(env_view(env@).subrange(0, j as int) =~= env_view(env@));
    }
    while j > 0
        invariant
            j <= env.len(),
            resolves(env_view(env@), n@) == resolves(
                env_view(env@).subrange(0, j as int),
                n@,
            ),
        decreases j,
    {
        let f = &env[j - 1];
        let ghost pre = env_view(env@).subrange(0, j as int);
        proof {
            assert(pre.last() == f@);
        }
        if frame_has(f, n) {
            return true;
        }
        match f.kind {
            ScopeKind::Opaque => {
                return false;
            },
            _ => {},
        }
        proof {
            assert(pre.drop_last() =~= env_view(env@).subrange(0, j as int - 1));
        }
        j = j - 1;
    }
    proof {
        assert(env_view(env@).subrange(0, 0) =~= Seq::<FrameModel>::empty());
    }
    false
}

/// Record one read reference: append its name to the global set when
/// it does not resolve.
fn walk_ref(n: &String, env: &Vec<Frame>, acc: &mut OrderedSet)
    ensures
        final(acc)@ == g_ref(n@, env_view(env@), old(acc)@),
{
    if !resolve_name(env, n) {
        acc.insert(n.clone());
    }
}

/// Walk an expression, folding its references into `acc`.
fn walk_expr(e: &Expr, env: &mut Vec<Frame>, acc: &mut OrderedSet)
    ensures
        final(env)@ == old(env)@,
        final(acc)@ == g_expr(*e, env_view(old(env)@), old(acc)@),
    decreases *e, 0int,
{
    match e {
        Expr::Ident(n) => {
            walk_ref(n, env, acc);
        },
        Expr::Lit => {},
        Expr::Str(_) => {},
        Expr::Tpl(es) => {
            walk_exprs(es, es.len(), env, acc);
        },
        Expr::Array(es) => {
            walk_exprs(es, es.len(), env, acc);
        },
        Expr::Object(ps) => {
            walk_props(ps, ps.len(), env, acc);
        },
        Expr::Member(obj, _) => {
            walk_expr(&**obj, env, acc);
        },
        Expr::Index(obj, ix) => {
            walk_expr(&**obj, env, acc);
            walk_expr(&**ix, env, acc);
        },
        Expr::Call(callee, args) => {
            walk_expr(&**callee, env, acc);
            walk_exprs(args, args.len(), env, acc);
        },
        Expr::New(callee, args) => {
            walk_expr(&**callee, env, acc);
            walk_exprs(args, args.len(), env, acc);
        },
        Expr::Assign(t, v) => {
            walk_expr(&**t, env, acc);
            walk_expr(&**v, env, acc);
        },
        Expr::Unary(e2) => {
            walk_expr(&**e2, env, acc);
        },
        Expr::Update(e2) => {
            walk_expr(&**e2, env, acc);
        },
        Expr::Binary(l, r) => {
            walk_expr(&**l, env, acc);
            walk_expr(&**r, env, acc);
        },
        Expr::Cond(t, c, a) => {
            walk_expr(&**t, env, acc);
            walk_expr(&**c, env, acc);
            walk_expr(&**a, env, acc);
        },
        Expr::Paren(e2) => {
            walk_expr(&**e2, env, acc);
        },
        Expr::Comma(es) => {
            walk_exprs(es, es.len(), env, acc);
        },
        Expr::Yield(o) => {
            match o {
                Option::Some(e2) => {
                    walk_expr(&**e2, env, acc);
                },
                Option::None => {},
            }
        },
        Expr::Await(e2) => {
            walk_expr(&**e2, env, acc);
        },
        Expr::Func(f) => {
            walk_function(f, env, acc);
        },
        Expr::ArrowFunc(a) => {
            walk_arrow(a, env, acc);
        },
        Expr::ClassExpr(c) => {
            walk_class(c, env, acc);
        },
    }
}

/// Walk the first `i` expressions.
fn walk_exprs(es: &Vec<Expr>, i: usize, env: &mut Vec<Frame>, acc: &mut OrderedSet)
    requires
        i <= es.len(),
    ensures
        final(env)@ == old(env)@,
        final(acc)@ == g_exprs(es@, i as int, env_view(old(env)@), old(acc)@),
    decreases es@, i as int,
{
    if i > 0 {
        walk_exprs(es, i - 1, env, acc);
        walk_expr(&es[i - 1], env, acc);
    }
}

/// Walk an optional expression.
fn walk_opt_expr(o: &Option<Expr>, env: &mut Vec<Frame>, acc: &mut OrderedSet)
    ensures
        final(env)@ == old(env)@,
        final(acc)@ == g_opt_expr(*o, env_view(old(env)@), old(acc)@),
    decreases *o, 0int,
{
    match o {
        Option::Some(e) => {
            walk_expr(e, env, acc);
        },
        Option::None => {},
    }
}

/// Walk the first `i` object literal properties.
fn walk_props(ps: &Vec<Prop>, i: usize, env: &mut Vec<Frame>, acc: &mut OrderedSet)
    requires
        i <= ps.len(),
    ensures
        final(env)@ == old(env)@,
        final(acc)@ == g_props(ps@, i as int, env_view(old(env)@), old(acc)@),
    decreases ps@, i as int,
{
    if i > 0 {
        walk_props(ps, i - 1, env, acc);
        match &ps[i - 1] {
            Prop::Shorthand(n) => {
                walk_ref(n, env, acc);
            },
            Prop::KeyValue(_, v) => {
                walk_expr(&**v, env, acc);
            },
            Prop::Spread(e) => {
                walk_expr(&**e, env, acc);
            },
        }
    }
}

/// Walk a pattern's default values.
fn walk_pat(p: &Pat, env: &mut Vec<Frame>, acc: &mut OrderedSet)
    ensures
        final(env)@ == old(env)@,
        final(acc)@ == g_pat(*p, env_view(old(env)@), old(acc)@),
    decreases *p, 0int,
{
    match p {
        Pat::Ident(_) => {},
        Pat::Array(ps) => {
            walk_pats(ps, ps.len(), env, acc);
        },
        Pat::Object(ps) => {
            walk_pats(ps, ps.len(), env, acc);
        },
        Pat::Assign(p2, e) => {
            walk_pat(&**p2, env, acc);
            walk_expr(&**e, env, acc);
        },
        Pat::Rest(p2) => {
            walk_pat(&**p2, env, acc);
        },
    }
}

/// Walk the first `i` patterns.
fn walk_pats(ps: &Vec<Pat>, i: usize, env: &mut Vec<Frame>, acc: &mut OrderedSet)
    requires
        i <= ps.len(),
    ensures
        final(env)@ == old(env)@,
        final(acc)@ == g_pats(ps@, i as int, env_view(old(env)@), old(acc)@),
    decreases ps@, i as int,
{
    if i > 0 {
        walk_pats(ps, i - 1, env, acc);
        walk_pat(&ps[i - 1], env, acc);
    }
}

/// Walk the first `i` declarators.
fn walk_decls(ds: &Vec<Declarator>, i: usize, env: &mut Vec<Frame>, acc: &mut OrderedSet)
    requires
        i <= ds.len(),
    ensures
        final(env)@ == old(env)@,
        final(acc)@ == g_decls(ds@, i as int, env_view(old(env)@), old(acc)@),
    decreases ds@, i as int,
{
    if i > 0 {
        walk_decls(ds, i - 1, env, acc);
        walk_pat(&ds[i - 1].pat, env, acc);
        walk_opt_expr(&ds[i - 1].init, env, acc);
    }
}

/// Walk an optional catch parameter pattern.
fn walk_opt_pat_refs(p: &Option<Pat>, env: &mut Vec<Frame>, acc: &mut OrderedSet)
    ensures
        final(env)@ == old(env)@,
        final(acc)@ == g_opt_pat_refs(*p, env_view(old(env)@), old(acc)@),
    decreases *p, 0int,
{
    match p {
        Option::Some(p2) => {
            walk_pat(p2, env, acc);
        },
        Option::None => {},
    }
}

/// Walk a function: push its frame, walk parameters and body, pop.
fn walk_function(f: &Function, env: &mut Vec<Frame>, acc: &mut OrderedSet)
    ensures
        final(env)@ == old(env)@,
        final(acc)@ == g_function(*f, env_view(old(env)@), old(acc)@),
    decreases *f, 0int,
{
    let mut names: Vec<String> = Vec::new();
    collect_opt_name(&f.name, &mut names);
    collect_pats(&f.params, f.params.len(), &mut names);
    collect_hoisted_stmts(&f.body, f.body.len(), &mut names);
    collect_lexical_stmts(&f.body, f.body.len(), &mut names);
    env.push(Frame { kind: ScopeKind::Function, names });
    walk_pats(&f.params, f.params.len(), env, acc);
    walk_stmts(&f.body, f.body.len(), env, acc);
    env.pop();
    proof {
        assert(env@ =~= old(env)@);
    }
}

/// Walk an arrow function.
fn walk_arrow(a: &Arrow, env: &mut Vec<Frame>, acc: &mut OrderedSet)
    ensures
        final(env)@ == old(env)@,
        final(acc)@ == g_arrow(*a, env_view(old(env)@), old(acc)@),
    decreases *a, 0int,
{
    let mut names: Vec<String> = Vec::new();
    collect_pats(&a.params, a.params.len(), &mut names);
    match &a.body {
        ArrowBody::Block(ss) => {
            collect_hoisted_stmts(ss, ss.len(), &mut names);
            collect_lexical_stmts(ss, ss.len(), &mut names);
        },
        ArrowBody::Expr(_) => {},
    }
    env.push(Frame { kind: ScopeKind::Function, names });
    walk_pats(&a.params, a.params.len(), env, acc);
    match &a.body {
        ArrowBody::Expr(e) => {
            walk_expr(&**e, env, acc);
        },
        ArrowBody::Block(ss) => {
            walk_stmts(ss, ss.len(), env, acc);
        },
    }
    env.pop();
    proof {
        assert(env@ =~= old(env)@);
    }
}

/// Walk a class: its own name is visible only inside the body.
fn walk_class(c: &Class, env: &mut Vec<Frame>, acc: &mut OrderedSet)
    ensures
        final(env)@ == old(env)@,
        final(acc)@ == g_class(*c, env_view(old(env)@), old(acc)@),
    decreases *c, 0int,
{
    let mut names: Vec<String> = Vec::new();
    collect_opt_name(&c.name, &mut names);
    env.push(Frame { kind: ScopeKind::Block, names });
    match &c.parent {
        Option::Some(p) => {
            walk_expr(&**p, env, acc);
        },
        Option::None => {},
    }
    walk_members(&c.members, c.members.len(), env, acc);
    env.pop();
    proof {
        assert(env@ =~= old(env)@);
    }
}

/// Walk the first `i` class members.
fn walk_members(ms: &Vec<ClassMember>, i: usize, env: &mut Vec<Frame>, acc: &mut OrderedSet)
    requires
        i <= ms.len(),
    ensures
        final(env)@ == old(env)@,
        final(acc)@ == g_members(ms@, i as int, env_view(old(env)@), old(acc)@),
    decreases ms@, i as int,
{
    if i > 0 {
        walk_members(ms, i - 1, env, acc);
        match &ms[i - 1] {
            ClassMember::Method(f) => {
                walk_function(f, env, acc);
            },
            ClassMember::Field(o) => {
                walk_opt_expr(o, env, acc);
            },
        }
    }
}

/// Walk a classic `for` head.
fn walk_forinit(init: &Option<ForInit>, env: &mut Vec<Frame>, acc: &mut OrderedSet)
    ensures
        final(env)@ == old(env)@,
        final(acc)@ == g_forinit(*init, env_view(old(env)@), old(acc)@),
    decreases *init, 0int,
{
    match init {
        Option::Some(ForInit::Decl(_, ds)) => {
            walk_decls(ds, ds.len(), env, acc);
        },
        Option::Some(ForInit::Expr(e)) => {
            walk_expr(&**e, env, acc);
        },
        Option::None => {},
    }
}

/// Walk a `for-in`/`for-of` head.
fn walk_forhead(h: &ForHead, env: &mut Vec<Frame>, acc: &mut OrderedSet)
    ensures
        final(env)@ == old(env)@,
        final(acc)@ == g_forhead(*h, env_view(old(env)@), old(acc)@),
    decreases *h, 0int,
{
    match h {
        ForHead::Decl(_, p) => {
            walk_pat(p, env, acc);
        },
        ForHead::Target(e) => {
            walk_expr(&**e, env, acc);
        },
    }
}

/// Walk a statement, pushing and popping the frames it introduces.
fn walk_stmt(s: &Stmt, env: &mut Vec<Frame>, acc: &mut OrderedSet)
    ensures
        final(env)@ == old(env)@,
        final(acc)@ == g_stmt(*s, env_view(old(env)@), old(acc)@),
    decreases *s, 0int,
{
    match s {
        Stmt::Block(ss) => {
            let mut names: Vec<String> = Vec::new();
            collect_lexical_stmts(ss, ss.len(), &mut names);
            env.push(Frame { kind: ScopeKind::Block, names });
            walk_stmts(ss, ss.len(), env, acc);
            env.pop();
            proof {
                assert(env@ =~= old(env)@);
            }
        },
        Stmt::Decl(_, ds) => {
            walk_decls(ds, ds.len(), env, acc);
        },
        Stmt::FuncDecl(f) => {
            walk_function(f, env, acc);
        },
        Stmt::ClassDecl(c) => {
            walk_class(c, env, acc);
        },
        Stmt::Expr(e) => {
            walk_expr(e, env, acc);
        },
        Stmt::If(t, c, a) => {
            walk_expr(t, env, acc);
            walk_stmt(&**c, env, acc);
            match a {
                Option::Some(s2) => {
                    walk_stmt(&**s2, env, acc);
                },
                Option::None => {},
            }
        },
        Stmt::While(t, b) => {
            walk_expr(t, env, acc);
            env.push(Frame { kind: ScopeKind::Loop, names: Vec::new() });
            walk_stmt(&**b, env, acc);
            env.pop();
            proof {
                assert(env@ =~= old(env)@);
            }
        },
        Stmt::DoWhile(b, t) => {
            env.push(Frame { kind: ScopeKind::Loop, names: Vec::new() });
            walk_stmt(&**b, env, acc);
            env.pop();
            proof {
                assert(env@ =~= old(env)@);
            }
            walk_expr(t, env, acc);
        },
        Stmt::For(init, test, upd, b) => {
            let mut names: Vec<String> = Vec::new();
            collect_for_init_lexical(init, &mut names);
            env.push(Frame { kind: ScopeKind::Loop, names });
            walk_forinit(init, env, acc);
            walk_opt_expr(test, env, acc);
            walk_opt_expr(upd, env, acc);
            walk_stmt(&**b, env, acc);
            env.pop();
            proof {
                assert(env@ =~= old(env)@);
            }
        },
        Stmt::ForIn(h, obj, b) => {
            let mut names: Vec<String> = Vec::new();
            collect_for_head_lexical(h, &mut names);
            env.push(Frame { kind: ScopeKind::Loop, names });
            walk_forhead(h, env, acc);
            walk_expr(obj, env, acc);
            walk_stmt(&**b, env, acc);
            env.pop();
            proof {
                assert(env@ =~= old(env)@);
            }
        },
        Stmt::ForOf(h, obj, b) => {
            let mut names: Vec<String> = Vec::new();
            collect_for_head_lexical(h, &mut names);
            env.push(Frame { kind: ScopeKind::Loop, names });
            walk_forhead(h, env, acc);
            walk_expr(obj, env, acc);
            walk_stmt(&**b, env, acc);
            env.pop();
            proof {
                assert(env@ =~= old(env)@);
            }
        },
        Stmt::Switch(d, cs) => {
            walk_expr(d, env, acc);
            let mut names: Vec<String> = Vec::new();
            collect_lexical_cases(cs, cs.len(), &mut names);
            env.push(Frame { kind: ScopeKind::Switch, names });
            walk_cases(cs, cs.len(), env, acc);
            env.pop();
            proof {
                assert(env@ =~= old(env)@);
            }
        },
        Stmt::Try(b, c, f) => {
            let mut names_b: Vec<String> = Vec::new();
            collect_lexical_stmts(b, b.len(), &mut names_b);
            env.push(Frame { kind: ScopeKind::Block, names: names_b });
            walk_stmts(b, b.len(), env, acc);
            env.pop();
            proof {
                assert(env@ =~= old(env)@);
            }
            match c {
                Option::Some(cc) => {
                    let mut names_c: Vec<String> = Vec::new();
                    collect_opt_pat(&cc.param, &mut names_c);
                    collect_lexical_stmts(&cc.body, cc.body.len(), &mut names_c);
                    env.push(Frame { kind: ScopeKind::Catch, names: names_c });
                    walk_opt_pat_refs(&cc.param, env, acc);
                    walk_stmts(&cc.body, cc.body.len(), env, acc);
                    env.pop();
                    proof {
                        assert(env@ =~= old(env)@);
                    }
                },
                Option::None => {},
            }
            match f {
                Option::Some(fs) => {
                    let mut names_f: Vec<String> = Vec::new();
                    collect_lexical_stmts(fs, fs.len(), &mut names_f);
                    env.push(Frame { kind: ScopeKind::Block, names: names_f });
                    walk_stmts(fs, fs.len(), env, acc);
                    env.pop();
                    proof {
                        assert(env@ =~= old(env)@);
                    }
                },
                Option::None => {},
            }
        },
        Stmt::With(obj, b) => {
            walk_expr(obj, env, acc);
            env.push(Frame { kind: ScopeKind::Opaque, names: Vec::new() });
            walk_stmt(&**b, env, acc);
            env.pop();
            proof {
                assert(env@ =~= old(env)@);
            }
        },
        Stmt::Return(o) => {
            walk_opt_expr(o, env, acc);
        },
        Stmt::Throw(e) => {
            walk_expr(e, env, acc);
        },
        Stmt::Labeled(b) => {
            walk_stmt(&**b, env, acc);
        },
        Stmt::Empty => {},
    }
}

/// Walk the first `i` statements.
fn walk_stmts(ss: &Vec<Stmt>, i: usize, env: &mut Vec<Frame>, acc: &mut OrderedSet)
    requires
        i <= ss.len(),
    ensures
        final(env)@ == old(env)@,
        final(acc)@ == g_stmts(ss@, i as int, env_view(old(env)@), old(acc)@),
    decreases ss@, i as int,
{
    if i > 0 {
        walk_stmts(ss, i - 1, env, acc);
        walk_stmt(&ss[i - 1], env, acc);
    }
}

/// Walk the first `i` switch arms.
fn walk_cases(cs: &Vec<SwitchCase>, i: usize, env: &mut Vec<Frame>, acc: &mut OrderedSet)
    requires
        i <= cs.len(),
    ensures
        final(env)@ == old(env)@,
        final(acc)@ == g_cases(cs@, i as int, env_view(old(env)@), old(acc)@),
    decreases cs@, i as int,
{
    if i > 0 {
        walk_cases(cs, i - 1, env, acc);
        walk_opt_expr(&cs[i - 1].test, env, acc);
        walk_stmts(&cs[i - 1].body, cs[i - 1].body.len(), env, acc);
    }
}

/// Walk the first `i` exported names.
fn walk_export_names(ns: &Vec<String>, i: usize, env: &Vec<Frame>, acc: &mut OrderedSet)
    requires
        i <= ns.len(),
    ensures
        final(acc)@ == g_export_names(ns@, i as int, env_view(env@), old(acc)@),
    decreases i,
{
    if i > 0 {
        walk_export_names(ns, i - 1, env, acc);
        walk_ref(&ns[i - 1], env, acc);
    }
}

/// Walk the first `i` top-level items.
fn walk_items(items: &Vec<ModuleItem>, i: usize, env: &mut Vec<Frame>, acc: &mut OrderedSet)
    requires
        i <= items.len(),
    ensures
        final(env)@ == old(env)@,
        final(acc)@ == g_items(items@, i as int, env_view(old(env)@), old(acc)@),
    decreases items@, i as int,
{
    if i > 0 {
        walk_items(items, i - 1, env, acc);
        match &items[i - 1] {
            ModuleItem::Import(_) => {},
            ModuleItem::ExportDecl(s) => {
                walk_stmt(&**s, env, acc);
            },
            ModuleItem::ExportNamed(ns) => {
                walk_export_names(ns, ns.len(), env, acc);
            },
            ModuleItem::ExportDefault(e) => {
                walk_expr(&**e, env, acc);
            },
            ModuleItem::Stmt(s) => {
                walk_stmt(s, env, acc);
            },
        }
    }
}

/// Resolves every identifier reference of a module against the scope
/// chain and accumulates the unresolved names as the module's global
/// set.
pub struct GlobalAnalysis {}

impl GlobalAnalysis {
    /// Create a global analysis.
    pub fn new() -> (r: Self) {
        GlobalAnalysis {  }
    }

    /// Analyze and compute the global names of a module, in first
    /// occurrence order.
    pub fn analyze(&self, module: &Module) -> (r: OrderedSet)
        ensures
            r@ == spec_globals(*module),
    {
        let mut names: Vec<String> = Vec::new();
        collect_module_names(&module.items, module.items.len(), &mut names);
        let mut env: Vec<Frame> = Vec::new();
        env.push(Frame { kind: ScopeKind::Module, names });
        proof {
            assert(env_view(env@) =~= seq![module_frame(module.items@)]);
        }
        let mut acc = OrderedSet::new();
        walk_items(&module.items, module.items.len(), &mut env, &mut acc);
        acc
    }
}

} // verus!
