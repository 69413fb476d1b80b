//! Analyze imports from builtin modules.
//!
//! A module touches a platform builtin either through a static import
//! whose source is in the builtin registry, or through a variable
//! declarator whose initializer is a direct `require` call with one
//! string literal argument naming a registered builtin.  Each hit
//! yields a builtin record; records are deduplicated by their full
//! identity and their canonical symbols are unioned, in first-seen
//! order, into the module's builtin set.
use vstd::prelude::*;
use vstd::string::*;

use crate::ast::{
    Arrow, ArrowBody, Class, ClassMember, Declarator, Expr, ForHead, ForInit, Function,
    ImportDecl, ImportSpec, Module, ModuleItem, Pat, Prop, Stmt, SwitchCase,
};
use crate::names::names_view;
use crate::oset::{oset_add, OrderedSet};

verus! {

/// One local binding a builtin import introduces.  A named local is
/// canonicalized to a fully qualified module path: `readFileSync`
/// imported from `fs` becomes `fs.readFileSync`.  The local alias is
/// what the canonicalization uses, also for a renamed named import,
/// although the exported name would arguably be the right choice
/// there.
pub enum Local {
    /// A default or namespace local: the bare alias is the canonical
    /// symbol.
    Default(String),
    /// A named local: canonicalized as `source.name`.
    Named(String),
}

/// One detected reference to a builtin module: its source name and the
/// locals bound from it.  A `require` hit binds no locals: which
/// members of the resulting binding are later accessed is not tracked,
/// so such a record is marked `bare` and contributes only the bare
/// module name.  A side-effect import also has no locals but is not
/// bare: it contributes no symbol at all.
pub struct Builtin {
    pub source: String,
    pub locals: Vec<Local>,
    pub bare: bool,
}

/// The value of a local: whether it is named, and its text.
pub open spec fn local_view(l: Local) -> (bool, Seq<char>) {
    match l {
        Local::Default(n) => (false, n@),
        Local::Named(n) => (true, n@),
    }
}

/// The values of a sequence of locals.
pub open spec fn locals_view(ls: Seq<Local>) -> Seq<(bool, Seq<char>)> {
    ls.map(|i: int, l: Local| local_view(l))
}

/// The mathematical value of a builtin record.
pub struct BuiltinModel {
    pub source: Seq<char>,
    pub locals: Seq<(bool, Seq<char>)>,
    pub bare: bool,
}

impl View for Builtin {
    type V = BuiltinModel;

    open spec fn view(&self) -> BuiltinModel {
        BuiltinModel { source: self.source@, locals: locals_view(self.locals@), bare: self.bare }
    }
}

/// The values of a sequence of builtin records.
pub open spec fn builtins_view(bs: Seq<Builtin>) -> Seq<BuiltinModel> {
    bs.map(|i: int, b: Builtin| b@)
}

/// Append a local unless an identical one is already bound.
pub open spec fn local_add(ls: Seq<(bool, Seq<char>)>, l: (bool, Seq<char>)) -> Seq<
    (bool, Seq<char>),
> {
    if ls.contains(l) {
        ls
    } else {
        ls.push(l)
    }
}

/// Append a builtin record unless an identical one was already seen.
pub open spec fn builtin_add(bs: Seq<BuiltinModel>, b: BuiltinModel) -> Seq<BuiltinModel> {
    if bs.contains(b) {
        bs
    } else {
        bs.push(b)
    }
}

/// The locals of the first `i` import specifiers folded into `acc`,
/// deduplicated in first-seen order.
pub open spec fn import_locals(specs: Seq<ImportSpec>, i: int, acc: Seq<(bool, Seq<char>)>) -> Seq<
    (bool, Seq<char>),
>
    decreases i,
{
    if i <= 0 || i > specs.len() {
        acc
    } else {
        local_add(
            import_locals(specs, i - 1, acc),
            match specs[i - 1] {
                ImportSpec::Default(n) => (false, n@),
                ImportSpec::Named(n) => (true, n@),
                ImportSpec::Namespace(n) => (false, n@),
            },
        )
    }
}

/// The builtin record of a static import whose source is registered.
pub open spec fn b_import(d: ImportDecl, reg: Seq<Seq<char>>, acc: Seq<BuiltinModel>) -> Seq<
    BuiltinModel,
> {
    if reg.contains(d.source@) {
        builtin_add(
            acc,
            BuiltinModel {
                source: d.source@,
                locals: import_locals(d.specifiers@, d.specifiers@.len() as int, Seq::empty()),
                bare: false,
            },
        )
    } else {
        acc
    }
}

/// The source named by a direct `require` call with exactly one string
/// literal argument, if the expression is one.
pub open spec fn require_arg(e: Expr) -> Option<Seq<char>> {
    match e {
        Expr::Call(callee, args) => if args@.len() == 1 {
            match *callee {
                Expr::Ident(n) => if n@ == "require"@ {
                    match args@[0] {
                        Expr::Str(s) => Option::Some(s@),
                        _ => Option::None,
                    }
                } else {
                    Option::None
                },
                _ => Option::None,
            }
        } else {
            Option::None
        },
        _ => Option::None,
    }
}

/// The builtin record of one variable declarator whose initializer is
/// a registered `require` call; such a record has no locals.
pub open spec fn b_declarator(d: Declarator, reg: Seq<Seq<char>>, acc: Seq<BuiltinModel>) -> Seq<
    BuiltinModel,
> {
    match d.init {
        Option::Some(e) => match require_arg(e) {
            Option::Some(src) => if reg.contains(src) {
                builtin_add(acc, BuiltinModel { source: src, locals: Seq::empty(), bare: true })
            } else {
                acc
            },
            Option::None => acc,
        },
        Option::None => acc,
    }
}

/// The builtin records found in an expression, in pre-order.
pub open spec fn b_expr(e: Expr, reg: Seq<Seq<char>>, acc: Seq<BuiltinModel>) -> Seq<BuiltinModel>
    decreases e, 0int,
{
    match e {
        Expr::Ident(_) => acc,
        Expr::Lit => acc,
        Expr::Str(_) => acc,
        Expr::Tpl(es) => b_exprs(es@, es@.len() as int, reg, acc),
        Expr::Array(es) => b_exprs(es@, es@.len() as int, reg, acc),
        Expr::Object(ps) => b_props(ps@, ps@.len() as int, reg, acc),
        Expr::Member(obj, _) => b_expr(*obj, reg, acc),
        Expr::Index(obj, ix) => b_expr(*ix, reg, b_expr(*obj, reg, acc)),
        Expr::Call(callee, args) => b_exprs(args@, args@.len() as int, reg, b_expr(*callee, reg, acc)),
        Expr::New(callee, args) => b_exprs(args@, args@.len() as int, reg, b_expr(*callee, reg, acc)),
        Expr::Assign(t, v) => b_expr(*v, reg, b_expr(*t, reg, acc)),
        Expr::Unary(e2) => b_expr(*e2, reg, acc),
        Expr::Update(e2) => b_expr(*e2, reg, acc),
        Expr::Binary(l, r) => b_expr(*r, reg, b_expr(*l, reg, acc)),
        Expr::Cond(t, c, a) => b_expr(*a, reg, b_expr(*c, reg, b_expr(*t, reg, acc))),
        Expr::Paren(e2) => b_expr(*e2, reg, acc),
        Expr::Comma(es) => b_exprs(es@, es@.len() as int, reg, acc),
        Expr::Yield(o) => (match o {
            Option::Some(e2) => b_expr(*e2, reg, acc),
            Option::None => acc,
        }),
        Expr::Await(e2) => b_expr(*e2, reg, acc),
        Expr::Func(f) => b_function(f, reg, acc),
        Expr::ArrowFunc(a) => b_arrow(a, reg, acc),
        Expr::ClassExpr(c) => b_class(c, reg, acc),
    }
}

/// The builtin records of the first `i` expressions.
pub open spec fn b_exprs(es: Seq<Expr>, i: int, reg: Seq<Seq<char>>, acc: Seq<BuiltinModel>) -> Seq<
    BuiltinModel,
>
    decreases es, i,
{
    if i <= 0 || i > es.len() {
        acc
    } else {
        b_expr(es[i - 1], reg, b_exprs(es, i - 1, reg, acc))
    }
}

/// The builtin records of an optional expression.
pub open spec fn b_opt_expr(o: Option<Expr>, reg: Seq<Seq<char>>, acc: Seq<BuiltinModel>) -> Seq<
    BuiltinModel,
>
    decreases o, 0int,
{
    match o {
        Option::Some(e) => b_expr(e, reg, acc),
        Option::None => acc,
    }
}

/// The builtin records of the first `i` object properties.
pub open spec fn b_props(ps: Seq<Prop>, i: int, reg: Seq<Seq<char>>, acc: Seq<BuiltinModel>) -> Seq<
    BuiltinModel,
>
    decreases ps, i,
{
    if i <= 0 || i > ps.len() {
        acc
    } else {
        let acc1 = b_props(ps, i - 1, reg, acc);
        match ps[i - 1] {
            Prop::Shorthand(_) => acc1,
            Prop::KeyValue(_, v) => b_expr(*v, reg, acc1),
            Prop::Spread(e) => b_expr(*e, reg, acc1),
        }
    }
}

/// The builtin records inside a pattern's default values.
pub open spec fn b_pat(p: Pat, reg: Seq<Seq<char>>, acc: Seq<BuiltinModel>) -> Seq<BuiltinModel>
    decreases p, 0int,
{
    match p {
        Pat::Ident(_) => acc,
        Pat::Array(ps) => b_pats(ps@, ps@.len() as int, reg, acc),
        Pat::Object(ps) => b_pats(ps@, ps@.len() as int, reg, acc),
        Pat::Assign(p2, e) => b_expr(*e, reg, b_pat(*p2, reg, acc)),
        Pat::Rest(p2) => b_pat(*p2, reg, acc),
    }
}

/// The builtin records inside the first `i` patterns.
pub open spec fn b_pats(ps: Seq<Pat>, i: int, reg: Seq<Seq<char>>, acc: Seq<BuiltinModel>) -> Seq<
    BuiltinModel,
>
    decreases ps, i,
{
    if i <= 0 || i > ps.len() {
        acc
    } else {
        b_pat(ps[i - 1], reg, b_pats(ps, i - 1, reg, acc))
    }
}

/// The builtin records of the first `i` declarators: each declarator's
/// own `require` hit, then whatever its pattern and initializer hold.
pub open spec fn b_decls(ds: Seq<Declarator>, i: int, reg: Seq<Seq<char>>, acc: Seq<BuiltinModel>) -> Seq<
    BuiltinModel,
>
    decreases ds, i,
{
    if i <= 0 || i > ds.len() {
        acc
    } else {
        let acc1 = b_declarator(ds[i - 1], reg, b_decls(ds, i - 1, reg, acc));
        b_opt_expr(ds[i - 1].init, reg, b_pat(ds[i - 1].pat, reg, acc1))
    }
}

/// The builtin records of a function's parameters and body.
pub open spec fn b_function(f: Function, reg: Seq<Seq<char>>, acc: Seq<BuiltinModel>) -> Seq<
    BuiltinModel,
>
    decreases f, 0int,
{
    b_stmts(f.body@, f.body@.len() as int, reg, b_pats(f.params@, f.params@.len() as int, reg, acc))
}

/// The builtin records of an arrow function.
pub open spec fn b_arrow(a: Arrow, reg: Seq<Seq<char>>, acc: Seq<BuiltinModel>) -> Seq<
    BuiltinModel,
>
    decreases a, 0int,
{
    let acc1 = b_pats(a.params@, a.params@.len() as int, reg, acc);
    match a.body {
        ArrowBody::Expr(e) => b_expr(*e, reg, acc1),
        ArrowBody::Block(ss) => b_stmts(ss@, ss@.len() as int, reg, acc1),
    }
}

/// The builtin records of a class body.
pub open spec fn b_class(c: Class, reg: Seq<Seq<char>>, acc: Seq<BuiltinModel>) -> Seq<
    BuiltinModel,
>
    decreases c, 0int,
{
    let acc1 = match c.parent {
        Option::Some(p) => b_expr(*p, reg, acc),
        Option::None => acc,
    };
    b_members(c.members@, c.members@.len() as int, reg, acc1)
}

/// The builtin records of the first `i` class members.
pub open spec fn b_members(
    ms: Seq<ClassMember>,
    i: int,
    reg: Seq<Seq<char>>,
    acc: Seq<BuiltinModel>,
) -> Seq<BuiltinModel>
    decreases ms, i,
{
    if i <= 0 || i > ms.len() {
        acc
    } else {
        let acc1 = b_members(ms, i - 1, reg, acc);
        match ms[i - 1] {
            ClassMember::Method(f) => b_function(f, reg, acc1),
            ClassMember::Field(o) => b_opt_expr(o, reg, acc1),
        }
    }
}

/// The builtin records of a classic `for` head.
pub open spec fn b_forinit(init: Option<ForInit>, reg: Seq<Seq<char>>, acc: Seq<BuiltinModel>) -> Seq<
    BuiltinModel,
>
    decreases init, 0int,
{
    match init {
        Option::Some(ForInit::Decl(_, ds)) => b_decls(ds@, ds@.len() as int, reg, acc),
        Option::Some(ForInit::Expr(e)) => b_expr(*e, reg, acc),
        Option::None => acc,
    }
}

/// The builtin records of a `for-in`/`for-of` head.
pub open spec fn b_forhead(h: ForHead, reg: Seq<Seq<char>>, acc: Seq<BuiltinModel>) -> Seq<
    BuiltinModel,
>
    decreases h, 0int,
{
    match h {
        ForHead::Decl(_, p) => b_pat(p, reg, acc),
        ForHead::Target(e) => b_expr(*e, reg, acc),
    }
}

/// The builtin records of an optional catch parameter.
pub open spec fn b_opt_pat(p: Option<Pat>, reg: Seq<Seq<char>>, acc: Seq<BuiltinModel>) -> Seq<
    BuiltinModel,
>
    decreases p, 0int,
{
    match p {
        Option::Some(p2) => b_pat(p2, reg, acc),
        Option::None => acc,
    }
}

/// The builtin records found in a statement, in pre-order.
pub open spec fn b_stmt(s: Stmt, reg: Seq<Seq<char>>, acc: Seq<BuiltinModel>) -> Seq<BuiltinModel>
    decreases s, 0int,
{
    match s {
        Stmt::Block(ss) => b_stmts(ss@, ss@.len() as int, reg, acc),
        Stmt::Decl(_, ds) => b_decls(ds@, ds@.len() as int, reg, acc),
        Stmt::FuncDecl(f) => b_function(f, reg, acc),
        Stmt::ClassDecl(c) => b_class(c, reg, acc),
        Stmt::Expr(e) => b_expr(e, reg, acc),
        Stmt::If(t, c, a) => {
            let acc2 = b_stmt(*c, reg, b_expr(t, reg, acc));
            match a {
                Option::Some(s2) => b_stmt(*s2, reg, acc2),
                Option::None => acc2,
            }
        },
        Stmt::While(t, b) => b_stmt(*b, reg, b_expr(t, reg, acc)),
        Stmt::DoWhile(b, t) => b_expr(t, reg, b_stmt(*b, reg, acc)),
        Stmt::For(init, test, upd, b) => b_stmt(
            *b,
            reg,
            b_opt_expr(upd, reg, b_opt_expr(test, reg, b_forinit(init, reg, acc))),
        ),
        Stmt::ForIn(h, obj, b) => b_stmt(*b, reg, b_expr(obj, reg, b_forhead(h, reg, acc))),
        Stmt::ForOf(h, obj, b) => b_stmt(*b, reg, b_expr(obj, reg, b_forhead(h, reg, acc))),
        Stmt::Switch(d, cs) => b_cases(cs@, cs@.len() as int, reg, b_expr(d, reg, acc)),
        Stmt::Try(b, c, f) => {
            let acc1 = b_stmts(b@, b@.len() as int, reg, acc);
            let acc2 = match c {
                Option::Some(cc) => b_stmts(
                    cc.body@,
                    cc.body@.len() as int,
                    reg,
                    b_opt_pat(cc.param, reg, acc1),
                ),
                Option::None => acc1,
            };
            match f {
                Option::Some(fs) => b_stmts(fs@, fs@.len() as int, reg, acc2),
                Option::None => acc2,
            }
        },
        Stmt::With(obj, b) => b_stmt(*b, reg, b_expr(obj, reg, acc)),
        Stmt::Return(o) => b_opt_expr(o, reg, acc),
        Stmt::Throw(e) => b_expr(e, reg, acc),
        Stmt::Labeled(b) => b_stmt(*b, reg, acc),
        Stmt::Empty => acc,
    }
}

/// The builtin records of the first `i` statements.
pub open spec fn b_stmts(ss: Seq<Stmt>, i: int, reg: Seq<Seq<char>>, acc: Seq<BuiltinModel>) -> Seq<
    BuiltinModel,
>
    decreases ss, i,
{
    if i <= 0 || i > ss.len() {
        acc
    } else {
        b_stmt(ss[i - 1], reg, b_stmts(ss, i - 1, reg, acc))
    }
}

/// The builtin records of the first `i` switch arms.
pub open spec fn b_cases(cs: Seq<SwitchCase>, i: int, reg: Seq<Seq<char>>, acc: Seq<BuiltinModel>) -> Seq<
    BuiltinModel,
>
    decreases cs, i,
{
    if i <= 0 || i > cs.len() {
        acc
    } else {
        let acc1 = b_cases(cs, i - 1, reg, acc);
        b_stmts(
            cs[i - 1].body@,
            cs[i - 1].body@.len() as int,
            reg,
            b_opt_expr(cs[i - 1].test, reg, acc1),
        )
    }
}

/// The builtin records of the first `i` top-level items.
pub open spec fn b_items(
    items: Seq<ModuleItem>,
    i: int,
    reg: Seq<Seq<char>>,
    acc: Seq<BuiltinModel>,
) -> Seq<BuiltinModel>
    decreases items, i,
{
    if i <= 0 || i > items.len() {
        acc
    } else {
        let acc1 = b_items(items, i - 1, reg, acc);
        match items[i - 1] {
            ModuleItem::Import(d) => b_import(d, reg, acc1),
            ModuleItem::ExportDecl(s) => b_stmt(*s, reg, acc1),
            ModuleItem::ExportNamed(_) => acc1,
            ModuleItem::ExportDefault(e) => b_expr(*e, reg, acc1),
            ModuleItem::Stmt(s) => b_stmt(s, reg, acc1),
        }
    }
}

/// Every builtin record of a module, deduplicated, in first-seen
/// order.
pub open spec fn spec_builtin_candidates(m: Module, reg: Seq<Seq<char>>) -> Seq<BuiltinModel> {
    b_items(m.items@, m.items@.len() as int, reg, Seq::<BuiltinModel>::empty())
}

/// The canonical symbol of one local of a builtin record.
pub open spec fn local_symbol(src: Seq<char>, l: (bool, Seq<char>)) -> Seq<char> {
    if l.0 {
        src + seq!['.'] + l.1
    } else {
        l.1
    }
}

/// The canonical symbols of the first `i` locals of a record, folded
/// into `acc`.
pub open spec fn canon_locals(
    src: Seq<char>,
    ls: Seq<(bool, Seq<char>)>,
    i: int,
    acc: Seq<Seq<char>>,
) -> Seq<Seq<char>>
    decreases i,
{
    if i <= 0 || i > ls.len() {
        acc
    } else {
        oset_add(canon_locals(src, ls, i - 1, acc), local_symbol(src, ls[i - 1]))
    }
}

/// The canonical symbols of the first `i` builtin records, folded into
/// `acc`: a bare record contributes its source name, the others the
/// symbols of their locals.
pub open spec fn canon_builtins(bs: Seq<BuiltinModel>, i: int, acc: Seq<Seq<char>>) -> Seq<
    Seq<char>,
>
    decreases i,
{
    if i <= 0 || i > bs.len() {
        acc
    } else {
        let acc1 = canon_builtins(bs, i - 1, acc);
        let acc2 = if bs[i - 1].bare {
            oset_add(acc1, bs[i - 1].source)
        } else {
            acc1
        };
        canon_locals(bs[i - 1].source, bs[i - 1].locals, bs[i - 1].locals.len() as int, acc2)
    }
}

/// The builtin set of a module: the canonical symbols of every
/// retained record, in first-seen order.
pub open spec fn spec_builtins(m: Module, reg: Seq<Seq<char>>) -> Seq<Seq<char>> {
    let cands = spec_builtin_candidates(m, reg);
    canon_builtins(cands, cands.len() as int, Seq::<Seq<char>>::empty())
}


/// The canonical symbols folded from a record's locals stay free of
/// duplicates.
proof fn lemma_canon_locals_distinct(
    src: Seq<char>,
    ls: Seq<(bool, Seq<char>)>,
    i: int,
    acc: Seq<Seq<char>>,
)
    requires
        crate::oset::distinct(acc),
    ensures
        crate::oset::distinct(canon_locals(src, ls, i, acc)),
    decreases i,
{
    if 0 < i <= ls.len() {
        lemma_canon_locals_distinct(src, ls, i - 1, acc);
        crate::oset::lemma_add_distinct(canon_locals(src, ls, i - 1, acc), local_symbol(src, ls[i - 1]));
    }
}

proof fn lemma_canon_builtins_distinct(bs: Seq<BuiltinModel>, i: int, acc: Seq<Seq<char>>)
    requires
        crate::oset::distinct(acc),
    ensures
        crate::oset::distinct(canon_builtins(bs, i, acc)),
    decreases i,
{
    if 0 < i <= bs.len() {
        lemma_canon_builtins_distinct(bs, i - 1, acc);
        let acc1 = canon_builtins(bs, i - 1, acc);
        if bs[i - 1].bare {
            crate::oset::lemma_add_distinct(acc1, bs[i - 1].source);
        }
        let acc2 = if bs[i - 1].bare {
            oset_add(acc1, bs[i - 1].source)
        } else {
            acc1
        };
        lemma_canon_locals_distinct(bs[i - 1].source, bs[i - 1].locals, bs[i - 1].locals.len() as int, acc2);
    }
}

/// The builtin set of a module holds no duplicate: each canonical
/// symbol appears once, at its first occurrence.
pub proof fn lemma_builtins_no_duplicates(m: Module, reg: Seq<Seq<char>>)
    ensures
        crate::oset::distinct(spec_builtins(m, reg)),
{
    let cands = spec_builtin_candidates(m, reg);
    lemma_canon_builtins_distinct(cands, cands.len() as int, Seq::<Seq<char>>::empty());
}

/// The membership test over platform builtin module names, supplied as
/// configuration.
pub struct BuiltinRegistry {
    names: Vec<String>,
}

impl View for BuiltinRegistry {
    type V = Seq<Seq<char>>;

    closed spec fn view(&self) -> Seq<Seq<char>> {
        names_view(self.names@)
    }
}

impl BuiltinRegistry {
    /// A registry holding exactly the given module names.
    pub fn new(names: Vec<String>) -> (r: Self)
        ensures
            r@ == names_view(names@),
    {
        BuiltinRegistry { names }
    }

    /// Whether `name` is a registered builtin module.
    pub fn is_builtin(&self, name: &String) -> (r: bool)
        ensures
            r == self@.contains(name@),
    {
        let mut i: usize = 0;
        while i < self.names.len()
            invariant
                i <= self.names.len(),
                forall|k: int| 0 <= k < i ==> self.names@[k]@ != name@,
            decreases self.names.len() - i,
        {
            let x = &self.names[i];
            if x.eq(name) {
                proof {
                    assert(self@[i as int] == name@);
                }
                return true;
            }
            i = i + 1;
        }
        proof {
            assert forall|k: int| 0 <= k < self@.len() implies self@[k] != name@ by {
                assert(self@[k] == self.names@[k]@);
            }
        }
        false
    }
}

/// Whether two locals are identical.
fn local_eq(a: &Local, b: &Local) -> (r: bool)
    ensures
        r == (local_view(*a) == local_view(*b)),
{
    match (a, b) {
        (Local::Default(x), Local::Default(y)) => x.eq(y),
        (Local::Named(x), Local::Named(y)) => x.eq(y),
        _ => false,
    }
}

/// Whether an identical local is already bound.
fn locals_contains(ls: &Vec<Local>, l: &Local) -> (r: bool)
    ensures
        r == locals_view(ls@).contains(local_view(*l)),
{
    let mut i: usize = 0;
    while i < ls.len()
        invariant
            i <= ls.len(),
            forall|k: int| 0 <= k < i ==> locals_view(ls@)[k] != local_view(*l),
        decreases ls.len() - i,
    {
        if local_eq(&ls[i], l) {
            proof {
                assert(locals_view(ls@)[i as int] == local_view(*l));
            }
            return true;
        }
        i = i + 1;
    }
    false
}

/// Append a local unless an identical one is already bound.
fn push_local(ls: &mut Vec<Local>, l: Local)
    ensures
        locals_view(final(ls)@) == local_add(locals_view(old(ls)@), local_view(l)),
{
    if !locals_contains(ls, &l) {
        ls.push(l);
        proof {
            assert(locals_view(ls@) =~= locals_view(old(ls)@).push(local_view(l)));
        }
    }
}

/// Build the deduplicated locals of the first `i` import specifiers.
fn collect_import_locals(specs: &Vec<ImportSpec>, i: usize, out: &mut Vec<Local>)
    requires
        i <= specs.len(),
    ensures
        locals_view(final(out)@) == import_locals(specs@, i as int, locals_view(old(out)@)),
    decreases i,
{
    if i > 0 {
        collect_import_locals(specs, i - 1, out);
        match &specs[i - 1] {
            ImportSpec::Default(n) => {
                push_local(out, Local::Default(n.clone()));
            },
            ImportSpec::Named(n) => {
                push_local(out, Local::Named(n.clone()));
            },
            ImportSpec::Namespace(n) => {
                push_local(out, Local::Default(n.clone()));
            },
        }
    }
}

/// Whether two builtin records are identical.
fn builtin_eq(a: &Builtin, b: &Builtin) -> (r: bool)
    ensures
        r == (a@ == b@),
{
    if !a.source.eq(&b.source) {
        proof {
            if a@ == b@ {
                assert(a@.source == b@.source);
            }
        }
        return false;
    }
    if a.bare != b.bare {
        proof {
            if a@ == b@ {
                assert(a@.bare == b@.bare);
            }
        }
        return false;
    }
    if a.locals.len() != b.locals.len() {
        proof {
            assert(a@.locals.len() == a.locals@.len());
            assert(b@.locals.len() == b.locals@.len());
            if a@ == b@ {
                assert(a@.locals == b@.locals);
            }
        }
        return false;
    }
    let mut i: usize = 0;
    while i < a.locals.len()
        invariant
            i <= a.locals.len(),
            a.locals.len() == b.locals.len(),
            a@.source == b@.source,
            forall|k: int| 0 <= k < i ==> a@.locals[k] == b@.locals[k],
        decreases a.locals.len() - i,
    {
        if !local_eq(&a.locals[i], &b.locals[i]) {
            proof {
                assert(a@.locals[i as int] != b@.locals[i as int]);
            }
            return false;
        }
        i = i + 1;
    }
    proof {
        assert(a@.locals =~= b@.locals);
    }
    true
}

/// Whether an identical record was already seen.
fn candidates_contain(cs: &Vec<Builtin>, b: &Builtin) -> (r: bool)
    ensures
        r == builtins_view(cs@).contains(b@),
{
    let mut i: usize = 0;
    while i < cs.len()
        invariant
            i <= cs.len(),
            forall|k: int| 0 <= k < i ==> builtins_view(cs@)[k] != b@,
        decreases cs.len() - i,
    {
        if builtin_eq(&cs[i], b) {
            proof {
                assert(builtins_view(cs@)[i as int] == b@);
            }
            return true;
        }
        i = i + 1;
    }
    false
}

/// Append a record unless an identical one was already seen.
fn add_candidate(cs: &mut Vec<Builtin>, b: Builtin)
    ensures
        builtins_view(final(cs)@) == builtin_add(builtins_view(old(cs)@), b@),
{
    if !candidates_contain(cs, &b) {
        cs.push(b);
        proof {
            assert(builtins_view(cs@) =~= builtins_view(old(cs)@).push(b@));
        }
    }
}

/// The source of a direct `require` call with one string literal
/// argument, if the expression is one.
fn require_source(e: &Expr) -> (r: Option<String>)
    ensures
        require_arg(*e) == (match r {
            Option::Some(s) => Option::Some(s@),
            Option::None => Option::<Seq<char>>::None,
        }),
{
    match e {
        Expr::Call(callee, args) => {
            if args.len() == 1 {
                match &**callee {
                    Expr::Ident(n) => {
                        let req = String::from_str("require");
                        if n.eq(&req) {
                            match &args[0] {
                                Expr::Str(s) => Option::Some(s.clone()),
                                _ => Option::None,
                            }
                        } else {
                            Option::None
                        }
                    },
                    _ => Option::None,
                }
            } else {
                Option::None
            }
        },
        _ => Option::None,
    }
}

/// Record a static import of a registered builtin.
fn bwalk_import(d: &ImportDecl, reg: &BuiltinRegistry, cs: &mut Vec<Builtin>)
    ensures
        builtins_view(final(cs)@) == b_import(*d, reg@, builtins_view(old(cs)@)),
{
    if reg.is_builtin(&d.source) {
        let mut locals: Vec<Local> = Vec::new();
        proof {
            assert(locals_view(Seq::<Local>::empty()) =~= Seq::<(bool, Seq<char>)>::empty());
        }
        collect_import_locals(&d.specifiers, d.specifiers.len(), &mut locals);
        add_candidate(cs, Builtin { source: d.source.clone(), locals, bare: false });
    }
}

/// Record a declarator whose initializer is a registered `require`
/// call.
fn bwalk_declarator(d: &Declarator, reg: &BuiltinRegistry, cs: &mut Vec<Builtin>)
    ensures
        builtins_view(final(cs)@) == b_declarator(*d, reg@, builtins_view(old(cs)@)),
{
    match &d.init {
        Option::Some(e) => {
            match require_source(e) {
                Option::Some(src) => {
                    if reg.is_builtin(&src) {
                        proof {
                            assert(locals_view(Seq::<Local>::empty()) =~= Seq::<
                                (bool, Seq<char>),
                            >::empty());
                        }
                        add_candidate(cs, Builtin { source: src, locals: Vec::new(), bare: true });
                    }
                },
                Option::None => {},
            }
        },
        Option::None => {},
    }
}

/// Walk an expression, collecting builtin records in pre-order.
fn bwalk_expr(e: &Expr, reg: &BuiltinRegistry, cs: &mut Vec<Builtin>)
    ensures
        builtins_view(final(cs)@) == b_expr(*e, reg@, builtins_view(old(cs)@)),
    decreases *e, 0int,
{
    match e {
        Expr::Ident(_) => {},
        Expr::Lit => {},
        Expr::Str(_) => {},
        Expr::Tpl(es) => {
            bwalk_exprs(es, es.len(), reg, cs);
        },
        Expr::Array(es) => {
            bwalk_exprs(es, es.len(), reg, cs);
        },
        Expr::Object(ps) => {
            bwalk_props(ps, ps.len(), reg, cs);
        },
        Expr::Member(obj, _) => {
            bwalk_expr(&**obj, reg, cs);
        },
        Expr::Index(obj, ix) => {
            bwalk_expr(&**obj, reg, cs);
            bwalk_expr(&**ix, reg, cs);
        },
        Expr::Call(callee, args) => {
            bwalk_expr(&**callee, reg, cs);
            bwalk_exprs(args, args.len(), reg, cs);
        },
        Expr::New(callee, args) => {
            bwalk_expr(&**callee, reg, cs);
            bwalk_exprs(args, args.len(), reg, cs);
        },
        Expr::Assign(t, v) => {
            bwalk_expr(&**t, reg, cs);
            bwalk_expr(&**v, reg, cs);
        },
        Expr::Unary(e2) => {
            bwalk_expr(&**e2, reg, cs);
        },
        Expr::Update(e2) => {
            bwalk_expr(&**e2, reg, cs);
        },
        Expr::Binary(l, r) => {
            bwalk_expr(&**l, reg, cs);
            bwalk_expr(&**r, reg, cs);
        },
        Expr::Cond(t, c, a) => {
            bwalk_expr(&**t, reg, cs);
            bwalk_expr(&**c, reg, cs);
            bwalk_expr(&**a, reg, cs);
        },
        Expr::Paren(e2) => {
            bwalk_expr(&**e2, reg, cs);
        },
        Expr::Comma(es) => {
            bwalk_exprs(es, es.len(), reg, cs);
        },
        Expr::Yield(o) => {
            match o {
                Option::Some(e2) => {
                    bwalk_expr(&**e2, reg, cs);
                },
                Option::None => {},
            }
        },
        Expr::Await(e2) => {
            bwalk_expr(&**e2, reg, cs);
        },
        Expr::Func(f) => {
            bwalk_function(f, reg, cs);
        },
        Expr::ArrowFunc(a) => {
            bwalk_arrow(a, reg, cs);
        },
        Expr::ClassExpr(c) => {
            bwalk_class(c, reg, cs);
        },
    }
}

/// Walk the first `i` expressions.
fn bwalk_exprs(es: &Vec<Expr>, i: usize, reg: &BuiltinRegistry, cs: &mut Vec<Builtin>)
    requires
        i <= es.len(),
    ensures
        builtins_view(final(cs)@) == b_exprs(es@, i as int, reg@, builtins_view(old(cs)@)),
    decreases es@, i as int,
{
    if i > 0 {
        bwalk_exprs(es, i - 1, reg, cs);
        bwalk_expr(&es[i - 1], reg, cs);
    }
}

/// Walk an optional expression.
fn bwalk_opt_expr(o: &Option<Expr>, reg: &BuiltinRegistry, cs: &mut Vec<Builtin>)
    ensures
        builtins_view(final(cs)@) == b_opt_expr(*o, reg@, builtins_view(old(cs)@)),
    decreases *o, 0int,
{
    match o {
        Option::Some(e) => {
            bwalk_expr(e, reg, cs);
        },
        Option::None => {},
    }
}

/// Walk the first `i` object properties.
fn bwalk_props(ps: &Vec<Prop>, i: usize, reg: &BuiltinRegistry, cs: &mut Vec<Builtin>)
    requires
        i <= ps.len(),
    ensures
        builtins_view(final(cs)@) == b_props(ps@, i as int, reg@, builtins_view(old(cs)@)),
    decreases ps@, i as int,
{
    if i > 0 {
        bwalk_props(ps, i - 1, reg, cs);
        match &ps[i - 1] {
            Prop::Shorthand(_) => {},
            Prop::KeyValue(_, v) => {
                bwalk_expr(&**v, reg, cs);
            },
            Prop::Spread(e) => {
                bwalk_expr(&**e, reg, cs);
            },
        }
    }
}

/// Walk a pattern's default values.
fn bwalk_pat(p: &Pat, reg: &BuiltinRegistry, cs: &mut Vec<Builtin>)
    ensures
        builtins_view(final(cs)@) == b_pat(*p, reg@, builtins_view(old(cs)@)),
    decreases *p, 0int,
{
    match p {
        Pat::Ident(_) => {},
        Pat::Array(ps) => {
            bwalk_pats(ps, ps.len(), reg, cs);
        },
        Pat::Object(ps) => {
            bwalk_pats(ps, ps.len(), reg, cs);
        },
        Pat::Assign(p2, e) => {
            bwalk_pat(&**p2, reg, cs);
            bwalk_expr(&**e, reg, cs);
        },
        Pat::Rest(p2) => {
            bwalk_pat(&**p2, reg, cs);
        },
    }
}

/// Walk the first `i` patterns.
fn bwalk_pats(ps: &Vec<Pat>, i: usize, reg: &BuiltinRegistry, cs: &mut Vec<Builtin>)
    requires
        i <= ps.len(),
    ensures
        builtins_view(final(cs)@) == b_pats(ps@, i as int, reg@, builtins_view(old(cs)@)),
    decreases ps@, i as int,
{
    if i > 0 {
        bwalk_pats(ps, i - 1, reg, cs);
        bwalk_pat(&ps[i - 1], reg, cs);
    }
}

/// Walk the first `i` declarators.
fn bwalk_decls(ds: &Vec<Declarator>, i: usize, reg: &BuiltinRegistry, cs: &mut Vec<Builtin>)
    requires
        i <= ds.len(),
    ensures
        builtins_view(final(cs)@) == b_decls(ds@, i as int, reg@, builtins_view(old(cs)@)),
    decreases ds@, i as int,
{
    if i > 0 {
        bwalk_decls(ds, i - 1, reg, cs);
        bwalk_declarator(&ds[i - 1], reg, cs);
        bwalk_pat(&ds[i - 1].pat, reg, cs);
        bwalk_opt_expr(&ds[i - 1].init, reg, cs);
    }
}

/// Walk a function's parameters and body.
fn bwalk_function(f: &Function, reg: &BuiltinRegistry, cs: &mut Vec<Builtin>)
    ensures
        builtins_view(final(cs)@) == b_function(*f, reg@, builtins_view(old(cs)@)),
    decreases *f, 0int,
{
    bwalk_pats(&f.params, f.params.len(), reg, cs);
    bwalk_stmts(&f.body, f.body.len(), reg, cs);
}

/// Walk an arrow function.
fn bwalk_arrow(a: &Arrow, reg: &BuiltinRegistry, cs: &mut Vec<Builtin>)
    ensures
        builtins_view(final(cs)@) == b_arrow(*a, reg@, builtins_view(old(cs)@)),
    decreases *a, 0int,
{
    bwalk_pats(&a.params, a.params.len(), reg, cs);
    match &a.body {
        ArrowBody::Expr(e) => {
            bwalk_expr(&**e, reg, cs);
        },
        ArrowBody::Block(ss) => {
            bwalk_stmts(ss, ss.len(), reg, cs);
        },
    }
}

/// Walk a class body.
fn bwalk_class(c: &Class, reg: &BuiltinRegistry, cs: &mut Vec<Builtin>)
    ensures
        builtins_view(final(cs)@) == b_class(*c, reg@, builtins_view(old(cs)@)),
    decreases *c, 0int,
{
    match &c.parent {
        Option::Some(p) => {
            bwalk_expr(&**p, reg, cs);
        },
        Option::None => {},
    }
    bwalk_members(&c.members, c.members.len(), reg, cs);
}

/// Walk the first `i` class members.
fn bwalk_members(ms: &Vec<ClassMember>, i: usize, reg: &BuiltinRegistry, cs: &mut Vec<Builtin>)
    requires
        i <= ms.len(),
    ensures
        builtins_view(final(cs)@) == b_members(ms@, i as int, reg@, builtins_view(old(cs)@)),
    decreases ms@, i as int,
{
    if i > 0 {
        bwalk_members(ms, i - 1, reg, cs);
        match &ms[i - 1] {
            ClassMember::Method(f) => {
                bwalk_function(f, reg, cs);
            },
            ClassMember::Field(o) => {
                bwalk_opt_expr(o, reg, cs);
            },
        }
    }
}

/// Walk a classic `for` head.
fn bwalk_forinit(init: &Option<ForInit>, reg: &BuiltinRegistry, cs: &mut Vec<Builtin>)
    ensures
        builtins_view(final(cs)@) == b_forinit(*init, reg@, builtins_view(old(cs)@)),
    decreases *init, 0int,
{
    match init {
        Option::Some(ForInit::Decl(_, ds)) => {
            bwalk_decls(ds, ds.len(), reg, cs);
        },
        Option::Some(ForInit::Expr(e)) => {
            bwalk_expr(&**e, reg, cs);
        },
        Option::None => {},
    }
}

/// Walk a `for-in`/`for-of` head.
fn bwalk_forhead(h: &ForHead, reg: &BuiltinRegistry, cs: &mut Vec<Builtin>)
    ensures
        builtins_view(final(cs)@) == b_forhead(*h, reg@, builtins_view(old(cs)@)),
    decreases *h, 0int,
{
    match h {
        ForHead::Decl(_, p) => {
            bwalk_pat(p, reg, cs);
        },
        ForHead::Target(e) => {
            bwalk_expr(&**e, reg, cs);
        },
    }
}

/// Walk an optional catch parameter.
fn bwalk_opt_pat(p: &Option<Pat>, reg: &BuiltinRegistry, cs: &mut Vec<Builtin>)
    ensures
        builtins_view(final(cs)@) == b_opt_pat(*p, reg@, builtins_view(old(cs)@)),
    decreases *p, 0int,
{
    match p {
        Option::Some(p2) => {
            bwalk_pat(p2, reg, cs);
        },
        Option::None => {},
    }
}

/// Walk a statement.
fn bwalk_stmt(s: &Stmt, reg: &BuiltinRegistry, cs: &mut Vec<Builtin>)
    ensures
        builtins_view(final(cs)@) == b_stmt(*s, reg@, builtins_view(old(cs)@)),
    decreases *s, 0int,
{
    match s {
        Stmt::Block(ss) => {
            bwalk_stmts(ss, ss.len(), reg, cs);
        },
        Stmt::Decl(_, ds) => {
            bwalk_decls(ds, ds.len(), reg, cs);
        },
        Stmt::FuncDecl(f) => {
            bwalk_function(f, reg, cs);
        },
        Stmt::ClassDecl(c) => {
            bwalk_class(c, reg, cs);
        },
        Stmt::Expr(e) => {
            bwalk_expr(e, reg, cs);
        },
        Stmt::If(t, c, a) => {
            bwalk_expr(t, reg, cs);
            bwalk_stmt(&**c, reg, cs);
            match a {
                Option::Some(s2) => {
                    bwalk_stmt(&**s2, reg, cs);
                },
                Option::None => {},
            }
        },
        Stmt::While(t, b) => {
            bwalk_expr(t, reg, cs);
            bwalk_stmt(&**b, reg, cs);
        },
        Stmt::DoWhile(b, t) => {
            bwalk_stmt(&**b, reg, cs);
            bwalk_expr(t, reg, cs);
        },
        Stmt::For(init, test, upd, b) => {
            bwalk_forinit(init, reg, cs);
            bwalk_opt_expr(test, reg, cs);
            bwalk_opt_expr(upd, reg, cs);
            bwalk_stmt(&**b, reg, cs);
        },
        Stmt::ForIn(h, obj, b) => {
            bwalk_forhead(h, reg, cs);
            bwalk_expr(obj, reg, cs);
            bwalk_stmt(&**b, reg, cs);
        },
        Stmt::ForOf(h, obj, b) => {
            bwalk_forhead(h, reg, cs);
            bwalk_expr(obj, reg, cs);
            bwalk_stmt(&**b, reg, cs);
        },
        Stmt::Switch(d, cs2) => {
            bwalk_expr(d, reg, cs);
            bwalk_cases(cs2, cs2.len(), reg, cs);
        },
        Stmt::Try(b, c, f) => {
            bwalk_stmts(b, b.len(), reg, cs);
            match c {
                Option::Some(cc) => {
                    bwalk_opt_pat(&cc.param, reg, cs);
                    bwalk_stmts(&cc.body, cc.body.len(), reg, cs);
                },
                Option::None => {},
            }
            match f {
                Option::Some(fs) => {
                    bwalk_stmts(fs, fs.len(), reg, cs);
                },
                Option::None => {},
            }
        },
        Stmt::With(obj, b) => {
            bwalk_expr(obj, reg, cs);
            bwalk_stmt(&**b, reg, cs);
        },
        Stmt::Return(o) => {
            bwalk_opt_expr(o, reg, cs);
        },
        Stmt::Throw(e) => {
            bwalk_expr(e, reg, cs);
        },
        Stmt::Labeled(b) => {
            bwalk_stmt(&**b, reg, cs);
        },
        Stmt::Empty => {},
    }
}

/// Walk the first `i` statements.
fn bwalk_stmts(ss: &Vec<Stmt>, i: usize, reg: &BuiltinRegistry, cs: &mut Vec<Builtin>)
    requires
        i <= ss.len(),
    ensures
        builtins_view(final(cs)@) == b_stmts(ss@, i as int, reg@, builtins_view(old(cs)@)),
    decreases ss@, i as int,
{
    if i > 0 {
        bwalk_stmts(ss, i - 1, reg, cs);
        bwalk_stmt(&ss[i - 1], reg, cs);
    }
}

/// Walk the first `i` switch arms.
fn bwalk_cases(cases: &Vec<SwitchCase>, i: usize, reg: &BuiltinRegistry, cs: &mut Vec<Builtin>)
    requires
        i <= cases.len(),
    ensures
        builtins_view(final(cs)@) == b_cases(cases@, i as int, reg@, builtins_view(old(cs)@)),
    decreases cases@, i as int,
{
    if i > 0 {
        bwalk_cases(cases, i - 1, reg, cs);
        bwalk_opt_expr(&cases[i - 1].test, reg, cs);
        bwalk_stmts(&cases[i - 1].body, cases[i - 1].body.len(), reg, cs);
    }
}

/// Walk the first `i` top-level items.
fn bwalk_items(items: &Vec<ModuleItem>, i: usize, reg: &BuiltinRegistry, cs: &mut Vec<Builtin>)
    requires
        i <= items.len(),
    ensures
        builtins_view(final(cs)@) == b_items(items@, i as int, reg@, builtins_view(old(cs)@)),
    decreases items@, i as int,
{
    if i > 0 {
        bwalk_items(items, i - 1, reg, cs);
        match &items[i - 1] {
            ModuleItem::Import(d) => {
                bwalk_import(d, reg, cs);
            },
            ModuleItem::ExportDecl(s) => {
                bwalk_stmt(&**s, reg, cs);
            },
            ModuleItem::ExportNamed(_) => {},
            ModuleItem::ExportDefault(e) => {
                bwalk_expr(&**e, reg, cs);
            },
            ModuleItem::Stmt(s) => {
                bwalk_stmt(s, reg, cs);
            },
        }
    }
}

/// Add the canonical symbol of one local to the output set.
fn canon_local(src: &String, l: &Local, out: &mut OrderedSet)
    ensures
        final(out)@ == oset_add(old(out)@, local_symbol(src@, local_view(*l))),
{
    match l {
        Local::Default(w) => {
            out.insert(w.clone());
        },
        Local::Named(w) => {
            proof {
                reveal_strlit(".");
                assert("."@ =~= seq!['.']);
            }
            let mut sym = src.clone();
            sym.append(".");
            sym.append(w.as_str());
            out.insert(sym);
        },
    }
}

/// Add the canonical symbols of the first `i` locals of a record.
fn canon_locals_exec(src: &String, ls: &Vec<Local>, i: usize, out: &mut OrderedSet)
    requires
        i <= ls.len(),
    ensures
        final(out)@ == canon_locals(src@, locals_view(ls@), i as int, old(out)@),
    decreases i,
{
    if i > 0 {
        canon_locals_exec(src, ls, i - 1, out);
        canon_local(src, &ls[i - 1], out);
    }
}

/// Add the canonical symbols of the first `i` records.
fn canon_builtins_exec(bs: &Vec<Builtin>, i: usize, out: &mut OrderedSet)
    requires
        i <= bs.len(),
    ensures
        final(out)@ == canon_builtins(builtins_view(bs@), i as int, old(out)@),
    decreases i,
{
    if i > 0 {
        canon_builtins_exec(bs, i - 1, out);
        if bs[i - 1].bare {
            out.insert(bs[i - 1].source.clone());
        }
        canon_locals_exec(&bs[i - 1].source, &bs[i - 1].locals, bs[i - 1].locals.len(), out);
    }
}

/// Visit a module and generate the set of access to builtin packages.
pub struct BuiltinAnalysis {
    registry: BuiltinRegistry,
}

impl View for BuiltinAnalysis {
    type V = Seq<Seq<char>>;

    closed spec fn view(&self) -> Seq<Seq<char>> {
        self.registry@
    }
}

impl BuiltinAnalysis {
    /// Create a builtin analysis over the given registry.
    pub fn new(registry: BuiltinRegistry) -> (r: Self)
        ensures
            r@ == registry@,
    {
        BuiltinAnalysis { registry }
    }

    /// Analyze and compute the builtins for a module.
    pub fn analyze(&self, module: &Module) -> (r: OrderedSet)
        ensures
            r@ == spec_builtins(*module, self@),
    {
        let mut cs: Vec<Builtin> = Vec::new();
        proof {
            assert(builtins_view(Seq::<Builtin>::empty()) =~= Seq::<BuiltinModel>::empty());
        }
        bwalk_items(&module.items, module.items.len(), &self.registry, &mut cs);
        self.compute(&cs)
    }

    /// Compute the canonical symbols of the retained records.
    fn compute(&self, candidates: &Vec<Builtin>) -> (r: OrderedSet)
        ensures
            r@ == canon_builtins(
                builtins_view(candidates@),
                candidates@.len() as int,
                Seq::<Seq<char>>::empty(),
            ),
    {
        let mut out = OrderedSet::new();
        canon_builtins_exec(candidates, candidates.len(), &mut out);
        out
    }
}

} // verus!
