//! Scope frames, binding collection and name resolution.
//!
//! A module's analysis keeps a chain of scope frames, innermost last.
//! Entering a function, block, loop body, switch body, catch clause or
//! `with` body pushes a frame of the matching kind; leaving pops it.
//! `var` and function declarations register in the nearest enclosing
//! function-or-module frame (hoisting), which this module captures by
//! collecting the hoisted names of a whole body when its frame is
//! built; all other kinds register in the innermost frame.
use vstd::prelude::*;

use crate::names::names_view;
use crate::ast::{
    DeclKind, Declarator, ForHead, ForInit, ImportSpec, ModuleItem, Pat, Stmt, SwitchCase,
};

verus! {

/// The kind of a scope frame.
#[derive(Clone, Copy)]
pub enum ScopeKind {
    /// The outermost frame of a module.
    Module,
    /// A function, arrow function or method body.
    Function,
    /// A block, a try block or a finally block.
    Block,
    /// A loop and its body.
    Loop,
    /// The shared scope of a switch statement's arms.
    Switch,
    /// A catch clause.
    Catch,
    /// A `with` body: its bindings cannot be determined statically, so
    /// resolution never looks past this frame.
    Opaque,
}

/// The mathematical value of a scope frame: its kind and the names it
/// binds.
pub struct FrameModel {
    pub kind: ScopeKind,
    pub names: Seq<Seq<char>>,
}

/// A scope frame as the analyzer holds it.
pub struct Frame {
    pub kind: ScopeKind,
    pub names: Vec<String>,
}

impl View for Frame {
    type V = FrameModel;

    open spec fn view(&self) -> FrameModel {
        FrameModel { kind: self.kind, names: names_view(self.names@) }
    }
}

/// The models of a chain of frames, innermost last.
pub open spec fn env_view(env: Seq<Frame>) -> Seq<FrameModel> {
    env.map(|i: int, f: Frame| f@)
}

/// Whether a reference to `n` resolves against the chain `env`.  The
/// walk starts at the innermost frame; the first frame binding `n`
/// wins.  An opaque frame that does not bind `n` ends the walk: the
/// reference stays unresolved rather than resolving past a `with`
/// body.
pub open spec fn resolves(env: Seq<FrameModel>, n: Seq<char>) -> bool
    decreases env.len(),
{
    if env.len() == 0 {
        false
    } else if env.last().names.contains(n) {
        true
    } else if env.last().kind is Opaque {
        false
    } else {
        resolves(env.drop_last(), n)
    }
}

pub broadcast proof fn lemma_env_view_push(env: Seq<Frame>, f: Frame)
    ensures
        #[trigger] env_view(env.push(f)) == env_view(env).push(f@),
{
    assert(env_view(env.push(f)) =~= env_view(env).push(f@));
}

/// The names a pattern binds, in textual order.
pub open spec fn pat_names(p: Pat) -> Seq<Seq<char>>
    decreases p, 0int,
{
    match p {
        Pat::Ident(s) => seq![s@],
        Pat::Array(ps) => pats_names(ps@, ps@.len() as int),
        Pat::Object(ps) => pats_names(ps@, ps@.len() as int),
        Pat::Assign(p2, _) => pat_names(*p2),
        Pat::Rest(p2) => pat_names(*p2),
    }
}

/// The names bound by the first `i` patterns of `ps`.
pub open spec fn pats_names(ps: Seq<Pat>, i: int) -> Seq<Seq<char>>
    decreases ps, i,
{
    if i <= 0 || i > ps.len() {
        Seq::empty()
    } else {
        pats_names(ps, i - 1) + pat_names(ps[i - 1])
    }
}

/// The names bound by the first `i` declarators of `ds`.
pub open spec fn decl_names(ds: Seq<Declarator>, i: int) -> Seq<Seq<char>>
    decreases ds, i,
{
    if i <= 0 {
        Seq::empty()
    } else {
        decl_names(ds, i - 1) + pat_names(ds[i - 1].pat)
    }
}

/// The name of a function or class, as a singleton sequence, if any.
pub open spec fn opt_name(n: Option<String>) -> Seq<Seq<char>> {
    match n {
        Option::Some(s) => seq![s@],
        Option::None => Seq::empty(),
    }
}

/// The `let`/`const` names a classic `for` head declares in the loop's
/// own scope.
pub open spec fn for_init_lexical(init: Option<ForInit>) -> Seq<Seq<char>> {
    match init {
        Option::Some(ForInit::Decl(DeclKind::Let, ds)) => decl_names(ds@, ds@.len() as int),
        Option::Some(ForInit::Decl(DeclKind::Const, ds)) => decl_names(ds@, ds@.len() as int),
        _ => Seq::empty(),
    }
}

/// The `var` names a classic `for` head declares, which hoist.
pub open spec fn for_init_hoisted(init: Option<ForInit>) -> Seq<Seq<char>> {
    match init {
        Option::Some(ForInit::Decl(DeclKind::Var, ds)) => decl_names(ds@, ds@.len() as int),
        _ => Seq::empty(),
    }
}

/// The `let`/`const` names a `for-in`/`for-of` head declares in the
/// loop's own scope.
pub open spec fn for_head_lexical(h: ForHead) -> Seq<Seq<char>> {
    match h {
        ForHead::Decl(DeclKind::Let, p) => pat_names(p),
        ForHead::Decl(DeclKind::Const, p) => pat_names(p),
        _ => Seq::empty(),
    }
}

/// The `var` names a `for-in`/`for-of` head declares, which hoist.
pub open spec fn for_head_hoisted(h: ForHead) -> Seq<Seq<char>> {
    match h {
        ForHead::Decl(DeclKind::Var, p) => pat_names(p),
        _ => Seq::empty(),
    }
}

/// The hoisted names a statement contributes to the nearest enclosing
/// function-or-module frame: its `var` names and function declaration
/// names, looked for through blocks, loops, switches, catches and
/// `with` bodies, but never through a nested function or class body.
pub open spec fn hoisted_stmt(s: Stmt) -> Seq<Seq<char>>
    decreases s, 0int,
{
    match s {
        Stmt::Block(ss) => hoisted_stmts(ss@, ss@.len() as int),
        Stmt::Decl(DeclKind::Var, ds) => decl_names(ds@, ds@.len() as int),
        Stmt::Decl(_, _) => Seq::empty(),
        Stmt::FuncDecl(f) => opt_name(f.name),
        Stmt::If(_, c, a) => hoisted_stmt(*c) + (match a {
            Option::Some(s2) => hoisted_stmt(*s2),
            Option::None => Seq::empty(),
        }),
        Stmt::While(_, b) => hoisted_stmt(*b),
        Stmt::DoWhile(b, _) => hoisted_stmt(*b),
        Stmt::For(init, _, _, b) => for_init_hoisted(init) + hoisted_stmt(*b),
        Stmt::ForIn(h, _, b) => for_head_hoisted(h) + hoisted_stmt(*b),
        Stmt::ForOf(h, _, b) => for_head_hoisted(h) + hoisted_stmt(*b),
        Stmt::Switch(_, cs) => hoisted_cases(cs@, cs@.len() as int),
        Stmt::Try(b, c, f) => hoisted_stmts(b@, b@.len() as int) + (match c {
            Option::Some(cc) => hoisted_stmts(cc.body@, cc.body@.len() as int),
            Option::None => Seq::empty(),
        }) + (match f {
            Option::Some(fs) => hoisted_stmts(fs@, fs@.len() as int),
            Option::None => Seq::empty(),
        }),
        Stmt::With(_, b) => hoisted_stmt(*b),
        Stmt::Labeled(b) => hoisted_stmt(*b),
        _ => Seq::empty(),
    }
}

/// The hoisted names of the first `i` statements of `ss`.
pub open spec fn hoisted_stmts(ss: Seq<Stmt>, i: int) -> Seq<Seq<char>>
    decreases ss, i,
{
    if i <= 0 || i > ss.len() {
        Seq::empty()
    } else {
        hoisted_stmts(ss, i - 1) + hoisted_stmt(ss[i - 1])
    }
}

/// The hoisted names of the first `i` switch arms of `cs`.
pub open spec fn hoisted_cases(cs: Seq<SwitchCase>, i: int) -> Seq<Seq<char>>
    decreases cs, i,
{
    if i <= 0 || i > cs.len() {
        Seq::empty()
    } else {
        hoisted_cases(cs, i - 1) + hoisted_stmts(cs[i - 1].body@, cs[i - 1].body@.len() as int)
    }
}

/// The names a statement binds in the innermost scope it stands in:
/// `let`, `const` and class declaration names.
pub open spec fn lexical_stmt(s: Stmt) -> Seq<Seq<char>> {
    match s {
        Stmt::Decl(DeclKind::Let, ds) => decl_names(ds@, ds@.len() as int),
        Stmt::Decl(DeclKind::Const, ds) => decl_names(ds@, ds@.len() as int),
        Stmt::ClassDecl(c) => opt_name(c.name),
        _ => Seq::empty(),
    }
}

/// The lexical names of the first `i` statements of `ss`.
pub open spec fn lexical_stmts(ss: Seq<Stmt>, i: int) -> Seq<Seq<char>>
    decreases i,
{
    if i <= 0 {
        Seq::empty()
    } else {
        lexical_stmts(ss, i - 1) + lexical_stmt(ss[i - 1])
    }
}

/// The lexical names of the first `i` switch arms, which all share the
/// switch's one scope.
pub open spec fn lexical_cases(cs: Seq<SwitchCase>, i: int) -> Seq<Seq<char>>
    decreases i,
{
    if i <= 0 {
        Seq::empty()
    } else {
        lexical_cases(cs, i - 1) + lexical_stmts(cs[i - 1].body@, cs[i - 1].body@.len() as int)
    }
}

/// The local names the first `i` import specifiers bind in the module
/// scope.
pub open spec fn import_names(specs: Seq<ImportSpec>, i: int) -> Seq<Seq<char>>
    decreases i,
{
    if i <= 0 {
        Seq::empty()
    } else {
        import_names(specs, i - 1) + match specs[i - 1] {
            ImportSpec::Default(n) => seq![n@],
            ImportSpec::Named(n) => seq![n@],
            ImportSpec::Namespace(n) => seq![n@],
        }
    }
}

/// The names one top-level item binds in the module frame: import
/// locals, and the hoisted and lexical names of its statement.
pub open spec fn module_item_names(item: ModuleItem) -> Seq<Seq<char>> {
    match item {
        ModuleItem::Import(d) => import_names(d.specifiers@, d.specifiers@.len() as int),
        ModuleItem::ExportDecl(s) => hoisted_stmt(*s) + lexical_stmt(*s),
        ModuleItem::Stmt(s) => hoisted_stmt(s) + lexical_stmt(s),
        _ => Seq::empty(),
    }
}

/// The names the first `i` top-level items bind in the module frame.
pub open spec fn module_names(items: Seq<ModuleItem>, i: int) -> Seq<Seq<char>>
    decreases i,
{
    if i <= 0 {
        Seq::empty()
    } else {
        module_names(items, i - 1) + module_item_names(items[i - 1])
    }
}

/// The names a catch parameter binds, if there is one.
pub open spec fn opt_pat_names(p: Option<Pat>) -> Seq<Seq<char>> {
    match p {
        Option::Some(p2) => pat_names(p2),
        Option::None => Seq::empty(),
    }
}

broadcast use crate::names::lemma_app_assoc, crate::names::lemma_app_empty_right,
    crate::names::lemma_app_empty_left, crate::names::lemma_names_view_push,
    crate::names::lemma_names_view_empty;

/// Append the names a pattern binds to `out`.
pub fn collect_pat(p: &Pat, out: &mut Vec<String>)
    ensures
        names_view(final(out)@) == names_view(old(out)@) + pat_names(*p),
    decreases *p, 0int,
{
    match p {
        Pat::Ident(s) => {
            out.push(s.clone());
        },
        Pat::Array(ps) => {
            collect_pats(ps, ps.len(), out);
        },
        Pat::Object(ps) => {
            collect_pats(ps, ps.len(), out);
        },
        Pat::Assign(p2, _) => {
            collect_pat(&**p2, out);
        },
        Pat::Rest(p2) => {
            collect_pat(&**p2, out);
        },
    }
}

/// Append the names the first `i` patterns bind to `out`.
pub fn collect_pats(ps: &Vec<Pat>, i: usize, out: &mut Vec<String>)
    requires
        i <= ps.len(),
    ensures
        names_view(final(out)@) == names_view(old(out)@) + pats_names(ps@, i as int),
    decreases ps@, i as int,
{
    if i > 0 {
        collect_pats(ps, i - 1, out);
        collect_pat(&ps[i - 1], out);
    }
}

/// Append the names the first `i` declarators bind to `out`.
pub fn collect_decls(ds: &Vec<Declarator>, i: usize, out: &mut Vec<String>)
    requires
        i <= ds.len(),
    ensures
        names_view(final(out)@) == names_view(old(out)@) + decl_names(ds@, i as int),
    decreases ds@, i as int,
{
    if i > 0 {
        collect_decls(ds, i - 1, out);
        collect_pat(&ds[i - 1].pat, out);
    }
}

/// Append an optional function or class name to `out`.
pub fn collect_opt_name(n: &Option<String>, out: &mut Vec<String>)
    ensures
        names_view(final(out)@) == names_view(old(out)@) + opt_name(*n),
{
    match n {
        Option::Some(s) => {
            out.push(s.clone());
        },
        Option::None => {},
    }
}

/// Append the hoisted `var` names of a classic `for` head to `out`.
pub fn collect_for_init_hoisted(init: &Option<ForInit>, out: &mut Vec<String>)
    ensures
        names_view(final(out)@) == names_view(old(out)@) + for_init_hoisted(*init),
{
    match init {
        Option::Some(ForInit::Decl(DeclKind::Var, ds)) => {
            collect_decls(ds, ds.len(), out);
        },
        _ => {},
    }
}

/// Append the `let`/`const` names of a classic `for` head to `out`.
pub fn collect_for_init_lexical(init: &Option<ForInit>, out: &mut Vec<String>)
    ensures
        names_view(final(out)@) == names_view(old(out)@) + for_init_lexical(*init),
{
    match init {
        Option::Some(ForInit::Decl(DeclKind::Let, ds)) => {
            collect_decls(ds, ds.len(), out);
        },
        Option::Some(ForInit::Decl(DeclKind::Const, ds)) => {
            collect_decls(ds, ds.len(), out);
        },
        _ => {},
    }
}

/// Append the hoisted `var` names of a `for-in`/`for-of` head to `out`.
pub fn collect_for_head_hoisted(h: &ForHead, out: &mut Vec<String>)
    ensures
        names_view(final(out)@) == names_view(old(out)@) + for_head_hoisted(*h),
{
    match h {
        ForHead::Decl(DeclKind::Var, p) => {
            collect_pat(p, out);
        },
        _ => {},
    }
}

/// Append the `let`/`const` names of a `for-in`/`for-of` head to `out`.
pub fn collect_for_head_lexical(h: &ForHead, out: &mut Vec<String>)
    ensures
        names_view(final(out)@) == names_view(old(out)@) + for_head_lexical(*h),
{
    match h {
        ForHead::Decl(DeclKind::Let, p) => {
            collect_pat(p, out);
        },
        ForHead::Decl(DeclKind::Const, p) => {
            collect_pat(p, out);
        },
        _ => {},
    }
}

/// Append the names an optional catch parameter binds to `out`.
pub fn collect_opt_pat(p: &Option<Pat>, out: &mut Vec<String>)
    ensures
        names_view(final(out)@) == names_view(old(out)@) + opt_pat_names(*p),
{
    match p {
        Option::Some(p2) => {
            collect_pat(p2, out);
        },
        Option::None => {},
    }
}

/// Append the hoisted names of a statement to `out`.
pub fn collect_hoisted_stmt(s: &Stmt, out: &mut Vec<String>)
    ensures
        names_view(final(out)@) == names_view(old(out)@) + hoisted_stmt(*s),
    decreases *s, 0int,
{
    match s {
        Stmt::Block(ss) => {
            collect_hoisted_stmts(ss, ss.len(), out);
        },
        Stmt::Decl(DeclKind::Var, ds) => {
            collect_decls(ds, ds.len(), out);
        },
        Stmt::FuncDecl(f) => {
            collect_opt_name(&f.name, out);
        },
        Stmt::If(_, c, a) => {
            collect_hoisted_stmt(&**c, out);
            match a {
                Option::Some(s2) => {
                    collect_hoisted_stmt(&**s2, out);
                },
                Option::None => {},
            }
        },
        Stmt::While(_, b) => {
            collect_hoisted_stmt(&**b, out);
        },
        Stmt::DoWhile(b, _) => {
            collect_hoisted_stmt(&**b, out);
        },
        Stmt::For(init, _, _, b) => {
            collect_for_init_hoisted(init, out);
            collect_hoisted_stmt(&**b, out);
        },
        Stmt::ForIn(h, _, b) => {
            collect_for_head_hoisted(h, out);
            collect_hoisted_stmt(&**b, out);
        },
        Stmt::ForOf(h, _, b) => {
            collect_for_head_hoisted(h, out);
            collect_hoisted_stmt(&**b, out);
        },
        Stmt::Switch(_, cs) => {
            collect_hoisted_cases(cs, cs.len(), out);
        },
        Stmt::Try(b, c, f) => {
            collect_hoisted_stmts(b, b.len(), out);
            match c {
                Option::Some(cc) => {
                    collect_hoisted_stmts(&cc.body, cc.body.len(), out);
                },
                Option::None => {},
            }
            match f {
                Option::Some(fs) => {
                    collect_hoisted_stmts(fs, fs.len(), out);
                },
                Option::None => {},
            }
        },
        Stmt::With(_, b) => {
            collect_hoisted_stmt(&**b, out);
        },
        Stmt::Labeled(b) => {
            collect_hoisted_stmt(&**b, out);
        },
        _ => {},
    }
}

/// Append the hoisted names of the first `i` statements to `out`.
pub fn collect_hoisted_stmts(ss: &Vec<Stmt>, i: usize, out: &mut Vec<String>)
    requires
        i <= ss.len(),
    ensures
        names_view(final(out)@) == names_view(old(out)@) + hoisted_stmts(ss@, i as int),
    decreases ss@, i as int,
{
    if i > 0 {
        collect_hoisted_stmts(ss, i - 1, out);
        collect_hoisted_stmt(&ss[i - 1], out);
    }
}

/// Append the hoisted names of the first `i` switch arms to `out`.
pub fn collect_hoisted_cases(cs: &Vec<SwitchCase>, i: usize, out: &mut Vec<String>)
    requires
        i <= cs.len(),
    ensures
        names_view(final(out)@) == names_view(old(out)@) + hoisted_cases(cs@, i as int),
    decreases cs@, i as int,
{
    if i > 0 {
        collect_hoisted_cases(cs, i - 1, out);
        collect_hoisted_stmts(&cs[i - 1].body, cs[i - 1].body.len(), out);
    }
}

/// Append the lexical names a statement binds directly to `out`.
pub fn collect_lexical_stmt(s: &Stmt, out: &mut Vec<String>)
    ensures
        names_view(final(out)@) == names_view(old(out)@) + lexical_stmt(*s),
{
    match s {
        Stmt::Decl(DeclKind::Let, ds) => {
            collect_decls(ds, ds.len(), out);
        },
        Stmt::Decl(DeclKind::Const, ds) => {
            collect_decls(ds, ds.len(), out);
        },
        Stmt::ClassDecl(c) => {
            collect_opt_name(&c.name, out);
        },
        _ => {},
    }
}

/// Append the lexical names of the first `i` statements to `out`.
pub fn collect_lexical_stmts(ss: &Vec<Stmt>, i: usize, out: &mut Vec<String>)
    requires
        i <= ss.len(),
    ensures
        names_view(final(out)@) == names_view(old(out)@) + lexical_stmts(ss@, i as int),
    decreases i,
{
    if i > 0 {
        collect_lexical_stmts(ss, i - 1, out);
        collect_lexical_stmt(&ss[i - 1], out);
    }
}

/// Append the lexical names of the first `i` switch arms to `out`.
pub fn collect_lexical_cases(cs: &Vec<SwitchCase>, i: usize, out: &mut Vec<String>)
    requires
        i <= cs.len(),
    ensures
        names_view(final(out)@) == names_view(old(out)@) + lexical_cases(cs@, i as int),
    decreases i,
{
    if i > 0 {
        collect_lexical_cases(cs, i - 1, out);
        collect_lexical_stmts(&cs[i - 1].body, cs[i - 1].body.len(), out);
    }
}

/// Append the local names of the first `i` import specifiers to `out`.
pub fn collect_import_names(specs: &Vec<ImportSpec>, i: usize, out: &mut Vec<String>)
    requires
        i <= specs.len(),
    ensures
        names_view(final(out)@) == names_view(old(out)@) + import_names(specs@, i as int),
    decreases i,
{
    if i > 0 {
        collect_import_names(specs, i - 1, out);
        match &specs[i - 1] {
            ImportSpec::Default(n) => {
                out.push(n.clone());
            },
            ImportSpec::Named(n) => {
                out.push(n.clone());
            },
            ImportSpec::Namespace(n) => {
                out.push(n.clone());
            },
        }
    }
}

/// Append the module-frame names of the first `i` top-level items to
/// `out`.
pub fn collect_module_names(items: &Vec<ModuleItem>, i: usize, out: &mut Vec<String>)
    requires
        i <= items.len(),
    ensures
        names_view(final(out)@) == names_view(old(out)@) + module_names(items@, i as int),
    decreases i,
{
    if i > 0 {
        collect_module_names(items, i - 1, out);
        match &items[i - 1] {
            ModuleItem::Import(d) => {
                collect_import_names(&d.specifiers, d.specifiers.len(), out);
            },
            ModuleItem::ExportDecl(s) => {
                collect_hoisted_stmt(&**s, out);
                collect_lexical_stmt(&**s, out);
            },
            ModuleItem::Stmt(s) => {
                collect_hoisted_stmt(s, out);
                collect_lexical_stmt(s, out);
            },
            _ => {},
        }
    }
}

} // verus!
