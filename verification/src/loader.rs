//! Records of a loaded module graph, and module kind detection.
//!
//! The dependency-graph collaborator resolves specifiers, parses every
//! reachable module and hands the library one record per module, each
//! tagged with its owning package; the entry module's package is the
//! reserved root sentinel `<root>`.  The records arrive deduplicated
//! and in a fixed traversal order, which the policy output follows.
use vstd::prelude::*;
use vstd::string::*;

use crate::ast::{Expr, Module, ModuleItem, Stmt};

verus! {

/// One module of the dependency graph: its owning package identifier,
/// its file name, its syntax tree, and the owning packages of the
/// resolved target of every import or require in it, in order.
pub struct ModuleRecord {
    pub package: String,
    pub file: String,
    pub module: Module,
    pub targets: Vec<String>,
}

/// Per-module options carried into the bundled output: the name of the
/// package the module belongs to.
pub struct ModuleOptions {
    pub package: String,
}

/// How a module's items address the module system.
pub enum ModuleKind {
    /// Both import/export declarations and `module.exports` occur.
    Mixed,
    /// At least one import or export declaration occurs.
    Esm,
    /// Neither occurs, or only `module.exports` assignments.
    Cjs,
}

/// The reserved sentinel identifier under which the root package — the
/// entry application's own modules — is keyed in the policy output.
pub fn root_package() -> (r: String)
    ensures
        r@ == "<root>"@,
{
    String::from_str("<root>")
}

/// Whether an assignment target is the `module.exports` member.
pub open spec fn is_module_exports(e: Expr) -> bool {
    match e {
        Expr::Member(obj, prop) => (match *obj {
            Expr::Ident(n) => n@ == "module"@ && prop@ == "exports"@,
            _ => false,
        }),
        _ => false,
    }
}

/// Whether one top-level item marks the module as ESM.
pub open spec fn item_is_esm(item: ModuleItem) -> bool {
    match item {
        ModuleItem::Import(_) => true,
        ModuleItem::ExportDecl(_) => true,
        ModuleItem::ExportNamed(_) => true,
        ModuleItem::ExportDefault(_) => true,
        ModuleItem::Stmt(_) => false,
    }
}

/// Whether one top-level item marks the module as CJS: an expression
/// statement assigning to `module.exports`.
pub open spec fn item_is_cjs(item: ModuleItem) -> bool {
    match item {
        ModuleItem::Stmt(Stmt::Expr(Expr::Assign(t, _))) => is_module_exports(*t),
        _ => false,
    }
}

/// Whether any of the first `i` items marks the module as ESM.
pub open spec fn has_esm(items: Seq<ModuleItem>, i: int) -> bool
    decreases i,
{
    if i <= 0 || i > items.len() {
        false
    } else {
        has_esm(items, i - 1) || item_is_esm(items[i - 1])
    }
}

/// Whether any of the first `i` items marks the module as CJS.
pub open spec fn has_cjs(items: Seq<ModuleItem>, i: int) -> bool
    decreases i,
{
    if i <= 0 || i > items.len() {
        false
    } else {
        has_cjs(items, i - 1) || item_is_cjs(items[i - 1])
    }
}

/// The kind a module with the given marks has: both kinds of marks
/// make it mixed, ESM marks alone make it ESM, and anything else is
/// treated as CJS.
pub open spec fn spec_module_kind(m: Module) -> ModuleKind {
    let esm = has_esm(m.items@, m.items@.len() as int);
    let cjs = has_cjs(m.items@, m.items@.len() as int);
    if esm && cjs {
        ModuleKind::Mixed
    } else if esm {
        ModuleKind::Esm
    } else {
        ModuleKind::Cjs
    }
}

/// Whether an assignment target is the `module.exports` member.
fn check_module_exports(e: &Expr) -> (r: bool)
    ensures
        r == is_module_exports(*e),
{
    match e {
        Expr::Member(obj, prop) => {
            match &**obj {
                Expr::Ident(n) => {
                    let m = String::from_str("module");
                    let x = String::from_str("exports");
                    n.eq(&m) && prop.eq(&x)
                },
                _ => false,
            }
        },
        _ => false,
    }
}

/// Classify a module as ESM, CJS or mixed from its top-level items.
pub fn module_kind(m: &Module) -> (r: ModuleKind)
    ensures
        r == spec_module_kind(*m),
{
    let mut esm = false;
    let mut cjs = false;
    let mut i: usize = 0;
    while i < m.items.len()
        invariant
            i <= m.items.len(),
            esm == has_esm(m.items@, i as int),
            cjs == has_cjs(m.items@, i as int),
        decreases m.items.len() - i,
    {
        match &m.items[i] {
            ModuleItem::Import(_) => {
                esm = true;
            },
            ModuleItem::ExportDecl(_) => {
                esm = true;
            },
            ModuleItem::ExportNamed(_) => {
                esm = true;
            },
            ModuleItem::ExportDefault(_) => {
                esm = true;
            },
            ModuleItem::Stmt(s) => {
                match s {
                    Stmt::Expr(e) => {
                        match e {
                            Expr::Assign(t, _) => {
                                if check_module_exports(&**t) {
                                    cjs = true;
                                }
                            },
                            _ => {},
                        }
                    },
                    _ => {},
                }
            },
        }
        i = i + 1;
    }
    if esm && cjs {
        ModuleKind::Mixed
    } else if esm {
        ModuleKind::Esm
    } else {
        ModuleKind::Cjs
    }
}

} // verus!
