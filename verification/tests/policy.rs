//! Policy aggregation, module listing and code trimming.
use basalt::ast::{
    DeclKind, Declarator, Expr, Function, ImportDecl, ImportSpec, Module, ModuleItem, Pat, Stmt,
};
use basalt::builtin::BuiltinRegistry;
use basalt::builder::{Policy, PolicyBuilder};
use basalt::loader::{module_kind, ModuleKind, ModuleRecord};
use basalt::{list, parse, policy, trim_code};

fn s(x: &str) -> String {
    x.to_string()
}

fn id(x: &str) -> Expr {
    Expr::Ident(s(x))
}

fn bx(e: Expr) -> Box<Expr> {
    Box::new(e)
}

fn registry() -> BuiltinRegistry {
    BuiltinRegistry::new(vec![s("fs"), s("path")])
}

/// The entry module: reads a global, requires `fs`, imports a
/// dependency package.
fn entry_module() -> Module {
    Module {
        items: vec![
            ModuleItem::Import(ImportDecl {
                source: s("left-pad"),
                specifiers: vec![ImportSpec::Default(s("pad"))],
            }),
            ModuleItem::Stmt(Stmt::Decl(
                DeclKind::Var,
                vec![Declarator {
                    pat: Pat::Ident(s("fs2")),
                    init: Some(Expr::Call(bx(id("require")), vec![Expr::Str(s("fs"))])),
                }],
            )),
            ModuleItem::Stmt(Stmt::Expr(Expr::Call(
                bx(Expr::Member(bx(id("console")), s("log"))),
                vec![id("pad")],
            ))),
        ],
    }
}

/// A second root module: reads another global.
fn util_module() -> Module {
    Module {
        items: vec![ModuleItem::Stmt(Stmt::Expr(Expr::Call(
            bx(Expr::Member(bx(id("console")), s("error"))),
            vec![id("x")],
        )))],
    }
}

/// The dependency package's module: imports a named builtin symbol.
fn dep_module() -> Module {
    Module {
        items: vec![
            ModuleItem::Import(ImportDecl {
                source: s("fs"),
                specifiers: vec![ImportSpec::Named(s("readFileSync"))],
            }),
            ModuleItem::Stmt(Stmt::FuncDecl(Function {
                name: Some(s("load")),
                params: vec![Pat::Ident(s("p"))],
                body: vec![Stmt::Return(Some(Expr::Call(
                    bx(id("readFileSync")),
                    vec![id("p")],
                )))],
            })),
        ],
    }
}

fn records() -> Vec<ModuleRecord> {
    vec![
        ModuleRecord {
            package: s("<root>"),
            file: s("index.js"),
            module: entry_module(),
            targets: vec![s("left-pad"), s("<root>")],
        },
        ModuleRecord {
            package: s("<root>"),
            file: s("util.js"),
            module: util_module(),
            targets: vec![],
        },
        ModuleRecord {
            package: s("left-pad"),
            file: s("node_modules/left-pad/index.js"),
            module: dep_module(),
            targets: vec![],
        },
    ]
}

fn flatten(p: &Policy) -> Vec<(String, Vec<String>, Vec<String>, Vec<String>)> {
    let mut out = Vec::new();
    for e in p.entries.iter() {
        out.push((
            e.package.clone(),
            e.globals.items(),
            e.builtins.items(),
            e.packages.items(),
        ));
    }
    out
}

#[test]
fn policy_groups_by_package() {
    let p = policy(records(), registry());
    let flat = flatten(&p);
    assert_eq!(flat.len(), 2);
    assert_eq!(flat[0].0, s("<root>"));
    assert_eq!(flat[0].1, vec![s("require"), s("console"), s("x")]);
    assert_eq!(flat[0].2, vec![s("fs")]);
    assert_eq!(flat[0].3, vec![s("left-pad")]);
    assert_eq!(flat[1].0, s("left-pad"));
    assert_eq!(flat[1].1, Vec::<String>::new());
    assert_eq!(flat[1].2, vec![s("fs.readFileSync")]);
    assert_eq!(flat[1].3, Vec::<String>::new());
}

#[test]
fn policy_excludes_self_edges() {
    let p = policy(records(), registry());
    let flat = flatten(&p);
    for (pkg, _, _, deps) in flat.iter() {
        assert!(!deps.contains(pkg));
    }
}

#[test]
fn policy_build_is_deterministic() {
    let p1 = policy(records(), registry());
    let p2 = policy(records(), registry());
    assert_eq!(flatten(&p1), flatten(&p2));
}

#[test]
fn policy_builder_phases() {
    let builder = PolicyBuilder::new(records(), registry());
    let p = builder.analyze().finalize();
    assert_eq!(flatten(&p), flatten(&policy(records(), registry())));
}

#[test]
fn policy_end_to_end_single_module() {
    let recs = vec![ModuleRecord {
        package: s("<root>"),
        file: s("index.js"),
        module: dep_module(),
        targets: vec![],
    }];
    let p = policy(recs, registry());
    let flat = flatten(&p);
    assert_eq!(flat.len(), 1);
    assert_eq!(flat[0].1, Vec::<String>::new());
    assert_eq!(flat[0].2, vec![s("fs.readFileSync")]);
}

#[test]
fn parse_analyzes_every_module() {
    let recs = records();
    let analysis = basalt::builtin::BuiltinAnalysis::new(registry());
    let results = parse(&recs, &analysis);
    assert_eq!(results.len(), 3);
    assert_eq!(results[0].globals.items(), vec![s("require"), s("console")]);
    assert_eq!(results[0].builtins.items(), vec![s("fs")]);
    assert_eq!(results[1].globals.items(), vec![s("console"), s("x")]);
    assert_eq!(results[2].globals.items(), Vec::<String>::new());
    assert_eq!(results[2].builtins.items(), vec![s("fs.readFileSync")]);
}

#[test]
fn list_packages_only() {
    let lines = list(&records(), false);
    assert_eq!(lines, vec![s("<root>"), s("<root>"), s("left-pad")]);
}

#[test]
fn list_with_file_names() {
    let lines = list(&records(), true);
    assert_eq!(
        lines,
        vec![
            s("<root> index.js"),
            s("<root> util.js"),
            s("left-pad node_modules/left-pad/index.js"),
        ]
    );
}

#[test]
fn root_package_sentinel() {
    assert_eq!(basalt::loader::root_package(), s("<root>"));
}

#[test]
fn kind_esm() {
    assert!(matches!(module_kind(&dep_module()), ModuleKind::Esm));
}

#[test]
fn kind_cjs_default() {
    assert!(matches!(module_kind(&util_module()), ModuleKind::Cjs));
}

#[test]
fn kind_cjs_module_exports() {
    let m = Module {
        items: vec![ModuleItem::Stmt(Stmt::Expr(Expr::Assign(
            bx(Expr::Member(bx(id("module")), s("exports"))),
            bx(id("f")),
        )))],
    };
    assert!(matches!(module_kind(&m), ModuleKind::Cjs));
}

#[test]
fn kind_mixed() {
    let m = Module {
        items: vec![
            ModuleItem::Import(ImportDecl { source: s("fs"), specifiers: vec![] }),
            ModuleItem::Stmt(Stmt::Expr(Expr::Assign(
                bx(Expr::Member(bx(id("module")), s("exports"))),
                bx(id("f")),
            ))),
        ],
    };
    assert!(matches!(module_kind(&m), ModuleKind::Mixed));
}

#[test]
fn trim_trailing_semicolon() {
    assert_eq!(trim_code(s("var x = 1;\n")), s("var x = 1"));
}

#[test]
fn trim_every_trailing_semicolon() {
    assert_eq!(trim_code(s("f();;;")), s("f()"));
}

#[test]
fn trim_whitespace_then_semicolons() {
    assert_eq!(trim_code(s("a; \t\n")), s("a"));
}

#[test]
fn trim_keeps_clean_code() {
    assert_eq!(trim_code(s("abc")), s("abc"));
}

#[test]
fn trim_lone_semicolon() {
    assert_eq!(trim_code(s(";")), s(""));
}

#[test]
fn trim_unicode_whitespace() {
    assert_eq!(trim_code(s("a;\u{00A0}")), s("a"));
}

#[test]
fn trim_inner_semicolons_kept() {
    assert_eq!(trim_code(s("a; b;")), s("a; b"));
}
