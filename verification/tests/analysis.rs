//! Per-module analysis: global names and builtin symbols.
use basalt::ast::{
    Arrow, ArrowBody, Class, ClassMember, DeclKind, Declarator, Expr, ForInit, Function,
    ImportDecl, ImportSpec, Module, ModuleItem, Pat, SwitchCase, CatchClause,
};
use basalt::builtin::{BuiltinAnalysis, BuiltinRegistry};
use basalt::globals_scope::GlobalAnalysis;

fn s(x: &str) -> String {
    x.to_string()
}

fn id(x: &str) -> Expr {
    Expr::Ident(s(x))
}

fn bx(e: Expr) -> Box<Expr> {
    Box::new(e)
}

fn estmt(e: Expr) -> ModuleItem {
    ModuleItem::Stmt(basalt::ast::Stmt::Expr(e))
}

fn var_decl(kind: DeclKind, name: &str, init: Option<Expr>) -> basalt::ast::Stmt {
    basalt::ast::Stmt::Decl(
        kind,
        vec![Declarator { pat: Pat::Ident(s(name)), init }],
    )
}

fn module(items: Vec<ModuleItem>) -> Module {
    Module { items }
}

fn globals_of(m: &Module) -> Vec<String> {
    GlobalAnalysis::new().analyze(m).items()
}

fn registry() -> BuiltinRegistry {
    BuiltinRegistry::new(vec![s("fs"), s("path"), s("http")])
}

fn builtins_of(m: &Module) -> Vec<String> {
    BuiltinAnalysis::new(registry()).analyze(m).items()
}

use basalt::ast::Stmt;

#[test]
fn scope_no_free_identifiers() {
    // var x = 1; x;
    let m = module(vec![
        ModuleItem::Stmt(var_decl(DeclKind::Var, "x", Some(Expr::Lit))),
        estmt(id("x")),
    ]);
    assert_eq!(globals_of(&m), Vec::<String>::new());
}

#[test]
fn scope_block_let_invisible_outside() {
    // { let j = 1; } j;
    let m = module(vec![
        ModuleItem::Stmt(Stmt::Block(vec![var_decl(DeclKind::Let, "j", Some(Expr::Lit))])),
        estmt(id("j")),
    ]);
    assert_eq!(globals_of(&m), vec![s("j")]);
}

#[test]
fn scope_for_var_hoists_let_does_not() {
    // for (var i = 0; i < 10; i++) { let j = i; }
    // console.log(j);
    let m = module(vec![
        ModuleItem::Stmt(Stmt::For(
            Some(ForInit::Decl(
                DeclKind::Var,
                vec![Declarator { pat: Pat::Ident(s("i")), init: Some(Expr::Lit) }],
            )),
            Some(Expr::Binary(bx(id("i")), bx(Expr::Lit))),
            Some(Expr::Update(bx(id("i")))),
            Box::new(Stmt::Block(vec![var_decl(DeclKind::Let, "j", Some(id("i")))])),
        )),
        estmt(Expr::Call(
            bx(Expr::Member(bx(id("console")), s("log"))),
            vec![id("j")],
        )),
    ]);
    assert_eq!(globals_of(&m), vec![s("console"), s("j")]);
}

#[test]
fn scope_function_decl() {
    // function foo(a) { return a + b; } foo();
    let m = module(vec![
        ModuleItem::Stmt(Stmt::FuncDecl(Function {
            name: Some(s("foo")),
            params: vec![Pat::Ident(s("a"))],
            body: vec![Stmt::Return(Some(Expr::Binary(bx(id("a")), bx(id("b")))))],
        })),
        estmt(Expr::Call(bx(id("foo")), vec![])),
    ]);
    assert_eq!(globals_of(&m), vec![s("b")]);
}

#[test]
fn scope_class_decl_parent_is_global() {
    // class A extends B {} new A();
    let m = module(vec![
        ModuleItem::Stmt(Stmt::ClassDecl(Class {
            name: Some(s("A")),
            parent: Some(bx(id("B"))),
            members: vec![],
        })),
        estmt(Expr::New(bx(id("A")), vec![])),
    ]);
    assert_eq!(globals_of(&m), vec![s("B")]);
}

#[test]
fn scope_var_destructure_defaults() {
    // var { a, b = e } = obj; a;
    let m = module(vec![
        ModuleItem::Stmt(Stmt::Decl(
            DeclKind::Var,
            vec![Declarator {
                pat: Pat::Object(vec![
                    Pat::Ident(s("a")),
                    Pat::Assign(Box::new(Pat::Ident(s("b"))), bx(id("e"))),
                ]),
                init: Some(id("obj")),
            }],
        )),
        estmt(id("a")),
    ]);
    assert_eq!(globals_of(&m), vec![s("e"), s("obj")]);
}

#[test]
fn scope_with_body_blocks_resolution() {
    // var x; var o; with (o) { x; }
    let m = module(vec![
        ModuleItem::Stmt(var_decl(DeclKind::Var, "x", None)),
        ModuleItem::Stmt(var_decl(DeclKind::Var, "o", None)),
        ModuleItem::Stmt(Stmt::With(
            id("o"),
            Box::new(Stmt::Block(vec![Stmt::Expr(id("x"))])),
        )),
    ]);
    assert_eq!(globals_of(&m), vec![s("x")]);
}

#[test]
fn scope_with_body_inner_binding_resolves() {
    // with (o) { let y = 1; y; }
    let m = module(vec![ModuleItem::Stmt(Stmt::With(
        id("o"),
        Box::new(Stmt::Block(vec![
            var_decl(DeclKind::Let, "y", Some(Expr::Lit)),
            Stmt::Expr(id("y")),
        ])),
    ))]);
    assert_eq!(globals_of(&m), vec![s("o")]);
}

#[test]
fn scope_switch_cases_share_scope() {
    // switch (k) { case a: let s1 = 1; case b: s1; }
    let m = module(vec![ModuleItem::Stmt(Stmt::Switch(
        id("k"),
        vec![
            SwitchCase {
                test: Some(id("a")),
                body: vec![var_decl(DeclKind::Let, "s1", Some(Expr::Lit))],
            },
            SwitchCase { test: Some(id("b")), body: vec![Stmt::Expr(id("s1"))] },
        ],
    ))]);
    assert_eq!(globals_of(&m), vec![s("k"), s("a"), s("b")]);
}

#[test]
fn scope_try_catch_finally() {
    // try { risky(); } catch (err) { console.log(err); } finally { fin(); }
    let m = module(vec![ModuleItem::Stmt(Stmt::Try(
        vec![Stmt::Expr(Expr::Call(bx(id("risky")), vec![]))],
        Some(CatchClause {
            param: Some(Pat::Ident(s("err"))),
            body: vec![Stmt::Expr(Expr::Call(
                bx(Expr::Member(bx(id("console")), s("log"))),
                vec![id("err")],
            ))],
        }),
        Some(vec![Stmt::Expr(Expr::Call(bx(id("fin")), vec![]))]),
    ))]);
    assert_eq!(globals_of(&m), vec![s("risky"), s("console"), s("fin")]);
}

#[test]
fn scope_named_function_expression() {
    // var f = function g() { g(); }; g();
    let m = module(vec![
        ModuleItem::Stmt(var_decl(
            DeclKind::Var,
            "f",
            Some(Expr::Func(Function {
                name: Some(s("g")),
                params: vec![],
                body: vec![Stmt::Expr(Expr::Call(bx(id("g")), vec![]))],
            })),
        )),
        estmt(Expr::Call(bx(id("g")), vec![])),
    ]);
    assert_eq!(globals_of(&m), vec![s("g")]);
}

#[test]
fn scope_arrow_body() {
    // const add2 = (x) => x + y;
    let m = module(vec![ModuleItem::Stmt(var_decl(
        DeclKind::Const,
        "add2",
        Some(Expr::ArrowFunc(Arrow {
            params: vec![Pat::Ident(s("x"))],
            body: ArrowBody::Expr(bx(Expr::Binary(bx(id("x")), bx(id("y"))))),
        })),
    ))]);
    assert_eq!(globals_of(&m), vec![s("y")]);
}

#[test]
fn scope_class_expression_name_self_visible() {
    // var k = class C { m() { return C; } };
    let m = module(vec![ModuleItem::Stmt(var_decl(
        DeclKind::Var,
        "k",
        Some(Expr::ClassExpr(Class {
            name: Some(s("C")),
            parent: None,
            members: vec![ClassMember::Method(Function {
                name: None,
                params: vec![],
                body: vec![Stmt::Return(Some(id("C")))],
            })],
        })),
    ))]);
    assert_eq!(globals_of(&m), Vec::<String>::new());
}

#[test]
fn scope_expression_forms_in_order() {
    // a = b ? (c) : -d; new E(f);
    let m = module(vec![
        estmt(Expr::Assign(
            bx(id("a")),
            bx(Expr::Cond(bx(id("b")), bx(Expr::Paren(bx(id("c")))), bx(Expr::Unary(bx(id("d")))))),
        )),
        estmt(Expr::New(bx(id("E")), vec![id("f")])),
    ]);
    assert_eq!(
        globals_of(&m),
        vec![s("a"), s("b"), s("c"), s("d"), s("E"), s("f")]
    );
}

#[test]
fn scope_duplicate_global_reported_once() {
    // q; q;
    let m = module(vec![estmt(id("q")), estmt(id("q"))]);
    assert_eq!(globals_of(&m), vec![s("q")]);
}

#[test]
fn scope_import_binds_locals() {
    // import fs from 'fs'; fs.readFileSync(p);
    let m = module(vec![
        ModuleItem::Import(ImportDecl {
            source: s("fs"),
            specifiers: vec![ImportSpec::Default(s("fs"))],
        }),
        estmt(Expr::Call(
            bx(Expr::Member(bx(id("fs")), s("readFileSync"))),
            vec![id("p")],
        )),
    ]);
    assert_eq!(globals_of(&m), vec![s("p")]);
}

#[test]
fn builtin_import_default() {
    // import fs from 'fs'; fs.readFileSync(p);
    let m = module(vec![
        ModuleItem::Import(ImportDecl {
            source: s("fs"),
            specifiers: vec![ImportSpec::Default(s("fs"))],
        }),
        estmt(Expr::Call(
            bx(Expr::Member(bx(id("fs")), s("readFileSync"))),
            vec![id("p")],
        )),
    ]);
    assert_eq!(builtins_of(&m), vec![s("fs")]);
}

#[test]
fn builtin_import_named() {
    // import { readFileSync } from 'fs'; readFileSync(p);
    let m = module(vec![
        ModuleItem::Import(ImportDecl {
            source: s("fs"),
            specifiers: vec![ImportSpec::Named(s("readFileSync"))],
        }),
        estmt(Expr::Call(bx(id("readFileSync")), vec![id("p")])),
    ]);
    assert_eq!(builtins_of(&m), vec![s("fs.readFileSync")]);
}

#[test]
fn builtin_import_star_as() {
    // import * as io from 'fs';
    let m = module(vec![ModuleItem::Import(ImportDecl {
        source: s("fs"),
        specifiers: vec![ImportSpec::Namespace(s("io"))],
    })]);
    assert_eq!(builtins_of(&m), vec![s("io")]);
}

#[test]
fn builtin_import_side_effect_contributes_nothing() {
    // import 'fs';
    let m = module(vec![ModuleItem::Import(ImportDecl {
        source: s("fs"),
        specifiers: vec![],
    })]);
    assert_eq!(builtins_of(&m), Vec::<String>::new());
}

#[test]
fn builtin_import_non_builtin_ignored() {
    let m = module(vec![ModuleItem::Import(ImportDecl {
        source: s("./util.js"),
        specifiers: vec![ImportSpec::Default(s("util"))],
    })]);
    assert_eq!(builtins_of(&m), Vec::<String>::new());
}

#[test]
fn builtin_require_literal() {
    // var fs2 = require('fs');
    let m = module(vec![ModuleItem::Stmt(var_decl(
        DeclKind::Var,
        "fs2",
        Some(Expr::Call(bx(id("require")), vec![Expr::Str(s("fs"))])),
    ))]);
    assert_eq!(builtins_of(&m), vec![s("fs")]);
}

#[test]
fn builtin_require_non_literal_ignored() {
    // var x = require(name);
    let m = module(vec![ModuleItem::Stmt(var_decl(
        DeclKind::Var,
        "x",
        Some(Expr::Call(bx(id("require")), vec![id("name")])),
    ))]);
    assert_eq!(builtins_of(&m), Vec::<String>::new());
}

#[test]
fn builtin_require_two_arguments_ignored() {
    let m = module(vec![ModuleItem::Stmt(var_decl(
        DeclKind::Var,
        "x",
        Some(Expr::Call(bx(id("require")), vec![Expr::Str(s("fs")), Expr::Lit])),
    ))]);
    assert_eq!(builtins_of(&m), Vec::<String>::new());
}

#[test]
fn builtin_require_non_builtin_ignored() {
    let m = module(vec![ModuleItem::Stmt(var_decl(
        DeclKind::Var,
        "x",
        Some(Expr::Call(bx(id("require")), vec![Expr::Str(s("./local.js"))])),
    ))]);
    assert_eq!(builtins_of(&m), Vec::<String>::new());
}

#[test]
fn builtin_require_inside_function_found() {
    // function f() { var z = require('path'); }
    let m = module(vec![ModuleItem::Stmt(Stmt::FuncDecl(Function {
        name: Some(s("f")),
        params: vec![],
        body: vec![var_decl(
            DeclKind::Var,
            "z",
            Some(Expr::Call(bx(id("require")), vec![Expr::Str(s("path"))])),
        )],
    }))]);
    assert_eq!(builtins_of(&m), vec![s("path")]);
}

#[test]
fn builtin_identical_records_deduplicated() {
    let imp = || {
        ModuleItem::Import(ImportDecl {
            source: s("fs"),
            specifiers: vec![ImportSpec::Named(s("readFileSync"))],
        })
    };
    let m = module(vec![imp(), imp()]);
    assert_eq!(builtins_of(&m), vec![s("fs.readFileSync")]);
}

#[test]
fn builtin_distinct_records_same_source_union() {
    // import { a } from 'fs'; import { b } from 'fs';
    let m = module(vec![
        ModuleItem::Import(ImportDecl {
            source: s("fs"),
            specifiers: vec![ImportSpec::Named(s("a"))],
        }),
        ModuleItem::Import(ImportDecl {
            source: s("fs"),
            specifiers: vec![ImportSpec::Named(s("b"))],
        }),
    ]);
    assert_eq!(builtins_of(&m), vec![s("fs.a"), s("fs.b")]);
}

#[test]
fn builtin_duplicate_specifiers_deduplicated() {
    let m = module(vec![ModuleItem::Import(ImportDecl {
        source: s("fs"),
        specifiers: vec![ImportSpec::Named(s("a")), ImportSpec::Named(s("a"))],
    })]);
    assert_eq!(builtins_of(&m), vec![s("fs.a")]);
}

#[test]
fn end_to_end_import_and_function() {
    // import { readFileSync } from 'fs';
    // function load(path) { return readFileSync(path); }
    let m = module(vec![
        ModuleItem::Import(ImportDecl {
            source: s("fs"),
            specifiers: vec![ImportSpec::Named(s("readFileSync"))],
        }),
        ModuleItem::Stmt(Stmt::FuncDecl(Function {
            name: Some(s("load")),
            params: vec![Pat::Ident(s("path"))],
            body: vec![Stmt::Return(Some(Expr::Call(bx(id("readFileSync")), vec![id("path")])))],
        })),
    ]);
    assert_eq!(globals_of(&m), Vec::<String>::new());
    assert_eq!(builtins_of(&m), vec![s("fs.readFileSync")]);
}

#[test]
fn global_set_membership() {
    let m = module(vec![estmt(id("q"))]);
    let g = GlobalAnalysis::new().analyze(&m);
    assert!(g.contains(&s("q")));
    assert!(!g.contains(&s("r")));
    assert_eq!(g.len(), 1);
}

#[test]
fn union_with_equal_set_is_idempotent() {
    let m = module(vec![estmt(id("q")), estmt(id("r"))]);
    let mut g1 = GlobalAnalysis::new().analyze(&m);
    let g2 = GlobalAnalysis::new().analyze(&m);
    let before = g1.items();
    g1.union_with(&g2);
    assert_eq!(g1.items(), before);
}
