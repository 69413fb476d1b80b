//! The abstract syntax of one JavaScript module.
//!
//! The parser collaborator supplies a tree of these nodes for a module's
//! source text; the analyses consume this closed set of node kinds and
//! nothing else.  Binding occurrences (declared names, parameters,
//! pattern elements) are kept apart from read occurrences
//! (`Expr::Ident`), so that resolution can ignore the former.
use vstd::prelude::*;

verus! {

/// The kind of a variable declaration statement.
pub enum DeclKind {
    Var,
    Let,
    Const,
}

/// A binding pattern: the left side of a declarator, a parameter, or a
/// catch parameter.  Every identifier inside binds a name; default
/// values are expressions read when the pattern is matched.
pub enum Pat {
    /// A plain binding identifier.
    Ident(String),
    /// An array destructuring pattern.
    Array(Vec<Pat>),
    /// An object destructuring pattern; property keys are not
    /// references, only the value patterns bind.
    Object(Vec<Pat>),
    /// A pattern with a default value: `p = expr`.
    Assign(Box<Pat>, Box<Expr>),
    /// A rest element: `...p`.
    Rest(Box<Pat>),
}

/// One `name = init` (or bare `name`) inside a variable declaration.
pub struct Declarator {
    pub pat: Pat,
    pub init: Option<Expr>,
}

/// A property of an object literal.
pub enum Prop {
    /// `{ a }`: the name is a read reference.
    Shorthand(String),
    /// `{ key: value }`: the key is not a reference.
    KeyValue(String, Box<Expr>),
    /// `{ ...expr }`.
    Spread(Box<Expr>),
}

/// A function declaration, function expression or class method: an
/// optional own name, parameters, and a body of statements.
pub struct Function {
    pub name: Option<String>,
    pub params: Vec<Pat>,
    pub body: Vec<Stmt>,
}

/// The body of an arrow function: a single expression or a block.
pub enum ArrowBody {
    Expr(Box<Expr>),
    Block(Vec<Stmt>),
}

/// An arrow function.
pub struct Arrow {
    pub params: Vec<Pat>,
    pub body: ArrowBody,
}

/// A member of a class body.
pub enum ClassMember {
    /// A method; its key is not a reference.
    Method(Function),
    /// A property with an optional initializer expression.
    Field(Option<Expr>),
}

/// A class declaration or class expression.
pub struct Class {
    pub name: Option<String>,
    pub parent: Option<Box<Expr>>,
    pub members: Vec<ClassMember>,
}

/// An expression.
pub enum Expr {
    /// A read occurrence of a name.
    Ident(String),
    /// A number, boolean, null or regex literal: no references inside.
    Lit,
    /// A string literal.
    Str(String),
    /// A template literal; only the interpolated expressions remain.
    Tpl(Vec<Expr>),
    /// An array literal.
    Array(Vec<Expr>),
    /// An object literal.
    Object(Vec<Prop>),
    /// Static member access `obj.name`: the property name is never a
    /// reference, only the object is traversed.
    Member(Box<Expr>, String),
    /// Computed member access `obj[expr]`: both sides are traversed.
    Index(Box<Expr>, Box<Expr>),
    /// A call `callee(args...)`.
    Call(Box<Expr>, Vec<Expr>),
    /// A `new callee(args...)` expression.
    New(Box<Expr>, Vec<Expr>),
    /// An assignment `target = value`.
    Assign(Box<Expr>, Box<Expr>),
    /// A unary operator application.
    Unary(Box<Expr>),
    /// An update `x++` / `--x`.
    Update(Box<Expr>),
    /// A binary or logical operator application.
    Binary(Box<Expr>, Box<Expr>),
    /// A ternary `test ? cons : alt`.
    Cond(Box<Expr>, Box<Expr>, Box<Expr>),
    /// A parenthesized expression.
    Paren(Box<Expr>),
    /// A comma (sequence) expression.
    Comma(Vec<Expr>),
    /// A `yield` with an optional argument.
    Yield(Option<Box<Expr>>),
    /// An `await expr`.
    Await(Box<Expr>),
    /// A function expression.
    Func(Function),
    /// An arrow function expression.
    ArrowFunc(Arrow),
    /// A class expression.
    ClassExpr(Class),
}

/// The head of a `for`/`for-in`/`for-of` loop that declares or targets
/// its loop variable.
pub enum ForHead {
    /// `for (let x ...`: a fresh declaration.
    Decl(DeclKind, Pat),
    /// `for (x ...`: an assignment target, traversed as an expression.
    Target(Box<Expr>),
}

/// The first clause of a classic `for` statement.
pub enum ForInit {
    Decl(DeclKind, Vec<Declarator>),
    Expr(Box<Expr>),
}

/// A `catch` clause: an optional parameter pattern and a body.
pub struct CatchClause {
    pub param: Option<Pat>,
    pub body: Vec<Stmt>,
}

/// One `case`/`default` arm of a `switch`; all arms share one scope.
pub struct SwitchCase {
    pub test: Option<Expr>,
    pub body: Vec<Stmt>,
}

/// A statement.
pub enum Stmt {
    /// A block `{ ... }`.
    Block(Vec<Stmt>),
    /// A `var`/`let`/`const` declaration.
    Decl(DeclKind, Vec<Declarator>),
    /// A function declaration.
    FuncDecl(Function),
    /// A class declaration.
    ClassDecl(Class),
    /// An expression statement.
    Expr(Expr),
    /// `if (test) cons else alt`.
    If(Expr, Box<Stmt>, Option<Box<Stmt>>),
    /// `while (test) body`.
    While(Expr, Box<Stmt>),
    /// `do body while (test)`.
    DoWhile(Box<Stmt>, Expr),
    /// `for (init; test; update) body`.
    For(Option<ForInit>, Option<Expr>, Option<Expr>, Box<Stmt>),
    /// `for (head in obj) body`.
    ForIn(ForHead, Expr, Box<Stmt>),
    /// `for (head of obj) body`.
    ForOf(ForHead, Expr, Box<Stmt>),
    /// `switch (disc) { cases }`.
    Switch(Expr, Vec<SwitchCase>),
    /// `try { .. } catch { .. } finally { .. }`.
    Try(Vec<Stmt>, Option<CatchClause>, Option<Vec<Stmt>>),
    /// `with (obj) body`: the body's scope is opaque.
    With(Expr, Box<Stmt>),
    /// `return` with an optional argument.
    Return(Option<Expr>),
    /// `throw expr`.
    Throw(Expr),
    /// A labeled statement; the label is not a reference.
    Labeled(Box<Stmt>),
    /// `break`, `continue`, `debugger` or an empty statement.
    Empty,
}

/// One specifier of a static import declaration.  Every variant stores
/// the local binding name.
pub enum ImportSpec {
    /// `import x from '...'`.
    Default(String),
    /// `import { x } from '...'` (or `{ y as x }`; the local alias is
    /// kept, also for the renamed form).
    Named(String),
    /// `import * as x from '...'`.
    Namespace(String),
}

/// A static import declaration.
pub struct ImportDecl {
    pub source: String,
    pub specifiers: Vec<ImportSpec>,
}

/// One top-level item of a module.
pub enum ModuleItem {
    /// A static import.
    Import(ImportDecl),
    /// `export <declaration>`.
    ExportDecl(Box<Stmt>),
    /// `export { a, b }`: the names are read references to local
    /// bindings.
    ExportNamed(Vec<String>),
    /// `export default <expr>`.
    ExportDefault(Box<Expr>),
    /// A plain statement.
    Stmt(Stmt),
}

/// A parsed module: the list of its top-level items.
pub struct Module {
    pub items: Vec<ModuleItem>,
}

} // verus!
