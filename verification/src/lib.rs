//! Static analysis of JavaScript module graphs for least-privilege policies.
//!
//! Per module the library determines which global (free) identifiers and
//! which platform builtin symbols the code touches, and aggregates the
//! per-module results across a dependency graph into one deterministic
//! policy document, grouped by owning package.
pub mod ast;
pub mod builder;
pub mod builtin;
pub mod globals_scope;
pub mod laws;
pub mod loader;
pub mod names;
pub mod oset;
pub mod scope;

use vstd::prelude::*;
use vstd::string::*;

use crate::builder::{spec_policy, Policy, PolicyBuilder};
use crate::builtin::{spec_builtins, BuiltinAnalysis, BuiltinRegistry};
use crate::globals_scope::{spec_globals, GlobalAnalysis};
use crate::loader::ModuleRecord;
use crate::oset::OrderedSet;

verus! {

/// The two per-module analysis results: the module's global names and
/// its canonical builtin symbols.
pub struct ModuleAnalysis {
    pub globals: OrderedSet,
    pub builtins: OrderedSet,
}

/// Analyze all the modules in a dependency graph, one result per
/// record, in record order.
pub fn parse(records: &Vec<ModuleRecord>, analysis: &BuiltinAnalysis) -> (r: Vec<ModuleAnalysis>)
    ensures
        r@.len() == records@.len(),
        forall|i: int|
            0 <= i < r@.len() ==> #[trigger] r@[i].globals@ == spec_globals(records@[i].module)
                && r@[i].builtins@ == spec_builtins(records@[i].module, analysis@),
{
    let mut out: Vec<ModuleAnalysis> = Vec::new();
    let mut i: usize = 0;
    while i < records.len()
        invariant
            i <= records.len(),
            out@.len() == i,
            forall|k: int|
                0 <= k < i ==> #[trigger] out@[k].globals@ == spec_globals(records@[k].module)
                    && out@[k].builtins@ == spec_builtins(records@[k].module, analysis@),
        decreases records.len() - i,
    {
        let ga = GlobalAnalysis::new();
        let rec = &records[i];
        out.push(
            ModuleAnalysis {
                globals: ga.analyze(&rec.module),
                builtins: analysis.analyze(&rec.module),
            },
        );
        i = i + 1;
    }
    out
}

/// Generate the policy document of a module graph.
pub fn policy(records: Vec<ModuleRecord>, registry: BuiltinRegistry) -> (r: Policy)
    ensures
        r@ == spec_policy(records@, registry@),
{
    let builder = PolicyBuilder::new(records, registry);
    builder.analyze().finalize()
}

/// Compute the globals in a module.
pub fn globals(module: &ast::Module) -> (r: OrderedSet)
    ensures
        r@ == spec_globals(*module),
{
    let analysis = GlobalAnalysis::new();
    analysis.analyze(module)
}

/// The line `list` prints for one module: its package, or the package
/// and the file name.
pub open spec fn spec_list_line(r: ModuleRecord, include_file: bool) -> Seq<char> {
    if include_file {
        r.package@ + seq![' '] + r.file@
    } else {
        r.package@
    }
}

/// List all modules of a graph, one line per record, in record order.
pub fn list(records: &Vec<ModuleRecord>, include_file: bool) -> (r: Vec<String>)
    ensures
        r@.len() == records@.len(),
        forall|i: int|
            0 <= i < r@.len() ==> #[trigger] r@[i]@ == spec_list_line(records@[i], include_file),
{
    let mut out: Vec<String> = Vec::new();
    let mut i: usize = 0;
    while i < records.len()
        invariant
            i <= records.len(),
            out@.len() == i,
            forall|k: int|
                0 <= k < i ==> #[trigger] out@[k]@ == spec_list_line(records@[k], include_file),
        decreases records.len() - i,
    {
        let rec = &records[i];
        let mut line = rec.package.clone();
        if include_file {
            proof {
                reveal_strlit(" ");
                assert(" "@ =~= seq![' ']);
            }
            line.append(" ");
            line.append(rec.file.as_str());
        }
        out.push(line);
        i = i + 1;
    }
    out
}

/// Whether a character counts as trailing whitespace: the Unicode
/// white space characters, as trimming strips them.
pub open spec fn is_trim_ws(c: char) -> bool {
    let u = c as u32;
    u == 0x9 || u == 0xA || u == 0xB || u == 0xC || u == 0xD || u == 0x20 || u == 0x85 || u
        == 0xA0 || u == 0x1680 || (0x2000 <= u && u <= 0x200A) || u == 0x2028 || u == 0x2029 || u
        == 0x202F || u == 0x205F || u == 0x3000
}

/// A sequence without its trailing whitespace.
pub open spec fn trim_ws_end(s: Seq<char>) -> Seq<char>
    decreases s.len(),
{
    if s.len() > 0 && is_trim_ws(s.last()) {
        trim_ws_end(s.drop_last())
    } else {
        s
    }
}

/// A sequence without its trailing semicolons.
pub open spec fn trim_semi_end(s: Seq<char>) -> Seq<char>
    decreases s.len(),
{
    if s.len() > 0 && s.last() == ';' {
        trim_semi_end(s.drop_last())
    } else {
        s
    }
}

/// What trimming a generated program leaves: trailing whitespace goes
/// first, then every trailing semicolon.
pub open spec fn spec_trim_code(s: Seq<char>) -> Seq<char> {
    trim_semi_end(trim_ws_end(s))
}

/// Whether a character counts as trailing whitespace.
fn trim_ws_char(c: char) -> (r: bool)
    ensures
        r == is_trim_ws(c),
{
    let u = c as u32;
    u == 0x9 || u == 0xA || u == 0xB || u == 0xC || u == 0xD || u == 0x20 || u == 0x85 || u
        == 0xA0 || u == 0x1680 || (0x2000 <= u && u <= 0x200A) || u == 0x2028 || u == 0x2029 || u
        == 0x202F || u == 0x205F || u == 0x3000
}

/// Remove a trailing semicolon from a generated functor program, as a
/// trailing semicolon breaks static module record interoperability;
/// trailing whitespace is removed first, and every trailing semicolon
/// goes.
pub fn trim_code(code: String) -> (r: String)
    ensures
        r@ == spec_trim_code(code@),
{
    let s = code.as_str();
    let n = s.unicode_len();
    let mut end = n;
    proof {
        assert(code@.subrange(0, n as int) =~= code@);
    }
    while end > 0 && trim_ws_char(s.get_char(end - 1))
        invariant
            end <= n,
            n == code@.len(),
            s@ == code@,
            trim_ws_end(code@) == trim_ws_end(code@.subrange(0, end as int)),
        decreases end,
    {
        proof {
            assert(code@.subrange(0, end as int).last() == code@[end - 1]);
            assert(code@.subrange(0, end as int).drop_last() =~= code@.subrange(
                0,
                end as int - 1,
            ));
        }
        end = end - 1;
    }
    proof {
        assert(code@.subrange(0, n as int) =~= code@);
        assert(trim_ws_end(code@.subrange(0, end as int)) == code@.subrange(0, end as int));
    }
    let ghost ws_trimmed = code@.subrange(0, end as int);
    while end > 0 && s.get_char(end - 1) == ';'
        invariant
            end <= n,
            n == code@.len(),
            s@ == code@,
            trim_semi_end(ws_trimmed) == trim_semi_end(code@.subrange(0, end as int)),
        decreases end,
    {
        proof {
            assert(code@.subrange(0, end as int).last() == code@[end - 1]);
            assert(code@.subrange(0, end as int).drop_last() =~= code@.subrange(
                0,
                end as int - 1,
            ));
        }
        end = end - 1;
    }
    proof {
        assert(trim_semi_end(code@.subrange(0, end as int)) == code@.subrange(0, end as int));
    }
    let out = s.substring_char(0, end);
    String::from_str(out)
}

} // verus!
