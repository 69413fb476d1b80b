//! Policy aggregation across a module graph.
//!
//! Every module's global and builtin sets are folded, by owning
//! package, into one policy entry per package: sets are merged by
//! union in first-seen order, and an import whose resolved target
//! belongs to another package records that package as a dependency.
//! Entries appear in the order their packages are first seen, so a
//! fixed record list always produces the same policy document.
use vstd::prelude::*;

use crate::builtin::BuiltinAnalysis;
use crate::globals_scope::{spec_globals, GlobalAnalysis};
use crate::loader::ModuleRecord;
use crate::oset::{oset_add, oset_union, OrderedSet};

verus! {

/// The mathematical value of one package's policy entry.
pub struct PackagePolicyModel {
    pub package: Seq<char>,
    pub globals: Seq<Seq<char>>,
    pub builtins: Seq<Seq<char>>,
    pub packages: Seq<Seq<char>>,
}

/// The policy entry of one package: its ordered global names, ordered
/// canonical builtin symbols, and ordered dependency packages.
pub struct PackagePolicy {
    pub package: String,
    pub globals: OrderedSet,
    pub builtins: OrderedSet,
    pub packages: OrderedSet,
}

impl View for PackagePolicy {
    type V = PackagePolicyModel;

    open spec fn view(&self) -> PackagePolicyModel {
        PackagePolicyModel {
            package: self.package@,
            globals: self.globals@,
            builtins: self.builtins@,
            packages: self.packages@,
        }
    }
}

/// The values of a sequence of policy entries.
pub open spec fn policy_view(es: Seq<PackagePolicy>) -> Seq<PackagePolicyModel> {
    es.map(|i: int, e: PackagePolicy| e@)
}

/// The dependency set after recording the first `i` resolved targets
/// of a module owned by `pkg`: a target in another package is added,
/// a self edge is dropped.
pub open spec fn deps_fold(d: Seq<Seq<char>>, ts: Seq<String>, pkg: Seq<char>, i: int) -> Seq<
    Seq<char>,
>
    decreases i,
{
    if i <= 0 || i > ts.len() {
        d
    } else {
        let d1 = deps_fold(d, ts, pkg, i - 1);
        if ts[i - 1]@ == pkg {
            d1
        } else {
            oset_add(d1, ts[i - 1]@)
        }
    }
}

/// The first index at or after `i` whose entry belongs to `pkg`, or
/// -1.
pub open spec fn find_from(es: Seq<PackagePolicyModel>, pkg: Seq<char>, i: int) -> int
    decreases es.len() - i,
{
    if i < 0 || i >= es.len() {
        -1
    } else if es[i].package == pkg {
        i
    } else {
        find_from(es, pkg, i + 1)
    }
}

/// Fold one module's analysis results into the entries: the entry of
/// its package is created on first sight, in encounter order, and
/// merged by set union afterwards.
pub open spec fn merge_module(
    es: Seq<PackagePolicyModel>,
    r: ModuleRecord,
    reg: Seq<Seq<char>>,
) -> Seq<PackagePolicyModel> {
    let g = spec_globals(r.module);
    let b = crate::builtin::spec_builtins(r.module, reg);
    let k = find_from(es, r.package@, 0);
    if k == -1 {
        es.push(
            PackagePolicyModel {
                package: r.package@,
                globals: g,
                builtins: b,
                packages: deps_fold(
                    Seq::empty(),
                    r.targets@,
                    r.package@,
                    r.targets@.len() as int,
                ),
            },
        )
    } else {
        es.update(
            k,
            PackagePolicyModel {
                package: r.package@,
                globals: oset_union(es[k].globals, g, g.len() as int),
                builtins: oset_union(es[k].builtins, b, b.len() as int),
                packages: deps_fold(es[k].packages, r.targets@, r.package@, r.targets@.len() as int),
            },
        )
    }
}

/// The entries after folding the first `i` records into `acc`.
pub open spec fn spec_policy_from(
    records: Seq<ModuleRecord>,
    reg: Seq<Seq<char>>,
    i: int,
    acc: Seq<PackagePolicyModel>,
) -> Seq<PackagePolicyModel>
    decreases i,
{
    if i <= 0 || i > records.len() {
        acc
    } else {
        merge_module(spec_policy_from(records, reg, i - 1, acc), records[i - 1], reg)
    }
}

/// The policy of a whole module graph.
pub open spec fn spec_policy(records: Seq<ModuleRecord>, reg: Seq<Seq<char>>) -> Seq<
    PackagePolicyModel,
> {
    spec_policy_from(records, reg, records.len() as int, Seq::empty())
}

/// The finished policy document: one entry per package, in first-seen
/// order.
pub struct Policy {
    pub entries: Vec<PackagePolicy>,
}

impl View for Policy {
    type V = Seq<PackagePolicyModel>;

    open spec fn view(&self) -> Seq<PackagePolicyModel> {
        policy_view(self.entries@)
    }
}

/// Find the entry of a package, scanning in entry order.
fn find_entry(entries: &Vec<PackagePolicy>, pkg: &String) -> (r: Option<usize>)
    ensures
        (match r {
            Option::Some(k) => k < entries@.len() && find_from(policy_view(entries@), pkg@, 0)
                == k as int && policy_view(entries@)[k as int].package == pkg@,
            Option::None => find_from(policy_view(entries@), pkg@, 0) == -1,
        }),
{
    let mut i: usize = 0;
    while i < entries.len()
        invariant
            i <= entries.len(),
            find_from(policy_view(entries@), pkg@, 0) == find_from(
                policy_view(entries@),
                pkg@,
                i as int,
            ),
        decreases entries.len() - i,
    {
        let e = &entries[i];
        if e.package.eq(pkg) {
            proof {
                assert(policy_view(entries@)[i as int] == entries@[i as int]@);
            }
            return Option::Some(i);
        }
        proof {
            assert(policy_view(entries@)[i as int] == entries@[i as int]@);
        }
        i = i + 1;
    }
    Option::None
}

/// Record the resolved targets of one module as dependency edges,
/// dropping self edges.
fn add_deps(d: &mut OrderedSet, ts: &Vec<String>, pkg: &String, i: usize)
    requires
        i <= ts.len(),
    ensures
        final(d)@ == deps_fold(old(d)@, ts@, pkg@, i as int),
    decreases i,
{
    if i > 0 {
        add_deps(d, ts, pkg, i - 1);
        let t = &ts[i - 1];
        if !t.eq(pkg) {
            d.insert(t.clone());
        }
    }
}

/// Analyze one module and fold its results into the entries.
fn add_module(entries: &mut Vec<PackagePolicy>, rec: &ModuleRecord, analysis: &BuiltinAnalysis)
    ensures
        policy_view(final(entries)@) == merge_module(policy_view(old(entries)@), *rec, analysis@),
{
    let ga = GlobalAnalysis::new();
    let g = ga.analyze(&rec.module);
    let b = analysis.analyze(&rec.module);
    match find_entry(entries, &rec.package) {
        Option::Some(k) => {
            let ghost es0 = policy_view(old(entries)@);
            let mut e = entries.remove(k);
            proof {
                assert(es0[k as int] == old(entries)@[k as int]@);
            }
            e.globals.union_with(&g);
            e.builtins.union_with(&b);
            add_deps(&mut e.packages, &rec.targets, &rec.package, rec.targets.len());
            let ghost ev = e@;
            entries.insert(k, e);
            proof {
                assert(entries@ =~= old(entries)@.update(k as int, entries@[k as int]));
                assert(entries@[k as int]@ == ev);
                assert(policy_view(entries@) =~= es0.update(k as int, ev));
                assert(ev == merge_module(es0, *rec, analysis@)[k as int]);
                assert(policy_view(entries@) =~= merge_module(es0, *rec, analysis@));
            }
        },
        Option::None => {
            let mut pkgs = OrderedSet::new();
            add_deps(&mut pkgs, &rec.targets, &rec.package, rec.targets.len());
            entries.push(
                PackagePolicy {
                    package: rec.package.clone(),
                    globals: g,
                    builtins: b,
                    packages: pkgs,
                },
            );
            proof {
                assert(policy_view(entries@) =~= policy_view(old(entries)@).push(
                    entries@[entries@.len() - 1]@,
                ));
            }
        },
    }
}

/// Builds the policy of a module graph in three phases: the records
/// are loaded by the dependency-graph collaborator and handed to
/// `new`; `analyze` folds both analyses over every module; `finalize`
/// returns the finished document.
pub struct PolicyBuilder {
    records: Vec<ModuleRecord>,
    analysis: BuiltinAnalysis,
    entries: Vec<PackagePolicy>,
}

impl PolicyBuilder {
    /// The loaded module records.
    pub closed spec fn records_view(&self) -> Seq<ModuleRecord> {
        self.records@
    }

    /// The builtin registry in use.
    pub closed spec fn registry_view(&self) -> Seq<Seq<char>> {
        self.analysis@
    }

    /// The policy entries built so far.
    pub closed spec fn entries_view(&self) -> Seq<PackagePolicyModel> {
        policy_view(self.entries@)
    }

    /// A builder over a loaded module graph and a builtin registry.
    pub fn new(records: Vec<ModuleRecord>, registry: crate::builtin::BuiltinRegistry) -> (r: Self)
        ensures
            r.records_view() == records@,
            r.registry_view() == registry@,
            r.entries_view() == Seq::<PackagePolicyModel>::empty(),
    {
        let r = PolicyBuilder {
            records,
            analysis: BuiltinAnalysis::new(registry),
            entries: Vec::new(),
        };
        proof {
            assert(policy_view(Seq::<PackagePolicy>::empty()) =~= Seq::<
                PackagePolicyModel,
            >::empty());
        }
        r
    }

    /// Run both analyses over every module and fold the results into
    /// per-package entries.
    pub fn analyze(self) -> (r: Self)
        ensures
            r.records_view() == self.records_view(),
            r.registry_view() == self.registry_view(),
            r.entries_view() == spec_policy_from(
                self.records_view(),
                self.registry_view(),
                self.records_view().len() as int,
                self.entries_view(),
            ),
    {
        let PolicyBuilder { records, analysis, mut entries } = self;
        let mut i: usize = 0;
        while i < records.len()
            invariant
                i <= records.len(),
                policy_view(entries@) == spec_policy_from(
                    records@,
                    analysis@,
                    i as int,
                    policy_view(self.entries@),
                ),
            decreases records.len() - i,
        {
            add_module(&mut entries, &records[i], &analysis);
            i = i + 1;
        }
        PolicyBuilder { records, analysis, entries }
    }

    /// Return the finished, immutable policy document.
    pub fn finalize(self) -> (r: Policy)
        ensures
            r@ == self.entries_view(),
    {
        Policy { entries: self.entries }
    }
}

/// No entry lists its own package among its dependencies.
pub open spec fn no_self_dependency(es: Seq<PackagePolicyModel>) -> bool {
    forall|k: int|
        0 <= k < es.len() ==> !(#[trigger] es[k]).packages.contains(es[k].package)
}

proof fn lemma_deps_fold_no_self(d: Seq<Seq<char>>, ts: Seq<String>, pkg: Seq<char>, i: int)
    requires
        !d.contains(pkg),
    ensures
        !deps_fold(d, ts, pkg, i).contains(pkg),
    decreases i,
{
    if 0 < i <= ts.len() {
        lemma_deps_fold_no_self(d, ts, pkg, i - 1);
        if ts[i - 1]@ != pkg {
            crate::oset::lemma_add_contains_iff(deps_fold(d, ts, pkg, i - 1), ts[i - 1]@, pkg);
        }
    }
}

proof fn lemma_find_from_found(es: Seq<PackagePolicyModel>, pkg: Seq<char>, i: int)
    ensures
        find_from(es, pkg, i) == -1 || (i <= find_from(es, pkg, i) < es.len() && es[find_from(
            es,
            pkg,
            i,
        )].package == pkg),
    decreases es.len() - i,
{
    if 0 <= i < es.len() {
        if es[i].package != pkg {
            lemma_find_from_found(es, pkg, i + 1);
        }
    }
}

proof fn lemma_merge_no_self(es: Seq<PackagePolicyModel>, r: ModuleRecord, reg: Seq<Seq<char>>)
    requires
        no_self_dependency(es),
    ensures
        no_self_dependency(merge_module(es, r, reg)),
{
    let k = find_from(es, r.package@, 0);
    lemma_find_from_found(es, r.package@, 0);
    if k == -1 {
        lemma_deps_fold_no_self(
            Seq::empty(),
            r.targets@,
            r.package@,
            r.targets@.len() as int,
        );
    } else {
        assert(!es[k].packages.contains(es[k].package));
        lemma_deps_fold_no_self(es[k].packages, r.targets@, r.package@, r.targets@.len() as int);
    }
}

proof fn lemma_policy_from_no_self(
    records: Seq<ModuleRecord>,
    reg: Seq<Seq<char>>,
    i: int,
    acc: Seq<PackagePolicyModel>,
)
    requires
        no_self_dependency(acc),
    ensures
        no_self_dependency(spec_policy_from(records, reg, i, acc)),
    decreases i,
{
    if 0 < i <= records.len() {
        lemma_policy_from_no_self(records, reg, i - 1, acc);
        lemma_merge_no_self(spec_policy_from(records, reg, i - 1, acc), records[i - 1], reg);
    }
}

/// No package depends on itself: self edges are dropped during
/// aggregation, so no entry of a built policy lists its own package.
pub proof fn lemma_policy_no_self_dependency(records: Seq<ModuleRecord>, reg: Seq<Seq<char>>)
    ensures
        no_self_dependency(spec_policy(records, reg)),
{
    lemma_policy_from_no_self(
        records,
        reg,
        records.len() as int,
        Seq::<PackagePolicyModel>::empty(),
    );
}

/// Every set of every entry is an ordered set proper: free of
/// duplicates.
pub open spec fn entry_sets_distinct(es: Seq<PackagePolicyModel>) -> bool {
    forall|k: int|
        0 <= k < es.len() ==> crate::oset::distinct((#[trigger] es[k]).globals)
            && crate::oset::distinct(es[k].builtins) && crate::oset::distinct(es[k].packages)
}

proof fn lemma_deps_fold_distinct(d: Seq<Seq<char>>, ts: Seq<String>, pkg: Seq<char>, i: int)
    requires
        crate::oset::distinct(d),
    ensures
        crate::oset::distinct(deps_fold(d, ts, pkg, i)),
    decreases i,
{
    if 0 < i <= ts.len() {
        lemma_deps_fold_distinct(d, ts, pkg, i - 1);
        if ts[i - 1]@ != pkg {
            crate::oset::lemma_add_distinct(deps_fold(d, ts, pkg, i - 1), ts[i - 1]@);
        }
    }
}

proof fn lemma_merge_sets_distinct(es: Seq<PackagePolicyModel>, r: ModuleRecord, reg: Seq<Seq<char>>)
    requires
        entry_sets_distinct(es),
    ensures
        entry_sets_distinct(merge_module(es, r, reg)),
{
    let g = spec_globals(r.module);
    let b = crate::builtin::spec_builtins(r.module, reg);
    let k = find_from(es, r.package@, 0);
    crate::laws::lemma_globals_no_duplicates(r.module);
    crate::builtin::lemma_builtins_no_duplicates(r.module, reg);
    if k == -1 {
        lemma_deps_fold_distinct(Seq::empty(), r.targets@, r.package@, r.targets@.len() as int);
    } else {
        lemma_find_from_found(es, r.package@, 0);
        crate::oset::lemma_union_distinct(es[k].globals, g, g.len() as int);
        crate::oset::lemma_union_distinct(es[k].builtins, b, b.len() as int);
        lemma_deps_fold_distinct(es[k].packages, r.targets@, r.package@, r.targets@.len() as int);
    }
}

proof fn lemma_policy_from_sets_distinct(
    records: Seq<ModuleRecord>,
    reg: Seq<Seq<char>>,
    i: int,
    acc: Seq<PackagePolicyModel>,
)
    requires
        entry_sets_distinct(acc),
    ensures
        entry_sets_distinct(spec_policy_from(records, reg, i, acc)),
    decreases i,
{
    if 0 < i <= records.len() {
        lemma_policy_from_sets_distinct(records, reg, i - 1, acc);
        lemma_merge_sets_distinct(spec_policy_from(records, reg, i - 1, acc), records[i - 1], reg);
    }
}

/// In a built policy every global, builtin and dependency set is free
/// of duplicates: each name stands once, at its first occurrence.
pub proof fn lemma_policy_sets_distinct(records: Seq<ModuleRecord>, reg: Seq<Seq<char>>)
    ensures
        entry_sets_distinct(spec_policy(records, reg)),
{
    lemma_policy_from_sets_distinct(
        records,
        reg,
        records.len() as int,
        Seq::<PackagePolicyModel>::empty(),
    );
}

/// Building a policy is deterministic: over one module graph and one
/// registry, two builds produce the same document.
pub proof fn lemma_policy_deterministic(
    p1: Seq<PackagePolicyModel>,
    p2: Seq<PackagePolicyModel>,
    records: Seq<ModuleRecord>,
    reg: Seq<Seq<char>>,
)
    requires
        p1 == spec_policy(records, reg),
        p2 == spec_policy(records, reg),
    ensures
        p1 == p2,
{
}

} // verus!
