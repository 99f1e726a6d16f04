//! The resolution authority for one compile: an import table consulted per
//! specifier, the dependency ledger it accumulates, and the star-export set
//! that exempts wildcard re-exports from pruning.

use vstd::prelude::*;

verus! {

use vstd::string::StringExecFns;

/// One resolved dependency discovered during the rewrite walk.
#[derive(Debug, Clone, PartialEq, Eq)]
pub struct DependencyDescriptor {
    /// The resolved URL the specifier was rewritten to.
    pub specifier: String,
    /// Whether the dependency came from a dynamic `import(...)` call.
    pub is_dynamic: bool,
}

pub ghost struct DependencyView {
    pub specifier: Seq<char>,
    pub is_dynamic: bool,
}

impl DependencyDescriptor {
    pub open spec fn view(self) -> DependencyView {
        DependencyView { specifier: self.specifier@, is_dynamic: self.is_dynamic }
    }
}

/// The syntactic site a specifier was found at.
#[derive(Debug, Clone, Copy, PartialEq, Eq)]
pub enum OccurrenceKind {
    StaticImport,
    NamedReexport,
    StarReexport,
    DynamicImport,
}

/// A specifier the import table cannot map; fatal to the compile.
#[derive(Debug)]
pub struct ResolutionError {
    pub specifier: String,
    pub occurrence: OccurrenceKind,
}

/// First-match lookup in an association list of (raw specifier, resolved URL).
pub open spec fn lookup_spec(table: Seq<(Seq<char>, Seq<char>)>, key: Seq<char>) -> Option<
    Seq<char>,
>
    decreases table.len(),
{
    if table.len() == 0 {
        None
    } else if table[0].0 == key {
        Some(table[0].1)
    } else {
        lookup_spec(table.drop_first(), key)
    }
}

/// A prefix without a match does not change what lookup finds.
proof fn lemma_lookup_skip(table: Seq<(Seq<char>, Seq<char>)>, key: Seq<char>, i: int)
    requires
        0 <= i <= table.len(),
        forall|j: int| 0 <= j < i ==> table[j].0 != key,
    ensures
        lookup_spec(table, key) == lookup_spec(table.skip(i), key),
    decreases i,
{
    if i > 0 {
        assert(table.skip(0) =~= table);
        lemma_lookup_skip(table.drop_first(), key, i - 1);
        assert(table.drop_first().skip(i - 1) =~= table.skip(i));
    } else {
        assert(table.skip(0) =~= table);
    }
}

/// The resolution authority: owns the import table, the dependency ledger and
/// the star-export set for one compile.
pub struct Resolver {
    /// Raw specifier to resolved URL, first match winning.
    pub table: Vec<(String, String)>,
    /// Whether the module being compiled was itself fetched from a remote URL.
    pub specifier_is_remote: bool,
    /// Dependencies in discovery order.
    pub deps: Vec<DependencyDescriptor>,
    /// Resolved URLs that appear in wildcard re-exports.
    pub star_exports: Vec<String>,
}

impl Resolver {
    pub open spec fn table_view(self) -> Seq<(Seq<char>, Seq<char>)> {
        self.table@.map_values(|p: (String, String)| (p.0@, p.1@))
    }

    pub open spec fn deps_view(self) -> Seq<DependencyView> {
        self.deps@.map_values(|d: DependencyDescriptor| d.view())
    }

    pub open spec fn stars_view(self) -> Seq<Seq<char>> {
        self.star_exports@.map_values(|s: String| s@)
    }

    /// A fresh authority over the given import table.
    pub fn new(table: Vec<(String, String)>, specifier_is_remote: bool) -> (r: Resolver)
        ensures
            r.table == table,
            r.specifier_is_remote == specifier_is_remote,
            r.deps_view() == Seq::<DependencyView>::empty(),
            r.stars_view() == Seq::<Seq<char>>::empty(),
    {
        let r = Resolver { table, specifier_is_remote, deps: Vec::new(), star_exports: Vec::new() };
        proof {
            assert(r.deps_view() =~= Seq::<DependencyView>::empty());
            assert(r.stars_view() =~= Seq::<Seq<char>>::empty());
        }
        r
    }

    /// Maps a raw specifier to its resolved URL and records the dependency,
    /// or reports that the table cannot map it (`None`), leaving all state
    /// unchanged.
    pub fn resolve(&mut self, specifier: &str, is_dynamic: bool) -> (r: Option<String>)
        ensures
            final(self).table == old(self).table,
            final(self).specifier_is_remote == old(self).specifier_is_remote,
            final(self).star_exports == old(self).star_exports,
            r is Some <==> lookup_spec(old(self).table_view(), specifier@) is Some,
            match r {
                Some(url) => lookup_spec(old(self).table_view(), specifier@) == Some(url@)
                    && final(self).deps_view() == old(self).deps_view().push(
                    DependencyView { specifier: url@, is_dynamic },
                ),
                None => *final(self) == *old(self),
            },
    {
        let ghost table_v = self.table_view();
        let wanted = String::from_str(specifier);
        let n = self.table.len();
        let mut i: usize = 0;
        while i < n
            invariant
                *self == *old(self),
                n == self.table.len(),
                table_v == self.table_view(),
                wanted@ == specifier@,
                i <= n,
                forall|j: int| 0 <= j < i ==> table_v[j].0 != specifier@,
            decreases n - i,
        {
            if self.table[i].0.eq(&wanted) {
                let url: String = self.table[i].1.clone();
                proof {
                    assert(table_v[i as int] == (self.table@[i as int].0@, self.table@[
                        i as int].1@));
                    lemma_lookup_skip(table_v, specifier@, i as int);
                    assert(table_v.skip(i as int)[0] == table_v[i as int]);
                    assert(lookup_spec(table_v, specifier@) == Some(url@));
                }
                let ghost old_deps = self.deps_view();
                let dep = DependencyDescriptor { specifier: url.clone(), is_dynamic };
                self.deps.push(dep);
                proof {
                    assert(self.deps_view() =~= old_deps.push(
                        DependencyView { specifier: url@, is_dynamic },
                    ));
                }
                return Some(url);
            }
            proof {
                assert(table_v[i as int] == (self.table@[i as int].0@, self.table@[i as int].1@));
            }
            i = i + 1;
        }
        proof {
            lemma_lookup_skip(table_v, specifier@, n as int);
            assert(table_v.skip(n as int) =~= Seq::<(Seq<char>, Seq<char>)>::empty());
        }
        None
    }

    /// Records a resolved URL as reachable through a wildcard re-export.
    pub fn add_star_export(&mut self, url: String)
        ensures
            final(self).table == old(self).table,
            final(self).specifier_is_remote == old(self).specifier_is_remote,
            final(self).deps == old(self).deps,
            final(self).stars_view() == old(self).stars_view().push(url@),
    {
        let ghost old_stars = self.stars_view();
        let ghost url_v = url@;
        self.star_exports.push(url);
        proof {
            assert(self.stars_view() =~= old_stars.push(url_v));
        }
    }
}

} // verus!
