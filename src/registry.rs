//! Plugin discovery: which files are plugin libraries, and the mapping from
//! the name that each plugin reports to the path of its library.
//!
//! Walking the directory tree and opening each library are left to the
//! caller; this module decides on the values those steps produce.

use vstd::prelude::*;
use crate::text::{eq_ignore_ascii_case, same_ignoring_ascii_case, text_eq};

verus! {

/// Whether a file extension is the native library suffix; compared without
/// regard to ASCII case on systems whose file names ignore case.
pub open spec fn extension_matches_spec(ext: Seq<char>, suffix: Seq<char>, ignore_case: bool) -> bool {
    if ignore_case {
        same_ignoring_ascii_case(ext, suffix)
    } else {
        ext == suffix
    }
}

/// Whether a file extension is the native library suffix.
pub fn extension_matches(ext: &str, suffix: &str, ignore_case: bool) -> (r: bool)
    ensures
        r == extension_matches_spec(ext@, suffix@, ignore_case),
{
    if ignore_case {
        eq_ignore_ascii_case(ext, suffix)
    } else {
        text_eq(ext, suffix)
    }
}

/// A file met while walking the plugin directory: its path and the
/// extension of its name, if it has one.
pub struct LibraryFile {
    pub path: String,
    pub extension: Option<String>,
}

/// The file is a plugin library candidate.
pub open spec fn is_library(f: LibraryFile, suffix: Seq<char>, ignore_case: bool) -> bool {
    match f.extension {
        Some(e) => extension_matches_spec(e@, suffix, ignore_case),
        None => false,
    }
}

/// The paths of the library candidates among `files`, in their order.
pub open spec fn library_paths(files: Seq<LibraryFile>, suffix: Seq<char>, ignore_case: bool) -> Seq<
    Seq<char>,
>
    decreases files.len(),
{
    if files.len() == 0 {
        Seq::empty()
    } else {
        let rest = library_paths(files.drop_last(), suffix, ignore_case);
        if is_library(files.last(), suffix, ignore_case) {
            rest.push(files.last().path@)
        } else {
            rest
        }
    }
}

/// Keeps the files whose extension is the native library suffix, in the
/// order in which they were met.
pub fn select_libraries(files: &Vec<LibraryFile>, suffix: &str, ignore_case: bool) -> (r: Vec<String>)
    ensures
        r@.map_values(|p: String| p@) == library_paths(files@, suffix@, ignore_case),
{
    let mut out: Vec<String> = Vec::new();
    let n = files.len();
    let mut i: usize = 0;
    while i < n
        invariant
            n == files@.len(),
            i <= n,
            out@.map_values(|p: String| p@) == library_paths(
                files@.subrange(0, i as int),
                suffix@,
                ignore_case,
            ),
        decreases n - i,
    {
        proof {
            assert(files@.subrange(0, i + 1).drop_last() =~= files@.subrange(0, i as int));
        }
        let f = &files[i];
        let keep = match &f.extension {
            Some(e) => extension_matches(e.as_str(), suffix, ignore_case),
            None => false,
        };
        if keep {
            let ghost before = out@;
            out.push(f.path.clone());
            proof {
                assert(out@.map_values(|p: String| p@) =~= before.map_values(|p: String| p@).push(
                    f.path@,
                ));
            }
        }
        i = i + 1;
    }
    proof {
        assert(files@.subrange(0, n as int) =~= files@);
    }
    out
}

/// A library file, with the name its plugin reported, or none when it
/// could not be opened, lacks the name entry point, or reported no name.
pub struct PluginCandidate {
    pub path: String,
    pub name: Option<String>,
}

/// The candidate reported the name `k`.
pub open spec fn reports(c: PluginCandidate, k: Seq<char>) -> bool {
    c.name matches Some(n) && n@ == k
}

/// The registry that discovery builds from the candidates, in the order in
/// which they were met: each reported name maps to the path of its library,
/// and a later candidate with the same name replaces an earlier one.
pub open spec fn registry_of(c: Seq<PluginCandidate>) -> Map<Seq<char>, Seq<char>>
    decreases c.len(),
{
    if c.len() == 0 {
        Map::empty()
    } else {
        let m = registry_of(c.drop_last());
        match c.last().name {
            Some(n) => m.insert(n@, c.last().path@),
            None => m,
        }
    }
}

proof fn lemma_registry_dom(c: Seq<PluginCandidate>, k: Seq<char>)
    ensures
        registry_of(c).contains_key(k) <==> exists|i: int| 0 <= i < c.len() && #[trigger] reports(c[i], k),
    decreases c.len(),
{
    if c.len() > 0 {
        let d = c.drop_last();
        let last = c.len() - 1;
        lemma_registry_dom(d, k);
        if exists|i: int| 0 <= i < d.len() && #[trigger] reports(d[i], k) {
            let i = choose|i: int| 0 <= i < d.len() && #[trigger] reports(d[i], k);
            assert(d[i] == c[i]);
        }
        if !reports(c[last], k) {
            if exists|i: int| 0 <= i < c.len() && #[trigger] reports(c[i], k) {
                let i = choose|i: int| 0 <= i < c.len() && #[trigger] reports(c[i], k);
                assert(d[i] == c[i]);
            }
        }
    }
}

proof fn lemma_registry_value(c: Seq<PluginCandidate>, k: Seq<char>, j: int)
    requires
        0 <= j < c.len(),
        reports(c[j], k),
        forall|l: int| j < l < c.len() ==> !#[trigger] reports(c[l], k),
    ensures
        registry_of(c).contains_key(k),
        registry_of(c)[k] == c[j].path@,
    decreases c.len(),
{
    let d = c.drop_last();
    let last = c.len() - 1;
    if j < last {
        assert(!reports(c[last], k));
        assert(d[j] == c[j]);
        assert forall|l: int| j < l < d.len() implies !#[trigger] reports(d[l], k) by {
            assert(d[l] == c[l]);
            assert(!reports(c[l], k));
        }
        lemma_registry_value(d, k, j);
    }
}

/// The registry holds exactly the names that some candidate reported, and
/// each maps to the path of the last candidate that reported it; candidates
/// that reported nothing leave no trace.
pub proof fn lemma_registry_of(c: Seq<PluginCandidate>, k: Seq<char>)
    ensures
        registry_of(c).contains_key(k) <==> exists|i: int| 0 <= i < c.len() && #[trigger] reports(c[i], k),
        forall|j: int|
            0 <= j < c.len() && #[trigger] reports(c[j], k) && (forall|l: int|
                j < l < c.len() ==> !reports(c[l], k)) ==> registry_of(c)[k] == c[j].path@,
{
    lemma_registry_dom(c, k);
    assert forall|j: int|
        0 <= j < c.len() && #[trigger] reports(c[j], k) && (forall|l: int|
            j < l < c.len() ==> !reports(c[l], k)) implies registry_of(c)[k] == c[j].path@ by {
        lemma_registry_value(c, k, j);
    }
}

/// The map that a list of entries stands for, later entries first.
pub open spec fn entries_map(e: Seq<(String, String)>) -> Map<Seq<char>, Seq<char>>
    decreases e.len(),
{
    if e.len() == 0 {
        Map::empty()
    } else {
        entries_map(e.drop_last()).insert(e.last().0@, e.last().1@)
    }
}

/// No two entries share a name.
pub open spec fn unique_names(e: Seq<(String, String)>) -> bool {
    forall|i: int, j: int| 0 <= i < j < e.len() ==> (#[trigger] e[i]).0@ != (#[trigger] e[j]).0@
}

proof fn lemma_entries_map_dom(e: Seq<(String, String)>, k: Seq<char>)
    ensures
        entries_map(e).contains_key(k) <==> exists|i: int| 0 <= i < e.len() && (#[trigger] e[i]).0@ == k,
    decreases e.len(),
{
    if e.len() > 0 {
        let d = e.drop_last();
        lemma_entries_map_dom(d, k);
        if exists|i: int| 0 <= i < d.len() && (#[trigger] d[i]).0@ == k {
            let i = choose|i: int| 0 <= i < d.len() && (#[trigger] d[i]).0@ == k;
            assert(e[i] == d[i]);
        }
        if exists|i: int| 0 <= i < e.len() && (#[trigger] e[i]).0@ == k {
            let i = choose|i: int| 0 <= i < e.len() && (#[trigger] e[i]).0@ == k;
            if i < e.len() - 1 {
                assert(d[i] == e[i]);
            }
        }
    }
}

proof fn lemma_entries_map_update(e: Seq<(String, String)>, i: int, x: (String, String))
    requires
        unique_names(e),
        0 <= i < e.len(),
        e[i].0@ == x.0@,
    ensures
        entries_map(e.update(i, x)) == entries_map(e).insert(x.0@, x.1@),
        unique_names(e.update(i, x)),
    decreases e.len(),
{
    let u = e.update(i, x);
    let d = e.drop_last();
    let last = e.len() - 1;
    assert forall|a: int, b: int| 0 <= a < b < u.len() implies (#[trigger] u[a]).0@ != (
    #[trigger] u[b]).0@ by {
        assert(u[a].0@ == e[a].0@);
        assert(u[b].0@ == e[b].0@);
    }
    if i == last {
        assert(u.drop_last() =~= d);
        assert(entries_map(u) =~= entries_map(e).insert(x.0@, x.1@));
    } else {
        assert(u.drop_last() =~= d.update(i, x));
        assert(unique_names(d));
        lemma_entries_map_update(d, i, x);
        assert(e[last].0@ != x.0@);
        assert(entries_map(u) =~= entries_map(e).insert(x.0@, x.1@));
    }
}

/// The mapping from plugin name to library path. Names are unique; the
/// entries keep the order in which names were first met.
pub struct PluginRegistry {
    entries: Vec<(String, String)>,
}

impl View for PluginRegistry {
    type V = Map<Seq<char>, Seq<char>>;

    closed spec fn view(&self) -> Map<Seq<char>, Seq<char>> {
        entries_map(self.entries@)
    }
}

impl PluginRegistry {
    #[verifier::type_invariant]
    spec fn names_unique(&self) -> bool {
        unique_names(self.entries@)
    }

    /// An empty registry.
    pub fn new() -> (r: PluginRegistry)
        ensures
            r@ == Map::<Seq<char>, Seq<char>>::empty(),
    {
        PluginRegistry { entries: Vec::new() }
    }

    /// Maps `name` to `path`, replacing any earlier path of that name.
    pub fn insert(&mut self, name: String, path: String)
        ensures
            final(self)@ == old(self)@.insert(name@, path@),
    {
        proof {
            use_type_invariant(&*self);
        }
        let mut taken = PluginRegistry::new();
        std::mem::swap(self, &mut taken);
        let PluginRegistry { entries: mut entries } = taken;
        let n = entries.len();
        let mut i: usize = 0;
        while i < n
            invariant
                n == entries@.len(),
                i <= n,
                entries@ == old(self).entries@,
                unique_names(entries@),
                forall|j: int| 0 <= j < i ==> (#[trigger] entries@[j]).0@ != name@,
            decreases n - i,
        {
            if entries[i].0 == name {
                let ghost e = entries@;
                let ghost x = (name, path);
                proof {
                    lemma_entries_map_update(e, i as int, x);
                }
                entries.set(i, (name, path));
                *self = PluginRegistry { entries };
                return;
            }
            i = i + 1;
        }
        let ghost e = entries@;
        proof {
            lemma_entries_map_dom(e, name@);
        }
        entries.push((name, path));
        proof {
            assert(entries@.drop_last() =~= e);
            assert forall|a: int, b: int| 0 <= a < b < entries@.len() implies (
            #[trigger] entries@[a]).0@ != (#[trigger] entries@[b]).0@ by {
                if b == n {
                    assert(entries@[a] == e[a]);
                }
            }
        }
        *self = PluginRegistry { entries };
    }

    /// The library path of a plugin name.
    pub fn get(&self, name: &String) -> (r: Option<&String>)
        ensures
            match r {
                Some(p) => self@.contains_key(name@) && p@ == self@[name@],
                None => !self@.contains_key(name@),
            },
    {
        proof {
            use_type_invariant(self);
        }
        let n = self.entries.len();
        let mut i: usize = 0;
        while i < n
            invariant
                n == self.entries@.len(),
                i <= n,
                unique_names(self.entries@),
                forall|j: int| 0 <= j < i ==> (#[trigger] self.entries@[j]).0@ != name@,
            decreases n - i,
        {
            if self.entries[i].0 == *name {
                proof {
                    lemma_entries_lookup(self.entries@, i as int);
                }
                return Some(&self.entries[i].1);
            }
            i = i + 1;
        }
        proof {
            lemma_entries_map_dom(self.entries@, name@);
        }
        None
    }

    /// The number of names.
    pub fn len(&self) -> (r: usize)
        ensures
            r == self@.len(),
    {
        proof {
            use_type_invariant(self);
            lemma_entries_len(self.entries@);
        }
        self.entries.len()
    }

    /// The (name, path) pairs, each name once.
    pub fn entries(&self) -> (r: &Vec<(String, String)>)
        ensures
            entries_map(r@) == self@,
            unique_names(r@),
    {
        proof {
            use_type_invariant(self);
        }
        &self.entries
    }
}

proof fn lemma_entries_lookup(e: Seq<(String, String)>, i: int)
    requires
        unique_names(e),
        0 <= i < e.len(),
    ensures
        entries_map(e).contains_key(e[i].0@),
        entries_map(e)[e[i].0@] == e[i].1@,
    decreases e.len(),
{
    let d = e.drop_last();
    if i < e.len() - 1 {
        assert(d[i] == e[i]);
        assert(unique_names(d));
        lemma_entries_lookup(d, i);
        assert(e[e.len() - 1].0@ != e[i].0@);
    }
}

proof fn lemma_entries_len(e: Seq<(String, String)>)
    requires
        unique_names(e),
    ensures
        entries_map(e).dom().finite(),
        entries_map(e).len() == e.len(),
    decreases e.len(),
{
    if e.len() > 0 {
        let d = e.drop_last();
        assert(unique_names(d));
        lemma_entries_len(d);
        lemma_entries_map_dom(d, e.last().0@);
        if entries_map(d).contains_key(e.last().0@) {
            let i = choose|i: int| 0 <= i < d.len() && (#[trigger] d[i]).0@ == e.last().0@;
            assert(e[i] == d[i]);
        }
    }
}

/// Builds the registry from the candidates, in the order in which they
/// were met.
pub fn build_registry(candidates: &Vec<PluginCandidate>) -> (r: PluginRegistry)
    ensures
        r@ == registry_of(candidates@),
{
    let mut registry = PluginRegistry::new();
    let n = candidates.len();
    let mut i: usize = 0;
    while i < n
        invariant
            n == candidates@.len(),
            i <= n,
            registry@ == registry_of(candidates@.subrange(0, i as int)),
        decreases n - i,
    {
        proof {
            assert(candidates@.subrange(0, i + 1).drop_last() =~= candidates@.subrange(0, i as int));
        }
        let c = &candidates[i];
        match &c.name {
            Some(name) => {
                registry.insert(name.clone(), c.path.clone());
            },
            None => {},
        }
        i = i + 1;
    }
    proof {
        assert(candidates@.subrange(0, n as int) =~= candidates@);
    }
    registry
}

} // verus!
