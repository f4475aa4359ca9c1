//! The mathematical model of a manifest: the dependency table as a sequence of
//! records, and the transition functions that the store's operations realise.
use vstd::prelude::*;

verus! {

/// One dependency record: the repository link, the pinned commit, the list of
/// top-level module names, and whether the record carries a well-shaped
/// `top_modules` array (a hand-edited manifest may lack one).
pub type DepEntry = (Seq<char>, Seq<char>, Seq<Seq<char>>, bool);

/// The package metadata, as far as the manifest carries it: name, version,
/// authors, description and license.
pub type PackageModel = (Seq<char>, Seq<char>, Seq<Seq<char>>, Seq<char>, Seq<char>);

pub open spec fn entry_link(e: DepEntry) -> Seq<char> {
    e.0
}

pub open spec fn entry_commit(e: DepEntry) -> Seq<char> {
    e.1
}

pub open spec fn entry_modules(e: DepEntry) -> Seq<Seq<char>> {
    e.2
}

pub open spec fn entry_modules_ok(e: DepEntry) -> bool {
    e.3
}

/// The repository links of the records, in table order.
pub open spec fn links_of(deps: Seq<DepEntry>) -> Seq<Seq<char>> {
    deps.map_values(|e: DepEntry| e.0)
}

pub open spec fn has_link(deps: Seq<DepEntry>, link: Seq<char>) -> bool {
    exists|i: int| 0 <= i < deps.len() && deps[i].0 == link
}

/// The first position at which `link` occurs as a key.
pub open spec fn link_index(deps: Seq<DepEntry>, link: Seq<char>) -> int
    decreases deps.len(),
{
    if deps.len() == 0 {
        0
    } else if deps[0].0 == link {
        0
    } else {
        1 + link_index(deps.subrange(1, deps.len() as int), link)
    }
}

/// No repository link occurs twice as a key.
pub open spec fn unique_links(deps: Seq<DepEntry>) -> bool {
    forall|i: int, j: int| 0 <= i < j < deps.len() ==> deps[i].0 != deps[j].0
}

/// The whole manifest, as far as the store's operations read it: whether a
/// dependency table is present and well-shaped, and its records.
#[verifier::ext_equal]
pub struct ManifestModel {
    pub deps_ok: bool,
    pub deps: Seq<DepEntry>,
}

impl ManifestModel {
    /// A freshly created manifest: an empty dependency table.
    pub open spec fn empty() -> ManifestModel {
        ManifestModel { deps_ok: true, deps: Seq::empty() }
    }

    pub open spec fn wf(self) -> bool {
        self.deps_ok ==> unique_links(self.deps)
    }
}

pub open spec fn new_entry(link: Seq<char>, commit: Seq<char>) -> DepEntry {
    (link, commit, Seq::<Seq<char>>::empty(), true)
}

/// Writing a whole record: an existing key keeps its position, a new key is
/// appended at the end of the table.
pub open spec fn spec_upsert(
    deps: Seq<DepEntry>,
    link: Seq<char>,
    commit: Seq<char>,
    modules: Seq<Seq<char>>,
) -> Seq<DepEntry> {
    if has_link(deps, link) {
        deps.update(link_index(deps, link), (link, commit, modules, true))
    } else {
        deps.push((link, commit, modules, true))
    }
}

/// Replacing one record's module list in place: the link and the commit stay
/// as they are, the record counts as well-shaped afterwards, every other
/// record is untouched.
pub open spec fn spec_set_modules(
    deps: Seq<DepEntry>,
    link: Seq<char>,
    modules: Seq<Seq<char>>,
) -> Seq<DepEntry>
    recommends
        has_link(deps, link),
{
    let i = link_index(deps, link);
    deps.update(i, (deps[i].0, deps[i].1, modules, true))
}

/// Removing the record of one key; the other records keep their order.
pub open spec fn spec_remove_link(deps: Seq<DepEntry>, link: Seq<char>) -> Seq<DepEntry> {
    if has_link(deps, link) {
        deps.remove(link_index(deps, link))
    } else {
        deps
    }
}

/// Adding a dependency: a missing or malformed dependency table is replaced by
/// an empty one; an existing key is left exactly as it was; a new key gets an
/// unpinned-or-pinned record with no top modules.
pub open spec fn spec_add_dependency(
    m: ManifestModel,
    link: Seq<char>,
    commit: Seq<char>,
) -> ManifestModel {
    let base = if m.deps_ok {
        m.deps
    } else {
        Seq::<DepEntry>::empty()
    };
    if has_link(base, link) {
        ManifestModel { deps_ok: true, deps: base }
    } else {
        ManifestModel { deps_ok: true, deps: base.push(new_entry(link, commit)) }
    }
}

pub open spec fn spec_remove_dependency(m: ManifestModel, link: Seq<char>) -> ManifestModel {
    if m.deps_ok && has_link(m.deps, link) {
        ManifestModel { deps_ok: true, deps: spec_remove_link(m.deps, link) }
    } else {
        m
    }
}

/// Adding a top module to an existing dependency: a module already listed is
/// not listed twice; a record without a well-shaped module list gets a fresh
/// one-element list. A missing key leaves the manifest unchanged (the
/// operation reports the error instead).
pub open spec fn spec_add_top_module(
    m: ManifestModel,
    link: Seq<char>,
    module: Seq<char>,
) -> ManifestModel {
    if !m.deps_ok || !has_link(m.deps, link) {
        m
    } else {
        let i = link_index(m.deps, link);
        let e = m.deps[i];
        if e.3 && e.2.contains(module) {
            m
        } else {
            let mods = if e.3 {
                e.2.push(module)
            } else {
                seq![module]
            };
            ManifestModel { deps_ok: true, deps: m.deps.update(i, (link, e.1, mods, true)) }
        }
    }
}

/// The predicate a module-removal filters with: keep every other module name.
pub open spec fn keep_other(module: Seq<char>) -> spec_fn(Seq<char>) -> bool {
    |x: Seq<char>| x != module
}

/// Removing a top module: every occurrence of the name leaves the record's
/// list; a missing key, a missing list or an absent name is a no-op.
pub open spec fn spec_remove_top_module(
    m: ManifestModel,
    link: Seq<char>,
    module: Seq<char>,
) -> ManifestModel {
    if !m.deps_ok || !has_link(m.deps, link) {
        m
    } else {
        let i = link_index(m.deps, link);
        let e = m.deps[i];
        if e.3 && e.2.contains(module) {
            ManifestModel {
                deps_ok: true,
                deps: m.deps.update(i, (link, e.1, e.2.filter(keep_other(module)), true)),
            }
        } else {
            m
        }
    }
}

/// Whether one record supplies the named module.
pub open spec fn provides(e: DepEntry, module: Seq<char>) -> bool {
    e.3 && e.2.contains(module)
}

pub open spec fn provides_pred(module: Seq<char>) -> spec_fn(DepEntry) -> bool {
    |e: DepEntry| provides(e, module)
}

/// The reverse lookup: the links of every record that supplies the module, in
/// table order.
pub open spec fn spec_repo_links(deps: Seq<DepEntry>, module: Seq<char>) -> Seq<Seq<char>> {
    links_of(deps.filter(provides_pred(module)))
}

pub proof fn lemma_link_index(deps: Seq<DepEntry>, link: Seq<char>)
    requires
        has_link(deps, link),
    ensures
        0 <= link_index(deps, link) < deps.len(),
        deps[link_index(deps, link)].0 == link,
        forall|j: int| 0 <= j < link_index(deps, link) ==> deps[j].0 != link,
    decreases deps.len(),
{
    if deps[0].0 == link {
    } else {
        let tail = deps.subrange(1, deps.len() as int);
        let w = choose|i: int| 0 <= i < deps.len() && deps[i].0 == link;
        assert(tail[w - 1] == deps[w]);
        assert(has_link(tail, link));
        lemma_link_index(tail, link);
        assert(deps[link_index(deps, link)] == tail[link_index(tail, link)]);
        assert forall|j: int| 0 <= j < link_index(deps, link) implies deps[j].0 != link by {
            if j > 0 {
                assert(deps[j] == tail[j - 1]);
            }
        }
    }
}

pub proof fn lemma_first_index(deps: Seq<DepEntry>, link: Seq<char>, i: int)
    requires
        0 <= i < deps.len(),
        deps[i].0 == link,
        forall|j: int| 0 <= j < i ==> deps[j].0 != link,
    ensures
        link_index(deps, link) == i,
    decreases deps.len(),
{
    if i == 0 {
    } else {
        let tail = deps.subrange(1, deps.len() as int);
        assert(deps[0].0 != link);
        assert(tail[i - 1] == deps[i]);
        assert forall|j: int| 0 <= j < i - 1 implies tail[j].0 != link by {
            assert(tail[j] == deps[j + 1]);
        }
        lemma_first_index(tail, link, i - 1);
    }
}

/// In a table without repeated keys, looking a record's own link up finds
/// exactly that record.
pub proof fn lemma_link_index_at(deps: Seq<DepEntry>, i: int)
    requires
        unique_links(deps),
        0 <= i < deps.len(),
    ensures
        has_link(deps, deps[i].0),
        link_index(deps, deps[i].0) == i,
{
    assert(has_link(deps, deps[i].0));
    lemma_link_index(deps, deps[i].0);
    let k = link_index(deps, deps[i].0);
    if k < i {
        assert(deps[k].0 != deps[i].0);
    }
}

pub proof fn lemma_upsert_unique(
    deps: Seq<DepEntry>,
    link: Seq<char>,
    commit: Seq<char>,
    modules: Seq<Seq<char>>,
)
    requires
        unique_links(deps),
    ensures
        unique_links(spec_upsert(deps, link, commit, modules)),
{
    let out = spec_upsert(deps, link, commit, modules);
    if has_link(deps, link) {
        lemma_link_index(deps, link);
        assert forall|a: int, b: int| 0 <= a < b < out.len() implies out[a].0 != out[b].0 by {
            assert(out[a].0 == deps[a].0);
            assert(out[b].0 == deps[b].0);
        }
    } else {
        assert forall|a: int, b: int| 0 <= a < b < out.len() implies out[a].0 != out[b].0 by {
            assert(out[a] == deps[a]);
            if b < deps.len() {
                assert(out[b] == deps[b]);
            } else {
                assert(!(0 <= a < deps.len() && deps[a].0 == link));
            }
        }
    }
}

pub proof fn lemma_set_modules_unique(
    deps: Seq<DepEntry>,
    link: Seq<char>,
    modules: Seq<Seq<char>>,
)
    requires
        unique_links(deps),
        has_link(deps, link),
    ensures
        unique_links(spec_set_modules(deps, link, modules)),
{
    lemma_link_index(deps, link);
    let out = spec_set_modules(deps, link, modules);
    assert forall|a: int, b: int| 0 <= a < b < out.len() implies out[a].0 != out[b].0 by {
        assert(out[a].0 == deps[a].0);
        assert(out[b].0 == deps[b].0);
    }
}

pub proof fn lemma_remove_link_unique(deps: Seq<DepEntry>, link: Seq<char>)
    requires
        unique_links(deps),
    ensures
        unique_links(spec_remove_link(deps, link)),
{
    if has_link(deps, link) {
        lemma_link_index(deps, link);
        let i = link_index(deps, link);
        let out = deps.remove(i);
        deps.remove_ensures(i);
        assert forall|a: int, b: int| 0 <= a < b < out.len() implies out[a].0 != out[b].0 by {
            if a < i {
                assert(out[a] == deps[a]);
            } else {
                assert(out[a] == deps[a + 1]);
            }
            if b < i {
                assert(out[b] == deps[b]);
            } else {
                assert(out[b] == deps[b + 1]);
            }
        }
    }
}

/// Filtering distributes over appending one element.
pub proof fn lemma_filter_push<A>(s: Seq<A>, pred: spec_fn(A) -> bool, x: A)
    ensures
        pred(x) ==> s.push(x).filter(pred) == s.filter(pred).push(x),
        !pred(x) ==> s.push(x).filter(pred) == s.filter(pred),
{
    reveal(Seq::filter);
    assert(s.push(x).drop_last() =~= s);
    assert(s.push(x).last() == x);
}

/// Every element of a filtered sequence stems from the sequence itself.
pub proof fn lemma_filter_subset<A>(s: Seq<A>, pred: spec_fn(A) -> bool, j: int)
    requires
        0 <= j < s.filter(pred).len(),
    ensures
        s.contains(s.filter(pred)[j]),
    decreases s.len(),
{
    reveal(Seq::filter);
    if s.len() == 0 {
    } else {
        let sub = s.drop_last().filter(pred);
        if pred(s.last()) && j == sub.len() {
            assert(s.filter(pred)[j] == s.last());
            assert(s[s.len() - 1] == s.last());
        } else {
            lemma_filter_subset(s.drop_last(), pred, j);
            let x = s.drop_last().filter(pred)[j];
            let k = choose|k: int| 0 <= k < s.drop_last().len() && s.drop_last()[k] == x;
            assert(s[k] == x);
        }
    }
}

/// Adding a dependency twice under one key keeps exactly the first call's
/// record: the second call changes nothing, whatever pin it carries.
pub proof fn lemma_add_dependency_idempotent(
    m: ManifestModel,
    link: Seq<char>,
    c1: Seq<char>,
    c2: Seq<char>,
)
    ensures
        spec_add_dependency(spec_add_dependency(m, link, c1), link, c2) == spec_add_dependency(
            m,
            link,
            c1,
        ),
{
    let m1 = spec_add_dependency(m, link, c1);
    let base = if m.deps_ok {
        m.deps
    } else {
        Seq::<DepEntry>::empty()
    };
    if has_link(base, link) {
        assert(spec_add_dependency(m1, link, c2) =~= m1);
    } else {
        assert(m1.deps[base.len() as int].0 == link);
        assert(has_link(m1.deps, link));
        assert(spec_add_dependency(m1, link, c2) =~= m1);
    }
}

/// Adding a top module twice lists it once: the second call changes nothing.
pub proof fn lemma_add_top_module_idempotent(m: ManifestModel, link: Seq<char>, module: Seq<char>)
    ensures
        spec_add_top_module(spec_add_top_module(m, link, module), link, module)
            == spec_add_top_module(m, link, module),
{
    let m1 = spec_add_top_module(m, link, module);
    if m.deps_ok && has_link(m.deps, link) {
        lemma_link_index(m.deps, link);
        let i = link_index(m.deps, link);
        let e = m.deps[i];
        if !(e.3 && e.2.contains(module)) {
            let mods = if e.3 {
                e.2.push(module)
            } else {
                seq![module]
            };
            assert(m1.deps[i].0 == link);
            assert(has_link(m1.deps, link));
            assert forall|j: int| 0 <= j < i implies m1.deps[j].0 != link by {
                assert(m1.deps[j] == m.deps[j]);
            }
            lemma_first_index(m1.deps, link, i);
            assert(mods[mods.len() - 1] == module);
            assert(m1.deps[i].2.contains(module));
        }
    }
}

/// Adding a module and then removing it leaves the record without it; the
/// record's other module names stay, in order, and nothing else moves.
pub proof fn lemma_remove_after_add_top_module(
    m: ManifestModel,
    link: Seq<char>,
    module: Seq<char>,
)
    requires
        m.deps_ok,
        has_link(m.deps, link),
    ensures
        ({
            let i = link_index(m.deps, link);
            let e = m.deps[i];
            let m2 = spec_remove_top_module(spec_add_top_module(m, link, module), link, module);
            let before = if e.3 {
                e.2
            } else {
                Seq::<Seq<char>>::empty()
            };
            &&& m2.deps == m.deps.update(i, (link, e.1, before.filter(keep_other(module)), true))
            &&& !m2.deps[i].2.contains(module)
        }),
{
    let keep = keep_other(module);
    lemma_link_index(m.deps, link);
    let i = link_index(m.deps, link);
    let e = m.deps[i];
    let m1 = spec_add_top_module(m, link, module);
    let m2 = spec_remove_top_module(m1, link, module);
    let before = if e.3 {
        e.2
    } else {
        Seq::<Seq<char>>::empty()
    };
    assert(m1.deps[i].0 == link);
    assert(has_link(m1.deps, link));
    assert forall|j: int| 0 <= j < i implies m1.deps[j].0 != link by {
        assert(m1.deps[j] == m.deps[j]);
    }
    lemma_first_index(m1.deps, link, i);
    if e.3 && e.2.contains(module) {
        assert(m2.deps =~= m.deps.update(i, (link, e.1, before.filter(keep), true)));
    } else {
        let mods = if e.3 {
            e.2.push(module)
        } else {
            seq![module]
        };
        assert(mods[mods.len() - 1] == module);
        assert(m1.deps[i] == (link, e.1, mods, true));
        if e.3 {
            lemma_filter_push(e.2, keep, module);
            assert(e.2.filter(keep) =~= before.filter(keep));
        } else {
            assert(mods =~= Seq::<Seq<char>>::empty().push(module));
            lemma_filter_push(Seq::<Seq<char>>::empty(), keep, module);
            Seq::<Seq<char>>::empty().lemma_filter_len(keep);
            assert(mods.filter(keep) =~= before.filter(keep));
        }
        assert(m2.deps =~= m.deps.update(i, (link, e.1, before.filter(keep), true)));
    }
    if m2.deps[i].2.contains(module) {
        let f = before.filter(keep);
        let j = choose|j: int| 0 <= j < f.len() && f[j] == module;
        before.lemma_filter_pred(keep, j);
    }
}

/// Every record that lists the module contributes its own link to the
/// reverse lookup: two providers both appear.
pub proof fn lemma_repo_links_complete(deps: Seq<DepEntry>, module: Seq<char>, i: int)
    requires
        0 <= i < deps.len(),
        provides(deps[i], module),
    ensures
        spec_repo_links(deps, module).contains(deps[i].0),
{
    let pred = provides_pred(module);
    deps.lemma_filter_contains(pred, i);
    let f = deps.filter(pred);
    let j = choose|j: int| 0 <= j < f.len() && f[j] == deps[i];
    assert(links_of(f)[j] == deps[i].0);
}

/// The reverse lookup names no link beyond the providers: each answer stems
/// from a record that lists the module.
pub proof fn lemma_repo_links_sound(deps: Seq<DepEntry>, module: Seq<char>, l: Seq<char>)
    requires
        spec_repo_links(deps, module).contains(l),
    ensures
        exists|i: int| 0 <= i < deps.len() && deps[i].0 == l && provides(#[trigger] deps[i], module),
{
    let pred = provides_pred(module);
    let f = deps.filter(pred);
    let j = choose|j: int| 0 <= j < links_of(f).len() && links_of(f)[j] == l;
    assert(f[j].0 == l);
    deps.lemma_filter_pred(pred, j);
    lemma_filter_subset(deps, pred, j);
    let i = choose|i: int| 0 <= i < deps.len() && deps[i] == f[j];
    assert(provides(deps[i], module));
}

/// A removal aimed at a repository link never added leaves the manifest
/// exactly as it was.
pub proof fn lemma_remove_dependency_absent(m: ManifestModel, link: Seq<char>)
    requires
        !m.deps_ok || !has_link(m.deps, link),
    ensures
        spec_remove_dependency(m, link) == m,
{
}

/// A module removal aimed at a repository link never added leaves the
/// manifest exactly as it was.
pub proof fn lemma_remove_top_module_absent(m: ManifestModel, link: Seq<char>, module: Seq<char>)
    requires
        !m.deps_ok || !has_link(m.deps, link),
    ensures
        spec_remove_top_module(m, link, module) == m,
{
}

} // verus!
