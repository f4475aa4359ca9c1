//! The manifest store: typed, verified operations over the format-preserving
//! document, and the free command-layer functions built on them.
use vstd::prelude::*;

use crate::doc::{doc_dep_links, doc_deps, doc_deps_inline, doc_deps_ok, doc_get_dep,
    doc_has_deps_table, doc_package, doc_push_top_module, doc_remove_dep, doc_set_empty_deps,
    doc_set_top_modules, doc_text, doc_upsert_dep, new_doc_with_package, parse_doc, render_doc,
    text_deps, text_deps_inline, text_deps_ok, text_is_toml, text_norm, text_package,
    toml_error_message};
use crate::model::{has_link, keep_other, lemma_filter_push, lemma_link_index,
    lemma_link_index_at, lemma_remove_link_unique, lemma_set_modules_unique, lemma_upsert_unique,
    link_index, links_of, provides_pred, spec_add_dependency, spec_add_top_module,
    spec_remove_dependency, spec_remove_top_module, spec_repo_links, DepEntry, ManifestModel,
    PackageModel};

verus! {

/// What a manifest operation can fail with: the text is not valid TOML, or a
/// module operation names a repository link that the manifest does not hold.
#[derive(Debug)]
pub enum ManifestError {
    Parse(String),
    MissingDependency,
}

impl ManifestError {
    /// A report for the caller's diagnostics.
    pub fn message(&self) -> (r: String)
        ensures
            self matches ManifestError::Parse(m) ==> r@ == m@,
            self is MissingDependency ==> r@ == "dependency not found in manifest"@,
    {
        match self {
            ManifestError::Parse(m) => m.clone(),
            ManifestError::MissingDependency => "dependency not found in manifest".to_owned(),
        }
    }
}

/// One dependency record, read out as plain values.
#[derive(Debug)]
pub struct Dependency {
    pub commit: String,
    pub top_modules: Vec<String>,
}

/// The manifest: a format-preserving document holding a `package` section and
/// a `dependencies` table.
pub struct Manifest {
    doc: toml_edit::DocumentMut,
}

/// The commit a dependency is created with: the given pin, or the empty
/// string for "unpinned".
pub open spec fn opt_str_view(c: Option<&str>) -> Seq<char> {
    match c {
        Some(s) => s@,
        None => Seq::empty(),
    }
}

/// The model a parsed text carries.
pub open spec fn text_model(s: Seq<char>) -> ManifestModel {
    ManifestModel { deps_ok: text_deps_ok(s), deps: text_deps(s) }
}

/// The model a command starts from: a fresh default manifest where no file
/// existed, the parsed file otherwise.
pub open spec fn input_model(text: Option<&str>) -> ManifestModel {
    match text {
        None => ManifestModel::empty(),
        Some(s) => text_model(s@),
    }
}

/// Whether a command's input can be loaded at all.
pub open spec fn input_parses(text: Option<&str>) -> bool {
    match text {
        None => true,
        Some(s) => text_is_toml(s@),
    }
}

/// The fixed package metadata a fresh manifest is created with.
pub open spec fn default_package() -> PackageModel {
    (
        "my-vpm-package"@,
        "0.1.0"@,
        seq!["<author-name> <author-email>"@],
        "A vpm package"@,
        "LicenseRef-LICENSE"@,
    )
}

/// The exact text a freshly created manifest renders to: the default package
/// section and an empty dependency table, nothing else.
pub open spec fn default_manifest_text() -> Seq<char> {
    "[package]\nname = \"my-vpm-package\"\nversion = \"0.1.0\"\nauthors = [\"<author-name> <author-email>\"]\ndescription = \"A vpm package\"\nlicense = \"LicenseRef-LICENSE\"\n\n[dependencies]\n"@
}

/// The package metadata a command starts from: the defaults where no file
/// existed, the parsed file's otherwise.
pub open spec fn input_package(text: Option<&str>) -> PackageModel {
    match text {
        None => default_package(),
        Some(s) => text_package(s@),
    }
}

/// How a rendered text's model reflects the document's. The records' multiset
/// always matches; their order matches when every record is an inline value
/// (`inline` — always the case for manifests this store created), since a
/// hand-written `[dependencies.X]` sub-table renders as its own section after
/// the inline records. The table-presence flag matches whenever the table
/// holds a record (an empty `dependencies` table that only ever existed
/// implicitly renders as nothing).
pub open spec fn reflects(shown: ManifestModel, held: ManifestModel, inline: bool) -> bool {
    &&& shown.deps.to_multiset() == held.deps.to_multiset()
    &&& inline ==> shown.deps == held.deps
    &&& shown.deps_ok ==> held.deps_ok
    &&& held.deps_ok && held.deps.len() > 0 ==> shown.deps_ok
}

/// Whether a command's input has only inline dependency records: true for a
/// fresh manifest and for every file this store wrote.
pub open spec fn input_inline(text: Option<&str>) -> bool {
    match text {
        None => true,
        Some(s) => text_deps_inline(s@),
    }
}

impl View for Manifest {
    type V = ManifestModel;

    closed spec fn view(&self) -> ManifestModel {
        ManifestModel { deps_ok: doc_deps_ok(self.doc), deps: doc_deps(self.doc) }
    }
}

impl Manifest {
    /// The text this manifest renders to.
    pub closed spec fn text(&self) -> Seq<char> {
        doc_text(self.doc)
    }

    /// The package metadata this manifest carries.
    pub closed spec fn package(&self) -> PackageModel {
        doc_package(self.doc)
    }

    /// Whether every dependency record is an inline value, so that rendering
    /// keeps the records' order exactly.
    pub closed spec fn inline_deps(&self) -> bool {
        doc_deps_inline(self.doc)
    }

    pub open spec fn wf(&self) -> bool {
        self@.wf()
    }

    /// A fresh manifest: exactly the fixed default package metadata, an
    /// empty dependency table, and nothing else — its whole text is pinned.
    pub fn new_default() -> (m: Manifest)
        ensures
            m@ == ManifestModel::empty(),
            m.package() == default_package(),
            m.text() == default_manifest_text(),
            m.inline_deps(),
            m.wf(),
    {
        let doc = new_doc_with_package(
            "my-vpm-package",
            "0.1.0",
            "<author-name> <author-email>",
            "A vpm package",
            "LicenseRef-LICENSE",
        );
        let m = Manifest { doc };
        proof {
            assert(m@ =~= ManifestModel::empty());
            assert(m.package() =~= default_package());
        }
        m
    }

    /// Loads a manifest from its on-disk text. Fails exactly on text that is
    /// not valid TOML; a loaded manifest renders back to the input itself up
    /// to the two normalizations `text_norm` names.
    pub fn from_text(s: &str) -> (r: Result<Manifest, ManifestError>)
        ensures
            r is Ok <==> text_is_toml(s@),
            r matches Ok(m) ==> m@ == text_model(s@) && m.text() == text_norm(s@) && m.package()
                == text_package(s@) && m.inline_deps() == text_deps_inline(s@) && m.wf(),
            r is Err ==> r->Err_0 is Parse,
    {
        match parse_doc(s) {
            Ok(doc) => {
                let m = Manifest { doc };
                proof {
                    assert(m@ =~= text_model(s@));
                }
                Ok(m)
            },
            Err(e) => Err(ManifestError::Parse(toml_error_message(&e))),
        }
    }

    /// Renders the manifest to its exact on-disk text: untouched parts keep
    /// their original layout, the text is already in normal form, and loading
    /// it back yields this manifest's records (see `reflects`) and package
    /// metadata again. That an edit changes no byte outside the edited field
    /// is the document backend's doing: the contracts pin the records and the
    /// package, and the byte-level locality is test-backed, not proved.
    pub fn render(&self) -> (r: String)
        ensures
            r@ == self.text(),
            text_is_toml(r@),
            text_norm(r@) == r@,
            reflects(text_model(r@), self@, self.inline_deps()),
            self.inline_deps() ==> text_deps_inline(r@),
            text_package(r@) == self.package(),
    {
        render_doc(&self.doc)
    }

    /// One persist-and-load cycle without mutations: rendering this manifest
    /// and loading the result yields the very same text, the same records and
    /// the same package metadata, so re-opening an untouched manifest never
    /// alters its file.
    pub fn reload(&self) -> (r: Manifest)
        ensures
            r.text() == self.text(),
            reflects(r@, self@, self.inline_deps()),
            self.inline_deps() ==> r.inline_deps(),
            r.package() == self.package(),
            r.wf(),
    {
        let text = self.render();
        match Manifest::from_text(text.as_str()) {
            Ok(m) => m,
            Err(_) => vstd::pervasive::unreached(),
        }
    }

    /// Inserts a dependency pinned at `commit` (empty for unpinned) with no
    /// top modules yet. Idempotent: an existing record is left exactly as it
    /// is, pin included; a missing or malformed dependency table is replaced
    /// by a fresh one first.
    pub fn add_dependency(&mut self, git: &str, commit: Option<&str>)
        requires
            old(self).wf(),
        ensures
            final(self)@ == spec_add_dependency(old(self)@, git@, opt_str_view(commit)),
            final(self).wf(),
            final(self).package() == old(self).package(),
            old(self).inline_deps() ==> final(self).inline_deps(),
            old(self)@.deps_ok && has_link(old(self)@.deps, git@) ==> *final(self) == *old(self),
    {
        let commit_str: &str = match commit {
            Some(c) => c,
            None => "",
        };
        proof {
            reveal_strlit("");
            assert(""@ =~= Seq::<char>::empty());
        }
        if !doc_has_deps_table(&self.doc) {
            doc_set_empty_deps(&mut self.doc);
        }
        let ghost base = self@.deps;
        match doc_get_dep(&self.doc, git) {
            Some(_) => {
                proof {
                    assert(self@ =~= spec_add_dependency(old(self)@, git@, opt_str_view(commit)));
                }
            },
            None => {
                let mods: Vec<String> = Vec::new();
                proof {
                    assert(mods.deep_view() =~= Seq::<Seq<char>>::empty());
                    lemma_upsert_unique(base, git@, commit_str@, mods.deep_view());
                }
                doc_upsert_dep(&mut self.doc, git, commit_str, &mods);
                proof {
                    assert(self@ =~= spec_add_dependency(old(self)@, git@, opt_str_view(commit)));
                }
            },
        }
    }

    /// Deletes the record under `git`; the other records keep their order. A
    /// key never added is a silent no-op that leaves the manifest untouched.
    pub fn remove_dependency(&mut self, git: &str)
        requires
            old(self).wf(),
        ensures
            final(self)@ == spec_remove_dependency(old(self)@, git@),
            final(self).wf(),
            final(self).package() == old(self).package(),
            old(self).inline_deps() ==> final(self).inline_deps(),
            !(old(self)@.deps_ok && has_link(old(self)@.deps, git@)) ==> *final(self) == *old(
                self,
            ),
    {
        proof {
            if old(self)@.deps_ok {
                lemma_remove_link_unique(old(self)@.deps, git@);
            }
        }
        doc_remove_dep(&mut self.doc, git);
        proof {
            assert(self@ =~= spec_remove_dependency(old(self)@, git@));
        }
    }

    /// Appends `module_name` to the record under `repo_link`, unless the name
    /// is already listed. The append edits the record's array in place, so
    /// the record's layout and any further fields it carries stay as they
    /// are; only a record without a well-shaped module list is rewritten with
    /// a fresh one-element list. Reports `MissingDependency` exactly when the
    /// manifest holds no record under `repo_link`.
    pub fn add_top_module(&mut self, repo_link: &str, module_name: &str) -> (r: Result<
        (),
        ManifestError,
    >)
        requires
            old(self).wf(),
        ensures
            final(self)@ == spec_add_top_module(old(self)@, repo_link@, module_name@),
            final(self).wf(),
            final(self).package() == old(self).package(),
            old(self).inline_deps() ==> final(self).inline_deps(),
            r is Ok <==> old(self)@.deps_ok && has_link(old(self)@.deps, repo_link@),
            r is Err ==> r->Err_0 is MissingDependency && *final(self) == *old(self),
            final(self)@ == old(self)@ ==> *final(self) == *old(self),
    {
        let ghost m0 = old(self)@;
        match doc_get_dep(&self.doc, repo_link) {
            None => Err(ManifestError::MissingDependency),
            Some(dep) => {
                proof {
                    lemma_link_index(m0.deps, repo_link@);
                }
                let ghost i = link_index(m0.deps, repo_link@);
                let ghost e = m0.deps[i];
                let (commit, mods_opt) = dep;
                match mods_opt {
                    Some(mods) => {
                        if !vec_contains_string(&mods, module_name) {
                            proof {
                                lemma_set_modules_unique(
                                    m0.deps,
                                    repo_link@,
                                    e.2.push(module_name@),
                                );
                            }
                            doc_push_top_module(&mut self.doc, repo_link, module_name);
                            proof {
                                assert(self@.deps[i].2.len() == e.2.len() + 1);
                            }
                        }
                        proof {
                            assert(self@ =~= spec_add_top_module(m0, repo_link@, module_name@));
                        }
                        Ok(())
                    },
                    None => {
                        let mut new_mods: Vec<String> = Vec::new();
                        new_mods.push(module_name.to_owned());
                        proof {
                            assert(new_mods.deep_view() =~= seq![module_name@]);
                            lemma_upsert_unique(m0.deps, repo_link@, commit@, new_mods.deep_view());
                        }
                        doc_upsert_dep(&mut self.doc, repo_link, commit.as_str(), &new_mods);
                        proof {
                            assert(self@ =~= spec_add_top_module(m0, repo_link@, module_name@));
                        }
                        Ok(())
                    },
                }
            },
        }
    }

    /// Removes every occurrence of `module_name` from the record under
    /// `repo_link`, replacing only the record's module array; its layout, its
    /// commit and any further fields stay as they are. A missing key, a
    /// record without a well-shaped module list or an unlisted name is a
    /// silent no-op that leaves the manifest untouched.
    pub fn remove_top_module(&mut self, repo_link: &str, module_name: &str)
        requires
            old(self).wf(),
        ensures
            final(self)@ == spec_remove_top_module(old(self)@, repo_link@, module_name@),
            final(self).wf(),
            final(self).package() == old(self).package(),
            old(self).inline_deps() ==> final(self).inline_deps(),
            final(self)@ == old(self)@ ==> *final(self) == *old(self),
    {
        let ghost m0 = old(self)@;
        match doc_get_dep(&self.doc, repo_link) {
            None => {},
            Some(dep) => {
                proof {
                    lemma_link_index(m0.deps, repo_link@);
                }
                let ghost i = link_index(m0.deps, repo_link@);
                let ghost e = m0.deps[i];
                let (_, mods_opt) = dep;
                match mods_opt {
                    None => {},
                    Some(mods) => {
                        if vec_contains_string(&mods, module_name) {
                            let filtered = vec_remove_string(&mods, module_name);
                            proof {
                                lemma_set_modules_unique(
                                    m0.deps,
                                    repo_link@,
                                    filtered.deep_view(),
                                );
                            }
                            doc_set_top_modules(&mut self.doc, repo_link, &filtered);
                        }
                    },
                }
            },
        }
        proof {
            assert(self@ =~= spec_remove_top_module(m0, repo_link@, module_name@));
        }
    }

    /// The repository links of every dependency whose module list holds
    /// `module_name`, in table order; several providers are expected and all
    /// returned. A manifest without a well-shaped dependency table yields
    /// nothing.
    pub fn get_repo_links(&self, module_name: &str) -> (r: Vec<String>)
        requires
            self.wf(),
        ensures
            self@.deps_ok ==> r.deep_view() == spec_repo_links(self@.deps, module_name@),
            !self@.deps_ok ==> r@ == Seq::<String>::empty(),
    {
        let ghost deps = self@.deps;
        let ghost pred = provides_pred(module_name@);
        let links = doc_dep_links(&self.doc);
        let mut out: Vec<String> = Vec::new();
        if !doc_has_deps_table(&self.doc) {
            proof {
                assert(out@ =~= Seq::<String>::empty());
            }
            return out;
        }
        proof {
            assert(deps.take(0) =~= Seq::<DepEntry>::empty());
            assert(deps.take(0).filter(pred) =~= Seq::<DepEntry>::empty()) by {
                vstd::prelude::Seq::<DepEntry>::empty().lemma_filter_len(pred);
            }
            assert(out.deep_view() =~= links_of(deps.take(0).filter(pred)));
            assert(links.deep_view().len() == links@.len());
            assert(links_of(deps).len() == deps.len());
        }
        let mut i: usize = 0;
        while i < links.len()
            invariant
                self.wf(),
                self@.deps_ok,
                deps == self@.deps,
                pred == provides_pred(module_name@),
                links.deep_view() == links_of(deps),
                0 <= i <= links.len(),
                links@.len() == deps.len(),
                out.deep_view() == links_of(deps.take(i as int).filter(pred)),
            decreases links.len() - i,
        {
            let ghost e = deps[i as int];
            let ghost prev = out.deep_view();
            proof {
                assert(links.deep_view()[i as int] == links_of(deps)[i as int]);
                assert(links[i as int]@ == e.0);
                lemma_link_index_at(deps, i as int);
                assert(deps.take(i as int + 1) =~= deps.take(i as int).push(e));
                lemma_filter_push(deps.take(i as int), pred, e);
            }
            let mut hit = false;
            match doc_get_dep(&self.doc, links[i].as_str()) {
                Some(dep) => {
                    let (_, mods_opt) = dep;
                    match mods_opt {
                        Some(mods) => {
                            if vec_contains_string(&mods, module_name) {
                                hit = true;
                            }
                        },
                        None => {},
                    }
                },
                None => {},
            }
            if hit {
                out.push(links[i].clone());
                proof {
                    assert(pred(e));
                    assert(out.deep_view() =~= prev.push(e.0));
                    assert(links_of(deps.take(i as int).filter(pred).push(e)) =~= prev.push(e.0));
                }
            } else {
                proof {
                    assert(!pred(e));
                }
            }
            i += 1;
        }
        proof {
            assert(deps.take(deps.len() as int) =~= deps);
        }
        out
    }

    /// The dependency table read out as plain values, in table order, or
    /// `None` where the manifest holds no well-shaped `dependencies` table.
    /// A record without a well-shaped module list reads as an empty one.
    pub fn get_dependencies(&self) -> (r: Option<Vec<(String, Dependency)>>)
        requires
            self.wf(),
        ensures
            r is None <==> !self@.deps_ok,
            r matches Some(v) ==> v@.len() == self@.deps.len() && (forall|i: int|
                0 <= i < v@.len() ==> dep_read_matches(
                    #[trigger] v@[i],
                    self@.deps[i],
                )),
    {
        let ghost deps = self@.deps;
        if !doc_has_deps_table(&self.doc) {
            return None;
        }
        let links = doc_dep_links(&self.doc);
        proof {
            assert(links.deep_view().len() == links@.len());
            assert(links_of(deps).len() == deps.len());
        }
        let mut out: Vec<(String, Dependency)> = Vec::new();
        let mut i: usize = 0;
        while i < links.len()
            invariant
                self.wf(),
                self@.deps_ok,
                deps == self@.deps,
                links.deep_view() == links_of(deps),
                0 <= i <= links.len(),
                links@.len() == deps.len(),
                out@.len() == i,
                forall|j: int| 0 <= j < i ==> dep_read_matches(#[trigger] out@[j], deps[j]),
            decreases links.len() - i,
        {
            let ghost e = deps[i as int];
            proof {
                assert(links.deep_view()[i as int] == links_of(deps)[i as int]);
                assert(links[i as int]@ == e.0);
                lemma_link_index_at(deps, i as int);
            }
            match doc_get_dep(&self.doc, links[i].as_str()) {
                Some(dep) => {
                    let (commit, mods_opt) = dep;
                    let top_modules = match mods_opt {
                        Some(mods) => mods,
                        None => Vec::new(),
                    };
                    proof {
                        if !e.3 {
                            assert(top_modules.deep_view() =~= Seq::<Seq<char>>::empty());
                        }
                    }
                    out.push((links[i].clone(), Dependency { commit, top_modules }));
                },
                None => {
                    proof {
                        assert(false);
                    }
                },
            }
            i += 1;
        }
        Some(out)
    }
}

/// How one read-out pair reflects a record of the model.
pub open spec fn dep_read_matches(p: (String, Dependency), e: DepEntry) -> bool {
    &&& p.0@ == e.0
    &&& p.1.commit@ == e.1
    &&& p.1.top_modules.deep_view() == (if e.3 {
        e.2
    } else {
        Seq::<Seq<char>>::empty()
    })
}

/// One whole `add_dependency` command: load the manifest text (or start a
/// fresh default one where no file existed), insert the dependency unless its
/// key is already present, and hand back the text to persist. An input whose
/// key is already present comes back as its own normalization — byte for
/// byte once the file has been written by this store before. A hand-written
/// `dependencies` value that is no table is silently replaced by a fresh
/// table holding the new record.
pub fn add_dependency(text: Option<&str>, git: &str, commit: Option<&str>) -> (r: Result<
    String,
    ManifestError,
>)
    ensures
        r is Ok <==> input_parses(text),
        r is Err ==> r->Err_0 is Parse,
        r matches Ok(out) ==> text_is_toml(out@) && text_norm(out@) == out@ && reflects(
            text_model(out@),
            spec_add_dependency(input_model(text), git@, opt_str_view(commit)),
            input_inline(text),
        ) && text_package(out@) == input_package(text) && (input_inline(text)
            ==> text_deps_inline(out@)),
        r matches Ok(out) ==> (match text {
            Some(s) => input_model(text).deps_ok && has_link(input_model(text).deps, git@)
                ==> out@ == text_norm(s@),
            None => true,
        }),
{
    let mut m = match load_input(text) {
        Ok(m) => m,
        Err(e) => {
            return Err(e);
        },
    };
    m.add_dependency(git, commit);
    Ok(m.render())
}

/// One whole `add_top_module` command: load the manifest text, record the
/// module under its repository link, and hand back the text to persist.
/// Reports `MissingDependency` exactly when no record holds that link.
pub fn add_top_module(text: Option<&str>, repo_link: &str, module_name: &str) -> (r: Result<
    String,
    ManifestError,
>)
    ensures
        r is Ok <==> input_parses(text) && input_model(text).deps_ok && has_link(
            input_model(text).deps,
            repo_link@,
        ),
        r is Err && !input_parses(text) ==> r->Err_0 is Parse,
        r is Err && input_parses(text) ==> r->Err_0 is MissingDependency,
        r matches Ok(out) ==> text_is_toml(out@) && text_norm(out@) == out@ && reflects(
            text_model(out@),
            spec_add_top_module(input_model(text), repo_link@, module_name@),
            input_inline(text),
        ) && text_package(out@) == input_package(text) && (input_inline(text)
            ==> text_deps_inline(out@)),
        r matches Ok(out) ==> (match text {
            Some(s) => spec_add_top_module(input_model(text), repo_link@, module_name@)
                == input_model(text) ==> out@ == text_norm(s@),
            None => true,
        }),
{
    let mut m = match load_input(text) {
        Ok(m) => m,
        Err(e) => {
            return Err(e);
        },
    };
    match m.add_top_module(repo_link, module_name) {
        Ok(()) => Ok(m.render()),
        Err(e) => Err(e),
    }
}

/// One whole `remove_dependency` command: load the manifest text, delete the
/// record if it is there, and hand back the text to persist. An input without
/// that key comes back as its own normalization — byte for byte once the
/// file has been written by this store before.
pub fn remove_dependency(text: Option<&str>, git: &str) -> (r: Result<String, ManifestError>)
    ensures
        r is Ok <==> input_parses(text),
        r is Err ==> r->Err_0 is Parse,
        r matches Ok(out) ==> text_is_toml(out@) && text_norm(out@) == out@ && reflects(
            text_model(out@),
            spec_remove_dependency(input_model(text), git@),
            input_inline(text),
        ) && text_package(out@) == input_package(text) && (input_inline(text)
            ==> text_deps_inline(out@)),
        r matches Ok(out) ==> (match text {
            Some(s) => !(input_model(text).deps_ok && has_link(input_model(text).deps, git@))
                ==> out@ == text_norm(s@),
            None => true,
        }),
{
    let mut m = match load_input(text) {
        Ok(m) => m,
        Err(e) => {
            return Err(e);
        },
    };
    m.remove_dependency(git);
    Ok(m.render())
}

/// One whole `remove_top_module` command: load the manifest text, strip the
/// module from its repository link's record, and hand back the text to
/// persist. Where nothing is to strip, the input comes back as its own
/// normalization — byte for byte once the file has been written by this
/// store before.
pub fn remove_top_module(text: Option<&str>, repo_link: &str, module_name: &str) -> (r: Result<
    String,
    ManifestError,
>)
    ensures
        r is Ok <==> input_parses(text),
        r is Err ==> r->Err_0 is Parse,
        r matches Ok(out) ==> text_is_toml(out@) && text_norm(out@) == out@ && reflects(
            text_model(out@),
            spec_remove_top_module(input_model(text), repo_link@, module_name@),
            input_inline(text),
        ) && text_package(out@) == input_package(text) && (input_inline(text)
            ==> text_deps_inline(out@)),
        r matches Ok(out) ==> (match text {
            Some(s) => spec_remove_top_module(input_model(text), repo_link@, module_name@)
                == input_model(text) ==> out@ == text_norm(s@),
            None => true,
        }),
{
    let mut m = match load_input(text) {
        Ok(m) => m,
        Err(e) => {
            return Err(e);
        },
    };
    m.remove_top_module(repo_link, module_name);
    Ok(m.render())
}

/// One whole `get_repo_links` command: load the manifest text and answer the
/// reverse lookup; nothing is persisted.
pub fn get_repo_links(text: Option<&str>, module_name: &str) -> (r: Result<
    Vec<String>,
    ManifestError,
>)
    ensures
        r is Ok <==> input_parses(text),
        r is Err ==> r->Err_0 is Parse,
        r matches Ok(v) ==> (input_model(text).deps_ok ==> v.deep_view() == spec_repo_links(
            input_model(text).deps,
            module_name@,
        )) && (!input_model(text).deps_ok ==> v@ == Seq::<String>::empty()),
{
    let m = match load_input(text) {
        Ok(m) => m,
        Err(e) => {
            return Err(e);
        },
    };
    Ok(m.get_repo_links(module_name))
}

/// Loads a command's input: the manifest file's text, or a fresh default
/// manifest where no file existed yet.
fn load_input(text: Option<&str>) -> (r: Result<Manifest, ManifestError>)
    ensures
        r is Ok <==> input_parses(text),
        r matches Ok(m) ==> m@ == input_model(text) && m.package() == input_package(text)
            && m.inline_deps() == input_inline(text) && m.wf() && (match text {
            Some(s) => m.text() == text_norm(s@),
            None => true,
        }),
        r is Err ==> r->Err_0 is Parse,
{
    match text {
        None => Ok(Manifest::new_default()),
        Some(s) => Manifest::from_text(s),
    }
}

/// Whether one of the strings is exactly `x`.
fn vec_contains_string(v: &Vec<String>, x: &str) -> (r: bool)
    ensures
        r == v.deep_view().contains(x@),
{
    let needle = x.to_owned();
    let mut i: usize = 0;
    while i < v.len()
        invariant
            0 <= i <= v.len(),
            needle@ == x@,
            forall|j: int| 0 <= j < i ==> v.deep_view()[j] != x@,
        decreases v.len() - i,
    {
        if v[i] == needle {
            proof {
                assert(v.deep_view()[i as int] == x@);
            }
            return true;
        }
        i += 1;
    }
    proof {
        assert(forall|j: int| 0 <= j < v.deep_view().len() ==> v.deep_view()[j] != x@);
    }
    false
}

/// The strings with every occurrence of `x` removed, order kept.
fn vec_remove_string(v: &Vec<String>, x: &str) -> (r: Vec<String>)
    ensures
        r.deep_view() == v.deep_view().filter(keep_other(x@)),
{
    let needle = x.to_owned();
    let mut out: Vec<String> = Vec::new();
    let mut i: usize = 0;
    proof {
        assert(out.deep_view() =~= v.deep_view().take(0).filter(keep_other(x@))) by {
            vstd::prelude::Seq::<Seq<char>>::empty().lemma_filter_len(keep_other(x@));
            assert(v.deep_view().take(0) =~= Seq::<Seq<char>>::empty());
        }
    }
    while i < v.len()
        invariant
            0 <= i <= v.len(),
            needle@ == x@,
            out.deep_view() == v.deep_view().take(i as int).filter(keep_other(x@)),
        decreases v.len() - i,
    {
        let ghost dv = v.deep_view();
        let ghost prev = out.deep_view();
        proof {
            assert(dv.take(i as int + 1) =~= dv.take(i as int).push(dv[i as int]));
            lemma_filter_push(dv.take(i as int), keep_other(x@), dv[i as int]);
        }
        if v[i] != needle {
            out.push(v[i].clone());
            proof {
                assert(out.deep_view() =~= prev.push(dv[i as int]));
            }
        }
        i += 1;
    }
    proof {
        assert(v.deep_view().take(v.len() as int) =~= v.deep_view());
    }
    out
}

} // verus!
