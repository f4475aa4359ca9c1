//! The format-preserving document backend: a `toml_edit::DocumentMut` holds
//! the manifest text, and these items carry its behaviour into the proofs.
//! Everything here is trusted; the rest of the crate is verified against it.
use vstd::prelude::*;

use crate::model::{has_link, link_index, links_of, spec_remove_link, spec_set_modules,
    spec_upsert, unique_links, DepEntry, PackageModel};

verus! {

#[verifier::external_type_specification]
#[verifier::external_body]
pub struct ExDocumentMut(toml_edit::DocumentMut);

#[verifier::external_type_specification]
#[verifier::external_body]
pub struct ExTomlError(toml_edit::TomlError);

/// The records of the document's `dependencies` table, in table order.
pub uninterp spec fn doc_deps(d: toml_edit::DocumentMut) -> Seq<DepEntry>;

/// Whether the document holds a `dependencies` table (a header table or an
/// inline one).
pub uninterp spec fn doc_deps_ok(d: toml_edit::DocumentMut) -> bool;

/// Whether every record of the `dependencies` table is an inline value (as
/// this store writes them), rather than a `[dependencies.X]` sub-table or an
/// array of tables. Rendering keeps the records' order exactly when this
/// holds; a hand-written sub-table record is rendered as its own section
/// after the inline ones, so only the records' multiset survives in general.
pub uninterp spec fn doc_deps_inline(d: toml_edit::DocumentMut) -> bool;

/// The document's package metadata, each field read as a string (a missing or
/// differently-shaped field reads as empty).
pub uninterp spec fn doc_package(d: toml_edit::DocumentMut) -> PackageModel;

/// The text the document renders to.
pub uninterp spec fn doc_text(d: toml_edit::DocumentMut) -> Seq<char>;

/// The dependency records that parsing a text yields.
pub uninterp spec fn text_deps(s: Seq<char>) -> Seq<DepEntry>;

/// Whether parsing a text yields a document with a `dependencies` table.
pub uninterp spec fn text_deps_ok(s: Seq<char>) -> bool;

/// Whether parsing a text yields a `dependencies` table whose records are all
/// inline values.
pub uninterp spec fn text_deps_inline(s: Seq<char>) -> bool;

/// The package metadata that parsing a text yields.
pub uninterp spec fn text_package(s: Seq<char>) -> PackageModel;

/// Whether a text is syntactically valid TOML.
pub uninterp spec fn text_is_toml(s: Seq<char>) -> bool;

/// What a text becomes after one parse-and-render cycle: the text itself up
/// to toml_edit's two normalizations — every key-value line ends in a
/// newline (one is appended where the input's last line had none), and
/// interleaved dotted keys are grouped. Rendered text is already normal.
pub uninterp spec fn text_norm(s: Seq<char>) -> Seq<char>;

/// Relies on `str::parse::<toml_edit::DocumentMut>`: parsing succeeds exactly
/// on valid TOML; the parsed document preserves the text's formatting, so it
/// renders back to the input up to the two normalizations `text_norm` names;
/// and TOML refuses a table with two equal keys, so the dependency records
/// carry pairwise distinct links.
#[verifier::external_body]
pub(crate) fn parse_doc(s: &str) -> (r: Result<toml_edit::DocumentMut, toml_edit::TomlError>)
    ensures
        r is Ok <==> text_is_toml(s@),
        r matches Ok(d) ==> doc_text(d) == text_norm(s@) && doc_deps_ok(d) == text_deps_ok(s@)
            && doc_deps(d) == text_deps(s@) && doc_deps_inline(d) == text_deps_inline(s@)
            && doc_package(d) == text_package(s@) && (doc_deps_ok(d) ==> unique_links(
            doc_deps(d),
        )),
{
    s.parse::<toml_edit::DocumentMut>()
}

/// Relies on `toml_edit::DocumentMut`'s `Display`: rendering yields exactly
/// the document's text; that text is valid TOML, already in normal form, and
/// parsing it back yields the same dependency records and package metadata.
/// Two exceptions keep the dependency table from round-tripping exactly.
/// Order: rendering emits inline records in the table's body and sub-table
/// records as their own sections after it, so the records' order survives
/// only when all of them are inline; their multiset survives always. The
/// table-presence flag: a `dependencies` table that exists only implicitly
/// (created by a dotted key or a sub-table header) and holds no record
/// renders as nothing, so the flag survives only on the side the two
/// implications state.
#[verifier::external_body]
pub(crate) fn render_doc(d: &toml_edit::DocumentMut) -> (r: String)
    ensures
        r@ == doc_text(*d),
        text_is_toml(r@),
        text_norm(r@) == r@,
        text_deps(r@).to_multiset() == doc_deps(*d).to_multiset(),
        doc_deps_inline(*d) ==> text_deps(r@) == doc_deps(*d) && text_deps_inline(r@),
        text_package(r@) == doc_package(*d),
        text_deps_ok(r@) ==> doc_deps_ok(*d),
        doc_deps_ok(*d) && doc_deps(*d).len() > 0 ==> text_deps_ok(r@),
{
    d.to_string()
}

/// Relies on `toml_edit::TomlError`'s `Display` for the parse failure report.
#[verifier::external_body]
pub(crate) fn toml_error_message(e: &toml_edit::TomlError) -> String {
    e.to_string()
}

/// Relies on `toml_edit::DocumentMut::new` and `Table` insertion: builds a
/// document holding exactly the given package metadata and an empty
/// `dependencies` table, and nothing else. For the store's fixed default
/// values the whole rendered text is pinned (they need no escaping, so each
/// renders as itself between quotes).
#[verifier::external_body]
pub(crate) fn new_doc_with_package(
    name: &str,
    version: &str,
    author: &str,
    description: &str,
    license: &str,
) -> (d: toml_edit::DocumentMut)
    ensures
        doc_deps_ok(d),
        doc_deps_inline(d),
        doc_deps(d) == Seq::<DepEntry>::empty(),
        doc_package(d) == (name@, version@, seq![author@], description@, license@),
        (name@ == "my-vpm-package"@ && version@ == "0.1.0"@ && author@
            == "<author-name> <author-email>"@ && description@ == "A vpm package"@ && license@
            == "LicenseRef-LICENSE"@) ==> doc_text(d)
            == "[package]\nname = \"my-vpm-package\"\nversion = \"0.1.0\"\nauthors = [\"<author-name> <author-email>\"]\ndescription = \"A vpm package\"\nlicense = \"LicenseRef-LICENSE\"\n\n[dependencies]\n"@,
{
    let mut d = toml_edit::DocumentMut::new();
    d["package"] = toml_edit::Item::Table(toml_edit::Table::new());
    d["package"]["name"] = toml_edit::Item::Value(toml_edit::Value::from(name));
    d["package"]["version"] = toml_edit::Item::Value(toml_edit::Value::from(version));
    d["package"]["authors"] = toml_edit::Item::Value([author].into_iter().collect());
    d["package"]["description"] = toml_edit::Item::Value(toml_edit::Value::from(description));
    d["package"]["license"] = toml_edit::Item::Value(toml_edit::Value::from(license));
    d["dependencies"] = toml_edit::Item::Table(toml_edit::Table::new());
    d
}

/// Relies on `toml_edit::Item::is_table_like`: whether a `dependencies` table
/// is present.
#[verifier::external_body]
pub(crate) fn doc_has_deps_table(d: &toml_edit::DocumentMut) -> (b: bool)
    ensures
        b == doc_deps_ok(*d),
{
    d.as_table().get("dependencies").map_or(false, |i| i.is_table_like())
}

/// Relies on `toml_edit::Table::insert`: replaces whatever stood under the
/// `dependencies` key with an empty table; the rest of the document, the
/// package section included, stays as it is.
#[verifier::external_body]
pub(crate) fn doc_set_empty_deps(d: &mut toml_edit::DocumentMut)
    ensures
        doc_deps_ok(*final(d)),
        doc_deps_inline(*final(d)),
        doc_deps(*final(d)) == Seq::<DepEntry>::empty(),
        doc_package(*final(d)) == doc_package(*old(d)),
{
    d.as_table_mut().insert("dependencies", toml_edit::Item::Table(toml_edit::Table::new()));
}

/// Relies on `toml_edit::Table::iter` (an `IndexMap` underneath): the keys of
/// the `dependencies` table, in table order.
#[verifier::external_body]
pub(crate) fn doc_dep_links(d: &toml_edit::DocumentMut) -> (r: Vec<String>)
    ensures
        doc_deps_ok(*d) ==> r.deep_view() == links_of(doc_deps(*d)),
        !doc_deps_ok(*d) ==> r@ == Seq::<String>::empty(),
{
    match d.as_table().get("dependencies").and_then(|i| i.as_table_like()) {
        Some(t) => t.iter().map(|(k, _)| k.to_owned()).collect(),
        None => Vec::new(),
    }
}

/// Relies on `toml_edit`'s `TableLike::get` and the `Item` accessors: reads
/// one record's commit string (an absent or non-string `commit` field reads
/// as the empty string) and its module list, `None` where the record has no
/// `top_modules` array (elements are read as strings, a non-string element as
/// the empty string).
#[verifier::external_body]
pub(crate) fn doc_get_dep(d: &toml_edit::DocumentMut, link: &str) -> (r: Option<
    (String, Option<Vec<String>>),
>)
    ensures
        !doc_deps_ok(*d) ==> r is None,
        doc_deps_ok(*d) ==> (match r {
            None => !has_link(doc_deps(*d), link@),
            Some(p) => has_link(doc_deps(*d), link@) && ({
                let e = doc_deps(*d)[link_index(doc_deps(*d), link@)];
                &&& p.0@ == e.1
                &&& (match p.1 {
                    Some(mods) => e.3 && mods.deep_view() == e.2,
                    None => !e.3,
                })
            }),
        }),
{
    let t = d.as_table().get("dependencies").and_then(|i| i.as_table_like())?;
    let item = t.get(link)?;
    let rec = item.as_table_like();
    let commit = rec.and_then(|r| r.get("commit")).and_then(|c| c.as_str()).unwrap_or("").to_owned();
    let mods = rec.and_then(|r| r.get("top_modules")).and_then(|m| m.as_array()).map(|a| {
        a.iter().map(|v| v.as_str().unwrap_or("").to_owned()).collect()
    });
    Some((commit, mods))
}

/// Relies on insertion through `toml_edit`'s index operator: writes one whole
/// record as `{ top_modules = [...], commit = "..." }`; an existing key keeps
/// its position in the table, a new key is appended at the end; the package
/// section stays as it is.
#[verifier::external_body]
pub(crate) fn doc_upsert_dep(
    d: &mut toml_edit::DocumentMut,
    link: &str,
    commit: &str,
    modules: &Vec<String>,
)
    requires
        doc_deps_ok(*old(d)),
    ensures
        doc_deps_ok(*final(d)),
        doc_deps(*final(d)) == spec_upsert(doc_deps(*old(d)), link@, commit@, modules.deep_view()),
        doc_deps_inline(*old(d)) ==> doc_deps_inline(*final(d)),
        doc_package(*final(d)) == doc_package(*old(d)),
{
    let mut rec = toml_edit::InlineTable::new();
    let arr: toml_edit::Array = modules.iter().map(|m| m.as_str()).collect();
    rec.insert("top_modules", toml_edit::Value::Array(arr));
    rec.insert("commit", toml_edit::Value::from(commit));
    d["dependencies"][link] = toml_edit::Item::Value(toml_edit::Value::InlineTable(rec));
}

/// Relies on `toml_edit::Array::push` through the index operator: appends one
/// string to the record's existing `top_modules` array in place, so the
/// record's layout, its commit and any further fields stay byte for byte.
#[verifier::external_body]
pub(crate) fn doc_push_top_module(d: &mut toml_edit::DocumentMut, link: &str, module: &str)
    requires
        doc_deps_ok(*old(d)),
        has_link(doc_deps(*old(d)), link@),
        doc_deps(*old(d))[link_index(doc_deps(*old(d)), link@)].3,
    ensures
        doc_deps_ok(*final(d)),
        doc_deps(*final(d)) == spec_set_modules(
            doc_deps(*old(d)),
            link@,
            doc_deps(*old(d))[link_index(doc_deps(*old(d)), link@)].2.push(module@),
        ),
        doc_deps_inline(*final(d)) == doc_deps_inline(*old(d)),
        doc_package(*final(d)) == doc_package(*old(d)),
{
    if let Some(a) = d["dependencies"][link]["top_modules"].as_array_mut() {
        a.push(module);
    }
}

/// Relies on `toml_edit`'s `TableLike::insert`: replaces only the record's
/// `top_modules` value; the record's key, its position, its commit and any
/// further fields stay as they are.
#[verifier::external_body]
pub(crate) fn doc_set_top_modules(d: &mut toml_edit::DocumentMut, link: &str, modules: &Vec<String>)
    requires
        doc_deps_ok(*old(d)),
        has_link(doc_deps(*old(d)), link@),
        doc_deps(*old(d))[link_index(doc_deps(*old(d)), link@)].3,
    ensures
        doc_deps_ok(*final(d)),
        doc_deps(*final(d)) == spec_set_modules(doc_deps(*old(d)), link@, modules.deep_view()),
        doc_deps_inline(*final(d)) == doc_deps_inline(*old(d)),
        doc_package(*final(d)) == doc_package(*old(d)),
{
    let arr: toml_edit::Array = modules.iter().map(|m| m.as_str()).collect();
    let rec = d.as_table_mut().get_mut("dependencies").and_then(|i| i.as_table_like_mut())
        .and_then(|t| t.get_mut(link)).and_then(|i| i.as_table_like_mut());
    if let Some(rec) = rec {
        rec.insert("top_modules", toml_edit::Item::Value(toml_edit::Value::Array(arr)));
    }
}

/// Relies on `toml_edit`'s `TableLike::remove` (a shift-remove): deletes one
/// record, the others keep their order; without that key, or without a
/// `dependencies` table, the document is left untouched.
#[verifier::external_body]
pub(crate) fn doc_remove_dep(d: &mut toml_edit::DocumentMut, link: &str)
    ensures
        doc_deps_ok(*final(d)) == doc_deps_ok(*old(d)),
        doc_deps_ok(*old(d)) ==> doc_deps(*final(d)) == spec_remove_link(
            doc_deps(*old(d)),
            link@,
        ),
        doc_deps_inline(*old(d)) ==> doc_deps_inline(*final(d)),
        doc_package(*final(d)) == doc_package(*old(d)),
        !doc_deps_ok(*old(d)) ==> *final(d) == *old(d),
        doc_deps_ok(*old(d)) && !has_link(doc_deps(*old(d)), link@) ==> *final(d) == *old(d),
{
    if let Some(i) = d.as_table_mut().get_mut("dependencies") {
        if let Some(t) = i.as_table_like_mut() {
            t.remove(link);
        }
    }
}

} // verus!
