//! The two edits that turn the manifest of a bare project into that of a
//! plugin: the framework among the dependencies, and the kinds of library to
//! build. Everything else in the manifest stays as it is.

use crate::document::{
    copy_table, empty_table, group_value, keys, lemma_position, lemma_put_keeps_others,
    lemma_put_keys, lemma_put_same, lemma_put_then_lookup, lemma_put_twice, list_value, lookup,
    nodes, parse_error_message, parse_table, parsed_document, put, render_table,
    rendered_document, table_entries, table_get, table_insert, text_value, value_as_table,
    value_node, Entries, Node,
};
use vstd::prelude::*;
use vstd::string::StringExecFns;

verus! {

/// The table of the manifest that lists what the project depends on.
pub const DEPENDENCIES: &'static str = "dependencies";

/// The name under which the framework is depended on.
pub const FRAMEWORK: &'static str = "nih_plug";

/// The key of the place where the framework's source is found.
pub const SOURCE_KEY: &'static str = "git";

/// Where the framework's source is found.
pub const FRAMEWORK_SOURCE: &'static str = "https://github.com/robbert-vdh/nih-plug.git";

/// The key of the framework's feature list.
pub const FEATURES_KEY: &'static str = "features";

/// The feature that every project gets: an allocation on the audio thread
/// stops the plugin.
pub const BASE_FEATURE: &'static str = "assert_process_allocs";

/// The feature that only a standalone export needs.
pub const STANDALONE_FEATURE: &'static str = "standalone";

/// The table of the manifest that describes the library.
pub const LIBRARY: &'static str = "lib";

/// The key of the kinds of library to build.
pub const CRATE_TYPE_KEY: &'static str = "crate_type";

/// The kind of library that a plugin host loads.
pub const DYNAMIC_KIND: &'static str = "cdylib";

/// The kind of library that the standalone entry point links against.
pub const STATIC_KIND: &'static str = "lib";

/// Why a manifest could not be edited.
#[derive(Clone, Debug)]
pub enum ManifestError {
    /// The text is no manifest; the reason is given.
    Unparsable(String),
    /// The manifest has no table of dependencies.
    MissingDependencies,
    /// The edited manifest could not be written as text.
    Unwritable,
}

/// What the user is told of a text that is no manifest, before the reason.
pub const UNPARSABLE_MESSAGE: &'static str = "The manifest could not be read: ";

/// What the user is told of a manifest without dependencies.
pub const MISSING_DEPENDENCIES_MESSAGE: &'static str =
    "The manifest has no table of dependencies.";

/// What the user is told of a manifest that could not be written.
pub const UNWRITABLE_MESSAGE: &'static str = "The manifest could not be written.";

impl ManifestError {
    /// What the user is told of the error.
    pub open spec fn message_text(self) -> Seq<char> {
        match self {
            ManifestError::Unparsable(reason) => UNPARSABLE_MESSAGE@ + reason@,
            ManifestError::MissingDependencies => MISSING_DEPENDENCIES_MESSAGE@,
            ManifestError::Unwritable => UNWRITABLE_MESSAGE@,
        }
    }

    /// What the user is told of the error.
    pub fn message(&self) -> (message: String)
        ensures
            message@ == self.message_text(),
    {
        match self {
            ManifestError::Unparsable(reason) => {
                let mut message = String::from_str(UNPARSABLE_MESSAGE);
                message.append(reason.as_str());
                message
            },
            ManifestError::MissingDependencies => String::from_str(MISSING_DEPENDENCIES_MESSAGE),
            ManifestError::Unwritable => String::from_str(UNWRITABLE_MESSAGE),
        }
    }
}

/// The framework's features: the base feature always, and the standalone
/// feature exactly for a standalone export.
pub open spec fn features(standalone: bool) -> Seq<Node> {
    if standalone {
        seq![Node::Text(BASE_FEATURE@), Node::Text(STANDALONE_FEATURE@)]
    } else {
        seq![Node::Text(BASE_FEATURE@)]
    }
}

/// The kinds of library to build: the dynamic kind always, and the static
/// kind exactly for a standalone export.
pub open spec fn crate_types(standalone: bool) -> Seq<Node> {
    if standalone {
        seq![Node::Text(DYNAMIC_KIND@), Node::Text(STATIC_KIND@)]
    } else {
        seq![Node::Text(DYNAMIC_KIND@)]
    }
}

/// The framework's entry among the dependencies: where its source is found,
/// then its features.
pub open spec fn framework_entry(standalone: bool) -> Node {
    Node::Group(
        seq![
            (SOURCE_KEY@, Node::Text(FRAMEWORK_SOURCE@)),
            (FEATURES_KEY@, Node::List(features(standalone))),
        ],
    )
}

/// The dependencies with the framework among them.
pub open spec fn with_framework(dependencies: Entries, standalone: bool) -> Entries {
    put(dependencies, FRAMEWORK@, framework_entry(standalone))
}

/// The entries of the library table of a manifest: none where the manifest
/// has no such table.
pub open spec fn library_entries(manifest: Entries) -> Entries {
    match lookup(manifest, LIBRARY@) {
        Some(Node::Group(entries)) => entries,
        _ => Seq::empty(),
    }
}

/// The manifest with the kinds of library set in its library table.
pub open spec fn with_crate_types(manifest: Entries, standalone: bool) -> Entries {
    put(
        manifest,
        LIBRARY@,
        Node::Group(
            put(library_entries(manifest), CRATE_TYPE_KEY@, Node::List(crate_types(standalone))),
        ),
    )
}

/// The manifest after both edits, or `None` where it has no table of
/// dependencies to edit.
pub open spec fn mutated(manifest: Entries, standalone: bool) -> Option<Entries> {
    match lookup(manifest, DEPENDENCIES@) {
        Some(Node::Group(dependencies)) => Some(
            with_crate_types(
                put(
                    manifest,
                    DEPENDENCIES@,
                    Node::Group(with_framework(dependencies, standalone)),
                ),
                standalone,
            ),
        ),
        _ => None,
    }
}

/// A list of one text, or of two.
fn text_list(first: &str, second: Option<&str>) -> (list: toml::Value)
    ensures
        value_node(list) == Node::List(
            match second {
                Some(second) => seq![Node::Text(first@), Node::Text(second@)],
                None => seq![Node::Text(first@)],
            },
        ),
{
    let mut items: Vec<toml::Value> = Vec::new();
    items.push(text_value(String::from_str(first)));
    if let Some(second) = second {
        items.push(text_value(String::from_str(second)));
        assert(nodes(items@) =~= seq![Node::Text(first@), Node::Text(second@)]);
    } else {
        assert(nodes(items@) =~= seq![Node::Text(first@)]);
    }
    list_value(items)
}

/// Puts the framework among the dependencies, in place of an entry that they
/// may already have for it.
pub fn add_nih_plug(dependencies: &mut toml::Table, standalone: bool)
    ensures
        table_entries(*final(dependencies)) == with_framework(
            table_entries(*old(dependencies)),
            standalone,
        ),
{
    let mut entry = empty_table();
    table_insert(
        &mut entry,
        String::from_str(SOURCE_KEY),
        text_value(String::from_str(FRAMEWORK_SOURCE)),
    );
    let feature_list = text_list(
        BASE_FEATURE,
        if standalone {
            Some(STANDALONE_FEATURE)
        } else {
            None
        },
    );
    proof {
        lemma_names_differ();
        let source = (SOURCE_KEY@, Node::Text(FRAMEWORK_SOURCE@));
        assert(table_entries(entry) =~= seq![source]);
        lemma_position(seq![source], FEATURES_KEY@);
    }
    table_insert(&mut entry, String::from_str(FEATURES_KEY), feature_list);
    assert(Node::Group(table_entries(entry)) == framework_entry(standalone)) by {
        assert(table_entries(entry) =~= seq![
            (SOURCE_KEY@, Node::Text(FRAMEWORK_SOURCE@)),
            (FEATURES_KEY@, Node::List(features(standalone))),
        ]);
    }
    table_insert(dependencies, String::from_str(FRAMEWORK), group_value(entry));
}

/// A copy of the table under the key, where the manifest has one there.
fn table_under(manifest: &toml::Table, key: &str) -> (found: Option<toml::Table>)
    ensures
        match lookup(table_entries(*manifest), key@) {
            Some(Node::Group(entries)) => found is Some && table_entries(found->Some_0)
                == entries,
            _ => found is None,
        },
{
    match table_get(manifest, key) {
        Some(value) => match value_as_table(value) {
            Some(table) => Some(copy_table(table)),
            None => None,
        },
        None => None,
    }
}

/// Edits a manifest in place: the framework is put among its dependencies and
/// the kinds of library are set. A manifest without a table of dependencies
/// is refused and left as it was.
pub fn update_manifest(manifest: &mut toml::Table, standalone: bool) -> (done: Result<
    (),
    ManifestError,
>)
    ensures
        match mutated(table_entries(*old(manifest)), standalone) {
            Some(entries) => done is Ok && table_entries(*final(manifest)) == entries,
            None => done is Err && done->Err_0 is MissingDependencies && table_entries(
                *final(manifest),
            ) == table_entries(*old(manifest)),
        },
{
    let mut dependencies = match table_under(manifest, DEPENDENCIES) {
        Some(dependencies) => dependencies,
        None => {
            return Err(ManifestError::MissingDependencies);
        },
    };
    add_nih_plug(&mut dependencies, standalone);
    table_insert(manifest, String::from_str(DEPENDENCIES), group_value(dependencies));
    let mut library = match table_under(manifest, LIBRARY) {
        Some(library) => library,
        None => empty_table(),
    };
    let kinds = text_list(
        DYNAMIC_KIND,
        if standalone {
            Some(STATIC_KIND)
        } else {
            None
        },
    );
    table_insert(&mut library, String::from_str(CRATE_TYPE_KEY), kinds);
    table_insert(manifest, String::from_str(LIBRARY), group_value(library));
    Ok(())
}

/// What becomes of a manifest text: the text of the edited manifest, or the
/// reason why there is none.
pub open spec fn rewritten(text: Seq<char>, standalone: bool) -> Option<Seq<char>> {
    match parsed_document(text) {
        Some(manifest) => match mutated(manifest, standalone) {
            Some(entries) => rendered_document(entries),
            None => None,
        },
        None => None,
    }
}

/// Reads a manifest, edits it and writes it out again. The text that comes
/// back is that of the whole edited manifest; the caller puts it in place of
/// the old one. Nothing comes back for a text that is no manifest, for a
/// manifest without a table of dependencies, or where the edited manifest
/// cannot be written.
pub fn write_to_toml(text: &str, standalone: bool) -> (written: Result<String, ManifestError>)
    ensures
        match parsed_document(text@) {
            None => written is Err && written->Err_0 is Unparsable,
            Some(manifest) => match mutated(manifest, standalone) {
                None => written is Err && written->Err_0 is MissingDependencies,
                Some(entries) => match rendered_document(entries) {
                    None => written is Err && written->Err_0 is Unwritable,
                    Some(rendered) => written is Ok && written->Ok_0@ == rendered,
                },
            },
        },
{
    let mut manifest = match parse_table(text) {
        Ok(manifest) => manifest,
        Err(error) => {
            return Err(ManifestError::Unparsable(parse_error_message(&error)));
        },
    };
    match update_manifest(&mut manifest, standalone) {
        Ok(()) => {},
        Err(error) => {
            return Err(error);
        },
    }
    match render_table(&manifest) {
        Ok(rendered) => Ok(rendered),
        Err(_) => Err(ManifestError::Unwritable),
    }
}

/// The dependencies of a manifest: none where it has no such table.
pub open spec fn dependency_entries(manifest: Entries) -> Entries {
    match lookup(manifest, DEPENDENCIES@) {
        Some(Node::Group(entries)) => entries,
        _ => Seq::empty(),
    }
}

/// The features that a manifest asks of the framework, where it depends on
/// the framework and lists features.
pub open spec fn framework_features(manifest: Entries) -> Option<Seq<Node>> {
    match lookup(dependency_entries(manifest), FRAMEWORK@) {
        Some(Node::Group(entry)) => match lookup(entry, FEATURES_KEY@) {
            Some(Node::List(list)) => Some(list),
            _ => None,
        },
        _ => None,
    }
}

/// The place where a manifest finds the framework's source, where it depends
/// on the framework and names a place.
pub open spec fn framework_source(manifest: Entries) -> Option<Seq<char>> {
    match lookup(dependency_entries(manifest), FRAMEWORK@) {
        Some(Node::Group(entry)) => match lookup(entry, SOURCE_KEY@) {
            Some(Node::Text(source)) => Some(source),
            _ => None,
        },
        _ => None,
    }
}

/// The kinds of library that a manifest asks for, where it lists any.
pub open spec fn library_kinds(manifest: Entries) -> Option<Seq<Node>> {
    match lookup(library_entries(manifest), CRATE_TYPE_KEY@) {
        Some(Node::List(list)) => Some(list),
        _ => None,
    }
}

/// The two top-level tables have different names, and so have the two keys of
/// the framework's entry, the two features and the two kinds of library.
proof fn lemma_names_differ()
    ensures
        DEPENDENCIES@ != LIBRARY@,
        SOURCE_KEY@ != FEATURES_KEY@,
        BASE_FEATURE@ != STANDALONE_FEATURE@,
        DYNAMIC_KIND@ != STATIC_KIND@,
{
    reveal_strlit("dependencies");
    reveal_strlit("lib");
    reveal_strlit("git");
    reveal_strlit("features");
    reveal_strlit("assert_process_allocs");
    reveal_strlit("standalone");
    reveal_strlit("cdylib");
    assert(DEPENDENCIES@.len() != LIBRARY@.len());
    assert(SOURCE_KEY@.len() != FEATURES_KEY@.len());
    assert(BASE_FEATURE@.len() != STANDALONE_FEATURE@.len());
    assert(DYNAMIC_KIND@.len() != STATIC_KIND@.len());
}

/// The parts of an edited manifest: its dependencies are the old ones with
/// the framework put among them, and its library table is the old one with
/// the kinds of library set.
proof fn lemma_mutated_parts(manifest: Entries, standalone: bool)
    requires
        mutated(manifest, standalone) is Some,
    ensures
        lookup(manifest, DEPENDENCIES@) is Some,
        lookup(manifest, DEPENDENCIES@)->Some_0 is Group,
        dependency_entries(mutated(manifest, standalone)->Some_0) == with_framework(
            dependency_entries(manifest),
            standalone,
        ),
        library_entries(mutated(manifest, standalone)->Some_0) == put(
            library_entries(manifest),
            CRATE_TYPE_KEY@,
            Node::List(crate_types(standalone)),
        ),
{
    lemma_names_differ();
    let dependencies = dependency_entries(manifest);
    let framed = Node::Group(with_framework(dependencies, standalone));
    let middle = put(manifest, DEPENDENCIES@, framed);
    let library = Node::Group(
        put(library_entries(middle), CRATE_TYPE_KEY@, Node::List(crate_types(standalone))),
    );
    lemma_put_then_lookup(manifest, DEPENDENCIES@, framed);
    lemma_put_keeps_others(manifest, DEPENDENCIES@, framed, LIBRARY@);
    lemma_put_then_lookup(middle, LIBRARY@, library);
    lemma_put_keeps_others(middle, LIBRARY@, library, DEPENDENCIES@);
}

/// An edited manifest depends on the framework at its fixed source, with the
/// base feature always and the standalone feature exactly for a standalone
/// export; it asks for the dynamic kind of library always and for the static
/// kind exactly for a standalone export.
pub proof fn lemma_mutated_declares(manifest: Entries, standalone: bool)
    requires
        mutated(manifest, standalone) is Some,
    ensures
        framework_source(mutated(manifest, standalone)->Some_0) == Some(FRAMEWORK_SOURCE@),
        framework_features(mutated(manifest, standalone)->Some_0) == Some(features(standalone)),
        features(standalone).contains(Node::Text(BASE_FEATURE@)),
        features(standalone).contains(Node::Text(STANDALONE_FEATURE@)) <==> standalone,
        library_kinds(mutated(manifest, standalone)->Some_0) == Some(crate_types(standalone)),
        crate_types(standalone).contains(Node::Text(DYNAMIC_KIND@)),
        crate_types(standalone).contains(Node::Text(STATIC_KIND@)) <==> standalone,
{
    lemma_names_differ();
    lemma_mutated_parts(manifest, standalone);
    lemma_put_then_lookup(dependency_entries(manifest), FRAMEWORK@, framework_entry(standalone));
    lemma_put_then_lookup(
        library_entries(manifest),
        CRATE_TYPE_KEY@,
        Node::List(crate_types(standalone)),
    );
    let entry = seq![
        (SOURCE_KEY@, Node::Text(FRAMEWORK_SOURCE@)),
        (FEATURES_KEY@, Node::List(features(standalone))),
    ];
    lemma_position(entry, SOURCE_KEY@);
    lemma_position(entry, FEATURES_KEY@);
    assert(entry[0].0 == SOURCE_KEY@);
    assert(entry[1].0 == FEATURES_KEY@);
    assert(features(standalone)[0] == Node::Text(BASE_FEATURE@));
    assert(crate_types(standalone)[0] == Node::Text(DYNAMIC_KIND@));
    if standalone {
        assert(features(standalone)[1] == Node::Text(STANDALONE_FEATURE@));
        assert(crate_types(standalone)[1] == Node::Text(STATIC_KIND@));
    }
}

/// The edits keep what they do not touch: every top-level entry but the
/// dependencies and the library table, every dependency but the framework,
/// and every entry of the library table but the kinds of library stand for
/// the same after the edits as before.
pub proof fn lemma_mutated_preserves(manifest: Entries, standalone: bool, key: Seq<char>)
    requires
        mutated(manifest, standalone) is Some,
    ensures
        key != DEPENDENCIES@ && key != LIBRARY@ ==> lookup(
            mutated(manifest, standalone)->Some_0,
            key,
        ) == lookup(manifest, key),
        key != FRAMEWORK@ ==> lookup(
            dependency_entries(mutated(manifest, standalone)->Some_0),
            key,
        ) == lookup(dependency_entries(manifest), key),
        key != CRATE_TYPE_KEY@ ==> lookup(
            library_entries(mutated(manifest, standalone)->Some_0),
            key,
        ) == lookup(library_entries(manifest), key),
{
    lemma_mutated_parts(manifest, standalone);
    let framed = Node::Group(with_framework(dependency_entries(manifest), standalone));
    let middle = put(manifest, DEPENDENCIES@, framed);
    let library = Node::Group(
        put(library_entries(middle), CRATE_TYPE_KEY@, Node::List(crate_types(standalone))),
    );
    if key != DEPENDENCIES@ && key != LIBRARY@ {
        lemma_put_keeps_others(manifest, DEPENDENCIES@, framed, key);
        lemma_put_keeps_others(middle, LIBRARY@, library, key);
    }
    if key != FRAMEWORK@ {
        lemma_put_keeps_others(
            dependency_entries(manifest),
            FRAMEWORK@,
            framework_entry(standalone),
            key,
        );
    }
    if key != CRATE_TYPE_KEY@ {
        lemma_put_keeps_others(
            library_entries(manifest),
            CRATE_TYPE_KEY@,
            Node::List(crate_types(standalone)),
            key,
        );
    }
}

/// The edits keep the order of the manifest: its top-level keys stay as they
/// were, with the library table added last where there was none.
pub proof fn lemma_mutated_keys(manifest: Entries, standalone: bool)
    requires
        mutated(manifest, standalone) is Some,
    ensures
        keys(mutated(manifest, standalone)->Some_0) == if lookup(manifest, LIBRARY@) is Some {
            keys(manifest)
        } else {
            keys(manifest).push(LIBRARY@)
        },
{
    lemma_names_differ();
    let framed = Node::Group(with_framework(dependency_entries(manifest), standalone));
    let middle = put(manifest, DEPENDENCIES@, framed);
    let library = Node::Group(
        put(library_entries(middle), CRATE_TYPE_KEY@, Node::List(crate_types(standalone))),
    );
    lemma_put_keys(manifest, DEPENDENCIES@, framed);
    lemma_put_keeps_others(manifest, DEPENDENCIES@, framed, LIBRARY@);
    lemma_put_keys(middle, LIBRARY@, library);
}

/// Editing an edited manifest again changes nothing: it still has one entry
/// for the framework and one for the kinds of library.
pub proof fn lemma_mutated_twice(manifest: Entries, standalone: bool)
    requires
        mutated(manifest, standalone) is Some,
    ensures
        mutated(mutated(manifest, standalone)->Some_0, standalone) == mutated(
            manifest,
            standalone,
        ),
{
    lemma_names_differ();
    lemma_mutated_parts(manifest, standalone);
    let once = mutated(manifest, standalone)->Some_0;
    let entry = framework_entry(standalone);
    let kinds = Node::List(crate_types(standalone));
    let framed = Node::Group(with_framework(dependency_entries(manifest), standalone));
    let middle = put(manifest, DEPENDENCIES@, framed);
    let library = Node::Group(put(library_entries(middle), CRATE_TYPE_KEY@, kinds));
    lemma_put_then_lookup(manifest, DEPENDENCIES@, framed);
    lemma_put_keeps_others(middle, LIBRARY@, library, DEPENDENCIES@);
    lemma_put_then_lookup(middle, LIBRARY@, library);
    assert(lookup(once, DEPENDENCIES@) == Some(framed));
    assert(lookup(once, LIBRARY@) == Some(library));
    lemma_put_twice(dependency_entries(manifest), FRAMEWORK@, entry, entry);
    assert(with_framework(dependency_entries(once), standalone) == dependency_entries(once));
    lemma_put_same(once, DEPENDENCIES@, framed);
    lemma_put_twice(library_entries(middle), CRATE_TYPE_KEY@, kinds, kinds);
    lemma_put_same(once, LIBRARY@, library);
}

} // verus!
