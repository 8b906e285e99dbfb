//! The manifest as a tree of keyed values. The tree itself is kept by the
//! `toml` crate; what its tables and values hold is stated here as plain
//! sequences, and each call into the crate says what it does to them.

use vstd::prelude::*;

verus! {

/// What a manifest value holds.
pub enum Node {
    Text(Seq<char>),
    Integer(i64),
    /// A floating-point number, by its bit pattern.
    Real(u64),
    Boolean(bool),
    /// A date, a time or both, as the manifest writes it.
    Moment(Seq<char>),
    List(Seq<Node>),
    /// A table: its entries in order.
    Group(Seq<(Seq<char>, Node)>),
}

/// The entries of a table, each a key and what it stands for, in order.
pub type Entries = Seq<(Seq<char>, Node)>;

/// The index of the first entry under the key, if there is one.
pub open spec fn position(entries: Entries, key: Seq<char>) -> Option<int>
    decreases entries.len(),
{
    if entries.len() == 0 {
        None
    } else {
        match position(entries.drop_last(), key) {
            Some(i) => Some(i),
            None => if entries.last().0 == key {
                Some(entries.len() - 1)
            } else {
                None
            },
        }
    }
}

/// What the key stands for, if the entries hold it.
pub open spec fn lookup(entries: Entries, key: Seq<char>) -> Option<Node> {
    match position(entries, key) {
        Some(i) => Some(entries[i].1),
        None => None,
    }
}

/// The entries after the key has been set: where they held the key, its
/// entry stays in its place with the new value; where they did not, a new
/// entry comes last. No other entry changes or moves.
pub open spec fn put(entries: Entries, key: Seq<char>, node: Node) -> Entries {
    match position(entries, key) {
        Some(i) => entries.update(i, (key, node)),
        None => entries.push((key, node)),
    }
}

/// The keys of the entries, in order.
pub open spec fn keys(entries: Entries) -> Seq<Seq<char>> {
    Seq::new(entries.len(), |i: int| entries[i].0)
}

/// What `position` finds: an index of the key before which the key does not
/// occur, or nothing where the key does not occur at all.
pub proof fn lemma_position(entries: Entries, key: Seq<char>)
    ensures
        match position(entries, key) {
            Some(i) => 0 <= i < entries.len() && entries[i].0 == key && forall|j: int|
                0 <= j < i ==> (#[trigger] entries[j]).0 != key,
            None => forall|j: int| 0 <= j < entries.len() ==> (#[trigger] entries[j]).0 != key,
        },
    decreases entries.len(),
{
    if entries.len() > 0 {
        let front = entries.drop_last();
        lemma_position(front, key);
        assert forall|j: int| 0 <= j < front.len() implies front[j] == entries[j] by {}
        match position(front, key) {
            Some(i) => {
                assert(entries[i] == front[i]);
                assert forall|j: int| 0 <= j < i implies (#[trigger] entries[j]).0 != key by {
                    assert(front[j] == entries[j]);
                }
            },
            None => {
                assert forall|j: int| 0 <= j < front.len() implies (#[trigger] entries[j]).0
                    != key by {
                    assert(front[j] == entries[j]);
                }
            },
        }
    }
}

/// An index of the key before which the key does not occur is the one that
/// `position` finds.
pub proof fn lemma_position_is(entries: Entries, key: Seq<char>, i: int)
    requires
        0 <= i < entries.len(),
        entries[i].0 == key,
        forall|j: int| 0 <= j < i ==> (#[trigger] entries[j]).0 != key,
    ensures
        position(entries, key) == Some(i),
{
    lemma_position(entries, key);
}

/// Where the key does not occur, `position` finds nothing.
pub proof fn lemma_position_none(entries: Entries, key: Seq<char>)
    requires
        forall|j: int| 0 <= j < entries.len() ==> (#[trigger] entries[j]).0 != key,
    ensures
        position(entries, key) is None,
{
    lemma_position(entries, key);
}

/// After a key has been set, it stands for the value that it was set to.
pub proof fn lemma_put_then_lookup(entries: Entries, key: Seq<char>, node: Node)
    ensures
        lookup(put(entries, key, node), key) == Some(node),
{
    lemma_position(entries, key);
    let after = put(entries, key, node);
    match position(entries, key) {
        Some(i) => {
            assert forall|j: int| 0 <= j < i implies (#[trigger] after[j]).0 != key by {
                assert(after[j] == entries[j]);
            }
            lemma_position_is(after, key, i);
        },
        None => {
            assert forall|j: int| 0 <= j < entries.len() implies (#[trigger] after[j]).0
                != key by {
                assert(after[j] == entries[j]);
            }
            lemma_position_is(after, key, entries.len() as int);
        },
    }
}

/// Setting one key leaves every other key where it was and as it was.
pub proof fn lemma_put_keeps_others(
    entries: Entries,
    key: Seq<char>,
    node: Node,
    other: Seq<char>,
)
    requires
        other != key,
    ensures
        position(put(entries, key, node), other) == position(entries, other),
        lookup(put(entries, key, node), other) == lookup(entries, other),
{
    lemma_position(entries, key);
    lemma_position(entries, other);
    let after = put(entries, key, node);
    assert forall|j: int| 0 <= j < entries.len() implies (#[trigger] after[j]).0
        == entries[j].0 by {}
    match position(entries, other) {
        Some(i) => {
            assert forall|j: int| 0 <= j < i implies (#[trigger] after[j]).0 != other by {
                assert(after[j].0 == entries[j].0);
            }
            assert(after[i].0 == entries[i].0);
            lemma_position_is(after, other, i);
            assert(after[i] == entries[i]);
        },
        None => {
            assert forall|j: int| 0 <= j < after.len() implies (#[trigger] after[j]).0
                != other by {
                if j < entries.len() {
                    assert(after[j].0 == entries[j].0);
                }
            }
            lemma_position_none(after, other);
        },
    }
}

/// Setting a key again replaces what the first setting put there, and adds no
/// second entry.
pub proof fn lemma_put_twice(entries: Entries, key: Seq<char>, first: Node, second: Node)
    ensures
        put(put(entries, key, first), key, second) == put(entries, key, second),
{
    lemma_position(entries, key);
    lemma_put_then_lookup(entries, key, first);
    let once = put(entries, key, first);
    lemma_position(once, key);
    match position(entries, key) {
        Some(i) => {
            assert(once[i].0 == key);
            assert(position(once, key) == Some(i)) by {
                assert forall|j: int| 0 <= j < i implies (#[trigger] once[j]).0 != key by {
                    assert(once[j] == entries[j]);
                }
                lemma_position_is(once, key, i);
            }
            assert(put(once, key, second) =~= put(entries, key, second));
        },
        None => {
            let n = entries.len() as int;
            assert(position(once, key) == Some(n)) by {
                assert forall|j: int| 0 <= j < n implies (#[trigger] once[j]).0 != key by {
                    assert(once[j] == entries[j]);
                }
                lemma_position_is(once, key, n);
            }
            assert(put(once, key, second) =~= put(entries, key, second));
        },
    }
}

/// Setting a key to what it already stands for changes nothing.
pub proof fn lemma_put_same(entries: Entries, key: Seq<char>, node: Node)
    requires
        lookup(entries, key) == Some(node),
    ensures
        put(entries, key, node) == entries,
{
    lemma_position(entries, key);
    assert(put(entries, key, node) =~= entries);
}

/// Setting a key keeps the keys in their order: a key that was there stays in
/// its place, a new one comes last.
pub proof fn lemma_put_keys(entries: Entries, key: Seq<char>, node: Node)
    ensures
        keys(put(entries, key, node)) == if lookup(entries, key) is Some {
            keys(entries)
        } else {
            keys(entries).push(key)
        },
{
    lemma_position(entries, key);
    if lookup(entries, key) is Some {
        assert(keys(put(entries, key, node)) =~= keys(entries));
    } else {
        assert(keys(put(entries, key, node)) =~= keys(entries).push(key));
    }
}

#[verifier::external_type_specification]
#[verifier::external_body]
#[verifier::reject_recursive_types(K)]
#[verifier::reject_recursive_types(V)]
pub struct ExMap<K, V>(toml::map::Map<K, V>);

#[verifier::external_type_specification]
#[verifier::external_body]
pub struct ExValue(toml::Value);

#[verifier::external_type_specification]
#[verifier::external_body]
pub struct ExParseError(toml::de::Error);

#[verifier::external_type_specification]
#[verifier::external_body]
pub struct ExWriteError(toml::ser::Error);

/// The entries of a table, in the order in which the table keeps them.
pub uninterp spec fn table_entries(table: toml::Table) -> Entries;

/// What a value holds.
pub uninterp spec fn value_node(value: toml::Value) -> Node;

/// The entries of the manifest that a text is read as, or `None` for a text
/// that is no manifest.
pub uninterp spec fn parsed_document(text: Seq<char>) -> Option<Entries>;

/// The text that a manifest with these entries is written as, or `None` where
/// it cannot be written.
pub uninterp spec fn rendered_document(entries: Entries) -> Option<Seq<char>>;

/// What the values of a list hold, in order.
pub open spec fn nodes(values: Seq<toml::Value>) -> Seq<Node> {
    Seq::new(values.len(), |i: int| value_node(values[i]))
}

/// `str::parse::<toml::Table>`: reads a text as a manifest. The table that
/// comes back holds the entries that the text is read as; a text that is no
/// manifest gives the crate's error.
#[verifier::external_body]
pub(crate) fn parse_table(text: &str) -> (parsed: Result<toml::Table, toml::de::Error>)
    ensures
        parsed is Ok <==> parsed_document(text@) is Some,
        parsed is Ok ==> table_entries(parsed->Ok_0) == parsed_document(text@)->Some_0,
{
    text.parse::<toml::Table>()
}

/// `toml::to_string` on a table: writes the manifest as text. The text is
/// the one that the table's entries are written as.
#[verifier::external_body]
pub(crate) fn render_table(table: &toml::Table) -> (rendered: Result<String, toml::ser::Error>)
    ensures
        rendered is Ok <==> rendered_document(table_entries(*table)) is Some,
        rendered is Ok ==> rendered->Ok_0@ == rendered_document(table_entries(*table))->Some_0,
{
    toml::to_string(table)
}

/// `toml::de::Error::message`: what the crate says of a text that it could
/// not read.
#[verifier::external_body]
pub(crate) fn parse_error_message(error: &toml::de::Error) -> (message: String) {
    error.message().to_owned()
}

/// `toml::map::Map::new`: the new table has no entry.
#[verifier::external_body]
pub(crate) fn empty_table() -> (table: toml::Table)
    ensures
        table_entries(table) == Seq::<(Seq<char>, Node)>::empty(),
{
    toml::Table::new()
}

/// `Clone::clone` on a table: the copy has the same entries.
#[verifier::external_body]
pub(crate) fn copy_table(table: &toml::Table) -> (copy: toml::Table)
    ensures
        table_entries(copy) == table_entries(*table),
{
    table.clone()
}

/// `toml::map::Map::get`: the value under the key, if the table has the key.
#[verifier::external_body]
pub(crate) fn table_get<'a>(table: &'a toml::Table, key: &str) -> (found: Option<&'a toml::Value>)
    ensures
        found is Some <==> lookup(table_entries(*table), key@) is Some,
        found is Some ==> Some(value_node(*found->Some_0)) == lookup(table_entries(*table), key@),
{
    table.get(key)
}

/// `toml::map::Map::insert`: sets the key. An entry that the table already
/// has under the key keeps its place and gets the new value; otherwise the
/// new entry comes last.
#[verifier::external_body]
pub(crate) fn table_insert(table: &mut toml::Table, key: String, value: toml::Value)
    ensures
        table_entries(*final(table)) == put(table_entries(*old(table)), key@, value_node(value)),
{
    table.insert(key, value);
}

/// `toml::Value::as_table`: the table inside a value, if the value is one.
#[verifier::external_body]
pub(crate) fn value_as_table<'a>(value: &'a toml::Value) -> (inner: Option<&'a toml::Table>)
    ensures
        inner is Some <==> value_node(*value) is Group,
        inner is Some ==> Node::Group(table_entries(*inner->Some_0)) == value_node(*value),
{
    value.as_table()
}

/// `toml::Value::String`: a value that holds the text.
#[verifier::external_body]
pub(crate) fn text_value(text: String) -> (value: toml::Value)
    ensures
        value_node(value) == Node::Text(text@),
{
    toml::Value::String(text)
}

/// `toml::Value::Array`: a value that holds the values of the list, in order.
#[verifier::external_body]
pub(crate) fn list_value(items: Vec<toml::Value>) -> (value: toml::Value)
    ensures
        value_node(value) == Node::List(nodes(items@)),
{
    toml::Value::Array(items)
}

/// `toml::Value::Table`: a value that holds the entries of the table.
#[verifier::external_body]
pub(crate) fn group_value(table: toml::Table) -> (value: toml::Value)
    ensures
        value_node(value) == Node::Group(table_entries(table)),
{
    toml::Value::Table(table)
}

} // verus!
