//! Edits of a `jolt.toml` text through `toml_edit`, which keeps the rest of
//! the file (comments, order, formatting) as it was: setting or removing a
//! dependency, registering a workspace member.
use vstd::prelude::*;
use toml_edit::{DocumentMut, Item};
use crate::install::dependency_destination;

verus! {

#[verifier::external_type_specification]
#[verifier::external_body]
pub struct ExDocumentMut(toml_edit::DocumentMut);

#[verifier::external_type_specification]
#[verifier::external_body]
pub struct ExTomlError(toml_edit::TomlError);

/// A value of a manifest.
pub enum TomlValue {
    /// A string.
    Str(Seq<char>),
    /// An integer, float, boolean or date-time: its literal as `toml_edit`
    /// writes it (`Formatted::display_repr`).
    Scalar(Seq<char>),
    /// An array and its elements.
    Array(Seq<TomlValue>),
    /// An inline table and its entries.
    Inline(Map<Seq<char>, TomlValue>),
}

/// An item of a manifest: a value, a table, or an array of tables.
pub enum TomlItem {
    Value(TomlValue),
    Table(Map<Seq<char>, TomlItem>),
    Tables(Seq<Map<Seq<char>, TomlItem>>),
}

/// The items of a table by key.
pub type TomlTable = Map<Seq<char>, TomlItem>;

/// The root table of a document, every table and array of tables within
/// it read all the way down. Keys that hold no item (`Item::None`) are left
/// out, as `Table::contains_key` leaves them out.
pub uninterp spec fn toml_root(doc: DocumentMut) -> Map<Seq<char>, TomlItem>;

/// What `str::parse::<toml_edit::DocumentMut>` makes of a text: `None` when
/// it rejects the text, else the root table of the document it gives.
pub uninterp spec fn toml_parse(text: Seq<char>) -> Option<Map<Seq<char>, TomlItem>>;

/// One step down a document: a key of a table, or an element of an array
/// of tables.
pub enum Step {
    Key(Seq<char>),
    Index(nat),
}

/// The item reached from `item` along `path`.
pub open spec fn item_at(item: TomlItem, path: Seq<Step>) -> Option<TomlItem>
    decreases path.len(),
{
    if path.len() == 0 {
        Some(item)
    } else {
        match (item, path[0]) {
            (TomlItem::Table(t), Step::Key(k)) => match t.get(k) {
                Some(x) => item_at(x, path.drop_first()),
                None => None,
            },
            (TomlItem::Tables(ts), Step::Index(i)) => if i < ts.len() {
                item_at(TomlItem::Table(ts[i as int]), path.drop_first())
            } else {
                None
            },
            _ => None,
        }
    }
}

/// The value at `path` from the root table, if a value is there.
pub open spec fn value_at(root: TomlTable, path: Seq<Step>) -> Option<TomlValue> {
    match item_at(TomlItem::Table(root), path) {
        Some(TomlItem::Value(v)) => Some(v),
        _ => None,
    }
}

/// Two documents hold the same values at the same places, at every depth.
pub open spec fn same_values(a: TomlTable, b: TomlTable) -> bool {
    forall|path: Seq<Step>| #[trigger] value_at(a, path) == value_at(b, path)
}

/// `str::parse::<DocumentMut>`: it succeeds exactly on the texts that
/// `toml_parse` accepts, and the document holds what `toml_parse` names.
#[verifier::external_body]
fn parse_document(content: &str) -> (r: Result<DocumentMut, toml_edit::TomlError>)
    ensures
        r is Ok <==> toml_parse(content@) is Some,
        r matches Ok(d) ==> toml_parse(content@) == Some(toml_root(d)),
{
    content.parse::<DocumentMut>()
}

/// The message of a `toml_edit::TomlError` (its `Display`).
#[verifier::external_body]
fn toml_error_message(e: &toml_edit::TomlError) -> String {
    e.to_string()
}

/// `Table::contains_key` on the document's root table.
#[verifier::external_body]
fn document_has_key(doc: &DocumentMut, key: &str) -> (r: bool)
    ensures
        r == toml_root(*doc).contains_key(key@),
{
    doc.contains_key(key)
}

/// `doc[key] = Item::Table(Table::new())`: the root item `key` becomes an
/// empty table.
#[verifier::external_body]
fn set_empty_table(doc: &mut DocumentMut, key: &str)
    ensures
        toml_root(*final(doc)) == toml_root(*old(doc)).insert(key@, TomlItem::Table(Map::empty())),
{
    doc[key] = Item::Table(toml_edit::Table::new());
}

/// When the root item `table` is a table, sets its `key` to the string `v`
/// (`toml_edit::value`) and gives `true`; otherwise leaves the document and
/// gives `false`.
#[verifier::external_body]
fn set_table_string(doc: &mut DocumentMut, table: &str, key: &str, v: &str) -> (r: bool)
    ensures
        match toml_root(*old(doc)).get(table@) {
            Some(TomlItem::Table(t)) => r && toml_root(*final(doc)) == toml_root(*old(doc)).insert(
                table@,
                TomlItem::Table(t.insert(key@, TomlItem::Value(TomlValue::Str(v@)))),
            ),
            _ => !r && toml_root(*final(doc)) == toml_root(*old(doc)),
        },
{
    match doc.get_mut(table) {
        Some(Item::Table(t)) => {
            t[key] = toml_edit::value(v);
            true
        },
        _ => false,
    }
}

/// When the root item `table` is a table, `Table::remove` of `key` there.
#[verifier::external_body]
fn remove_table_key(doc: &mut DocumentMut, table: &str, key: &str)
    ensures
        match toml_root(*old(doc)).get(table@) {
            Some(TomlItem::Table(t)) => toml_root(*final(doc)) == toml_root(*old(doc)).insert(
                table@,
                TomlItem::Table(t.remove(key@)),
            ),
            _ => toml_root(*final(doc)) == toml_root(*old(doc)),
        },
{
    if let Some(Item::Table(t)) = doc.get_mut(table) {
        t.remove(key);
    }
}

/// Whether the root table `table` holds `key` (`Table::contains_key`);
/// nothing when `table` is not a table.
#[verifier::external_body]
fn table_has_key(doc: &DocumentMut, table: &str, key: &str) -> (r: Option<bool>)
    ensures
        match toml_root(*doc).get(table@) {
            Some(TomlItem::Table(t)) => r == Some(t.contains_key(key@)),
            _ => r is None,
        },
{
    match doc.get(table) {
        Some(Item::Table(t)) => Some(t.contains_key(key)),
        _ => None,
    }
}

/// Sets `key` of the root table `table` to an empty array.
#[verifier::external_body]
fn set_empty_array(doc: &mut DocumentMut, table: &str, key: &str)
    ensures
        match toml_root(*old(doc)).get(table@) {
            Some(TomlItem::Table(t)) => toml_root(*final(doc)) == toml_root(*old(doc)).insert(
                table@,
                TomlItem::Table(t.insert(key@, TomlItem::Value(TomlValue::Array(Seq::empty())))),
            ),
            _ => toml_root(*final(doc)) == toml_root(*old(doc)),
        },
{
    if let Some(Item::Table(t)) = doc.get_mut(table) {
        t[key] = Item::Value(toml_edit::Value::Array(toml_edit::Array::new()));
    }
}

/// The strings of a list of optional strings.
pub open spec fn strings_view(v: Seq<Option<String>>) -> Seq<Option<Seq<char>>> {
    v.map_values(|o: Option<String>| match o {
        Some(s) => Some(s@),
        None => None,
    })
}

/// The string a value is (`Value::as_str`).
pub open spec fn str_of(v: TomlValue) -> Option<Seq<char>> {
    match v {
        TomlValue::Str(s) => Some(s),
        _ => None,
    }
}

/// The array `key` of the root table `table`, when there is one.
pub open spec fn array_at(m: TomlTable, table: Seq<char>, key: Seq<char>) -> Option<Seq<TomlValue>> {
    match m.get(table) {
        Some(TomlItem::Table(t)) => match t.get(key) {
            Some(TomlItem::Value(TomlValue::Array(a))) => Some(a),
            _ => None,
        },
        _ => None,
    }
}

/// The elements of the array `table.key`, each as its string
/// (`Value::as_str`; `None` for any other value); nothing when there is no
/// such array.
#[verifier::external_body]
fn array_strings(doc: &DocumentMut, table: &str, key: &str) -> (r: Option<Vec<Option<String>>>)
    ensures
        match array_at(toml_root(*doc), table@, key@) {
            Some(a) => r matches Some(v) && strings_view(v@) == a.map_values(|e: TomlValue| str_of(e)),
            None => r is None,
        },
{
    match doc.get(table) {
        Some(Item::Table(t)) => t.get(key).and_then(Item::as_array).map(
            |a| a.iter().map(|v| v.as_str().map(str::to_string)).collect(),
        ),
        _ => None,
    }
}

/// `Array::push` of the string `v` onto the array `table.key`, when there
/// is one.
#[verifier::external_body]
fn array_push(doc: &mut DocumentMut, table: &str, key: &str, v: &str)
    ensures
        match (toml_root(*old(doc)).get(table@), array_at(toml_root(*old(doc)), table@, key@)) {
            (Some(TomlItem::Table(t)), Some(a)) => toml_root(*final(doc)) == toml_root(*old(doc)).insert(
                table@,
                TomlItem::Table(t.insert(key@, TomlItem::Value(TomlValue::Array(a.push(TomlValue::Str(v@)))))),
            ),
            _ => toml_root(*final(doc)) == toml_root(*old(doc)),
        },
{
    if let Some(Item::Table(t)) = doc.get_mut(table) {
        if let Some(a) = t.get_mut(key).and_then(Item::as_array_mut) {
            a.push(v);
        }
    }
}

/// The document's text (its `Display`). Parsed again it gives a document
/// with the same values at the same places, at every depth; a table or an
/// array of tables that holds no value may print as nothing (`toml_edit`
/// leaves out an empty implicit or dotted table and an empty array of
/// tables), so where no value lies the tables are not stated.
#[verifier::external_body]
fn document_text(doc: &DocumentMut) -> (r: String)
    ensures
        toml_parse(r@) is Some,
        same_values(toml_parse(r@)->0, toml_root(*doc)),
{
    doc.to_string()
}

/// The entry is the string `s`.
pub open spec fn is_string(o: Option<String>, s: Seq<char>) -> bool {
    match o {
        Some(e) => e@ == s,
        None => false,
    }
}

/// `true` when one of the entries is the string `s`.
pub fn lists_string(entries: &Vec<Option<String>>, s: &str) -> (b: bool)
    ensures
        b == exists|i: int| 0 <= i < entries@.len() && is_string(entries@[i], s@),
{
    let target = crate::text::copy_string(s);
    let mut i: usize = 0;
    while i < entries.len()
        invariant
            i <= entries.len(),
            target@ == s@,
            forall|k: int| 0 <= k < i ==> !is_string(entries@[k], s@),
        decreases entries.len() - i,
    {
        match &entries[i] {
            Some(e) => {
                if *e == target {
                    return true;
                }
            },
            None => {},
        }
        i += 1;
    }
    false
}

/// `m` with the entry `key` of the root table `table` set to `e`: the
/// table is created when the root has no item `table`, and nothing changes
/// when that item is not a table.
pub open spec fn with_entry(m: TomlTable, table: Seq<char>, key: Seq<char>, e: TomlItem) -> TomlTable {
    match m.get(table) {
        Some(TomlItem::Table(t)) => m.insert(table, TomlItem::Table(t.insert(key, e))),
        Some(_) => m,
        None => m.insert(table, TomlItem::Table(Map::empty().insert(key, e))),
    }
}

/// `m` without the entry `key` of the root table `table`.
pub open spec fn without_entry(m: TomlTable, table: Seq<char>, key: Seq<char>) -> TomlTable {
    match m.get(table) {
        Some(TomlItem::Table(t)) => m.insert(table, TomlItem::Table(t.remove(key))),
        _ => m,
    }
}

/// The root table `table` of `m` holds the key `key`.
pub open spec fn has_entry(m: TomlTable, table: Seq<char>, key: Seq<char>) -> bool {
    m.get(table) matches Some(TomlItem::Table(t)) && t.contains_key(key)
}

/// The path of the entry `key` of the root table `table`.
pub open spec fn entry_path(table: Seq<char>, key: Seq<char>) -> Seq<Step> {
    seq![Step::Key(table), Step::Key(key)]
}

/// `path` leads into the entry `key` of the root table `table`.
pub open spec fn under_entry(path: Seq<Step>, table: Seq<char>, key: Seq<char>) -> bool {
    path.len() >= 2 && path[0] == Step::Key(table) && path[1] == Step::Key(key)
}

/// The name of the table a dependency goes into.
pub open spec fn dependency_table(is_dev: bool) -> Seq<char> {
    if is_dev {
        "dev-dependencies"@
    } else {
        "dependencies"@
    }
}

/// The manifest text with `group_artifact = "version"` set in
/// `[dependencies]` (or `[dev-dependencies]`), the table created when
/// missing and left alone when that key holds something other than a table;
/// every other value stays; the parser's message when the text is not TOML.
pub fn add_dependency_to_content(content: &str, group_artifact: &str, version: &str, is_dev: bool) -> (r:
    Result<String, String>)
    ensures
        r is Ok <==> toml_parse(content@) is Some,
        r matches Ok(text) ==> toml_parse(text@) matches Some(after) && same_values(
            after,
            with_entry(
                toml_parse(content@)->0,
                dependency_table(is_dev),
                group_artifact@,
                TomlItem::Value(TomlValue::Str(version@)),
            ),
        ),
{
    let mut doc = match parse_document(content) {
        Ok(d) => d,
        Err(e) => {
            return Err(toml_error_message(&e));
        },
    };
    let ghost before = toml_root(doc);
    let (table_key, _folder) = dependency_destination(is_dev);
    if !document_has_key(&doc, table_key.as_str()) {
        set_empty_table(&mut doc, table_key.as_str());
    }
    let _set = set_table_string(&mut doc, table_key.as_str(), group_artifact, version);
    assert(toml_root(doc) =~= with_entry(
        before,
        dependency_table(is_dev),
        group_artifact@,
        TomlItem::Value(TomlValue::Str(version@)),
    ));
    Ok(document_text(&doc))
}

/// The manifest text without `group_artifact` in either dependency table,
/// and whether either table held it; every other value stays; the parser's
/// message when the text is not TOML.
pub fn remove_dependency_from_content(content: &str, group_artifact: &str) -> (r: Result<
    (bool, String),
    String,
>)
    ensures
        r is Ok <==> toml_parse(content@) is Some,
        r matches Ok((removed, text)) ==> {
            let before = toml_parse(content@)->0;
            &&& removed == (has_entry(before, "dependencies"@, group_artifact@) || has_entry(
                before,
                "dev-dependencies"@,
                group_artifact@,
            ))
            &&& toml_parse(text@) matches Some(after) && same_values(
                after,
                without_entry(
                    without_entry(before, "dependencies"@, group_artifact@),
                    "dev-dependencies"@,
                    group_artifact@,
                ),
            )
        },
{
    let mut doc = match parse_document(content) {
        Ok(d) => d,
        Err(e) => {
            return Err(toml_error_message(&e));
        },
    };
    let ghost before = toml_root(doc);
    let in_deps = table_has_key(&doc, "dependencies", group_artifact);
    let in_dev = table_has_key(&doc, "dev-dependencies", group_artifact);
    let removed = matches!(in_deps, Some(true)) || matches!(in_dev, Some(true));
    remove_table_key(&mut doc, "dependencies", group_artifact);
    remove_table_key(&mut doc, "dev-dependencies", group_artifact);
    assert(toml_root(doc) =~= without_entry(
        without_entry(before, "dependencies"@, group_artifact@),
        "dev-dependencies"@,
        group_artifact@,
    ));
    Ok((removed, document_text(&doc)))
}

/// The workspace manifest after registering `member`: the `workspace` table
/// is created when the root has no such item, its `members` array when the
/// table has no such entry, and `member` is appended unless the array lists
/// it already. Nothing changes when `workspace` is not a table or `members`
/// is not an array.
pub open spec fn with_member(m: TomlTable, member: Seq<char>) -> TomlTable {
    let m1 = if m.contains_key("workspace"@) {
        m
    } else {
        m.insert("workspace"@, TomlItem::Table(Map::empty()))
    };
    match m1.get("workspace"@) {
        Some(TomlItem::Table(ws)) => {
            let ws1 = if ws.contains_key("members"@) {
                ws
            } else {
                ws.insert("members"@, TomlItem::Value(TomlValue::Array(Seq::empty())))
            };
            match ws1.get("members"@) {
                Some(TomlItem::Value(TomlValue::Array(a))) => if a.contains(TomlValue::Str(member)) {
                    m1.insert("workspace"@, TomlItem::Table(ws1))
                } else {
                    m1.insert(
                        "workspace"@,
                        TomlItem::Table(
                            ws1.insert("members"@, TomlItem::Value(TomlValue::Array(a.push(TomlValue::Str(member))))),
                        ),
                    )
                },
                _ => m1.insert("workspace"@, TomlItem::Table(ws1)),
            }
        },
        _ => m1,
    }
}

/// The workspace manifest text with `member` registered as `with_member`
/// says; every other value stays; the parser's message when the text is not
/// TOML.
pub fn add_member_to_content(content: &str, member: &str) -> (r: Result<String, String>)
    ensures
        r is Ok <==> toml_parse(content@) is Some,
        r matches Ok(text) ==> toml_parse(text@) matches Some(after) && same_values(
            after,
            with_member(toml_parse(content@)->0, member@),
        ),
{
    let mut doc = match parse_document(content) {
        Ok(d) => d,
        Err(e) => {
            return Err(toml_error_message(&e));
        },
    };
    let ghost before = toml_root(doc);
    if !document_has_key(&doc, "workspace") {
        set_empty_table(&mut doc, "workspace");
    }
    match table_has_key(&doc, "workspace", "members") {
        Some(false) => set_empty_array(&mut doc, "workspace", "members"),
        _ => {},
    }
    match array_strings(&doc, "workspace", "members") {
        Some(entries) => {
            let listed = lists_string(&entries, member);
            proof {
                let a = array_at(toml_root(doc), "workspace"@, "members"@)->0;
                let target = TomlValue::Str(member@);
                assert(strings_view(entries@) == a.map_values(|e: TomlValue| str_of(e)));
                assert(listed == a.contains(target)) by {
                    if listed {
                        let i = choose|i: int| 0 <= i < entries@.len() && is_string(entries@[i], member@);
                        assert(strings_view(entries@)[i] == Some(member@));
                        assert(str_of(a[i]) == Some(member@));
                        assert(a[i] == target);
                    }
                    if a.contains(target) {
                        let i = choose|i: int| 0 <= i < a.len() && a[i] == target;
                        assert(strings_view(entries@)[i] == str_of(a[i]));
                        assert(is_string(entries@[i], member@));
                    }
                }
            }
            if !listed {
                array_push(&mut doc, "workspace", "members", member);
            }
        },
        None => {},
    }
    assert(toml_root(doc) =~= with_member(before, member@));
    Ok(document_text(&doc))
}

/// Setting one entry of a root table leaves every value elsewhere as it
/// was.
pub proof fn lemma_with_entry_keeps_other_values(
    m: TomlTable,
    table: Seq<char>,
    key: Seq<char>,
    e: TomlItem,
    path: Seq<Step>,
)
    requires
        !under_entry(path, table, key),
    ensures
        value_at(with_entry(m, table, key, e), path) == value_at(m, path),
{
    reveal_with_fuel(item_at, 3);
    if path.len() >= 2 {
        assert(path.drop_first()[0] == path[1]);
    }
}

/// Removing one entry of a root table leaves every value elsewhere as it
/// was.
pub proof fn lemma_without_entry_keeps_other_values(m: TomlTable, table: Seq<char>, key: Seq<char>, path: Seq<Step>)
    requires
        !under_entry(path, table, key),
    ensures
        value_at(without_entry(m, table, key), path) == value_at(m, path),
{
    reveal_with_fuel(item_at, 3);
    if path.len() >= 2 {
        assert(path.drop_first()[0] == path[1]);
    }
}

/// The `members` array of the `workspace` table, when there is one.
pub open spec fn members_of(m: TomlTable) -> Option<Seq<TomlValue>> {
    array_at(m, "workspace"@, "members"@)
}

/// A member can be registered: `workspace` is absent or a table whose
/// `members` is absent or an array.
pub open spec fn members_can_be_set(m: TomlTable) -> bool {
    match m.get("workspace"@) {
        None => true,
        Some(TomlItem::Table(ws)) => match ws.get("members"@) {
            None => true,
            Some(TomlItem::Value(TomlValue::Array(_))) => true,
            _ => false,
        },
        _ => false,
    }
}

/// How many times `x` occurs in `s`.
pub open spec fn occurrences<A>(s: Seq<A>, x: A) -> nat
    decreases s.len(),
{
    if s.len() == 0 {
        0
    } else {
        occurrences(s.drop_last(), x) + if s.last() == x {
            1nat
        } else {
            0nat
        }
    }
}

proof fn lemma_occurrences_contains<A>(s: Seq<A>, x: A)
    ensures
        occurrences(s, x) > 0 <==> s.contains(x),
    decreases s.len(),
{
    if s.len() > 0 {
        lemma_occurrences_contains(s.drop_last(), x);
        if s.drop_last().contains(x) {
            let i = choose|i: int| 0 <= i < s.drop_last().len() && s.drop_last()[i] == x;
            assert(s[i] == x);
        }
        if s.contains(x) && s.last() != x {
            let i = choose|i: int| 0 <= i < s.len() && s[i] == x;
            assert(s.drop_last()[i] == x);
        }
    }
}

/// Registering a member that was listed at most once leaves it listed
/// exactly once, whenever a member can be registered at all.
pub proof fn lemma_member_listed_once(m: TomlTable, member: Seq<char>)
    requires
        members_can_be_set(m),
        members_of(m) matches Some(a) ==> occurrences(a, TomlValue::Str(member)) <= 1,
    ensures
        members_of(with_member(m, member)) matches Some(a) && occurrences(a, TomlValue::Str(member)) == 1,
{
    reveal_strlit("workspace");
    reveal_strlit("members");
    let m1 = if m.contains_key("workspace"@) {
        m
    } else {
        m.insert("workspace"@, TomlItem::Table(Map::empty()))
    };
    let ws = m1["workspace"@]->Table_0;
    let ws1 = if ws.contains_key("members"@) {
        ws
    } else {
        ws.insert("members"@, TomlItem::Value(TomlValue::Array(Seq::empty())))
    };
    let a = ws1["members"@]->Value_0->Array_0;
    lemma_occurrences_contains(a, TomlValue::Str(member));
    if !a.contains(TomlValue::Str(member)) {
        assert(a.push(TomlValue::Str(member)).drop_last() =~= a);
    }
}

/// Registering the same member twice leaves the manifest as registering it
/// once does.
pub proof fn lemma_member_registration_idempotent(m: TomlTable, member: Seq<char>)
    ensures
        with_member(with_member(m, member), member) == with_member(m, member),
{
    reveal_strlit("workspace");
    reveal_strlit("members");
    let once = with_member(m, member);
    if members_can_be_set(m) {
        let a = members_of(once)->0;
        assert(members_of(once) is Some);
        if !members_of(m).unwrap_or(Seq::empty()).contains(TomlValue::Str(member)) {
            let before = if m.get("workspace"@) matches Some(TomlItem::Table(ws)) && ws.contains_key("members"@) {
                members_of(m)->0
            } else {
                Seq::empty()
            };
            assert(a == before.push(TomlValue::Str(member)));
            assert(a[before.len() as int] == TomlValue::Str(member));
        }
        assert(a.contains(TomlValue::Str(member)));
        let ws = once["workspace"@]->Table_0;
        assert(ws.insert("members"@, TomlItem::Value(TomlValue::Array(a))) =~= ws);
        assert(once.insert("workspace"@, TomlItem::Table(ws)) =~= once);
    } else {
        assert(once =~= m);
    }
}

/// A dependency just added is in its table with its version, and removing
/// it reports it and leaves it in neither dependency table, while every
/// value elsewhere stays.
pub proof fn lemma_added_dependency_is_removed(
    before: TomlTable,
    after_add: TomlTable,
    is_dev: bool,
    group_artifact: Seq<char>,
    version: Seq<char>,
)
    requires
        !(before.get(dependency_table(is_dev)) matches Some(TomlItem::Value(_)))
            && !(before.get(dependency_table(is_dev)) matches Some(TomlItem::Tables(_))),
        same_values(
            after_add,
            with_entry(before, dependency_table(is_dev), group_artifact, TomlItem::Value(TomlValue::Str(version))),
        ),
    ensures
        value_at(after_add, entry_path(dependency_table(is_dev), group_artifact)) == Some(TomlValue::Str(version)),
        has_entry(after_add, "dependencies"@, group_artifact) || has_entry(after_add, "dev-dependencies"@, group_artifact),
        !has_entry(
            without_entry(without_entry(after_add, "dependencies"@, group_artifact), "dev-dependencies"@, group_artifact),
            "dependencies"@,
            group_artifact,
        ),
        !has_entry(
            without_entry(without_entry(after_add, "dependencies"@, group_artifact), "dev-dependencies"@, group_artifact),
            "dev-dependencies"@,
            group_artifact,
        ),
{
    reveal_strlit("dependencies");
    reveal_strlit("dev-dependencies");
    reveal_with_fuel(item_at, 3);
    let dest = dependency_table(is_dev);
    let p = entry_path(dest, group_artifact);
    assert(p.drop_first() =~= seq![Step::Key(group_artifact)]);
    assert(p.drop_first().drop_first() =~= Seq::<Step>::empty());
    assert(value_at(after_add, p) == value_at(
        with_entry(before, dest, group_artifact, TomlItem::Value(TomlValue::Str(version))),
        p,
    ));
    assert("dependencies"@.len() != "dev-dependencies"@.len());
}

} // verus!
