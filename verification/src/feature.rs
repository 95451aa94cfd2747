//! The unified exec transaction: `features.unified_exec = true` in
//! `config.toml` while administrator mode runs, a journal that makes the
//! change recoverable, and the decision how it is undone without losing a
//! user's own edits.
use vstd::prelude::*;
use vstd::utf8::valid_utf8;
use vstd::utf8::decode_utf8;
use vstd::utf8::encode_utf8;
use crate::text::chars_of;
use crate::text::string_of;
use crate::text::push_str;
use crate::text::str_eq;
use crate::text::join;
use crate::text::join_str;
use crate::text::trim;
use crate::text::trim_chars;
use crate::text::utf8_bytes;
use crate::encoding::sha256_hex;
use crate::encoding::sha256_hex_of;
use crate::encoding::hex_lower;
use crate::encoding::to_hex_lower;
use crate::encoding::uuid_parsed;
use crate::encoding::uuid_parse_bytes;
use crate::encoding::fresh_uuid_bytes;
use crate::encoding::string_from_utf8;

verus! {

/// The unified exec journal's file name in the state directory.
pub const UNIFIED_EXEC_JOURNAL_FILE_NAME: &'static str = "administrator-mode-unified-exec.v1.json";

/// The unified exec guard's file name in the state directory.
pub const UNIFIED_EXEC_GUARD_FILE_NAME: &'static str = "administrator-mode-unified-exec.guard";

/// What `features.unified_exec` was before administrator mode set it.
#[derive(Debug, Clone, Copy, PartialEq, Eq, Structural)]
pub enum OriginalFeatureState {
    Missing,
    False,
}

/// The unified exec journal (schema 1).
#[derive(Debug, Clone, PartialEq, Eq)]
pub struct FeatureJournal {
    pub schema_version: u32,
    pub target_path: String,
    pub original_existed: bool,
    pub original_feature_state: OriginalFeatureState,
    pub managed_sha256: String,
    pub transaction_id: String,
    pub install_stage_path: String,
    pub install_original_path: String,
    pub restore_stage_path: String,
    pub restore_rollback_path: String,
}

/// The files of one unified exec transaction.
#[derive(Debug, Clone, PartialEq, Eq)]
pub struct FeatureTransactionPaths {
    pub journal: String,
    pub journal_stage: String,
    pub install_stage: String,
    pub install_original: String,
    pub restore_stage: String,
    pub restore_rollback: String,
}

/// How undoing unified exec ended.
#[derive(Debug, Clone, Copy, PartialEq, Eq, Structural)]
pub enum UnifiedExecRestoreOutcome {
    NoJournal,
    Restored,
}

/// Why the unified exec transaction refuses to go on.
#[derive(Debug, Clone, Copy, PartialEq, Eq, Structural)]
pub enum FeatureError {
    /// `config.toml` is not UTF-8.
    NotUtf8,
    /// `config.toml` is not TOML.
    InvalidToml,
    /// `features` is not a table.
    FeaturesNotTable,
    /// `features.unified_exec` is not a boolean.
    FlagNotBoolean,
    /// The journal's schema version is not 1.
    UnsupportedJournalVersion,
    /// The journal's transaction id is no UUID.
    InvalidTransactionId,
    /// The journal's transaction id is not in canonical simple form.
    NonCanonicalTransactionId,
    /// The journal's target is not `config.toml` in `CODEX_HOME`.
    InvalidTarget,
    /// The journal's install stage is not the transaction's.
    InvalidInstallStage,
    /// The journal's install original is not the transaction's.
    InvalidInstallOriginal,
    /// The journal's restore stage is not the transaction's.
    InvalidRestoreStage,
    /// The journal's rollback is not the transaction's.
    InvalidRollback,
    /// The journal's managed hash is not 64 hexadecimal digits.
    InvalidHash,
    /// `config.toml` vanished while a restore was pending.
    ConfigDisappeared,
    /// The system random source failed to give a transaction id.
    RandomSourceFailed,
    /// An earlier transaction's recovery journal is still pending.
    RecoveryPending,
}

/// What the transaction reads of a TOML item: a table's entries, a
/// boolean's value, and of any other item the text it writes.
pub enum TomlShape {
    /// A table or an inline table, with its entries.
    TableLike(Map<Seq<char>, TomlShape>),
    /// A boolean value.
    Bool(bool),
    /// Any other item (a string, number, date, array or array of tables),
    /// with the text its `Display` writes, decoration included.
    Other(Seq<char>),
}

/// A table without entries.
pub open spec fn no_entries() -> Map<Seq<char>, TomlShape> {
    Map::empty()
}

#[verifier::external_type_specification]
#[verifier::external_body]
pub struct ExTomlDocument(toml_edit::DocumentMut);

#[verifier::external_type_specification]
#[verifier::external_body]
pub struct ExTomlItem(toml_edit::Item);

/// The entries of a document's root table (entries holding no item are not
/// entries).
pub uninterp spec fn toml_document_shape(doc: toml_edit::DocumentMut) -> Map<Seq<char>, TomlShape>;

/// The shape of an item: `TableLike` for a table or inline table, `Bool`
/// for a boolean value, and otherwise `Other` with the item's `Display`
/// text.
pub uninterp spec fn toml_item_shape(item: toml_edit::Item) -> TomlShape;

/// The text a document writes itself as.
pub uninterp spec fn toml_document_text(doc: toml_edit::DocumentMut) -> Seq<char>;

/// The root entries `toml_edit` parses a text into, or `None` where it
/// reports a parse error.
pub uninterp spec fn toml_parsed(text: Seq<char>) -> Option<Map<Seq<char>, TomlShape>>;

/// Calls `str::parse::<toml_edit::DocumentMut>`. The contract claims the
/// named parse.
#[verifier::external_body]
fn toml_parse(text: &str) -> (r: Option<toml_edit::DocumentMut>)
    ensures
        r is Some <==> toml_parsed(text@) is Some,
        r matches Some(d) ==> toml_document_shape(d) == toml_parsed(text@)->0,
{
    text.parse::<toml_edit::DocumentMut>().ok()
}

/// Calls `toml_edit::DocumentMut::new`: a document without entries.
#[verifier::external_body]
fn toml_empty() -> (doc: toml_edit::DocumentMut)
    ensures
        toml_document_shape(doc) == no_entries(),
{
    toml_edit::DocumentMut::new()
}

/// Calls `get` of the document's root table: the item at `key`, if any.
#[verifier::external_body]
fn toml_get<'a>(doc: &'a toml_edit::DocumentMut, key: &str) -> (r: Option<&'a toml_edit::Item>)
    ensures
        r is Some <==> toml_document_shape(*doc).contains_key(key@),
        r matches Some(i) ==> toml_item_shape(*i) == toml_document_shape(*doc)[key@],
{
    doc.get(key)
}

/// Calls `toml_edit::Item::get` with a key: the entry of a table or inline
/// table, and nothing for any other item.
#[verifier::external_body]
fn toml_item_get<'a>(item: &'a toml_edit::Item, key: &str) -> (r: Option<&'a toml_edit::Item>)
    ensures
        toml_item_shape(*item) matches TomlShape::TableLike(m) ==> (r is Some <==> m.contains_key(
            key@,
        )) && (r matches Some(v) ==> toml_item_shape(*v) == m[key@]),
        !(toml_item_shape(*item) is TableLike) ==> r is None,
{
    item.get(key)
}

/// Calls `toml_edit::Item::is_table_like`.
#[verifier::external_body]
fn toml_item_is_table_like(item: &toml_edit::Item) -> (r: bool)
    ensures
        r == toml_item_shape(*item) is TableLike,
{
    item.is_table_like()
}

/// Calls `toml_edit::Item::as_bool`.
#[verifier::external_body]
fn toml_item_as_bool(item: &toml_edit::Item) -> (r: Option<bool>)
    ensures
        r == (match toml_item_shape(*item) {
            TomlShape::Bool(b) => Some(b),
            _ => None,
        }),
{
    item.as_bool()
}

/// Calls `is_empty` of a table-like item (through `as_table_like`): whether
/// it has no entries.
#[verifier::external_body]
fn toml_table_is_empty(item: &toml_edit::Item) -> (r: bool)
    requires
        toml_item_shape(*item) is TableLike,
    ensures
        r == (toml_item_shape(*item)->TableLike_0 == no_entries()),
{
    match item.as_table_like() {
        Some(table) => table.is_empty(),
        None => false,
    }
}

/// Makes an empty table item (`toml_edit::Table::new`).
#[verifier::external_body]
fn toml_new_table() -> (r: toml_edit::Item)
    ensures
        toml_item_shape(r) == TomlShape::TableLike(Map::empty()),
{
    toml_edit::Item::Table(toml_edit::Table::new())
}

/// Calls `toml_edit::value` on a boolean.
#[verifier::external_body]
fn toml_bool(b: bool) -> (r: toml_edit::Item)
    ensures
        toml_item_shape(r) == TomlShape::Bool(b),
{
    toml_edit::value(b)
}

/// Calls `insert` of the document's root table.
#[verifier::external_body]
fn toml_insert(doc: &mut toml_edit::DocumentMut, key: &str, item: toml_edit::Item)
    requires
        toml_item_shape(item) is TableLike,
    ensures
        toml_document_shape(*final(doc)) == toml_document_shape(*old(doc)).insert(
            key@,
            toml_item_shape(item),
        ),
{
    doc.insert(key, item);
}

/// Assigns a value at `key` in the table-like item at `table` through the
/// document's and the item's `IndexMut`.
#[verifier::external_body]
fn toml_table_insert(doc: &mut toml_edit::DocumentMut, table: &str, key: &str, item: toml_edit::Item)
    requires
        toml_document_shape(*old(doc)).contains_key(table@),
        toml_document_shape(*old(doc))[table@] is TableLike,
        toml_item_shape(item) is Bool,
    ensures
        toml_document_shape(*final(doc)) == toml_document_shape(*old(doc)).insert(
            table@,
            TomlShape::TableLike(
                toml_document_shape(*old(doc))[table@]->TableLike_0.insert(key@, toml_item_shape(item)),
            ),
        ),
{
    doc[table][key] = item;
}

/// Calls `remove` of the table-like item at `table` (through
/// `as_table_like_mut`).
#[verifier::external_body]
fn toml_table_remove(doc: &mut toml_edit::DocumentMut, table: &str, key: &str)
    requires
        toml_document_shape(*old(doc)).contains_key(table@),
        toml_document_shape(*old(doc))[table@] is TableLike,
    ensures
        toml_document_shape(*final(doc)) == toml_document_shape(*old(doc)).insert(
            table@,
            TomlShape::TableLike(toml_document_shape(*old(doc))[table@]->TableLike_0.remove(key@)),
        ),
{
    if let Some(t) = doc[table].as_table_like_mut() {
        t.remove(key);
    }
}

/// Calls `remove` of the document's root table.
#[verifier::external_body]
fn toml_remove(doc: &mut toml_edit::DocumentMut, key: &str)
    ensures
        toml_document_shape(*final(doc)) == toml_document_shape(*old(doc)).remove(key@),
{
    doc.remove(key);
}

/// Calls `to_string` (`Display`) of a document.
#[verifier::external_body]
fn toml_to_string(doc: &toml_edit::DocumentMut) -> (r: String)
    ensures
        r@ == toml_document_text(*doc),
{
    doc.to_string()
}

/// The UTF-8 byte order mark.
pub open spec fn bom() -> Seq<u8> {
    seq![0xefu8, 0xbbu8, 0xbfu8]
}

/// Bytes split into whether they start with a byte order mark, and the rest.
pub open spec fn split_bom_spec(bytes: Seq<u8>) -> (bool, Seq<u8>) {
    if bytes.len() >= 3 && bytes.take(3) == bom() {
        (true, bytes.skip(3))
    } else {
        (false, bytes)
    }
}

/// Bytes with a byte order mark put back in front, where there was one.
pub open spec fn with_bom_spec(had_bom: bool, bytes: Seq<u8>) -> Seq<u8> {
    if had_bom {
        bom() + bytes
    } else {
        bytes
    }
}

/// Splits a byte order mark off the front of bytes.
pub fn split_bom(bytes: &[u8]) -> (r: (bool, Vec<u8>))
    ensures
        (r.0, r.1@) == split_bom_spec(bytes@),
{
    let has = bytes.len() >= 3 && bytes[0] == 0xef && bytes[1] == 0xbb && bytes[2] == 0xbf;
    let start: usize = if has {
        3
    } else {
        0
    };
    let mut rest: Vec<u8> = Vec::new();
    let mut i = start;
    while i < bytes.len()
        invariant
            start <= i <= bytes.len(),
            rest@ == bytes@.subrange(start as int, i as int),
        decreases bytes.len() - i,
    {
        rest.push(bytes[i]);
        i += 1;
        assert(rest@ =~= bytes@.subrange(start as int, i as int));
    }
    if has {
        assert(bytes@.take(3) =~= bom());
        assert(rest@ =~= bytes@.skip(3));
    } else {
        assert(bytes@.len() >= 3 ==> bytes@.take(3) != bom()) by {
            if bytes@.len() >= 3 && bytes@.take(3) == bom() {
                assert(bytes@.take(3)[0] == bytes@[0]);
                assert(bytes@.take(3)[1] == bytes@[1]);
                assert(bytes@.take(3)[2] == bytes@[2]);
            }
        }
        assert(rest@ =~= bytes@);
    }
    (has, rest)
}

/// Puts a byte order mark back in front of bytes where there was one.
pub fn with_bom(had_bom: bool, bytes: Vec<u8>) -> (r: Vec<u8>)
    ensures
        r@ == with_bom_spec(had_bom, bytes@),
{
    if !had_bom {
        return bytes;
    }
    let mut r: Vec<u8> = Vec::new();
    r.push(0xef);
    r.push(0xbb);
    r.push(0xbf);
    let mut i: usize = 0;
    while i < bytes.len()
        invariant
            i <= bytes.len(),
            r@ == bom() + bytes@.take(i as int),
        decreases bytes.len() - i,
    {
        r.push(bytes[i]);
        i += 1;
        assert(r@ =~= bom() + bytes@.take(i as int));
    }
    assert(bytes@.take(bytes.len() as int) =~= bytes@);
    r
}

/// Law: putting back the byte order mark that was split off gives the
/// original bytes, and splitting a marked text gives the mark and the text.
pub proof fn lemma_bom_round_trip(bytes: Seq<u8>)
    ensures
        with_bom_spec(split_bom_spec(bytes).0, split_bom_spec(bytes).1) == bytes,
        split_bom_spec(with_bom_spec(true, bytes)) == (true, bytes),
{
    if bytes.len() >= 3 && bytes.take(3) == bom() {
        assert(bom() + bytes.skip(3) =~= bytes);
    }
    let marked = bom() + bytes;
    assert(marked.take(3) =~= bom());
    assert(marked.skip(3) =~= bytes);
}

/// The document text of `config.toml`: without byte order mark, decoded as
/// UTF-8, and empty when it holds only whitespace.
pub open spec fn document_text(bytes: Seq<u8>) -> Result<(Seq<char>, bool), FeatureError> {
    let (had_bom, body) = split_bom_spec(bytes);
    if !valid_utf8(body) {
        Err(FeatureError::NotUtf8)
    } else if trim(decode_utf8(body)).len() == 0 {
        Ok((Seq::empty(), had_bom))
    } else {
        Ok((decode_utf8(body), had_bom))
    }
}

/// Reads `config.toml`'s bytes as a document text.
pub fn parse_document(bytes: &[u8]) -> (r: Result<(String, bool), FeatureError>)
    ensures
        r matches Ok((t, b)) ==> document_text(bytes@) == Ok::<(Seq<char>, bool), FeatureError>(
            (t@, b),
        ),
        r matches Err(e) ==> document_text(bytes@) == Err::<(Seq<char>, bool), FeatureError>(e),
{
    let (had_bom, body) = split_bom(bytes);
    match string_from_utf8(body) {
        Err(_) => Err(FeatureError::NotUtf8),
        Ok(text) => {
            let t = trim_chars(&chars_of(text.as_str()));
            if t.len() == 0 {
                Ok((String::new(), had_bom))
            } else {
                Ok((text, had_bom))
            }
        },
    }
}

/// The root entries of a document text: none for a blank text, else what
/// `toml_edit` parses.
pub open spec fn document_shape_of(text: Seq<char>) -> Result<Map<Seq<char>, TomlShape>, FeatureError> {
    if trim(text).len() == 0 {
        Ok(Map::empty())
    } else {
        match toml_parsed(text) {
            None => Err(FeatureError::InvalidToml),
            Some(m) => Ok(m),
        }
    }
}

/// Makes the document of a document text.
pub fn load_document(text: &str) -> (r: Result<toml_edit::DocumentMut, FeatureError>)
    ensures
        r matches Ok(d) ==> document_shape_of(text@) == Ok::<
            Map<Seq<char>, TomlShape>,
            FeatureError,
        >(toml_document_shape(d)),
        r matches Err(e) ==> document_shape_of(text@) == Err::<Map<Seq<char>, TomlShape>, FeatureError>(
            e,
        ),
{
    if trim_chars(&chars_of(text)).len() == 0 {
        Ok(toml_empty())
    } else {
        match toml_parse(text) {
            None => Err(FeatureError::InvalidToml),
            Some(d) => Ok(d),
        }
    }
}

/// `features.unified_exec` of a document's entries: nothing when `features`
/// or the flag is absent; `features` must be a table and the flag a
/// boolean.
pub open spec fn features_flag(m: Map<Seq<char>, TomlShape>) -> Result<Option<bool>, FeatureError> {
    if !m.contains_key("features"@) {
        Ok(None)
    } else {
        match m["features"@] {
            TomlShape::TableLike(f) => if !f.contains_key("unified_exec"@) {
                Ok(None)
            } else {
                match f["unified_exec"@] {
                    TomlShape::Bool(b) => Ok(Some(b)),
                    _ => Err(FeatureError::FlagNotBoolean),
                }
            },
            _ => Err(FeatureError::FeaturesNotTable),
        }
    }
}

/// The entries after setting `features.unified_exec`, making `features` an
/// empty table first where it is absent.
pub open spec fn flag_set_shape(m: Map<Seq<char>, TomlShape>, enabled: bool) -> Result<
    Map<Seq<char>, TomlShape>,
    FeatureError,
> {
    if !m.contains_key("features"@) {
        Ok(
            m.insert(
                "features"@,
                TomlShape::TableLike(Map::empty().insert("unified_exec"@, TomlShape::Bool(enabled))),
            ),
        )
    } else {
        match m["features"@] {
            TomlShape::TableLike(f) => Ok(
                m.insert("features"@, TomlShape::TableLike(f.insert("unified_exec"@, TomlShape::Bool(enabled)))),
            ),
            _ => Err(FeatureError::FeaturesNotTable),
        }
    }
}

/// The entries after removing `features.unified_exec`, and `features` with
/// it when that leaves the table empty.
pub open spec fn flag_removed_shape(m: Map<Seq<char>, TomlShape>) -> Result<
    Map<Seq<char>, TomlShape>,
    FeatureError,
> {
    if !m.contains_key("features"@) {
        Ok(m)
    } else {
        match m["features"@] {
            TomlShape::TableLike(f) => if f.remove("unified_exec"@) == no_entries() {
                Ok(m.remove("features"@))
            } else {
                Ok(m.insert("features"@, TomlShape::TableLike(f.remove("unified_exec"@))))
            },
            _ => Err(FeatureError::FeaturesNotTable),
        }
    }
}

/// `features.unified_exec` of a document text.
pub open spec fn unified_exec_spec(text: Seq<char>) -> Result<Option<bool>, FeatureError> {
    match document_shape_of(text) {
        Err(e) => Err(e),
        Ok(m) => features_flag(m),
    }
}

/// Whether `features` is absent or a table.
fn features_state(doc: &toml_edit::DocumentMut) -> (r: Option<bool>)
    ensures
        r is None <==> !toml_document_shape(*doc).contains_key("features"@),
        r matches Some(t) ==> t == toml_document_shape(*doc)["features"@] is TableLike,
{
    match toml_get(doc, "features") {
        None => None,
        Some(item) => Some(toml_item_is_table_like(item)),
    }
}

/// Reads `features.unified_exec` of a document.
pub fn read_unified_exec(doc: &toml_edit::DocumentMut) -> (r: Result<Option<bool>, FeatureError>)
    ensures
        r == features_flag(toml_document_shape(*doc)),
{
    match toml_get(doc, "features") {
        None => Ok(None),
        Some(item) => {
            if !toml_item_is_table_like(item) {
                return Err(FeatureError::FeaturesNotTable);
            }
            match toml_item_get(item, "unified_exec") {
                None => Ok(None),
                Some(value) => match toml_item_as_bool(value) {
                    Some(b) => Ok(Some(b)),
                    None => Err(FeatureError::FlagNotBoolean),
                },
            }
        },
    }
}

/// Sets `features.unified_exec` in a document, making `features` a table
/// where it is absent; a `features` that is not a table is refused and the
/// document left as it was.
pub fn set_unified_exec(doc: &mut toml_edit::DocumentMut, enabled: bool) -> (r: Result<(), FeatureError>)
    ensures
        match flag_set_shape(toml_document_shape(*old(doc)), enabled) {
            Ok(m) => r is Ok && toml_document_shape(*final(doc)) == m,
            Err(e) => r == Err::<(), FeatureError>(e) && *final(doc) == *old(doc),
        },
{
    match features_state(doc) {
        None => {
            toml_insert(doc, "features", toml_new_table());
        },
        Some(true) => {},
        Some(false) => {
            return Err(FeatureError::FeaturesNotTable);
        },
    }
    toml_table_insert(doc, "features", "unified_exec", toml_bool(enabled));
    Ok(())
}

/// Removes `features.unified_exec` from a document, and `features` when
/// that leaves it empty; a `features` that is not a table is refused and
/// the document left as it was.
pub fn remove_unified_exec(doc: &mut toml_edit::DocumentMut) -> (r: Result<(), FeatureError>)
    ensures
        match flag_removed_shape(toml_document_shape(*old(doc))) {
            Ok(m) => r is Ok && toml_document_shape(*final(doc)) == m,
            Err(e) => r == Err::<(), FeatureError>(e) && *final(doc) == *old(doc),
        },
{
    match features_state(doc) {
        None => {
            return Ok(());
        },
        Some(true) => {},
        Some(false) => {
            return Err(FeatureError::FeaturesNotTable);
        },
    }
    toml_table_remove(doc, "features", "unified_exec");
    let empty = match toml_get(doc, "features") {
        Some(item) => toml_table_is_empty(item),
        None => false,
    };
    if empty {
        toml_remove(doc, "features");
    }
    Ok(())
}

/// The file a transaction writes: the text's UTF-8 bytes, with the byte
/// order mark if the original had one.
pub open spec fn serialized_spec(text: Seq<char>, had_bom: bool) -> Seq<u8> {
    with_bom_spec(had_bom, encode_utf8(text))
}

/// Writes a document back as bytes.
pub fn serialize_document(doc: &toml_edit::DocumentMut, had_bom: bool) -> (r: Vec<u8>)
    ensures
        r@ == serialized_spec(toml_document_text(*doc), had_bom),
{
    let text = toml_to_string(doc);
    with_bom(had_bom, utf8_bytes(&text))
}

/// The unified exec journal's path.
pub open spec fn feature_journal_path_spec(state_dir: Seq<char>) -> Seq<char> {
    join(state_dir, UNIFIED_EXEC_JOURNAL_FILE_NAME@)
}

/// `dir` joined with `prefix`, the transaction id and `suffix`.
pub open spec fn id_file(dir: Seq<char>, prefix: Seq<char>, id: Seq<char>, suffix: Seq<char>) -> Seq<char> {
    join(dir, prefix + id + suffix)
}

fn id_file_exec(dir: &str, prefix: &str, id: &str, suffix: &str) -> (r: String)
    ensures
        r@ == id_file(dir@, prefix@, id@, suffix@),
{
    let mut name: Vec<char> = Vec::new();
    push_str(&mut name, prefix);
    push_str(&mut name, id);
    push_str(&mut name, suffix);
    let n = string_of(&name);
    join_str(dir, n.as_str())
}

/// The model of [`FeatureTransactionPaths`].
pub struct FeaturePathsModel {
    pub journal: Seq<char>,
    pub journal_stage: Seq<char>,
    pub install_stage: Seq<char>,
    pub install_original: Seq<char>,
    pub restore_stage: Seq<char>,
    pub restore_rollback: Seq<char>,
}

impl View for FeatureTransactionPaths {
    type V = FeaturePathsModel;

    open spec fn view(&self) -> FeaturePathsModel {
        FeaturePathsModel {
            journal: self.journal@,
            journal_stage: self.journal_stage@,
            install_stage: self.install_stage@,
            install_original: self.install_original@,
            restore_stage: self.restore_stage@,
            restore_rollback: self.restore_rollback@,
        }
    }
}

/// The files of the unified exec transaction with id `id`.
pub open spec fn feature_paths_spec(codex_home: Seq<char>, state_dir: Seq<char>, id: Seq<char>) -> FeaturePathsModel {
    FeaturePathsModel {
        journal: feature_journal_path_spec(state_dir),
        journal_stage: id_file(state_dir, ".administrator-mode-unified-exec."@, id, ".journal"@),
        install_stage: id_file(codex_home, ".administrator-mode-unified-exec."@, id, ".managed"@),
        install_original: id_file(
            codex_home,
            ".administrator-mode-unified-exec."@,
            id,
            ".original"@,
        ),
        restore_stage: id_file(codex_home, ".administrator-mode-unified-exec."@, id, ".restore"@),
        restore_rollback: id_file(
            codex_home,
            ".administrator-mode-unified-exec."@,
            id,
            ".rollback"@,
        ),
    }
}

/// The files of the unified exec transaction with id `id`.
pub fn feature_transaction_paths(codex_home: &str, state_dir: &str, id: &str) -> (r:
    FeatureTransactionPaths)
    ensures
        r@ == feature_paths_spec(codex_home@, state_dir@, id@),
{
    FeatureTransactionPaths {
        journal: join_str(state_dir, UNIFIED_EXEC_JOURNAL_FILE_NAME),
        journal_stage: id_file_exec(state_dir, ".administrator-mode-unified-exec.", id, ".journal"),
        install_stage: id_file_exec(codex_home, ".administrator-mode-unified-exec.", id, ".managed"),
        install_original: id_file_exec(
            codex_home,
            ".administrator-mode-unified-exec.",
            id,
            ".original",
        ),
        restore_stage: id_file_exec(codex_home, ".administrator-mode-unified-exec.", id, ".restore"),
        restore_rollback: id_file_exec(
            codex_home,
            ".administrator-mode-unified-exec.",
            id,
            ".rollback",
        ),
    }
}

/// Whether a character is an ASCII hexadecimal digit.
pub open spec fn is_hex_digit(c: char) -> bool {
    ('0' <= c && c <= '9') || ('a' <= c && c <= 'f') || ('A' <= c && c <= 'F')
}

/// The unified exec journal checks, in order.
pub open spec fn feature_journal_check(codex_home: Seq<char>, state_dir: Seq<char>, journal: FeatureJournal) -> Result<
    (),
    FeatureError,
> {
    let id = journal.transaction_id@;
    let paths = feature_paths_spec(codex_home, state_dir, id);
    if journal.schema_version != 1 {
        Err(FeatureError::UnsupportedJournalVersion)
    } else if uuid_parsed(id) is None {
        Err(FeatureError::InvalidTransactionId)
    } else if hex_lower(uuid_parsed(id)->0) != id {
        Err(FeatureError::NonCanonicalTransactionId)
    } else if journal.target_path@ != join(codex_home, "config.toml"@) {
        Err(FeatureError::InvalidTarget)
    } else if journal.install_stage_path@ != paths.install_stage {
        Err(FeatureError::InvalidInstallStage)
    } else if journal.install_original_path@ != paths.install_original {
        Err(FeatureError::InvalidInstallOriginal)
    } else if journal.restore_stage_path@ != paths.restore_stage {
        Err(FeatureError::InvalidRestoreStage)
    } else if journal.restore_rollback_path@ != paths.restore_rollback {
        Err(FeatureError::InvalidRollback)
    } else if !(journal.managed_sha256@.len() == 64 && forall|i: int|
        0 <= i < 64 ==> is_hex_digit(#[trigger] journal.managed_sha256@[i])) {
        Err(FeatureError::InvalidHash)
    } else {
        Ok(())
    }
}

fn all_hex(s: &str) -> (r: bool)
    ensures
        r == (s@.len() == 64 && forall|i: int| 0 <= i < 64 ==> is_hex_digit(#[trigger] s@[i])),
{
    let c = chars_of(s);
    if c.len() != 64 {
        return false;
    }
    let mut i: usize = 0;
    while i < 64
        invariant
            i <= 64,
            c@ == s@,
            c@.len() == 64,
            forall|j: int| 0 <= j < i ==> is_hex_digit(#[trigger] s@[j]),
        decreases 64 - i,
    {
        let x = c[i];
        if !(('0' <= x && x <= '9') || ('a' <= x && x <= 'f') || ('A' <= x && x <= 'F')) {
            assert(!is_hex_digit(s@[i as int]));
            return false;
        }
        i += 1;
    }
    true
}

/// Validates a unified exec journal and gives the transaction's files.
pub fn validate_feature_journal(codex_home: &str, state_dir: &str, journal: &FeatureJournal) -> (r:
    Result<FeatureTransactionPaths, FeatureError>)
    ensures
        r matches Err(e) ==> feature_journal_check(codex_home@, state_dir@, *journal) == Err::<
            (),
            FeatureError,
        >(e),
        r matches Ok(p) ==> feature_journal_check(codex_home@, state_dir@, *journal) is Ok && p@
            == feature_paths_spec(codex_home@, state_dir@, journal.transaction_id@),
{
    if journal.schema_version != 1 {
        return Err(FeatureError::UnsupportedJournalVersion);
    }
    let bytes = match uuid_parse_bytes(journal.transaction_id.as_str()) {
        None => {
            return Err(FeatureError::InvalidTransactionId);
        },
        Some(b) => b,
    };
    let canonical = to_hex_lower(bytes.as_slice());
    if !str_eq(canonical.as_str(), journal.transaction_id.as_str()) {
        return Err(FeatureError::NonCanonicalTransactionId);
    }
    let paths = feature_transaction_paths(codex_home, state_dir, journal.transaction_id.as_str());
    let target = join_str(codex_home, "config.toml");
    if !str_eq(journal.target_path.as_str(), target.as_str()) {
        return Err(FeatureError::InvalidTarget);
    }
    if !str_eq(journal.install_stage_path.as_str(), paths.install_stage.as_str()) {
        return Err(FeatureError::InvalidInstallStage);
    }
    if !str_eq(journal.install_original_path.as_str(), paths.install_original.as_str()) {
        return Err(FeatureError::InvalidInstallOriginal);
    }
    if !str_eq(journal.restore_stage_path.as_str(), paths.restore_stage.as_str()) {
        return Err(FeatureError::InvalidRestoreStage);
    }
    if !str_eq(journal.restore_rollback_path.as_str(), paths.restore_rollback.as_str()) {
        return Err(FeatureError::InvalidRollback);
    }
    if !all_hex(journal.managed_sha256.as_str()) {
        return Err(FeatureError::InvalidHash);
    }
    Ok(paths)
}

/// What to write over `config.toml` while undoing unified exec.
#[derive(Debug, Clone, PartialEq, Eq)]
pub enum UnifiedExecRestoreAction {
    /// Leave `config.toml` as it is.
    Keep,
    /// Delete `config.toml` (it did not exist before).
    DeleteTarget,
    /// Replace `config.toml` with these bytes.
    Replace(Vec<u8>),
}

/// What a restore must write over `config.toml`.
pub enum RestoreActionModel {
    Keep,
    DeleteTarget,
    /// These exact bytes.
    Replace(Seq<u8>),
    /// The current file edited to these root entries, with or without a
    /// byte order mark.
    Edit { entries: Map<Seq<char>, TomlShape>, had_bom: bool },
}

/// Whether an action does what the model asks: an edit is a replacement by
/// the text of a document with the edited entries.
pub open spec fn realizes(a: UnifiedExecRestoreAction, m: RestoreActionModel) -> bool {
    match m {
        RestoreActionModel::Keep => a is Keep,
        RestoreActionModel::DeleteTarget => a is DeleteTarget,
        RestoreActionModel::Replace(b) => a matches UnifiedExecRestoreAction::Replace(x) && x@ == b,
        RestoreActionModel::Edit { entries, had_bom } => a matches UnifiedExecRestoreAction::Replace(x)
            && exists|d: toml_edit::DocumentMut|
            toml_document_shape(d) == entries && x@ == serialized_spec(
                #[trigger] toml_document_text(d),
                had_bom,
            ),
    }
}

/// Whether an action carries out a planned restore.
pub open spec fn planned(plan: Result<RestoreActionModel, FeatureError>, a: UnifiedExecRestoreAction) -> bool {
    match plan {
        Ok(m) => realizes(a, m),
        Err(_) => false,
    }
}

/// Undoing the flag in the current file's own terms: unless the flag is
/// still `true` the file is kept; otherwise the flag is removed or set back
/// to `false`, as it was.
pub open spec fn semantic_restore_spec(state: OriginalFeatureState, current: Seq<u8>) -> Result<
    RestoreActionModel,
    FeatureError,
> {
    match document_text(current) {
        Err(e) => Err(e),
        Ok((text, had_bom)) => match document_shape_of(text) {
            Err(e) => Err(e),
            Ok(m) => match features_flag(m) {
                Err(e) => Err(e),
                Ok(flag) => if flag != Some(true) {
                    Ok(RestoreActionModel::Keep)
                } else {
                    let edited = match state {
                        OriginalFeatureState::Missing => flag_removed_shape(m),
                        OriginalFeatureState::False => flag_set_shape(m, false),
                    };
                    match edited {
                        Err(e) => Err(e),
                        Ok(entries) => Ok(RestoreActionModel::Edit { entries, had_bom }),
                    }
                },
            },
        },
    }
}

/// Plans undoing the flag in the current file's own terms.
pub fn restore_semantically(state: OriginalFeatureState, current: &[u8]) -> (r: Result<
    UnifiedExecRestoreAction,
    FeatureError,
>)
    ensures
        r matches Ok(a) ==> planned(semantic_restore_spec(state, current@), a),
        r matches Err(e) ==> semantic_restore_spec(state, current@) == Err::<
            RestoreActionModel,
            FeatureError,
        >(e),
{
    let (text, had_bom) = parse_document(current)?;
    let mut doc = load_document(text.as_str())?;
    let flag = read_unified_exec(&doc)?;
    let enabled = match flag {
        Some(b) => b,
        None => false,
    };
    if !enabled {
        return Ok(UnifiedExecRestoreAction::Keep);
    }
    match state {
        OriginalFeatureState::Missing => remove_unified_exec(&mut doc)?,
        OriginalFeatureState::False => set_unified_exec(&mut doc, false)?,
    };
    let bytes = serialize_document(&doc, had_bom);
    let r = UnifiedExecRestoreAction::Replace(bytes);
    assert(toml_document_shape(doc) == toml_document_shape(doc) && bytes@ == serialized_spec(
        toml_document_text(doc),
        had_bom,
    ));
    Ok(r)
}

/// The view of optional bytes.
pub open spec fn opt_bytes(o: Option<&[u8]>) -> Option<Seq<u8>> {
    match o {
        Some(b) => Some(b@),
        None => None,
    }
}

/// How `config.toml` is restored from a journal: an absent file is fine only
/// if there was none before; the untouched managed file is replaced by the
/// clean original this process still holds (or deleted when there was
/// none); anything else is restored in its own terms.
pub open spec fn unified_exec_restore_spec(
    journal: FeatureJournal,
    clean_original: Option<Option<Seq<u8>>>,
    current: Option<Seq<u8>>,
) -> Result<RestoreActionModel, FeatureError> {
    match current {
        None => if !journal.original_existed {
            Ok(RestoreActionModel::Keep)
        } else {
            Err(FeatureError::ConfigDisappeared)
        },
        Some(bytes) => if sha256_hex(bytes) == journal.managed_sha256@ && clean_original is Some {
            match clean_original->0 {
                Some(o) => Ok(RestoreActionModel::Replace(o)),
                None => Ok(RestoreActionModel::DeleteTarget),
            }
        } else {
            semantic_restore_spec(journal.original_feature_state, bytes)
        },
    }
}

fn copy_bytes(b: &[u8]) -> (r: Vec<u8>)
    ensures
        r@ == b@,
{
    let mut r: Vec<u8> = Vec::new();
    let mut i: usize = 0;
    while i < b.len()
        invariant
            i <= b.len(),
            r@ == b@.take(i as int),
        decreases b.len() - i,
    {
        r.push(b[i]);
        i += 1;
        assert(r@ =~= b@.take(i as int));
    }
    assert(b@.take(b.len() as int) =~= b@);
    r
}

/// Plans how `config.toml` is restored from a journal.
pub fn plan_unified_exec_restore(
    journal: &FeatureJournal,
    clean_original: Option<Option<&[u8]>>,
    current: Option<&[u8]>,
) -> (r: Result<UnifiedExecRestoreAction, FeatureError>)
    ensures
        r matches Ok(a) ==> planned(unified_exec_restore_spec(
            *journal,
            match clean_original {
                Some(o) => Some(opt_bytes(o)),
                None => None,
            },
            opt_bytes(current),
        ), a),
        r matches Err(e) ==> unified_exec_restore_spec(
            *journal,
            match clean_original {
                Some(o) => Some(opt_bytes(o)),
                None => None,
            },
            opt_bytes(current),
        ) == Err::<RestoreActionModel, FeatureError>(e),
{
    match current {
        None => if !journal.original_existed {
            Ok(UnifiedExecRestoreAction::Keep)
        } else {
            Err(FeatureError::ConfigDisappeared)
        },
        Some(bytes) => {
            let actual = sha256_hex_of(bytes);
            if str_eq(actual.as_str(), journal.managed_sha256.as_str()) && clean_original.is_some() {
                match clean_original {
                    Some(Some(o)) => Ok(UnifiedExecRestoreAction::Replace(copy_bytes(o))),
                    _ => Ok(UnifiedExecRestoreAction::DeleteTarget),
                }
            } else {
                restore_semantically(journal.original_feature_state, bytes)
            }
        },
    }
}

/// Which file puts back a `config.toml` that an interrupted replacement
/// left missing: the restore rollback first, else the install original.
#[derive(Debug, Clone, Copy, PartialEq, Eq, Structural)]
pub enum InterruptedReplaceSource {
    Nothing,
    RestoreRollback,
    InstallOriginal,
}

/// Decides how to repair an interrupted replacement of `config.toml`.
pub fn interrupted_replace_source(
    target_exists: bool,
    rollback_exists: bool,
    install_original_exists: bool,
) -> (r: InterruptedReplaceSource)
    ensures
        target_exists ==> r == InterruptedReplaceSource::Nothing,
        !target_exists && rollback_exists ==> r == InterruptedReplaceSource::RestoreRollback,
        !target_exists && !rollback_exists && install_original_exists ==> r
            == InterruptedReplaceSource::InstallOriginal,
        !target_exists && !rollback_exists && !install_original_exists ==> r
            == InterruptedReplaceSource::Nothing,
{
    if target_exists {
        InterruptedReplaceSource::Nothing
    } else if rollback_exists {
        InterruptedReplaceSource::RestoreRollback
    } else if install_original_exists {
        InterruptedReplaceSource::InstallOriginal
    } else {
        InterruptedReplaceSource::Nothing
    }
}

/// The library's part of a unified exec transaction: where it lives, the
/// clean original it replaced, and whether it holds a journal (none when the
/// flag was already on).
#[derive(Debug, Clone, PartialEq, Eq)]
pub struct AdminUnifiedExecTransaction {
    pub codex_home: String,
    pub state_dir: String,
    pub original_bytes: Option<Vec<u8>>,
    pub holds_journal: bool,
}

/// What installing unified exec writes.
#[derive(Debug, Clone, PartialEq, Eq)]
pub struct UnifiedExecInstallPlan {
    pub transaction: AdminUnifiedExecTransaction,
    /// The journal and managed file to publish; none when the flag is on.
    pub change: Option<(FeatureJournal, Vec<u8>, FeatureTransactionPaths)>,
}

impl AdminUnifiedExecTransaction {
    /// Prepares turning `features.unified_exec` on in `config.toml` (its
    /// bytes, if it exists) as the transaction with the sixteen id bytes
    /// `id`: nothing to write when it is already on; otherwise the managed
    /// file and the journal that records the flag's original state. It fails
    /// exactly where the file cannot be read as a document with a boolean
    /// flag in a `features` table, with that error.
    pub fn install_with_id(codex_home: &str, state_dir: &str, original: Option<&[u8]>, id: &[u8]) -> (r:
        Result<UnifiedExecInstallPlan, FeatureError>)
        requires
            id@.len() == 16,
        ensures
            ({
                let bytes = match original {
                    Some(o) => o@,
                    None => Seq::<u8>::empty(),
                };
                match document_text(bytes) {
                    Err(e) => r == Err::<UnifiedExecInstallPlan, FeatureError>(e),
                    Ok((text, _)) => match unified_exec_spec(text) {
                        Err(e) => r == Err::<UnifiedExecInstallPlan, FeatureError>(e),
                        Ok(_) => r is Ok,
                    },
                }
            }),
            r matches Ok(p) ==> {
                let bytes = match original {
                    Some(o) => o@,
                    None => Seq::<u8>::empty(),
                };
                let text = document_text(bytes)->Ok_0.0;
                let entries = document_shape_of(text)->Ok_0;
                &&& p.transaction.codex_home@ == codex_home@
                &&& p.transaction.state_dir@ == state_dir@
                &&& opt_bytes_vec(p.transaction.original_bytes) == opt_bytes(original)
                &&& document_text(bytes) is Ok
                &&& document_shape_of(text) is Ok
                &&& unified_exec_spec(text) is Ok
                &&& (unified_exec_spec(text) == Ok::<Option<bool>, FeatureError>(Some(true))
                    <==> p.change is None)
                &&& p.transaction.holds_journal == p.change is Some
                &&& (p.change matches Some((journal, managed, paths)) ==> {
                    &&& journal.schema_version == 1
                    &&& journal.target_path@ == join(codex_home@, "config.toml"@)
                    &&& journal.original_existed == original is Some
                    &&& journal.original_feature_state == if unified_exec_spec(text) == Ok::<
                        Option<bool>,
                        FeatureError,
                    >(Some(false)) {
                        OriginalFeatureState::False
                    } else {
                        OriginalFeatureState::Missing
                    }
                    &&& exists|d: toml_edit::DocumentMut|
                        toml_document_shape(d) == flag_set_shape(entries, true)->Ok_0
                            && features_flag(toml_document_shape(d)) == Ok::<
                            Option<bool>,
                            FeatureError,
                        >(Some(true)) && managed@ == serialized_spec(
                            #[trigger] toml_document_text(d),
                            document_text(bytes)->Ok_0.1,
                        )
                    &&& journal.managed_sha256@ == sha256_hex(managed@)
                    &&& journal.managed_sha256@.len() == 64
                    &&& paths@ == feature_paths_spec(codex_home@, state_dir@, journal.transaction_id@)
                    &&& journal.transaction_id@ == hex_lower(id@)
                    &&& journal.install_stage_path@ == paths.install_stage@
                    &&& journal.install_original_path@ == paths.install_original@
                    &&& journal.restore_stage_path@ == paths.restore_stage@
                    &&& journal.restore_rollback_path@ == paths.restore_rollback@
                })
            },
    {
        let bytes: &[u8] = match original {
            Some(o) => o,
            None => &[],
        };
        assert(bytes@ == match original {
            Some(o) => o@,
            None => Seq::<u8>::empty(),
        });
        let (text, had_bom) = parse_document(bytes)?;
        let mut doc = load_document(text.as_str())?;
        let flag = read_unified_exec(&doc)?;
        let original_copy = match original {
            Some(o) => Some(copy_bytes(o)),
            None => None,
        };
        let state = match flag {
            Some(true) => {
                return Ok(
                    UnifiedExecInstallPlan {
                        transaction: AdminUnifiedExecTransaction {
                            codex_home: codex_home.to_owned(),
                            state_dir: state_dir.to_owned(),
                            original_bytes: original_copy,
                            holds_journal: false,
                        },
                        change: None,
                    },
                );
            },
            Some(false) => OriginalFeatureState::False,
            None => OriginalFeatureState::Missing,
        };
        let ghost entries = toml_document_shape(doc);
        let set = set_unified_exec(&mut doc, true);
        assert(set is Ok);
        let managed = serialize_document(&doc, had_bom);
        assert(toml_document_shape(doc) == flag_set_shape(entries, true)->Ok_0);
        assert(features_flag(toml_document_shape(doc)) == Ok::<Option<bool>, FeatureError>(Some(true)));
        let id = to_hex_lower(id);
        let paths = feature_transaction_paths(codex_home, state_dir, id.as_str());
        let journal = FeatureJournal {
            schema_version: 1,
            target_path: join_str(codex_home, "config.toml"),
            original_existed: original.is_some(),
            original_feature_state: state,
            managed_sha256: sha256_hex_of(managed.as_slice()),
            transaction_id: id,
            install_stage_path: paths.install_stage.clone(),
            install_original_path: paths.install_original.clone(),
            restore_stage_path: paths.restore_stage.clone(),
            restore_rollback_path: paths.restore_rollback.clone(),
        };
        Ok(
            UnifiedExecInstallPlan {
                transaction: AdminUnifiedExecTransaction {
                    codex_home: codex_home.to_owned(),
                    state_dir: state_dir.to_owned(),
                    original_bytes: original_copy,
                    holds_journal: true,
                },
                change: Some((journal, managed, paths)),
            },
        )
    }

    /// Turns `features.unified_exec` on in `config.toml` (its bytes, if it
    /// exists) unless an earlier transaction's recovery journal is still
    /// pending (`pending_journal`): the file must read as a document with a
    /// boolean flag in a `features` table; where the flag is already on there
    /// is nothing to write; otherwise a fresh transaction id is drawn from the
    /// system random source and the plan is that of
    /// [`Self::install_with_id`] for it.
    pub fn install(codex_home: &str, state_dir: &str, pending_journal: bool, original: Option<&[u8]>) -> (r:
        Result<UnifiedExecInstallPlan, FeatureError>)
        ensures
            pending_journal ==> r == Err::<UnifiedExecInstallPlan, FeatureError>(
                FeatureError::RecoveryPending,
            ),
            !pending_journal ==> ({
                let bytes = match original {
                    Some(o) => o@,
                    None => Seq::<u8>::empty(),
                };
                match document_text(bytes) {
                    Err(e) => r == Err::<UnifiedExecInstallPlan, FeatureError>(e),
                    Ok((text, _)) => match unified_exec_spec(text) {
                        Err(e) => r == Err::<UnifiedExecInstallPlan, FeatureError>(e),
                        Ok(Some(true)) => r matches Ok(p) && p.change is None && p.transaction.holds_journal
                            == false,
                        Ok(_) => r is Ok || r == Err::<UnifiedExecInstallPlan, FeatureError>(
                            FeatureError::RandomSourceFailed,
                        ),
                    },
                }
            }),
            r matches Ok(p) ==> {
                &&& !pending_journal
                &&& p.transaction.codex_home@ == codex_home@
                &&& p.transaction.state_dir@ == state_dir@
                &&& opt_bytes_vec(p.transaction.original_bytes) == opt_bytes(original)
                &&& p.transaction.holds_journal == p.change is Some
                &&& (p.change matches Some((journal, _, _)) ==> exists|id: Seq<u8>|
                    id.len() == 16 && journal.transaction_id@ == #[trigger] hex_lower(id))
            },
    {
        if pending_journal {
            return Err(FeatureError::RecoveryPending);
        }
        // Where the flag is already on nothing is written, so no id is drawn.
        let unused_id: [u8; 16] = [0; 16];
        let bytes: &[u8] = match original {
            Some(o) => o,
            None => &[],
        };
        let (text, _) = parse_document(bytes)?;
        let doc = load_document(text.as_str())?;
        let flag = read_unified_exec(&doc)?;
        if flag == Some(true) {
            return Self::install_with_id(codex_home, state_dir, original, &unused_id);
        }
        match fresh_uuid_bytes() {
            None => Err(FeatureError::RandomSourceFailed),
            Some(id) => Self::install_with_id(codex_home, state_dir, original, id.as_slice()),
        }
    }

    /// Plans undoing this transaction: nothing when it holds no journal;
    /// otherwise the journal must validate, and the managed file is replaced
    /// by the clean original this transaction kept.
    pub fn restore(&self, journal: &FeatureJournal, current: Option<&[u8]>) -> (r: Result<
        Option<(FeatureTransactionPaths, UnifiedExecRestoreAction)>,
        FeatureError,
    >)
        ensures
            !self.holds_journal ==> r == Ok::<
                Option<(FeatureTransactionPaths, UnifiedExecRestoreAction)>,
                FeatureError,
            >(None),
            self.holds_journal ==> match r {
                Ok(Some((paths, action))) => (feature_journal_check(
                    self.codex_home@,
                    self.state_dir@,
                    *journal,
                ) is Ok && paths@ == feature_paths_spec(
                    self.codex_home@,
                    self.state_dir@,
                    journal.transaction_id@,
                ) && planned(unified_exec_restore_spec(
                    *journal,
                    Some(opt_bytes_vec(self.original_bytes)),
                    opt_bytes(current),
                ), action)),
                Ok(None) => false,
                Err(e) => feature_journal_check(self.codex_home@, self.state_dir@, *journal)
                    == Err::<(), FeatureError>(e) || (feature_journal_check(
                    self.codex_home@,
                    self.state_dir@,
                    *journal,
                ) is Ok && unified_exec_restore_spec(
                    *journal,
                    Some(opt_bytes_vec(self.original_bytes)),
                    opt_bytes(current),
                ) == Err::<RestoreActionModel, FeatureError>(e)),
            },
    {
        if !self.holds_journal {
            return Ok(None);
        }
        let paths = validate_feature_journal(
            self.codex_home.as_str(),
            self.state_dir.as_str(),
            journal,
        )?;
        let clean: Option<&[u8]> = match &self.original_bytes {
            Some(o) => Some(o.as_slice()),
            None => None,
        };
        assert(opt_bytes(clean) == opt_bytes_vec(self.original_bytes));
        let action = plan_unified_exec_restore(journal, Some(clean), current)?;
        Ok(Some((paths, action)))
    }
}

/// The view of optional byte vectors.
pub open spec fn opt_bytes_vec(o: Option<Vec<u8>>) -> Option<Seq<u8>> {
    match o {
        Some(b) => Some(b@),
        None => None,
    }
}

/// Recovers a unified exec journal left by an earlier run: no journal means
/// nothing to do; otherwise it must validate and `config.toml` is restored
/// in its own terms (no clean original survives a crash).
pub fn recover_stale_unified_exec(
    codex_home: &str,
    state_dir: &str,
    journal: Option<&FeatureJournal>,
    current: Option<&[u8]>,
) -> (r: Result<Option<(FeatureTransactionPaths, UnifiedExecRestoreAction)>, FeatureError>)
    ensures
        journal is None ==> r == Ok::<
            Option<(FeatureTransactionPaths, UnifiedExecRestoreAction)>,
            FeatureError,
        >(None),
        journal matches Some(j) ==> match r {
            Ok(Some((paths, action))) => (feature_journal_check(codex_home@, state_dir@, *j) is Ok
                && paths@ == feature_paths_spec(codex_home@, state_dir@, j.transaction_id@)
                && planned(unified_exec_restore_spec(*j, None, opt_bytes(current)), action)),
            Ok(None) => false,
            Err(e) => feature_journal_check(codex_home@, state_dir@, *j) == Err::<(), FeatureError>(
                e,
            ) || (feature_journal_check(codex_home@, state_dir@, *j) is Ok
                && unified_exec_restore_spec(*j, None, opt_bytes(current)) == Err::<
                RestoreActionModel,
                FeatureError,
            >(e)),
        },
{
    match journal {
        None => Ok(None),
        Some(j) => {
            let paths = validate_feature_journal(codex_home, state_dir, j)?;
            let action = plan_unified_exec_restore(j, None, current)?;
            Ok(Some((paths, action)))
        },
    }
}

/// Law: a transaction restored right after its install, with the managed
/// file untouched, writes back exactly the original file (or deletes the
/// file where there was none), whatever the journal's other fields.
pub proof fn lemma_restore_after_install_is_exact(
    journal: FeatureJournal,
    original: Option<Seq<u8>>,
    managed: Seq<u8>,
)
    requires
        journal.managed_sha256@ == sha256_hex(managed),
    ensures
        unified_exec_restore_spec(journal, Some(original), Some(managed)) == Ok::<
            RestoreActionModel,
            FeatureError,
        >(
            match original {
                Some(o) => RestoreActionModel::Replace(o),
                None => RestoreActionModel::DeleteTarget,
            },
        ),
{
}

/// Law: a journal written by `install` passes the journal checks whenever
/// its transaction id reads back as a UUID of the same simple form (as
/// `uuid_parse_bytes` promises for every simple form), and
/// restoring right after the install, with the managed file untouched,
/// writes back exactly the original file (or deletes the file where there
/// was none).
pub proof fn lemma_installed_journal_restores_exactly(
    codex_home: Seq<char>,
    state_dir: Seq<char>,
    journal: FeatureJournal,
    id: Seq<u8>,
    original: Option<Seq<u8>>,
    managed: Seq<u8>,
)
    requires
        journal.schema_version == 1,
        journal.target_path@ == join(codex_home, "config.toml"@),
        id.len() == 16,
        journal.transaction_id@ == hex_lower(id),
        uuid_parsed(hex_lower(id)) matches Some(v) && hex_lower(v) == hex_lower(id),
        journal.install_stage_path@ == feature_paths_spec(codex_home, state_dir, journal.transaction_id@).install_stage,
        journal.install_original_path@ == feature_paths_spec(
            codex_home,
            state_dir,
            journal.transaction_id@,
        ).install_original,
        journal.restore_stage_path@ == feature_paths_spec(codex_home, state_dir, journal.transaction_id@).restore_stage,
        journal.restore_rollback_path@ == feature_paths_spec(
            codex_home,
            state_dir,
            journal.transaction_id@,
        ).restore_rollback,
        journal.managed_sha256@ == sha256_hex(managed),
        journal.managed_sha256@.len() == 64,
    ensures
        feature_journal_check(codex_home, state_dir, journal) is Ok,
        unified_exec_restore_spec(journal, Some(original), Some(managed)) == Ok::<
            RestoreActionModel,
            FeatureError,
        >(
            match original {
                Some(o) => RestoreActionModel::Replace(o),
                None => RestoreActionModel::DeleteTarget,
            },
        ),
{
    crate::encoding::lemma_hex_lower_shape(crate::encoding::sha256(managed));
    assert forall|i: int| 0 <= i < 64 implies is_hex_digit(#[trigger] journal.managed_sha256@[i]) by {
        assert(crate::encoding::is_lower_hex(journal.managed_sha256@[i]));
    }
    lemma_restore_after_install_is_exact(journal, original, managed);
}

/// Law: restoring again after a restore is finished changes nothing. Once
/// `config.toml` holds the original again (a file whose flag was not on and
/// which is not the managed file), or is absent where there was none, every
/// later plan from the same journal keeps it as it is.
pub proof fn lemma_restore_again_keeps_the_original(
    journal: FeatureJournal,
    clean_original: Option<Option<Seq<u8>>>,
    restored: Option<Seq<u8>>,
)
    requires
        restored matches Some(o) ==> document_text(o) is Ok && unified_exec_spec(document_text(o)->Ok_0.0)
            is Ok && unified_exec_spec(document_text(o)->Ok_0.0) != Ok::<Option<bool>, FeatureError>(
            Some(true),
        ) && sha256_hex(o) != journal.managed_sha256@,
        restored is None ==> !journal.original_existed,
    ensures
        unified_exec_restore_spec(journal, clean_original, restored) == Ok::<
            RestoreActionModel,
            FeatureError,
        >(RestoreActionModel::Keep),
{
}

/// Whether two tables agree on `k`: both without it, or both with the same
/// item there.
pub open spec fn same_entry(a: Map<Seq<char>, TomlShape>, b: Map<Seq<char>, TomlShape>, k: Seq<char>) -> bool {
    a.contains_key(k) == b.contains_key(k) && (a.contains_key(k) ==> a[k] == b[k])
}

/// Law: setting or removing the flag keeps every other entry of the
/// document, values and their text included, and every other entry of the
/// `features` table.
pub proof fn lemma_flag_edits_keep_other_entries(m: Map<Seq<char>, TomlShape>, enabled: bool, k: Seq<char>)
    ensures
        k != "features"@ ==> (flag_set_shape(m, enabled) matches Ok(n) ==> same_entry(m, n, k)),
        k != "features"@ ==> (flag_removed_shape(m) matches Ok(n) ==> same_entry(m, n, k)),
        k != "unified_exec"@ && m.contains_key("features"@) && m["features"@] is TableLike ==> {
            let f = m["features"@]->TableLike_0;
            &&& (flag_set_shape(m, enabled) matches Ok(n) && n["features"@] matches TomlShape::TableLike(g)
                && same_entry(f, g, k))
            &&& (flag_removed_shape(m) matches Ok(n) ==> if n.contains_key("features"@) {
                n["features"@] matches TomlShape::TableLike(g) && same_entry(f, g, k)
            } else {
                !f.contains_key(k)
            })
        },
{
    if m.contains_key("features"@) && m["features"@] is TableLike {
        let f = m["features"@]->TableLike_0;
        if f.remove("unified_exec"@) == no_entries() && k != "unified_exec"@ {
            assert(!f.remove("unified_exec"@).contains_key(k));
        }
    }
}

} // verus!
