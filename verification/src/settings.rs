//! A configuration document as plain values.
//!
//! The `toml` crate reads the text; what the library looks at afterwards is a
//! list of fields, each a key with a value of one of a few shapes.

use vstd::prelude::*;

verus! {

/// `toml::de::Error`, why a text is no document: opaque to the verifier.
#[verifier::external_type_specification]
#[verifier::external_body]
pub struct ExTomlError(toml::de::Error);

/// One element of a list in a document.
pub enum Entry {
    /// A string.
    Text(String),
    /// Anything else.
    Other,
}

/// The value of a field of a document.
pub enum Setting {
    /// A string.
    Text(String),
    /// A boolean.
    Flag(bool),
    /// A list.
    List(Vec<Entry>),
    /// A number, a date or a table.
    Other,
}

/// A top-level field of a document.
pub struct Field {
    pub key: String,
    pub value: Setting,
}

/// The model of an [`Entry`].
pub enum EntryView {
    Text(Seq<char>),
    Other,
}

/// The model of a [`Setting`].
pub enum SettingView {
    Text(Seq<char>),
    Flag(bool),
    List(Seq<EntryView>),
    Other,
}

/// The model of a [`Field`].
pub struct FieldView {
    pub key: Seq<char>,
    pub value: SettingView,
}

impl View for Entry {
    type V = EntryView;

    open spec fn view(&self) -> EntryView {
        match self {
            Entry::Text(text) => EntryView::Text(text@),
            Entry::Other => EntryView::Other,
        }
    }
}

impl View for Setting {
    type V = SettingView;

    open spec fn view(&self) -> SettingView {
        match self {
            Setting::Text(text) => SettingView::Text(text@),
            Setting::Flag(flag) => SettingView::Flag(*flag),
            Setting::List(entries) => SettingView::List(entries@.map_values(|e: Entry| e@)),
            Setting::Other => SettingView::Other,
        }
    }
}

impl View for Field {
    type V = FieldView;

    open spec fn view(&self) -> FieldView {
        FieldView { key: self.key@, value: self.value@ }
    }
}

/// The models of a list of fields.
pub open spec fn field_views(fields: Seq<Field>) -> Seq<FieldView> {
    fields.map_values(|f: Field| f@)
}

/// What the `toml` crate reads from a text: the top-level fields of the
/// document in the order of the crate's table, or `None` where the text is
/// no TOML document.
pub uninterp spec fn document_fields(text: Seq<char>) -> Option<Seq<FieldView>>;

/// Parses `text` into a `toml::Table` (its `FromStr`) and hands out the
/// table's fields as plain values: a string, a boolean and a list keep what
/// they hold, and of a list's elements the strings do. Trusted: the outcome
/// depends on the text alone, so it goes by the name [`document_fields`].
#[verifier::external_body]
fn parse_fields(text: &str) -> (fields: Result<Vec<Field>, toml::de::Error>)
    ensures
        fields is Ok <==> document_fields(text@) is Some,
        fields matches Ok(f) ==> document_fields(text@) == Some(field_views(f@)),
{
    let table = text.parse::<toml::Table>()?;
    Ok(table.into_iter().map(|(key, value)| Field { key, value: match value {
        toml::Value::String(text) => Setting::Text(text),
        toml::Value::Boolean(flag) => Setting::Flag(flag),
        toml::Value::Array(items) => Setting::List(items.into_iter().map(|item| match item {
            toml::Value::String(text) => Entry::Text(text),
            _ => Entry::Other,
        }).collect()),
        _ => Setting::Other,
    } }).collect())
}

/// The value of the first field of `fields` whose key is `key`.
pub open spec fn field_value(fields: Seq<FieldView>, key: Seq<char>) -> Option<SettingView>
    decreases fields.len(),
{
    if fields.len() == 0 {
        None
    } else {
        match field_value(fields.drop_last(), key) {
            Some(value) => Some(value),
            None => if fields.last().key == key {
                Some(fields.last().value)
            } else {
                None
            },
        }
    }
}

/// A parsed document.
pub struct Document {
    pub fields: Vec<Field>,
}

impl View for Document {
    type V = Seq<FieldView>;

    open spec fn view(&self) -> Seq<FieldView> {
        field_views(self.fields@)
    }
}

impl Document {
    /// Reads `text`; `None` where it is no TOML document.
    pub fn parse(text: &str) -> (document: Option<Document>)
        ensures
            document is Some <==> document_fields(text@) is Some,
            document matches Some(d) ==> document_fields(text@) == Some(d@),
    {
        match parse_fields(text) {
            Ok(fields) => Some(Document { fields }),
            Err(_) => None,
        }
    }

    /// Looks up the field `key`.
    pub fn get(&self, key: &str) -> (value: Option<&Setting>)
        ensures
            value is Some <==> field_value(self@, key@) is Some,
            value matches Some(v) ==> field_value(self@, key@) == Some(v@),
    {
        let wanted = key.to_owned();
        let mut i: usize = 0;
        while i < self.fields.len()
            invariant
                i <= self.fields.len(),
                wanted@ == key@,
                field_value(self@.take(i as int), key@) is None,
            decreases self.fields.len() - i,
        {
            assert(self@.take(i + 1).drop_last() == self@.take(i as int));
            if self.fields[i].key == wanted {
                assert(self@.take(self.fields.len() as int) == self@);
                proof {
                    lemma_field_value_found(self@, i as int, key@);
                }
                return Some(&self.fields[i].value);
            }
            i += 1;
        }
        assert(self@.take(self.fields.len() as int) == self@);
        None
    }
}

/// A field found in a prefix of a list is the field found in the list.
pub proof fn lemma_field_value_found(fields: Seq<FieldView>, at: int, key: Seq<char>)
    requires
        0 <= at < fields.len(),
        field_value(fields.take(at), key) is None,
        fields[at].key == key,
    ensures
        field_value(fields, key) == Some(fields[at].value),
    decreases fields.len(),
{
    if at == fields.len() - 1 {
        assert(fields.drop_last() == fields.take(at));
    } else {
        assert(fields.drop_last().take(at) == fields.take(at));
        lemma_field_value_found(fields.drop_last(), at, key);
    }
}

} // verus!
