//! Reading a TOML document's top-level entries through the `toml` crate. A
//! value is seen as text, an integer, or something else.
use vstd::prelude::*;

verus! {

/// A top-level TOML value, as far as the settings file needs to tell.
#[derive(Debug, Clone)]
pub enum TomlScalar {
    Text(String),
    Integer(i64),
    /// A float, boolean, date-time, array or table.
    Other,
}

pub enum TomlScalarView {
    Text(Seq<char>),
    Integer(i64),
    Other,
}

impl View for TomlScalar {
    type V = TomlScalarView;

    open spec fn view(&self) -> TomlScalarView {
        match self {
            TomlScalar::Text(s) => TomlScalarView::Text(s@),
            TomlScalar::Integer(i) => TomlScalarView::Integer(*i),
            TomlScalar::Other => TomlScalarView::Other,
        }
    }
}

#[verifier::external_type_specification]
#[verifier::external_body]
pub struct ExTomlValue(toml::Value);

#[verifier::external_type_specification]
#[verifier::external_body]
#[verifier::reject_recursive_types(K)]
#[verifier::reject_recursive_types(V)]
pub struct ExTomlMap<K, V>(toml::map::Map<K, V>);

/// The top-level entries of a TOML document, or `None` when the text is not
/// a valid TOML document.
pub uninterp spec fn toml_document(text: Seq<char>) -> Option<Map<Seq<char>, TomlScalarView>>;

/// The entries of a parsed TOML table.
pub uninterp spec fn table_entries(t: toml::map::Map<String, toml::Value>) -> Map<
    Seq<char>,
    TomlScalarView,
>;

/// Relies on `toml::from_str` into `toml::Table`: the document's top-level
/// table, or an error when the text is not a valid TOML document.
#[verifier::external_body]
pub(crate) fn parse_toml_table(text: &str) -> (r: Option<toml::map::Map<String, toml::Value>>)
    ensures
        r is Some <==> toml_document(text@) is Some,
        r matches Some(t) ==> toml_document(text@) == Some(table_entries(t)),
{
    toml::from_str::<toml::Table>(text).ok()
}

/// Relies on `toml::map::Map::get`: the value stored under `key`, if any.
#[verifier::external_body]
pub(crate) fn table_get(t: &toml::map::Map<String, toml::Value>, key: &str) -> (r: Option<
    TomlScalar,
>)
    ensures
        r is Some <==> table_entries(*t).contains_key(key@),
        r matches Some(v) ==> v@ == table_entries(*t)[key@],
{
    match t.get(key) {
        None => None,
        Some(toml::Value::String(s)) => Some(TomlScalar::Text(s.clone())),
        Some(toml::Value::Integer(i)) => Some(TomlScalar::Integer(*i)),
        Some(_) => Some(TomlScalar::Other),
    }
}

} // verus!
