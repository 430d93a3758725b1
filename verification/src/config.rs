//! The user configuration: two lists of lemmas, one forcing tokens to be
//! treated as separators, one dropping tokens from the report entirely.

use vstd::prelude::*;

verus! {

/// The mathematical content of a configuration: the two string lists.
pub struct ConfigView {
    pub extra: Seq<Seq<char>>,
    pub removed: Seq<Seq<char>>,
}

/// The loaded configuration, immutable after load. Membership tests against
/// either list use exact string equality on the lemma.
pub struct Config {
    pub extra_separators: Vec<String>,
    pub removed_separators: Vec<String>,
}

impl View for Config {
    type V = ConfigView;

    open spec fn view(&self) -> ConfigView {
        ConfigView {
            extra: self.extra_separators.deep_view(),
            removed: self.removed_separators.deep_view(),
        }
    }
}

/// The configuration with both lists empty: what a missing or unreadable
/// configuration falls back to.
pub open spec fn empty_config_view() -> ConfigView {
    ConfigView { extra: Seq::empty(), removed: Seq::empty() }
}

impl Config {
    /// The default configuration: both lists empty.
    pub fn empty() -> (c: Config)
        ensures
            c@ == empty_config_view(),
    {
        let c = Config { extra_separators: Vec::new(), removed_separators: Vec::new() };
        proof {
            assert(c@.extra =~= empty_config_view().extra);
            assert(c@.removed =~= empty_config_view().removed);
            assert(c@ == empty_config_view());
        }
        c
    }
}

#[verifier::external_type_specification]
#[verifier::external_body]
#[verifier::reject_recursive_types(K)]
#[verifier::reject_recursive_types(V)]
pub struct ExTomlMap<K, V>(toml::map::Map<K, V>);

#[verifier::external_type_specification]
#[verifier::external_body]
pub struct ExTomlValue(toml::Value);

/// What a parsed settings table holds, read as this loader reads it: for
/// each key of the table, the list of strings its value deserializes to,
/// or nothing where the value is not a list of strings.
pub uninterp spec fn table_string_lists(t: toml::map::Map<String, toml::Value>) -> Map<
    Seq<char>,
    Option<Seq<Seq<char>>>,
>;

/// What parsing a settings text yields: nothing where the text is no valid
/// TOML table, else the table's contents as `table_string_lists` reads them.
pub uninterp spec fn toml_string_lists_of(s: Seq<char>) -> Option<
    Map<Seq<char>, Option<Seq<Seq<char>>>>,
>;

/// Relies on toml's `FromStr` for `Table`: parses the text as a TOML table,
/// succeeding exactly where the text is valid TOML.
#[verifier::external_body]
fn parse_toml_table(s: &str) -> (r: Option<toml::map::Map<String, toml::Value>>)
    ensures
        (r is Some) == (toml_string_lists_of(s@) is Some),
        r matches Some(t) ==> Some(table_string_lists(t)) == toml_string_lists_of(s@),
{
    s.parse::<toml::Table>().ok()
}

/// Relies on toml's `Map::get` and `Value::try_into::<Vec<String>>`: the
/// value at the key, deserialized as a list of strings, where the key is
/// present and its value is such a list.
#[verifier::external_body]
fn table_get_string_list(t: &toml::map::Map<String, toml::Value>, key: &str) -> (r: Option<
    Vec<String>,
>)
    ensures
        (r is Some) == (table_string_lists(*t).contains_key(key@) && table_string_lists(
            *t,
        )[key@] is Some),
        r matches Some(v) ==> table_string_lists(*t)[key@] == Some(v.deep_view()),
{
    match t.get(key) {
        Some(v) => v.clone().try_into().ok(),
        None => None,
    }
}

/// The configuration a settings text parses to: both keys must be present
/// as string lists; anything else is a parse failure.
pub open spec fn parsed_config(s: Seq<char>) -> Option<ConfigView> {
    match toml_string_lists_of(s) {
        Option::None => Option::None,
        Option::Some(m) => {
            if m.contains_key("extra_separators"@) && m["extra_separators"@] is Some
                && m.contains_key("removed_separators"@) && m["removed_separators"@] is Some {
                Option::Some(
                    ConfigView {
                        extra: m["extra_separators"@]->0,
                        removed: m["removed_separators"@]->0,
                    },
                )
            } else {
                Option::None
            }
        },
    }
}

/// Parse a settings text: the two lists where the text is a TOML table
/// holding both keys as string lists, nothing otherwise.
pub fn config_from_toml(s: &str) -> (r: Option<Config>)
    ensures
        (r is Some) == (parsed_config(s@) is Some),
        r matches Some(c) ==> parsed_config(s@) == Some(c@),
{
    match parse_toml_table(s) {
        Option::None => Option::None,
        Option::Some(table) => {
            let extra = table_get_string_list(&table, "extra_separators");
            let removed = table_get_string_list(&table, "removed_separators");
            match (extra, removed) {
                (Option::Some(e), Option::Some(rm)) => Option::Some(
                    Config { extra_separators: e, removed_separators: rm },
                ),
                _ => Option::None,
            }
        },
    }
}

/// What a configuration loads to, from the settings file's contents where
/// the file could be read at all: the parsed lists, or the empty default on
/// a missing file or any parse failure.
pub open spec fn spec_load_config(source: Option<Seq<char>>) -> ConfigView {
    match source {
        Option::None => empty_config_view(),
        Option::Some(s) => match parsed_config(s) {
            Option::Some(c) => c,
            Option::None => empty_config_view(),
        },
    }
}

/// Load the configuration. Total: every failure falls back to the default,
/// and no error propagates to the caller.
pub fn load_config(contents: Option<&String>) -> (c: Config)
    ensures
        contents matches Some(s) ==> c@ == spec_load_config(Some(s@)),
        contents is None ==> c@ == spec_load_config(None),
{
    match contents {
        Option::None => Config::empty(),
        Option::Some(s) => match config_from_toml(s.as_str()) {
            Option::Some(c) => c,
            Option::None => Config::empty(),
        },
    }
}

/// A missing settings file loads to the default configuration, the one
/// with both lists empty.
pub proof fn lemma_missing_config_is_default()
    ensures
        spec_load_config(None) == empty_config_view(),
{
}

} // verus!
