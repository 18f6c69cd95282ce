//! Reading single settings of a configuration.
//!
//! A key names a setting by its path, as in `audio.device`. A setting that is
//! null counts as missing.
use std::collections::HashMap;
use vstd::prelude::*;

verus! {

/// A configuration, as it was read.
#[verifier::external_type_specification]
#[verifier::external_body]
pub struct ExConfig(::config::Config);

/// An error in a configuration.
#[verifier::external_type_specification]
#[verifier::external_body]
pub struct ExConfigError(::config::ConfigError);

/// A value of any kind in a configuration.
#[verifier::external_type_specification]
#[verifier::external_body]
pub struct ExValue(::config::Value);

/// The keys at the top of a YAML text, in order, as the configuration crate reads
/// them.
pub uninterp spec fn top_keys(text: Seq<char>) -> Result<Seq<Seq<char>>, ::config::ConfigError>;

/// What the configuration crate makes of a YAML text.
pub uninterp spec fn yaml_settings(text: Seq<char>) -> Result<
    ::config::Config,
    ::config::ConfigError,
>;

/// A setting read as text; `None` where it is missing.
pub uninterp spec fn text_setting(settings: ::config::Config, key: Seq<char>) -> Result<
    Option<Seq<char>>,
    ::config::ConfigError,
>;

/// A setting read as lists of numbers by name; `None` where it is missing.
pub uninterp spec fn mapping_setting(settings: ::config::Config, key: Seq<char>) -> Result<
    Option<Map<Seq<char>, Seq<u16>>>,
    ::config::ConfigError,
>;

/// A setting of any kind; `None` where it is missing.
pub uninterp spec fn section_setting(settings: ::config::Config, key: Seq<char>) -> Result<
    Option<::config::Value>,
    ::config::ConfigError,
>;

/// A list of settings of any kind; `None` where it is missing.
pub uninterp spec fn section_list_setting(settings: ::config::Config, key: Seq<char>) -> Result<
    Option<Seq<::config::Value>>,
    ::config::ConfigError,
>;

/// Reads the keys at the top of a YAML text: calls `config::Source::collect` on
/// `config::File::from_str`, and hands out the keys of the map that it returns, in
/// order. What it returns is a function of the text, and [`top_keys`] names it.
#[verifier::external_body]
pub(crate) fn read_keys(text: &str) -> (keys: Result<Vec<String>, ::config::ConfigError>)
    ensures
        match keys {
            Ok(k) => top_keys(text@) matches Ok(named) && named == crate::text::texts(k@),
            Err(e) => top_keys(text@) matches Err(named) && named == e,
        },
{
    let source = ::config::File::from_str(text, ::config::FileFormat::Yaml);
    let table = ::config::Source::collect(&source)?;
    Ok(table.into_keys().collect())
}

/// Whether a YAML text has no key at its top with an index that no list can hold.
pub open spec fn small_keys(text: Seq<char>) -> bool {
    top_keys(text) matches Ok(keys) && crate::config::keys::first_large_index(keys) is None
}

/// Reads a YAML text: calls `config::ConfigBuilder::build` on the single source
/// `config::File::from_str`. What it returns is a function of the text, and
/// [`yaml_settings`] names it. The call reads each key at the top as a path and
/// makes a list for each index in it, which panics where the room of the list would
/// take more than `isize::MAX` bytes; a text with such a key is left out.
#[verifier::external_body]
pub(crate) fn read_yaml(text: &str) -> (settings: Result<::config::Config, ::config::ConfigError>)
    requires
        small_keys(text@),
    ensures
        settings == yaml_settings(text@),
{
    ::config::Config::builder()
        .add_source(::config::File::from_str(text, ::config::FileFormat::Yaml))
        .build()
}

/// Calls `config::Config::get` for a text. What it returns is a function of the
/// configuration and the key, and [`text_setting`] names it, with a setting that
/// is not found as a missing one.
#[verifier::external_body]
pub(crate) fn get_text(settings: &::config::Config, key: &str) -> (text: Result<
    Option<String>,
    ::config::ConfigError,
>)
    ensures
        match text {
            Ok(t) => text_setting(*settings, key@) matches Ok(named) && named
                == crate::text::optional_text(t),
            Err(e) => text_setting(*settings, key@) matches Err(named) && named == e,
        },
{
    match settings.get::<Option<String>>(key) {
        Err(::config::ConfigError::NotFound(_)) => Ok(None),
        other => other,
    }
}

/// Calls `config::Config::get` for a table of lists of numbers. What it returns is
/// a function of the configuration and the key, and [`mapping_setting`] names it,
/// with a setting that is not found as a missing one.
#[verifier::external_body]
pub(crate) fn get_mapping(settings: &::config::Config, key: &str) -> (mapping: Result<
    Option<HashMap<String, Vec<u16>>>,
    ::config::ConfigError,
>)
    ensures
        match mapping {
            Ok(Some(m)) => mapping_setting(*settings, key@) matches Ok(Some(named)) && named
                == m.deep_view(),
            Ok(None) => mapping_setting(*settings, key@) matches Ok(None),
            Err(e) => mapping_setting(*settings, key@) matches Err(named) && named == e,
        },
{
    match settings.get::<Option<HashMap<String, Vec<u16>>>>(key) {
        Err(::config::ConfigError::NotFound(_)) => Ok(None),
        other => other,
    }
}

/// Calls `config::Config::get` for a value of any kind. What it returns is a
/// function of the configuration and the key, and [`section_setting`] names it,
/// with a setting that is not found as a missing one.
#[verifier::external_body]
pub(crate) fn get_section(settings: &::config::Config, key: &str) -> (section: Result<
    Option<::config::Value>,
    ::config::ConfigError,
>)
    ensures
        section == section_setting(*settings, key@),
{
    match settings.get::<Option<::config::Value>>(key) {
        Err(::config::ConfigError::NotFound(_)) => Ok(None),
        other => other,
    }
}

/// Calls `config::Config::get` for a list of values of any kind. What it returns
/// is a function of the configuration and the key, and [`section_list_setting`]
/// names it, with a setting that is not found as a missing one.
#[verifier::external_body]
pub(crate) fn get_section_list(settings: &::config::Config, key: &str) -> (list: Result<
    Option<Vec<::config::Value>>,
    ::config::ConfigError,
>)
    ensures
        match list {
            Ok(Some(l)) => section_list_setting(*settings, key@) matches Ok(Some(named)) && named
                == l@,
            Ok(None) => section_list_setting(*settings, key@) matches Ok(None),
            Err(e) => section_list_setting(*settings, key@) matches Err(named) && named == e,
        },
{
    match settings.get::<Option<Vec<::config::Value>>>(key) {
        Err(::config::ConfigError::NotFound(_)) => Ok(None),
        other => other,
    }
}

/// Calls `config::Value::clone`, which copies the value.
#[verifier::external_body]
pub(crate) fn copy_value(value: &::config::Value) -> (copy: ::config::Value)
    ensures
        copy == *value,
{
    value.clone()
}

} // verus!
