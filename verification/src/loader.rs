//! Reading a configuration text into a validated description. The TOML
//! parsing itself is the `toml` crate's work, reached through trusted
//! declarations; everything from the parsed values to the validated
//! description is verified.

use vstd::prelude::*;
use vstd::string::StringExecFns;
use crate::description::VmDescription;
use crate::description::build_description;
use crate::description::fields_admissible;
use crate::errors::ProvisionError;

verus! {

#[verifier::external_type_specification]
#[verifier::external_body]
#[verifier::reject_recursive_types(K)]
#[verifier::reject_recursive_types(V)]
pub struct ExTomlMap<K, V>(toml::map::Map<K, V>);

#[verifier::external_type_specification]
#[verifier::external_body]
pub struct ExTomlValue(toml::Value);

#[verifier::external_type_specification]
#[verifier::external_body]
pub struct ExTomlDeError(toml::de::Error);

/// What the `toml` crate extracts from a configuration text, a function of
/// the text alone: the `(name, os_type, memory, cpus, disk_size, iso_path)`
/// raw fields when the text parses as a TOML document whose
/// `virtual_machine` table holds string `name` and `os_type`, integer
/// `memory`, `cpus` and `disk_size`, and — when present at all — a string
/// `iso_path`; nothing otherwise.
pub uninterp spec fn toml_vm_fields(s: Seq<char>) -> Option<
    (Seq<char>, Seq<char>, i64, i64, i64, Option<Seq<char>>),
>;

/// Relies on toml::from_str, toml::map::Map::get and the toml::Value
/// accessors: parses the text and reads the `[virtual_machine]` fields in
/// one pass, returning nothing as soon as anything is absent or mistyped.
#[verifier::external_body]
fn extract_vm_fields(text: &str) -> (r: Option<(String, String, i64, i64, i64, Option<String>)>)
    ensures
        r is Some <==> toml_vm_fields(text@) is Some,
        r matches Some(t) ==> (toml_vm_fields(text@) matches Some(f) && t.0@ == f.0 && t.1@ == f.1
            && t.2 == f.2 && t.3 == f.3 && t.4 == f.4 && t.5.deep_view() == f.5),
{
    let table: toml::Table = toml::from_str(text).ok()?;
    let vm = table.get("virtual_machine")?.as_table()?;
    Some(
        (
            vm.get("name")?.as_str()?.to_string(),
            vm.get("os_type")?.as_str()?.to_string(),
            vm.get("memory")?.as_integer()?,
            vm.get("cpus")?.as_integer()?,
            vm.get("disk_size")?.as_integer()?,
            match vm.get("iso_path") {
                Some(v) => Some(v.as_str()?.to_string()),
                None => None,
            },
        ),
    )
}

/// Relies on toml::from_str: parses the text as a TOML document into its
/// top-level table, or reports why it is not well-formed TOML.
#[verifier::external_body]
fn parse_toml_table(text: &str) -> (r: Result<toml::Table, toml::de::Error>) {
    toml::from_str(text)
}

/// Relies on the Display impl of toml::de::Error: the parse failure's
/// human-readable message.
#[verifier::external_body]
fn toml_error_text(e: &toml::de::Error) -> (r: String) {
    e.to_string()
}

/// Relies on toml::map::Map::get: the value stored under `key`, if present.
#[verifier::external_body]
fn table_get<'a>(t: &'a toml::Table, key: &str) -> (r: Option<&'a toml::Value>) {
    t.get(key)
}

/// Relies on toml::Value::as_table: the value's table, when it is a table.
#[verifier::external_body]
fn value_as_table<'a>(v: &'a toml::Value) -> (r: Option<&'a toml::Table>) {
    v.as_table()
}

/// Relies on toml::Value::as_str: the value's text, when it is a string.
#[verifier::external_body]
fn value_as_str<'a>(v: &'a toml::Value) -> (r: Option<&'a str>) {
    v.as_str()
}

/// Relies on toml::Value::as_integer: the value's integer, when it is one.
#[verifier::external_body]
fn value_as_integer(v: &toml::Value) -> (r: Option<i64>) {
    v.as_integer()
}

/// Describes why no usable `[virtual_machine]` fields came out of the text:
/// the parse failure's own message, or the first absent or mistyped piece.
/// Used for the diagnostic only; the rejection itself is already decided.
fn describe_rejection(text: &str) -> (r: String) {
    let table = match parse_toml_table(text) {
        Result::Ok(t) => t,
        Result::Err(e) => {
            return toml_error_text(&e);
        },
    };
    let vm_value = match table_get(&table, "virtual_machine") {
        Option::Some(v) => v,
        Option::None => {
            return String::from_str("missing the [virtual_machine] section");
        },
    };
    let vm = match value_as_table(vm_value) {
        Option::Some(t) => t,
        Option::None => {
            return String::from_str("`virtual_machine` must be a table");
        },
    };
    match table_get(vm, "name") {
        Option::None => {
            return String::from_str("missing field `name` in [virtual_machine]");
        },
        Option::Some(v) => {
            if value_as_str(v).is_none() {
                return String::from_str("field `name` must be a string");
            }
        },
    }
    match table_get(vm, "os_type") {
        Option::None => {
            return String::from_str("missing field `os_type` in [virtual_machine]");
        },
        Option::Some(v) => {
            if value_as_str(v).is_none() {
                return String::from_str("field `os_type` must be a string");
            }
        },
    }
    match table_get(vm, "memory") {
        Option::None => {
            return String::from_str("missing field `memory` in [virtual_machine]");
        },
        Option::Some(v) => {
            if value_as_integer(v).is_none() {
                return String::from_str("field `memory` must be an integer");
            }
        },
    }
    match table_get(vm, "cpus") {
        Option::None => {
            return String::from_str("missing field `cpus` in [virtual_machine]");
        },
        Option::Some(v) => {
            if value_as_integer(v).is_none() {
                return String::from_str("field `cpus` must be an integer");
            }
        },
    }
    match table_get(vm, "disk_size") {
        Option::None => {
            return String::from_str("missing field `disk_size` in [virtual_machine]");
        },
        Option::Some(v) => {
            if value_as_integer(v).is_none() {
                return String::from_str("field `disk_size` must be an integer");
            }
        },
    }
    match table_get(vm, "iso_path") {
        Option::None => {},
        Option::Some(v) => {
            if value_as_str(v).is_none() {
                return String::from_str("field `iso_path` must be a string");
            }
        },
    }
    String::from_str("the [virtual_machine] table is malformed")
}

/// Parses one configuration text into a validated description. It succeeds
/// exactly when the `toml` crate extracts the `[virtual_machine]` fields
/// from the text and those fields are admissible, and then carries every
/// field through unchanged; every rejection is a malformed-configuration
/// error.
pub fn load_description(text: &str) -> (r: Result<VmDescription, ProvisionError>)
    ensures
        r is Ok <==> (toml_vm_fields(text@) matches Some(f) && fields_admissible(
            f.0,
            f.2,
            f.3,
            f.4,
        )),
        r matches Ok(d) ==> (toml_vm_fields(text@) matches Some(f) && {
            &&& d.wf()
            &&& d.name@ == f.0
            &&& d.os_type@ == f.1
            &&& d.memory_mb == f.2
            &&& d.cpu_count == f.3
            &&& d.disk_size_mb == f.4
            &&& d.iso_path.deep_view() == f.5
        }),
        r matches Err(e) ==> e is ConfigMalformed,
{
    match extract_vm_fields(text) {
        Option::None => Result::Err(
            ProvisionError::ConfigMalformed { cause: describe_rejection(text) },
        ),
        Option::Some((name, os_type, memory, cpus, disk_size, iso_path)) => build_description(
            name,
            os_type,
            memory,
            cpus,
            disk_size,
            iso_path,
        ),
    }
}

} // verus!
