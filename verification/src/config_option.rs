//! Extension-defined configuration options.
//!
//! Extensions can register settings that users read and write with `SET`,
//! `RESET` and `current_setting()`. [`ConfigOptionBuilder`] collects what a
//! setting is made of and decides whether it can be registered; the
//! registration itself goes through DuckDB's C API.

use vstd::prelude::*;
use crate::error::ExtensionError;
use crate::status::success_status;
use crate::text::has_nul;
use crate::types::TypeId;

verus! {

/// Scope in which a configuration option takes effect.
#[derive(Debug, Clone, Copy, PartialEq, Eq, Structural)]
pub enum ConfigOptionScope {
    /// Local to the current statement.
    Local,
    /// Scoped to the current session.
    Session,
    /// Applies globally to the database.
    Global,
}

/// DuckDB's scope constant for statement-local options.
///
/// Trusted: reads `libduckdb_sys::duckdb_config_option_scope_DUCKDB_CONFIG_OPTION_SCOPE_LOCAL`,
/// which the crate's bindings define as 1.
#[verifier::external_body]
fn raw_scope_local() -> (r: u32)
    ensures
        r == 1,
{
    libduckdb_sys::duckdb_config_option_scope_DUCKDB_CONFIG_OPTION_SCOPE_LOCAL
}

/// DuckDB's scope constant for session options.
///
/// Trusted: reads `libduckdb_sys::duckdb_config_option_scope_DUCKDB_CONFIG_OPTION_SCOPE_SESSION`,
/// which the crate's bindings define as 2.
#[verifier::external_body]
fn raw_scope_session() -> (r: u32)
    ensures
        r == 2,
{
    libduckdb_sys::duckdb_config_option_scope_DUCKDB_CONFIG_OPTION_SCOPE_SESSION
}

/// DuckDB's scope constant for global options.
///
/// Trusted: reads `libduckdb_sys::duckdb_config_option_scope_DUCKDB_CONFIG_OPTION_SCOPE_GLOBAL`,
/// which the crate's bindings define as 3.
#[verifier::external_body]
fn raw_scope_global() -> (r: u32)
    ensures
        r == 3,
{
    libduckdb_sys::duckdb_config_option_scope_DUCKDB_CONFIG_OPTION_SCOPE_GLOBAL
}

impl ConfigOptionScope {
    /// The number DuckDB's C API uses for the scope.
    pub open spec fn raw(self) -> u32 {
        match self {
            ConfigOptionScope::Local => 1,
            ConfigOptionScope::Session => 2,
            ConfigOptionScope::Global => 3,
        }
    }

    /// Converts to DuckDB's C API scope constant.
    pub fn to_raw(self) -> (r: u32)
        ensures
            r == self.raw(),
    {
        match self {
            ConfigOptionScope::Local => raw_scope_local(),
            ConfigOptionScope::Session => raw_scope_session(),
            ConfigOptionScope::Global => raw_scope_global(),
        }
    }
}

/// The abstract content of a [`ConfigOptionBuilder`].
pub struct ConfigOptionView {
    pub name: Seq<char>,
    pub description: Option<Seq<char>>,
    pub option_type: Option<TypeId>,
    pub default_value: Option<Seq<char>>,
    pub scope: ConfigOptionScope,
}

/// A text can be handed to C: it holds no NUL character.
pub open spec fn c_compatible(s: Seq<char>) -> bool {
    !s.contains('\0')
}

/// The message of a failed registration.
pub open spec fn registration_failure_message(name: Seq<char>) -> Seq<char> {
    "duckdb_register_config_option failed for '"@ + name + "'"@
}

/// Builder for an extension-defined configuration option.
pub struct ConfigOptionBuilder {
    name: String,
    description: Option<String>,
    option_type: Option<TypeId>,
    default_value: Option<String>,
    scope: ConfigOptionScope,
}

pub open spec fn opt_view(o: Option<String>) -> Option<Seq<char>> {
    match o {
        Some(s) => Some(s@),
        None => None,
    }
}

impl View for ConfigOptionBuilder {
    type V = ConfigOptionView;

    closed spec fn view(&self) -> ConfigOptionView {
        ConfigOptionView {
            name: self.name@,
            description: opt_view(self.description),
            option_type: self.option_type,
            default_value: opt_view(self.default_value),
            scope: self.scope,
        }
    }
}

impl ConfigOptionBuilder {
    #[verifier::type_invariant]
    closed spec fn texts_fit_c(self) -> bool {
        &&& c_compatible(self.name@)
        &&& (self.description matches Some(d) ==> c_compatible(d@))
        &&& (self.default_value matches Some(d) ==> c_compatible(d@))
    }

    /// Creates a builder for an option with the given name, no description,
    /// type or default value, and global scope; fails if the name holds a
    /// NUL character.
    pub fn try_new(name: &str) -> (r: Result<Self, ExtensionError>)
        ensures
            r is Ok <==> c_compatible(name@),
            r matches Ok(b) ==> b@ == (ConfigOptionView {
                name: name@,
                description: None,
                option_type: None,
                default_value: None,
                scope: ConfigOptionScope::Global,
            }),
            r matches Err(e) ==> e@ == "config option name contains null byte"@,
    {
        if has_nul(name) {
            return Err(ExtensionError::new("config option name contains null byte"));
        }
        Ok(
            ConfigOptionBuilder {
                name: String::from_str(name),
                description: None,
                option_type: None,
                default_value: None,
                scope: ConfigOptionScope::Global,
            },
        )
    }

    /// Sets the human-readable description; fails if it holds a NUL
    /// character, which C cannot hold.
    pub fn description(self, desc: &str) -> (r: Result<Self, ExtensionError>)
        ensures
            r is Err <==> desc@.contains('\0'),
            r matches Ok(b) ==> b@ == (ConfigOptionView { description: Some(desc@), ..self@ }),
            r matches Err(e) ==> e@ == "config option description contains null byte"@,
    {
        proof {
            use_type_invariant(&self);
        }
        if has_nul(desc) {
            return Err(ExtensionError::new("config option description contains null byte"));
        }
        let ConfigOptionBuilder { name, description: _, option_type, default_value, scope } = self;
        Ok(
            ConfigOptionBuilder {
                name,
                description: Some(String::from_str(desc)),
                option_type,
                default_value,
                scope,
            },
        )
    }

    /// Sets the value type of the option.
    pub fn option_type(self, type_id: TypeId) -> (b: Self)
        ensures
            b@ == (ConfigOptionView { option_type: Some(type_id), ..self@ }),
    {
        proof {
            use_type_invariant(&self);
        }
        let ConfigOptionBuilder { name, description, option_type: _, default_value, scope } = self;
        ConfigOptionBuilder { name, description, option_type: Some(type_id), default_value, scope }
    }

    /// Sets the default value, written as text; fails if it holds a NUL
    /// character, which C cannot hold.
    pub fn default_value(self, value: &str) -> (r: Result<Self, ExtensionError>)
        ensures
            r is Err <==> value@.contains('\0'),
            r matches Ok(b) ==> b@ == (ConfigOptionView { default_value: Some(value@), ..self@ }),
            r matches Err(e) ==> e@ == "config option default value contains null byte"@,
    {
        proof {
            use_type_invariant(&self);
        }
        if has_nul(value) {
            return Err(ExtensionError::new("config option default value contains null byte"));
        }
        let ConfigOptionBuilder { name, description, option_type, default_value: _, scope } = self;
        Ok(
            ConfigOptionBuilder {
                name,
                description,
                option_type,
                default_value: Some(String::from_str(value)),
                scope,
            },
        )
    }

    /// Sets the scope of the option.
    pub fn scope(self, scope: ConfigOptionScope) -> (b: Self)
        ensures
            b@ == (ConfigOptionView { scope: scope, ..self@ }),
    {
        proof {
            use_type_invariant(&self);
        }
        let ConfigOptionBuilder { name, description, option_type, default_value, scope: _ } = self;
        ConfigOptionBuilder { name, description, option_type, default_value, scope }
    }

    /// The option's name; it holds no NUL character.
    pub fn option_name(&self) -> (r: &str)
        ensures
            r@ == self@.name,
            c_compatible(r@),
    {
        proof {
            use_type_invariant(self);
        }
        self.name.as_str()
    }

    /// The option's description, if one was set; it holds no NUL character.
    pub fn option_description(&self) -> (r: Option<&str>)
        ensures
            r matches Some(d) ==> self@.description == Some(d@) && c_compatible(d@),
            r is None ==> self@.description is None,
    {
        proof {
            use_type_invariant(self);
        }
        match &self.description {
            Some(d) => Some(d.as_str()),
            None => None,
        }
    }

    /// The option's default value, if one was set; it holds no NUL character.
    pub fn option_default(&self) -> (r: Option<&str>)
        ensures
            r matches Some(d) ==> self@.default_value == Some(d@) && c_compatible(d@),
            r is None ==> self@.default_value is None,
    {
        proof {
            use_type_invariant(self);
        }
        match &self.default_value {
            Some(d) => Some(d.as_str()),
            None => None,
        }
    }

    /// The option's scope.
    pub fn option_scope(&self) -> (r: ConfigOptionScope)
        ensures
            r == self@.scope,
    {
        self.scope
    }

    /// The value type to register: registration needs one, so it fails with
    /// "config option type not set" if none was given.
    pub fn checked_type(&self) -> (r: Result<TypeId, ExtensionError>)
        ensures
            r is Ok <==> self@.option_type is Some,
            r matches Ok(t) ==> self@.option_type == Some(t),
            r matches Err(e) ==> e@ == "config option type not set"@,
    {
        match self.option_type {
            Some(t) => Ok(t),
            None => Err(ExtensionError::new("config option type not set")),
        }
    }

    /// The result of registration given the status DuckDB returned: success
    /// exactly when the status is `DuckDBSuccess`, else an error naming the
    /// option.
    pub fn registration_outcome(&self, status: u32) -> (r: Result<(), ExtensionError>)
        ensures
            r is Ok <==> status == 0,
            r matches Err(e) ==> e@ == registration_failure_message(self@.name),
    {
        if status == success_status() {
            Ok(())
        } else {
            let mut message = String::from_str("duckdb_register_config_option failed for '");
            message.append(self.name.as_str());
            message.append("'");
            Err(ExtensionError::from_message(message))
        }
    }
}

/// A failed registration names the option between single quotes after the
/// name of the C API call.
pub proof fn law_registration_failure_names_option(name: Seq<char>)
    ensures
        registration_failure_message(name) == "duckdb_register_config_option failed for '"@ + name
            + "'"@,
{
}

} // verus!
