//! TLS configuration providers for extensions that make outbound HTTPS
//! connections, and the audit of their security-relevant settings.
//!
//! Providers must not accept invalid certificates unless the user asked for
//! it, and should require TLS 1.2 or later: TLS 1.0 and 1.1 are deprecated
//! (RFC 8996). [`audit_tls_provider`] reports a warning for each of these
//! misconfigurations.

use vstd::prelude::*;
use crate::error::ExtensionError;
use crate::text::{debug_quoted, debug_text, digit_char, lemma_occurs_in_context, occurs_in};
use crate::warning::{ExtensionWarning, WarningSeverity, WarningView};

verus! {

/// Minimum TLS protocol version allowed by a [`TlsConfigProvider`], from
/// oldest to newest.
#[derive(Debug, Clone, Copy, PartialEq, Eq, Structural, PartialOrd, Ord, Hash)]
pub enum TlsVersion {
    /// TLS 1.0, deprecated by RFC 8996.
    Tls10,
    /// TLS 1.1, deprecated by RFC 8996.
    Tls11,
    /// TLS 1.2, the minimum recommended version.
    Tls12,
    /// TLS 1.3, the preferred version.
    Tls13,
}

impl TlsVersion {
    /// The position of the version from oldest (0) to newest (3).
    pub open spec fn rank(self) -> nat {
        match self {
            TlsVersion::Tls10 => 0,
            TlsVersion::Tls11 => 1,
            TlsVersion::Tls12 => 2,
            TlsVersion::Tls13 => 3,
        }
    }

    /// TLS 1.0 and TLS 1.1 are deprecated.
    pub open spec fn deprecated(self) -> bool {
        self is Tls10 || self is Tls11
    }

    /// The version's name, such as `"TLS 1.2"`.
    pub open spec fn label(self) -> Seq<char> {
        match self {
            TlsVersion::Tls10 => "TLS 1.0"@,
            TlsVersion::Tls11 => "TLS 1.1"@,
            TlsVersion::Tls12 => "TLS 1.2"@,
            TlsVersion::Tls13 => "TLS 1.3"@,
        }
    }

    /// Returns `true` if this version is deprecated (TLS 1.0 or 1.1).
    pub fn is_deprecated(self) -> (r: bool)
        ensures
            r == self.deprecated(),
    {
        match self {
            TlsVersion::Tls10 | TlsVersion::Tls11 => true,
            TlsVersion::Tls12 | TlsVersion::Tls13 => false,
        }
    }

    /// Returns the version's name, such as `"TLS 1.2"`.
    pub fn to_string(self) -> (r: String)
        ensures
            r@ == self.label(),
    {
        match self {
            TlsVersion::Tls10 => String::from_str("TLS 1.0"),
            TlsVersion::Tls11 => String::from_str("TLS 1.1"),
            TlsVersion::Tls12 => String::from_str("TLS 1.2"),
            TlsVersion::Tls13 => String::from_str("TLS 1.3"),
        }
    }
}

/// A provider of TLS client configuration, implemented by extensions.
///
/// The configuration is handed out as an `Arc` of the provider's chosen
/// type, typically `dyn Any + Send + Sync` so that consumers can downcast it
/// to the concrete TLS library's config after checking
/// [`config_type_name`][Self::config_type_name].
///
/// Implementations are ordinary Rust outside verification, so no method
/// carries a contract: code that queries a provider states what holds for
/// whatever it answers.
pub trait TlsConfigProvider: Send + Sync {
    /// The type of the shared configuration.
    type Config: ?Sized + Send + Sync;

    /// Returns the TLS client configuration, or an error if it cannot be
    /// created (certificate file not found, invalid key, expired CA, ...).
    fn client_config(&self) -> Result<std::sync::Arc<Self::Config>, ExtensionError>;

    /// A human-readable name for this provider, used in diagnostics.
    fn provider_name(&self) -> &str;

    /// The concrete type name of the configuration, checked before a downcast.
    fn config_type_name(&self) -> &str;

    /// The minimum TLS version this configuration allows; should be TLS 1.2
    /// or later.
    fn min_tls_version(&self) -> TlsVersion;

    /// Returns `true` if the configuration includes a client certificate.
    fn supports_mtls(&self) -> bool;

    /// Returns `true` if invalid server certificates are accepted (CWE-295);
    /// should be `false` unless the user explicitly asked for it.
    fn accepts_invalid_certs(&self) -> bool;
}

/// The warning for a provider that accepts invalid certificates.
pub open spec fn no_verify_finding(name: Seq<char>) -> WarningView {
    WarningView {
        code: "TLS_NO_VERIFY"@,
        severity: WarningSeverity::High,
        message: "TLS provider "@ + debug_text(name) + " has certificate verification disabled"@,
        cwe: Some(295u32),
    }
}

/// The warning for a provider that allows a deprecated TLS version.
pub open spec fn deprecated_version_finding(name: Seq<char>, version: TlsVersion) -> WarningView {
    WarningView {
        code: "TLS_DEPRECATED_VERSION"@,
        severity: WarningSeverity::Medium,
        message: "TLS provider "@ + debug_text(name) + " allows deprecated "@ + version.label()
            + " (RFC 8996)"@,
        cwe: Some(327u32),
    }
}

/// The warnings for a provider with the given name, minimum version and
/// certificate policy: first the certificate warning, if it applies, then the
/// version warning, if it applies.
pub open spec fn audit_findings(name: Seq<char>, version: TlsVersion, accepts_invalid_certs: bool) -> Seq<
    WarningView,
> {
    (if accepts_invalid_certs {
        seq![no_verify_finding(name)]
    } else {
        Seq::empty()
    }) + (if version.deprecated() {
        seq![deprecated_version_finding(name, version)]
    } else {
        Seq::empty()
    })
}

/// The abstract contents of a list of warnings.
pub open spec fn warning_views(ws: Seq<ExtensionWarning>) -> Seq<WarningView> {
    ws.map_values(|w: ExtensionWarning| w@)
}

/// The warning for a provider, with the given name, that accepts invalid
/// certificates.
pub fn no_verify_warning(name: &str) -> (w: ExtensionWarning)
    ensures
        w@ == no_verify_finding(name@),
{
    let mut message = String::from_str("TLS provider ");
    message.append(debug_quoted(name).as_str());
    message.append(" has certificate verification disabled");
    ExtensionWarning { code: "TLS_NO_VERIFY", severity: WarningSeverity::High, message, cwe: Some(295) }
}

/// The warning for a provider, with the given name, whose minimum version is
/// deprecated.
pub fn deprecated_version_warning(name: &str, version: TlsVersion) -> (w: ExtensionWarning)
    ensures
        w@ == deprecated_version_finding(name@, version),
{
    let mut message = String::from_str("TLS provider ");
    message.append(debug_quoted(name).as_str());
    message.append(" allows deprecated ");
    message.append(version.to_string().as_str());
    message.append(" (RFC 8996)");
    ExtensionWarning {
        code: "TLS_DEPRECATED_VERSION",
        severity: WarningSeverity::Medium,
        message,
        cwe: Some(327),
    }
}

/// Checks the security-relevant settings of a TLS provider and returns one
/// warning per misconfiguration.
pub fn audit_tls_settings(name: &str, min_version: TlsVersion, accepts_invalid_certs: bool) -> (r: Vec<
    ExtensionWarning,
>)
    ensures
        warning_views(r@) == audit_findings(name@, min_version, accepts_invalid_certs),
{
    let mut warnings: Vec<ExtensionWarning> = Vec::new();
    if accepts_invalid_certs {
        warnings.push(no_verify_warning(name));
    }
    if min_version.is_deprecated() {
        warnings.push(deprecated_version_warning(name, min_version));
    }
    assert(warning_views(warnings@) =~= audit_findings(
        name@,
        min_version,
        accepts_invalid_certs,
    ));
    warnings
}

/// The warnings for a provider whose answers were: invalid certificates
/// accepted or not, the name it gave for the certificate warning, its minimum
/// version, and the name it gave for the version warning.
pub open spec fn provider_findings(
    accepts_invalid_certs: bool,
    name_for_certs: Seq<char>,
    version: TlsVersion,
    name_for_version: Seq<char>,
) -> Seq<WarningView> {
    (if accepts_invalid_certs {
        seq![no_verify_finding(name_for_certs)]
    } else {
        Seq::empty()
    }) + (if version.deprecated() {
        seq![deprecated_version_finding(name_for_version, version)]
    } else {
        Seq::empty()
    })
}

/// Audits a TLS provider: asks whether it accepts invalid certificates (and,
/// if so, its name, for the certificate warning), then its minimum version
/// (and, if that is deprecated, its name again, for the version warning).
///
/// The warnings are those for what the provider answered to these calls:
/// one per misconfiguration it reported, certificate warning first.
pub fn audit_tls_provider<P: TlsConfigProvider + ?Sized>(provider: &P) -> (r: Vec<ExtensionWarning>)
    ensures
        exists|invalid: bool, name1: &str, version: TlsVersion, name2: &str|
            {
                &&& call_ensures(P::accepts_invalid_certs, (provider,), invalid)
                &&& (invalid ==> call_ensures(P::provider_name, (provider,), name1))
                &&& call_ensures(P::min_tls_version, (provider,), version)
                &&& (version.deprecated() ==> call_ensures(P::provider_name, (provider,), name2))
                &&& warning_views(r@) == #[trigger] provider_findings(
                    invalid,
                    name1@,
                    version,
                    name2@,
                )
            },
{
    let mut warnings: Vec<ExtensionWarning> = Vec::new();
    let invalid = provider.accepts_invalid_certs();
    let mut name1: &str = "";
    if invalid {
        name1 = provider.provider_name();
        warnings.push(no_verify_warning(name1));
    }
    let version = provider.min_tls_version();
    let mut name2: &str = "";
    if version.is_deprecated() {
        name2 = provider.provider_name();
        warnings.push(deprecated_version_warning(name2, version));
    }
    assert(warning_views(warnings@) =~= provider_findings(invalid, name1@, version, name2@));
    warnings
}

/// A provider that gives the same name whenever it is asked is audited as
/// [`audit_tls_settings`] audits its answers.
pub proof fn law_provider_audit_matches_settings_audit(
    name: Seq<char>,
    version: TlsVersion,
    invalid: bool,
)
    ensures
        provider_findings(invalid, name, version, name) == audit_findings(name, version, invalid),
{
}

/// A version is deprecated exactly when it is older than TLS 1.2.
pub proof fn law_deprecated_means_older_than_tls12(version: TlsVersion)
    ensures
        version.deprecated() <==> version.rank() < TlsVersion::Tls12.rank(),
{
}

/// The audit reports one warning per misconfiguration: the certificate
/// warning exactly when invalid certificates are accepted, the version
/// warning exactly when the minimum version is deprecated, and nothing for a
/// provider that verifies certificates and requires TLS 1.2 or later.
pub proof fn law_audit_flags_each_issue(name: Seq<char>, version: TlsVersion, invalid: bool)
    ensures
        audit_findings(name, version, invalid).len() == (if invalid {
            1int
        } else {
            0int
        }) + (if version.deprecated() {
            1int
        } else {
            0int
        }),
        (exists|i: int|
            0 <= i < audit_findings(name, version, invalid).len() && #[trigger] audit_findings(
                name,
                version,
                invalid,
            )[i] == no_verify_finding(name)) <==> invalid,
        (exists|i: int|
            0 <= i < audit_findings(name, version, invalid).len() && #[trigger] audit_findings(
                name,
                version,
                invalid,
            )[i] == deprecated_version_finding(name, version)) <==> version.deprecated(),
        !invalid && !version.deprecated() ==> audit_findings(name, version, invalid).len() == 0,
        invalid ==> audit_findings(name, version, invalid)[0] == no_verify_finding(name),
        version.deprecated() ==> audit_findings(name, version, invalid).last()
            == deprecated_version_finding(name, version),
{
    let f = audit_findings(name, version, invalid);
    reveal_strlit("TLS_NO_VERIFY");
    reveal_strlit("TLS_DEPRECATED_VERSION");
    assert(no_verify_finding(name).code != deprecated_version_finding(name, version).code) by {
        assert(no_verify_finding(name).code[4] != deprecated_version_finding(name, version).code[4]);
    }
    if invalid {
        assert(f[0] == no_verify_finding(name));
    }
    if version.deprecated() {
        assert(f[f.len() - 1] == deprecated_version_finding(name, version));
    }
}

/// Each version is named `"TLS 1."` followed by the digit of its position:
/// TLS 1.0, 1.1, 1.2, 1.3, so different versions have different names.
pub proof fn law_version_labels(v: TlsVersion, w: TlsVersion)
    ensures
        v.label() == "TLS 1."@ + seq![digit_char(v.rank())],
        v != w ==> v.label() != w.label(),
{
    reveal_strlit("TLS 1.");
    reveal_strlit("TLS 1.0");
    reveal_strlit("TLS 1.1");
    reveal_strlit("TLS 1.2");
    reveal_strlit("TLS 1.3");
    assert(v.label() =~= "TLS 1."@ + seq![digit_char(v.rank())]);
    assert(w.label() =~= "TLS 1."@ + seq![digit_char(w.rank())]);
    if v != w {
        assert(v.label()[6] != w.label()[6]);
    }
}

/// Whatever the provider's name and version: the certificate warning has
/// code `TLS_NO_VERIFY`, severity High and CWE 295, and names the provider;
/// the version warning has code `TLS_DEPRECATED_VERSION`, severity Medium
/// and CWE 327, and names both the provider and the version.
pub proof fn law_warning_fields_are_fixed(name: Seq<char>, version: TlsVersion)
    ensures
        no_verify_finding(name).code == "TLS_NO_VERIFY"@,
        no_verify_finding(name).severity == WarningSeverity::High,
        no_verify_finding(name).cwe == Some(295u32),
        occurs_in(debug_text(name), no_verify_finding(name).message),
        deprecated_version_finding(name, version).code == "TLS_DEPRECATED_VERSION"@,
        deprecated_version_finding(name, version).severity == WarningSeverity::Medium,
        deprecated_version_finding(name, version).cwe == Some(327u32),
        occurs_in(debug_text(name), deprecated_version_finding(name, version).message),
        occurs_in(version.label(), deprecated_version_finding(name, version).message),
{
    let q = debug_text(name);
    let j: int = 0;
    assert(q.subrange(j, j + q.len()) =~= q);
    assert(occurs_in(q, q));
    lemma_occurs_in_context(q, "TLS provider "@, q, " has certificate verification disabled"@);
    lemma_occurs_in_context(
        q,
        "TLS provider "@,
        q,
        " allows deprecated "@ + version.label() + " (RFC 8996)"@,
    );
    assert(deprecated_version_finding(name, version).message =~= "TLS provider "@ + q + (
    " allows deprecated "@ + version.label() + " (RFC 8996)"@));
    let l = version.label();
    assert(l.subrange(j, j + l.len()) =~= l);
    assert(occurs_in(l, l));
    lemma_occurs_in_context(l, "TLS provider "@ + q + " allows deprecated "@, l, " (RFC 8996)"@);
}

} // verus!
