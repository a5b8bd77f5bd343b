//! Security warnings that an extension reports about its configuration.

use vstd::prelude::*;

verus! {

/// How serious a reported warning is.
#[derive(Debug, Clone, Copy, PartialEq, Eq, Structural)]
pub enum WarningSeverity {
    /// No security impact, but worth noting.
    Info,
    /// Minimal security impact.
    Low,
    /// A potential security concern.
    Medium,
    /// A significant security risk.
    High,
    /// Immediate action recommended.
    Critical,
}

/// The abstract content of an [`ExtensionWarning`].
pub struct WarningView {
    pub code: Seq<char>,
    pub severity: WarningSeverity,
    pub message: Seq<char>,
    pub cwe: Option<u32>,
}

/// A warning about a risky setting, with a stable code, a severity, a
/// human-readable message and, where one applies, a CWE number.
#[derive(Debug, Clone)]
pub struct ExtensionWarning {
    /// A stable machine-readable code, such as `"TLS_NO_VERIFY"`.
    pub code: &'static str,
    /// How serious the issue is.
    pub severity: WarningSeverity,
    /// A human-readable description.
    pub message: String,
    /// The CWE number of the weakness, if any.
    pub cwe: Option<u32>,
}

impl View for ExtensionWarning {
    type V = WarningView;

    open spec fn view(&self) -> WarningView {
        WarningView { code: self.code@, severity: self.severity, message: self.message@, cwe: self.cwe }
    }
}

} // verus!
