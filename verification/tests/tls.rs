use std::any::Any;
use std::sync::Arc;

use quack_rs::error::ExtensionError;
use quack_rs::tls::{audit_tls_provider, audit_tls_settings, TlsConfigProvider, TlsVersion};
use quack_rs::warning::WarningSeverity;

struct SecureProvider {
    config: Arc<String>,
}

#[allow(clippy::unnecessary_literal_bound)]
impl TlsConfigProvider for SecureProvider {
    type Config = dyn Any + Send + Sync;

    fn client_config(&self) -> Result<Arc<dyn Any + Send + Sync>, ExtensionError> {
        Ok(self.config.clone())
    }

    fn provider_name(&self) -> &str {
        "test-secure"
    }

    fn config_type_name(&self) -> &str {
        "String"
    }

    fn min_tls_version(&self) -> TlsVersion {
        TlsVersion::Tls12
    }

    fn supports_mtls(&self) -> bool {
        false
    }

    fn accepts_invalid_certs(&self) -> bool {
        false
    }
}

struct InsecureProvider;

#[allow(clippy::unnecessary_literal_bound)]
impl TlsConfigProvider for InsecureProvider {
    type Config = dyn Any + Send + Sync;

    fn client_config(&self) -> Result<Arc<dyn Any + Send + Sync>, ExtensionError> {
        Ok(Arc::new(42u32))
    }

    fn provider_name(&self) -> &str {
        "test-insecure"
    }

    fn config_type_name(&self) -> &str {
        "u32"
    }

    fn min_tls_version(&self) -> TlsVersion {
        TlsVersion::Tls10
    }

    fn supports_mtls(&self) -> bool {
        false
    }

    fn accepts_invalid_certs(&self) -> bool {
        true
    }
}

struct FailingProvider;

#[allow(clippy::unnecessary_literal_bound)]
impl TlsConfigProvider for FailingProvider {
    type Config = dyn Any + Send + Sync;

    fn client_config(&self) -> Result<Arc<dyn Any + Send + Sync>, ExtensionError> {
        Err(ExtensionError::new("certificate file not found"))
    }

    fn provider_name(&self) -> &str {
        "test-failing"
    }

    fn config_type_name(&self) -> &str {
        "never"
    }

    fn min_tls_version(&self) -> TlsVersion {
        TlsVersion::Tls13
    }

    fn supports_mtls(&self) -> bool {
        true
    }

    fn accepts_invalid_certs(&self) -> bool {
        false
    }
}

#[test]
fn secure_provider_returns_config() {
    let provider = SecureProvider {
        config: Arc::new("test-config".to_string()),
    };
    let config = provider.client_config().unwrap();
    let s = config.downcast_ref::<String>().unwrap();
    assert_eq!(s, "test-config");
}

#[test]
fn secure_provider_metadata() {
    let provider = SecureProvider {
        config: Arc::new(String::new()),
    };
    assert_eq!(provider.provider_name(), "test-secure");
    assert_eq!(provider.config_type_name(), "String");
    assert_eq!(provider.min_tls_version(), TlsVersion::Tls12);
    assert!(!provider.supports_mtls());
    assert!(!provider.accepts_invalid_certs());
}

#[test]
fn failing_provider_returns_error() {
    let provider = FailingProvider;
    let err = provider.client_config().unwrap_err();
    assert_eq!(err.as_str(), "certificate file not found");
    assert!(provider.supports_mtls());
}

#[test]
fn downcast_wrong_type_returns_none() {
    let provider = SecureProvider {
        config: Arc::new("hello".to_string()),
    };
    let config = provider.client_config().unwrap();
    // Trying to downcast String to u32 should return None, not panic.
    assert!(config.downcast_ref::<u32>().is_none());
}

#[test]
fn audit_secure_provider_no_warnings() {
    let provider = SecureProvider {
        config: Arc::new(String::new()),
    };
    let warnings = audit_tls_provider(&provider);
    assert!(warnings.is_empty());
}

#[test]
fn audit_insecure_provider_flags_issues() {
    let provider = InsecureProvider;
    let warnings = audit_tls_provider(&provider);

    assert_eq!(warnings.len(), 2);

    // Should flag invalid cert acceptance (CWE-295).
    let cert_warning = warnings.iter().find(|w| w.code == "TLS_NO_VERIFY");
    assert!(cert_warning.is_some());
    assert_eq!(cert_warning.unwrap().cwe, Some(295));
    assert_eq!(
        cert_warning.unwrap().severity,
        WarningSeverity::High
    );

    // Should flag deprecated TLS version (CWE-327).
    let version_warning = warnings.iter().find(|w| w.code == "TLS_DEPRECATED_VERSION");
    assert!(version_warning.is_some());
    assert_eq!(version_warning.unwrap().cwe, Some(327));
    assert!(version_warning.unwrap().message.contains("TLS 1.0"));
}

#[test]
fn tls_version_ordering() {
    assert!(TlsVersion::Tls10 < TlsVersion::Tls11);
    assert!(TlsVersion::Tls11 < TlsVersion::Tls12);
    assert!(TlsVersion::Tls12 < TlsVersion::Tls13);
}

#[test]
fn tls_version_deprecated() {
    assert!(TlsVersion::Tls10.is_deprecated());
    assert!(TlsVersion::Tls11.is_deprecated());
    assert!(!TlsVersion::Tls12.is_deprecated());
    assert!(!TlsVersion::Tls13.is_deprecated());
}

#[test]
fn tls_version_display() {
    assert_eq!(TlsVersion::Tls10.to_string(), "TLS 1.0");
    assert_eq!(TlsVersion::Tls11.to_string(), "TLS 1.1");
    assert_eq!(TlsVersion::Tls12.to_string(), "TLS 1.2");
    assert_eq!(TlsVersion::Tls13.to_string(), "TLS 1.3");
}

#[test]
fn provider_is_send_sync() {
    fn assert_send_sync<T: Send + Sync>() {}
    assert_send_sync::<SecureProvider>();
}

#[test]
fn trait_object_is_send_sync() {
    fn assert_send_sync<T: Send + Sync + ?Sized>() {}
    assert_send_sync::<dyn TlsConfigProvider<Config = dyn Any + Send + Sync>>();
}

#[test]
fn tls11_is_deprecated() {
    // TLS 1.1 must also be flagged as deprecated (not just TLS 1.0)
    struct Tls11Provider;

    #[allow(clippy::unnecessary_literal_bound)]
    impl TlsConfigProvider for Tls11Provider {
        type Config = dyn Any + Send + Sync;

        fn client_config(&self) -> Result<Arc<dyn Any + Send + Sync>, ExtensionError> {
            Ok(Arc::new(()))
        }
        fn provider_name(&self) -> &str {
            "tls11-test"
        }
        fn config_type_name(&self) -> &str {
            "()"
        }
        fn min_tls_version(&self) -> TlsVersion {
            TlsVersion::Tls11
        }
        fn supports_mtls(&self) -> bool {
            false
        }
        fn accepts_invalid_certs(&self) -> bool {
            false
        }
    }

    let warnings = audit_tls_provider(&Tls11Provider);
    assert_eq!(warnings.len(), 1);
    assert_eq!(warnings[0].code, "TLS_DEPRECATED_VERSION");
    assert!(warnings[0].message.contains("TLS 1.1"));
}

#[test]
fn tls13_no_warnings() {
    struct Tls13Provider;

    #[allow(clippy::unnecessary_literal_bound)]
    impl TlsConfigProvider for Tls13Provider {
        type Config = dyn Any + Send + Sync;

        fn client_config(&self) -> Result<Arc<dyn Any + Send + Sync>, ExtensionError> {
            Ok(Arc::new(()))
        }
        fn provider_name(&self) -> &str {
            "tls13-test"
        }
        fn config_type_name(&self) -> &str {
            "()"
        }
        fn min_tls_version(&self) -> TlsVersion {
            TlsVersion::Tls13
        }
        fn supports_mtls(&self) -> bool {
            true
        }
        fn accepts_invalid_certs(&self) -> bool {
            false
        }
    }

    let warnings = audit_tls_provider(&Tls13Provider);
    assert!(warnings.is_empty());
}

#[test]
fn audit_only_invalid_certs_not_deprecated_version() {
    // Provider with valid TLS version but invalid certs accepted
    struct CertOnlyInsecure;

    #[allow(clippy::unnecessary_literal_bound)]
    impl TlsConfigProvider for CertOnlyInsecure {
        type Config = dyn Any + Send + Sync;

        fn client_config(&self) -> Result<Arc<dyn Any + Send + Sync>, ExtensionError> {
            Ok(Arc::new(()))
        }
        fn provider_name(&self) -> &str {
            "cert-insecure"
        }
        fn config_type_name(&self) -> &str {
            "()"
        }
        fn min_tls_version(&self) -> TlsVersion {
            TlsVersion::Tls13
        }
        fn supports_mtls(&self) -> bool {
            false
        }
        fn accepts_invalid_certs(&self) -> bool {
            true
        }
    }

    let warnings = audit_tls_provider(&CertOnlyInsecure);
    assert_eq!(warnings.len(), 1);
    assert_eq!(warnings[0].code, "TLS_NO_VERIFY");
    assert_eq!(warnings[0].cwe, Some(295));
}

#[test]
fn tls_version_is_not_deprecated() {
    assert!(!TlsVersion::Tls12.is_deprecated());
    assert!(!TlsVersion::Tls13.is_deprecated());
}

#[test]
fn failing_provider_metadata() {
    let provider = FailingProvider;
    assert_eq!(provider.provider_name(), "test-failing");
    assert_eq!(provider.config_type_name(), "never");
    assert_eq!(provider.min_tls_version(), TlsVersion::Tls13);
    assert!(!provider.accepts_invalid_certs());
}

#[test]
fn audit_messages_exact() {
    let warnings = audit_tls_settings("p", TlsVersion::Tls11, true);
    assert_eq!(warnings.len(), 2);
    assert_eq!(warnings[0].code, "TLS_NO_VERIFY");
    assert_eq!(
        warnings[0].message,
        "TLS provider \"p\" has certificate verification disabled"
    );
    assert_eq!(warnings[0].severity, WarningSeverity::High);
    assert_eq!(warnings[1].code, "TLS_DEPRECATED_VERSION");
    assert_eq!(
        warnings[1].message,
        "TLS provider \"p\" allows deprecated TLS 1.1 (RFC 8996)"
    );
    assert_eq!(warnings[1].severity, WarningSeverity::Medium);
    assert_eq!(warnings[1].cwe, Some(327));
}

#[test]
fn audit_settings_secure_is_empty() {
    assert!(audit_tls_settings("p", TlsVersion::Tls12, false).is_empty());
    assert!(audit_tls_settings("p", TlsVersion::Tls13, false).is_empty());
}

#[test]
fn severity_levels() {
    let all = [
        WarningSeverity::Info,
        WarningSeverity::Low,
        WarningSeverity::Medium,
        WarningSeverity::High,
        WarningSeverity::Critical,
    ];
    assert_eq!(all.len(), 5);
    assert_ne!(WarningSeverity::Info, WarningSeverity::Critical);
}
