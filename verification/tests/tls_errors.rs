use gel_protocol::stream_errors::{
    CommonError, RustlsCertificateError, RustlsError, SslError, SSL_ERROR_SSL,
    X509_V_ERR_CERT_HAS_EXPIRED, X509_V_ERR_CERT_REVOKED, X509_V_ERR_HOSTNAME_MISMATCH,
    X509_V_ERR_IP_ADDRESS_MISMATCH, X509_V_ERR_UNABLE_TO_GET_ISSUER_CERT,
    X509_V_ERR_UNABLE_TO_GET_ISSUER_CERT_LOCALLY,
};

#[test]
fn openssl_constants_match_the_library() {
    assert_eq!(X509_V_ERR_HOSTNAME_MISMATCH, openssl_sys::X509_V_ERR_HOSTNAME_MISMATCH);
    assert_eq!(X509_V_ERR_IP_ADDRESS_MISMATCH, openssl_sys::X509_V_ERR_IP_ADDRESS_MISMATCH);
    assert_eq!(X509_V_ERR_CERT_REVOKED, openssl_sys::X509_V_ERR_CERT_REVOKED);
    assert_eq!(X509_V_ERR_CERT_HAS_EXPIRED, openssl_sys::X509_V_ERR_CERT_HAS_EXPIRED);
    assert_eq!(
        X509_V_ERR_UNABLE_TO_GET_ISSUER_CERT,
        openssl_sys::X509_V_ERR_UNABLE_TO_GET_ISSUER_CERT
    );
    assert_eq!(
        X509_V_ERR_UNABLE_TO_GET_ISSUER_CERT_LOCALLY,
        openssl_sys::X509_V_ERR_UNABLE_TO_GET_ISSUER_CERT_LOCALLY
    );
    assert_eq!(SSL_ERROR_SSL, openssl_sys::SSL_ERROR_SSL);
}

#[test]
fn rustls_errors_classify() {
    let cert = |c| SslError::RustlsError(RustlsError::InvalidCertificate(c)).common_error();
    assert_eq!(cert(RustlsCertificateError::NotValidForName), Some(CommonError::InvalidCertificateForName));
    assert_eq!(
        cert(RustlsCertificateError::NotValidForNameContext),
        Some(CommonError::InvalidCertificateForName)
    );
    assert_eq!(cert(RustlsCertificateError::Revoked), Some(CommonError::CertificateRevoked));
    assert_eq!(cert(RustlsCertificateError::Expired), Some(CommonError::CertificateExpired));
    assert_eq!(cert(RustlsCertificateError::UnknownIssuer), Some(CommonError::InvalidIssuer));
    assert_eq!(cert(RustlsCertificateError::Other), None);
    assert_eq!(
        SslError::RustlsError(RustlsError::InvalidMessage).common_error(),
        Some(CommonError::InvalidTlsProtocolData)
    );
    assert_eq!(SslError::RustlsError(RustlsError::Other).common_error(), None);
}

#[test]
fn openssl_errors_classify() {
    let verify = |raw| SslError::OpenSslErrorVerify { raw }.common_error();
    assert_eq!(verify(62), Some(CommonError::InvalidCertificateForName));
    assert_eq!(verify(64), Some(CommonError::InvalidCertificateForName));
    assert_eq!(verify(23), Some(CommonError::CertificateRevoked));
    assert_eq!(verify(10), Some(CommonError::CertificateExpired));
    assert_eq!(verify(2), Some(CommonError::InvalidIssuer));
    assert_eq!(verify(20), Some(CommonError::InvalidIssuer));
    assert_eq!(verify(0), None);
    let stack = |c| SslError::OpenSslErrorStack { first_error_code: c }.common_error();
    assert_eq!(stack(Some(0xa00010b)), Some(CommonError::InvalidTlsProtocolData));
    assert_eq!(stack(Some(0xa0000c6)), Some(CommonError::InvalidTlsProtocolData));
    assert_eq!(stack(Some(1)), None);
    assert_eq!(stack(None), None);
    let ssl = |code, c| SslError::OpenSslError { code, first_error_code: c }.common_error();
    assert_eq!(ssl(1, Some(0xa00010b)), Some(CommonError::InvalidTlsProtocolData));
    assert_eq!(ssl(5, Some(0xa00010b)), None);
    assert_eq!(ssl(1, None), None);
    assert_eq!(SslError::SslAlreadyUpgraded.common_error(), None);
    assert_eq!(SslError::SslIoError(std::io::Error::other("x")).common_error(), None);
}
