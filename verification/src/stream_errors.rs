//! The errors of connecting a stream, and the classification of TLS errors of
//! either crypto backend into the errors that both have in common.
use vstd::prelude::*;

verus! {

/// The I/O error of the standard library.
#[verifier::external_type_specification]
#[verifier::external_body]
pub struct ExIoError(std::io::Error);

/// The UTF-8 decoding error of the standard library.
#[verifier::external_type_specification]
#[verifier::external_body]
pub struct ExUtf8Error(core::str::Utf8Error);

/// `X509_V_ERR_UNABLE_TO_GET_ISSUER_CERT` of OpenSSL.
pub const X509_V_ERR_UNABLE_TO_GET_ISSUER_CERT: i32 = 2;

/// `X509_V_ERR_CERT_HAS_EXPIRED` of OpenSSL.
pub const X509_V_ERR_CERT_HAS_EXPIRED: i32 = 10;

/// `X509_V_ERR_UNABLE_TO_GET_ISSUER_CERT_LOCALLY` of OpenSSL.
pub const X509_V_ERR_UNABLE_TO_GET_ISSUER_CERT_LOCALLY: i32 = 20;

/// `X509_V_ERR_CERT_REVOKED` of OpenSSL.
pub const X509_V_ERR_CERT_REVOKED: i32 = 23;

/// `X509_V_ERR_HOSTNAME_MISMATCH` of OpenSSL.
pub const X509_V_ERR_HOSTNAME_MISMATCH: i32 = 62;

/// `X509_V_ERR_IP_ADDRESS_MISMATCH` of OpenSSL.
pub const X509_V_ERR_IP_ADDRESS_MISMATCH: i32 = 64;

/// `SSL_ERROR_SSL` of OpenSSL: a failure in the SSL library.
pub const SSL_ERROR_SSL: i32 = 1;

/// The OpenSSL error code of `SSL_R_WRONG_VERSION_NUMBER`.
pub const SSL_R_WRONG_VERSION_NUMBER: u64 = 0xa00010b;

/// The OpenSSL error code of `SSL_R_PACKET_LENGTH_TOO_LONG`.
pub const SSL_R_PACKET_LENGTH_TOO_LONG: u64 = 0xa0000c6;

/// The kinds of certificate error of rustls that the classification reads.
#[derive(Debug, Clone, Copy, PartialEq, Eq, Structural)]
pub enum RustlsCertificateError {
    NotValidForName,
    NotValidForNameContext,
    Revoked,
    Expired,
    UnknownIssuer,
    /// Any other certificate error.
    Other,
}

/// The kinds of rustls error that the classification reads.
#[derive(Debug, Clone, Copy, PartialEq, Eq, Structural)]
pub enum RustlsError {
    /// A certificate was refused.
    InvalidCertificate(RustlsCertificateError),
    /// The peer sent a malformed message.
    InvalidMessage,
    /// Any other rustls error.
    Other,
}

/// An error of the TLS layer. The errors of the crypto backends are held as
/// the codes and kinds that classify them.
#[derive(Debug)]
pub enum SslError {
    /// SSL is not supported by this client transport.
    SslUnsupportedByClient,
    /// SSL is already upgraded or is in the process of upgrading.
    SslAlreadyUpgraded,
    /// An OpenSSL error: its `code`, and the code of the first error on the
    /// queue of its SSL error, if any.
    OpenSslError { code: i32, first_error_code: Option<u64> },
    /// An OpenSSL error stack: the code of its first error, if any.
    OpenSslErrorStack { first_error_code: Option<u64> },
    /// An OpenSSL certificate verification result, by its raw value.
    OpenSslErrorVerify { raw: i32 },
    /// A rustls error.
    RustlsError(RustlsError),
    /// A webpki error.
    WebpkiError,
    /// An error building a certificate verifier.
    VerifierBuilderError,
    /// An invalid DNS name.
    InvalidDnsNameError,
    /// An I/O error of the TLS layer.
    SslIoError(std::io::Error),
}

/// An error of connecting a stream.
#[derive(Debug)]
pub enum ConnectionError {
    /// An I/O error.
    Io(std::io::Error),
    /// A UTF-8 decoding error.
    Utf8Error(core::str::Utf8Error),
    /// An error of the TLS layer.
    SslError(SslError),
}

/// A TLS error that both crypto backends can report.
#[derive(Debug, PartialEq, Eq, PartialOrd, Ord, Clone, Copy, Hash, Structural)]
pub enum CommonError {
    /// The certificate's subject name(s) do not match the name of the host.
    InvalidCertificateForName,
    /// The certificate has been revoked.
    CertificateRevoked,
    /// The certificate has expired.
    CertificateExpired,
    /// The certificate was issued by an untrusted authority.
    InvalidIssuer,
    /// TLS protocol error.
    InvalidTlsProtocolData,
}

/// The common error of an OpenSSL error code on the error queue.
pub open spec fn openssl_code_common(code: Option<u64>) -> Option<CommonError> {
    match code {
        Some(c) => if c == SSL_R_WRONG_VERSION_NUMBER || c == SSL_R_PACKET_LENGTH_TOO_LONG {
            Some(CommonError::InvalidTlsProtocolData)
        } else {
            None
        },
        None => None,
    }
}

/// The common error of an OpenSSL certificate verification result.
pub open spec fn openssl_verify_common(raw: i32) -> Option<CommonError> {
    if raw == X509_V_ERR_HOSTNAME_MISMATCH || raw == X509_V_ERR_IP_ADDRESS_MISMATCH {
        Some(CommonError::InvalidCertificateForName)
    } else if raw == X509_V_ERR_CERT_REVOKED {
        Some(CommonError::CertificateRevoked)
    } else if raw == X509_V_ERR_CERT_HAS_EXPIRED {
        Some(CommonError::CertificateExpired)
    } else if raw == X509_V_ERR_UNABLE_TO_GET_ISSUER_CERT || raw
        == X509_V_ERR_UNABLE_TO_GET_ISSUER_CERT_LOCALLY {
        Some(CommonError::InvalidIssuer)
    } else {
        None
    }
}

/// The common error of a rustls error.
pub open spec fn rustls_common(e: RustlsError) -> Option<CommonError> {
    match e {
        RustlsError::InvalidCertificate(c) => match c {
            RustlsCertificateError::NotValidForName
            | RustlsCertificateError::NotValidForNameContext => Some(
                CommonError::InvalidCertificateForName,
            ),
            RustlsCertificateError::Revoked => Some(CommonError::CertificateRevoked),
            RustlsCertificateError::Expired => Some(CommonError::CertificateExpired),
            RustlsCertificateError::UnknownIssuer => Some(CommonError::InvalidIssuer),
            RustlsCertificateError::Other => None,
        },
        RustlsError::InvalidMessage => Some(CommonError::InvalidTlsProtocolData),
        RustlsError::Other => None,
    }
}

/// The common error of a TLS error, where it has one.
pub open spec fn common_error_of(e: &SslError) -> Option<CommonError> {
    match e {
        SslError::RustlsError(r) => rustls_common(*r),
        SslError::OpenSslErrorVerify { raw } => openssl_verify_common(*raw),
        SslError::OpenSslErrorStack { first_error_code } => openssl_code_common(*first_error_code),
        SslError::OpenSslError { code, first_error_code } => if *code == SSL_ERROR_SSL {
            openssl_code_common(*first_error_code)
        } else {
            None
        },
        _ => None,
    }
}

fn classify_openssl_code(code: Option<u64>) -> (r: Option<CommonError>)
    ensures
        r == openssl_code_common(code),
{
    match code {
        Some(0xa00010b) => Some(CommonError::InvalidTlsProtocolData),
        Some(0xa0000c6) => Some(CommonError::InvalidTlsProtocolData),
        _ => None,
    }
}

impl SslError {
    /// The error that both crypto backends have in common with this one:
    /// certificate name mismatches, revoked or expired certificates, unknown
    /// issuers and malformed protocol data; `None` for any other error.
    pub fn common_error(&self) -> (r: Option<CommonError>)
        ensures
            r == common_error_of(self),
    {
        match self {
            SslError::RustlsError(RustlsError::InvalidCertificate(cert_err)) => {
                match cert_err {
                    RustlsCertificateError::NotValidForName
                    | RustlsCertificateError::NotValidForNameContext => {
                        Some(CommonError::InvalidCertificateForName)
                    },
                    RustlsCertificateError::Revoked => Some(CommonError::CertificateRevoked),
                    RustlsCertificateError::Expired => Some(CommonError::CertificateExpired),
                    RustlsCertificateError::UnknownIssuer => Some(CommonError::InvalidIssuer),
                    _ => None,
                }
            },
            SslError::RustlsError(RustlsError::InvalidMessage) => {
                Some(CommonError::InvalidTlsProtocolData)
            },
            SslError::OpenSslErrorVerify { raw } => match *raw {
                62 => Some(CommonError::InvalidCertificateForName),
                64 => Some(CommonError::InvalidCertificateForName),
                23 => Some(CommonError::CertificateRevoked),
                10 => Some(CommonError::CertificateExpired),
                2 | 20 => Some(CommonError::InvalidIssuer),
                _ => None,
            },
            SslError::OpenSslErrorStack { first_error_code } => classify_openssl_code(
                *first_error_code,
            ),
            SslError::OpenSslError { code, first_error_code } => match *code {
                1 => classify_openssl_code(*first_error_code),
                _ => None,
            },
            _ => None,
        }
    }
}

} // verus!
