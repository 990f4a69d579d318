//! The error-code registry: a closed set of network/HTTP failure categories,
//! each with a permanently assigned integer code, an open `Unknown` variant
//! that carries any unrecognized code verbatim, total mappings in both
//! directions, and a one-line description for every category.

use vstd::prelude::*;

use crate::decimal::dec_string;
use crate::decimal::i32_to_decimal;
use crate::decimal::lemma_dec_string_nonempty;

verus! {

/// A network or HTTP failure category. Every closed variant has a fixed
/// integer code; `Unknown` carries a code outside the closed set verbatim.
#[derive(Debug, Clone, Copy, PartialEq, Eq, Structural)]
pub enum HttpError {
    ConnectionClosed,
    ConnectionReset,
    ConnectionRefused,
    ConnectionAborted,
    ConnectionFailed,
    NameNotResolved,
    InternetDisconnected,
    SslProtocolError,
    AddressInvalid,
    AddressUnreachable,
    SslClientAuthCertNeeded,
    TunnelConnectionFailed,
    SslVersionOrCipherMismatch,
    SslRenegotiationRequested,
    ProxyAuthUnsupported,
    BadSslClientAuthCert,
    ConnectionTimedOut,
    HostResolverQueueTooLarge,
    SocksConnectionFailed,
    SocksConnectionHostUnreachable,
    AlpnNegotiationFailed,
    SslNoRenegotiation,
    WinsockUnexpectedWrittenBytes,
    SslDecompressionFailureAlert,
    SslBadRecordMacAlert,
    ProxyAuthRequested,
    ProxyConnectionFailed,
    MandatoryProxyConfigurationFailed,
    PreconnectMaxSocketLimit,
    SslClientAuthPrivateKeyAccessDenied,
    SslClientAuthCertNoPrivateKey,
    ProxyCertificateInvalid,
    NameResolutionFailed,
    NetworkAccessDenied,
    TemporarilyThrottled,
    SslClientAuthSignatureFailed,
    MsgTooBig,
    WsProtocolError,
    AddressInUse,
    SslPinnedKeyNotInCertChain,
    ClientAuthCertTypeUnsupported,
    SslDecryptErrorAlert,
    WsThrottleQueueTooLarge,
    SslServerCertChanged,
    SslUnrecognizedNameAlert,
    SocketSetReceiveBufferSizeError,
    SocketSetSendBufferSizeError,
    SocketReceiveBufferSizeUnchangeable,
    SocketSendBufferSizeUnchangeable,
    SslClientAuthCertBadFormat,
    IcannNameCollision,
    SslServerCertBadFormat,
    CtSthParsingFailed,
    CtSthIncomplete,
    UnableToReuseConnectionForProxyAuth,
    CtConsistencyProofParsingFailed,
    SslObsoleteCipher,
    WsUpgrade,
    ReadIfReadyNotImplemented,
    NoBufferSpace,
    SslClientAuthNoCommonAlgorithms,
    EarlyDataRejected,
    WrongVersionOnEarlyData,
    Tls13DowngradeDetected,
    SslKeyUsageIncompatible,
    InvalidEchConfigList,
    EchNotNegotiated,
    EchFallbackCertificateInvalid,
    ProxyUnableToConnectToDestination,
    ProxyDelegateCanceledConnectRequest,
    ProxyDelegateCanceledConnectResponse,
    InvalidUrl,
    DisallowedUrlScheme,
    UnknownUrlScheme,
    InvalidRedirect,
    TooManyRedirects,
    UnsafeRedirect,
    UnsafePort,
    InvalidResponse,
    InvalidChunkedEncoding,
    MethodNotSupported,
    UnexpectedProxyAuth,
    EmptyResponse,
    ResponseHeadersTooBig,
    PacScriptFailed,
    RequestRangeNotSatisfiable,
    MalformedIdentity,
    ContentDecodingFailed,
    NetworkIoSuspended,
    NoSupportedProxies,
    Http2ProtocolError,
    InvalidAuthCredentials,
    UnsupportedAuthScheme,
    EncodingDetectionFailed,
    MissingAuthCredentials,
    UnexpectedSecurityLibraryStatus,
    MisconfiguredAuthEnvironment,
    UndocumentedSecurityLibraryStatus,
    ResponseBodyTooBigToDrain,
    ResponseHeadersMultipleContentLength,
    IncompleteHttp2Headers,
    PacNotInDhcp,
    ResponseHeadersMultipleContentDisposition,
    ResponseHeadersMultipleLocation,
    Http2ServerRefusedStream,
    Http2PingFailed,
    ContentLengthMismatch,
    IncompleteChunkedEncoding,
    QuicProtocolError,
    ResponseHeadersTruncated,
    QuicHandshakeFailed,
    Http2InadequateTransportSecurity,
    Http2FlowControlError,
    Http2FrameSizeError,
    Http2CompressionError,
    ProxyAuthRequestedWithNoConnection,
    Http11Required,
    ProxyHttp11Required,
    PacScriptTerminated,
    ProxyRequired,
    InvalidHttpResponse,
    ContentDecodingInitFailed,
    Http2RstStreamNoErrorReceived,
    Http2PushedStreamNotAvailable,
    Http2ClaimedPushedStreamResetByServer,
    TooManyRetries,
    Http2StreamClosed,
    Http2ClientRefusedStream,
    Http2PushedResponseDoesNotMatch,
    Unknown(i32),
}

impl HttpError {
    /// The integer code of this category: the fixed assignment for a closed
    /// variant, the carried payload for `Unknown`.
    pub open spec fn code_spec(self) -> i32 {
        match self {
            HttpError::ConnectionClosed => -100i32,
            HttpError::ConnectionReset => -101i32,
            HttpError::ConnectionRefused => -102i32,
            HttpError::ConnectionAborted => -103i32,
            HttpError::ConnectionFailed => -104i32,
            HttpError::NameNotResolved => -105i32,
            HttpError::InternetDisconnected => -106i32,
            HttpError::SslProtocolError => -107i32,
            HttpError::AddressInvalid => -108i32,
            HttpError::AddressUnreachable => -109i32,
            HttpError::SslClientAuthCertNeeded => -110i32,
            HttpError::TunnelConnectionFailed => -111i32,
            HttpError::SslVersionOrCipherMismatch => -113i32,
            HttpError::SslRenegotiationRequested => -114i32,
            HttpError::ProxyAuthUnsupported => -115i32,
            HttpError::BadSslClientAuthCert => -117i32,
            HttpError::ConnectionTimedOut => -118i32,
            HttpError::HostResolverQueueTooLarge => -119i32,
            HttpError::SocksConnectionFailed => -120i32,
            HttpError::SocksConnectionHostUnreachable => -121i32,
            HttpError::AlpnNegotiationFailed => -122i32,
            HttpError::SslNoRenegotiation => -123i32,
            HttpError::WinsockUnexpectedWrittenBytes => -124i32,
            HttpError::SslDecompressionFailureAlert => -125i32,
            HttpError::SslBadRecordMacAlert => -126i32,
            HttpError::ProxyAuthRequested => -127i32,
            HttpError::ProxyConnectionFailed => -130i32,
            HttpError::MandatoryProxyConfigurationFailed => -131i32,
            HttpError::PreconnectMaxSocketLimit => -133i32,
            HttpError::SslClientAuthPrivateKeyAccessDenied => -134i32,
            HttpError::SslClientAuthCertNoPrivateKey => -135i32,
            HttpError::ProxyCertificateInvalid => -136i32,
            HttpError::NameResolutionFailed => -137i32,
            HttpError::NetworkAccessDenied => -138i32,
            HttpError::TemporarilyThrottled => -139i32,
            HttpError::SslClientAuthSignatureFailed => -141i32,
            HttpError::MsgTooBig => -142i32,
            HttpError::WsProtocolError => -145i32,
            HttpError::AddressInUse => -147i32,
            HttpError::SslPinnedKeyNotInCertChain => -150i32,
            HttpError::ClientAuthCertTypeUnsupported => -151i32,
            HttpError::SslDecryptErrorAlert => -153i32,
            HttpError::WsThrottleQueueTooLarge => -154i32,
            HttpError::SslServerCertChanged => -156i32,
            HttpError::SslUnrecognizedNameAlert => -159i32,
            HttpError::SocketSetReceiveBufferSizeError => -160i32,
            HttpError::SocketSetSendBufferSizeError => -161i32,
            HttpError::SocketReceiveBufferSizeUnchangeable => -162i32,
            HttpError::SocketSendBufferSizeUnchangeable => -163i32,
            HttpError::SslClientAuthCertBadFormat => -164i32,
            HttpError::IcannNameCollision => -166i32,
            HttpError::SslServerCertBadFormat => -167i32,
            HttpError::CtSthParsingFailed => -168i32,
            HttpError::CtSthIncomplete => -169i32,
            HttpError::UnableToReuseConnectionForProxyAuth => -170i32,
            HttpError::CtConsistencyProofParsingFailed => -171i32,
            HttpError::SslObsoleteCipher => -172i32,
            HttpError::WsUpgrade => -173i32,
            HttpError::ReadIfReadyNotImplemented => -174i32,
            HttpError::NoBufferSpace => -176i32,
            HttpError::SslClientAuthNoCommonAlgorithms => -177i32,
            HttpError::EarlyDataRejected => -178i32,
            HttpError::WrongVersionOnEarlyData => -179i32,
            HttpError::Tls13DowngradeDetected => -180i32,
            HttpError::SslKeyUsageIncompatible => -181i32,
            HttpError::InvalidEchConfigList => -182i32,
            HttpError::EchNotNegotiated => -183i32,
            HttpError::EchFallbackCertificateInvalid => -184i32,
            HttpError::ProxyUnableToConnectToDestination => -186i32,
            HttpError::ProxyDelegateCanceledConnectRequest => -187i32,
            HttpError::ProxyDelegateCanceledConnectResponse => -188i32,
            HttpError::InvalidUrl => -300i32,
            HttpError::DisallowedUrlScheme => -301i32,
            HttpError::UnknownUrlScheme => -302i32,
            HttpError::InvalidRedirect => -303i32,
            HttpError::TooManyRedirects => -310i32,
            HttpError::UnsafeRedirect => -311i32,
            HttpError::UnsafePort => -312i32,
            HttpError::InvalidResponse => -320i32,
            HttpError::InvalidChunkedEncoding => -321i32,
            HttpError::MethodNotSupported => -322i32,
            HttpError::UnexpectedProxyAuth => -323i32,
            HttpError::EmptyResponse => -324i32,
            HttpError::ResponseHeadersTooBig => -325i32,
            HttpError::PacScriptFailed => -327i32,
            HttpError::RequestRangeNotSatisfiable => -328i32,
            HttpError::MalformedIdentity => -329i32,
            HttpError::ContentDecodingFailed => -330i32,
            HttpError::NetworkIoSuspended => -331i32,
            HttpError::NoSupportedProxies => -336i32,
            HttpError::Http2ProtocolError => -337i32,
            HttpError::InvalidAuthCredentials => -338i32,
            HttpError::UnsupportedAuthScheme => -339i32,
            HttpError::EncodingDetectionFailed => -340i32,
            HttpError::MissingAuthCredentials => -341i32,
            HttpError::UnexpectedSecurityLibraryStatus => -342i32,
            HttpError::MisconfiguredAuthEnvironment => -343i32,
            HttpError::UndocumentedSecurityLibraryStatus => -344i32,
            HttpError::ResponseBodyTooBigToDrain => -345i32,
            HttpError::ResponseHeadersMultipleContentLength => -346i32,
            HttpError::IncompleteHttp2Headers => -347i32,
            HttpError::PacNotInDhcp => -348i32,
            HttpError::ResponseHeadersMultipleContentDisposition => -349i32,
            HttpError::ResponseHeadersMultipleLocation => -350i32,
            HttpError::Http2ServerRefusedStream => -351i32,
            HttpError::Http2PingFailed => -352i32,
            HttpError::ContentLengthMismatch => -354i32,
            HttpError::IncompleteChunkedEncoding => -355i32,
            HttpError::QuicProtocolError => -356i32,
            HttpError::ResponseHeadersTruncated => -357i32,
            HttpError::QuicHandshakeFailed => -358i32,
            HttpError::Http2InadequateTransportSecurity => -360i32,
            HttpError::Http2FlowControlError => -361i32,
            HttpError::Http2FrameSizeError => -362i32,
            HttpError::Http2CompressionError => -363i32,
            HttpError::ProxyAuthRequestedWithNoConnection => -364i32,
            HttpError::Http11Required => -365i32,
            HttpError::ProxyHttp11Required => -366i32,
            HttpError::PacScriptTerminated => -367i32,
            HttpError::ProxyRequired => -368i32,
            HttpError::InvalidHttpResponse => -370i32,
            HttpError::ContentDecodingInitFailed => -371i32,
            HttpError::Http2RstStreamNoErrorReceived => -372i32,
            HttpError::Http2PushedStreamNotAvailable => -373i32,
            HttpError::Http2ClaimedPushedStreamResetByServer => -374i32,
            HttpError::TooManyRetries => -375i32,
            HttpError::Http2StreamClosed => -376i32,
            HttpError::Http2ClientRefusedStream => -377i32,
            HttpError::Http2PushedResponseDoesNotMatch => -378i32,
            HttpError::Unknown(code) => code,
        }
    }

    /// Whether this is one of the closed (named) categories.
    pub open spec fn is_closed(self) -> bool {
        !(self is Unknown)
    }

    /// The category a code resolves to: the closed variant owning the code
    /// if one exists, `Unknown` otherwise.
    pub open spec fn from_code_spec(code: i32) -> HttpError {
        match code {
            -100 => HttpError::ConnectionClosed,
            -101 => HttpError::ConnectionReset,
            -102 => HttpError::ConnectionRefused,
            -103 => HttpError::ConnectionAborted,
            -104 => HttpError::ConnectionFailed,
            -105 => HttpError::NameNotResolved,
            -106 => HttpError::InternetDisconnected,
            -107 => HttpError::SslProtocolError,
            -108 => HttpError::AddressInvalid,
            -109 => HttpError::AddressUnreachable,
            -110 => HttpError::SslClientAuthCertNeeded,
            -111 => HttpError::TunnelConnectionFailed,
            -113 => HttpError::SslVersionOrCipherMismatch,
            -114 => HttpError::SslRenegotiationRequested,
            -115 => HttpError::ProxyAuthUnsupported,
            -117 => HttpError::BadSslClientAuthCert,
            -118 => HttpError::ConnectionTimedOut,
            -119 => HttpError::HostResolverQueueTooLarge,
            -120 => HttpError::SocksConnectionFailed,
            -121 => HttpError::SocksConnectionHostUnreachable,
            -122 => HttpError::AlpnNegotiationFailed,
            -123 => HttpError::SslNoRenegotiation,
            -124 => HttpError::WinsockUnexpectedWrittenBytes,
            -125 => HttpError::SslDecompressionFailureAlert,
            -126 => HttpError::SslBadRecordMacAlert,
            -127 => HttpError::ProxyAuthRequested,
            -130 => HttpError::ProxyConnectionFailed,
            -131 => HttpError::MandatoryProxyConfigurationFailed,
            -133 => HttpError::PreconnectMaxSocketLimit,
            -134 => HttpError::SslClientAuthPrivateKeyAccessDenied,
            -135 => HttpError::SslClientAuthCertNoPrivateKey,
            -136 => HttpError::ProxyCertificateInvalid,
            -137 => HttpError::NameResolutionFailed,
            -138 => HttpError::NetworkAccessDenied,
            -139 => HttpError::TemporarilyThrottled,
            -141 => HttpError::SslClientAuthSignatureFailed,
            -142 => HttpError::MsgTooBig,
            -145 => HttpError::WsProtocolError,
            -147 => HttpError::AddressInUse,
            -150 => HttpError::SslPinnedKeyNotInCertChain,
            -151 => HttpError::ClientAuthCertTypeUnsupported,
            -153 => HttpError::SslDecryptErrorAlert,
            -154 => HttpError::WsThrottleQueueTooLarge,
            -156 => HttpError::SslServerCertChanged,
            -159 => HttpError::SslUnrecognizedNameAlert,
            -160 => HttpError::SocketSetReceiveBufferSizeError,
            -161 => HttpError::SocketSetSendBufferSizeError,
            -162 => HttpError::SocketReceiveBufferSizeUnchangeable,
            -163 => HttpError::SocketSendBufferSizeUnchangeable,
            -164 => HttpError::SslClientAuthCertBadFormat,
            -166 => HttpError::IcannNameCollision,
            -167 => HttpError::SslServerCertBadFormat,
            -168 => HttpError::CtSthParsingFailed,
            -169 => HttpError::CtSthIncomplete,
            -170 => HttpError::UnableToReuseConnectionForProxyAuth,
            -171 => HttpError::CtConsistencyProofParsingFailed,
            -172 => HttpError::SslObsoleteCipher,
            -173 => HttpError::WsUpgrade,
            -174 => HttpError::ReadIfReadyNotImplemented,
            -176 => HttpError::NoBufferSpace,
            -177 => HttpError::SslClientAuthNoCommonAlgorithms,
            -178 => HttpError::EarlyDataRejected,
            -179 => HttpError::WrongVersionOnEarlyData,
            -180 => HttpError::Tls13DowngradeDetected,
            -181 => HttpError::SslKeyUsageIncompatible,
            -182 => HttpError::InvalidEchConfigList,
            -183 => HttpError::EchNotNegotiated,
            -184 => HttpError::EchFallbackCertificateInvalid,
            -186 => HttpError::ProxyUnableToConnectToDestination,
            -187 => HttpError::ProxyDelegateCanceledConnectRequest,
            -188 => HttpError::ProxyDelegateCanceledConnectResponse,
            -300 => HttpError::InvalidUrl,
            -301 => HttpError::DisallowedUrlScheme,
            -302 => HttpError::UnknownUrlScheme,
            -303 => HttpError::InvalidRedirect,
            -310 => HttpError::TooManyRedirects,
            -311 => HttpError::UnsafeRedirect,
            -312 => HttpError::UnsafePort,
            -320 => HttpError::InvalidResponse,
            -321 => HttpError::InvalidChunkedEncoding,
            -322 => HttpError::MethodNotSupported,
            -323 => HttpError::UnexpectedProxyAuth,
            -324 => HttpError::EmptyResponse,
            -325 => HttpError::ResponseHeadersTooBig,
            -327 => HttpError::PacScriptFailed,
            -328 => HttpError::RequestRangeNotSatisfiable,
            -329 => HttpError::MalformedIdentity,
            -330 => HttpError::ContentDecodingFailed,
            -331 => HttpError::NetworkIoSuspended,
            -336 => HttpError::NoSupportedProxies,
            -337 => HttpError::Http2ProtocolError,
            -338 => HttpError::InvalidAuthCredentials,
            -339 => HttpError::UnsupportedAuthScheme,
            -340 => HttpError::EncodingDetectionFailed,
            -341 => HttpError::MissingAuthCredentials,
            -342 => HttpError::UnexpectedSecurityLibraryStatus,
            -343 => HttpError::MisconfiguredAuthEnvironment,
            -344 => HttpError::UndocumentedSecurityLibraryStatus,
            -345 => HttpError::ResponseBodyTooBigToDrain,
            -346 => HttpError::ResponseHeadersMultipleContentLength,
            -347 => HttpError::IncompleteHttp2Headers,
            -348 => HttpError::PacNotInDhcp,
            -349 => HttpError::ResponseHeadersMultipleContentDisposition,
            -350 => HttpError::ResponseHeadersMultipleLocation,
            -351 => HttpError::Http2ServerRefusedStream,
            -352 => HttpError::Http2PingFailed,
            -354 => HttpError::ContentLengthMismatch,
            -355 => HttpError::IncompleteChunkedEncoding,
            -356 => HttpError::QuicProtocolError,
            -357 => HttpError::ResponseHeadersTruncated,
            -358 => HttpError::QuicHandshakeFailed,
            -360 => HttpError::Http2InadequateTransportSecurity,
            -361 => HttpError::Http2FlowControlError,
            -362 => HttpError::Http2FrameSizeError,
            -363 => HttpError::Http2CompressionError,
            -364 => HttpError::ProxyAuthRequestedWithNoConnection,
            -365 => HttpError::Http11Required,
            -366 => HttpError::ProxyHttp11Required,
            -367 => HttpError::PacScriptTerminated,
            -368 => HttpError::ProxyRequired,
            -370 => HttpError::InvalidHttpResponse,
            -371 => HttpError::ContentDecodingInitFailed,
            -372 => HttpError::Http2RstStreamNoErrorReceived,
            -373 => HttpError::Http2PushedStreamNotAvailable,
            -374 => HttpError::Http2ClaimedPushedStreamResetByServer,
            -375 => HttpError::TooManyRetries,
            -376 => HttpError::Http2StreamClosed,
            -377 => HttpError::Http2ClientRefusedStream,
            -378 => HttpError::Http2PushedResponseDoesNotMatch,
            _ => HttpError::Unknown(code),
        }
    }

    /// Whether some closed category owns this code.
    pub open spec fn is_assigned(code: i32) -> bool {
        exists|k: HttpError| k.is_closed() && k.code_spec() == code
    }

    /// The one-line description of this category.
    pub open spec fn describe_spec(self) -> Seq<char> {
        match self {
            HttpError::ConnectionClosed => "Connection closed (TCP FIN)"@,
            HttpError::ConnectionReset => "Connection reset (TCP RST)"@,
            HttpError::ConnectionRefused => "Connection refused"@,
            HttpError::ConnectionAborted => "Connection aborted"@,
            HttpError::ConnectionFailed => "Connection failed"@,
            HttpError::NameNotResolved => "Name not resolved"@,
            HttpError::InternetDisconnected => "Internet disconnected"@,
            HttpError::SslProtocolError => "SSL protocol error"@,
            HttpError::AddressInvalid => "Address invalid"@,
            HttpError::AddressUnreachable => "Address unreachable"@,
            HttpError::SslClientAuthCertNeeded => "SSL client auth cert needed"@,
            HttpError::TunnelConnectionFailed => "Tunnel connection failed"@,
            HttpError::SslVersionOrCipherMismatch => "SSL version or cipher mismatch"@,
            HttpError::SslRenegotiationRequested => "SSL renegotiation requested"@,
            HttpError::ProxyAuthUnsupported => "Proxy auth unsupported"@,
            HttpError::BadSslClientAuthCert => "Bad SSL client auth cert"@,
            HttpError::ConnectionTimedOut => "Connection timed out"@,
            HttpError::HostResolverQueueTooLarge => "Host resolver queue too large"@,
            HttpError::SocksConnectionFailed => "SOCKS connection failed"@,
            HttpError::SocksConnectionHostUnreachable => "SOCKS connection host unreachable"@,
            HttpError::AlpnNegotiationFailed => "ALPN negotiation failed"@,
            HttpError::SslNoRenegotiation => "SSL no renegotiation"@,
            HttpError::WinsockUnexpectedWrittenBytes => "Winsock unexpected written bytes"@,
            HttpError::SslDecompressionFailureAlert => "SSL decompression failure alert"@,
            HttpError::SslBadRecordMacAlert => "SSL bad record MAC alert"@,
            HttpError::ProxyAuthRequested => "Proxy auth requested"@,
            HttpError::ProxyConnectionFailed => "Proxy connection failed"@,
            HttpError::MandatoryProxyConfigurationFailed => "Mandatory proxy configuration failed"@,
            HttpError::PreconnectMaxSocketLimit => "Preconnect max socket limit"@,
            HttpError::SslClientAuthPrivateKeyAccessDenied => "SSL client auth private key access denied"@,
            HttpError::SslClientAuthCertNoPrivateKey => "SSL client auth cert no private key"@,
            HttpError::ProxyCertificateInvalid => "Proxy certificate invalid"@,
            HttpError::NameResolutionFailed => "Name resolution failed"@,
            HttpError::NetworkAccessDenied => "Network access denied"@,
            HttpError::TemporarilyThrottled => "Temporarily throttled"@,
            HttpError::SslClientAuthSignatureFailed => "SSL client auth signature failed"@,
            HttpError::MsgTooBig => "Message too big"@,
            HttpError::WsProtocolError => "WebSocket protocol error"@,
            HttpError::AddressInUse => "Address in use"@,
            HttpError::SslPinnedKeyNotInCertChain => "SSL pinned key not in cert chain"@,
            HttpError::ClientAuthCertTypeUnsupported => "Client auth cert type unsupported"@,
            HttpError::SslDecryptErrorAlert => "SSL decrypt error alert"@,
            HttpError::WsThrottleQueueTooLarge => "WebSocket throttle queue too large"@,
            HttpError::SslServerCertChanged => "SSL server cert changed"@,
            HttpError::SslUnrecognizedNameAlert => "SSL unrecognized name alert"@,
            HttpError::SocketSetReceiveBufferSizeError => "Socket set receive buffer size error"@,
            HttpError::SocketSetSendBufferSizeError => "Socket set send buffer size error"@,
            HttpError::SocketReceiveBufferSizeUnchangeable => "Socket receive buffer size unchangeable"@,
            HttpError::SocketSendBufferSizeUnchangeable => "Socket send buffer size unchangeable"@,
            HttpError::SslClientAuthCertBadFormat => "SSL client auth cert bad format"@,
            HttpError::IcannNameCollision => "ICANN name collision"@,
            HttpError::SslServerCertBadFormat => "SSL server cert bad format"@,
            HttpError::CtSthParsingFailed => "CT STH parsing failed"@,
            HttpError::CtSthIncomplete => "CT STH incomplete"@,
            HttpError::UnableToReuseConnectionForProxyAuth => "Unable to reuse connection for proxy auth"@,
            HttpError::CtConsistencyProofParsingFailed => "CT consistency proof parsing failed"@,
            HttpError::SslObsoleteCipher => "SSL obsolete cipher"@,
            HttpError::WsUpgrade => "WebSocket upgrade"@,
            HttpError::ReadIfReadyNotImplemented => "ReadIfReady not implemented"@,
            HttpError::NoBufferSpace => "No buffer space"@,
            HttpError::SslClientAuthNoCommonAlgorithms => "SSL client auth no common algorithms"@,
            HttpError::EarlyDataRejected => "Early data rejected"@,
            HttpError::WrongVersionOnEarlyData => "Wrong version on early data"@,
            HttpError::Tls13DowngradeDetected => "TLS 1.3 downgrade detected"@,
            HttpError::SslKeyUsageIncompatible => "SSL key usage incompatible"@,
            HttpError::InvalidEchConfigList => "Invalid ECH config list"@,
            HttpError::EchNotNegotiated => "ECH not negotiated"@,
            HttpError::EchFallbackCertificateInvalid => "ECH fallback certificate invalid"@,
            HttpError::ProxyUnableToConnectToDestination => "Proxy unable to connect to destination"@,
            HttpError::ProxyDelegateCanceledConnectRequest => "Proxy delegate canceled connect request"@,
            HttpError::ProxyDelegateCanceledConnectResponse => "Proxy delegate canceled connect response"@,
            HttpError::InvalidUrl => "Invalid URL"@,
            HttpError::DisallowedUrlScheme => "Disallowed URL scheme"@,
            HttpError::UnknownUrlScheme => "Unknown URL scheme"@,
            HttpError::InvalidRedirect => "Invalid redirect"@,
            HttpError::TooManyRedirects => "Too many redirects"@,
            HttpError::UnsafeRedirect => "Unsafe redirect"@,
            HttpError::UnsafePort => "Unsafe port"@,
            HttpError::InvalidResponse => "Invalid response"@,
            HttpError::InvalidChunkedEncoding => "Invalid chunked encoding"@,
            HttpError::MethodNotSupported => "Method not supported"@,
            HttpError::UnexpectedProxyAuth => "Unexpected proxy auth"@,
            HttpError::EmptyResponse => "Empty response"@,
            HttpError::ResponseHeadersTooBig => "Response headers too big"@,
            HttpError::PacScriptFailed => "PAC script failed"@,
            HttpError::RequestRangeNotSatisfiable => "Request range not satisfiable"@,
            HttpError::MalformedIdentity => "Malformed identity"@,
            HttpError::ContentDecodingFailed => "Content decoding failed"@,
            HttpError::NetworkIoSuspended => "Network IO suspended"@,
            HttpError::NoSupportedProxies => "No supported proxies"@,
            HttpError::Http2ProtocolError => "HTTP/2 protocol error"@,
            HttpError::InvalidAuthCredentials => "Invalid auth credentials"@,
            HttpError::UnsupportedAuthScheme => "Unsupported auth scheme"@,
            HttpError::EncodingDetectionFailed => "Encoding detection failed"@,
            HttpError::MissingAuthCredentials => "Missing auth credentials"@,
            HttpError::UnexpectedSecurityLibraryStatus => "Unexpected security library status"@,
            HttpError::MisconfiguredAuthEnvironment => "Misconfigured auth environment"@,
            HttpError::UndocumentedSecurityLibraryStatus => "Undocumented security library status"@,
            HttpError::ResponseBodyTooBigToDrain => "Response body too big to drain"@,
            HttpError::ResponseHeadersMultipleContentLength => "Response headers multiple Content-Length"@,
            HttpError::IncompleteHttp2Headers => "Incomplete HTTP/2 headers"@,
            HttpError::PacNotInDhcp => "PAC not in DHCP"@,
            HttpError::ResponseHeadersMultipleContentDisposition => "Response headers multiple Content-Disposition"@,
            HttpError::ResponseHeadersMultipleLocation => "Response headers multiple Location"@,
            HttpError::Http2ServerRefusedStream => "HTTP/2 server refused stream"@,
            HttpError::Http2PingFailed => "HTTP/2 PING failed"@,
            HttpError::ContentLengthMismatch => "Content-Length mismatch"@,
            HttpError::IncompleteChunkedEncoding => "Incomplete chunked encoding"@,
            HttpError::QuicProtocolError => "QUIC protocol error"@,
            HttpError::ResponseHeadersTruncated => "Response headers truncated"@,
            HttpError::QuicHandshakeFailed => "QUIC handshake failed"@,
            HttpError::Http2InadequateTransportSecurity => "HTTP/2 inadequate transport security"@,
            HttpError::Http2FlowControlError => "HTTP/2 flow control error"@,
            HttpError::Http2FrameSizeError => "HTTP/2 frame size error"@,
            HttpError::Http2CompressionError => "HTTP/2 compression error"@,
            HttpError::ProxyAuthRequestedWithNoConnection => "Proxy auth requested with no connection"@,
            HttpError::Http11Required => "HTTP/1.1 required"@,
            HttpError::ProxyHttp11Required => "Proxy HTTP/1.1 required"@,
            HttpError::PacScriptTerminated => "PAC script terminated"@,
            HttpError::ProxyRequired => "Proxy required"@,
            HttpError::InvalidHttpResponse => "Invalid HTTP response"@,
            HttpError::ContentDecodingInitFailed => "Content decoding init failed"@,
            HttpError::Http2RstStreamNoErrorReceived => "HTTP/2 RST_STREAM NO_ERROR received"@,
            HttpError::Http2PushedStreamNotAvailable => "HTTP/2 pushed stream not available"@,
            HttpError::Http2ClaimedPushedStreamResetByServer => "HTTP/2 claimed pushed stream reset by server"@,
            HttpError::TooManyRetries => "Too many retries"@,
            HttpError::Http2StreamClosed => "HTTP/2 stream closed"@,
            HttpError::Http2ClientRefusedStream => "HTTP/2 client refused stream"@,
            HttpError::Http2PushedResponseDoesNotMatch => "HTTP/2 pushed response does not match"@,
            HttpError::Unknown(code) => "Unknown error: "@ + dec_string(code as int),
        }
    }

    /// The integer code of this category.
    pub fn as_i32(&self) -> (code: i32)
        ensures
            code == self.code_spec(),
    {
        match self {
            HttpError::ConnectionClosed => -100i32,
            HttpError::ConnectionReset => -101i32,
            HttpError::ConnectionRefused => -102i32,
            HttpError::ConnectionAborted => -103i32,
            HttpError::ConnectionFailed => -104i32,
            HttpError::NameNotResolved => -105i32,
            HttpError::InternetDisconnected => -106i32,
            HttpError::SslProtocolError => -107i32,
            HttpError::AddressInvalid => -108i32,
            HttpError::AddressUnreachable => -109i32,
            HttpError::SslClientAuthCertNeeded => -110i32,
            HttpError::TunnelConnectionFailed => -111i32,
            HttpError::SslVersionOrCipherMismatch => -113i32,
            HttpError::SslRenegotiationRequested => -114i32,
            HttpError::ProxyAuthUnsupported => -115i32,
            HttpError::BadSslClientAuthCert => -117i32,
            HttpError::ConnectionTimedOut => -118i32,
            HttpError::HostResolverQueueTooLarge => -119i32,
            HttpError::SocksConnectionFailed => -120i32,
            HttpError::SocksConnectionHostUnreachable => -121i32,
            HttpError::AlpnNegotiationFailed => -122i32,
            HttpError::SslNoRenegotiation => -123i32,
            HttpError::WinsockUnexpectedWrittenBytes => -124i32,
            HttpError::SslDecompressionFailureAlert => -125i32,
            HttpError::SslBadRecordMacAlert => -126i32,
            HttpError::ProxyAuthRequested => -127i32,
            HttpError::ProxyConnectionFailed => -130i32,
            HttpError::MandatoryProxyConfigurationFailed => -131i32,
            HttpError::PreconnectMaxSocketLimit => -133i32,
            HttpError::SslClientAuthPrivateKeyAccessDenied => -134i32,
            HttpError::SslClientAuthCertNoPrivateKey => -135i32,
            HttpError::ProxyCertificateInvalid => -136i32,
            HttpError::NameResolutionFailed => -137i32,
            HttpError::NetworkAccessDenied => -138i32,
            HttpError::TemporarilyThrottled => -139i32,
            HttpError::SslClientAuthSignatureFailed => -141i32,
            HttpError::MsgTooBig => -142i32,
            HttpError::WsProtocolError => -145i32,
            HttpError::AddressInUse => -147i32,
            HttpError::SslPinnedKeyNotInCertChain => -150i32,
            HttpError::ClientAuthCertTypeUnsupported => -151i32,
            HttpError::SslDecryptErrorAlert => -153i32,
            HttpError::WsThrottleQueueTooLarge => -154i32,
            HttpError::SslServerCertChanged => -156i32,
            HttpError::SslUnrecognizedNameAlert => -159i32,
            HttpError::SocketSetReceiveBufferSizeError => -160i32,
            HttpError::SocketSetSendBufferSizeError => -161i32,
            HttpError::SocketReceiveBufferSizeUnchangeable => -162i32,
            HttpError::SocketSendBufferSizeUnchangeable => -163i32,
            HttpError::SslClientAuthCertBadFormat => -164i32,
            HttpError::IcannNameCollision => -166i32,
            HttpError::SslServerCertBadFormat => -167i32,
            HttpError::CtSthParsingFailed => -168i32,
            HttpError::CtSthIncomplete => -169i32,
            HttpError::UnableToReuseConnectionForProxyAuth => -170i32,
            HttpError::CtConsistencyProofParsingFailed => -171i32,
            HttpError::SslObsoleteCipher => -172i32,
            HttpError::WsUpgrade => -173i32,
            HttpError::ReadIfReadyNotImplemented => -174i32,
            HttpError::NoBufferSpace => -176i32,
            HttpError::SslClientAuthNoCommonAlgorithms => -177i32,
            HttpError::EarlyDataRejected => -178i32,
            HttpError::WrongVersionOnEarlyData => -179i32,
            HttpError::Tls13DowngradeDetected => -180i32,
            HttpError::SslKeyUsageIncompatible => -181i32,
            HttpError::InvalidEchConfigList => -182i32,
            HttpError::EchNotNegotiated => -183i32,
            HttpError::EchFallbackCertificateInvalid => -184i32,
            HttpError::ProxyUnableToConnectToDestination => -186i32,
            HttpError::ProxyDelegateCanceledConnectRequest => -187i32,
            HttpError::ProxyDelegateCanceledConnectResponse => -188i32,
            HttpError::InvalidUrl => -300i32,
            HttpError::DisallowedUrlScheme => -301i32,
            HttpError::UnknownUrlScheme => -302i32,
            HttpError::InvalidRedirect => -303i32,
            HttpError::TooManyRedirects => -310i32,
            HttpError::UnsafeRedirect => -311i32,
            HttpError::UnsafePort => -312i32,
            HttpError::InvalidResponse => -320i32,
            HttpError::InvalidChunkedEncoding => -321i32,
            HttpError::MethodNotSupported => -322i32,
            HttpError::UnexpectedProxyAuth => -323i32,
            HttpError::EmptyResponse => -324i32,
            HttpError::ResponseHeadersTooBig => -325i32,
            HttpError::PacScriptFailed => -327i32,
            HttpError::RequestRangeNotSatisfiable => -328i32,
            HttpError::MalformedIdentity => -329i32,
            HttpError::ContentDecodingFailed => -330i32,
            HttpError::NetworkIoSuspended => -331i32,
            HttpError::NoSupportedProxies => -336i32,
            HttpError::Http2ProtocolError => -337i32,
            HttpError::InvalidAuthCredentials => -338i32,
            HttpError::UnsupportedAuthScheme => -339i32,
            HttpError::EncodingDetectionFailed => -340i32,
            HttpError::MissingAuthCredentials => -341i32,
            HttpError::UnexpectedSecurityLibraryStatus => -342i32,
            HttpError::MisconfiguredAuthEnvironment => -343i32,
            HttpError::UndocumentedSecurityLibraryStatus => -344i32,
            HttpError::ResponseBodyTooBigToDrain => -345i32,
            HttpError::ResponseHeadersMultipleContentLength => -346i32,
            HttpError::IncompleteHttp2Headers => -347i32,
            HttpError::PacNotInDhcp => -348i32,
            HttpError::ResponseHeadersMultipleContentDisposition => -349i32,
            HttpError::ResponseHeadersMultipleLocation => -350i32,
            HttpError::Http2ServerRefusedStream => -351i32,
            HttpError::Http2PingFailed => -352i32,
            HttpError::ContentLengthMismatch => -354i32,
            HttpError::IncompleteChunkedEncoding => -355i32,
            HttpError::QuicProtocolError => -356i32,
            HttpError::ResponseHeadersTruncated => -357i32,
            HttpError::QuicHandshakeFailed => -358i32,
            HttpError::Http2InadequateTransportSecurity => -360i32,
            HttpError::Http2FlowControlError => -361i32,
            HttpError::Http2FrameSizeError => -362i32,
            HttpError::Http2CompressionError => -363i32,
            HttpError::ProxyAuthRequestedWithNoConnection => -364i32,
            HttpError::Http11Required => -365i32,
            HttpError::ProxyHttp11Required => -366i32,
            HttpError::PacScriptTerminated => -367i32,
            HttpError::ProxyRequired => -368i32,
            HttpError::InvalidHttpResponse => -370i32,
            HttpError::ContentDecodingInitFailed => -371i32,
            HttpError::Http2RstStreamNoErrorReceived => -372i32,
            HttpError::Http2PushedStreamNotAvailable => -373i32,
            HttpError::Http2ClaimedPushedStreamResetByServer => -374i32,
            HttpError::TooManyRetries => -375i32,
            HttpError::Http2StreamClosed => -376i32,
            HttpError::Http2ClientRefusedStream => -377i32,
            HttpError::Http2PushedResponseDoesNotMatch => -378i32,
            HttpError::Unknown(code) => *code,
        }
    }

    /// The one-line description of this category. Never empty.
    pub fn describe(&self) -> (text: String)
        ensures
            text@ == self.describe_spec(),
            text@.len() > 0,
    {
        proof {
            lemma_describe_nonempty(*self);
        }
        match self {
            HttpError::ConnectionClosed => String::from_str("Connection closed (TCP FIN)"),
            HttpError::ConnectionReset => String::from_str("Connection reset (TCP RST)"),
            HttpError::ConnectionRefused => String::from_str("Connection refused"),
            HttpError::ConnectionAborted => String::from_str("Connection aborted"),
            HttpError::ConnectionFailed => String::from_str("Connection failed"),
            HttpError::NameNotResolved => String::from_str("Name not resolved"),
            HttpError::InternetDisconnected => String::from_str("Internet disconnected"),
            HttpError::SslProtocolError => String::from_str("SSL protocol error"),
            HttpError::AddressInvalid => String::from_str("Address invalid"),
            HttpError::AddressUnreachable => String::from_str("Address unreachable"),
            HttpError::SslClientAuthCertNeeded => String::from_str("SSL client auth cert needed"),
            HttpError::TunnelConnectionFailed => String::from_str("Tunnel connection failed"),
            HttpError::SslVersionOrCipherMismatch => String::from_str("SSL version or cipher mismatch"),
            HttpError::SslRenegotiationRequested => String::from_str("SSL renegotiation requested"),
            HttpError::ProxyAuthUnsupported => String::from_str("Proxy auth unsupported"),
            HttpError::BadSslClientAuthCert => String::from_str("Bad SSL client auth cert"),
            HttpError::ConnectionTimedOut => String::from_str("Connection timed out"),
            HttpError::HostResolverQueueTooLarge => String::from_str("Host resolver queue too large"),
            HttpError::SocksConnectionFailed => String::from_str("SOCKS connection failed"),
            HttpError::SocksConnectionHostUnreachable => String::from_str("SOCKS connection host unreachable"),
            HttpError::AlpnNegotiationFailed => String::from_str("ALPN negotiation failed"),
            HttpError::SslNoRenegotiation => String::from_str("SSL no renegotiation"),
            HttpError::WinsockUnexpectedWrittenBytes => String::from_str("Winsock unexpected written bytes"),
            HttpError::SslDecompressionFailureAlert => String::from_str("SSL decompression failure alert"),
            HttpError::SslBadRecordMacAlert => String::from_str("SSL bad record MAC alert"),
            HttpError::ProxyAuthRequested => String::from_str("Proxy auth requested"),
            HttpError::ProxyConnectionFailed => String::from_str("Proxy connection failed"),
            HttpError::MandatoryProxyConfigurationFailed => String::from_str("Mandatory proxy configuration failed"),
            HttpError::PreconnectMaxSocketLimit => String::from_str("Preconnect max socket limit"),
            HttpError::SslClientAuthPrivateKeyAccessDenied => String::from_str("SSL client auth private key access denied"),
            HttpError::SslClientAuthCertNoPrivateKey => String::from_str("SSL client auth cert no private key"),
            HttpError::ProxyCertificateInvalid => String::from_str("Proxy certificate invalid"),
            HttpError::NameResolutionFailed => String::from_str("Name resolution failed"),
            HttpError::NetworkAccessDenied => String::from_str("Network access denied"),
            HttpError::TemporarilyThrottled => String::from_str("Temporarily throttled"),
            HttpError::SslClientAuthSignatureFailed => String::from_str("SSL client auth signature failed"),
            HttpError::MsgTooBig => String::from_str("Message too big"),
            HttpError::WsProtocolError => String::from_str("WebSocket protocol error"),
            HttpError::AddressInUse => String::from_str("Address in use"),
            HttpError::SslPinnedKeyNotInCertChain => String::from_str("SSL pinned key not in cert chain"),
            HttpError::ClientAuthCertTypeUnsupported => String::from_str("Client auth cert type unsupported"),
            HttpError::SslDecryptErrorAlert => String::from_str("SSL decrypt error alert"),
            HttpError::WsThrottleQueueTooLarge => String::from_str("WebSocket throttle queue too large"),
            HttpError::SslServerCertChanged => String::from_str("SSL server cert changed"),
            HttpError::SslUnrecognizedNameAlert => String::from_str("SSL unrecognized name alert"),
            HttpError::SocketSetReceiveBufferSizeError => String::from_str("Socket set receive buffer size error"),
            HttpError::SocketSetSendBufferSizeError => String::from_str("Socket set send buffer size error"),
            HttpError::SocketReceiveBufferSizeUnchangeable => String::from_str("Socket receive buffer size unchangeable"),
            HttpError::SocketSendBufferSizeUnchangeable => String::from_str("Socket send buffer size unchangeable"),
            HttpError::SslClientAuthCertBadFormat => String::from_str("SSL client auth cert bad format"),
            HttpError::IcannNameCollision => String::from_str("ICANN name collision"),
            HttpError::SslServerCertBadFormat => String::from_str("SSL server cert bad format"),
            HttpError::CtSthParsingFailed => String::from_str("CT STH parsing failed"),
            HttpError::CtSthIncomplete => String::from_str("CT STH incomplete"),
            HttpError::UnableToReuseConnectionForProxyAuth => String::from_str("Unable to reuse connection for proxy auth"),
            HttpError::CtConsistencyProofParsingFailed => String::from_str("CT consistency proof parsing failed"),
            HttpError::SslObsoleteCipher => String::from_str("SSL obsolete cipher"),
            HttpError::WsUpgrade => String::from_str("WebSocket upgrade"),
            HttpError::ReadIfReadyNotImplemented => String::from_str("ReadIfReady not implemented"),
            HttpError::NoBufferSpace => String::from_str("No buffer space"),
            HttpError::SslClientAuthNoCommonAlgorithms => String::from_str("SSL client auth no common algorithms"),
            HttpError::EarlyDataRejected => String::from_str("Early data rejected"),
            HttpError::WrongVersionOnEarlyData => String::from_str("Wrong version on early data"),
            HttpError::Tls13DowngradeDetected => String::from_str("TLS 1.3 downgrade detected"),
            HttpError::SslKeyUsageIncompatible => String::from_str("SSL key usage incompatible"),
            HttpError::InvalidEchConfigList => String::from_str("Invalid ECH config list"),
            HttpError::EchNotNegotiated => String::from_str("ECH not negotiated"),
            HttpError::EchFallbackCertificateInvalid => String::from_str("ECH fallback certificate invalid"),
            HttpError::ProxyUnableToConnectToDestination => String::from_str("Proxy unable to connect to destination"),
            HttpError::ProxyDelegateCanceledConnectRequest => String::from_str("Proxy delegate canceled connect request"),
            HttpError::ProxyDelegateCanceledConnectResponse => String::from_str("Proxy delegate canceled connect response"),
            HttpError::InvalidUrl => String::from_str("Invalid URL"),
            HttpError::DisallowedUrlScheme => String::from_str("Disallowed URL scheme"),
            HttpError::UnknownUrlScheme => String::from_str("Unknown URL scheme"),
            HttpError::InvalidRedirect => String::from_str("Invalid redirect"),
            HttpError::TooManyRedirects => String::from_str("Too many redirects"),
            HttpError::UnsafeRedirect => String::from_str("Unsafe redirect"),
            HttpError::UnsafePort => String::from_str("Unsafe port"),
            HttpError::InvalidResponse => String::from_str("Invalid response"),
            HttpError::InvalidChunkedEncoding => String::from_str("Invalid chunked encoding"),
            HttpError::MethodNotSupported => String::from_str("Method not supported"),
            HttpError::UnexpectedProxyAuth => String::from_str("Unexpected proxy auth"),
            HttpError::EmptyResponse => String::from_str("Empty response"),
            HttpError::ResponseHeadersTooBig => String::from_str("Response headers too big"),
            HttpError::PacScriptFailed => String::from_str("PAC script failed"),
            HttpError::RequestRangeNotSatisfiable => String::from_str("Request range not satisfiable"),
            HttpError::MalformedIdentity => String::from_str("Malformed identity"),
            HttpError::ContentDecodingFailed => String::from_str("Content decoding failed"),
            HttpError::NetworkIoSuspended => String::from_str("Network IO suspended"),
            HttpError::NoSupportedProxies => String::from_str("No supported proxies"),
            HttpError::Http2ProtocolError => String::from_str("HTTP/2 protocol error"),
            HttpError::InvalidAuthCredentials => String::from_str("Invalid auth credentials"),
            HttpError::UnsupportedAuthScheme => String::from_str("Unsupported auth scheme"),
            HttpError::EncodingDetectionFailed => String::from_str("Encoding detection failed"),
            HttpError::MissingAuthCredentials => String::from_str("Missing auth credentials"),
            HttpError::UnexpectedSecurityLibraryStatus => String::from_str("Unexpected security library status"),
            HttpError::MisconfiguredAuthEnvironment => String::from_str("Misconfigured auth environment"),
            HttpError::UndocumentedSecurityLibraryStatus => String::from_str("Undocumented security library status"),
            HttpError::ResponseBodyTooBigToDrain => String::from_str("Response body too big to drain"),
            HttpError::ResponseHeadersMultipleContentLength => String::from_str("Response headers multiple Content-Length"),
            HttpError::IncompleteHttp2Headers => String::from_str("Incomplete HTTP/2 headers"),
            HttpError::PacNotInDhcp => String::from_str("PAC not in DHCP"),
            HttpError::ResponseHeadersMultipleContentDisposition => String::from_str("Response headers multiple Content-Disposition"),
            HttpError::ResponseHeadersMultipleLocation => String::from_str("Response headers multiple Location"),
            HttpError::Http2ServerRefusedStream => String::from_str("HTTP/2 server refused stream"),
            HttpError::Http2PingFailed => String::from_str("HTTP/2 PING failed"),
            HttpError::ContentLengthMismatch => String::from_str("Content-Length mismatch"),
            HttpError::IncompleteChunkedEncoding => String::from_str("Incomplete chunked encoding"),
            HttpError::QuicProtocolError => String::from_str("QUIC protocol error"),
            HttpError::ResponseHeadersTruncated => String::from_str("Response headers truncated"),
            HttpError::QuicHandshakeFailed => String::from_str("QUIC handshake failed"),
            HttpError::Http2InadequateTransportSecurity => String::from_str("HTTP/2 inadequate transport security"),
            HttpError::Http2FlowControlError => String::from_str("HTTP/2 flow control error"),
            HttpError::Http2FrameSizeError => String::from_str("HTTP/2 frame size error"),
            HttpError::Http2CompressionError => String::from_str("HTTP/2 compression error"),
            HttpError::ProxyAuthRequestedWithNoConnection => String::from_str("Proxy auth requested with no connection"),
            HttpError::Http11Required => String::from_str("HTTP/1.1 required"),
            HttpError::ProxyHttp11Required => String::from_str("Proxy HTTP/1.1 required"),
            HttpError::PacScriptTerminated => String::from_str("PAC script terminated"),
            HttpError::ProxyRequired => String::from_str("Proxy required"),
            HttpError::InvalidHttpResponse => String::from_str("Invalid HTTP response"),
            HttpError::ContentDecodingInitFailed => String::from_str("Content decoding init failed"),
            HttpError::Http2RstStreamNoErrorReceived => String::from_str("HTTP/2 RST_STREAM NO_ERROR received"),
            HttpError::Http2PushedStreamNotAvailable => String::from_str("HTTP/2 pushed stream not available"),
            HttpError::Http2ClaimedPushedStreamResetByServer => String::from_str("HTTP/2 claimed pushed stream reset by server"),
            HttpError::TooManyRetries => String::from_str("Too many retries"),
            HttpError::Http2StreamClosed => String::from_str("HTTP/2 stream closed"),
            HttpError::Http2ClientRefusedStream => String::from_str("HTTP/2 client refused stream"),
            HttpError::Http2PushedResponseDoesNotMatch => String::from_str("HTTP/2 pushed response does not match"),
            HttpError::Unknown(code) => String::from_str("Unknown error: ").concat(
                i32_to_decimal(*code).as_str(),
            ),
        }
    }
}

impl From<i32> for HttpError {
    /// The category a code resolves to; closed-set resolution takes priority
    /// over the `Unknown` fallback.
    fn from(code: i32) -> (kind: HttpError) {
        match code {
            -100 => HttpError::ConnectionClosed,
            -101 => HttpError::ConnectionReset,
            -102 => HttpError::ConnectionRefused,
            -103 => HttpError::ConnectionAborted,
            -104 => HttpError::ConnectionFailed,
            -105 => HttpError::NameNotResolved,
            -106 => HttpError::InternetDisconnected,
            -107 => HttpError::SslProtocolError,
            -108 => HttpError::AddressInvalid,
            -109 => HttpError::AddressUnreachable,
            -110 => HttpError::SslClientAuthCertNeeded,
            -111 => HttpError::TunnelConnectionFailed,
            -113 => HttpError::SslVersionOrCipherMismatch,
            -114 => HttpError::SslRenegotiationRequested,
            -115 => HttpError::ProxyAuthUnsupported,
            -117 => HttpError::BadSslClientAuthCert,
            -118 => HttpError::ConnectionTimedOut,
            -119 => HttpError::HostResolverQueueTooLarge,
            -120 => HttpError::SocksConnectionFailed,
            -121 => HttpError::SocksConnectionHostUnreachable,
            -122 => HttpError::AlpnNegotiationFailed,
            -123 => HttpError::SslNoRenegotiation,
            -124 => HttpError::WinsockUnexpectedWrittenBytes,
            -125 => HttpError::SslDecompressionFailureAlert,
            -126 => HttpError::SslBadRecordMacAlert,
            -127 => HttpError::ProxyAuthRequested,
            -130 => HttpError::ProxyConnectionFailed,
            -131 => HttpError::MandatoryProxyConfigurationFailed,
            -133 => HttpError::PreconnectMaxSocketLimit,
            -134 => HttpError::SslClientAuthPrivateKeyAccessDenied,
            -135 => HttpError::SslClientAuthCertNoPrivateKey,
            -136 => HttpError::ProxyCertificateInvalid,
            -137 => HttpError::NameResolutionFailed,
            -138 => HttpError::NetworkAccessDenied,
            -139 => HttpError::TemporarilyThrottled,
            -141 => HttpError::SslClientAuthSignatureFailed,
            -142 => HttpError::MsgTooBig,
            -145 => HttpError::WsProtocolError,
            -147 => HttpError::AddressInUse,
            -150 => HttpError::SslPinnedKeyNotInCertChain,
            -151 => HttpError::ClientAuthCertTypeUnsupported,
            -153 => HttpError::SslDecryptErrorAlert,
            -154 => HttpError::WsThrottleQueueTooLarge,
            -156 => HttpError::SslServerCertChanged,
            -159 => HttpError::SslUnrecognizedNameAlert,
            -160 => HttpError::SocketSetReceiveBufferSizeError,
            -161 => HttpError::SocketSetSendBufferSizeError,
            -162 => HttpError::SocketReceiveBufferSizeUnchangeable,
            -163 => HttpError::SocketSendBufferSizeUnchangeable,
            -164 => HttpError::SslClientAuthCertBadFormat,
            -166 => HttpError::IcannNameCollision,
            -167 => HttpError::SslServerCertBadFormat,
            -168 => HttpError::CtSthParsingFailed,
            -169 => HttpError::CtSthIncomplete,
            -170 => HttpError::UnableToReuseConnectionForProxyAuth,
            -171 => HttpError::CtConsistencyProofParsingFailed,
            -172 => HttpError::SslObsoleteCipher,
            -173 => HttpError::WsUpgrade,
            -174 => HttpError::ReadIfReadyNotImplemented,
            -176 => HttpError::NoBufferSpace,
            -177 => HttpError::SslClientAuthNoCommonAlgorithms,
            -178 => HttpError::EarlyDataRejected,
            -179 => HttpError::WrongVersionOnEarlyData,
            -180 => HttpError::Tls13DowngradeDetected,
            -181 => HttpError::SslKeyUsageIncompatible,
            -182 => HttpError::InvalidEchConfigList,
            -183 => HttpError::EchNotNegotiated,
            -184 => HttpError::EchFallbackCertificateInvalid,
            -186 => HttpError::ProxyUnableToConnectToDestination,
            -187 => HttpError::ProxyDelegateCanceledConnectRequest,
            -188 => HttpError::ProxyDelegateCanceledConnectResponse,
            -300 => HttpError::InvalidUrl,
            -301 => HttpError::DisallowedUrlScheme,
            -302 => HttpError::UnknownUrlScheme,
            -303 => HttpError::InvalidRedirect,
            -310 => HttpError::TooManyRedirects,
            -311 => HttpError::UnsafeRedirect,
            -312 => HttpError::UnsafePort,
            -320 => HttpError::InvalidResponse,
            -321 => HttpError::InvalidChunkedEncoding,
            -322 => HttpError::MethodNotSupported,
            -323 => HttpError::UnexpectedProxyAuth,
            -324 => HttpError::EmptyResponse,
            -325 => HttpError::ResponseHeadersTooBig,
            -327 => HttpError::PacScriptFailed,
            -328 => HttpError::RequestRangeNotSatisfiable,
            -329 => HttpError::MalformedIdentity,
            -330 => HttpError::ContentDecodingFailed,
            -331 => HttpError::NetworkIoSuspended,
            -336 => HttpError::NoSupportedProxies,
            -337 => HttpError::Http2ProtocolError,
            -338 => HttpError::InvalidAuthCredentials,
            -339 => HttpError::UnsupportedAuthScheme,
            -340 => HttpError::EncodingDetectionFailed,
            -341 => HttpError::MissingAuthCredentials,
            -342 => HttpError::UnexpectedSecurityLibraryStatus,
            -343 => HttpError::MisconfiguredAuthEnvironment,
            -344 => HttpError::UndocumentedSecurityLibraryStatus,
            -345 => HttpError::ResponseBodyTooBigToDrain,
            -346 => HttpError::ResponseHeadersMultipleContentLength,
            -347 => HttpError::IncompleteHttp2Headers,
            -348 => HttpError::PacNotInDhcp,
            -349 => HttpError::ResponseHeadersMultipleContentDisposition,
            -350 => HttpError::ResponseHeadersMultipleLocation,
            -351 => HttpError::Http2ServerRefusedStream,
            -352 => HttpError::Http2PingFailed,
            -354 => HttpError::ContentLengthMismatch,
            -355 => HttpError::IncompleteChunkedEncoding,
            -356 => HttpError::QuicProtocolError,
            -357 => HttpError::ResponseHeadersTruncated,
            -358 => HttpError::QuicHandshakeFailed,
            -360 => HttpError::Http2InadequateTransportSecurity,
            -361 => HttpError::Http2FlowControlError,
            -362 => HttpError::Http2FrameSizeError,
            -363 => HttpError::Http2CompressionError,
            -364 => HttpError::ProxyAuthRequestedWithNoConnection,
            -365 => HttpError::Http11Required,
            -366 => HttpError::ProxyHttp11Required,
            -367 => HttpError::PacScriptTerminated,
            -368 => HttpError::ProxyRequired,
            -370 => HttpError::InvalidHttpResponse,
            -371 => HttpError::ContentDecodingInitFailed,
            -372 => HttpError::Http2RstStreamNoErrorReceived,
            -373 => HttpError::Http2PushedStreamNotAvailable,
            -374 => HttpError::Http2ClaimedPushedStreamResetByServer,
            -375 => HttpError::TooManyRetries,
            -376 => HttpError::Http2StreamClosed,
            -377 => HttpError::Http2ClientRefusedStream,
            -378 => HttpError::Http2PushedResponseDoesNotMatch,
            _ => HttpError::Unknown(code),
        }
    }
}

impl vstd::std_specs::convert::FromSpecImpl<i32> for HttpError {
    open spec fn obeys_from_spec() -> bool {
        true
    }

    open spec fn from_spec(code: i32) -> HttpError {
        HttpError::from_code_spec(code)
    }
}

/// No description is empty: each closed variant has a fixed non-empty line,
/// and the `Unknown` template always embeds at least one digit.
pub proof fn lemma_describe_nonempty(k: HttpError)
    ensures
        k.describe_spec().len() > 0,
{
    reveal_strlit("Connection closed (TCP FIN)");
    reveal_strlit("Connection reset (TCP RST)");
    reveal_strlit("Connection refused");
    reveal_strlit("Connection aborted");
    reveal_strlit("Connection failed");
    reveal_strlit("Name not resolved");
    reveal_strlit("Internet disconnected");
    reveal_strlit("SSL protocol error");
    reveal_strlit("Address invalid");
    reveal_strlit("Address unreachable");
    reveal_strlit("SSL client auth cert needed");
    reveal_strlit("Tunnel connection failed");
    reveal_strlit("SSL version or cipher mismatch");
    reveal_strlit("SSL renegotiation requested");
    reveal_strlit("Proxy auth unsupported");
    reveal_strlit("Bad SSL client auth cert");
    reveal_strlit("Connection timed out");
    reveal_strlit("Host resolver queue too large");
    reveal_strlit("SOCKS connection failed");
    reveal_strlit("SOCKS connection host unreachable");
    reveal_strlit("ALPN negotiation failed");
    reveal_strlit("SSL no renegotiation");
    reveal_strlit("Winsock unexpected written bytes");
    reveal_strlit("SSL decompression failure alert");
    reveal_strlit("SSL bad record MAC alert");
    reveal_strlit("Proxy auth requested");
    reveal_strlit("Proxy connection failed");
    reveal_strlit("Mandatory proxy configuration failed");
    reveal_strlit("Preconnect max socket limit");
    reveal_strlit("SSL client auth private key access denied");
    reveal_strlit("SSL client auth cert no private key");
    reveal_strlit("Proxy certificate invalid");
    reveal_strlit("Name resolution failed");
    reveal_strlit("Network access denied");
    reveal_strlit("Temporarily throttled");
    reveal_strlit("SSL client auth signature failed");
    reveal_strlit("Message too big");
    reveal_strlit("WebSocket protocol error");
    reveal_strlit("Address in use");
    reveal_strlit("SSL pinned key not in cert chain");
    reveal_strlit("Client auth cert type unsupported");
    reveal_strlit("SSL decrypt error alert");
    reveal_strlit("WebSocket throttle queue too large");
    reveal_strlit("SSL server cert changed");
    reveal_strlit("SSL unrecognized name alert");
    reveal_strlit("Socket set receive buffer size error");
    reveal_strlit("Socket set send buffer size error");
    reveal_strlit("Socket receive buffer size unchangeable");
    reveal_strlit("Socket send buffer size unchangeable");
    reveal_strlit("SSL client auth cert bad format");
    reveal_strlit("ICANN name collision");
    reveal_strlit("SSL server cert bad format");
    reveal_strlit("CT STH parsing failed");
    reveal_strlit("CT STH incomplete");
    reveal_strlit("Unable to reuse connection for proxy auth");
    reveal_strlit("CT consistency proof parsing failed");
    reveal_strlit("SSL obsolete cipher");
    reveal_strlit("WebSocket upgrade");
    reveal_strlit("ReadIfReady not implemented");
    reveal_strlit("No buffer space");
    reveal_strlit("SSL client auth no common algorithms");
    reveal_strlit("Early data rejected");
    reveal_strlit("Wrong version on early data");
    reveal_strlit("TLS 1.3 downgrade detected");
    reveal_strlit("SSL key usage incompatible");
    reveal_strlit("Invalid ECH config list");
    reveal_strlit("ECH not negotiated");
    reveal_strlit("ECH fallback certificate invalid");
    reveal_strlit("Proxy unable to connect to destination");
    reveal_strlit("Proxy delegate canceled connect request");
    reveal_strlit("Proxy delegate canceled connect response");
    reveal_strlit("Invalid URL");
    reveal_strlit("Disallowed URL scheme");
    reveal_strlit("Unknown URL scheme");
    reveal_strlit("Invalid redirect");
    reveal_strlit("Too many redirects");
    reveal_strlit("Unsafe redirect");
    reveal_strlit("Unsafe port");
    reveal_strlit("Invalid response");
    reveal_strlit("Invalid chunked encoding");
    reveal_strlit("Method not supported");
    reveal_strlit("Unexpected proxy auth");
    reveal_strlit("Empty response");
    reveal_strlit("Response headers too big");
    reveal_strlit("PAC script failed");
    reveal_strlit("Request range not satisfiable");
    reveal_strlit("Malformed identity");
    reveal_strlit("Content decoding failed");
    reveal_strlit("Network IO suspended");
    reveal_strlit("No supported proxies");
    reveal_strlit("HTTP/2 protocol error");
    reveal_strlit("Invalid auth credentials");
    reveal_strlit("Unsupported auth scheme");
    reveal_strlit("Encoding detection failed");
    reveal_strlit("Missing auth credentials");
    reveal_strlit("Unexpected security library status");
    reveal_strlit("Misconfigured auth environment");
    reveal_strlit("Undocumented security library status");
    reveal_strlit("Response body too big to drain");
    reveal_strlit("Response headers multiple Content-Length");
    reveal_strlit("Incomplete HTTP/2 headers");
    reveal_strlit("PAC not in DHCP");
    reveal_strlit("Response headers multiple Content-Disposition");
    reveal_strlit("Response headers multiple Location");
    reveal_strlit("HTTP/2 server refused stream");
    reveal_strlit("HTTP/2 PING failed");
    reveal_strlit("Content-Length mismatch");
    reveal_strlit("Incomplete chunked encoding");
    reveal_strlit("QUIC protocol error");
    reveal_strlit("Response headers truncated");
    reveal_strlit("QUIC handshake failed");
    reveal_strlit("HTTP/2 inadequate transport security");
    reveal_strlit("HTTP/2 flow control error");
    reveal_strlit("HTTP/2 frame size error");
    reveal_strlit("HTTP/2 compression error");
    reveal_strlit("Proxy auth requested with no connection");
    reveal_strlit("HTTP/1.1 required");
    reveal_strlit("Proxy HTTP/1.1 required");
    reveal_strlit("PAC script terminated");
    reveal_strlit("Proxy required");
    reveal_strlit("Invalid HTTP response");
    reveal_strlit("Content decoding init failed");
    reveal_strlit("HTTP/2 RST_STREAM NO_ERROR received");
    reveal_strlit("HTTP/2 pushed stream not available");
    reveal_strlit("HTTP/2 claimed pushed stream reset by server");
    reveal_strlit("Too many retries");
    reveal_strlit("HTTP/2 stream closed");
    reveal_strlit("HTTP/2 client refused stream");
    reveal_strlit("HTTP/2 pushed response does not match");
    reveal_strlit("Unknown error: ");
    match k {
        HttpError::Unknown(code) => lemma_dec_string_nonempty(code as int),
        _ => (),
    }
}

/// Round trip on closed tags: resolving a closed tag's own code yields the
/// tag itself.
pub proof fn lemma_from_code_of_code(k: HttpError)
    requires
        k.is_closed(),
    ensures
        HttpError::from_code_spec(k.code_spec()) == k,
{
}

/// Resolving any code and reading the code back is the identity over the
/// whole signed 32-bit domain: the `Unknown` fallback loses no information.
pub proof fn lemma_code_of_from_code(code: i32)
    ensures
        HttpError::from_code_spec(code).code_spec() == code,
{
}

/// Priority of closed resolution: a code owned by some closed tag resolves
/// to a closed tag carrying that code, never to `Unknown`.
pub proof fn lemma_assigned_resolves_closed(code: i32)
    requires
        HttpError::is_assigned(code),
    ensures
        HttpError::from_code_spec(code).is_closed(),
        HttpError::from_code_spec(code).code_spec() == code,
{
    let k = choose|k: HttpError| k.is_closed() && k.code_spec() == code;
    lemma_from_code_of_code(k);
}

/// Round trip on unknown codes: a code owned by no closed tag resolves to
/// `Unknown` carrying that code, and its code is the carried payload.
pub proof fn lemma_unassigned_resolves_unknown(code: i32)
    requires
        !HttpError::is_assigned(code),
    ensures
        HttpError::from_code_spec(code) == HttpError::Unknown(code),
        HttpError::Unknown(code).code_spec() == code,
{
    let k = HttpError::from_code_spec(code);
    lemma_code_of_from_code(code);
    if k.is_closed() {
        assert(k.is_closed() && k.code_spec() == code);
        assert(HttpError::is_assigned(code));
    }
}

/// Code distinctness: two different closed tags never share a code.
pub proof fn lemma_codes_distinct(a: HttpError, b: HttpError)
    requires
        a.is_closed(),
        b.is_closed(),
        a != b,
    ensures
        a.code_spec() != b.code_spec(),
{
    if a.code_spec() == b.code_spec() {
        lemma_from_code_of_code(a);
        lemma_from_code_of_code(b);
    }
}

} // verus!

