use error_registry::HttpError;

fn closed_table() -> Vec<(HttpError, i32)> {
    vec![
        (HttpError::ConnectionClosed, -100),
        (HttpError::ConnectionReset, -101),
        (HttpError::ConnectionRefused, -102),
        (HttpError::ConnectionAborted, -103),
        (HttpError::ConnectionFailed, -104),
        (HttpError::NameNotResolved, -105),
        (HttpError::InternetDisconnected, -106),
        (HttpError::SslProtocolError, -107),
        (HttpError::AddressInvalid, -108),
        (HttpError::AddressUnreachable, -109),
        (HttpError::SslClientAuthCertNeeded, -110),
        (HttpError::TunnelConnectionFailed, -111),
        (HttpError::SslVersionOrCipherMismatch, -113),
        (HttpError::SslRenegotiationRequested, -114),
        (HttpError::ProxyAuthUnsupported, -115),
        (HttpError::BadSslClientAuthCert, -117),
        (HttpError::ConnectionTimedOut, -118),
        (HttpError::HostResolverQueueTooLarge, -119),
        (HttpError::SocksConnectionFailed, -120),
        (HttpError::SocksConnectionHostUnreachable, -121),
        (HttpError::AlpnNegotiationFailed, -122),
        (HttpError::SslNoRenegotiation, -123),
        (HttpError::WinsockUnexpectedWrittenBytes, -124),
        (HttpError::SslDecompressionFailureAlert, -125),
        (HttpError::SslBadRecordMacAlert, -126),
        (HttpError::ProxyAuthRequested, -127),
        (HttpError::ProxyConnectionFailed, -130),
        (HttpError::MandatoryProxyConfigurationFailed, -131),
        (HttpError::PreconnectMaxSocketLimit, -133),
        (HttpError::SslClientAuthPrivateKeyAccessDenied, -134),
        (HttpError::SslClientAuthCertNoPrivateKey, -135),
        (HttpError::ProxyCertificateInvalid, -136),
        (HttpError::NameResolutionFailed, -137),
        (HttpError::NetworkAccessDenied, -138),
        (HttpError::TemporarilyThrottled, -139),
        (HttpError::SslClientAuthSignatureFailed, -141),
        (HttpError::MsgTooBig, -142),
        (HttpError::WsProtocolError, -145),
        (HttpError::AddressInUse, -147),
        (HttpError::SslPinnedKeyNotInCertChain, -150),
        (HttpError::ClientAuthCertTypeUnsupported, -151),
        (HttpError::SslDecryptErrorAlert, -153),
        (HttpError::WsThrottleQueueTooLarge, -154),
        (HttpError::SslServerCertChanged, -156),
        (HttpError::SslUnrecognizedNameAlert, -159),
        (HttpError::SocketSetReceiveBufferSizeError, -160),
        (HttpError::SocketSetSendBufferSizeError, -161),
        (HttpError::SocketReceiveBufferSizeUnchangeable, -162),
        (HttpError::SocketSendBufferSizeUnchangeable, -163),
        (HttpError::SslClientAuthCertBadFormat, -164),
        (HttpError::IcannNameCollision, -166),
        (HttpError::SslServerCertBadFormat, -167),
        (HttpError::CtSthParsingFailed, -168),
        (HttpError::CtSthIncomplete, -169),
        (HttpError::UnableToReuseConnectionForProxyAuth, -170),
        (HttpError::CtConsistencyProofParsingFailed, -171),
        (HttpError::SslObsoleteCipher, -172),
        (HttpError::WsUpgrade, -173),
        (HttpError::ReadIfReadyNotImplemented, -174),
        (HttpError::NoBufferSpace, -176),
        (HttpError::SslClientAuthNoCommonAlgorithms, -177),
        (HttpError::EarlyDataRejected, -178),
        (HttpError::WrongVersionOnEarlyData, -179),
        (HttpError::Tls13DowngradeDetected, -180),
        (HttpError::SslKeyUsageIncompatible, -181),
        (HttpError::InvalidEchConfigList, -182),
        (HttpError::EchNotNegotiated, -183),
        (HttpError::EchFallbackCertificateInvalid, -184),
        (HttpError::ProxyUnableToConnectToDestination, -186),
        (HttpError::ProxyDelegateCanceledConnectRequest, -187),
        (HttpError::ProxyDelegateCanceledConnectResponse, -188),
        (HttpError::InvalidUrl, -300),
        (HttpError::DisallowedUrlScheme, -301),
        (HttpError::UnknownUrlScheme, -302),
        (HttpError::InvalidRedirect, -303),
        (HttpError::TooManyRedirects, -310),
        (HttpError::UnsafeRedirect, -311),
        (HttpError::UnsafePort, -312),
        (HttpError::InvalidResponse, -320),
        (HttpError::InvalidChunkedEncoding, -321),
        (HttpError::MethodNotSupported, -322),
        (HttpError::UnexpectedProxyAuth, -323),
        (HttpError::EmptyResponse, -324),
        (HttpError::ResponseHeadersTooBig, -325),
        (HttpError::PacScriptFailed, -327),
        (HttpError::RequestRangeNotSatisfiable, -328),
        (HttpError::MalformedIdentity, -329),
        (HttpError::ContentDecodingFailed, -330),
        (HttpError::NetworkIoSuspended, -331),
        (HttpError::NoSupportedProxies, -336),
        (HttpError::Http2ProtocolError, -337),
        (HttpError::InvalidAuthCredentials, -338),
        (HttpError::UnsupportedAuthScheme, -339),
        (HttpError::EncodingDetectionFailed, -340),
        (HttpError::MissingAuthCredentials, -341),
        (HttpError::UnexpectedSecurityLibraryStatus, -342),
        (HttpError::MisconfiguredAuthEnvironment, -343),
        (HttpError::UndocumentedSecurityLibraryStatus, -344),
        (HttpError::ResponseBodyTooBigToDrain, -345),
        (HttpError::ResponseHeadersMultipleContentLength, -346),
        (HttpError::IncompleteHttp2Headers, -347),
        (HttpError::PacNotInDhcp, -348),
        (HttpError::ResponseHeadersMultipleContentDisposition, -349),
        (HttpError::ResponseHeadersMultipleLocation, -350),
        (HttpError::Http2ServerRefusedStream, -351),
        (HttpError::Http2PingFailed, -352),
        (HttpError::ContentLengthMismatch, -354),
        (HttpError::IncompleteChunkedEncoding, -355),
        (HttpError::QuicProtocolError, -356),
        (HttpError::ResponseHeadersTruncated, -357),
        (HttpError::QuicHandshakeFailed, -358),
        (HttpError::Http2InadequateTransportSecurity, -360),
        (HttpError::Http2FlowControlError, -361),
        (HttpError::Http2FrameSizeError, -362),
        (HttpError::Http2CompressionError, -363),
        (HttpError::ProxyAuthRequestedWithNoConnection, -364),
        (HttpError::Http11Required, -365),
        (HttpError::ProxyHttp11Required, -366),
        (HttpError::PacScriptTerminated, -367),
        (HttpError::ProxyRequired, -368),
        (HttpError::InvalidHttpResponse, -370),
        (HttpError::ContentDecodingInitFailed, -371),
        (HttpError::Http2RstStreamNoErrorReceived, -372),
        (HttpError::Http2PushedStreamNotAvailable, -373),
        (HttpError::Http2ClaimedPushedStreamResetByServer, -374),
        (HttpError::TooManyRetries, -375),
        (HttpError::Http2StreamClosed, -376),
        (HttpError::Http2ClientRefusedStream, -377),
        (HttpError::Http2PushedResponseDoesNotMatch, -378),
    ]
}

#[test]
fn full_code_table() {
    for (kind, code) in closed_table() {
        assert_eq!(kind.as_i32(), code);
        assert_eq!(HttpError::from(code), kind);
    }
}

#[test]
fn codes_pairwise_distinct() {
    let table = closed_table();
    for i in 0..table.len() {
        for j in 0..table.len() {
            if i != j {
                assert_ne!(table[i].0.as_i32(), table[j].0.as_i32());
            }
        }
    }
}

#[test]
fn descriptions_stable_and_nonempty() {
    let expected: Vec<(HttpError, &str)> = vec![
        (HttpError::ConnectionClosed, "Connection closed (TCP FIN)"),
        (HttpError::ConnectionReset, "Connection reset (TCP RST)"),
        (HttpError::ConnectionRefused, "Connection refused"),
        (HttpError::ConnectionAborted, "Connection aborted"),
        (HttpError::ConnectionFailed, "Connection failed"),
        (HttpError::NameNotResolved, "Name not resolved"),
        (HttpError::InternetDisconnected, "Internet disconnected"),
        (HttpError::SslProtocolError, "SSL protocol error"),
        (HttpError::AddressInvalid, "Address invalid"),
        (HttpError::AddressUnreachable, "Address unreachable"),
        (HttpError::SslClientAuthCertNeeded, "SSL client auth cert needed"),
        (HttpError::TunnelConnectionFailed, "Tunnel connection failed"),
        (HttpError::SslVersionOrCipherMismatch, "SSL version or cipher mismatch"),
        (HttpError::SslRenegotiationRequested, "SSL renegotiation requested"),
        (HttpError::ProxyAuthUnsupported, "Proxy auth unsupported"),
        (HttpError::BadSslClientAuthCert, "Bad SSL client auth cert"),
        (HttpError::ConnectionTimedOut, "Connection timed out"),
        (HttpError::HostResolverQueueTooLarge, "Host resolver queue too large"),
        (HttpError::SocksConnectionFailed, "SOCKS connection failed"),
        (HttpError::SocksConnectionHostUnreachable, "SOCKS connection host unreachable"),
        (HttpError::AlpnNegotiationFailed, "ALPN negotiation failed"),
        (HttpError::SslNoRenegotiation, "SSL no renegotiation"),
        (HttpError::WinsockUnexpectedWrittenBytes, "Winsock unexpected written bytes"),
        (HttpError::SslDecompressionFailureAlert, "SSL decompression failure alert"),
        (HttpError::SslBadRecordMacAlert, "SSL bad record MAC alert"),
        (HttpError::ProxyAuthRequested, "Proxy auth requested"),
        (HttpError::ProxyConnectionFailed, "Proxy connection failed"),
        (HttpError::MandatoryProxyConfigurationFailed, "Mandatory proxy configuration failed"),
        (HttpError::PreconnectMaxSocketLimit, "Preconnect max socket limit"),
        (HttpError::SslClientAuthPrivateKeyAccessDenied, "SSL client auth private key access denied"),
        (HttpError::SslClientAuthCertNoPrivateKey, "SSL client auth cert no private key"),
        (HttpError::ProxyCertificateInvalid, "Proxy certificate invalid"),
        (HttpError::NameResolutionFailed, "Name resolution failed"),
        (HttpError::NetworkAccessDenied, "Network access denied"),
        (HttpError::TemporarilyThrottled, "Temporarily throttled"),
        (HttpError::SslClientAuthSignatureFailed, "SSL client auth signature failed"),
        (HttpError::MsgTooBig, "Message too big"),
        (HttpError::WsProtocolError, "WebSocket protocol error"),
        (HttpError::AddressInUse, "Address in use"),
        (HttpError::SslPinnedKeyNotInCertChain, "SSL pinned key not in cert chain"),
        (HttpError::ClientAuthCertTypeUnsupported, "Client auth cert type unsupported"),
        (HttpError::SslDecryptErrorAlert, "SSL decrypt error alert"),
        (HttpError::WsThrottleQueueTooLarge, "WebSocket throttle queue too large"),
        (HttpError::SslServerCertChanged, "SSL server cert changed"),
        (HttpError::SslUnrecognizedNameAlert, "SSL unrecognized name alert"),
        (HttpError::SocketSetReceiveBufferSizeError, "Socket set receive buffer size error"),
        (HttpError::SocketSetSendBufferSizeError, "Socket set send buffer size error"),
        (HttpError::SocketReceiveBufferSizeUnchangeable, "Socket receive buffer size unchangeable"),
        (HttpError::SocketSendBufferSizeUnchangeable, "Socket send buffer size unchangeable"),
        (HttpError::SslClientAuthCertBadFormat, "SSL client auth cert bad format"),
        (HttpError::IcannNameCollision, "ICANN name collision"),
        (HttpError::SslServerCertBadFormat, "SSL server cert bad format"),
        (HttpError::CtSthParsingFailed, "CT STH parsing failed"),
        (HttpError::CtSthIncomplete, "CT STH incomplete"),
        (HttpError::UnableToReuseConnectionForProxyAuth, "Unable to reuse connection for proxy auth"),
        (HttpError::CtConsistencyProofParsingFailed, "CT consistency proof parsing failed"),
        (HttpError::SslObsoleteCipher, "SSL obsolete cipher"),
        (HttpError::WsUpgrade, "WebSocket upgrade"),
        (HttpError::ReadIfReadyNotImplemented, "ReadIfReady not implemented"),
        (HttpError::NoBufferSpace, "No buffer space"),
        (HttpError::SslClientAuthNoCommonAlgorithms, "SSL client auth no common algorithms"),
        (HttpError::EarlyDataRejected, "Early data rejected"),
        (HttpError::WrongVersionOnEarlyData, "Wrong version on early data"),
        (HttpError::Tls13DowngradeDetected, "TLS 1.3 downgrade detected"),
        (HttpError::SslKeyUsageIncompatible, "SSL key usage incompatible"),
        (HttpError::InvalidEchConfigList, "Invalid ECH config list"),
        (HttpError::EchNotNegotiated, "ECH not negotiated"),
        (HttpError::EchFallbackCertificateInvalid, "ECH fallback certificate invalid"),
        (HttpError::ProxyUnableToConnectToDestination, "Proxy unable to connect to destination"),
        (HttpError::ProxyDelegateCanceledConnectRequest, "Proxy delegate canceled connect request"),
        (HttpError::ProxyDelegateCanceledConnectResponse, "Proxy delegate canceled connect response"),
        (HttpError::InvalidUrl, "Invalid URL"),
        (HttpError::DisallowedUrlScheme, "Disallowed URL scheme"),
        (HttpError::UnknownUrlScheme, "Unknown URL scheme"),
        (HttpError::InvalidRedirect, "Invalid redirect"),
        (HttpError::TooManyRedirects, "Too many redirects"),
        (HttpError::UnsafeRedirect, "Unsafe redirect"),
        (HttpError::UnsafePort, "Unsafe port"),
        (HttpError::InvalidResponse, "Invalid response"),
        (HttpError::InvalidChunkedEncoding, "Invalid chunked encoding"),
        (HttpError::MethodNotSupported, "Method not supported"),
        (HttpError::UnexpectedProxyAuth, "Unexpected proxy auth"),
        (HttpError::EmptyResponse, "Empty response"),
        (HttpError::ResponseHeadersTooBig, "Response headers too big"),
        (HttpError::PacScriptFailed, "PAC script failed"),
        (HttpError::RequestRangeNotSatisfiable, "Request range not satisfiable"),
        (HttpError::MalformedIdentity, "Malformed identity"),
        (HttpError::ContentDecodingFailed, "Content decoding failed"),
        (HttpError::NetworkIoSuspended, "Network IO suspended"),
        (HttpError::NoSupportedProxies, "No supported proxies"),
        (HttpError::Http2ProtocolError, "HTTP/2 protocol error"),
        (HttpError::InvalidAuthCredentials, "Invalid auth credentials"),
        (HttpError::UnsupportedAuthScheme, "Unsupported auth scheme"),
        (HttpError::EncodingDetectionFailed, "Encoding detection failed"),
        (HttpError::MissingAuthCredentials, "Missing auth credentials"),
        (HttpError::UnexpectedSecurityLibraryStatus, "Unexpected security library status"),
        (HttpError::MisconfiguredAuthEnvironment, "Misconfigured auth environment"),
        (HttpError::UndocumentedSecurityLibraryStatus, "Undocumented security library status"),
        (HttpError::ResponseBodyTooBigToDrain, "Response body too big to drain"),
        (HttpError::ResponseHeadersMultipleContentLength, "Response headers multiple Content-Length"),
        (HttpError::IncompleteHttp2Headers, "Incomplete HTTP/2 headers"),
        (HttpError::PacNotInDhcp, "PAC not in DHCP"),
        (HttpError::ResponseHeadersMultipleContentDisposition, "Response headers multiple Content-Disposition"),
        (HttpError::ResponseHeadersMultipleLocation, "Response headers multiple Location"),
        (HttpError::Http2ServerRefusedStream, "HTTP/2 server refused stream"),
        (HttpError::Http2PingFailed, "HTTP/2 PING failed"),
        (HttpError::ContentLengthMismatch, "Content-Length mismatch"),
        (HttpError::IncompleteChunkedEncoding, "Incomplete chunked encoding"),
        (HttpError::QuicProtocolError, "QUIC protocol error"),
        (HttpError::ResponseHeadersTruncated, "Response headers truncated"),
        (HttpError::QuicHandshakeFailed, "QUIC handshake failed"),
        (HttpError::Http2InadequateTransportSecurity, "HTTP/2 inadequate transport security"),
        (HttpError::Http2FlowControlError, "HTTP/2 flow control error"),
        (HttpError::Http2FrameSizeError, "HTTP/2 frame size error"),
        (HttpError::Http2CompressionError, "HTTP/2 compression error"),
        (HttpError::ProxyAuthRequestedWithNoConnection, "Proxy auth requested with no connection"),
        (HttpError::Http11Required, "HTTP/1.1 required"),
        (HttpError::ProxyHttp11Required, "Proxy HTTP/1.1 required"),
        (HttpError::PacScriptTerminated, "PAC script terminated"),
        (HttpError::ProxyRequired, "Proxy required"),
        (HttpError::InvalidHttpResponse, "Invalid HTTP response"),
        (HttpError::ContentDecodingInitFailed, "Content decoding init failed"),
        (HttpError::Http2RstStreamNoErrorReceived, "HTTP/2 RST_STREAM NO_ERROR received"),
        (HttpError::Http2PushedStreamNotAvailable, "HTTP/2 pushed stream not available"),
        (HttpError::Http2ClaimedPushedStreamResetByServer, "HTTP/2 claimed pushed stream reset by server"),
        (HttpError::TooManyRetries, "Too many retries"),
        (HttpError::Http2StreamClosed, "HTTP/2 stream closed"),
        (HttpError::Http2ClientRefusedStream, "HTTP/2 client refused stream"),
        (HttpError::Http2PushedResponseDoesNotMatch, "HTTP/2 pushed response does not match"),
    ];
    for (kind, text) in expected {
        assert_eq!(kind.describe().as_str(), text);
        assert!(!kind.describe().is_empty());
    }
}
