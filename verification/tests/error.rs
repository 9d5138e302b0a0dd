use sockets::error::Error;

#[test]
fn error_messages() {
    assert_eq!(Error::Canceled.message(), "canceled");
    assert_eq!(Error::Unauthorized.message(), "unauthorized");
    assert_eq!(Error::InvalidLocalId.message(), "invalid local id");
    assert_eq!(Error::UnknownTunnelId.message(), "unknown tunnel id");
    assert_eq!(Error::NoTlsCertificates.message(), "no TLS certificates loaded");
    assert_eq!(Error::NoTlsCertificateKeys.message(), "no TLS certificate keys loaded");
    assert_eq!(Error::InvalidSocketAddress.message(), "invalid socket address");
}

#[test]
fn io_error_converts() {
    let io = std::io::Error::new(std::io::ErrorKind::Other, "boom");
    let err: Error = io.into();
    assert_eq!(err.message(), "IOError");
    match err {
        Error::IOError(e) => assert_eq!(e.kind(), std::io::ErrorKind::Other),
        _ => panic!("expected an I/O error"),
    }
}
