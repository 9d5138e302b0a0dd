use vstd::prelude::*;

verus! {

#[verifier::external_type_specification]
#[verifier::external_body]
pub struct ExIoError(std::io::Error);

/// The errors of the tunnelling service.
#[derive(Debug)]
pub enum Error {
    Canceled,
    Unauthorized,
    InvalidLocalId,
    UnknownTunnelId,
    IOError(std::io::Error),
    NoTlsCertificates,
    NoTlsCertificateKeys,
    InvalidSocketAddress,
}

impl Error {
    /// The human readable text of each error.
    pub open spec fn spec_message(&self) -> Seq<char> {
        match self {
            Error::Canceled => "canceled"@,
            Error::Unauthorized => "unauthorized"@,
            Error::InvalidLocalId => "invalid local id"@,
            Error::UnknownTunnelId => "unknown tunnel id"@,
            Error::IOError(_) => "IOError"@,
            Error::NoTlsCertificates => "no TLS certificates loaded"@,
            Error::NoTlsCertificateKeys => "no TLS certificate keys loaded"@,
            Error::InvalidSocketAddress => "invalid socket address"@,
        }
    }

    /// The text by which the error is shown to a user.
    pub fn message(&self) -> (m: &'static str)
        ensures
            m@ == self.spec_message(),
    {
        match self {
            Error::Canceled => "canceled",
            Error::Unauthorized => "unauthorized",
            Error::InvalidLocalId => "invalid local id",
            Error::UnknownTunnelId => "unknown tunnel id",
            Error::IOError(_) => "IOError",
            Error::NoTlsCertificates => "no TLS certificates loaded",
            Error::NoTlsCertificateKeys => "no TLS certificate keys loaded",
            Error::InvalidSocketAddress => "invalid socket address",
        }
    }
}

impl From<std::io::Error> for Error {
    fn from(err: std::io::Error) -> (r: Self) {
        Error::IOError(err)
    }
}

impl vstd::std_specs::convert::FromSpecImpl<std::io::Error> for Error {
    open spec fn obeys_from_spec() -> bool {
        true
    }

    open spec fn from_spec(err: std::io::Error) -> Self {
        Error::IOError(err)
    }
}

} // verus!
