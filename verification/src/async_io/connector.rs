use vstd::prelude::*;
use vstd::std_specs::convert::FromSpecImpl;

use crate::async_io::buffer::BufferModel;
use crate::async_io::connect::Connect;
use crate::async_io::error::Error;
use crate::async_io::error::TlsError;
use crate::async_io::traits::AsyncIO;

verus! {

/// Binds a configuration to the connections that are made with it.
pub struct TcpConnector<Cfg> {
    config: Cfg,
}

impl<Cfg> TcpConnector<Cfg> {
    /// The configuration that engines are built from.
    pub closed spec fn spec_config(&self) -> Cfg {
        self.config
    }

    pub fn config(&self) -> (r: &Cfg)
        ensures
            *r == self.spec_config(),
    {
        &self.config
    }

    /// Starts a handshake over `stream` with the engine that the caller
    /// built from the configuration and the peer's identity.
    ///
    /// If building the engine failed, the failure is returned at once and
    /// nothing is done with the transport.
    pub fn connect<C, IO: AsyncIO>(&self, conn: Result<C, TlsError>, stream: IO) -> (r: Result<
        Connect<C, IO>,
        Error<IO::Error>,
    >)
        ensures
            match conn {
                Ok(c) => r matches Ok(connect) && connect.inner matches Some(inner) && inner.conn
                    == c && inner.io == stream && inner.incoming@ == BufferModel::empty()
                    && inner.outgoing@ == BufferModel::empty() && inner.wf(),
                Err(e) => r matches Err(Error::TlsError(err)) && err == e,
            },
    {
        match conn {
            Ok(conn) => Ok(Connect::new(conn, stream)),
            Err(e) => Err(Error::TlsError(e)),
        }
    }
}

impl<Cfg> From<Cfg> for TcpConnector<Cfg> {
    fn from(config: Cfg) -> (r: Self) {
        TcpConnector { config }
    }
}

impl<Cfg> FromSpecImpl<Cfg> for TcpConnector<Cfg> {
    open spec fn obeys_from_spec() -> bool {
        true
    }

    closed spec fn from_spec(config: Cfg) -> Self {
        TcpConnector { config }
    }
}

/// A certificate verifier that accepts every certificate and every
/// handshake signature. It gives no security and is meant for tests.
#[derive(Debug)]
pub struct NoServerCertVerifier;

impl NoServerCertVerifier {
    /// Accepts the server's certificate chain, whatever it is.
    pub fn verify_server_cert(
        &self,
        end_entity: &[u8],
        intermediates: &[Vec<u8>],
        server_name: &str,
        ocsp_response: &[u8],
        now: u64,
    ) -> (r: Result<(), TlsError>)
        ensures
            r is Ok,
    {
        Ok(())
    }

    /// Accepts a TLS 1.2 handshake signature, whatever it is.
    pub fn verify_tls12_signature(&self, message: &[u8], cert: &[u8], signature: &[u8]) -> (r:
        Result<(), TlsError>)
        ensures
            r is Ok,
    {
        Ok(())
    }

    /// Accepts a TLS 1.3 handshake signature, whatever it is.
    pub fn verify_tls13_signature(&self, message: &[u8], cert: &[u8], signature: &[u8]) -> (r:
        Result<(), TlsError>)
        ensures
            r is Ok,
    {
        Ok(())
    }
}

} // verus!
