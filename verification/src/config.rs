//! The TLS configuration that all connections share: one certificate chain,
//! one private key, and the application protocols on offer.

use std::sync::Arc;
use vstd::prelude::*;
use crate::tls::fragment_limit;

verus! {

/// The DER contents of the certificate sections of a PEM text, in order, or
/// `None` where a section does not decode.
pub uninterp spec fn pem_certificates(pem: Seq<u8>) -> Option<Seq<Seq<u8>>>;

/// The DER contents of the RSA private key sections of a PEM text, in order,
/// or `None` where a section does not decode.
pub uninterp spec fn pem_rsa_keys(pem: Seq<u8>) -> Option<Seq<Seq<u8>>>;

/// Whether the TLS implementation can sign with the private key encoded in
/// `key`: whether the bytes are a key in one of the encodings it reads.
pub uninterp spec fn usable_key(key: Seq<u8>) -> bool;

/// The certificate chain, as DER bytes, that a configuration presents to
/// every client, `None` where it has none to present.
pub uninterp spec fn served_chain(config: rustls::ServerConfig) -> Option<Seq<Seq<u8>>>;

/// The application protocols that a configuration offers, most preferred
/// first.
pub uninterp spec fn offered_protocols(config: rustls::ServerConfig) -> Seq<Seq<u8>>;

/// Calls `rustls::internal::pemfile::certs` with `pem` as the reader and
/// takes the DER bytes out of each certificate.
///
/// Trusted: what comes back is `pem_certificates` of the text, that is, it
/// depends on the text alone.
#[verifier::external_body]
fn read_certificates(pem: &[u8]) -> (list: Option<Vec<Vec<u8>>>)
    ensures
        list matches Some(ders) ==> pem_certificates(pem@) == Some(ders.deep_view()),
        list is None ==> pem_certificates(pem@) is None,
{
    let mut reader: &[u8] = pem;
    match rustls::internal::pemfile::certs(&mut reader) {
        Ok(found) => Some(found.into_iter().map(|c| c.0).collect()),
        Err(_) => None,
    }
}

/// Calls `rustls::internal::pemfile::rsa_private_keys` with `pem` as the
/// reader and takes the DER bytes out of each key.
///
/// Trusted: what comes back is `pem_rsa_keys` of the text, that is, it
/// depends on the text alone.
#[verifier::external_body]
fn read_rsa_keys(pem: &[u8]) -> (list: Option<Vec<Vec<u8>>>)
    ensures
        list matches Some(ders) ==> pem_rsa_keys(pem@) == Some(ders.deep_view()),
        list is None ==> pem_rsa_keys(pem@) is None,
{
    let mut reader: &[u8] = pem;
    match rustls::internal::pemfile::rsa_private_keys(&mut reader) {
        Ok(found) => Some(found.into_iter().map(|k| k.0).collect()),
        Err(_) => None,
    }
}

/// Calls `rustls::ServerConfig::new` with `rustls::NoClientAuth::new()`:
/// a configuration that asks no certificate of the client.
///
/// Trusted: the new configuration sets no limit on the size of fragments.
#[verifier::external_body]
fn new_config() -> (config: rustls::ServerConfig)
    ensures
        fragment_limit(config) is None,
{
    rustls::ServerConfig::new(rustls::NoClientAuth::new())
}

/// Calls `rustls::ServerConfig::set_single_cert` with the chain and the key
/// given as DER bytes.
///
/// Trusted: the call succeeds exactly where the key is `usable_key`, that
/// is, the outcome depends on the bytes of the key alone. On success the
/// configuration presents the chain given to every client; on failure it
/// presents what it did before. The limit on the size of fragments stays as
/// it was.
#[verifier::external_body]
fn install_certificate(config: &mut rustls::ServerConfig, chain: Vec<Vec<u8>>, key: Vec<u8>) -> (outcome:
    Result<(), rustls::TLSError>)
    ensures
        outcome is Ok <==> usable_key(key@),
        outcome is Ok ==> served_chain(*final(config)) == Some(chain.deep_view()),
        outcome is Err ==> served_chain(*final(config)) == served_chain(*old(config)),
        fragment_limit(*final(config)) == fragment_limit(*old(config)),
{
    config.set_single_cert(
        chain.into_iter().map(rustls::Certificate).collect(),
        rustls::PrivateKey(key),
    )
}

/// Calls `rustls::ServerConfig::set_protocols`.
///
/// Trusted: afterwards the configuration offers the protocols given, in the
/// order given, and no others; the chain it presents and the limit on the
/// size of fragments stay as they were.
#[verifier::external_body]
fn install_protocols(config: &mut rustls::ServerConfig, protocols: &Vec<Vec<u8>>)
    ensures
        offered_protocols(*final(config)) == protocols.deep_view(),
        served_chain(*final(config)) == served_chain(*old(config)),
        fragment_limit(*final(config)) == fragment_limit(*old(config)),
{
    config.set_protocols(protocols)
}

/// The configuration that all connections share. It is made by `configure`
/// alone, read-only afterwards, and sets no limit on the size of fragments.
pub struct TlsConfiguration {
    shared: Arc<rustls::ServerConfig>,
}

impl TlsConfiguration {
    /// A session under a fragment limit of zero cannot send, so no
    /// configuration of this library sets a limit.
    #[verifier::type_invariant]
    spec fn sets_no_limit(self) -> bool {
        fragment_limit(*self.shared) is None
    }

    /// The settings of the TLS implementation.
    pub closed spec fn settings(&self) -> rustls::ServerConfig {
        *self.shared
    }

    /// The settings, as the TLS implementation takes them.
    pub fn as_rustls(&self) -> (shared: &Arc<rustls::ServerConfig>)
        ensures
            **shared == self.settings(),
            fragment_limit(**shared) is None,
    {
        proof {
            use_type_invariant(self);
        }
        &self.shared
    }
}

/// Why no configuration could be made.
#[derive(Debug)]
pub enum ConfigError {
    /// The certificate text does not decode.
    Certificates,
    /// The key text does not decode.
    PrivateKeys,
    /// The key text holds no RSA private key.
    NoPrivateKey,
    /// The TLS implementation turned the key down.
    Rejected(rustls::TLSError),
}

/// The application protocols on offer, most preferred first: `gemini`, `h2`
/// and `http/1.1`. Only the first is served.
pub open spec fn protocol_names() -> Seq<Seq<u8>> {
    seq![
        seq![103u8, 101u8, 109u8, 105u8, 110u8, 105u8],
        seq![104u8, 50u8],
        seq![104u8, 116u8, 116u8, 112u8, 47u8, 49u8, 46u8, 49u8],
    ]
}

/// Why the decoded texts give no certificate chain and key, if they do not.
pub open spec fn refusal(certs: Option<Seq<Seq<u8>>>, keys: Option<Seq<Seq<u8>>>) -> Option<
    ConfigError,
> {
    if certs is None {
        Some(ConfigError::Certificates)
    } else if keys is None {
        Some(ConfigError::PrivateKeys)
    } else if keys->0.len() == 0 {
        Some(ConfigError::NoPrivateKey)
    } else {
        None
    }
}

/// Builds the list of `protocol_names`.
pub fn alpn_protocols() -> (list: Vec<Vec<u8>>)
    ensures
        list.deep_view() == protocol_names(),
{
    let gemini: Vec<u8> = vec![103u8, 101u8, 109u8, 105u8, 110u8, 105u8];
    let h2: Vec<u8> = vec![104u8, 50u8];
    let http: Vec<u8> = vec![104u8, 116u8, 116u8, 112u8, 47u8, 49u8, 46u8, 49u8];
    let mut list: Vec<Vec<u8>> = Vec::new();
    list.push(gemini);
    list.push(h2);
    list.push(http);
    proof {
        assert(list@[0].deep_view() =~= protocol_names()[0]);
        assert(list@[1].deep_view() =~= protocol_names()[1]);
        assert(list@[2].deep_view() =~= protocol_names()[2]);
        assert(list.deep_view() =~= protocol_names());
    }
    list
}

/// The chain to serve with: all the certificates that the text held.
pub fn whole_chain(certs: Option<Vec<Vec<u8>>>) -> (result: Result<Vec<Vec<u8>>, ConfigError>)
    ensures
        certs is None ==> result == Err::<Vec<Vec<u8>>, ConfigError>(ConfigError::Certificates),
        certs matches Some(chain) ==> result == Ok::<Vec<Vec<u8>>, ConfigError>(chain),
{
    match certs {
        Some(chain) => Ok(chain),
        None => Err(ConfigError::Certificates),
    }
}

/// The key to serve with: the first of the keys that the text held.
pub fn first_key(keys: Option<Vec<Vec<u8>>>) -> (result: Result<Vec<u8>, ConfigError>)
    ensures
        keys is None ==> result == Err::<Vec<u8>, ConfigError>(ConfigError::PrivateKeys),
        keys matches Some(list) ==> (if list@.len() == 0 {
            result == Err::<Vec<u8>, ConfigError>(ConfigError::NoPrivateKey)
        } else {
            result matches Ok(key) && key@ == list@[0]@
        }),
{
    let mut list = match keys {
        Some(list) => list,
        None => {
            return Err(ConfigError::PrivateKeys);
        },
    };
    if list.len() == 0 {
        return Err(ConfigError::NoPrivateKey);
    }
    Ok(list.swap_remove(0))
}

/// Picks the chain and the key to serve with: the whole chain, and the first
/// of the keys. A missing chain is reported before a missing key.
pub fn select_identity(certs: Option<Vec<Vec<u8>>>, keys: Option<Vec<Vec<u8>>>) -> (result: Result<
    (Vec<Vec<u8>>, Vec<u8>),
    ConfigError,
>)
    ensures
        result matches Err(e) ==> refusal(certs.deep_view(), keys.deep_view()) == Some(e),
        result matches Ok(identity) ==> refusal(certs.deep_view(), keys.deep_view()) is None
            && certs == Some(identity.0) && identity.1@ == keys->0@[0]@,
{
    let chain = match whole_chain(certs) {
        Ok(chain) => chain,
        Err(e) => {
            return Err(e);
        },
    };
    match first_key(keys) {
        Ok(key) => Ok((chain, key)),
        Err(e) => Err(e),
    }
}

/// Decodes the PEM text of a certificate chain into the DER bytes of its
/// certificates.
pub fn decode_certificates(pem: &[u8]) -> (result: Result<Vec<Vec<u8>>, ConfigError>)
    ensures
        pem_certificates(pem@) is None ==> result == Err::<Vec<Vec<u8>>, ConfigError>(
            ConfigError::Certificates,
        ),
        pem_certificates(pem@) matches Some(ders) ==> result matches Ok(chain)
            && chain.deep_view() == ders,
{
    whole_chain(read_certificates(pem))
}

/// Decodes the PEM text of RSA private keys and gives the DER bytes of the
/// first of them.
pub fn decode_first_key(pem: &[u8]) -> (result: Result<Vec<u8>, ConfigError>)
    ensures
        pem_rsa_keys(pem@) is None ==> result == Err::<Vec<u8>, ConfigError>(
            ConfigError::PrivateKeys,
        ),
        pem_rsa_keys(pem@) matches Some(ders) ==> (if ders.len() == 0 {
            result == Err::<Vec<u8>, ConfigError>(ConfigError::NoPrivateKey)
        } else {
            result matches Ok(key) && key@ == ders[0]
        }),
{
    let keys = read_rsa_keys(pem);
    proof {
        if keys is Some && keys->0@.len() > 0 {
            let list = keys->0;
            assert(list.deep_view()[0] == list@[0].deep_view());
            assert(list@[0].deep_view() =~= list@[0]@);
        }
    }
    first_key(keys)
}

/// Makes the shared configuration for a chain and a key given as DER bytes.
///
/// It succeeds exactly where the TLS implementation can use the key, and
/// fails with `Rejected` where it cannot. The configuration asks no
/// certificate of the client, presents `chain` to every client, offers
/// `protocol_names` and sets no limit on the size of fragments.
pub fn configure(chain: Vec<Vec<u8>>, key: Vec<u8>) -> (result: Result<
    TlsConfiguration,
    ConfigError,
>)
    ensures
        result is Ok <==> usable_key(key@),
        result is Err ==> result matches Err(ConfigError::Rejected(_)),
        result matches Ok(made) ==> offered_protocols(made.settings()) == protocol_names()
            && served_chain(made.settings()) == Some(chain.deep_view()),
{
    let mut config = new_config();
    match install_certificate(&mut config, chain, key) {
        Ok(_) => {},
        Err(e) => {
            return Err(ConfigError::Rejected(e));
        },
    }
    let protocols = alpn_protocols();
    install_protocols(&mut config, &protocols);
    Ok(TlsConfiguration { shared: Arc::new(config) })
}

/// Makes the shared configuration from the PEM text of a certificate chain
/// and of an RSA private key.
///
/// It fails with the `refusal` of the two texts where there is one. Where
/// there is none, the chain and the first key are handed to `configure`:
/// the result is a configuration exactly where the TLS implementation can
/// use that key, and `Rejected` where it cannot.
pub fn server_config(cert_pem: &[u8], key_pem: &[u8]) -> (result: Result<
    TlsConfiguration,
    ConfigError,
>)
    ensures
        match refusal(pem_certificates(cert_pem@), pem_rsa_keys(key_pem@)) {
            Some(e) => result == Err::<TlsConfiguration, ConfigError>(e),
            None => (result is Ok <==> usable_key(pem_rsa_keys(key_pem@)->0[0])) && (result is Err
                ==> result matches Err(ConfigError::Rejected(_))),
        },
        result matches Ok(made) ==> offered_protocols(made.settings()) == protocol_names()
            && served_chain(made.settings()) == pem_certificates(cert_pem@),
{
    let certs = read_certificates(cert_pem);
    let keys = read_rsa_keys(key_pem);
    proof {
        if keys is Some && keys->0@.len() > 0 {
            let list = keys->0;
            assert(list.deep_view()[0] == list@[0].deep_view());
            assert(list@[0].deep_view() =~= list@[0]@);
        }
    }
    match select_identity(certs, keys) {
        Ok((chain, key)) => configure(chain, key),
        Err(e) => Err(e),
    }
}

} // verus!
