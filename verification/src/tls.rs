use rustls_pemfile::{read_one, Item};
use vstd::prelude::*;

verus! {

/// A recognised section of a PEM file, with its DER contents.
#[derive(PartialEq, Eq, Debug, Clone)]
pub enum PemItem {
    X509Certificate(Vec<u8>),
    /// A PKCS#1 RSA private key.
    RSAKey(Vec<u8>),
    /// A PKCS#8 private key.
    PKCS8Key(Vec<u8>),
    /// A SEC1 elliptic-curve private key.
    ECKey(Vec<u8>),
    /// Any other recognised section (such as a revocation list).
    Other,
}

/// The mathematical model of a [`PemItem`].
pub enum PemSection {
    X509Certificate(Seq<u8>),
    RSAKey(Seq<u8>),
    PKCS8Key(Seq<u8>),
    ECKey(Seq<u8>),
    Other,
}

impl View for PemItem {
    type V = PemSection;

    open spec fn view(&self) -> PemSection {
        match self {
            PemItem::X509Certificate(d) => PemSection::X509Certificate(d@),
            PemItem::RSAKey(d) => PemSection::RSAKey(d@),
            PemItem::PKCS8Key(d) => PemSection::PKCS8Key(d@),
            PemItem::ECKey(d) => PemSection::ECKey(d@),
            PemItem::Other => PemSection::Other,
        }
    }
}

/// The byte contents of a list of DER blobs.
pub open spec fn der_list(v: Seq<Vec<u8>>) -> Seq<Seq<u8>> {
    v.map_values(|d: Vec<u8>| d@)
}

/// What `rustls_pemfile::read_one` reads first from the bytes `input`: an
/// error, no section (`Ok(None)`), or the next section together with the
/// bytes that are left after it.
pub uninterp spec fn pem_read_one_result(input: Seq<u8>) -> Result<Option<(PemSection, Seq<u8>)>, ()>;

/// All sections of the PEM text `input`, in order, as repeated reads find
/// them; `None` where a read fails.
pub open spec fn pem_items(input: Seq<u8>) -> Option<Seq<PemSection>>
    decreases input.len(),
{
    match pem_read_one_result(input) {
        Err(_) => None,
        Ok(None) => Some(Seq::empty()),
        Ok(Some((item, rest))) => if rest.len() < input.len() {
            match pem_items(rest) {
                Some(items) => Some(seq![item] + items),
                None => None,
            }
        } else {
            None
        },
    }
}

/// The DER contents of the certificate sections among `items`, in order.
pub open spec fn certificates_of(items: Seq<PemSection>) -> Seq<Seq<u8>>
    decreases items.len(),
{
    if items.len() == 0 {
        Seq::empty()
    } else {
        match items[0] {
            PemSection::X509Certificate(der) => seq![der] + certificates_of(items.drop_first()),
            _ => certificates_of(items.drop_first()),
        }
    }
}

/// The DER contents that a section contributes to the private keys: its
/// contents for an RSA, PKCS#8 or EC key, nothing for any other section.
pub open spec fn private_key_der(item: PemSection) -> Seq<Seq<u8>> {
    match item {
        PemSection::RSAKey(der) => seq![der],
        PemSection::PKCS8Key(der) => seq![der],
        PemSection::ECKey(der) => seq![der],
        _ => Seq::empty(),
    }
}

/// The DER contents of the private-key sections (RSA, PKCS#8 and EC keys)
/// among `items`, in order; every other section is passed over.
pub open spec fn private_keys_of(items: Seq<PemSection>) -> Seq<Seq<u8>>
    decreases items.len(),
{
    if items.len() == 0 {
        Seq::empty()
    } else {
        private_key_der(items[0]) + private_keys_of(items.drop_first())
    }
}

/// Calls `rustls_pemfile::read_one` on a reader over `input`. The contract
/// claims that the outcome is a function of the bytes alone (named
/// `pem_read_one_result`), and that a section that was read consumed at
/// least one byte, the reader standing at a suffix of `input` afterwards.
#[verifier::external_body]
fn pem_read_one<'a>(input: &'a [u8]) -> (r: Result<Option<(PemItem, &'a [u8])>, ()>)
    ensures
        match r {
            Ok(Some((item, rest))) => {
                &&& pem_read_one_result(input@) == Ok::<_, ()>(Some((item@, rest@)))
                &&& rest@.len() < input@.len()
                &&& rest@ == input@.skip(input@.len() - rest@.len())
            },
            Ok(None) => pem_read_one_result(input@) == Ok::<_, ()>(None::<(PemSection, Seq<u8>)>),
            Err(()) => pem_read_one_result(input@) is Err,
        },
{
    let mut rest = input;
    match read_one(&mut rest) {
        Ok(Some(Item::X509Certificate(d))) => Ok(Some((PemItem::X509Certificate(d), rest))),
        Ok(Some(Item::RSAKey(d))) => Ok(Some((PemItem::RSAKey(d), rest))),
        Ok(Some(Item::PKCS8Key(d))) => Ok(Some((PemItem::PKCS8Key(d), rest))),
        Ok(Some(Item::ECKey(d))) => Ok(Some((PemItem::ECKey(d), rest))),
        Ok(Some(_)) => Ok(Some((PemItem::Other, rest))),
        Ok(None) => Ok(None),
        Err(_) => Err(()),
    }
}

/// Calls `rustls_pemfile::certs` on a reader over `input`. Its source reads
/// sections with `read_one` until none is left, keeps the certificates and
/// fails on the first failing read; the contract claims exactly that, over
/// `pem_items`.
#[verifier::external_body]
fn pem_certs(input: &[u8]) -> (r: Result<Vec<Vec<u8>>, std::io::Error>)
    ensures
        r is Ok <==> pem_items(input@) is Some,
        r matches Ok(certs) ==> der_list(certs@) == certificates_of(pem_items(input@)->Some_0),
{
    let mut rd = input;
    rustls_pemfile::certs(&mut rd)
}

/// An I/O error of the `InvalidInput` kind, with its text: what a PEM file
/// that cannot be read gives when certificates are loaded from it.
#[derive(Debug, PartialEq, Eq, Clone, Copy)]
pub struct InvalidInput {
    pub message: &'static str,
}

/// Loads the server certificates (DER contents, in file order) from the
/// text of a PEM file. Every other section is passed over; a malformed file
/// gives an `InvalidInput` error with the text "invalid cert".
pub fn load_server_certs(pem: &[u8]) -> (r: Result<Vec<Vec<u8>>, InvalidInput>)
    ensures
        r is Ok <==> pem_items(pem@) is Some,
        r matches Ok(certs) ==> der_list(certs@) == certificates_of(pem_items(pem@)->Some_0),
        r matches Err(e) ==> e.message@ == "invalid cert"@,
{
    match pem_certs(pem) {
        Ok(certs) => Ok(certs),
        Err(_) => Err(InvalidInput { message: "invalid cert" }),
    }
}

proof fn lemma_private_keys_of_cons(item: PemSection, items: Seq<PemSection>)
    ensures
        private_keys_of(seq![item] + items) == private_key_der(item) + private_keys_of(items),
{
    assert((seq![item] + items).drop_first() =~= items);
    assert((seq![item] + items)[0] == item);
}

/// Loads the server's private keys (RSA, PKCS#8 and EC keys; DER contents in
/// file order) from the text of a PEM file, passing over certificates and
/// every other section that may share the file. The file must be well-formed.
pub fn load_server_keys(pem: &[u8]) -> (keys: Vec<Vec<u8>>)
    requires
        pem_items(pem@) is Some,
    ensures
        der_list(keys@) == private_keys_of(pem_items(pem@)->Some_0),
{
    let mut keys: Vec<Vec<u8>> = Vec::new();
    let mut rest: &[u8] = pem;
    loop
        invariant
            pem_items(rest@) is Some,
            private_keys_of(pem_items(pem@)->Some_0) == der_list(keys@) + private_keys_of(
                pem_items(rest@)->Some_0,
            ),
        decreases rest@.len(),
    {
        match pem_read_one(rest) {
            Ok(Some((item, next))) => {
                let ghost old_keys = der_list(keys@);
                let ghost iv = item@;
                let ghost items_rest = pem_items(next@)->Some_0;
                proof {
                    lemma_private_keys_of_cons(iv, items_rest);
                }
                match item {
                    PemItem::RSAKey(der) => {
                        let ghost d = der@;
                        keys.push(der);
                        assert(der_list(keys@) =~= old_keys + seq![d]);
                    },
                    PemItem::PKCS8Key(der) => {
                        let ghost d = der@;
                        keys.push(der);
                        assert(der_list(keys@) =~= old_keys + seq![d]);
                    },
                    PemItem::ECKey(der) => {
                        let ghost d = der@;
                        keys.push(der);
                        assert(der_list(keys@) =~= old_keys + seq![d]);
                    },
                    _ => {
                        assert(der_list(keys@) =~= old_keys + Seq::<Seq<u8>>::empty());
                    },
                }
                assert(der_list(keys@) =~= old_keys + private_key_der(iv));
                assert(pem_items(rest@) == Some(seq![iv] + items_rest));
                assert(old_keys + (private_key_der(iv) + private_keys_of(items_rest)) =~= (old_keys
                    + private_key_der(iv)) + private_keys_of(items_rest));
                rest = next;
            },
            Ok(None) => {
                assert(der_list(keys@) + Seq::<Seq<u8>>::empty() =~= der_list(keys@));
                return keys;
            },
            Err(()) => {
                assert(false);
                return keys;
            },
        }
    }
}

/// Loads the server's private keys like [`load_server_keys`] where the PEM
/// text is well-formed, and answers `None` where it is not.
pub fn try_load_server_keys(pem: &[u8]) -> (r: Option<Vec<Vec<u8>>>)
    ensures
        r is Some <==> pem_items(pem@) is Some,
        r matches Some(keys) ==> der_list(keys@) == private_keys_of(pem_items(pem@)->Some_0),
{
    match pem_certs(pem) {
        Ok(_) => Some(load_server_keys(pem)),
        Err(_) => None,
    }
}

/// Certificates load in file order: the certificates of a file made of two
/// parts are those of the first part followed by those of the second.
pub proof fn lemma_certificates_of_concat(a: Seq<PemSection>, b: Seq<PemSection>)
    ensures
        certificates_of(a + b) == certificates_of(a) + certificates_of(b),
    decreases a.len(),
{
    if a.len() == 0 {
        assert(a + b =~= b);
        assert(certificates_of(a) + certificates_of(b) =~= certificates_of(b));
    } else {
        lemma_certificates_of_concat(a.drop_first(), b);
        assert((a + b).drop_first() =~= a.drop_first() + b);
        assert((a + b)[0] == a[0]);
        match a[0] {
            PemSection::X509Certificate(der) => {
                assert(seq![der] + (certificates_of(a.drop_first()) + certificates_of(b))
                    =~= (seq![der] + certificates_of(a.drop_first())) + certificates_of(b));
            },
            _ => {},
        }
    }
}

/// Keys load in file order: the keys of a file made of two parts are the
/// keys of the first part followed by those of the second.
pub proof fn lemma_private_keys_of_concat(a: Seq<PemSection>, b: Seq<PemSection>)
    ensures
        private_keys_of(a + b) == private_keys_of(a) + private_keys_of(b),
    decreases a.len(),
{
    if a.len() == 0 {
        assert(a + b =~= b);
        assert(private_keys_of(a) + private_keys_of(b) =~= private_keys_of(b));
    } else {
        lemma_private_keys_of_concat(a.drop_first(), b);
        assert((a + b).drop_first() =~= a.drop_first() + b);
        assert((a + b)[0] == a[0]);
        assert(private_key_der(a[0]) + (private_keys_of(a.drop_first()) + private_keys_of(b))
            =~= (private_key_der(a[0]) + private_keys_of(a.drop_first())) + private_keys_of(b));
    }
}

/// A certificate that shares the PEM file with the keys does not change
/// which keys are loaded, wherever it stands in the file.
pub proof fn lemma_certificate_does_not_change_keys(
    before: Seq<PemSection>,
    after: Seq<PemSection>,
    der: Seq<u8>,
)
    ensures
        private_keys_of(before + seq![PemSection::X509Certificate(der)] + after)
            == private_keys_of(before + after),
{
    let cert = seq![PemSection::X509Certificate(der)];
    lemma_private_keys_of_concat(before + cert, after);
    lemma_private_keys_of_concat(before, cert);
    lemma_private_keys_of_concat(before, after);
    assert(cert.drop_first() =~= Seq::<PemSection>::empty());
    assert(private_keys_of(cert.drop_first()) =~= Seq::<Seq<u8>>::empty());
    assert(cert[0] == PemSection::X509Certificate(der));
    assert(private_keys_of(cert) =~= Seq::<Seq<u8>>::empty());
    assert(private_keys_of(before) + Seq::<Seq<u8>>::empty() =~= private_keys_of(before));
}

/// A key that shares the PEM file with the certificates does not change
/// which certificates are loaded, wherever it stands in the file.
pub proof fn lemma_key_does_not_change_certificates(
    before: Seq<PemSection>,
    after: Seq<PemSection>,
    key: PemSection,
)
    requires
        !(key is X509Certificate),
    ensures
        certificates_of(before + seq![key] + after) == certificates_of(before + after),
{
    let k = seq![key];
    lemma_certificates_of_concat(before + k, after);
    lemma_certificates_of_concat(before, k);
    lemma_certificates_of_concat(before, after);
    assert(k.drop_first() =~= Seq::<PemSection>::empty());
    assert(certificates_of(k.drop_first()) =~= Seq::<Seq<u8>>::empty());
    assert(k[0] == key);
    assert(certificates_of(k) =~= Seq::<Seq<u8>>::empty());
    assert(certificates_of(before) + Seq::<Seq<u8>>::empty() =~= certificates_of(before));
}

/// Each private-key section gives exactly its DER contents, whatever its
/// size or contents: an RSA, PKCS#8 or EC key section alone loads as the
/// one key `der`, and a certificate or any other section alone loads no key.
pub proof fn lemma_single_section_keys(der: Seq<u8>)
    ensures
        private_keys_of(seq![PemSection::RSAKey(der)]) == seq![der],
        private_keys_of(seq![PemSection::PKCS8Key(der)]) == seq![der],
        private_keys_of(seq![PemSection::ECKey(der)]) == seq![der],
        private_keys_of(seq![PemSection::X509Certificate(der)]) == Seq::<Seq<u8>>::empty(),
        private_keys_of(seq![PemSection::Other]) == Seq::<Seq<u8>>::empty(),
{
    lemma_one_section(PemSection::RSAKey(der));
    lemma_one_section(PemSection::PKCS8Key(der));
    lemma_one_section(PemSection::ECKey(der));
    lemma_one_section(PemSection::X509Certificate(der));
    lemma_one_section(PemSection::Other);
}

/// Each certificate section gives exactly its DER contents, whatever its size
/// or contents, and a key or any other section alone loads no certificate.
pub proof fn lemma_single_section_certificates(der: Seq<u8>)
    ensures
        certificates_of(seq![PemSection::X509Certificate(der)]) == seq![der],
        certificates_of(seq![PemSection::RSAKey(der)]) == Seq::<Seq<u8>>::empty(),
        certificates_of(seq![PemSection::PKCS8Key(der)]) == Seq::<Seq<u8>>::empty(),
        certificates_of(seq![PemSection::ECKey(der)]) == Seq::<Seq<u8>>::empty(),
        certificates_of(seq![PemSection::Other]) == Seq::<Seq<u8>>::empty(),
{
    lemma_one_section(PemSection::X509Certificate(der));
    lemma_one_section(PemSection::RSAKey(der));
    lemma_one_section(PemSection::PKCS8Key(der));
    lemma_one_section(PemSection::ECKey(der));
    lemma_one_section(PemSection::Other);
}

proof fn lemma_one_section(item: PemSection)
    ensures
        private_keys_of(seq![item]) == private_key_der(item),
        certificates_of(seq![item]) == (match item {
            PemSection::X509Certificate(der) => seq![der],
            _ => Seq::<Seq<u8>>::empty(),
        }),
{
    let one = seq![item];
    assert(one.drop_first() =~= Seq::<PemSection>::empty());
    assert(private_keys_of(one.drop_first()) =~= Seq::<Seq<u8>>::empty());
    assert(certificates_of(one.drop_first()) =~= Seq::<Seq<u8>>::empty());
    assert(one[0] == item);
    assert(private_key_der(item) + Seq::<Seq<u8>>::empty() =~= private_key_der(item));
    match item {
        PemSection::X509Certificate(der) => {
            assert(seq![der] + Seq::<Seq<u8>>::empty() =~= seq![der]);
        },
        _ => {},
    }
}

/// A server-certificate check that accepts every certificate. It stands
/// behind the client's insecure TLS configuration, for testing against
/// servers with self-signed certificates.
pub struct NoCertificateVerification {}

impl NoCertificateVerification {
    /// Checks the server's certificate chain (end entity, intermediates,
    /// the name the client dialled and the stapled OCSP response): every
    /// chain is accepted.
    pub fn verify_server_cert(
        &self,
        end_entity: &[u8],
        intermediates: &[Vec<u8>],
        server_name: &str,
        ocsp_response: &[u8],
    ) -> (accepted: bool)
        ensures
            accepted,
    {
        true
    }
}

} // verus!
