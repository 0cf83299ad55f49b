//! Verification of client certificates.
use vstd::prelude::*;
use std::sync::Arc;
use std::time::SystemTime;
use crate::anchors;
use crate::anchors::DistinguishedName;
use crate::anchors::RootCertStore;
use crate::anchors::trust_roots;
use crate::enums::SignatureScheme;
use crate::error::TlsError;
use crate::handshake;
use crate::handshake::supported_sig_algs;
use crate::handshake::verify_signed_struct;
use crate::handshake::verify_tls13;
use crate::key;
use crate::key::Certificate;
use crate::key::ParsedCertificate;
use crate::markers;
use crate::markers::ClientCertVerified;
use crate::markers::HandshakeSignatureValid;
use crate::pki;
use crate::pki::TrustAnchorView;
use crate::pki_error;
use crate::server;
use crate::server::WebPkiVerifier;
use crate::server::intermediate_chain;
use crate::signed_struct::DigitallySignedStruct;

verus! {

/// Whether the client certificate `cert` parses, and chains to one of `anchors`
/// at `now`, and may be used by a client; and what is reported otherwise.
pub open spec fn client_cert_verdict(
    cert: Seq<u8>,
    anchors: Seq<TrustAnchorView>,
    intermediates: Seq<Seq<u8>>,
    now: SystemTime,
) -> Result<(), TlsError> {
    if key::parse_verdict(cert) is Err {
        key::parse_verdict(cert)
    } else {
        match pki::unix_seconds(now) {
            None => Err(TlsError::FailedToGetCurrentTime),
            Some(time) => pki_error::reported(
                pki_error::classified(
                    pki::client_chain_check(
                        cert,
                        handshake::supported_algorithms(),
                        anchors,
                        intermediates,
                        time,
                    ),
                ),
            ),
        }
    }
}

/// The DER-encoded distinguished names of `anchors`, in order.
pub open spec fn subject_names(anchors: Seq<TrustAnchorView>) -> Seq<Seq<u8>> {
    anchors.map_values(|anchor: TrustAnchorView| anchors::der_sequence(anchor.subject))
}

/// The encodings of a list of distinguished names.
pub open spec fn name_encodings(names: Seq<DistinguishedName>) -> Seq<Seq<u8>> {
    names.map_values(|name: DistinguishedName| name@)
}

/// Something that can verify a client certificate chain.
///
/// A verifier that does not offer client authentication need not be able to
/// verify client certificates.  Before asking it for that, a caller has to know
/// that it is able to, or to see it offer client authentication.
pub trait ClientCertVerifier: Send + Sync {
    /// Whether this verifier is able to verify client certificates.
    open spec fn verifies_clients(&self) -> bool {
        true
    }

    /// Returns `true` to enable the server to request a client certificate and
    /// `false` to skip requesting a client certificate. Defaults to `true`.
    fn offer_client_auth(&self) -> (offered: bool)
        default_ensures
            offered,
    {
        true
    }

    /// Return `true` to require a client certificate and `false` to make
    /// client authentication optional.
    /// Defaults to `self.offer_client_auth()`.
    fn client_auth_mandatory(&self) -> (mandatory: bool)
        default_ensures
            call_ensures(Self::offer_client_auth, (self,), mandatory),
    {
        self.offer_client_auth()
    }

    /// Returns the Subjects of the client authentication trust anchors to
    /// share with the client when requesting client authentication.
    ///
    /// These must be DER-encoded X.500 distinguished names, per RFC 5280.
    /// They are sent in the `certificate_authorities` extension of a
    /// `CertificateRequest` message.
    ///
    /// If the return value is empty, no CertificateRequest message will be sent.
    fn client_auth_root_subjects(&self) -> (subjects: &[DistinguishedName])
        requires
            self.verifies_clients() || call_ensures(Self::offer_client_auth, (self,), true),
    ;

    /// Verify the end-entity certificate `end_entity` is valid, acceptable,
    /// and chains to at least one of the trust anchors trusted by
    /// this verifier.
    ///
    /// `intermediates` contains the intermediate certificates the
    /// client sent along with the end-entity certificate; it is in the same
    /// order that the peer sent them and may be empty.
    ///
    /// Note that none of the certificates have been parsed yet, so it is the
    /// responsibility of the implementor to handle invalid data. It is
    /// recommended that the implementor returns an `InvalidCertificate` error
    /// with `BadEncoding` when these cases are encountered.
    fn verify_client_cert(
        &self,
        end_entity: &Certificate,
        intermediates: &[Certificate],
        now: SystemTime,
    ) -> (result: Result<ClientCertVerified, TlsError>)
        requires
            self.verifies_clients() || call_ensures(Self::offer_client_auth, (self,), true),
    ;

    /// Verify a signature allegedly by the given client certificate.
    ///
    /// `message` is not hashed, and needs hashing during the verification.
    /// The signature and algorithm are within `dss`.  `cert` contains the
    /// public key to use.
    ///
    /// `cert` has already been validated by
    /// [`ClientCertVerifier::verify_client_cert`].
    ///
    /// If and only if the signature is valid, return
    /// `Ok(HandshakeSignatureValid)`.  Otherwise, return an error.
    ///
    /// This method is only called for TLS1.2 handshakes.  Note that, in TLS1.2,
    /// SignatureSchemes such as `SignatureScheme::ECDSA_NISTP256_SHA256` are not
    /// in fact bound to the specific curve implied in their name.
    fn verify_tls12_signature(
        &self,
        message: &[u8],
        cert: &Certificate,
        dss: &DigitallySignedStruct,
    ) -> (result: Result<HandshakeSignatureValid, TlsError>)
        default_ensures
            markers::verdict(result) == handshake::tls12_verdict(
                message@,
                cert@,
                dss.scheme,
                dss.sig_bytes(),
            ),
    {
        verify_signed_struct(message, cert, dss)
    }

    /// Verify a signature allegedly by the given client certificate.
    ///
    /// This method is only called for TLS1.3 handshakes.
    ///
    /// This method is very similar to `verify_tls12_signature`, but note the
    /// tighter ECDSA SignatureScheme semantics in TLS 1.3. For example,
    /// `SignatureScheme::ECDSA_NISTP256_SHA256` must only validate signatures
    /// using public keys on the right curve.
    fn verify_tls13_signature(
        &self,
        message: &[u8],
        cert: &Certificate,
        dss: &DigitallySignedStruct,
    ) -> (result: Result<HandshakeSignatureValid, TlsError>)
        default_ensures
            markers::verdict(result) == handshake::tls13_verdict(
                message@,
                cert@,
                dss.scheme,
                dss.sig_bytes(),
            ),
    {
        verify_tls13(message, cert, dss)
    }

    /// Return the list of SignatureSchemes that this verifier will handle,
    /// in `verify_tls12_signature` and `verify_tls13_signature` calls.
    ///
    /// This should be in priority order, with the most preferred first.
    fn supported_verify_schemes(&self) -> (schemes: Vec<SignatureScheme>)
        default_ensures
            schemes@ == server::verification_scheme_list(),
    {
        WebPkiVerifier::verification_schemes()
    }
}

/// A `ClientCertVerifier` of any type, which its users share.
pub struct SharedClientVerifier {
    /// The verifier.
    pub verifier: Arc<dyn ClientCertVerifier>,
}

/// Whether `other` acts as `verifier` does: each method, called on `other`,
/// gives what it may give on `verifier`.
pub open spec fn acts_as<O: ClientCertVerifier + ?Sized, V: ClientCertVerifier + ?Sized>(
    other: &O,
    verifier: &V,
) -> bool {
    &&& other.verifies_clients() == verifier.verifies_clients()
    &&& forall|r: bool| #[trigger]
        call_ensures(O::offer_client_auth, (other,), r) ==> call_ensures(
            V::offer_client_auth,
            (verifier,),
            r,
        )
    &&& forall|r: bool| #[trigger]
        call_ensures(O::client_auth_mandatory, (other,), r) ==> call_ensures(
            V::client_auth_mandatory,
            (verifier,),
            r,
        )
    &&& forall|r: &[DistinguishedName]| #[trigger]
        call_ensures(O::client_auth_root_subjects, (other,), r) ==> call_ensures(
            V::client_auth_root_subjects,
            (verifier,),
            r,
        )
    &&& forall|
        end_entity: &Certificate,
        intermediates: &[Certificate],
        now: SystemTime,
        r: Result<ClientCertVerified, TlsError>,
    | #[trigger]
        call_ensures(O::verify_client_cert, (other, end_entity, intermediates, now), r)
            ==> call_ensures(V::verify_client_cert, (verifier, end_entity, intermediates, now), r)
    &&& forall|
        message: &[u8],
        cert: &Certificate,
        dss: &DigitallySignedStruct,
        r: Result<HandshakeSignatureValid, TlsError>,
    | #[trigger]
        call_ensures(O::verify_tls12_signature, (other, message, cert, dss), r) ==> call_ensures(
            V::verify_tls12_signature,
            (verifier, message, cert, dss),
            r,
        )
    &&& forall|
        message: &[u8],
        cert: &Certificate,
        dss: &DigitallySignedStruct,
        r: Result<HandshakeSignatureValid, TlsError>,
    | #[trigger]
        call_ensures(O::verify_tls13_signature, (other, message, cert, dss), r) ==> call_ensures(
            V::verify_tls13_signature,
            (verifier, message, cert, dss),
            r,
        )
    &&& forall|r: Vec<SignatureScheme>| #[trigger]
        call_ensures(O::supported_verify_schemes, (other,), r) ==> call_ensures(
            V::supported_verify_schemes,
            (verifier,),
            r,
        )
}

/// `std::sync::Arc`'s conversion from a box, with the verifier's type forgotten
/// on the way.
///
/// Assumed: a method call on the shared verifier is a call of that method of the
/// verifier that was put in.
#[verifier::external_body]
fn share<V: ClientCertVerifier + 'static>(verifier: Box<V>) -> (shared: SharedClientVerifier)
    ensures
        acts_as(&*shared.verifier, &*verifier),
{
    let boxed: Box<dyn ClientCertVerifier> = verifier;
    SharedClientVerifier { verifier: Arc::from(boxed) }
}

/// A `ClientCertVerifier` that will ensure that every client provides a trusted
/// certificate, without any name checking.
pub struct AllowAnyAuthenticatedClient {
    roots: RootCertStore,
    subjects: Vec<DistinguishedName>,
}

impl View for AllowAnyAuthenticatedClient {
    type V = Seq<TrustAnchorView>;

    /// The trust anchors that client certs may be issued by.
    closed spec fn view(&self) -> Seq<TrustAnchorView> {
        self.roots@
    }
}

impl AllowAnyAuthenticatedClient {
    /// The subjects are those of the trust anchors.
    #[verifier::type_invariant]
    spec fn well_formed(&self) -> bool {
        name_encodings(self.subjects@) == subject_names(self.roots@)
    }

    /// Construct a new `AllowAnyAuthenticatedClient`.
    ///
    /// `roots` is the list of trust anchors to use for certificate validation.
    pub fn new(roots: RootCertStore) -> (verifier: Self)
        ensures
            verifier@ == roots@,
    {
        let mut subjects: Vec<DistinguishedName> = Vec::new();
        for i in 0..roots.roots.len()
            invariant
                name_encodings(subjects@) == subject_names(roots@.take(i as int)),
        {
            let ghost before = subjects@;
            subjects.push(roots.roots[i].subject().clone());
            assert(name_encodings(subjects@) =~= name_encodings(before).push(
                anchors::der_sequence(roots@[i as int].subject),
            ));
            assert(subject_names(roots@.take(i + 1)) =~= subject_names(roots@.take(i as int)).push(
                anchors::der_sequence(roots@[i as int].subject),
            ));
        }
        assert(roots@.take(roots.roots.len() as int) =~= roots@);
        AllowAnyAuthenticatedClient { roots, subjects }
    }

    /// Wrap this verifier in an [`Arc`], with its type forgotten.
    pub fn boxed(self) -> (shared: SharedClientVerifier)
        ensures
            acts_as(&*shared.verifier, &self),
    {
        share(Box::new(self))
    }
}

impl ClientCertVerifier for AllowAnyAuthenticatedClient {
    fn offer_client_auth(&self) -> (offered: bool)
        ensures
            offered,
    {
        true
    }

    fn client_auth_root_subjects(&self) -> (subjects: &[DistinguishedName])
        ensures
            name_encodings(subjects@) == subject_names(self@),
            subjects@.len() == self@.len(),
            forall|i: int|
                0 <= i < self@.len() ==> (#[trigger] subjects@[i]).0@ == anchors::der_sequence(
                    self@[i].subject,
                ),
    {
        proof {
            use_type_invariant(self);
            let named = name_encodings(self.subjects@);
            let wanted = subject_names(self@);
            assert(named.len() == wanted.len());
            assert forall|i: int| 0 <= i < self@.len() implies (#[trigger] self.subjects@[i]).0@
                == anchors::der_sequence(self@[i].subject) by {
                assert(named[i] == wanted[i]);
            }
        }
        self.subjects.as_slice()
    }

    fn verify_client_cert(
        &self,
        end_entity: &Certificate,
        intermediates: &[Certificate],
        now: SystemTime,
    ) -> (result: Result<ClientCertVerified, TlsError>)
        ensures
            markers::verdict(result) == client_cert_verdict(
                end_entity@,
                self@,
                key::encodings(intermediates@),
                now,
            ),
            self@.len() == 0 ==> result is Err,
    {
        let cert = match ParsedCertificate::try_from(end_entity) {
            Ok(cert) => cert,
            Err(error) => return Err(error),
        };
        let chain = intermediate_chain(intermediates);
        let trust_roots = trust_roots(&self.roots);
        let now = match webpki::Time::try_from(now) {
            Ok(time) => time,
            Err(_) => return Err(TlsError::FailedToGetCurrentTime),
        };
        let algorithms = supported_sig_algs();
        let outcome = pki::verify_client_chain(
            &cert.0,
            algorithms.as_slice(),
            trust_roots.as_slice(),
            chain.as_slice(),
            now,
        );
        match pki_error::pki_outcome(pki_error::classify_outcome(outcome)) {
            Ok(()) => Ok(ClientCertVerified::assertion()),
            Err(error) => Err(error),
        }
    }
}

/// A `ClientCertVerifier` that will allow both anonymous and authenticated
/// clients, without any name checking.
///
/// Client authentication will be requested during the TLS handshake. If the
/// client offers a certificate then this acts like
/// `AllowAnyAuthenticatedClient`, otherwise this acts like `NoClientAuth`.
pub struct AllowAnyAnonymousOrAuthenticatedClient {
    inner: AllowAnyAuthenticatedClient,
}

impl View for AllowAnyAnonymousOrAuthenticatedClient {
    type V = Seq<TrustAnchorView>;

    /// The trust anchors that client certs may be issued by.
    closed spec fn view(&self) -> Seq<TrustAnchorView> {
        self.inner@
    }
}

impl AllowAnyAnonymousOrAuthenticatedClient {
    /// Construct a new `AllowAnyAnonymousOrAuthenticatedClient`.
    ///
    /// `roots` is the list of trust anchors to use for certificate validation.
    pub fn new(roots: RootCertStore) -> (verifier: Self)
        ensures
            verifier@ == roots@,
    {
        AllowAnyAnonymousOrAuthenticatedClient { inner: AllowAnyAuthenticatedClient::new(roots) }
    }

    /// Wrap this verifier in an [`Arc`], with its type forgotten.
    pub fn boxed(self) -> (shared: SharedClientVerifier)
        ensures
            acts_as(&*shared.verifier, &self),
    {
        share(Box::new(self))
    }
}

impl ClientCertVerifier for AllowAnyAnonymousOrAuthenticatedClient {
    fn offer_client_auth(&self) -> (offered: bool)
        ensures
            offered,
    {
        self.inner.offer_client_auth()
    }

    fn client_auth_mandatory(&self) -> (mandatory: bool)
        ensures
            !mandatory,
    {
        false
    }

    fn client_auth_root_subjects(&self) -> (subjects: &[DistinguishedName])
        ensures
            name_encodings(subjects@) == subject_names(self@),
            subjects@.len() == self@.len(),
            forall|i: int|
                0 <= i < self@.len() ==> (#[trigger] subjects@[i]).0@ == anchors::der_sequence(
                    self@[i].subject,
                ),
    {
        self.inner.client_auth_root_subjects()
    }

    fn verify_client_cert(
        &self,
        end_entity: &Certificate,
        intermediates: &[Certificate],
        now: SystemTime,
    ) -> (result: Result<ClientCertVerified, TlsError>)
        ensures
            markers::verdict(result) == client_cert_verdict(
                end_entity@,
                self@,
                key::encodings(intermediates@),
                now,
            ),
            self@.len() == 0 ==> result is Err,
    {
        self.inner.verify_client_cert(end_entity, intermediates, now)
    }
}

/// Turns off client authentication.
pub struct NoClientAuth;

impl NoClientAuth {
    /// Construct a [`NoClientAuth`], and wrap it in an [`Arc`], with its type
    /// forgotten.
    pub fn boxed() -> (shared: SharedClientVerifier)
        ensures
            acts_as(&*shared.verifier, &NoClientAuth),
    {
        share(Box::new(NoClientAuth))
    }
}

impl ClientCertVerifier for NoClientAuth {
    open spec fn verifies_clients(&self) -> bool {
        false
    }

    fn offer_client_auth(&self) -> (offered: bool)
        ensures
            !offered,
    {
        false
    }

    /// Never called: nothing is asked of clients.
    fn client_auth_root_subjects(&self) -> (subjects: &[DistinguishedName]) {
        vstd::pervasive::unreached()
    }

    /// Never called: no client certificate is asked for.
    fn verify_client_cert(
        &self,
        _end_entity: &Certificate,
        _intermediates: &[Certificate],
        _now: SystemTime,
    ) -> (result: Result<ClientCertVerified, TlsError>) {
        vstd::pervasive::unreached()
    }
}

/// On a client that sends a certificate, a verifier that allows anonymous
/// clients acts like one that does not: with the same trust anchors, the two
/// come to the same verdict and name the same subjects.
pub proof fn lemma_authenticated_clients_are_treated_alike(
    optional: AllowAnyAnonymousOrAuthenticatedClient,
    mandatory: AllowAnyAuthenticatedClient,
    end_entity: &Certificate,
    intermediates: &[Certificate],
    now: SystemTime,
    optional_result: Result<ClientCertVerified, TlsError>,
    mandatory_result: Result<ClientCertVerified, TlsError>,
    optional_subjects: &[DistinguishedName],
    mandatory_subjects: &[DistinguishedName],
)
    requires
        optional@ == mandatory@,
        call_ensures(
            AllowAnyAnonymousOrAuthenticatedClient::verify_client_cert,
            (&optional, end_entity, intermediates, now),
            optional_result,
        ),
        call_ensures(
            AllowAnyAuthenticatedClient::verify_client_cert,
            (&mandatory, end_entity, intermediates, now),
            mandatory_result,
        ),
        call_ensures(
            AllowAnyAnonymousOrAuthenticatedClient::client_auth_root_subjects,
            (&optional,),
            optional_subjects,
        ),
        call_ensures(
            AllowAnyAuthenticatedClient::client_auth_root_subjects,
            (&mandatory,),
            mandatory_subjects,
        ),
    ensures
        markers::verdict(optional_result) == markers::verdict(mandatory_result),
        name_encodings(optional_subjects@) == name_encodings(mandatory_subjects@),
{
}

/// A client that sends no certificate is let in by a verifier that allows
/// anonymous clients exactly as by one that turns client authentication off,
/// and not by one that demands authentication.
pub proof fn lemma_anonymous_clients(
    optional: AllowAnyAnonymousOrAuthenticatedClient,
    mandatory: AllowAnyAuthenticatedClient,
    off: NoClientAuth,
    optional_demands: bool,
    mandatory_demands: bool,
    off_demands: bool,
)
    requires
        call_ensures(
            AllowAnyAnonymousOrAuthenticatedClient::client_auth_mandatory,
            (&optional,),
            optional_demands,
        ),
        call_ensures(
            AllowAnyAuthenticatedClient::client_auth_mandatory,
            (&mandatory,),
            mandatory_demands,
        ),
        call_ensures(NoClientAuth::client_auth_mandatory, (&off,), off_demands),
    ensures
        optional_demands == off_demands,
        optional_demands != mandatory_demands,
        mandatory_demands,
{
}

/// A client certificate is accepted if and only if it parses, the time is not
/// before the epoch, and the certificate chains to a trust anchor.
pub proof fn lemma_client_cert_accepted_iff(
    cert: Seq<u8>,
    anchors: Seq<TrustAnchorView>,
    intermediates: Seq<Seq<u8>>,
    now: SystemTime,
)
    ensures
        client_cert_verdict(cert, anchors, intermediates, now) is Ok <==> {
            &&& pki::end_entity_parse(cert) is Ok
            &&& pki::unix_seconds(now) matches Some(time)
            &&& pki::client_chain_check(
                cert,
                handshake::supported_algorithms(),
                anchors,
                intermediates,
                time,
            ) is Ok
        },
{
}

/// Rejecting a client certificate is never blamed on the protocol; the clock is
/// to blame if and only if it stands before the epoch and the certificate
/// parses.
pub proof fn lemma_client_cert_errors(
    cert: Seq<u8>,
    anchors: Seq<TrustAnchorView>,
    intermediates: Seq<Seq<u8>>,
    now: SystemTime,
)
    ensures
        client_cert_verdict(cert, anchors, intermediates, now) matches Err(error) ==> {
            ||| error is InvalidCertificate
            ||| error == TlsError::FailedToGetCurrentTime
        },
        client_cert_verdict(cert, anchors, intermediates, now) == Err::<(), _>(
            TlsError::FailedToGetCurrentTime,
        ) <==> pki::end_entity_parse(cert) is Ok && pki::unix_seconds(now) is None,
{
}

} // verus!
