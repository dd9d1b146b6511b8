//! The trust store of one cluster: the CA certificates that its file holds.
//!
//! The file's bytes are cut into PEM sections by `rustls`, and `rustls`
//! decides which certificate it takes as a trust anchor. What this module
//! adds is the policy: take every certificate that can be taken, count the
//! others, and warn of them without failing.

use crate::error::KubeError;
use rustls::pki_types::pem::PemObject;
use rustls::pki_types::CertificateDer;
use rustls::RootCertStore;
use vstd::prelude::*;
use vstd::string::StringExecFns;

verus! {

/// `rustls::RootCertStore`, the list of trust anchors that a TLS client
/// accepts as issuers.
#[verifier::external_type_specification]
#[verifier::external_body]
pub struct ExRootCertStore(RootCertStore);

/// A trust anchor as `rustls` keeps it: three byte strings cut out of a
/// certificate.
pub struct Anchor {
    pub subject: Seq<u8>,
    pub subject_public_key_info: Seq<u8>,
    pub name_constraints: Option<Seq<u8>>,
}

/// The trust anchors in `store`, in the order in which they were added: the
/// field `roots` of `rustls::RootCertStore`.
pub uninterp spec fn roots(store: RootCertStore) -> Seq<Anchor>;

/// What `CertificateDer::pem_slice_iter` of `rustls::pki_types` yields for
/// `pem`, item by item: the DER bytes of a certificate section, or `None`
/// where a section is broken.
pub uninterp spec fn pem_certificates(pem: Seq<u8>) -> Seq<Option<Seq<u8>>>;

/// The trust anchor that `rustls::RootCertStore::add` makes of the DER bytes
/// of a certificate, where it accepts them.
pub uninterp spec fn trust_anchor(certificate: Seq<u8>) -> Option<Anchor>;

/// `sections`, with the bytes of each as a sequence.
pub open spec fn section_bytes(sections: Seq<Option<Vec<u8>>>) -> Seq<Option<Seq<u8>>> {
    sections.map_values(
        |section: Option<Vec<u8>>|
            match section {
                Some(der) => Some(der@),
                None => None,
            },
    )
}

/// `rustls::RootCertStore::empty` makes a store without trust anchors.
pub assume_specification[ RootCertStore::empty ]() -> (store: RootCertStore)
    ensures
        roots(store) == Seq::<Anchor>::empty(),
;

/// `CertificateDer::pem_slice_iter`, run to its end. It walks the lines of
/// `pem` and yields every section labelled as a certificate, base64 decoded,
/// and an error for every section that is cut short, mislabelled or not
/// base64; other sections and loose lines are passed over. The items depend on
/// the bytes alone and are `pem_certificates` of them; an error comes back as
/// `None`.
#[verifier::external_body]
fn certificate_sections(pem: &[u8]) -> (sections: Vec<Option<Vec<u8>>>)
    ensures
        section_bytes(sections@) == pem_certificates(pem@),
{
    CertificateDer::pem_slice_iter(pem).map(|item| item.ok().map(|der| der.to_vec())).collect()
}

/// `rustls::RootCertStore::add`. It parses `certificate` as an X.509
/// certificate and, where that succeeds, appends the trust anchor cut out of
/// it to the store; where it fails the store stays as it was. Which of the two
/// happens, and the anchor, depend on the bytes alone. Returns whether the
/// certificate was added.
#[verifier::external_body]
fn add_certificate(store: &mut RootCertStore, certificate: &[u8]) -> (added: bool)
    ensures
        added == trust_anchor(certificate@) is Some,
        roots(*final(store)) == match trust_anchor(certificate@) {
            Some(anchor) => roots(*old(store)).push(anchor),
            None => roots(*old(store)),
        },
{
    store.add(CertificateDer::from(certificate)).is_ok()
}

/// The trust anchors of the sections that hold a certificate which `rustls`
/// accepts, in the order of the sections.
pub open spec fn accepted(sections: Seq<Option<Seq<u8>>>) -> Seq<Anchor>
    decreases sections.len(),
{
    if sections.len() == 0 {
        Seq::empty()
    } else {
        let front = accepted(sections.drop_last());
        match sections.last() {
            Some(certificate) => match trust_anchor(certificate) {
                Some(anchor) => front.push(anchor),
                None => front,
            },
            None => front,
        }
    }
}

/// The warning about a certificate file of which some part was not taken.
pub open spec fn warning_for(cert_path: Seq<char>) -> Seq<char> {
    "[WARNING] Couldn't add some certs from "@ + cert_path
}

/// The outcome of reading a file of CA certificates.
pub struct TrustStore {
    /// The store, holding every certificate of the file that could be taken.
    pub roots: RootCertStore,
    /// How many certificates were taken.
    pub added: usize,
    /// How many sections were broken or held no usable certificate.
    pub failed: usize,
    /// The warning, which names the file, if anything was not taken.
    pub warning: Option<String>,
}

impl TrustStore {
    /// Whether this is what the bytes `pem` of the file at `cert_path` come
    /// to: the store holds the accepted certificates' anchors and nothing
    /// else, every section is counted once, and there is a warning exactly if
    /// some section failed.
    pub open spec fn is_built_from(&self, cert_path: Seq<char>, pem: Seq<u8>) -> bool {
        &&& roots(self.roots) == accepted(pem_certificates(pem))
        &&& self.added == accepted(pem_certificates(pem)).len()
        &&& self.added + self.failed == pem_certificates(pem).len()
        &&& match self.warning {
            Some(text) => self.failed > 0 && text@ == warning_for(cert_path),
            None => self.failed == 0,
        }
    }

    /// Puts together the outcome of reading the file at `cert_path`, given the
    /// store that was filled and the two counts. That some sections failed is
    /// worth a warning and never an error, also where none succeeded.
    pub fn assemble(cert_path: &str, roots: RootCertStore, added: usize, failed: usize) -> (built:
        TrustStore)
        ensures
            built.roots == roots,
            built.added == added,
            built.failed == failed,
            match built.warning {
                Some(text) => failed > 0 && text@ == warning_for(cert_path@),
                None => failed == 0,
            },
    {
        let warning = if failed > 0 {
            Some(String::from_str("[WARNING] Couldn't add some certs from ").concat(cert_path))
        } else {
            None
        };
        TrustStore { roots, added, failed, warning }
    }

    /// Builds the trust store of a cluster from `pem`, the bytes of the
    /// certificate file at `cert_path`. Every PEM section that holds a usable
    /// certificate is added, in the file's order, to a store that starts
    /// empty; every other certificate section counts as failed.
    pub fn build(cert_path: &str, pem: &[u8]) -> (built: TrustStore)
        ensures
            built.is_built_from(cert_path@, pem@),
    {
        let sections = certificate_sections(pem);
        let mut roots = RootCertStore::empty();
        let mut added: usize = 0;
        let mut failed: usize = 0;
        let mut at: usize = 0;
        let ghost all = section_bytes(sections@);
        assert(all.take(0) == Seq::<Option<Seq<u8>>>::empty());
        while at < sections.len()
            invariant
                at <= sections.len(),
                all == section_bytes(sections@),
                crate::trust::roots(roots) == accepted(all.take(at as int)),
                added == accepted(all.take(at as int)).len(),
                added + failed == at,
            decreases sections.len() - at,
        {
            assert(all.take(at as int + 1).drop_last() == all.take(at as int));
            assert(all.take(at as int + 1).last() == all[at as int]);
            let taken = match &sections[at] {
                Some(certificate) => add_certificate(&mut roots, certificate.as_slice()),
                None => false,
            };
            if taken {
                added += 1;
            } else {
                failed += 1;
            }
            at += 1;
        }
        assert(all.take(at as int) == all);
        TrustStore::assemble(cert_path, roots, added, failed)
    }

    /// Builds the trust store of a cluster from what reading the certificate
    /// file at `cert_path` gave: its bytes, or the reason for which it could
    /// not be read. A file that cannot be read is a `CertificateLoad` error
    /// and no store is made; a file that was read always gives a store.
    pub fn load(cert_path: &str, file: Result<Vec<u8>, String>) -> (loaded: Result<
        TrustStore,
        KubeError,
    >)
        ensures
            match file {
                Ok(pem) => loaded matches Ok(built) && built.is_built_from(cert_path@, pem@),
                Err(reason) => loaded matches Err(KubeError::CertificateLoad(text)) && text
                    == reason,
            },
    {
        match file {
            Ok(pem) => Ok(TrustStore::build(cert_path, pem.as_slice())),
            Err(reason) => Err(KubeError::CertificateLoad(reason)),
        }
    }
}

} // verus!
