use kube_client::error::KubeError;
use kube_client::kluster::Kluster;
use kube_client::trust::TrustStore;

const VALID: &str = "-----BEGIN CERTIFICATE-----
MIIBgjCCASegAwIBAgIUFpdIgPiMNcCMxm6wPWpdgxLsS60wCgYIKoZIzj0EAwIw
FTETMBEGA1UEAwwKY2x1c3Rlci1jYTAgFw0yNjEwMjgwMTA5NDFaGA8yMTI2MTAw
NDAxMDk0MVowFTETMBEGA1UEAwwKY2x1c3Rlci1jYTBZMBMGByqGSM49AgEGCCqG
SM49AwEHA0IABM5fWDG5nDNg9xjnYA4bYXdR3RrNE+fFi7oh367l9AIvg8evaVJc
3m+FRY6ZyKrbzNpI17q2Ru8uRM8MzpZt8gyjUzBRMB0GA1UdDgQWBBSxHga/HI91
4flH8E8lKFpE3OGBkzAfBgNVHSMEGDAWgBSxHga/HI914flH8E8lKFpE3OGBkzAP
BgNVHRMBAf8EBTADAQH/MAoGCCqGSM49BAMCA0kAMEYCIQC5/60Stl9tQnJNHQK6
SdxwzwBpMKWcd7+QARNFCLaoKAIhAMS1Rw8OKj7VvsbxVSY/dfUPZR3d65nu8g6n
S9SLJA+h
-----END CERTIFICATE-----
";

const NOT_A_CERTIFICATE: &str = "-----BEGIN CERTIFICATE-----
MAMCAQU=
-----END CERTIFICATE-----
";

const NOT_BASE64: &str = "-----BEGIN CERTIFICATE-----
MIIB!!!!gjCCASegAw
-----END CERTIFICATE-----
";

const OTHER_SECTION: &str = "-----BEGIN X509 CRL-----
MAMCAQU=
-----END X509 CRL-----
";

#[test]
fn one_certificate_is_added_without_warning() {
    let built = TrustStore::build("/etc/kube/ca.pem", VALID.as_bytes());
    assert_eq!(built.added, 1);
    assert_eq!(built.failed, 0);
    assert_eq!(built.warning, None);
    assert_eq!(built.roots.len(), 1);
    assert_eq!(built.roots.subjects().len(), 1);
}

#[test]
fn valid_and_corrupted_block_give_one_warning() {
    let pem = format!("{}{}", VALID, NOT_A_CERTIFICATE);
    let built = TrustStore::build("/etc/kube/ca.pem", pem.as_bytes());
    assert_eq!(built.added, 1);
    assert_eq!(built.failed, 1);
    assert_eq!(built.roots.len(), 1);
    assert_eq!(
        built.warning,
        Some("[WARNING] Couldn't add some certs from /etc/kube/ca.pem".to_string())
    );
    let alone = TrustStore::build("/etc/kube/ca.pem", VALID.as_bytes());
    assert_eq!(built.roots.roots, alone.roots.roots);
}

#[test]
fn block_that_is_not_base64_counts_as_failed() {
    let pem = format!("{}{}", NOT_BASE64, VALID);
    let built = TrustStore::build("ca.pem", pem.as_bytes());
    assert_eq!(built.added, 1);
    assert_eq!(built.failed, 1);
    assert_eq!(built.warning, Some("[WARNING] Couldn't add some certs from ca.pem".to_string()));
}

#[test]
fn certificates_are_added_in_order_and_each_time() {
    let pem = format!("{}\n{}{}{}", VALID, NOT_A_CERTIFICATE, VALID, VALID);
    let built = TrustStore::build("ca.pem", pem.as_bytes());
    assert_eq!(built.added, 3);
    assert_eq!(built.failed, 1);
    assert_eq!(built.roots.len(), 3);
    assert_eq!(built.roots.roots[0], built.roots.roots[2]);
}

#[test]
fn no_usable_certificate_is_no_error() {
    let built = TrustStore::build("ca.pem", NOT_A_CERTIFICATE.as_bytes());
    assert_eq!(built.added, 0);
    assert_eq!(built.failed, 1);
    assert!(built.roots.is_empty());
    assert_eq!(built.warning, Some("[WARNING] Couldn't add some certs from ca.pem".to_string()));
}

#[test]
fn empty_file_gives_an_empty_store_and_no_warning() {
    for pem in ["", "\n\n", "no pem here\n", OTHER_SECTION] {
        let built = TrustStore::build("ca.pem", pem.as_bytes());
        assert_eq!(built.added, 0);
        assert_eq!(built.failed, 0);
        assert!(built.roots.is_empty());
        assert_eq!(built.warning, None);
    }
}

#[test]
fn section_cut_short_counts_as_failed() {
    let cut = &VALID[..VALID.len() - 30];
    let built = TrustStore::build("ca.pem", cut.as_bytes());
    assert_eq!(built.added, 0);
    assert_eq!(built.failed, 1);
    assert!(built.warning.is_some());
}

#[test]
fn assemble_warns_exactly_when_something_failed() {
    let roots = TrustStore::build("x", b"").roots;
    let built = TrustStore::assemble("a/b.pem", roots, 2, 0);
    assert_eq!((built.added, built.failed), (2, 0));
    assert_eq!(built.warning, None);
    let roots = TrustStore::build("x", b"").roots;
    let built = TrustStore::assemble("a/b.pem", roots, 0, 5);
    assert_eq!((built.added, built.failed), (0, 5));
    assert_eq!(built.warning, Some("[WARNING] Couldn't add some certs from a/b.pem".to_string()));
}

#[test]
fn unreadable_file_is_a_certificate_load_error() {
    let loaded = TrustStore::load("/no/such/ca.pem", Err("No such file or directory".to_string()));
    match loaded.err() {
        Some(KubeError::CertificateLoad(why)) => assert_eq!(why, "No such file or directory"),
        other => panic!("not a load error: {:?}", other),
    }
}

#[test]
fn readable_file_is_loaded() {
    let loaded = TrustStore::load("ca.pem", Ok(VALID.as_bytes().to_vec()));
    let built = loaded.ok().unwrap();
    assert_eq!((built.added, built.failed), (1, 0));
    assert_eq!(built.roots.len(), 1);
}

#[test]
fn cluster_builds_its_store_from_its_own_file() {
    let kluster = Kluster::new("dev", "/etc/kube/ca.pem", "https://k8s.example", "t").unwrap();
    let pem = format!("{}{}", NOT_A_CERTIFICATE, VALID);
    let built = kluster.trust_store(Ok(pem.into_bytes())).ok().unwrap();
    assert_eq!((built.added, built.failed), (1, 1));
    assert_eq!(
        built.warning,
        Some("[WARNING] Couldn't add some certs from /etc/kube/ca.pem".to_string())
    );
    let failed = kluster.trust_store(Err("permission denied".to_string()));
    assert!(matches!(failed.err(), Some(KubeError::CertificateLoad(why)) if why == "permission denied"));
}

#[test]
fn open_judges_the_address_before_the_file() {
    let opened = Kluster::open("dev", "ca.pem", "not a url", "t", Err("no such file".to_string()));
    assert!(matches!(opened.err(), Some(KubeError::UrlParse(_))));
    let opened = Kluster::open("dev", "ca.pem", "not a url", "t", Ok(VALID.as_bytes().to_vec()));
    assert!(matches!(opened.err(), Some(KubeError::UrlParse(_))));
}

#[test]
fn open_without_the_file_makes_nothing() {
    let opened = Kluster::open(
        "dev",
        "/no/such/ca.pem",
        "https://k8s.example",
        "t",
        Err("No such file or directory".to_string()),
    );
    match opened.err() {
        Some(KubeError::CertificateLoad(why)) => assert_eq!(why, "No such file or directory"),
        other => panic!("not a load error: {:?}", other),
    }
}

#[test]
fn open_makes_cluster_and_store() {
    let pem = format!("{}{}", VALID, NOT_A_CERTIFICATE);
    let opened = Kluster::open("dev", "/etc/kube/ca.pem", "https://k8s.example", "tok", Ok(pem.into_bytes()));
    let (kluster, trust) = opened.ok().unwrap();
    assert_eq!(kluster.name, "dev");
    let request = kluster.send_req("/api").unwrap();
    assert_eq!(request.url.as_str(), "https://k8s.example/api");
    assert_eq!(request.authorization, "Bearer tok");
    assert_eq!((trust.added, trust.failed), (1, 1));
    assert_eq!(trust.roots.len(), 1);
    assert_eq!(
        trust.warning,
        Some("[WARNING] Couldn't add some certs from /etc/kube/ca.pem".to_string())
    );
}
