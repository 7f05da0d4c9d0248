use zkwasm::zksync_key::{lookup_setup_key, KeyCheckError, ZKSyncKey};

fn key_for(k: i32, monomial_md5: &str, lagrange_md5: &str) -> ZKSyncKey {
    ZKSyncKey {
        k,
        monomial_key_url: String::from("https://example.org/monomial.key"),
        monomial_key_md5: String::from(monomial_md5),
        lagrange_key_url: String::from("https://example.org/lagrange.key"),
        lagrange_key_md5: String::from(lagrange_md5),
    }
}

const MD5_OF_NOTHING: &str = "d41d8cd98f00b204e9800998ecf8427e";
const MD5_OF_EXAMPLE_DATA: &str = "5c71dbb287630d65ca93764c34d9aa0d";

#[test]
fn local_paths_hold_k_in_decimal() {
    let mut key = key_for(22, "", "");
    assert_eq!(key.get_local_monomial_path(), "./setup_2^22.key");
    assert_eq!(key.get_local_lagrange_path(), "./setup_2^22_lagrange.key");
    let mut key = key_for(0, "", "");
    assert_eq!(key.get_local_monomial_path(), "./setup_2^0.key");
    let mut key = key_for(-5, "", "");
    assert_eq!(key.get_local_monomial_path(), "./setup_2^-5.key");
    assert_eq!(key.get_local_lagrange_path(), "./setup_2^-5_lagrange.key");
    let mut key = key_for(i32::MIN, "", "");
    assert_eq!(key.get_local_lagrange_path(), "./setup_2^-2147483648_lagrange.key");
    let mut key = key_for(i32::MAX, "", "");
    assert_eq!(key.get_local_monomial_path(), "./setup_2^2147483647.key");
}

#[test]
fn asking_for_a_path_leaves_the_key_as_it_was() {
    let mut key = key_for(23, "a", "b");
    let _ = key.get_local_monomial_path();
    let _ = key.get_local_lagrange_path();
    assert_eq!(key.k, 23);
    assert_eq!(key.monomial_key_md5, "a");
    assert_eq!(key.lagrange_key_md5, "b");
}

#[test]
fn keys_are_registered_for_22_and_23() {
    let key = lookup_setup_key(22).expect("registered");
    assert_eq!(key.k, 22);
    assert_eq!(
        key.monomial_key_url,
        "https://storage.googleapis.com/universal-setup/setup_2%5E22.key"
    );
    assert_eq!(key.monomial_key_md5, "4a337eff33368320b579a0319485170f");
    assert_eq!(
        key.lagrange_key_url,
        "https://storage.googleapis.com/universal-setup/setup_2%5E22_lagrange.key"
    );
    assert_eq!(key.lagrange_key_md5, "c651928e884b8f1b02f970bba0287013");
    let key = lookup_setup_key(23).expect("registered");
    assert_eq!(key.k, 23);
    assert_eq!(
        key.monomial_key_url,
        "https://storage.googleapis.com/universal-setup/setup_2%5E23.key"
    );
    assert_eq!(key.monomial_key_md5, "e47ade70fa43b1448f726e3e41beb1b8");
    assert_eq!(
        key.lagrange_key_url,
        "https://storage.googleapis.com/universal-setup/setup_2%5E23_lagrange.key"
    );
    assert_eq!(key.lagrange_key_md5, "8f9442445de62f4bc37f86d8c15ba390");
}

#[test]
fn no_key_is_registered_for_another_size() {
    for k in [0u32, 1, 21, 24, 100, u32::MAX] {
        assert!(lookup_setup_key(k).is_none());
    }
}

#[test]
fn a_digest_is_accepted_only_as_the_same_text() {
    let key = key_for(22, MD5_OF_NOTHING, MD5_OF_EXAMPLE_DATA);
    assert_eq!(key.judge_monomial_digest(String::from(MD5_OF_NOTHING)), Ok(()));
    assert_eq!(key.judge_lagrange_digest(String::from(MD5_OF_EXAMPLE_DATA)), Ok(()));
    assert_eq!(
        key.judge_monomial_digest(String::from(MD5_OF_EXAMPLE_DATA)),
        Err(KeyCheckError::MonomialChecksumMismatch(String::from(MD5_OF_EXAMPLE_DATA)))
    );
    assert_eq!(
        key.judge_lagrange_digest(String::from(MD5_OF_NOTHING)),
        Err(KeyCheckError::LagrangeChecksumMismatch(String::from(MD5_OF_NOTHING)))
    );
    assert_eq!(
        key.judge_monomial_digest(MD5_OF_NOTHING.to_uppercase()),
        Err(KeyCheckError::MonomialChecksumMismatch(MD5_OF_NOTHING.to_uppercase()))
    );
    assert_eq!(
        key.judge_lagrange_digest(String::new()),
        Err(KeyCheckError::LagrangeChecksumMismatch(String::new()))
    );
}

#[test]
fn content_with_the_registered_checksum_is_accepted() {
    let mut key = key_for(22, MD5_OF_EXAMPLE_DATA, MD5_OF_NOTHING);
    assert_eq!(key.check_monomial(b"example data"), Ok(()));
    assert_eq!(key.check_lagrange(b""), Ok(()));
    assert_eq!(key.check_setup_key_file(b"example data", b""), Ok(()));
}

#[test]
fn content_with_another_checksum_is_refused_with_its_digest() {
    let mut key = key_for(22, MD5_OF_EXAMPLE_DATA, MD5_OF_NOTHING);
    assert_eq!(
        key.check_monomial(b""),
        Err(KeyCheckError::MonomialChecksumMismatch(String::from(MD5_OF_NOTHING)))
    );
    assert_eq!(
        key.check_lagrange(b"example data"),
        Err(KeyCheckError::LagrangeChecksumMismatch(String::from(MD5_OF_EXAMPLE_DATA)))
    );
}

#[test]
fn the_monomial_key_is_checked_first() {
    let mut key = key_for(22, MD5_OF_EXAMPLE_DATA, MD5_OF_NOTHING);
    assert_eq!(
        key.check_setup_key_file(b"", b"example data"),
        Err(KeyCheckError::MonomialChecksumMismatch(String::from(MD5_OF_NOTHING)))
    );
    assert_eq!(
        key.check_setup_key_file(b"example data", b"example data"),
        Err(KeyCheckError::LagrangeChecksumMismatch(String::from(MD5_OF_EXAMPLE_DATA)))
    );
}

#[test]
fn a_registered_key_refuses_content_that_is_not_the_key() {
    let mut key = lookup_setup_key(23).expect("registered");
    assert_eq!(
        key.check_setup_key_file(b"example data", b""),
        Err(KeyCheckError::MonomialChecksumMismatch(String::from(MD5_OF_EXAMPLE_DATA)))
    );
}
