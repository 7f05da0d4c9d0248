//! The universal setup keys: where each one is published, where its local
//! copy lies, and the checksum that the copy must have.

use crate::decimal::{i32_to_decimal, int_decimal};
use vstd::prelude::*;
use vstd::string::*;

verus! {

/// Where the monomial key for `k = 22` is published.
pub const MONOMIAL_KEY_URL_22: &'static str =
    "https://storage.googleapis.com/universal-setup/setup_2%5E22.key";

/// The MD5 digest of the monomial key for `k = 22`.
pub const MONOMIAL_KEY_MD5_22: &'static str = "4a337eff33368320b579a0319485170f";

/// Where the Lagrange key for `k = 22` is published.
pub const LAGRANGE_KEY_URL_22: &'static str =
    "https://storage.googleapis.com/universal-setup/setup_2%5E22_lagrange.key";

/// The MD5 digest of the Lagrange key for `k = 22`.
pub const LAGRANGE_KEY_MD5_22: &'static str = "c651928e884b8f1b02f970bba0287013";

/// Where the monomial key for `k = 23` is published.
pub const MONOMIAL_KEY_URL_23: &'static str =
    "https://storage.googleapis.com/universal-setup/setup_2%5E23.key";

/// The MD5 digest of the monomial key for `k = 23`.
pub const MONOMIAL_KEY_MD5_23: &'static str = "e47ade70fa43b1448f726e3e41beb1b8";

/// Where the Lagrange key for `k = 23` is published.
pub const LAGRANGE_KEY_URL_23: &'static str =
    "https://storage.googleapis.com/universal-setup/setup_2%5E23_lagrange.key";

/// The MD5 digest of the Lagrange key for `k = 23`.
pub const LAGRANGE_KEY_MD5_23: &'static str = "8f9442445de62f4bc37f86d8c15ba390";

/// The two key files of one circuit size, with the checksums that vouch for
/// them.
#[derive(Debug, Clone)]
pub struct ZKSyncKey {
    pub k: i32,
    pub monomial_key_url: String,
    pub monomial_key_md5: String,
    pub lagrange_key_url: String,
    pub lagrange_key_md5: String,
}

/// A key file whose content does not have the registered checksum. Each
/// variant carries the digest that the content has.
#[derive(Debug, Clone, PartialEq, Eq)]
pub enum KeyCheckError {
    MonomialChecksumMismatch(String),
    LagrangeChecksumMismatch(String),
}

/// The lowercase hexadecimal MD5 digest of `data`.
pub uninterp spec fn md5_hex(data: Seq<u8>) -> Seq<char>;

/// Calls `chksum_md5::hash` on the bytes and writes the digest with its
/// `Display`, which is lowercase hexadecimal. The digest is a function of
/// the bytes alone; nothing else is claimed of it.
#[verifier::external_body]
fn md5_hex_digest(data: &[u8]) -> (digest: String)
    ensures
        digest@ == md5_hex(data@),
{
    chksum_md5::hash(data).to_string()
}

/// The key registered for the circuit size `k`, if there is one.
pub open spec fn registered_key(k: u32, key: ZKSyncKey) -> bool {
    if k == 22 {
        &&& key.k == 22
        &&& key.monomial_key_url@ == MONOMIAL_KEY_URL_22@
        &&& key.monomial_key_md5@ == MONOMIAL_KEY_MD5_22@
        &&& key.lagrange_key_url@ == LAGRANGE_KEY_URL_22@
        &&& key.lagrange_key_md5@ == LAGRANGE_KEY_MD5_22@
    } else {
        &&& k == 23
        &&& key.k == 23
        &&& key.monomial_key_url@ == MONOMIAL_KEY_URL_23@
        &&& key.monomial_key_md5@ == MONOMIAL_KEY_MD5_23@
        &&& key.lagrange_key_url@ == LAGRANGE_KEY_URL_23@
        &&& key.lagrange_key_md5@ == LAGRANGE_KEY_MD5_23@
    }
}

/// Looks up the setup key of the circuit size `k`. Keys are registered for
/// `k = 22` and `k = 23` only.
pub fn lookup_setup_key(k: u32) -> (found: Option<ZKSyncKey>)
    ensures
        found is Some <==> k == 22 || k == 23,
        found is Some ==> registered_key(k, found->0),
{
    if k == 22 {
        Some(
            ZKSyncKey {
                k: 22,
                monomial_key_url: String::from_str(MONOMIAL_KEY_URL_22),
                monomial_key_md5: String::from_str(MONOMIAL_KEY_MD5_22),
                lagrange_key_url: String::from_str(LAGRANGE_KEY_URL_22),
                lagrange_key_md5: String::from_str(LAGRANGE_KEY_MD5_22),
            },
        )
    } else if k == 23 {
        Some(
            ZKSyncKey {
                k: 23,
                monomial_key_url: String::from_str(MONOMIAL_KEY_URL_23),
                monomial_key_md5: String::from_str(MONOMIAL_KEY_MD5_23),
                lagrange_key_url: String::from_str(LAGRANGE_KEY_URL_23),
                lagrange_key_md5: String::from_str(LAGRANGE_KEY_MD5_23),
            },
        )
    } else {
        None
    }
}

impl ZKSyncKey {
    /// Checks the content of both local key files, the monomial one first.
    pub fn check_setup_key_file(&mut self, monomial: &[u8], lagrange: &[u8]) -> (checked: Result<
        (),
        KeyCheckError,
    >)
        ensures
            *final(self) == *old(self),
            match checked {
                Ok(()) => md5_hex(monomial@) == old(self).monomial_key_md5@ && md5_hex(lagrange@)
                    == old(self).lagrange_key_md5@,
                Err(KeyCheckError::MonomialChecksumMismatch(digest)) => digest@ == md5_hex(
                    monomial@,
                ) && digest@ != old(self).monomial_key_md5@,
                Err(KeyCheckError::LagrangeChecksumMismatch(digest)) => md5_hex(monomial@) == old(
                    self,
                ).monomial_key_md5@ && digest@ == md5_hex(lagrange@) && digest@ != old(
                    self,
                ).lagrange_key_md5@,
            },
    {
        match self.check_monomial(monomial) {
            Ok(()) => self.check_lagrange(lagrange),
            Err(e) => Err(e),
        }
    }

    /// The path of the local copy of the monomial key.
    pub fn get_local_monomial_path(&mut self) -> (path: String)
        ensures
            *final(self) == *old(self),
            path@ == "./setup_2^"@ + int_decimal(old(self).k as int) + ".key"@,
    {
        let path = String::from_str("./setup_2^").concat(i32_to_decimal(self.k).as_str()).concat(
            ".key",
        );
        path
    }

    /// The path of the local copy of the Lagrange key.
    pub fn get_local_lagrange_path(&mut self) -> (path: String)
        ensures
            *final(self) == *old(self),
            path@ == "./setup_2^"@ + int_decimal(old(self).k as int) + "_lagrange.key"@,
    {
        let path = String::from_str("./setup_2^").concat(i32_to_decimal(self.k).as_str()).concat(
            "_lagrange.key",
        );
        path
    }

    /// Checks the content of the local monomial key file against the
    /// registered checksum.
    pub fn check_monomial(&mut self, content: &[u8]) -> (checked: Result<(), KeyCheckError>)
        ensures
            *final(self) == *old(self),
            match checked {
                Ok(()) => md5_hex(content@) == old(self).monomial_key_md5@,
                Err(KeyCheckError::MonomialChecksumMismatch(digest)) => digest@ == md5_hex(content@)
                    && digest@ != old(self).monomial_key_md5@,
                Err(KeyCheckError::LagrangeChecksumMismatch(_)) => false,
            },
    {
        self.judge_monomial_digest(md5_hex_digest(content))
    }

    /// Checks the content of the local Lagrange key file against the
    /// registered checksum.
    pub fn check_lagrange(&mut self, content: &[u8]) -> (checked: Result<(), KeyCheckError>)
        ensures
            *final(self) == *old(self),
            match checked {
                Ok(()) => md5_hex(content@) == old(self).lagrange_key_md5@,
                Err(KeyCheckError::LagrangeChecksumMismatch(digest)) => digest@ == md5_hex(content@)
                    && digest@ != old(self).lagrange_key_md5@,
                Err(KeyCheckError::MonomialChecksumMismatch(_)) => false,
            },
    {
        self.judge_lagrange_digest(md5_hex_digest(content))
    }

    /// Judges the digest of a monomial key file: it is accepted if and only
    /// if it is the registered digest, letter for letter.
    pub fn judge_monomial_digest(&self, digest: String) -> (judged: Result<(), KeyCheckError>)
        ensures
            match judged {
                Ok(()) => digest@ == self.monomial_key_md5@,
                Err(KeyCheckError::MonomialChecksumMismatch(refused)) => refused@ == digest@
                    && digest@ != self.monomial_key_md5@,
                Err(KeyCheckError::LagrangeChecksumMismatch(_)) => false,
            },
    {
        if digest == self.monomial_key_md5 {
            Ok(())
        } else {
            Err(KeyCheckError::MonomialChecksumMismatch(digest))
        }
    }

    /// Judges the digest of a Lagrange key file: it is accepted if and only
    /// if it is the registered digest, letter for letter.
    pub fn judge_lagrange_digest(&self, digest: String) -> (judged: Result<(), KeyCheckError>)
        ensures
            match judged {
                Ok(()) => digest@ == self.lagrange_key_md5@,
                Err(KeyCheckError::LagrangeChecksumMismatch(refused)) => refused@ == digest@
                    && digest@ != self.lagrange_key_md5@,
                Err(KeyCheckError::MonomialChecksumMismatch(_)) => false,
            },
    {
        if digest == self.lagrange_key_md5 {
            Ok(())
        } else {
            Err(KeyCheckError::LagrangeChecksumMismatch(digest))
        }
    }
}

} // verus!
