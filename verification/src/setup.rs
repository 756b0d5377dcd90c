//! Startup: the persistent identity.
//!
//! The secret key lives in a file of exactly 32 raw bytes. A file of another
//! size is an error and never leads to a new key; a missing file leads to a
//! fresh key that the caller persists before it binds the endpoint.

use vstd::prelude::*;
use crate::errors::IrohError;

verus! {

/// Number of bytes in the secret key file.
pub const SECRET_KEY_LEN: usize = 32;

/// Name of the key file below the data directory.
pub const SECRET_KEY_FILE: &'static str = "secret_key";

/// Name of the blob store's directory below the data directory.
pub const BLOB_DIR: &'static str = "blob_data";

/// Where a secret key came from.
#[derive(Clone, Copy, Debug, PartialEq, Eq, Structural)]
pub enum KeyOrigin {
    /// Read from the key file.
    Loaded,
    /// Made now; the caller writes it to the key file.
    Generated,
}

/// The secret key to start with.
#[derive(Clone, Copy, Debug, PartialEq, Eq)]
pub struct SecretKeyPlan {
    pub key: [u8; 32],
    pub origin: KeyOrigin,
}

/// Mathematical content of a [`SecretKeyPlan`].
pub struct SecretKeyPlanView {
    pub key: Seq<u8>,
    pub origin: KeyOrigin,
}

impl View for SecretKeyPlan {
    type V = SecretKeyPlanView;

    open spec fn view(&self) -> SecretKeyPlanView {
        SecretKeyPlanView { key: self.key@, origin: self.origin }
    }
}

/// The key that a key file's content stands for.
pub open spec fn key_of_file(content: Seq<u8>) -> Result<Seq<u8>, IrohError> {
    if content.len() == 32 {
        Ok(content)
    } else {
        Err(IrohError::SecretKeySize { found: content.len() as usize })
    }
}

/// The outcome of loading an existing key file.
pub open spec fn loaded_key_of(content: Seq<u8>) -> Result<SecretKeyPlanView, IrohError> {
    match key_of_file(content) {
        Ok(key) => Ok(SecretKeyPlanView { key, origin: KeyOrigin::Loaded }),
        Err(e) => Err(e),
    }
}

/// The key to start with: the file's key where a file exists, `fresh`
/// where none does.
pub open spec fn secret_key_of(existing: Option<Seq<u8>>, fresh: Seq<u8>) -> Result<
    SecretKeyPlanView,
    IrohError,
> {
    match existing {
        Some(content) => loaded_key_of(content),
        None => Ok(SecretKeyPlanView { key: fresh, origin: KeyOrigin::Generated }),
    }
}

pub open spec fn key_view(r: Result<[u8; 32], IrohError>) -> Result<Seq<u8>, IrohError> {
    match r {
        Ok(k) => Ok(k@),
        Err(e) => Err(e),
    }
}

pub open spec fn plan_view(r: Result<SecretKeyPlan, IrohError>) -> Result<
    SecretKeyPlanView,
    IrohError,
> {
    match r {
        Ok(p) => Ok(p@),
        Err(e) => Err(e),
    }
}

pub open spec fn content_view(c: Option<&[u8]>) -> Option<Seq<u8>> {
    match c {
        Some(b) => Some(b@),
        None => None,
    }
}

/// Reads the secret key from the content of the key file. The content must
/// be exactly 32 bytes.
pub fn secret_key_from_file(content: &[u8]) -> (r: Result<[u8; 32], IrohError>)
    ensures
        key_view(r) == key_of_file(content@),
{
    if content.len() != SECRET_KEY_LEN {
        return Err(IrohError::SecretKeySize { found: content.len() });
    }
    let mut key: [u8; 32] = [0u8; 32];
    let mut i: usize = 0;
    while i < 32
        invariant
            i <= 32,
            content@.len() == 32,
            forall|j: int| 0 <= j < i ==> key@[j] == content@[j],
        decreases 32 - i,
    {
        key[i] = content[i];
        i += 1;
    }
    assert(key@ =~= content@);
    Ok(key)
}

/// Picks the secret key: the key file's, where the file exists, and `fresh`
/// otherwise. A file of the wrong size is an error, whatever `fresh` is.
pub fn resolve_secret_key(existing: Option<&[u8]>, fresh: [u8; 32]) -> (r: Result<
    SecretKeyPlan,
    IrohError,
>)
    ensures
        plan_view(r) == secret_key_of(content_view(existing), fresh@),
{
    match existing {
        Some(content) => match secret_key_from_file(content) {
            Ok(key) => Ok(SecretKeyPlan { key, origin: KeyOrigin::Loaded }),
            Err(e) => Err(e),
        },
        None => Ok(SecretKeyPlan { key: fresh, origin: KeyOrigin::Generated }),
    }
}

/// Asks the operating system's random source for 32 bytes, through
/// `rand::rngs::OsRng` and `RngCore::try_fill_bytes`. `None` where the
/// source fails. Nothing is claimed of the bytes.
#[verifier::external_body]
pub(crate) fn os_random_bytes() -> (r: Option<[u8; 32]>) {
    let mut bytes = [0u8; 32];
    match rand::RngCore::try_fill_bytes(&mut rand::rngs::OsRng, &mut bytes) {
        Ok(()) => Some(bytes),
        Err(_) => None,
    }
}

/// Produces the secret key at startup. `existing` is the content of the key
/// file, or `None` where there is no such file. An existing file decides
/// alone: its key is loaded, or its size is the error. Without a file the
/// key comes from the system's random source and is to be persisted.
pub fn setup(existing: Option<&[u8]>) -> (r: Result<SecretKeyPlan, IrohError>)
    ensures
        match existing {
            Some(content) => plan_view(r) == loaded_key_of(content@),
            None => match r {
                Ok(plan) => plan.origin == KeyOrigin::Generated,
                Err(e) => e == IrohError::RandomSource,
            },
        },
{
    match existing {
        Some(content) => match secret_key_from_file(content) {
            Ok(key) => Ok(SecretKeyPlan { key, origin: KeyOrigin::Loaded }),
            Err(e) => Err(e),
        },
        None => match os_random_bytes() {
            Some(fresh) => resolve_secret_key(None, fresh),
            None => Err(IrohError::RandomSource),
        },
    }
}

/// A key that was generated and persisted is the key that the next start
/// loads, whatever fresh bytes that start would have had: the identity is
/// stable over restarts.
pub proof fn lemma_identity_persists(first_fresh: Seq<u8>, second_fresh: Seq<u8>)
    requires
        first_fresh.len() == 32,
    ensures
        secret_key_of(None, first_fresh) == Ok::<SecretKeyPlanView, IrohError>(
            SecretKeyPlanView { key: first_fresh, origin: KeyOrigin::Generated },
        ),
        secret_key_of(Some(first_fresh), second_fresh) == Ok::<SecretKeyPlanView, IrohError>(
            SecretKeyPlanView { key: first_fresh, origin: KeyOrigin::Loaded },
        ),
{
}

/// A key file of any size but 32 is an error and never replaced by a fresh
/// key.
pub proof fn lemma_bad_size_is_fatal(content: Seq<u8>, fresh: Seq<u8>)
    requires
        content.len() != 32,
    ensures
        secret_key_of(Some(content), fresh) == Err::<SecretKeyPlanView, IrohError>(
            IrohError::SecretKeySize { found: content.len() as usize },
        ),
{
}

} // verus!
