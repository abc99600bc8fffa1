//! Encryption-key handling when a tenant is saved.
//!
//! Saving a tenant creates or checks its key pair, stores a hash of the private
//! key, and, when the tenant's key is cloud-managed, stores the private key
//! encrypted with the system master key. The key operations themselves (pair
//! generation, derivation of a public key, hashing, encryption) are performed
//! by the caller; the functions here decide which of them are needed and what
//! is stored from their results.

use vstd::prelude::*;
use vstd::string::StringExecFns;

verus! {

/// The key fields of a tenant save request.
#[derive(Clone, Debug)]
pub struct SaveTenantKeyRequest {
    /// Set when an existing tenant is updated.
    pub id: Option<i64>,
    pub encryption_public_key: Option<String>,
    pub encryption_private_key: Option<String>,
    pub cloud_managed_key: Option<bool>,
}

/// The key fields stored with a tenant.
#[derive(Clone, Debug)]
pub struct TenantKeyFields {
    pub encryption_public_key: Option<String>,
    pub encryption_private_key_hash: Option<String>,
    pub encrypted_private_key: Option<String>,
    pub cloud_managed_key: Option<bool>,
}

/// A key pair, as generated or derived from a private key.
#[derive(Clone, Debug)]
pub struct KeyPair {
    pub public_key: String,
    pub private_key: String,
}

/// The key fields to store, and the private key to hand back once (only for generated pairs).
#[derive(Clone, Debug)]
pub struct TenantKeyOutcome {
    pub fields: TenantKeyFields,
    pub private_key_to_return: Option<String>,
}

/// Why a tenant's keys could not be saved.
#[derive(Clone, Debug)]
pub enum TenantKeyError {
    /// The private key given with a new tenant does not belong to the public key given with it.
    PrivateKeyMismatch,
    /// The private key given with a new tenant could not be read.
    InvalidPrivateKey(String),
    /// A new tenant came with a public key but no private key.
    PrivateKeyRequired,
    /// Encrypting the private key with the system key failed.
    EncryptFailed(String),
    /// No key pair could be generated.
    GenerateFailed(String),
    /// The private key given to enable cloud management does not match the stored hash.
    ProvidedKeyMismatch,
    /// Cloud management was asked for, but neither a stored nor a given private key exists.
    PrivateKeyRequiredForCloud,
}

/// The text a key error is reported with.
pub open spec fn key_error_text(e: TenantKeyError) -> Seq<char> {
    match e {
        TenantKeyError::PrivateKeyMismatch => "Private key does not match public key"@,
        TenantKeyError::InvalidPrivateKey(m) => "Invalid private key: "@ + m@,
        TenantKeyError::PrivateKeyRequired => "Private key must be provided when public key is provided"@,
        TenantKeyError::EncryptFailed(m) => "Failed to encrypt private key for cloud management: "@ + m@,
        TenantKeyError::GenerateFailed(m) => "Failed to generate encryption keys: "@ + m@,
        TenantKeyError::ProvidedKeyMismatch => "Provided private key does not match tenant's key"@,
        TenantKeyError::PrivateKeyRequiredForCloud => "Private key must be provided to enable cloud-managed key"@,
    }
}

impl TenantKeyError {
    pub fn message(&self) -> (s: String)
        ensures
            s@ == key_error_text(*self),
    {
        match self {
            TenantKeyError::PrivateKeyMismatch => crate::text::copy_str("Private key does not match public key"),
            TenantKeyError::InvalidPrivateKey(m) => crate::text::concat2("Invalid private key: ", m.as_str()),
            TenantKeyError::PrivateKeyRequired => crate::text::copy_str(
                "Private key must be provided when public key is provided",
            ),
            TenantKeyError::EncryptFailed(m) => crate::text::concat2(
                "Failed to encrypt private key for cloud management: ",
                m.as_str(),
            ),
            TenantKeyError::GenerateFailed(m) => crate::text::concat2("Failed to generate encryption keys: ", m.as_str()),
            TenantKeyError::ProvidedKeyMismatch => crate::text::copy_str(
                "Provided private key does not match tenant's key",
            ),
            TenantKeyError::PrivateKeyRequiredForCloud => crate::text::copy_str(
                "Private key must be provided to enable cloud-managed key",
            ),
        }
    }
}

/// What has to happen first to save the request's keys.
#[derive(Clone, Debug)]
pub enum KeyPlan {
    /// New tenant with its own pair: derive the pair from this private key.
    DeriveFromPrivateKey(String),
    /// New tenant without keys: generate a pair.
    GeneratePair,
    /// Existing tenant: load its stored key fields.
    LoadExisting(i64),
    /// The request is refused.
    Reject(TenantKeyError),
}

/// Whether the private key is to be kept encrypted with the system key; it is unless declined.
pub open spec fn spec_cloud_managed(req: SaveTenantKeyRequest) -> bool {
    match req.cloud_managed_key {
        Some(b) => b,
        None => true,
    }
}

pub fn cloud_managed(req: &SaveTenantKeyRequest) -> (b: bool)
    ensures
        b == spec_cloud_managed(*req),
{
    match req.cloud_managed_key {
        Some(b) => b,
        None => true,
    }
}

/// Decides how the request's keys are obtained.
pub fn plan_keys(req: &SaveTenantKeyRequest) -> (plan: KeyPlan)
    ensures
        match req.id {
            Some(id) => plan == KeyPlan::LoadExisting(id),
            None => match req.encryption_public_key {
                Some(_) => match req.encryption_private_key {
                    Some(p) => plan matches KeyPlan::DeriveFromPrivateKey(q) && q@ == p@,
                    None => plan matches KeyPlan::Reject(TenantKeyError::PrivateKeyRequired),
                },
                None => plan matches KeyPlan::GeneratePair,
            },
        },
{
    match req.id {
        Some(id) => KeyPlan::LoadExisting(id),
        None => match &req.encryption_public_key {
            Some(_) => match &req.encryption_private_key {
                Some(p) => KeyPlan::DeriveFromPrivateKey(p.clone()),
                None => KeyPlan::Reject(TenantKeyError::PrivateKeyRequired),
            },
            None => KeyPlan::GeneratePair,
        },
    }
}

/// Checks the pair derived from a new tenant's private key against the public key it came
/// with, and returns the public key to store.
pub fn check_derived_pair(
    req: &SaveTenantKeyRequest,
    derived: Result<KeyPair, String>,
) -> (r: Result<String, TenantKeyError>)
    requires
        req.id.is_none(),
        req.encryption_public_key.is_some(),
        req.encryption_private_key.is_some(),
    ensures
        match derived {
            Err(e) => r matches Err(TenantKeyError::InvalidPrivateKey(m)) && m@ == e@,
            Ok(pair) => if pair.public_key@ == req.encryption_public_key.unwrap()@ {
                r matches Ok(k) && k@ == pair.public_key@
            } else {
                r matches Err(TenantKeyError::PrivateKeyMismatch)
            },
        },
{
    match derived {
        Err(e) => Err(TenantKeyError::InvalidPrivateKey(e)),
        Ok(pair) => {
            let given = match &req.encryption_public_key {
                Some(k) => k,
                None => {
                    return Err(TenantKeyError::PrivateKeyMismatch);
                },
            };
            if crate::text::str_eq(pair.public_key.as_str(), given.as_str()) {
                Ok(pair.public_key)
            } else {
                Err(TenantKeyError::PrivateKeyMismatch)
            }
        },
    }
}

/// Unpacks a generated pair.
pub fn check_generated_pair(generated: Result<KeyPair, String>) -> (r: Result<KeyPair, TenantKeyError>)
    ensures
        match generated {
            Err(e) => r matches Err(TenantKeyError::GenerateFailed(m)) && m@ == e@,
            Ok(pair) => r matches Ok(p) && p.public_key@ == pair.public_key@ && p.private_key@ == pair.private_key@,
        },
{
    match generated {
        Err(e) => Err(TenantKeyError::GenerateFailed(e)),
        Ok(pair) => Ok(pair),
    }
}

/// Key fields as values: public key, private-key hash, encrypted private key
/// and whether the key is cloud-managed.
pub open spec fn fields_view(f: TenantKeyFields) -> (Option<Seq<char>>, Option<Seq<char>>, Option<Seq<char>>, Option<bool>) {
    (opt_view(f.encryption_public_key), opt_view(f.encryption_private_key_hash), opt_view(f.encrypted_private_key), f.cloud_managed_key)
}

/// An optional text as a value.
pub open spec fn opt_view(o: Option<String>) -> Option<Seq<char>> {
    match o {
        Some(s) => Some(s@),
        None => None,
    }
}

/// The key fields a new tenant stores, or why encrypting its key failed.
pub open spec fn new_key_fields(cloud: bool, public_key: Seq<char>, hash: Seq<char>, encrypted: Option<Result<Seq<char>, Seq<char>>>)
    -> Result<(Option<Seq<char>>, Option<Seq<char>>, Option<Seq<char>>, Option<bool>), Seq<char>> {
    if cloud {
        match encrypted {
            Some(Err(e)) => Err(e),
            Some(Ok(x)) => Ok((Some(public_key), Some(hash), Some(x), Some(true))),
            None => Ok((Some(public_key), Some(hash), None, Some(true))),
        }
    } else {
        Ok((Some(public_key), Some(hash), None, Some(false)))
    }
}

/// An encryption result as values.
pub open spec fn encrypted_view(e: Option<Result<String, String>>) -> Option<Result<Seq<char>, Seq<char>>> {
    match e {
        Some(Ok(x)) => Some(Ok(x@)),
        Some(Err(m)) => Some(Err(m@)),
        None => None,
    }
}

/// The key fields of a new tenant. When the key is cloud-managed, `encrypted` is the result
/// of encrypting the private key with the system key, and its failure fails the save;
/// otherwise nothing encrypted is stored. `private_key_to_return` is handed back as is.
pub fn finish_new_tenant_keys(
    cloud: bool,
    public_key: String,
    private_key_hash: String,
    encrypted: Option<Result<String, String>>,
    private_key_to_return: Option<String>,
) -> (r: Result<TenantKeyOutcome, TenantKeyError>)
    requires
        cloud ==> encrypted.is_some(),
    ensures
        cloud ==> (encrypted matches Some(Err(e)) ==> (r matches Err(TenantKeyError::EncryptFailed(m)) && m@ == e@)),
        !(cloud && encrypted matches Some(Err(_))) ==> (r matches Ok(out) && {
            &&& out.fields.encryption_public_key matches Some(k) && k@ == public_key@
            &&& out.fields.encryption_private_key_hash matches Some(h) && h@ == private_key_hash@
            &&& out.fields.cloud_managed_key == Some(cloud)
            &&& if cloud {
                encrypted matches Some(Ok(e)) && out.fields.encrypted_private_key matches Some(x) && x@ == e@
            } else {
                out.fields.encrypted_private_key.is_none()
            }
            &&& out.private_key_to_return == private_key_to_return
        }),
        match new_key_fields(cloud, public_key@, private_key_hash@, encrypted_view(encrypted)) {
            Err(e) => r matches Err(TenantKeyError::EncryptFailed(m)) && m@ == e,
            Ok(v) => r matches Ok(out) && fields_view(out.fields) == v && out.private_key_to_return == private_key_to_return,
        },
{
    let encrypted_private_key = if cloud {
        match encrypted {
            Some(Ok(e)) => Some(e),
            Some(Err(e)) => {
                return Err(TenantKeyError::EncryptFailed(e));
            },
            None => None,
        }
    } else {
        None
    };
    Ok(TenantKeyOutcome {
        fields: TenantKeyFields {
            encryption_public_key: Some(public_key),
            encryption_private_key_hash: Some(private_key_hash),
            encrypted_private_key,
            cloud_managed_key: Some(cloud),
        },
        private_key_to_return,
    })
}

/// What an update of an existing tenant's key settings requires.
#[derive(Clone, Debug)]
pub enum ExistingKeyPlan {
    /// Cloud management is being enabled with this private key: hash it, compare with the
    /// stored hash, then encrypt it.
    VerifyAndEncrypt(String),
    /// Nothing more is needed; these fields are stored.
    Done(TenantKeyFields),
    /// The request is refused.
    Reject(TenantKeyError),
}

/// The key fields an existing tenant keeps when the update needs no key operation, if any.
pub open spec fn existing_fields_done(req: SaveTenantKeyRequest, existing: TenantKeyFields) -> Option<TenantKeyFields> {
    match req.cloud_managed_key {
        Some(enable) => if enable && existing.encrypted_private_key.is_none() {
            None
        } else if !enable {
            Some(TenantKeyFields {
                encryption_public_key: existing.encryption_public_key,
                encryption_private_key_hash: existing.encryption_private_key_hash,
                encrypted_private_key: None,
                cloud_managed_key: Some(false),
            })
        } else {
            Some(TenantKeyFields {
                encryption_public_key: existing.encryption_public_key,
                encryption_private_key_hash: existing.encryption_private_key_hash,
                encrypted_private_key: existing.encrypted_private_key,
                cloud_managed_key: Some(true),
            })
        },
        None => Some(existing),
    }
}

/// Decides what an update does with the existing tenant's keys. The key pair and its
/// hash are never regenerated; only cloud management may be switched.
pub fn plan_existing_keys(req: &SaveTenantKeyRequest, existing: &TenantKeyFields) -> (plan: ExistingKeyPlan)
    ensures
        match existing_fields_done(*req, *existing) {
            Some(f) => plan == ExistingKeyPlan::Done(f),
            None => match req.encryption_private_key {
                Some(p) => plan matches ExistingKeyPlan::VerifyAndEncrypt(q) && q@ == p@,
                None => plan matches ExistingKeyPlan::Reject(TenantKeyError::PrivateKeyRequiredForCloud),
            },
        },
{
    let public_key = crate::text::copy_opt(&existing.encryption_public_key);
    let hash = crate::text::copy_opt(&existing.encryption_private_key_hash);
    match req.cloud_managed_key {
        Some(enable) => {
            if enable && existing.encrypted_private_key.is_none() {
                match &req.encryption_private_key {
                    Some(p) => ExistingKeyPlan::VerifyAndEncrypt(p.clone()),
                    None => ExistingKeyPlan::Reject(TenantKeyError::PrivateKeyRequiredForCloud),
                }
            } else if !enable {
                ExistingKeyPlan::Done(TenantKeyFields {
                    encryption_public_key: public_key,
                    encryption_private_key_hash: hash,
                    encrypted_private_key: None,
                    cloud_managed_key: Some(false),
                })
            } else {
                ExistingKeyPlan::Done(TenantKeyFields {
                    encryption_public_key: public_key,
                    encryption_private_key_hash: hash,
                    encrypted_private_key: crate::text::copy_opt(&existing.encrypted_private_key),
                    cloud_managed_key: Some(true),
                })
            }
        },
        None => ExistingKeyPlan::Done(TenantKeyFields {
            encryption_public_key: public_key,
            encryption_private_key_hash: hash,
            encrypted_private_key: crate::text::copy_opt(&existing.encrypted_private_key),
            cloud_managed_key: existing.cloud_managed_key,
        }),
    }
}

/// The stored hash an existing tenant's private key is checked against; none reads as empty.
pub open spec fn stored_hash_text(existing: TenantKeyFields) -> Seq<char> {
    match existing.encryption_private_key_hash {
        Some(h) => h@,
        None => Seq::empty(),
    }
}

/// Whether the hash of the private key given to enable cloud management matches the stored one.
pub fn check_provided_key(existing: &TenantKeyFields, provided_hash: &str) -> (r: Result<(), TenantKeyError>)
    ensures
        r is Ok <==> provided_hash@ == stored_hash_text(*existing),
        r matches Err(e) ==> e == TenantKeyError::ProvidedKeyMismatch,
{
    let same = match &existing.encryption_private_key_hash {
        Some(h) => crate::text::str_eq(provided_hash, h.as_str()),
        None => {
            let b = provided_hash.is_empty();
            assert(b == (provided_hash@ =~= Seq::<char>::empty()));
            b
        },
    };
    if same {
        Ok(())
    } else {
        Err(TenantKeyError::ProvidedKeyMismatch)
    }
}

/// The fields stored once the provided private key, checked against the stored hash, has
/// been encrypted for cloud management.
pub fn finish_enable_cloud(
    existing: &TenantKeyFields,
    encrypted: Result<String, String>,
) -> (r: Result<TenantKeyFields, TenantKeyError>)
    ensures
        match encrypted {
            Err(e) => r matches Err(TenantKeyError::EncryptFailed(m)) && m@ == e@,
            Ok(x) => r matches Ok(f) && f == (TenantKeyFields {
                encryption_public_key: existing.encryption_public_key,
                encryption_private_key_hash: existing.encryption_private_key_hash,
                encrypted_private_key: Some(x),
                cloud_managed_key: Some(true),
            }),
        },
{
    match encrypted {
        Err(e) => Err(TenantKeyError::EncryptFailed(e)),
        Ok(x) => Ok(TenantKeyFields {
            encryption_public_key: crate::text::copy_opt(&existing.encryption_public_key),
            encryption_private_key_hash: crate::text::copy_opt(&existing.encryption_private_key_hash),
            encrypted_private_key: Some(x),
            cloud_managed_key: Some(true),
        }),
    }
}

/// The key that encrypts cloud-managed private keys: the configured system
/// master key, else the JWT secret, else a fixed default meant to be replaced
/// in production.
pub fn system_master_key(configured: Option<String>, jwt_secret: Option<String>) -> (k: String)
    ensures
        configured matches Some(c) ==> k == c,
        configured is None && jwt_secret is Some ==> k == jwt_secret.unwrap(),
        configured is None && jwt_secret is None ==> k@ == "default-system-master-key-change-in-production"@,
{
    match configured {
        Some(c) => c,
        None => match jwt_secret {
            Some(j) => j,
            None => String::from_str("default-system-master-key-change-in-production"),
        },
    }
}

/// What a save answers once the tenant is stored: its id, its public key as
/// read back (empty when it has none), and a generated private key, once.
pub fn save_response(tenant_id: i64, stored_public_key: Option<String>, private_key_to_return: Option<String>)
    -> (r: (i64, String, Option<String>))
    ensures
        r.0 == tenant_id,
        r.1@ == (match stored_public_key { Some(k) => k@, None => Seq::<char>::empty() }),
        r.2 == private_key_to_return,
{
    let pk = match stored_public_key {
        Some(k) => k,
        None => String::new(),
    };
    (tenant_id, pk, private_key_to_return)
}

/// Updating an existing tenant never replaces its public key or the hash of
/// its private key; turning cloud management off drops the encrypted key,
/// and leaving the setting out keeps the stored fields as they are.
pub proof fn lemma_existing_keys_kept(req: SaveTenantKeyRequest, existing: TenantKeyFields)
    ensures
        existing_fields_done(req, existing) matches Some(f) ==> f.encryption_public_key == existing.encryption_public_key
            && f.encryption_private_key_hash == existing.encryption_private_key_hash,
        req.cloud_managed_key == Some(false) ==> (existing_fields_done(req, existing) matches Some(f)
            && f.encrypted_private_key is None && f.cloud_managed_key == Some(false)),
        req.cloud_managed_key is None ==> existing_fields_done(req, existing) == Some(existing),
{
}

/// Updating a tenant that asks for cloud management (or leaves the setting
/// out) and already stores an encrypted private key keeps that encrypted key
/// and its key pair as stored, with no key operation; asking for cloud
/// management without a stored encrypted key needs a key operation.
pub proof fn lemma_cloud_managed_key_kept(req: SaveTenantKeyRequest, existing: TenantKeyFields)
    ensures
        req.cloud_managed_key == Some(true) && existing.encrypted_private_key is Some ==> (
            existing_fields_done(req, existing) matches Some(f)
                && f.encrypted_private_key == existing.encrypted_private_key
                && f.cloud_managed_key == Some(true)
                && f.encryption_public_key == existing.encryption_public_key
                && f.encryption_private_key_hash == existing.encryption_private_key_hash),
        req.cloud_managed_key is None ==> (existing_fields_done(req, existing) matches Some(f)
            && f.encrypted_private_key == existing.encrypted_private_key
            && f.cloud_managed_key == existing.cloud_managed_key),
        req.cloud_managed_key == Some(true) && existing.encrypted_private_key is None ==>
            existing_fields_done(req, existing) is None,
{
}

/// A tenant's private key is kept encrypted with the system key unless the
/// request declines it.
pub proof fn lemma_cloud_managed_by_default(req: SaveTenantKeyRequest)
    ensures
        spec_cloud_managed(req) == (req.cloud_managed_key != Some(false)),
{
}

/// A new tenant always stores its public key and the hash of its private
/// key. Its encrypted private key is stored exactly when the key is
/// cloud-managed, and it is what encrypting the private key gave; an
/// encryption that fails fails the save only when the key is cloud-managed.
pub proof fn lemma_new_tenant_keys(cloud: bool, public_key: Seq<char>, hash: Seq<char>, encrypted: Seq<char>, failure: Seq<char>)
    ensures
        new_key_fields(cloud, public_key, hash, Some(Ok(encrypted))) matches Ok(v)
            && v.0 == Some(public_key) && v.1 == Some(hash) && v.3 == Some(cloud)
            && (cloud ==> v.2 == Some(encrypted)) && (!cloud ==> v.2 is None),
        cloud ==> new_key_fields(cloud, public_key, hash, Some(Err(failure))) == Err::<(Option<Seq<char>>, Option<Seq<char>>, Option<Seq<char>>, Option<bool>), Seq<char>>(failure),
        !cloud ==> new_key_fields(cloud, public_key, hash, Some(Err(failure))) is Ok,
{
}

} // verus!
