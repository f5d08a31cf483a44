//! The keyring: OpenPGP signing keys, stored armored, and their public projection.
use vstd::prelude::*;

use crate::db::Db;
use crate::deps::copy_opt;
use crate::table::{has_key, upserted};
use crate::errors::RepoError;
use crate::ids::now_millis;
use crate::opt_view;
use crate::table::Record;

verus! {

/// Public-key algorithms the keyring generates.
#[derive(Clone, Copy, Debug, PartialEq, Eq, Structural)]
pub enum KeyAlgorithm {
    Ed25519,
}

/// The parameters of a key to generate, as plain values.
#[derive(Clone, Debug)]
pub struct KeyParams {
    pub key_type: KeyAlgorithm,
    pub can_sign: bool,
    pub can_certify: bool,
    pub primary_user_id: String,
    /// Passphrase protecting the secret key at rest; none leaves it unprotected.
    pub passphrase: Option<String>,
}

impl KeyParams {
    /// The parameters of a keyring signing key: Ed25519, able to sign, unable to
    /// certify, with `user_id` as its primary identity and no passphrase.
    pub fn signing_key(user_id: &str) -> (r: KeyParams)
        ensures
            r.key_type == KeyAlgorithm::Ed25519,
            r.can_sign,
            !r.can_certify,
            r.primary_user_id@ == user_id@,
            r.passphrase is None,
    {
        KeyParams {
            key_type: KeyAlgorithm::Ed25519,
            can_sign: true,
            can_certify: false,
            primary_user_id: String::from_str(user_id),
            passphrase: None,
        }
    }
}

/// Relies on `pgp::composed::SecretKeyParamsBuilder`: the builder's parameters set
/// one for one from `p`, then `build`.
#[verifier::external_body]
fn secret_key_params(p: &KeyParams) -> (r: Result<pgp::composed::SecretKeyParams, pgp::composed::SecretKeyParamsBuilderError>) {
    let key_type = match p.key_type {
        KeyAlgorithm::Ed25519 => pgp::composed::KeyType::Ed25519,
    };
    pgp::composed::SecretKeyParamsBuilder::default()
        .key_type(key_type)
        .can_sign(p.can_sign)
        .can_certify(p.can_certify)
        .primary_user_id(p.primary_user_id.clone())
        .passphrase(p.passphrase.clone())
        .build()
}

/// Relies on `pgp::composed::SecretKeyParams::generate`, which draws a key from the
/// thread's random generator and self-signs it.
#[verifier::external_body]
fn generate_secret_key(params: pgp::composed::SecretKeyParams) -> (r: Result<pgp::composed::SignedSecretKey, pgp::errors::Error>) {
    params.generate(rand::thread_rng())
}

/// Relies on `pgp::composed::SignedSecretKey::to_armored_string`.
#[verifier::external_body]
fn armor_secret_key(key: &pgp::composed::SignedSecretKey) -> (r: Result<String, pgp::errors::Error>) {
    key.to_armored_string(pgp::composed::ArmorOptions::default())
}

/// Relies on `pgp::composed::SignedSecretKey::to_public_key`.
#[verifier::external_body]
fn public_of(key: &pgp::composed::SignedSecretKey) -> (r: pgp::composed::SignedPublicKey) {
    key.to_public_key()
}

/// Relies on `pgp::composed::SignedPublicKey::to_armored_string`.
#[verifier::external_body]
fn armor_public_key(key: &pgp::composed::SignedPublicKey) -> (r: Result<String, pgp::errors::Error>) {
    key.to_armored_string(pgp::composed::ArmorOptions::default())
}

/// Relies on `Deserializable::from_string` for `SignedSecretKey`: parses an armored key.
#[verifier::external_body]
fn parse_secret_key(armored: &str) -> (r: Result<pgp::composed::SignedSecretKey, pgp::errors::Error>) {
    <pgp::composed::SignedSecretKey as pgp::composed::Deserializable>::from_string(armored).map(|(k, _)| k)
}

/// Relies on `Deserializable::from_string` for `SignedPublicKey`: parses an armored key.
#[verifier::external_body]
fn parse_public_key(armored: &str) -> (r: Result<pgp::composed::SignedPublicKey, pgp::errors::Error>) {
    <pgp::composed::SignedPublicKey as pgp::composed::Deserializable>::from_string(armored).map(|(k, _)| k)
}

/// A failure of the OpenPGP library, reported as [`RepoError::Parse`].
fn pgp_result<T>(r: Result<T, pgp::errors::Error>) -> (o: Result<T, RepoError>)
    ensures
        r is Ok ==> o == Ok::<T, RepoError>(r->Ok_0),
        r is Err ==> o == Err::<T, RepoError>(RepoError::Parse),
{
    match r {
        Ok(v) => Ok(v),
        Err(_) => Err(RepoError::Parse),
    }
}

/// The abstract value of a stored key.
pub struct GpgKeyModel {
    pub id: Seq<char>,
    pub description: Option<Seq<char>>,
    pub user_id: Seq<char>,
    pub secret_key: Seq<char>,
    pub public_key: Seq<char>,
    pub created_at: i64,
}

/// A signing key of the keyring.
#[derive(Clone, Debug, PartialEq, Eq)]
pub struct GpgKey {
    pub id: String,
    pub description: Option<String>,
    pub user_id: String,
    /// Armored secret key.
    pub secret_key: String,
    /// Armored public key.
    pub public_key: String,
    /// Creation instant, in milliseconds since the Unix epoch (UTC).
    pub created_at: i64,
}

impl View for GpgKey {
    type V = GpgKeyModel;

    open spec fn view(&self) -> GpgKeyModel {
        GpgKeyModel {
            id: self.id@,
            description: opt_view(self.description),
            user_id: self.user_id@,
            secret_key: self.secret_key@,
            public_key: self.public_key@,
            created_at: self.created_at,
        }
    }
}

impl GpgKey {
    /// Generates a new Ed25519 signing key for `user_id` and stores both halves armored.
    pub fn new(id: &str, description: Option<String>, user_id: &str) -> (r: Result<GpgKey, RepoError>)
        ensures
            r matches Ok(k) ==> k@.id == id@ && k@.user_id == user_id@ && k@.description
                == opt_view(description),
            r is Err ==> r == Err::<GpgKey, RepoError>(RepoError::Parse),
    {
        let params = match secret_key_params(&KeyParams::signing_key(user_id)) {
            Ok(p) => p,
            Err(_) => {
                return Err(RepoError::Parse);
            },
        };
        let secret = pgp_result(generate_secret_key(params))?;
        let secret_key = pgp_result(armor_secret_key(&secret))?;
        let public_key = pgp_result(armor_public_key(&public_of(&secret)))?;
        Ok(
            GpgKey {
                id: String::from_str(id),
                description,
                user_id: String::from_str(user_id),
                secret_key,
                public_key,
                created_at: now_millis(),
            },
        )
    }

    /// The parsed secret key.
    pub fn secret_key(&self) -> (r: Result<pgp::composed::SignedSecretKey, RepoError>)
        ensures
            r is Err ==> r == Err::<pgp::composed::SignedSecretKey, RepoError>(RepoError::Parse),
    {
        pgp_result(parse_secret_key(self.secret_key.as_str()))
    }

    /// The parsed public key.
    pub fn public_key(&self) -> (r: Result<pgp::composed::SignedPublicKey, RepoError>)
        ensures
            r is Err ==> r == Err::<pgp::composed::SignedPublicKey, RepoError>(RepoError::Parse),
    {
        pgp_result(parse_public_key(self.public_key.as_str()))
    }

    /// Stores the key, replacing the key with its id.
    pub fn save(&self, db: &mut Db) -> (r: GpgKey)
        requires
            old(db).wf(),
        ensures
            final(db).wf(),
            r == *self,
            upserted::<GpgKey>(old(db).keys(), self@, final(db).keys()),
            final(db).packages() == old(db).packages(),
            final(db).tags() == old(db).tags(),
    {
        db.upsert_key(self.duplicate());
        self.duplicate()
    }

    /// The stored key with id `id`.
    pub fn get(db: &Db, id: &str) -> (r: Option<GpgKey>)
        ensures
            r is Some <==> has_key::<GpgKey>(db.keys(), id@),
            r matches Some(k) ==> k@.id == id@ && db.keys().contains(k@),
    {
        db.get_key(id)
    }

    /// Deletes the stored key with this id.
    pub fn delete(&self, db: &mut Db)
        requires
            old(db).wf(),
        ensures
            final(db).wf(),
            !has_key::<GpgKey>(final(db).keys(), self@.id),
            final(db).packages() == old(db).packages(),
            final(db).tags() == old(db).tags(),
    {
        db.remove_key(self.id.as_str());
    }

    /// Every stored key.
    pub fn get_all(db: &Db) -> (r: Vec<GpgKey>)
        ensures
            r@.map_values(|k: GpgKey| k@) == db.keys(),
    {
        db.all_keys()
    }

    /// A copy of this key.
    pub fn duplicate(&self) -> (r: GpgKey)
        ensures
            r == *self,
    {
        GpgKey {
            id: self.id.clone(),
            description: copy_opt(&self.description),
            user_id: self.user_id.clone(),
            secret_key: self.secret_key.clone(),
            public_key: self.public_key.clone(),
            created_at: self.created_at,
        }
    }
}

impl Record for GpgKey {
    open spec fn key_of(v: GpgKeyModel) -> Seq<char> {
        v.id
    }

    fn key(&self) -> (r: &String) {
        &self.id
    }

    fn duplicate(&self) -> (r: GpgKey) {
        GpgKey::duplicate(self)
    }
}

/// The public projection of a key: everything but the secret half.
#[derive(Clone, Debug, PartialEq, Eq)]
pub struct GpgKeyRef {
    pub id: String,
    pub user_id: String,
    pub description: Option<String>,
    pub public_key: String,
    pub created_at: i64,
}

impl<'a> From<&'a GpgKey> for GpgKeyRef {
    fn from(key: &'a GpgKey) -> (r: GpgKeyRef) {
        GpgKeyRef {
            id: key.id.clone(),
            user_id: key.user_id.clone(),
            description: copy_opt(&key.description),
            public_key: key.public_key.clone(),
            created_at: key.created_at,
        }
    }
}

impl<'a> vstd::std_specs::convert::FromSpecImpl<&'a GpgKey> for GpgKeyRef {
    open spec fn obeys_from_spec() -> bool {
        true
    }

    open spec fn from_spec(key: &'a GpgKey) -> GpgKeyRef {
        GpgKeyRef {
            id: key.id,
            user_id: key.user_id,
            description: key.description,
            public_key: key.public_key,
            created_at: key.created_at,
        }
    }
}

} // verus!
