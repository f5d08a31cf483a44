//! Types of outside crates that the library's signatures carry.
use vstd::prelude::*;

verus! {

/// `rpm::PackageMetadata`: the lead and headers of a parsed RPM.
#[verifier::external_type_specification]
#[verifier::external_body]
pub struct ExPackageMetadata(rpm::PackageMetadata);

/// `rpm::Package`: a whole RPM, headers and payload.
#[verifier::external_type_specification]
#[verifier::external_body]
pub struct ExPackage(rpm::Package);

/// `rpm::Error`: a failure of the rpm crate.
#[verifier::external_type_specification]
#[verifier::external_body]
pub struct ExRpmError(rpm::Error);

/// `rpm::signature::pgp::Signer`: a loaded OpenPGP signing key.
#[verifier::external_type_specification]
#[verifier::external_body]
pub struct ExSigner(rpm::signature::pgp::Signer);

/// `pgp::composed::SecretKeyParams`: parameters of a key to generate.
#[verifier::external_type_specification]
#[verifier::external_body]
pub struct ExSecretKeyParams(pgp::composed::SecretKeyParams);

/// `pgp::composed::SecretKeyParamsBuilderError`: invalid key parameters.
#[verifier::external_type_specification]
#[verifier::external_body]
pub struct ExSecretKeyParamsBuilderError(pgp::composed::SecretKeyParamsBuilderError);

/// `pgp::composed::SignedSecretKey`: a self-signed secret key.
#[verifier::external_type_specification]
#[verifier::external_body]
pub struct ExSignedSecretKey(pgp::composed::SignedSecretKey);

/// `pgp::composed::SignedPublicKey`: a signed public key.
#[verifier::external_type_specification]
#[verifier::external_body]
pub struct ExSignedPublicKey(pgp::composed::SignedPublicKey);

/// `pgp::errors::Error`: a failure of the pgp crate.
#[verifier::external_type_specification]
#[verifier::external_body]
pub struct ExPgpError(pgp::errors::Error);

} // verus!
