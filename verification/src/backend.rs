//! Trusted boundary to the polynomial commitment scheme.
//!
//! The commitment parameters, the evaluation domain, the scalar field and the
//! curve points are opaque values of the proving library; this module wraps
//! them, names what they determine, and wraps the calls the commitment logic
//! makes. The parameter and domain types carry generic bounds on the proving
//! library's traits, which cannot be restated here, so each is held in a
//! field of an opaque struct of this library instead of being declared
//! directly.

use vstd::prelude::*;

use group::Curve;
use halo2_proofs::poly::commitment::Blind;
use halo2_proofs::poly::commitment::Params;
use halo2_proofs::poly::EvaluationDomain;
use pasta_curves::EqAffine;
use pasta_curves::Fp;

verus! {

#[verifier::external_type_specification]
#[verifier::external_body]
pub struct ExFp(Fp);

#[verifier::external_type_specification]
#[verifier::external_body]
pub struct ExEqAffine(EqAffine);

/// Public parameters of the commitment scheme over the Vesta curve; opaque
/// but for the facts the functions below state of it.
#[verifier::external_body]
pub struct CommitmentParams {
    inner: Params<EqAffine>,
}

/// An evaluation domain over the scalar field; opaque but for the facts the
/// functions below state of it.
#[verifier::external_body]
pub struct CommitmentDomain {
    inner: EvaluationDomain<Fp>,
}

/// The domain size the commitment parameters were built for: the length of
/// their Lagrange basis.
pub uninterp spec fn params_n(p: CommitmentParams) -> nat;

/// The row count of an evaluation domain: the coefficient-vector length its
/// basis conversion accepts.
pub uninterp spec fn domain_n(d: CommitmentDomain) -> nat;

/// The parameters `Params::new` derives for a given size exponent; the
/// derivation hashes fixed labels to curve points, so it depends on the
/// exponent alone.
pub uninterp spec fn params_of(k: u32) -> CommitmentParams;

/// The domain `EvaluationDomain::new` derives for a given quotient degree and
/// size exponent; the derivation depends on those two arguments alone.
pub uninterp spec fn domain_of(j: u32, k: u32) -> CommitmentDomain;

/// Whether a scalar is the additive identity of the field.
pub uninterp spec fn scalar_is_zero(s: Fp) -> bool;

/// The additive identity of the scalar field. There is exactly one such
/// element, so `choose` picks it.
pub closed spec fn zero_scalar() -> Fp {
    choose|s: Fp| scalar_is_zero(s)
}

/// The affine commitment the parameters assign to a Lagrange coefficient
/// vector under the default blinding factor: a multiexponentiation over fixed
/// bases followed by an affine normalization, a function of the parameters
/// and the coefficients alone.
pub uninterp spec fn commitment_of(p: CommitmentParams, coeffs: Seq<Fp>) -> EqAffine;

/// Relies on `Params::<EqAffine>::new`, which derives deterministic
/// parameters with a Lagrange basis of length `1 << k`, and panics unless
/// `k < 32`.
#[verifier::external_body]
pub(crate) fn params_create(k: u32) -> (r: CommitmentParams)
    requires
        k < 32,
    ensures
        r == params_of(k),
        params_n(r) == (1u64 << k) as nat,
{
    CommitmentParams { inner: Params::new(k) }
}

/// Relies on `EvaluationDomain::<Fp>::new`, which derives a deterministic
/// domain of `1 << k` rows; for a quotient degree of one or two it keeps the
/// extended size exponent at `k`, within the field's two-adicity of 32, so it
/// does not panic.
#[verifier::external_body]
pub(crate) fn domain_create(j: u32, k: u32) -> (r: CommitmentDomain)
    requires
        1 <= j <= 2,
        k < 32,
    ensures
        r == domain_of(j, k),
        domain_n(r) == (1u64 << k) as nat,
{
    CommitmentDomain { inner: EvaluationDomain::new(j, k) }
}

/// Relies on `Fp::zero`, which returns the field's additive identity.
#[verifier::external_body]
pub(crate) fn scalar_zero() -> (r: Fp)
    ensures
        r == zero_scalar(),
        scalar_is_zero(r),
{
    Fp::zero()
}

/// Relies on `EvaluationDomain::lagrange_from_vec`, which converts the vector
/// into a Lagrange polynomial and panics unless its length is the domain row
/// count, and on `Params::commit_lagrange` with `Blind::default()`, whose
/// multiexponentiation pairs the coefficients with the parameters' Lagrange
/// basis of equal length; `to_affine` converts the resulting point.
#[verifier::external_body]
pub(crate) fn commit_lagrange_default(
    params: &CommitmentParams,
    domain: &CommitmentDomain,
    values: Vec<Fp>,
) -> (r: EqAffine)
    requires
        params_n(*params) == values@.len(),
        domain_n(*domain) == values@.len(),
    ensures
        r == commitment_of(*params, values@),
{
    params
        .inner
        .commit_lagrange(&domain.inner.lagrange_from_vec(values), Blind::default())
        .to_affine()
}

} // verus!
