//! The instance commitment computer: validates public-input vectors against a
//! circuit's declared shape, zero-pads each to the domain size, and commits
//! it to one affine curve point.

use vstd::prelude::*;

use crate::backend::commit_lagrange_default;
use crate::backend::commitment_of;
use crate::backend::domain_create;
use crate::backend::domain_n;
use crate::backend::domain_of;
use crate::backend::params_create;
use crate::backend::params_n;
use crate::backend::params_of;
use crate::backend::scalar_zero;
use crate::backend::zero_scalar;
use crate::backend::CommitmentDomain;
use crate::backend::CommitmentParams;
use pasta_curves::EqAffine;
use pasta_curves::Fp;

verus! {

/// Why a batch of instance sets was rejected.
#[derive(Clone, Copy, Debug, PartialEq, Eq, Structural)]
pub enum CommitError {
    /// An instance set's column count differs from the declared
    /// instance-column count.
    InvalidInstances,
    /// An input vector is longer than the usable domain capacity.
    InstanceTooLarge,
}

/// A coefficient vector right-padded with the zero scalar to length `n`.
pub open spec fn padded_to(v: Seq<Fp>, n: nat) -> Seq<Fp>
    recommends
        v.len() <= n,
{
    v + Seq::new((n - v.len()) as nat, |i: int| zero_scalar())
}

/// Every instance set holds exactly `cols` column vectors.
pub open spec fn cols_ok(sets: Seq<Seq<Seq<Fp>>>, cols: nat) -> bool {
    forall|i: int| 0 <= i < sets.len() ==> #[trigger] sets[i].len() == cols
}

/// Every column vector's length is at most `cap`.
pub open spec fn sizes_ok(sets: Seq<Seq<Seq<Fp>>>, cap: nat) -> bool {
    forall|i: int, j: int|
        0 <= i < sets.len() && 0 <= j < sets[i].len() ==> #[trigger] sets[i][j].len() <= cap
}

/// The mathematical value of a batch of instance sets: a sequence of sets,
/// each a sequence of column vectors of scalars.
pub open spec fn view_sets(sets: Seq<Vec<Vec<Fp>>>) -> Seq<Seq<Seq<Fp>>> {
    Seq::new(sets.len(), |i: int| Seq::new(sets[i]@.len(), |j: int| sets[i]@[j]@))
}

/// The mathematical value of a batch of commitments.
pub open spec fn view_out(out: Seq<Vec<EqAffine>>) -> Seq<Seq<EqAffine>> {
    Seq::new(out.len(), |i: int| out[i]@)
}

/// The mathematical value of a commitment result.
pub open spec fn view_result(r: Result<Vec<Vec<EqAffine>>, CommitError>) -> Result<
    Seq<Seq<EqAffine>>,
    CommitError,
> {
    match r {
        Ok(out) => Ok(view_out(out@)),
        Err(e) => Err(e),
    }
}

/// Commitment parameters and the circuit shape the instances are checked
/// against: the domain size, the declared instance-column count and the
/// reserved blinding factors.
pub struct CommitmentEngine {
    params: CommitmentParams,
    domain: CommitmentDomain,
    n: u64,
    num_instance_columns: usize,
    blinding_factors: usize,
}

impl CommitmentEngine {
    /// The number of rows of the commitment domain.
    pub closed spec fn domain_size(self) -> nat {
        self.n as nat
    }

    /// The declared number of instance columns.
    pub closed spec fn cols(self) -> nat {
        self.num_instance_columns as nat
    }

    /// The number of blinding factors reserved in the domain.
    pub closed spec fn blinders(self) -> nat {
        self.blinding_factors as nat
    }

    /// The usable row count: the domain size less the blinding rows and one.
    pub closed spec fn capacity(self) -> nat {
        (self.n - (self.blinding_factors + 1)) as nat
    }

    /// The engine's parameters and domain agree on the domain size, the
    /// blinding rows leave at least zero usable rows, and the size fits the
    /// machine.
    pub closed spec fn wf(self) -> bool {
        &&& params_n(self.params) == self.n as nat
        &&& domain_n(self.domain) == self.n as nat
        &&& self.blinding_factors + 1 <= self.n
        &&& self.n <= usize::MAX
    }

    /// The commitment this engine assigns to one column vector: the vector
    /// zero-padded to the domain size, committed under the engine's
    /// parameters.
    pub closed spec fn commitment_spec(self, v: Seq<Fp>) -> EqAffine {
        commitment_of(self.params, padded_to(v, self.domain_size()))
    }

    /// The engine `new` builds for given arguments: its parameters and
    /// domain are the deterministic ones derived for the size exponent, so
    /// equal arguments give equal engines.
    pub closed spec fn spec_new(
        k: u32,
        num_instance_columns: usize,
        blinding_factors: usize,
    ) -> CommitmentEngine {
        CommitmentEngine {
            params: params_of(k),
            domain: domain_of(1, k),
            n: 1u64 << k,
            num_instance_columns,
            blinding_factors,
        }
    }

    /// Builds an engine over a fresh domain of `1 << k` rows.
    pub fn new(k: u32, num_instance_columns: usize, blinding_factors: usize) -> (r: Self)
        requires
            k < 32,
            blinding_factors + 1 <= (1u64 << k),
            (1u64 << k) <= usize::MAX,
        ensures
            r == Self::spec_new(k, num_instance_columns, blinding_factors),
            r.wf(),
            r.domain_size() == (1u64 << k) as nat,
            r.cols() == num_instance_columns as nat,
            r.blinders() == blinding_factors as nat,
            r.capacity() == ((1u64 << k) - (blinding_factors + 1)) as nat,
    {
        let params = params_create(k);
        let domain = domain_create(1, k);
        CommitmentEngine { params, domain, n: 1u64 << k, num_instance_columns, blinding_factors }
    }

    /// Pads one column vector with zeros to the domain size and commits it.
    pub fn commit_column(&self, column: &Vec<Fp>) -> (r: EqAffine)
        requires
            self.wf(),
            column@.len() <= self.domain_size(),
        ensures
            r == self.commitment_spec(column@),
    {
        let n: usize = self.n as usize;
        let mut poly: Vec<Fp> = Vec::new();
        let mut i: usize = 0;
        while i < column.len()
            invariant
                i <= column.len(),
                poly@ == column@.subrange(0, i as int),
            decreases column.len() - i,
        {
            poly.push(column[i]);
            i = i + 1;
        }
        assert(poly@ == column@);
        while poly.len() < n
            invariant
                self.wf(),
                n == self.domain_size(),
                column@.len() <= poly@.len() <= n,
                poly@.subrange(0, column@.len() as int) == column@,
                forall|j: int|
                    column@.len() <= j < poly@.len() ==> #[trigger] poly@[j] == zero_scalar(),
            decreases n - poly.len(),
        {
            poly.push(scalar_zero());
        }
        assert(poly@ =~= padded_to(column@, self.domain_size()));
        commit_lagrange_default(&self.params, &self.domain, poly)
    }

    /// What committing a batch of instance sets returns: the shape-mismatch
    /// error when some set's column count differs from the declared one, else
    /// the capacity-overflow error when some vector exceeds the usable row
    /// count, else one commitment per vector in the input order.
    pub open spec fn outcome(self, sets: Seq<Seq<Seq<Fp>>>) -> Result<
        Seq<Seq<EqAffine>>,
        CommitError,
    > {
        if !cols_ok(sets, self.cols()) {
            Err(CommitError::InvalidInstances)
        } else if !sizes_ok(sets, self.capacity()) {
            Err(CommitError::InstanceTooLarge)
        } else {
            Ok(
                Seq::new(
                    sets.len(),
                    |i: int| Seq::new(sets[i].len(), |j: int| self.commitment_spec(sets[i][j])),
                ),
            )
        }
    }

    /// Commits every column vector of one instance set, or rejects the set as
    /// soon as one vector exceeds the usable row count.
    pub fn commit_set(&self, set: &Vec<Vec<Fp>>) -> (r: Result<Vec<EqAffine>, CommitError>)
        requires
            self.wf(),
        ensures
            match r {
                Ok(out) => {
                    &&& forall|j: int|
                        0 <= j < set@.len() ==> #[trigger] set@[j]@.len() <= self.capacity()
                    &&& out@.len() == set@.len()
                    &&& forall|j: int|
                        0 <= j < set@.len() ==> #[trigger] out@[j] == self.commitment_spec(
                            set@[j]@,
                        )
                },
                Err(e) => {
                    &&& e == CommitError::InstanceTooLarge
                    &&& exists|j: int|
                        0 <= j < set@.len() && (#[trigger] set@[j]@).len() > self.capacity()
                },
            },
    {
        let cap: usize = (self.n as usize) - (self.blinding_factors + 1);
        let mut out: Vec<EqAffine> = Vec::new();
        let mut j: usize = 0;
        while j < set.len()
            invariant
                self.wf(),
                j <= set@.len(),
                out@.len() == j,
                cap as nat == self.capacity(),
                forall|t: int| 0 <= t < j ==> #[trigger] set@[t]@.len() <= self.capacity(),
                forall|t: int|
                    0 <= t < j ==> #[trigger] out@[t] == self.commitment_spec(set@[t]@),
            decreases set@.len() - j,
        {
            if set[j].len() > cap {
                return Err(CommitError::InstanceTooLarge);
            }
            let c = self.commit_column(&set[j]);
            out.push(c);
            j = j + 1;
        }
        Ok(out)
    }

    /// Validates every instance set's column count against the declared
    /// instance-column count, then commits every column vector, zero-padded
    /// to the domain size; the first failure aborts the batch.
    pub fn commit_instances(&self, instances: &Vec<Vec<Vec<Fp>>>) -> (r: Result<
        Vec<Vec<EqAffine>>,
        CommitError,
    >)
        requires
            self.wf(),
        ensures
            view_result(r) == self.outcome(view_sets(instances@)),
    {
        let ghost sets = view_sets(instances@);
        let mut i: usize = 0;
        while i < instances.len()
            invariant
                sets == view_sets(instances@),
                i <= instances@.len(),
                forall|t: int| 0 <= t < i ==> #[trigger] sets[t].len() == self.cols(),
            decreases instances@.len() - i,
        {
            if instances[i].len() != self.num_instance_columns {
                assert(sets[i as int].len() != self.cols());
                assert(!cols_ok(sets, self.cols()));
                return Err(CommitError::InvalidInstances);
            }
            i = i + 1;
        }
        assert(cols_ok(sets, self.cols()));
        let mut out: Vec<Vec<EqAffine>> = Vec::new();
        let mut i: usize = 0;
        while i < instances.len()
            invariant
                self.wf(),
                sets == view_sets(instances@),
                cols_ok(sets, self.cols()),
                i <= instances@.len(),
                out@.len() == i,
                forall|t: int, u: int|
                    0 <= t < i && 0 <= u < sets[t].len() ==> #[trigger] sets[t][u].len()
                        <= self.capacity(),
                forall|t: int|
                    0 <= t < i ==> #[trigger] out@[t]@ =~= Seq::new(
                        sets[t].len(),
                        |u: int| self.commitment_spec(sets[t][u]),
                    ),
            decreases instances@.len() - i,
        {
            match self.commit_set(&instances[i]) {
                Ok(c) => {
                    assert(c@ =~= Seq::new(
                        sets[i as int].len(),
                        |u: int| self.commitment_spec(sets[i as int][u]),
                    ));
                    out.push(c);
                },
                Err(e) => {
                    proof {
                        let set = instances@[i as int];
                        let j = choose|j: int|
                            0 <= j < set@.len() && (#[trigger] set@[j]@).len() > self.capacity();
                        assert(sets[i as int][j] == set@[j]@);
                        assert(sets[i as int][j].len() > self.capacity());
                        assert(!sizes_ok(sets, self.capacity()));
                    }
                    return Err(e);
                },
            }
            i = i + 1;
        }
        assert(sizes_ok(sets, self.capacity()));
        assert(view_out(out@) =~~= Seq::new(
            sets.len(),
            |t: int| Seq::new(sets[t].len(), |u: int| self.commitment_spec(sets[t][u])),
        ));
        Ok(out)
    }

    /// The number of domain rows, as the engine reports it.
    pub fn size(&self) -> (r: u64)
        ensures
            r as nat == self.domain_size(),
    {
        self.n
    }

    /// The declared instance-column count, as the engine reports it.
    pub fn num_columns(&self) -> (r: usize)
        ensures
            r as nat == self.cols(),
    {
        self.num_instance_columns
    }

    /// The reserved blinding-factor count, as the engine reports it.
    pub fn num_blinding_factors(&self) -> (r: usize)
        ensures
            r as nat == self.blinders(),
    {
        self.blinding_factors
    }

    /// The usable row count a column vector may fill.
    pub fn usable_rows(&self) -> (r: usize)
        requires
            self.wf(),
        ensures
            r as nat == self.capacity(),
    {
        (self.n as usize) - (self.blinding_factors + 1)
    }
}

/// Every batch whose sets all match the declared column count and whose
/// vectors all fit the usable capacity commits with no error, to one
/// commitment per input vector, grouped and ordered as the input is.
pub proof fn lemma_valid_batch_commits(e: CommitmentEngine, sets: Seq<Seq<Seq<Fp>>>)
    requires
        cols_ok(sets, e.cols()),
        sizes_ok(sets, e.capacity()),
    ensures
        e.outcome(sets) is Ok,
        e.outcome(sets)->Ok_0.len() == sets.len(),
        forall|i: int|
            0 <= i < sets.len() ==> #[trigger] e.outcome(sets)->Ok_0[i].len() == sets[i].len(),
        forall|i: int, j: int|
            0 <= i < sets.len() && 0 <= j < sets[i].len() ==> e.outcome(sets)->Ok_0[i][j]
                == e.commitment_spec(#[trigger] sets[i][j]),
{
}

/// A batch holding a set whose column count differs from the declared one is
/// rejected with the shape-mismatch error, whatever else it holds, and no
/// commitments are produced.
pub proof fn lemma_shape_mismatch_rejected(e: CommitmentEngine, sets: Seq<Seq<Seq<Fp>>>)
    requires
        !cols_ok(sets, e.cols()),
    ensures
        e.outcome(sets) == Err::<Seq<Seq<EqAffine>>, CommitError>(CommitError::InvalidInstances),
{
}

/// A batch of well-shaped sets holding a vector longer than the usable
/// capacity is rejected with the capacity-overflow error, and no commitments
/// are produced.
pub proof fn lemma_oversized_rejected(e: CommitmentEngine, sets: Seq<Seq<Seq<Fp>>>, i: int, j: int)
    requires
        cols_ok(sets, e.cols()),
        0 <= i < sets.len(),
        0 <= j < sets[i].len(),
        sets[i][j].len() > e.capacity(),
    ensures
        e.outcome(sets) == Err::<Seq<Seq<EqAffine>>, CommitError>(CommitError::InstanceTooLarge),
{
    assert(!sizes_ok(sets, e.capacity()));
}

/// Committing is deterministic: engines built with identical arguments give
/// identical outcomes on identical batches, so any two results of such calls
/// coincide.
pub proof fn lemma_deterministic(
    k: u32,
    num_instance_columns: usize,
    blinding_factors: usize,
    sets: Seq<Seq<Seq<Fp>>>,
    r1: Result<Seq<Seq<EqAffine>>, CommitError>,
    r2: Result<Seq<Seq<EqAffine>>, CommitError>,
)
    requires
        r1 == CommitmentEngine::spec_new(k, num_instance_columns, blinding_factors).outcome(sets),
        r2 == CommitmentEngine::spec_new(k, num_instance_columns, blinding_factors).outcome(sets),
    ensures
        r1 == r2,
{
}

/// Padding is exact: committing a vector equals committing the same vector
/// explicitly extended with zero scalars, as long as the extension still fits
/// the domain.
pub proof fn lemma_padding_equivalence(e: CommitmentEngine, v: Seq<Fp>, m: nat)
    requires
        v.len() + m <= e.domain_size(),
    ensures
        e.commitment_spec(v) == e.commitment_spec(v + Seq::new(m, |i: int| zero_scalar())),
{
    let w = v + Seq::new(m, |i: int| zero_scalar());
    assert(padded_to(v, e.domain_size()) =~= padded_to(w, e.domain_size()));
}

} // verus!
