//! Resolution of a distribution into samples, as far as it needs no sampler.

use vstd::prelude::*;
use vstd::string::StringExecFns;
use crate::city::stats::{checked_reply, receive, request, Distribution, RequestError, SampleRequest};
use crate::city::{Builder, GenerateError};

verus! {

/// How the samples of a distribution are had.
#[derive(Debug)]
pub enum Sampling {
    /// The samples themselves: no sampler is needed.
    Local(Vec<i64>),
    /// The request to send to the sampler.
    Remote(SampleRequest),
}

/// Whether `dist` is of the kind called `name`.
pub open spec fn is_kind(dist: Distribution, name: &str) -> bool {
    dist.dist@ == name@
}

/// Whether `res` is the resolution of `dist` into `multiplicity` samples.
///
/// A constant distribution yields its maximum over and over, whatever its
/// minimum. A kind other than constant, normal and uniform is an error, and so
/// is a normal or uniform distribution whose minimum exceeds its maximum; every
/// other distribution is left to the sampler.
pub open spec fn resolves(
    res: Result<Sampling, GenerateError>,
    multiplicity: u32,
    dist: Distribution,
) -> bool {
    if is_kind(dist, "constant") {
        res matches Ok(Sampling::Local(samples)) && samples@ == Seq::new(
            multiplicity as nat,
            |i: int| dist.max,
        )
    } else if !is_kind(dist, "normal") && !is_kind(dist, "uniform") {
        res matches Err(GenerateError::UnknownDistribution(name)) && name@ == dist.dist@
    } else if dist.max < dist.min {
        res matches Err(GenerateError::DistributionInverted { min, max }) && min == dist.min && max
            == dist.max
    } else {
        res matches Ok(Sampling::Remote(asked)) && asked.distribution@ == dist.dist@ && asked.skew
            == dist.skew && asked.min == dist.min && asked.max == dist.max && asked.multiplicity
            == multiplicity
    }
}

/// A constant distribution resolves on the spot, without the sampler, into
/// as many copies of its maximum as were asked for, whatever its minimum.
pub proof fn lemma_constant_resolves_locally(
    res: Result<Sampling, GenerateError>,
    multiplicity: u32,
    dist: Distribution,
)
    requires
        resolves(res, multiplicity, dist),
        is_kind(dist, "constant"),
    ensures
        res matches Ok(Sampling::Local(samples)) && samples@.len() == multiplicity && forall|i: int|
            0 <= i < multiplicity ==> samples@[i] == dist.max,
{
}

/// A uniform or normal distribution whose minimum exceeds its maximum never
/// resolves: it is rejected with both bounds, however many samples are asked
/// for.
pub proof fn lemma_inverted_range_is_rejected(
    res: Result<Sampling, GenerateError>,
    multiplicity: u32,
    dist: Distribution,
)
    requires
        resolves(res, multiplicity, dist),
        is_kind(dist, "uniform") || is_kind(dist, "normal"),
        dist.min > dist.max,
    ensures
        res matches Err(GenerateError::DistributionInverted { min, max }) && min == dist.min && max
            == dist.max,
{
    reveal_strlit("constant");
    reveal_strlit("uniform");
    reveal_strlit("normal");
    assert("constant"@.len() == 8);
    assert("uniform"@.len() == 7);
    assert("normal"@.len() == 6);
}

fn kind_is(dist: &Distribution, name: &str) -> (r: bool)
    ensures
        r == is_kind(*dist, name),
{
    let wanted = String::from_str(name);
    dist.dist == wanted
}

impl Builder {
    /// Resolves `dist` into `multiplicity` samples, or into the request that
    /// gets them from the sampler.
    pub fn get_sample(multiplicity: u32, dist: &Distribution) -> (res: Result<
        Sampling,
        GenerateError,
    >)
        ensures
            resolves(res, multiplicity, *dist),
    {
        // We handle constant distributions ourselves
        if kind_is(dist, "constant") {
            let mut samples: Vec<i64> = Vec::new();
            let mut i: u32 = 0;
            while i < multiplicity
                invariant
                    i <= multiplicity,
                    samples.len() == i,
                    forall|j: int| 0 <= j < i ==> samples@[j] == dist.max,
                decreases multiplicity - i,
            {
                samples.push(dist.max);
                i = i + 1;
            }
            assert(samples@ =~= Seq::new(multiplicity as nat, |i: int| dist.max));
            return Ok(Sampling::Local(samples));
        }
        if !kind_is(dist, "normal") && !kind_is(dist, "uniform") {
            return Err(GenerateError::UnknownDistribution(dist.dist.clone()));
        }
        if dist.max < dist.min {
            return Err(GenerateError::DistributionInverted { min: dist.min, max: dist.max });
        }
        Ok(Sampling::Remote(request(multiplicity, dist)))
    }

    /// Takes the sampler's reply to `asked`: samples pass if there are exactly
    /// as many as were asked for, and every failure is a failed request.
    pub fn accept_samples(asked: &SampleRequest, reply: Result<Vec<i64>, RequestError>) -> (res:
        Result<Vec<i64>, GenerateError>)
        ensures
            match checked_reply(*asked, reply) {
                Ok(samples) => res == Ok::<Vec<i64>, GenerateError>(samples),
                Err(error) => res == Err::<Vec<i64>, GenerateError>(
                    GenerateError::StatsRequest(error),
                ),
            },
    {
        match receive(asked, reply) {
            Ok(samples) => Ok(samples),
            Err(error) => Err(GenerateError::StatsRequest(error)),
        }
    }
}

} // verus!
