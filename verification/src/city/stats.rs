//! Distribution descriptors and their resolution into samples.
//!
//! A constant distribution is resolved on the spot. Uniform and normal
//! distributions are sampled by a service outside this crate: the crate says
//! what to ask of it and checks what it replied.

use vstd::prelude::*;
use vstd::std_specs::convert::TryFromSpecImpl;
use crate::city::settings::setting::Setting;
use crate::city::settings::tree::{path_of, TreeMap};
use crate::city::settings::{agrees, float_at, string_at, Error, Flaw, Settings};

verus! {

/// A distribution to draw samples from: its kind by name, the range of its
/// samples and its skew, in fixed-point units.
#[derive(Debug)]
pub struct Distribution {
    pub min: i64,
    pub max: i64,
    pub skew: i64,
    pub dist: String,
}

/// One distribution for each axis.
pub struct Distribution2 {
    pub x: Distribution,
    pub y: Distribution,
}

/// The distribution that `tree` holds below `base`, or the first flaw met
/// while reading its skew, its kind, its minimum and its maximum, in this order.
pub open spec fn distribution_at(tree: TreeMap<Setting>, base: Seq<Seq<char>>) -> Result<
    Distribution,
    Flaw,
> {
    match float_at(tree, base.push("skew"@)) {
        Err(flaw) => Err(flaw),
        Ok(skew) => match string_at(tree, base.push("distribution"@)) {
            Err(flaw) => Err(flaw),
            Ok(dist) => match float_at(tree, base.push("min"@)) {
                Err(flaw) => Err(flaw),
                Ok(min) => match float_at(tree, base.push("max"@)) {
                    Err(flaw) => Err(flaw),
                    Ok(max) => Ok(Distribution { min, max, skew, dist }),
                },
            },
        },
    }
}

/// The pair of distributions that `tree` holds below `base`, one below `x`
/// and one below `y`, or the first flaw met while reading them in this order.
pub open spec fn distribution2_at(tree: TreeMap<Setting>, base: Seq<Seq<char>>) -> Result<
    Distribution2,
    Flaw,
> {
    match distribution_at(tree, base.push("x"@)) {
        Err(flaw) => Err(flaw),
        Ok(x) => match distribution_at(tree, base.push("y"@)) {
            Err(flaw) => Err(flaw),
            Ok(y) => Ok(Distribution2 { x, y }),
        },
    }
}

fn copy_path<'a>(path: &Vec<&'a str>) -> (r: Vec<&'a str>)
    ensures
        r@ == path@,
{
    let mut r: Vec<&str> = Vec::new();
    let mut i: usize = 0;
    while i < path.len()
        invariant
            i <= path.len(),
            r.len() == i,
            forall|j: int| 0 <= j < i ==> r@[j] == path@[j],
        decreases path.len() - i,
    {
        r.push(path[i]);
        i = i + 1;
    }
    assert(r@ =~= path@);
    r
}

impl Distribution {
    /// Reads the distribution that `settings` hold below `base_path`.
    pub fn try_from_settings(settings: &Settings, base_path: Vec<&str>) -> (res: Result<Self, Error>)
        ensures
            agrees(res, distribution_at(settings.tree(), path_of(base_path@))),
    {
        Ok(
            Distribution {
                skew: settings.get_endpoint_float(copy_path(&base_path), "skew")?,
                dist: settings.get_endpoint_string(copy_path(&base_path), "distribution")?,
                min: settings.get_endpoint_float(copy_path(&base_path), "min")?,
                max: settings.get_endpoint_float(copy_path(&base_path), "max")?,
            },
        )
    }
}

impl TryFrom<Vec<Distribution>> for Distribution2 {
    type Error = ();

    /// The last two of `vec`, the last one for the y axis.
    fn try_from(vec: Vec<Distribution>) -> (res: Result<Self, ()>) {
        let mut vec = vec;
        if vec.len() < 2 {
            return Err(());
        }
        let y = vec.pop().unwrap();
        let x = vec.pop().unwrap();
        Ok(Self { x, y })
    }
}

impl TryFromSpecImpl<Vec<Distribution>> for Distribution2 {
    open spec fn obeys_try_from_spec() -> bool {
        true
    }

    open spec fn try_from_spec(vec: Vec<Distribution>) -> Result<Self, ()> {
        if vec.len() < 2 {
            Err(())
        } else {
            Ok(Distribution2 { x: vec@[vec.len() - 2], y: vec@[vec.len() - 1] })
        }
    }
}

impl Distribution2 {
    /// Reads the pair of distributions that `settings` hold below
    /// `base_path`.
    pub fn try_from_settings(settings: &Settings, base_path: Vec<&str>) -> (res: Result<Self, Error>)
        ensures
            agrees(res, distribution2_at(settings.tree(), path_of(base_path@))),
    {
        let mut x_path = copy_path(&base_path);
        x_path.push("x");
        let mut y_path = base_path;
        y_path.push("y");
        assert(path_of(x_path@) =~= path_of(base_path@).push("x"@));
        assert(path_of(y_path@) =~= path_of(base_path@).push("y"@));
        let mut dists: Vec<Distribution> = Vec::new();
        dists.push(Distribution::try_from_settings(settings, x_path)?);
        dists.push(Distribution::try_from_settings(settings, y_path)?);
        Ok(Distribution2::try_from(dists).unwrap())
    }
}

/// Why the sampler gave no samples.
#[derive(Debug)]
pub enum RequestError {
    /// The sampler was unreachable or the transport failed.
    Network,
    /// The sampler replied, but not with the samples asked for.
    MalformedResponse,
}

/// What is asked of the sampler: `multiplicity` samples of a distribution.
#[derive(Debug)]
pub struct SampleRequest {
    pub distribution: String,
    pub skew: i64,
    pub min: i64,
    pub max: i64,
    pub multiplicity: u32,
}

/// The request that asks the sampler for `multiplicity` samples of `dist`.
pub fn request(multiplicity: u32, dist: &Distribution) -> (r: SampleRequest)
    ensures
        r.distribution@ == dist.dist@,
        r.skew == dist.skew,
        r.min == dist.min,
        r.max == dist.max,
        r.multiplicity == multiplicity,
{
    SampleRequest {
        distribution: dist.dist.clone(),
        skew: dist.skew,
        min: dist.min,
        max: dist.max,
        multiplicity,
    }
}

/// What a reply of the sampler to `request` is worth.
pub open spec fn checked_reply(request: SampleRequest, reply: Result<Vec<i64>, RequestError>) -> Result<
    Vec<i64>,
    RequestError,
> {
    match reply {
        Ok(data) => if data.len() == request.multiplicity {
            Ok(data)
        } else {
            Err(RequestError::MalformedResponse)
        },
        Err(error) => Err(error),
    }
}

/// Checks the sampler's reply to `request`: a failure stays what it is, and
/// samples pass only if there are exactly as many as were asked for.
pub fn receive(request: &SampleRequest, reply: Result<Vec<i64>, RequestError>) -> (res: Result<
    Vec<i64>,
    RequestError,
>)
    ensures
        res == checked_reply(*request, reply),
{
    match reply {
        Ok(data) => {
            if data.len() == request.multiplicity as usize {
                Ok(data)
            } else {
                Err(RequestError::MalformedResponse)
            }
        },
        Err(error) => Err(error),
    }
}

} // verus!
