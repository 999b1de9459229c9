use cityservice::city::sampling::Sampling;
use cityservice::city::stats::{receive, request, Distribution, RequestError, SampleRequest};
use cityservice::city::{Builder, GenerateError};

fn dist(kind: &str, min: i64, max: i64, skew: i64) -> Distribution {
    Distribution { min, max, skew, dist: String::from(kind) }
}

#[test]
fn constant_repeats_its_maximum() {
    match Builder::get_sample(5, &dist("constant", 0, 7, 0)) {
        Ok(Sampling::Local(samples)) => assert_eq!(samples, vec![7, 7, 7, 7, 7]),
        other => panic!("{:?}", other),
    }
    match Builder::get_sample(0, &dist("constant", 0, 7, 0)) {
        Ok(Sampling::Local(samples)) => assert!(samples.is_empty()),
        other => panic!("{:?}", other),
    }
}

#[test]
fn constant_ignores_the_order_of_its_range() {
    for n in [0u32, 1, 4] {
        match Builder::get_sample(n, &dist("constant", 10, 2, 0)) {
            Ok(Sampling::Local(samples)) => assert_eq!(samples, vec![2; n as usize]),
            other => panic!("{:?}", other),
        }
    }
}

#[test]
fn inverted_range_is_rejected() {
    for n in [0u32, 1, 4] {
        for kind in ["uniform", "normal"] {
            match Builder::get_sample(n, &dist(kind, 10, 2, 0)) {
                Err(GenerateError::DistributionInverted { min, max }) => {
                    assert_eq!((min, max), (10, 2))
                }
                other => panic!("{:?}", other),
            }
        }
    }
}

#[test]
fn unknown_kind_is_rejected() {
    // The kind is checked before the range.
    for kind in ["gaussian", "", "Constant", "uniform "] {
        match Builder::get_sample(3, &dist(kind, 10, 2, 0)) {
            Err(GenerateError::UnknownDistribution(name)) => assert_eq!(name, kind),
            other => panic!("{:?}", other),
        }
    }
}

#[test]
fn other_distributions_go_to_the_sampler() {
    for kind in ["uniform", "normal"] {
        match Builder::get_sample(9, &dist(kind, -3, 8, 2)) {
            Ok(Sampling::Remote(asked)) => {
                assert_eq!(asked.distribution, kind);
                assert_eq!((asked.min, asked.max, asked.skew), (-3, 8, 2));
                assert_eq!(asked.multiplicity, 9);
            }
            other => panic!("{:?}", other),
        }
    }
    // Equal bounds are in order.
    assert!(matches!(
        Builder::get_sample(1, &dist("uniform", 4, 4, 0)),
        Ok(Sampling::Remote(_))
    ));
}

#[test]
fn request_describes_the_distribution() {
    let asked = request(12, &dist("normal", 1, 2, 3));
    assert_eq!(asked.distribution, "normal");
    assert_eq!((asked.min, asked.max, asked.skew, asked.multiplicity), (1, 2, 3, 12));
}

fn asked_for(n: u32) -> SampleRequest {
    request(n, &dist("uniform", 0, 10, 0))
}

#[test]
fn reply_must_have_the_samples_asked_for() {
    assert!(matches!(receive(&asked_for(3), Ok(vec![1, 2, 3])), Ok(samples) if samples == vec![1, 2, 3]));
    assert!(matches!(receive(&asked_for(0), Ok(vec![])), Ok(samples) if samples.is_empty()));
    assert!(matches!(receive(&asked_for(3), Ok(vec![1, 2])), Err(RequestError::MalformedResponse)));
    assert!(matches!(receive(&asked_for(3), Ok(vec![])), Err(RequestError::MalformedResponse)));
    assert!(matches!(
        receive(&asked_for(3), Ok(vec![1, 2, 3, 4])),
        Err(RequestError::MalformedResponse)
    ));
    assert!(matches!(receive(&asked_for(3), Err(RequestError::Network)), Err(RequestError::Network)));
    assert!(matches!(
        receive(&asked_for(3), Err(RequestError::MalformedResponse)),
        Err(RequestError::MalformedResponse)
    ));
}

#[test]
fn failed_requests_fail_the_generation() {
    assert!(matches!(
        Builder::accept_samples(&asked_for(2), Ok(vec![4, 5])),
        Ok(samples) if samples == vec![4, 5]
    ));
    assert!(matches!(
        Builder::accept_samples(&asked_for(2), Ok(vec![4])),
        Err(GenerateError::StatsRequest(RequestError::MalformedResponse))
    ));
    assert!(matches!(
        Builder::accept_samples(&asked_for(2), Err(RequestError::Network)),
        Err(GenerateError::StatsRequest(RequestError::Network))
    ));
}
