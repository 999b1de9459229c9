use cityservice::city::settings::error::Error as SettingsError;
use cityservice::city::stats::RequestError;
use cityservice::city::GenerateError;
use cityservice::error::{Error, ErrorJson, InputError};
use cityservice::text::{decimal, fixed_to_text, join};

#[test]
fn numbers_as_text() {
    assert_eq!(decimal(0), "0");
    assert_eq!(decimal(7), "7");
    assert_eq!(decimal(10), "10");
    assert_eq!(decimal(1234567890), "1234567890");
    assert_eq!(decimal(u64::MAX), "18446744073709551615");

    assert_eq!(fixed_to_text(0), "0");
    assert_eq!(fixed_to_text(10_000_000), "10");
    assert_eq!(fixed_to_text(2_500_000), "2.5");
    assert_eq!(fixed_to_text(-2_500_000), "-2.5");
    assert_eq!(fixed_to_text(1), "0.000001");
    assert_eq!(fixed_to_text(-1), "-0.000001");
    assert_eq!(fixed_to_text(1_050_000), "1.05");
    assert_eq!(fixed_to_text(123_456_789), "123.456789");
    assert_eq!(fixed_to_text(i64::MAX), "9223372036854.775807");
    assert_eq!(fixed_to_text(i64::MIN), "-9223372036854.775808");
}

#[test]
fn paths_as_text() {
    let path = |keys: &[&str]| keys.iter().map(|s| String::from(*s)).collect::<Vec<String>>();
    assert_eq!(join(&path(&[])), "");
    assert_eq!(join(&path(&["a"])), "a");
    assert_eq!(join(&path(&["a", "b", "c"])), "a.b.c");
    assert_eq!(join(&path(&["", "x", ""])), ".x.");
}

#[test]
fn generation_errors_read_well() {
    assert_eq!(
        GenerateError::UnknownDistribution(String::from("poisson")).message(),
        "The \"poisson\" distribution is unknown, are you sure you typed it correctly? \
         We support \"normal\", \"uniform\", and \"constant\" distributions."
    );
    assert_eq!(
        GenerateError::DistributionInverted { min: 10_000_000, max: 2_000_000 }.message(),
        "There was a distribution with a min (10) greater than the max (2). \
         This is only allowed for constant distributions."
    );
}

#[test]
fn sampler_failures_tell_nothing_of_the_sampler() {
    assert_eq!(GenerateError::StatsRequest(RequestError::Network).message(), "Unknown");
    assert_eq!(GenerateError::StatsRequest(RequestError::MalformedResponse).message(), "Unknown");
}

#[test]
fn errors_sort_by_who_is_at_fault() {
    let inverted = || GenerateError::DistributionInverted { min: 3_000_000, max: 1_500_000 };
    assert!(matches!(
        Error::from(inverted()),
        Error::Input(InputError::BadDistribution(GenerateError::DistributionInverted { .. }))
    ));
    assert!(matches!(
        Error::from(GenerateError::UnknownDistribution(String::from("x"))),
        Error::Input(InputError::BadDistribution(GenerateError::UnknownDistribution(_)))
    ));
    assert!(matches!(
        Error::from(GenerateError::StatsRequest(RequestError::Network)),
        Error::Server
    ));
    assert!(matches!(
        Error::from(GenerateError::StatsRequest(RequestError::MalformedResponse)),
        Error::Server
    ));
    assert!(matches!(
        Error::from(SettingsError::WrongType(Vec::new())),
        Error::Input(InputError::BadSettingsStructure(SettingsError::WrongType(_)))
    ));

    assert_eq!(Error::Overloaded.status(), 500);
    assert_eq!(Error::Server.status(), 500);
    assert_eq!(Error::Submission.status(), 400);
    assert_eq!(Error::from(inverted()).status(), 400);
}

#[test]
fn service_errors_read_well() {
    assert_eq!(Error::Overloaded.message(), "Server is overloaded, please try again later.");
    assert_eq!(
        Error::Server.message(),
        "There is something wrong with our equipment at the moment, \
         we recommend you stand by and try again in a few hours"
    );
    assert_eq!(
        Error::Submission.message(),
        "If you're using a website to do this, then this \
         is a problem for the developers, please contact them \
         to get it fixed. \
         Otherwise, there was a problem with the JSON you submitted, \
         please submit a POST request to the /generate endpoint \
         with the JSON body {cityscript: <script>}"
    );
    let input = Error::from(GenerateError::DistributionInverted { min: 3_000_000, max: 1_500_000 });
    assert_eq!(
        input.message(),
        "There was a random number sampling issue: There was a distribution with a min (3) \
         greater than the max (1.5). This is only allowed for constant distributions."
    );
    let settings = Error::from(SettingsError::NonexistantSetting(vec![String::from("image")]));
    assert_eq!(
        settings.message(),
        "There was an error with the settings, this is likely a problem with your script, \
         specifically: You tried to get or modify a nonexistent setting at path image"
    );
    assert_eq!(input.into_response().error, input.message());
    assert_eq!(ErrorJson::new(String::from("went wrong")).error, "went wrong");
}
