use jolie::error::DistributionError;

#[test]
fn error_renders_message() {
    let e = DistributionError::InvalidParameter("a must be <= b");
    assert_eq!(e.to_string(), "invalid parameter: a must be <= b");
    let e = DistributionError::InvalidParameter("");
    assert_eq!(e.to_string(), "invalid parameter: ");
}
