use cancel::Canceled;
use std::error::Error;

#[test]
fn canceled_describes_itself() {
    assert_eq!(Canceled {}.to_string(), "Operation was Canceled");
    assert_eq!(format!("{}", Canceled {}), "Operation was Canceled");
    assert_eq!(Canceled {}.message(), "Operation was Canceled");
    assert_eq!(format!("{:?}", Canceled {}), "Canceled");
}

#[test]
fn canceled_is_an_error() {
    let boxed: Box<dyn Error + Send + Sync> = Box::new(Canceled {});
    assert_eq!(boxed.to_string(), "Operation was Canceled");
    assert!(boxed.source().is_none());
}

fn boxed_check(canceled: bool) -> Result<(), Box<dyn Error>> {
    Canceled::check(canceled)?;
    Ok(())
}

#[test]
fn check_fails_exactly_on_yes() {
    assert!(Canceled::check(false).is_ok());
    assert!(Canceled::check(true).is_err());
    assert!(boxed_check(false).is_ok());
    assert_eq!(
        boxed_check(true).unwrap_err().to_string(),
        "Operation was Canceled"
    );
}

#[test]
fn canceled_becomes_a_failure() {
    let error = failure::Error::from(Canceled {});
    assert_eq!(error.to_string(), "Operation was Canceled");
    assert!(error.downcast_ref::<Canceled>().is_some());
}
