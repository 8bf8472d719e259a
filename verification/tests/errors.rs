use shuttle::gateway::error::{Error, ErrorKind};
use shuttle::gateway::state::{yield_state, IntoTryState, TryState};
use shuttle::text::decimal_text;

#[test]
fn error_with_and_without_cause() {
    let error = Error::source(ErrorKind::Internal, "disk full".to_owned());
    assert_eq!(error.text("internal server error"), "internal server error: disk full");
    let error = Error::from_kind(ErrorKind::TooManyProjects);
    assert_eq!(error.text("too many projects"), "too many projects");
    assert_eq!(error.source, None);
    let error = Error::custom(ErrorKind::Internal, "message");
    assert_eq!(error.source, Some("message".to_owned()));
}

#[test]
fn kind_of_an_error() {
    let kinds = vec![
        ErrorKind::Internal,
        ErrorKind::ServiceUnavailable,
        ErrorKind::ProjectNotFound("matrix".to_owned()),
        ErrorKind::ProjectAlreadyExists,
        ErrorKind::OwnProjectAlreadyExists("matrix".to_owned()),
        ErrorKind::ProjectCorrupted,
        ErrorKind::ProjectHasBuildingDeployment,
        ErrorKind::ProjectHasRunningDeployment,
        ErrorKind::ProjectHasResources(vec!["a".to_owned(), "b".to_owned()]),
        ErrorKind::TooManyProjects,
        ErrorKind::InvalidCustomDomain,
        ErrorKind::CustomDomainNotFound,
        ErrorKind::Other("teapot".to_owned()),
    ];
    for kind in kinds {
        let error = Error::from(kind.clone());
        assert_eq!(error.kind(), kind);
        assert_eq!(error.source, None);
    }
}

#[test]
fn reply_hides_the_cause() {
    let a = Error::source(ErrorKind::Internal, "password of the store".to_owned());
    let b = Error::from_kind(ErrorKind::Internal);
    let (a, b) = (a.into_response(500), b.into_response(500));
    assert_eq!(a.kind, b.kind);
    assert_eq!(a.status_code, 500);
    assert!(a.log && b.log);
    assert!(!Error::from_kind(ErrorKind::TooManyProjects).into_response(499).log);
}

#[test]
fn errors_of_other_kinds() {
    let io = std::io::Error::new(std::io::ErrorKind::Other, "broken pipe");
    let error = Error::from(io);
    assert_eq!(error.kind, ErrorKind::Internal);
    assert_eq!(error.source, None);
    let error = Error::from(tokio::sync::mpsc::error::SendError(5));
    assert_eq!(error.kind, ErrorKind::ServiceUnavailable);
}

#[derive(Clone, Debug, PartialEq)]
enum Light {
    Green(u8),
    Broken,
}

impl TryState for Light {
    type ErrorVariant = &'static str;

    fn into_result(self) -> Result<Self, &'static str> {
        match self {
            Light::Green(n) => Ok(Light::Green(n)),
            Light::Broken => Err("broken"),
        }
    }
}

impl From<u8> for Light {
    fn from(n: u8) -> Light {
        Light::Green(n)
    }
}

impl From<()> for Light {
    fn from(_: ()) -> Light {
        Light::Broken
    }
}

#[test]
fn results_become_states() {
    let good: Result<u8, ()> = Ok(3);
    let state: Light = good.into_try_state().unwrap();
    assert_eq!(state, Light::Green(3));
    let bad: Result<u8, ()> = Err(());
    let state: Light = bad.into_try_state().unwrap();
    assert_eq!(state, Light::Broken);
}

#[test]
fn stream_gives_out_states_until_the_first_failure() {
    let (given, kept) = yield_state(Light::Green(1)).unwrap();
    assert_eq!(given, Light::Green(1));
    assert_eq!(kept, Light::Green(1));
    assert_eq!(yield_state(Light::Broken), Err("broken"));
}

#[test]
fn numbers_in_decimal() {
    assert_eq!(decimal_text(0), "0");
    assert_eq!(decimal_text(9), "9");
    assert_eq!(decimal_text(10), "10");
    assert_eq!(decimal_text(1999), "1999");
    assert_eq!(decimal_text(u64::MAX), "18446744073709551615");
}
