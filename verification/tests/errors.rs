use dwm_status::error::Error;
use dwm_status::error::ErrorKind;
use dwm_status::error::ResultExt;
use dwm_status::error::WrapErrorExt;

#[test]
fn new() {
    let error = Error::new("name", "description", String::from("ExampleError"));

    assert_eq!(error.show_error(), "Error in name: description (ExampleError)");
}

#[test]
fn new_test() {
    let error = Error::new_test("name", "description", String::from("ExampleError"));

    assert_eq!(error.show_error(), "Error in name: description (ExampleError)");
}

#[test]
fn new_custom() {
    let error = Error::new_custom("name", "description");

    assert_eq!(error.show_error(), "Error in name: description");
}

#[test]
fn error_when_ok() {
    let result: Result<u32, String> = Ok(42);

    assert_eq!(result.wrap_error("name", "description"), Ok(42));
}

#[test]
fn error_when_err() {
    let result: Result<u32, String> = Err(String::from("ExampleError"));

    let wrapped = result.wrap_error("name", "description").unwrap_err();
    assert_eq!(wrapped.kind, ErrorKind::Custom);
    assert_eq!(wrapped.name, "name");
    assert_eq!(wrapped.description, "description");
    assert_eq!(wrapped.cause, Some(String::from("ExampleError")));
}

#[test]
fn when_custom_error() {
    let result: Result<u32, Error> = Err(Error::new_custom("inner", "inner desc"));

    let wrapped = result.wrap_error("name", "description").unwrap_err();
    assert_eq!(wrapped.kind, ErrorKind::Custom);
    assert_eq!(wrapped.name, "name");
    assert_eq!(wrapped.description, "description");
    assert_eq!(wrapped.cause, Some(String::from("Error in inner: inner desc")));
}

#[test]
fn when_some() {
    let option = Some(42);

    assert_eq!(option.wrap_error("name", "description"), Ok(42));
}

#[test]
fn option_when_err() {
    let option: Option<u32> = None;

    let wrapped = option.wrap_error("name", "description").unwrap_err();
    assert_eq!(wrapped.kind, ErrorKind::Custom);
    assert_eq!(wrapped.name, "name");
    assert_eq!(wrapped.description, "description");
    assert_eq!(wrapped.cause, None);
}

#[test]
fn show_error_when_ok() {
    let result: Result<u32, Error> = Ok(42);

    assert_eq!(result.show_error(), Ok(42));
}

#[test]
fn show_error_when_err() {
    let result: Result<u32, Error> = Err(Error::new_custom("name", "description"));

    assert_eq!(
        result.show_error(),
        Err(String::from("Error in name: description"))
    );
}

#[test]
fn error_variant_constructors() {
    let configuration = Error::configuration("empty config", "no features enabled");
    assert_eq!(configuration.kind, ErrorKind::Configuration);
    assert_eq!(
        configuration.message(),
        "Error in empty config: no features enabled"
    );

    let construction = Error::feature_construction("unknown feature kind");
    assert_eq!(construction.kind, ErrorKind::FeatureConstruction);
    assert_eq!(
        construction.message(),
        "Error in invalid feature: unknown feature kind"
    );

    let setup = Error::notifier_setup("battery", String::from("subscription failed"));
    assert_eq!(setup.kind, ErrorKind::NotifierSetup);
    assert_eq!(
        setup.message(),
        "Error in battery: failed to arm notifier (subscription failed)"
    );

    let refresh = Error::refresh("battery", String::from("source unreachable"));
    assert_eq!(refresh.kind, ErrorKind::Refresh);
    assert_eq!(
        refresh.message(),
        "Error in battery: could not refresh feature (source unreachable)"
    );

    let protocol = Error::protocol("battery0");
    assert_eq!(protocol.kind, ErrorKind::Protocol);
    assert_eq!(
        protocol.message(),
        "Error in invalid message: message id battery0 does not exist"
    );
}
