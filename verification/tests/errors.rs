use openzwave_adapter::driver::DriverError;
use openzwave_adapter::error::{Cause, Error};
use openzwave_adapter::taxonomy::{Id, TaxError};

#[test]
fn descriptions_name_the_part_that_failed() {
    assert_eq!(Error::TaxonomyError(TaxError::NotImplemented).description(), "Taxonomy Error");
    let no_device = DriverError::NoDeviceFound(String::from("no device"));
    assert_eq!(Error::OpenzwaveError(no_device).description(), "Openzwave Error");
    assert_eq!(Error::UnknownError.description(), "Unknown error");
}

#[test]
fn message_is_the_description_and_the_wrapped_account() {
    let error = Error::TaxonomyError(TaxError::NoSuchGetter(Id::new("OpenZWave/1 (Door)")));
    assert_eq!(error.message(), "Taxonomy Error: No such getter: OpenZWave/1 (Door)");
    let error = Error::TaxonomyError(TaxError::NoSuchSetter(Id::new("OpenZWave/2 (Lamp)")));
    assert_eq!(error.message(), "Taxonomy Error: No such setter: OpenZWave/2 (Lamp)");
    let error = Error::TaxonomyError(TaxError::NotImplemented);
    assert_eq!(error.message(), "Taxonomy Error: Not implemented");
    let error = Error::TaxonomyError(TaxError::Refused(String::from("duplicate adapter")));
    assert_eq!(error.message(), "Taxonomy Error: duplicate adapter");
    let error = Error::OpenzwaveError(DriverError::Failure(String::from("device is busy")));
    assert_eq!(error.message(), "Openzwave Error: device is busy");
    let error = Error::OpenzwaveError(DriverError::NoDeviceFound(String::from("no device")));
    assert_eq!(error.message(), "Openzwave Error: no device");
    assert_eq!(Error::UnknownError.message(), "Unknown error");
}

#[test]
fn cause_is_the_wrapped_error() {
    let wrapped = TaxError::NotImplemented;
    assert_eq!(
        Error::TaxonomyError(wrapped.clone()).cause(),
        Some(Cause::Taxonomy(&wrapped))
    );
    let wrapped = DriverError::Failure(String::from("device is busy"));
    assert_eq!(
        Error::OpenzwaveError(wrapped.clone()).cause(),
        Some(Cause::Openzwave(&wrapped))
    );
    assert_eq!(Error::UnknownError.cause(), None);
}

#[test]
fn errors_of_the_parts_convert_into_the_adapter_error() {
    assert_eq!(
        Error::from(TaxError::NotImplemented),
        Error::TaxonomyError(TaxError::NotImplemented)
    );
    assert_eq!(
        Error::from(DriverError::NoDeviceFound(String::from("no device"))),
        Error::OpenzwaveError(DriverError::NoDeviceFound(String::from("no device")))
    );
    assert_eq!(Error::from(()), Error::UnknownError);
}
