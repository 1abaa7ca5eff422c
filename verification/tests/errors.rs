use modular::errors::{Error, RegistryError, RunError};

#[test]
fn a() {}

#[test]
fn error_codes_exact() {
    assert_eq!(Error::NoError.code(), 0);
    assert_eq!(Error::RegistryAlreadyRunning.code(), i32::MIN);
    assert_eq!(Error::ModuleNotFound.code(), i32::MIN + 1);
    assert_eq!(Error::FfiInvalidMethodName.code(), i32::MIN + 2);
}

#[test]
fn error_names_exact() {
    assert_eq!(Error::NoError.as_ref(), "");
    assert_eq!(Error::RegistryAlreadyRunning.as_ref(), "Registry already running");
    assert_eq!(Error::ModuleNotFound.as_ref(), "Module not found");
    assert_eq!(Error::FfiInvalidMethodName.as_ref(), "Invalid method name");
}

#[test]
fn error_default_is_no_error() {
    assert_eq!(Error::default(), Error::NoError);
}

#[test]
fn run_error_carries_code_and_message() {
    let e = RunError::new(-3, "worker failed".to_string());
    assert_eq!(e.code, -3);
    assert_eq!(e.message, "worker failed");
}

#[test]
fn registry_error_unknown_module() {
    let e = RegistryError::UnknownModule;
    assert!(matches!(e, RegistryError::UnknownModule));
}
