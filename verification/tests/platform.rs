use nih_plug_slint::platform::{BaseviewSlintPlatform, PlatformError};

#[test]
fn registered_adapter_is_handed_out() {
    let platform = BaseviewSlintPlatform;
    assert_eq!(platform.create_window_adapter(Some(7u32)), Ok(7));
}

#[test]
fn missing_adapter_is_an_error() {
    let platform = BaseviewSlintPlatform;
    let result: Result<u32, PlatformError> = platform.create_window_adapter(None);
    assert_eq!(result, Err(PlatformError::NoAdapterSet));
    assert_eq!(PlatformError::NoAdapterSet.message(), "No adapter set");
}
