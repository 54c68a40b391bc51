use oura::error::OuraError;

#[test]
fn test_error_codes() {
    assert_eq!(OuraError::LoopAlreadyRunning.code(), -32001);
    assert_eq!(OuraError::NoActiveLoop.code(), -32002);
    assert_eq!(OuraError::LoopNotRunning("test".into()).code(), -32003);
    assert_eq!(OuraError::BackgroundLoopRunning.code(), -32004);
    assert_eq!(OuraError::Internal("i".into()).code(), -32603);
}

#[test]
fn test_error_messages() {
    assert_eq!(OuraError::LoopAlreadyRunning.message(), "Loop already running");
    assert!(OuraError::LoopNotRunning("stopped".into()).message().contains("stopped"));
    assert!(OuraError::Internal("critical".into()).message().contains("critical"));
}

#[test]
fn test_error_from_io() {
    let io_err = std::io::Error::new(std::io::ErrorKind::NotFound, "file not found");
    let oura_err = OuraError::IoError(io_err.to_string());
    assert_eq!(oura_err.code(), -32603);
    assert_eq!(oura_err.message(), "IO error: file not found");
}

#[test]
fn test_result_type() {
    let ok: Result<i32, OuraError> = Ok(42);
    assert!(ok.is_ok());
    let err: Result<i32, OuraError> = Err(OuraError::NoActiveLoop);
    assert!(err.is_err());
}

#[test]
fn error_message_texts() {
    assert_eq!(OuraError::LoopNotRunning("failed".into()).message(), "Loop not running (status: failed)");
    assert_eq!(OuraError::BackgroundLoopRunning.message(), "Background loop running, stop it first");
    assert_eq!(OuraError::JsonError("eof".into()).message(), "JSON error: eof");
    assert_eq!(OuraError::JsonError("eof".into()).code(), -32603);
}
