//! The texts of the errors, and the decimal numbers in them.

use vsh::command::ForwarderError;
use vsh::decimal::decimal;
use vsh::io_error::{ErrorKind, IoError};
use vsh::pty::PtyError;
use vsh::vsh_wire::VshWireError;

fn cause() -> IoError {
    IoError::new(ErrorKind::BrokenPipe, "Broken pipe (os error 32)")
}

#[test]
fn decimal_of_small_and_large_numbers() {
    assert_eq!(decimal(0), "0");
    assert_eq!(decimal(7), "7");
    assert_eq!(decimal(10), "10");
    assert_eq!(decimal(4097), "4097");
    assert_eq!(decimal(1234567890), "1234567890");
    assert_eq!(decimal(usize::MAX), usize::MAX.to_string());
}

#[test]
fn io_error_keeps_kind_and_text() {
    let e = cause();
    assert_eq!(e.kind(), ErrorKind::BrokenPipe);
    assert_eq!(e.to_string(), "Broken pipe (os error 32)");
    assert!(!e.is_would_block());
    assert!(IoError::new(ErrorKind::WouldBlock, "").is_would_block());
}

#[test]
fn wire_error_texts() {
    assert_eq!(
        VshWireError::DeserializeProto("unexpected EOF".to_string()).to_string(),
        "failed to deserialize protobuf: unexpected EOF"
    );
    assert_eq!(
        VshWireError::InvalidFrameSize(4294967295).to_string(),
        "invalid vsh frame size: 4294967295"
    );
    assert_eq!(
        VshWireError::MessageTooBig(4097).to_string(),
        "protobuf is too big to send: 4097"
    );
    assert_eq!(
        VshWireError::ReceiveMessage(cause()).to_string(),
        "failed to receive message: Broken pipe (os error 32)"
    );
    assert_eq!(
        VshWireError::SendMessage(cause()).to_string(),
        "failed to send message: Broken pipe (os error 32)"
    );
    assert_eq!(
        VshWireError::SerializeProto("not initialized".to_string()).to_string(),
        "failed to serialize protobuf: not initialized"
    );
}

#[test]
fn pty_error_texts() {
    assert_eq!(
        PtyError::GetPtyName(cause()).to_string(),
        "failed to get pt name: Broken pipe (os error 32)"
    );
    assert_eq!(
        PtyError::GrantPt(cause()).to_string(),
        "failed to grant pt: Broken pipe (os error 32)"
    );
    assert_eq!(
        PtyError::OpenPtyChild(cause()).to_string(),
        "failed to open pty child: Broken pipe (os error 32)"
    );
    assert_eq!(
        PtyError::OpenPtyParent(cause()).to_string(),
        "failed to open pty parent: Broken pipe (os error 32)"
    );
    assert_eq!(
        PtyError::SetControllingTty(cause()).to_string(),
        "failed to set controlling tty: Broken pipe (os error 32)"
    );
    assert_eq!(
        PtyError::SetDimensions(cause()).to_string(),
        "failed to set pty dimensions: Broken pipe (os error 32)"
    );
    assert_eq!(
        PtyError::UnlockPt(cause()).to_string(),
        "failed to unlock pt: Broken pipe (os error 32)"
    );
}

#[test]
fn forwarder_error_texts() {
    assert_eq!(
        ForwarderError::ReadFromStream(cause()).to_string(),
        "failed to read from stream: Broken pipe (os error 32)"
    );
    assert_eq!(
        ForwarderError::ShutDownStream(cause()).to_string(),
        "failed to shut down stream: Broken pipe (os error 32)"
    );
    assert_eq!(
        ForwarderError::WriteToStream(cause()).to_string(),
        "failed to write to stream: Broken pipe (os error 32)"
    );
}
