use aws_iot_core::error::AWSIoTError;
use aws_iot_core::error::CoreError;

#[test]
fn error_messages() {
    assert_eq!(
        AWSIoTError::AWSConnectionError.message(),
        "Problem connecting to AWS"
    );
    assert_eq!(AWSIoTError::IoError.message(), "Problem reading file");
}

#[test]
fn io_errors_convert_to_io_error() {
    let io = std::io::Error::new(std::io::ErrorKind::NotFound, "gone");
    assert_eq!(AWSIoTError::from(io), AWSIoTError::IoError);
}

#[test]
fn connection_errors_convert_to_connection_error() {
    let conn = rumqttc::ConnectionError::NetworkTimeout;
    assert_eq!(AWSIoTError::from(conn), AWSIoTError::AWSConnectionError);
}

#[test]
fn core_error_kinds_are_distinct() {
    let kinds = [
        CoreError::ConnectionError,
        CoreError::RequestError,
        CoreError::ChannelError,
        CoreError::DecodeError,
    ];
    for (i, a) in kinds.iter().enumerate() {
        for (j, b) in kinds.iter().enumerate() {
            assert_eq!(a == b, i == j);
        }
    }
}
