use actix_async::error::ActixAsyncError;
use actix_async::util::oneshot::{OneshotRecvError, SendError};

#[test]
fn error_texts() {
    assert_eq!(
        ActixAsyncError::Closed.fmt(),
        "ActixAsyncError { cause: \"Closed\", description: \"Actor is already closed\" }"
    );
    assert_eq!(
        ActixAsyncError::SendTimeout.fmt(),
        "ActixAsyncError { cause: \"SendTimeout\", description: \"MessageRequest is timed out. \
         (Failed to send message to actor in time.)\" }"
    );
    assert_eq!(
        ActixAsyncError::ReceiveTimeout.fmt(),
        "ActixAsyncError { cause: \"ReceiveTimeout\", description: \"MessageRequest is timed out. \
         (Failed to receive result from actor in time.)\" }"
    );
    assert_eq!(
        ActixAsyncError::Receive.fmt(),
        "ActixAsyncError { cause: \"Receive\", description: \"Fail to receive result for given \
         message.\" }"
    );
    assert_eq!(ActixAsyncError::Receive.cause(), "Receive");
    assert_eq!(ActixAsyncError::Closed.description(), "Actor is already closed");
}

#[test]
fn errors_of_the_channels_become_errors_of_the_request() {
    assert!(ActixAsyncError::from(SendError(7)) == ActixAsyncError::Closed);
    assert!(ActixAsyncError::from(OneshotRecvError) == ActixAsyncError::Receive);
    assert!(ActixAsyncError::Closed != ActixAsyncError::Receive);
}
