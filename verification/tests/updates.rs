use apca::api::v2::updates::check_listen;
use apca::api::v2::updates::connect_start;
use apca::api::v2::updates::connect_step;
use apca::api::v2::updates::Authenticate;
use apca::api::v2::updates::Authentication;
use apca::api::v2::updates::AuthenticationStatus;
use apca::api::v2::updates::ConnectAction;
use apca::api::v2::updates::ConnectStage;
use apca::api::v2::updates::ControlMessage;
use apca::api::v2::updates::Listen;
use apca::api::v2::updates::Request;
use apca::api::v2::updates::StreamType;
use apca::api::v2::updates::Streams;
use apca::error::Error;

/// The order update stream authenticates, then listens.
#[test]
fn order_update_handshake() {
    let (stage, action) = connect_start("key", "secret");
    assert_eq!(stage, ConnectStage::AwaitingAuthentication);
    match action {
        ConnectAction::Send(Request::Authenticate(Authenticate::Request { key_id, secret })) => {
            assert_eq!(key_id, "key");
            assert_eq!(secret, "secret");
        },
        _ => panic!("unexpected action"),
    }
    let authorized = Authentication { status: AuthenticationStatus::Authorized };
    let (stage, action) = connect_step(stage, Some(Ok(ControlMessage::AuthenticationMessage(authorized))));
    assert_eq!(stage, ConnectStage::AwaitingListening);
    match action {
        ConnectAction::Send(Request::Listen(Listen::Request(streams))) => {
            assert_eq!(streams.streams, vec![StreamType::OrderUpdates]);
        },
        _ => panic!("unexpected action"),
    }
    let listening = Streams::from(&[StreamType::OrderUpdates]);
    let (stage, action) = connect_step(stage, Some(Ok(ControlMessage::ListeningMessage(listening))));
    assert_eq!(stage, ConnectStage::Connected);
    assert!(matches!(action, ConnectAction::Done));
}

/// An unauthorized reply ends the handshake.
#[test]
fn order_update_unauthorized() {
    let unauthorized = Authentication { status: AuthenticationStatus::Unauthorized };
    let (stage, action) = connect_step(
        ConnectStage::AwaitingAuthentication,
        Some(Ok(ControlMessage::AuthenticationMessage(unauthorized))),
    );
    assert_eq!(stage, ConnectStage::Failed);
    match action {
        ConnectAction::Fail(Error::Str(m)) => assert_eq!(m, "authentication not successful"),
        _ => panic!("unexpected action"),
    }
}

/// A listen reply without the order update stream is an error.
#[test]
fn order_update_not_listening() {
    match check_listen(Some(Ok(ControlMessage::ListeningMessage(Streams::from(&[]))))) {
        Err(Error::Str(m)) => assert_eq!(m, "server did not subscribe us to order update stream"),
        _ => panic!("unexpected outcome"),
    }
    match check_listen(None) {
        Err(Error::Str(m)) => assert_eq!(m, "stream was closed before listen message was received"),
        _ => panic!("unexpected outcome"),
    }
}
