//! Definitions for the stream of updates to the orders of an account.

use vstd::prelude::*;

use crate::api::v2::order;
use crate::error::outcome;
use crate::error::str_error;
use crate::error::Error;

use serde_json::Error as JsonError;
use websocket_util::tungstenite::Error as WebSocketError;

verus! {

/// The status of an order, as reported as part of an `OrderUpdate`.
#[derive(Clone, Copy, Debug, PartialEq, Eq, Structural)]
pub enum OrderStatus {
    /// The order has been received by Alpaca, and routed to exchanges for
    /// execution.
    New,
    /// The order has changed.
    Replaced,
    /// The order replacement has been rejected.
    ReplaceRejected,
    /// The order has been partially filled.
    PartialFill,
    /// The order has been filled, and no further updates will occur for
    /// the order.
    Filled,
    /// The order is done executing for the day, and will not receive
    /// further updates until the next trading day.
    DoneForDay,
    /// The order has been canceled, and no further updates will occur for
    /// the order.
    Canceled,
    /// The order cancellation has been rejected.
    CancelRejected,
    /// The order has expired, and no further updates will occur for the
    /// order.
    Expired,
    /// The order is waiting to be canceled.
    PendingCancel,
    /// The order has been stopped, and a trade is guaranteed for the
    /// order, usually at a stated price or better, but has not yet
    /// occurred.
    Stopped,
    /// The order has been rejected, and no further updates will occur for
    /// the order.
    Rejected,
    /// The order has been suspended, and is not eligible for trading.
    Suspended,
    /// The order has been received by Alpaca, and routed to the
    /// exchanges, but has not yet been accepted for execution.
    PendingNew,
    /// The order is awaiting replacement.
    PendingReplace,
    /// The order has been completed for the day (either filled or done
    /// for day), but remaining settlement calculations are still pending.
    Calculated,
    /// Any other status that we have not accounted for.
    Unknown,
}

/// A type defining the stream to listen to.
#[derive(Clone, Copy, Debug, PartialEq, Eq, Structural)]
pub enum StreamType {
    /// The stream of updates to the account's orders.
    OrderUpdates,
}

/// A type representing the streams to listen to.
#[derive(Clone, Debug, PartialEq, Eq)]
pub struct Streams {
    /// The streams.
    pub streams: Vec<StreamType>,
}

impl Streams {
    /// The streams of a slice.
    pub fn from(src: &[StreamType]) -> (r: Streams)
        ensures
            r.streams@ == src@,
    {
        Streams { streams: vstd::slice::slice_to_vec(src) }
    }
}

/// An enumeration of the possible outcomes of an authentication
/// request.
#[derive(Clone, Copy, Debug, PartialEq, Eq, Structural)]
pub enum AuthenticationStatus {
    /// The client has been authorized.
    Authorized,
    /// The client has not been authorized.
    Unauthorized,
}

/// The authentication related data provided in a control message.
#[derive(Clone, Copy, Debug, PartialEq, Eq, Structural)]
pub struct Authentication {
    /// The status of an operation.
    pub status: AuthenticationStatus,
}

/// A control message "request" sent over a websocket channel.
#[derive(Clone, Debug, PartialEq, Eq)]
pub enum Authenticate {
    /// A control message indicating whether or not we were authenticated.
    Request {
        /// The key ID to use for authentication.
        key_id: String,
        /// The secret to use for authentication.
        secret: String,
    },
}

/// A control message "request" sent over a websocket channel.
#[derive(Clone, Debug, PartialEq, Eq)]
pub enum Listen {
    /// A request to listen to a particular stream.
    Request(Streams),
}

/// An enumeration of the supported control messages.
#[derive(Debug)]
pub enum ControlMessage {
    /// A control message indicating whether or not we were authenticated.
    AuthenticationMessage(Authentication),
    /// A control message detailing the streams we are subscribed to.
    ListeningMessage(Streams),
}

/// An update to an order.
#[derive(Debug, PartialEq)]
pub struct OrderUpdate {
    /// The event that occurred.
    pub event: OrderStatus,
    /// The order associated with the event.
    pub order: order::Order,
}

/// An enum representing the different messages we may receive over our
/// websocket channel.
#[derive(Debug)]
pub enum OrderMessage {
    /// An order update.
    OrderUpdate(OrderUpdate),
    /// A control message indicating whether or not we were authenticated
    /// successfully.
    AuthenticationMessage(Authentication),
    /// A control message detailing the streams we are subscribed to.
    ListeningMessage(Streams),
}

/// How a received message is dispatched: to the user, or to the
/// subscription as a control message.
#[derive(Debug)]
pub enum Classification<U, C> {
    /// A message for the user.
    UserMessage(U),
    /// A control message.
    ControlMessage(C),
}

/// A websocket message that we tried to parse.
pub type ParsedMessage = Result<Result<OrderMessage, JsonError>, WebSocketError>;

/// A message handed to the user.
pub type UserMessage = Result<Result<OrderUpdate, JsonError>, WebSocketError>;

/// How a parsed message is dispatched: order updates, as well as JSON
/// and websocket errors, go to the user; the rest are control messages.
pub open spec fn classification(message: ParsedMessage) -> Classification<
    UserMessage,
    ControlMessage,
> {
    match message {
        Ok(Ok(OrderMessage::OrderUpdate(update))) => Classification::UserMessage(Ok(Ok(update))),
        Ok(Ok(OrderMessage::AuthenticationMessage(a))) => Classification::ControlMessage(
            ControlMessage::AuthenticationMessage(a),
        ),
        Ok(Ok(OrderMessage::ListeningMessage(s))) => Classification::ControlMessage(
            ControlMessage::ListeningMessage(s),
        ),
        Ok(Err(err)) => Classification::UserMessage(Ok(Err(err))),
        Err(err) => Classification::UserMessage(Err(err)),
    }
}

/// Order updates, and the JSON and websocket errors, reach the user
/// unchanged; authentication and listening replies, and only those, are
/// kept as control messages, unchanged.
pub proof fn lemma_classification(message: ParsedMessage)
    ensures
        message matches Ok(Ok(OrderMessage::OrderUpdate(u))) ==> classification(message)
            == Classification::<UserMessage, ControlMessage>::UserMessage(Ok(Ok(u))),
        message matches Ok(Ok(OrderMessage::AuthenticationMessage(a))) ==> classification(message)
            == Classification::<UserMessage, ControlMessage>::ControlMessage(
            ControlMessage::AuthenticationMessage(a),
        ),
        message matches Ok(Ok(OrderMessage::ListeningMessage(l))) ==> classification(message)
            == Classification::<UserMessage, ControlMessage>::ControlMessage(
            ControlMessage::ListeningMessage(l),
        ),
        message matches Ok(Err(e)) ==> classification(message) == Classification::<
            UserMessage,
            ControlMessage,
        >::UserMessage(Ok(Err(e))),
        message matches Err(e) ==> classification(message) == Classification::<
            UserMessage,
            ControlMessage,
        >::UserMessage(Err(e)),
{
}

/// Classify a parsed message.
pub fn classify(message: ParsedMessage) -> (r: Classification<UserMessage, ControlMessage>)
    ensures
        r == classification(message),
{
    match message {
        Ok(Ok(message)) => match message {
            OrderMessage::OrderUpdate(update) => Classification::UserMessage(Ok(Ok(update))),
            OrderMessage::AuthenticationMessage(a) => Classification::ControlMessage(
                ControlMessage::AuthenticationMessage(a),
            ),
            OrderMessage::ListeningMessage(s) => Classification::ControlMessage(
                ControlMessage::ListeningMessage(s),
            ),
        },
        Ok(Err(err)) => Classification::UserMessage(Ok(Err(err))),
        Err(err) => Classification::UserMessage(Err(err)),
    }
}

/// Check whether a user message is an error: both websocket and JSON
/// errors are.
pub fn is_error(user_message: &UserMessage) -> (r: bool)
    ensures
        r == !(*user_message matches Ok(Ok(_))),
{
    match user_message {
        Ok(Ok(_)) => false,
        _ => true,
    }
}

/// The error that a failed user message becomes when it ends an
/// operation on the subscription.
pub fn stream_failure(user_message: UserMessage) -> (r: Error)
    requires
        !(user_message matches Ok(Ok(_))),
    ensures
        match user_message {
            Ok(Err(e)) => r == Error::Json(e),
            Err(e) => r == Error::WebSocket(e),
            Ok(Ok(_)) => false,
        },
{
    match user_message {
        Ok(Err(e)) => Error::Json(e),
        Err(e) => Error::WebSocket(e),
        Ok(Ok(_)) => {
            assert(false);
            Error::Str(String::new())
        },
    }
}

/// The reply to a control request: the control message received, `Err`
/// where the reply could not be read, `None` where the stream closed
/// before a reply arrived.
pub type Response = Option<Result<ControlMessage, ()>>;

/// What the reply to an authentication request means.
pub open spec fn authentication_outcome(response: Response) -> Result<(), Seq<char>> {
    match response {
        Some(Ok(ControlMessage::AuthenticationMessage(a))) => if a.status is Authorized {
            Ok(())
        } else {
            Err("authentication not successful"@)
        },
        Some(Ok(_)) => Err("server responded with an unexpected message"@),
        Some(Err(())) => Err("failed to authenticate with server"@),
        None => Err("stream was closed before authorization message was received"@),
    }
}

/// What the reply to a listen request means.
pub open spec fn listen_outcome(response: Response) -> Result<(), Seq<char>> {
    match response {
        Some(Ok(ControlMessage::ListeningMessage(s))) => if s.streams@.contains(
            StreamType::OrderUpdates,
        ) {
            Ok(())
        } else {
            Err("server did not subscribe us to order update stream"@)
        },
        Some(Ok(_)) => Err("server responded with an unexpected message"@),
        Some(Err(())) => Err("failed to listen to order update stream"@),
        None => Err("stream was closed before listen message was received"@),
    }
}

/// Authentication succeeds exactly on an authentication reply with the
/// authorized status, and listening exactly on a listening reply that
/// names the order update stream; any other reply, a reply that cannot
/// be read, or a closed stream is a failure.
pub proof fn lemma_handshake_outcomes(response: Response)
    ensures
        authentication_outcome(response) is Ok <==> (response matches Some(
            Ok(ControlMessage::AuthenticationMessage(a)),
        ) && a.status == AuthenticationStatus::Authorized),
        listen_outcome(response) is Ok <==> (response matches Some(
            Ok(ControlMessage::ListeningMessage(l)),
        ) && l.streams@.contains(StreamType::OrderUpdates)),
{
}

/// Check the reply to an authentication request.
pub fn check_authentication(response: Response) -> (r: Result<(), Error>)
    ensures
        outcome(r) == Some(authentication_outcome(response)),
{
    match response {
        Some(Ok(ControlMessage::AuthenticationMessage(a))) => {
            if a.status != AuthenticationStatus::Authorized {
                return Err(str_error("authentication not successful"));
            }
            Ok(())
        },
        Some(Ok(_)) => Err(str_error("server responded with an unexpected message")),
        Some(Err(())) => Err(str_error("failed to authenticate with server")),
        None => Err(str_error("stream was closed before authorization message was received")),
    }
}

fn contains_order_updates(streams: &[StreamType]) -> (r: bool)
    ensures
        r == streams@.contains(StreamType::OrderUpdates),
{
    let mut i: usize = 0;
    while i < streams.len()
        invariant
            i <= streams@.len(),
            forall|j: int| 0 <= j < i ==> streams@[j] != StreamType::OrderUpdates,
        decreases streams@.len() - i,
    {
        if streams[i] == StreamType::OrderUpdates {
            assert(streams@[i as int] == StreamType::OrderUpdates);
            return true;
        }
        i = i + 1;
    }
    false
}

/// Check the reply to a listen request.
pub fn check_listen(response: Response) -> (r: Result<(), Error>)
    ensures
        outcome(r) == Some(listen_outcome(response)),
{
    match response {
        Some(Ok(ControlMessage::ListeningMessage(streams))) => {
            if !contains_order_updates(streams.streams.as_slice()) {
                return Err(str_error("server did not subscribe us to order update stream"));
            }
            Ok(())
        },
        Some(Ok(_)) => Err(str_error("server responded with an unexpected message")),
        Some(Err(())) => Err(str_error("failed to listen to order update stream")),
        None => Err(str_error("stream was closed before listen message was received")),
    }
}

/// A control request of the order update stream.
#[derive(Clone, Debug, PartialEq, Eq)]
pub enum Request {
    /// Authenticate with the given credentials.
    Authenticate(Authenticate),
    /// Listen to the given streams.
    Listen(Listen),
}

/// The stage of establishing the order update stream.
#[derive(Clone, Copy, Debug, PartialEq, Eq, Structural)]
pub enum ConnectStage {
    /// Waiting for the reply to the authentication request.
    AwaitingAuthentication,
    /// Waiting for the reply to the listen request.
    AwaitingListening,
    /// The stream is established.
    Connected,
    /// Establishing the stream failed.
    Failed,
}

/// What to do next while establishing the order update stream.
#[derive(Debug)]
pub enum ConnectAction {
    /// Send this request and hand back the reply.
    Send(Request),
    /// The stream is ready for use.
    Done,
    /// Give up with this error.
    Fail(Error),
}

/// Whether a request is the one that listens to order updates alone.
pub open spec fn is_listen_request(request: Request) -> bool {
    request matches Request::Listen(Listen::Request(s)) && s.streams@ == seq![
        StreamType::OrderUpdates,
    ]
}

/// Start establishing the order update stream: authenticate first.
pub fn connect_start(key_id: &str, secret: &str) -> (r: (ConnectStage, ConnectAction))
    ensures
        r.0 is AwaitingAuthentication,
        r.1 matches ConnectAction::Send(Request::Authenticate(Authenticate::Request { key_id: k, secret: s }))
            && k@ == key_id@ && s@ == secret@,
{
    (
        ConnectStage::AwaitingAuthentication,
        ConnectAction::Send(
            Request::Authenticate(
                Authenticate::Request {
                    key_id: String::from_str(key_id),
                    secret: String::from_str(secret),
                },
            ),
        ),
    )
}

/// Advance the establishment of the order update stream by the reply
/// received in the given stage: a successful authentication is followed
/// by the request to listen to order updates, and a confirmation that
/// we listen to them completes the connection.
pub fn connect_step(stage: ConnectStage, response: Response) -> (r: (ConnectStage, ConnectAction))
    requires
        stage is AwaitingAuthentication || stage is AwaitingListening,
    ensures
        stage is AwaitingAuthentication ==> match authentication_outcome(response) {
            Ok(()) => r.0 is AwaitingListening && (r.1 matches ConnectAction::Send(request)
                && is_listen_request(request)),
            Err(m) => r.0 is Failed && (r.1 matches ConnectAction::Fail(Error::Str(e)) && e@ == m),
        },
        stage is AwaitingListening ==> match listen_outcome(response) {
            Ok(()) => r.0 is Connected && r.1 is Done,
            Err(m) => r.0 is Failed && (r.1 matches ConnectAction::Fail(Error::Str(e)) && e@ == m),
        },
{
    match stage {
        ConnectStage::AwaitingAuthentication => match check_authentication(response) {
            Ok(()) => {
                let kinds = [StreamType::OrderUpdates];
                let streams = Streams::from(&kinds);
                assert(streams.streams@ =~= seq![StreamType::OrderUpdates]);
                (
                    ConnectStage::AwaitingListening,
                    ConnectAction::Send(Request::Listen(Listen::Request(streams))),
                )
            },
            Err(e) => (ConnectStage::Failed, ConnectAction::Fail(e)),
        },
        _ => match check_listen(response) {
            Ok(()) => (ConnectStage::Connected, ConnectAction::Done),
            Err(e) => (ConnectStage::Failed, ConnectAction::Fail(e)),
        },
    }
}

/// A type used for requesting a subscription to the order update
/// stream.
///
/// It only serves as a type argument: no value of it is ever made.
#[derive(Clone, Copy, Debug, PartialEq, Eq)]
pub struct OrderUpdates {
    _private: (),
}

} // verus!
