//! The error with which the node gives up: a code, what failed, and the
//! cause reported by the component that failed.

use crate::text::{decimal, push_decimal};
use libp2p::gossipsub::SubscriptionError;
use libp2p::swarm::DialError;
use libp2p::TransportError;
use vstd::prelude::*;

verus! {

/// Code of every failure that stops the node while it starts.
pub const ERROR_CLIENT_INIT: u8 = 1u8;

/// A failure of the pubsub router to take a subscription.
#[verifier::external_type_specification]
#[verifier::external_body]
pub struct ExSubscriptionError(SubscriptionError);

/// A failure to dial a peer.
#[verifier::external_type_specification]
#[verifier::external_body]
pub struct ExDialError(DialError);

/// A failure of a transport to listen or to dial.
#[verifier::external_type_specification]
#[verifier::external_body]
#[verifier::reject_recursive_types(TErr)]
pub struct ExTransportError<TErr>(TransportError<TErr>);

/// A failure to read a network address.
#[verifier::external_type_specification]
#[verifier::external_body]
pub struct ExAddressError(libp2p::multiaddr::Error);

/// A failure of the encryption handshake or of its set-up.
#[verifier::external_type_specification]
#[verifier::external_body]
pub struct ExNoiseError(libp2p::noise::Error);

/// A failure of input or output.
#[verifier::external_type_specification]
#[verifier::external_body]
pub struct ExIoError(std::io::Error);

/// The cause of a failure: which component reported it, and in what words.
#[derive(Debug)]
pub enum InnerClCatError {
    Transport(String),
    Address(String),
    Subscription(String),
    Io(String),
    Noise(String),
    Dial(String),
}

/// Which component reported a failure.
#[derive(Clone, Copy, Debug, PartialEq, Eq, Structural)]
pub enum CauseKind {
    Transport,
    Address,
    Subscription,
    Io,
    Noise,
    Dial,
}

/// A cause, as contracts see it.
pub struct CauseView {
    pub kind: CauseKind,
    pub words: Seq<char>,
}

impl View for InnerClCatError {
    type V = CauseView;

    open spec fn view(&self) -> CauseView {
        match self {
            InnerClCatError::Transport(words) => CauseView { kind: CauseKind::Transport, words: words@ },
            InnerClCatError::Address(words) => CauseView { kind: CauseKind::Address, words: words@ },
            InnerClCatError::Subscription(words) => CauseView {
                kind: CauseKind::Subscription,
                words: words@,
            },
            InnerClCatError::Io(words) => CauseView { kind: CauseKind::Io, words: words@ },
            InnerClCatError::Noise(words) => CauseView { kind: CauseKind::Noise, words: words@ },
            InnerClCatError::Dial(words) => CauseView { kind: CauseKind::Dial, words: words@ },
        }
    }
}

impl InnerClCatError {
    /// The words in which the component reported the failure.
    pub fn words(&self) -> (r: &String)
        ensures
            r@ == self@.words,
    {
        match self {
            InnerClCatError::Transport(words) => words,
            InnerClCatError::Address(words) => words,
            InnerClCatError::Subscription(words) => words,
            InnerClCatError::Io(words) => words,
            InnerClCatError::Noise(words) => words,
            InnerClCatError::Dial(words) => words,
        }
    }
}

/// The error with which the node gives up.
#[derive(Debug)]
pub struct ClCatError {
    code: u8,
    msg: String,
    inner: Option<InnerClCatError>,
}

/// An error, as contracts see it.
pub struct ClCatErrorView {
    pub code: u8,
    pub msg: Seq<char>,
    pub inner: Option<CauseView>,
}

impl View for ClCatError {
    type V = ClCatErrorView;

    closed spec fn view(&self) -> ClCatErrorView {
        ClCatErrorView {
            code: self.code,
            msg: self.msg@,
            inner: match self.inner {
                Some(cause) => Some(cause@),
                None => None,
            },
        }
    }
}

/// The line that reports an error: `E<code>: <msg>`, followed by
/// ` due to <cause>` where a cause is known.
pub open spec fn error_line(error: ClCatErrorView) -> Seq<char> {
    let head = "E"@ + decimal(error.code as nat) + ": "@ + error.msg;
    match error.inner {
        Some(cause) => head + " due to "@ + cause.words,
        None => head,
    }
}

/// An error of the start-up code that reports `msg` with a cause of `kind`.
pub open spec fn is_init_failure(error: ClCatErrorView, msg: Seq<char>, kind: CauseKind) -> bool {
    &&& error.code == ERROR_CLIENT_INIT
    &&& error.msg == msg
    &&& error.inner matches Some(cause)
    &&& cause.kind == kind
}

impl ClCatError {
    /// An error with the given code, message and cause.
    pub fn new(code: u8, msg: String, inner: Option<InnerClCatError>) -> (error: Self)
        ensures
            error@.code == code,
            error@.msg == msg@,
            error@.inner == match inner {
                Some(cause) => Some(cause@),
                None => None,
            },
    {
        Self { code, msg, inner }
    }

    /// The code of the error.
    pub fn code(&self) -> (code: u8)
        ensures
            code == self@.code,
    {
        self.code
    }

    /// The cause of the error, where one is known.
    pub fn source(&self) -> (cause: Option<&InnerClCatError>)
        ensures
            cause matches Some(c) ==> self@.inner == Some(c@),
            cause is None <==> self@.inner is None,
    {
        self.inner.as_ref()
    }

    /// The line that reports the error.
    pub fn to_text(&self) -> (line: String)
        ensures
            line@ == error_line(self@),
    {
        let mut line = String::new();
        line.append("E");
        push_decimal(&mut line, self.code as u64);
        line.append(": ");
        line.append(self.msg.as_str());
        match &self.inner {
            Some(cause) => {
                line.append(" due to ");
                line.append(cause.words().as_str());
                assert(line@ =~= error_line(self@));
            },
            None => {
                assert(line@ =~= error_line(self@));
            },
        }
        line
    }
}

impl From<TransportError<std::io::Error>> for ClCatError {
    /// A transport that could not listen stops the node.
    fn from(value: TransportError<std::io::Error>) -> (error: Self)
        ensures
            is_init_failure(error@, "transport failure"@, CauseKind::Transport),
    {
        ClCatError::new(
            ERROR_CLIENT_INIT,
            "transport failure".to_owned(),
            Some(InnerClCatError::Transport(value.to_string())),
        )
    }
}

impl vstd::std_specs::convert::FromSpecImpl<TransportError<std::io::Error>> for ClCatError {
    open spec fn obeys_from_spec() -> bool {
        false
    }

    open spec fn from_spec(value: TransportError<std::io::Error>) -> Self {
        arbitrary()
    }
}

impl From<libp2p::multiaddr::Error> for ClCatError {
    /// An address that could not be read stops the node.
    fn from(value: libp2p::multiaddr::Error) -> (error: Self)
        ensures
            is_init_failure(error@, "malformed address"@, CauseKind::Address),
    {
        ClCatError::new(
            ERROR_CLIENT_INIT,
            "malformed address".to_owned(),
            Some(InnerClCatError::Address(value.to_string())),
        )
    }
}

impl vstd::std_specs::convert::FromSpecImpl<libp2p::multiaddr::Error> for ClCatError {
    open spec fn obeys_from_spec() -> bool {
        false
    }

    open spec fn from_spec(value: libp2p::multiaddr::Error) -> Self {
        arbitrary()
    }
}

impl From<SubscriptionError> for ClCatError {
    /// A topic that could not be joined stops the node.
    fn from(value: SubscriptionError) -> (error: Self)
        ensures
            is_init_failure(error@, "topic subscription failure"@, CauseKind::Subscription),
    {
        ClCatError::new(
            ERROR_CLIENT_INIT,
            "topic subscription failure".to_owned(),
            Some(InnerClCatError::Subscription(value.to_string())),
        )
    }
}

impl vstd::std_specs::convert::FromSpecImpl<SubscriptionError> for ClCatError {
    open spec fn obeys_from_spec() -> bool {
        false
    }

    open spec fn from_spec(value: SubscriptionError) -> Self {
        arbitrary()
    }
}

impl From<std::io::Error> for ClCatError {
    /// A failure of input or output while the node starts stops it.
    fn from(value: std::io::Error) -> (error: Self)
        ensures
            is_init_failure(error@, "input or output failure"@, CauseKind::Io),
    {
        ClCatError::new(
            ERROR_CLIENT_INIT,
            "input or output failure".to_owned(),
            Some(InnerClCatError::Io(value.to_string())),
        )
    }
}

impl vstd::std_specs::convert::FromSpecImpl<std::io::Error> for ClCatError {
    open spec fn obeys_from_spec() -> bool {
        false
    }

    open spec fn from_spec(value: std::io::Error) -> Self {
        arbitrary()
    }
}

impl From<&std::io::Error> for ClCatError {
    /// A failure to read the local input stops the node.
    fn from(value: &std::io::Error) -> (error: Self)
        ensures
            is_init_failure(error@, "input or output failure"@, CauseKind::Io),
    {
        ClCatError::new(
            ERROR_CLIENT_INIT,
            "input or output failure".to_owned(),
            Some(InnerClCatError::Io(value.to_string())),
        )
    }
}

impl vstd::std_specs::convert::FromSpecImpl<&std::io::Error> for ClCatError {
    open spec fn obeys_from_spec() -> bool {
        false
    }

    open spec fn from_spec(value: &std::io::Error) -> Self {
        arbitrary()
    }
}

impl From<libp2p::noise::Error> for ClCatError {
    /// An encryption layer that could not be set up stops the node.
    fn from(value: libp2p::noise::Error) -> (error: Self)
        ensures
            is_init_failure(error@, "transport construction failure"@, CauseKind::Noise),
    {
        ClCatError::new(
            ERROR_CLIENT_INIT,
            "transport construction failure".to_owned(),
            Some(InnerClCatError::Noise(value.to_string())),
        )
    }
}

impl vstd::std_specs::convert::FromSpecImpl<libp2p::noise::Error> for ClCatError {
    open spec fn obeys_from_spec() -> bool {
        false
    }

    open spec fn from_spec(value: libp2p::noise::Error) -> Self {
        arbitrary()
    }
}

impl From<DialError> for ClCatError {
    /// A dial that fails while the node starts stops it.
    fn from(value: DialError) -> (error: Self)
        ensures
            is_init_failure(error@, "dial failure"@, CauseKind::Dial),
    {
        ClCatError::new(
            ERROR_CLIENT_INIT,
            "dial failure".to_owned(),
            Some(InnerClCatError::Dial(value.to_string())),
        )
    }
}

impl vstd::std_specs::convert::FromSpecImpl<DialError> for ClCatError {
    open spec fn obeys_from_spec() -> bool {
        false
    }

    open spec fn from_spec(value: DialError) -> Self {
        arbitrary()
    }
}

impl From<&str> for ClCatError {
    /// A failure that is known only by its description stops the node.
    fn from(value: &str) -> (error: Self)
        ensures
            error@.code == ERROR_CLIENT_INIT,
            error@.msg == value@,
            error@.inner is None,
    {
        ClCatError::new(ERROR_CLIENT_INIT, value.to_owned(), None)
    }
}

impl vstd::std_specs::convert::FromSpecImpl<&str> for ClCatError {
    open spec fn obeys_from_spec() -> bool {
        false
    }

    open spec fn from_spec(value: &str) -> Self {
        arbitrary()
    }
}

} // verus!
