use clcat::error::{ClCatError, InnerClCatError, ERROR_CLIENT_INIT};
use libp2p::gossipsub::SubscriptionError;
use libp2p::swarm::DialError;
use libp2p::{Multiaddr, TransportError};
use std::io;

fn words_of(error: &ClCatError) -> Option<String> {
    error.source().map(|cause| cause.words().clone())
}

#[test]
fn init_code_is_one() {
    assert_eq!(ERROR_CLIENT_INIT, 1);
}

#[test]
fn error_without_cause_reads_code_and_message() {
    let error = ClCatError::new(1, "boom".to_string(), None);
    assert_eq!(error.code(), 1);
    assert!(error.source().is_none());
    assert_eq!(error.to_text(), "E1: boom");
}

#[test]
fn error_with_cause_reads_due_to() {
    let error = ClCatError::new(
        7,
        "could not start".to_string(),
        Some(InnerClCatError::Io("disk on fire".to_string())),
    );
    assert_eq!(error.code(), 7);
    assert_eq!(error.to_text(), "E7: could not start due to disk on fire");
    assert!(matches!(error.source(), Some(InnerClCatError::Io(_))));
}

#[test]
fn error_text_with_the_largest_code_and_empty_message() {
    assert_eq!(ClCatError::new(255, String::new(), None).to_text(), "E255: ");
    assert_eq!(ClCatError::new(0, "x".to_string(), None).to_text(), "E0: x");
    assert_eq!(ClCatError::new(100, "x".to_string(), None).to_text(), "E100: x");
}

#[test]
fn cause_words_are_what_it_holds() {
    assert_eq!(InnerClCatError::Transport("a".to_string()).words(), "a");
    assert_eq!(InnerClCatError::Address("b".to_string()).words(), "b");
    assert_eq!(InnerClCatError::Subscription("c".to_string()).words(), "c");
    assert_eq!(InnerClCatError::Io("d".to_string()).words(), "d");
    assert_eq!(InnerClCatError::Noise("e".to_string()).words(), "e");
    assert_eq!(InnerClCatError::Dial("f".to_string()).words(), "f");
}

#[test]
fn from_description() {
    let error = ClCatError::from("the mesh sizes do not fit");
    assert_eq!(error.code(), ERROR_CLIENT_INIT);
    assert!(error.source().is_none());
    assert_eq!(error.to_text(), "E1: the mesh sizes do not fit");
}

#[test]
fn from_malformed_address() {
    let words = "not an address".parse::<Multiaddr>().unwrap_err().to_string();
    let error = ClCatError::from("not an address".parse::<Multiaddr>().unwrap_err());
    assert_eq!(error.code(), ERROR_CLIENT_INIT);
    assert!(matches!(error.source(), Some(InnerClCatError::Address(_))));
    assert_eq!(words_of(&error), Some(words.clone()));
    assert!(!words.is_empty());
    assert_eq!(error.to_text(), format!("E1: malformed address due to {words}"));
}

#[test]
fn from_subscription_error() {
    let error = ClCatError::from(SubscriptionError::NotAllowed);
    assert_eq!(error.code(), ERROR_CLIENT_INIT);
    assert!(matches!(error.source(), Some(InnerClCatError::Subscription(_))));
    assert_eq!(error.to_text(), "E1: topic subscription failure due to NotAllowed");
}

#[test]
fn from_io_error() {
    let error = ClCatError::from(io::Error::new(io::ErrorKind::Other, "no interface"));
    assert_eq!(error.code(), ERROR_CLIENT_INIT);
    assert!(matches!(error.source(), Some(InnerClCatError::Io(_))));
    assert_eq!(error.to_text(), "E1: input or output failure due to no interface");
}

#[test]
fn from_borrowed_io_error() {
    let failure = io::Error::new(io::ErrorKind::InvalidData, "stream did not contain valid UTF-8");
    let error = ClCatError::from(&failure);
    assert_eq!(error.code(), ERROR_CLIENT_INIT);
    assert!(matches!(error.source(), Some(InnerClCatError::Io(_))));
    assert_eq!(
        error.to_text(),
        "E1: input or output failure due to stream did not contain valid UTF-8"
    );
}

#[test]
fn from_noise_error() {
    let error = ClCatError::from(libp2p::noise::Error::InvalidLength);
    assert_eq!(error.code(), ERROR_CLIENT_INIT);
    assert!(matches!(error.source(), Some(InnerClCatError::Noise(_))));
    assert_eq!(
        error.to_text(),
        "E1: transport construction failure due to Only keys of length 32 bytes are supported"
    );
}

#[test]
fn from_dial_error() {
    let words = DialError::NoAddresses.to_string();
    let error = ClCatError::from(DialError::NoAddresses);
    assert_eq!(error.code(), ERROR_CLIENT_INIT);
    assert!(matches!(error.source(), Some(InnerClCatError::Dial(_))));
    assert_eq!(error.to_text(), format!("E1: dial failure due to {words}"));
    assert_eq!(words, "Dial error: no addresses for peer.");
}

#[test]
fn from_transport_error() {
    let address: Multiaddr = "/ip4/127.0.0.1/tcp/4001".parse().unwrap();
    let error = ClCatError::from(TransportError::<io::Error>::MultiaddrNotSupported(address));
    assert_eq!(error.code(), ERROR_CLIENT_INIT);
    assert!(matches!(error.source(), Some(InnerClCatError::Transport(_))));
    assert_eq!(
        error.to_text(),
        "E1: transport failure due to Multiaddr is not supported: /ip4/127.0.0.1/tcp/4001"
    );
}
