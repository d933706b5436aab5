//! Typed errors of the messaging substrate: transport-level failures,
//! codec failures, reply-chain exhaustion and configuration errors.

use vstd::prelude::*;
use vstd::string::StringExecFns;

verus! {

/// An error of the wire codec: the payload was malformed.
#[derive(Debug)]
pub enum MessageCompressionError {
    /// A token that the header promised (a param, a response topic, the
    /// sender) is missing from the payload; carries the field's name.
    FieldNotFound(String),
    /// The payload's first character is not a recognized message-type code;
    /// carries that character as a one-character string.
    MessageType(String),
    /// The payload is shorter than the three-character header.
    DecompressionError,
}

impl MessageCompressionError {
    /// A human-readable description of the error.
    pub fn message(&self) -> (r: String)
        ensures
            self matches MessageCompressionError::FieldNotFound(f) ==> r@ == "field "@ + f@
                + " not found!"@,
            self matches MessageCompressionError::MessageType(t) ==> r@ == "message type "@ + t@
                + " not found!"@,
            self matches MessageCompressionError::DecompressionError ==> r@
                == "error during decompression"@,
    {
        match self {
            MessageCompressionError::FieldNotFound(f) => {
                let mut s = String::from_str("field ");
                s.append(f.as_str());
                s.append(" not found!");
                proof {
                    assert(s@ =~= "field "@ + f@ + " not found!"@);
                }
                s
            },
            MessageCompressionError::MessageType(t) => {
                let mut s = String::from_str("message type ");
                s.append(t.as_str());
                s.append(" not found!");
                proof {
                    assert(s@ =~= "message type "@ + t@ + " not found!"@);
                }
                s
            },
            MessageCompressionError::DecompressionError => String::from_str(
                "error during decompression",
            ),
        }
    }
}

/// An error of the messaging substrate.
#[derive(Debug)]
pub enum Error {
    /// The connection to the broker could not be established.
    ConnectionError,
    /// Publishing failed; carries the topic and the encoded payload.
    PublishError(String, String),
    /// Subscribing failed; carries the topic.
    SubscribeError(String),
    /// Receiving the next transport unit failed.
    GetMessageError,
    /// A received frame was not valid UTF-8.
    ConversionError,
    /// A reply was attempted on a message whose response chain is exhausted.
    ReplyError,
    /// A payload could not be decoded; carries the codec error's description.
    MessageCompressionError(String),
    /// A required configuration value is missing from the environment;
    /// carries the property's name.
    MissingEnvPropertyError(String),
    /// A required configuration value is missing from the configuration file;
    /// carries the property's name.
    MissingFilePropertyError(String),
    /// The transport reported an error; carries its description.
    ZmqError(String),
}

impl Error {
    /// A human-readable description of the error.
    pub fn message(&self) -> (r: String)
        ensures
            self matches Error::ConnectionError ==> r@ == "Error on connection"@,
            self matches Error::PublishError(t, p) ==> r@ == "Error publishing "@ + p@
                + " in topic "@ + t@,
            self matches Error::SubscribeError(t) ==> r@ == "Error subscribing to topic "@ + t@,
            self matches Error::GetMessageError ==> r@ == "Error during get_message"@,
            self matches Error::ConversionError ==> r@ == "Error converting message"@,
            self matches Error::ReplyError ==> r@ == "No response topic found"@,
            self matches Error::MessageCompressionError(m) ==> r@ == "MessageCompressionError: "@
                + m@,
            self matches Error::MissingEnvPropertyError(p) ==> r@ == "Missing env property: "@
                + p@,
            self matches Error::MissingFilePropertyError(p) ==> r@ == "Missing file property: "@
                + p@,
            self matches Error::ZmqError(m) ==> r@ == "ZmqError: "@ + m@,
    {
        match self {
            Error::ConnectionError => String::from_str("Error on connection"),
            Error::PublishError(topic, payload) => {
                let mut s = String::from_str("Error publishing ");
                s.append(payload.as_str());
                s.append(" in topic ");
                s.append(topic.as_str());
                proof {
                    assert(s@ =~= "Error publishing "@ + payload@ + " in topic "@ + topic@);
                }
                s
            },
            Error::SubscribeError(topic) => {
                let mut s = String::from_str("Error subscribing to topic ");
                s.append(topic.as_str());
                proof {
                    assert(s@ =~= "Error subscribing to topic "@ + topic@);
                }
                s
            },
            Error::GetMessageError => String::from_str("Error during get_message"),
            Error::ConversionError => String::from_str("Error converting message"),
            Error::ReplyError => String::from_str("No response topic found"),
            Error::MessageCompressionError(m) => {
                let mut s = String::from_str("MessageCompressionError: ");
                s.append(m.as_str());
                proof {
                    assert(s@ =~= "MessageCompressionError: "@ + m@);
                }
                s
            },
            Error::MissingEnvPropertyError(p) => {
                let mut s = String::from_str("Missing env property: ");
                s.append(p.as_str());
                proof {
                    assert(s@ =~= "Missing env property: "@ + p@);
                }
                s
            },
            Error::MissingFilePropertyError(p) => {
                let mut s = String::from_str("Missing file property: ");
                s.append(p.as_str());
                proof {
                    assert(s@ =~= "Missing file property: "@ + p@);
                }
                s
            },
            Error::ZmqError(m) => {
                let mut s = String::from_str("ZmqError: ");
                s.append(m.as_str());
                proof {
                    assert(s@ =~= "ZmqError: "@ + m@);
                }
                s
            },
        }
    }
}

impl From<MessageCompressionError> for Error {
    fn from(value: MessageCompressionError) -> (r: Error) {
        Error::MessageCompressionError(value.message())
    }
}

impl vstd::std_specs::convert::FromSpecImpl<MessageCompressionError> for Error {
    open spec fn obeys_from_spec() -> bool {
        // The wrapped description is an executable string that a spec
        // function cannot build, so nothing is claimed of the conversion;
        // verified code maps codec errors explicitly instead.
        false
    }

    open spec fn from_spec(t: MessageCompressionError) -> Error {
        arbitrary()
    }
}

} // verus!
