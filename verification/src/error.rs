//! The errors of the components.

use vstd::prelude::*;

verus! {

/// What a component answers when it cannot do what it was asked.
#[derive(Clone, Debug)]
pub enum ComponentError {
    /// A stream socket was given both a framing and a maximum length.
    MaxLengthWithFraming,
    /// The TLS settings were refused, with the reason.
    Tls(String),
}

/// The result of an operation of a component.
pub type Result<T> = core::result::Result<T, ComponentError>;

impl ComponentError {
    /// The text of `message`.
    pub open spec fn text(self) -> Seq<char> {
        match self {
            ComponentError::MaxLengthWithFraming => "Using `max_length` is deprecated and does not have any effect when framing is provided. Configure `max_length` on the framing config instead."@,
            ComponentError::Tls(reason) => reason@,
        }
    }

    /// The error as it is shown to the user.
    pub fn message(&self) -> (message: String)
        ensures
            message@ == self.text(),
    {
        match self {
            ComponentError::MaxLengthWithFraming => "Using `max_length` is deprecated and does not have any effect when framing is provided. Configure `max_length` on the framing config instead.".to_string(),
            ComponentError::Tls(reason) => reason.clone(),
        }
    }
}

/// What is said of refused TLS settings is the reason, word for word, so that
/// different reasons are told apart.
pub proof fn law_reason_is_shown(one: String, other: String)
    ensures
        ComponentError::Tls(one).text() == one@,
        ComponentError::Tls(one).text() == ComponentError::Tls(other).text() <==> one@ == other@,
{
}

/// What is shown of an error: the reason for which TLS settings were refused, or
/// where the maximum length belongs.
pub proof fn law_message(error: ComponentError, message: String)
    requires
        call_ensures(ComponentError::message, (&error,), message),
    ensures
        error matches ComponentError::Tls(reason) ==> message@ == reason@,
        error is MaxLengthWithFraming ==> message@
            == "Using `max_length` is deprecated and does not have any effect when framing is provided. Configure `max_length` on the framing config instead."@,
{
}

} // verus!
