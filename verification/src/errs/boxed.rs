//! An error of any type under one name.

use std::any::TypeId;
use vstd::prelude::*;
use vstd::std_specs::convert::IntoSpec;
use vstd::string::to_string_from_display_ensures;

verus! {

/// Trusted: `std::any::TypeId`, the identifier of a type. Nothing inside it
/// is visible; two of them can be compared.
#[verifier::external_type_specification]
#[verifier::external_body]
pub struct ExTypeId(TypeId);

/// The identifier of the type `T`.
///
/// Trusted: the body calls `std::any::TypeId::of`. Nothing is claimed of the
/// result.
#[verifier::external_body]
fn type_id_of<T: 'static>() -> (id: TypeId) {
    TypeId::of::<T>()
}

/// Tells whether two identifiers are the same.
///
/// Trusted: the body compares with `==` of `std::any::TypeId`, and the
/// contract claims that it answers whether the two are equal.
#[verifier::external_body]
fn same_type_id(a: &TypeId, b: &TypeId) -> (same: bool)
    ensures
        same == (*a == *b),
{
    a == b
}

/// An error that stands for an error of any type. It keeps what that error
/// displays and the identifier of its type, and may carry a message of its
/// own on top.
#[derive(Debug)]
pub struct BoxedError {
    cause: String,
    type_id: TypeId,
    detail_message: Option<String>,
}

/// A result whose error is a [`BoxedError`].
pub type Result<T> = std::result::Result<T, BoxedError>;

impl BoxedError {
    /// What the error that this one stands for displays.
    pub closed spec fn cause(&self) -> String {
        self.cause
    }

    /// The identifier of the type of the error that this one stands for.
    pub closed spec fn type_id(&self) -> TypeId {
        self.type_id
    }

    /// The message that was added to the error, if one was.
    pub closed spec fn detail(&self) -> Option<Seq<char>> {
        match self.detail_message {
            Some(message) => Some(message@),
            None => None,
        }
    }

    /// What `to_string` returns for an error with this cause and this
    /// message.
    pub open spec fn rendered(cause: Seq<char>, detail: Option<Seq<char>>) -> Seq<char> {
        match detail {
            Some(message) => "Error: "@ + message + "\nCaused by: "@ + cause,
            None => cause,
        }
    }

    /// An error made of its three parts.
    pub fn from_parts(cause: String, type_id: TypeId, detail_message: Option<String>) -> (error:
        Self)
        ensures
            error.cause() == cause,
            error.type_id() == type_id,
            error.detail() == match detail_message {
                Some(message) => Some(message@),
                None => None,
            },
    {
        Self { cause, type_id, detail_message }
    }

    /// The three parts of the error: what its cause displays, the identifier
    /// of the cause's type, and the message that was added.
    pub fn into_parts(self) -> (parts: (String, TypeId, Option<String>))
        ensures
            parts.0 == self.cause(),
            parts.1 == self.type_id(),
            self.detail() == match parts.2 {
                Some(message) => Some(message@),
                None => None,
            },
    {
        (self.cause, self.type_id, self.detail_message)
    }

    /// Stands for `e`, with no message added.
    pub fn new<E>(e: E) -> (error: Self) where E: std::error::Error + std::fmt::Display + 'static
        ensures
            to_string_from_display_ensures::<E>(&e, error.cause()),
            error.detail() is None,
    {
        Self::from_parts(e.to_string(), type_id_of::<E>(), None)
    }

    /// Stands for `e`, with the message that `msg` converts to.
    pub fn with_detail_message<E, S>(e: E, msg: S) -> (error: Self) where
        S: Into<String>,
        E: std::error::Error + std::fmt::Display + 'static,

        ensures
            to_string_from_display_ensures::<E>(&e, error.cause()),
            error.detail() is Some,
            S::obeys_into_spec() ==> error.detail() == Some(msg.into_spec()@),
    {
        Self::from_parts(e.to_string(), type_id_of::<E>(), Some(msg.into()))
    }

    /// Tells whether `id` identifies the type of the error that this one
    /// stands for.
    pub fn has_type_id(&self, id: &TypeId) -> (same: bool)
        ensures
            same == (self.type_id() == *id),
    {
        same_type_id(&self.type_id, id)
    }

    /// Tells whether the error that this one stands for is a `T`.
    pub fn is<T: std::error::Error + 'static>(&self) -> (same: bool)
        ensures
            exists|id: TypeId|
                #[trigger] Self::identifies::<T>(id) && same == (self.type_id() == id),
    {
        let id = type_id_of::<T>();
        assert(Self::identifies::<T>(id));
        self.has_type_id(&id)
    }

    /// Whether `id` is an identifier that a call for the identifier of the
    /// type `T` has returned. Nothing is said of two such calls returning
    /// the same, nor of two types having different identifiers.
    pub closed spec fn identifies<T: 'static>(id: TypeId) -> bool {
        call_ensures(type_id_of::<T>, (), id)
    }

    /// The message that was added to the error, if one was.
    pub fn detail_message(&self) -> (message: Option<&str>)
        ensures
            message is Some <==> self.detail() is Some,
            message matches Some(text) ==> self.detail() == Some(text@),
    {
        match &self.detail_message {
            Some(message) => Some(message.as_str()),
            None => None,
        }
    }

    /// The error as text: what its cause displays, under the added message
    /// where there is one.
    pub fn to_string(&self) -> (text: String)
        ensures
            text@ == Self::rendered(self.cause()@, self.detail()),
    {
        match &self.detail_message {
            Some(message) => {
                let mut text = String::from_str("Error: ");
                text.append(message.as_str());
                text.append("\nCaused by: ");
                text.append(self.cause.as_str());
                text
            },
            None => self.cause.clone(),
        }
    }
}

} // verus!
