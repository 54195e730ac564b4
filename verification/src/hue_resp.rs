//! What a bridge answers to a registration request.

use crate::text::opt_view;
use vstd::prelude::*;

verus! {

/// The error type with which a bridge says that its link button was not
/// pressed.
pub const LINK_BUTTON_NOT_PRESSED: i32 = 101;

/// Why a registration was refused.
#[derive(Clone, Copy, Debug, PartialEq, Eq, Structural)]
pub enum HueErrorCode {
    Unknown,
    LinkButtonNotPressed,
}

/// The credential that a bridge hands out.
#[derive(Debug)]
pub struct HueBridgeRegistrationSuccess {
    pub username: String,
}

/// An error as a bridge reports it.
#[derive(Debug)]
pub struct HueBridgeError {
    kind: i32,
    address: String,
    description: String,
}

/// What a reported error holds.
pub struct HueBridgeErrorView {
    pub kind: i32,
    pub address: Seq<char>,
    pub description: Seq<char>,
}

impl View for HueBridgeError {
    type V = HueBridgeErrorView;

    closed spec fn view(&self) -> HueBridgeErrorView {
        HueBridgeErrorView {
            kind: self.kind,
            address: self.address@,
            description: self.description@,
        }
    }
}

/// The code that an error of type `kind` stands for.
pub open spec fn code_of(kind: i32) -> HueErrorCode {
    if kind == LINK_BUTTON_NOT_PRESSED {
        HueErrorCode::LinkButtonNotPressed
    } else {
        HueErrorCode::Unknown
    }
}

impl HueBridgeError {
    /// An error of type `kind`, reported for `address`.
    pub fn new(kind: i32, address: String, description: String) -> (r: Self)
        ensures
            r@ == (HueBridgeErrorView { kind, address: address@, description: description@ }),
    {
        Self { kind, address, description }
    }

    /// The code that the error stands for.
    pub fn error_code(&self) -> (code: HueErrorCode)
        ensures
            code == code_of(self@.kind),
    {
        if self.kind == LINK_BUTTON_NOT_PRESSED {
            HueErrorCode::LinkButtonNotPressed
        } else {
            HueErrorCode::Unknown
        }
    }
}

/// One entry of the answer to a registration request: a success or an
/// error.
#[derive(Debug)]
pub struct HueBridgeRegistration {
    success: Option<HueBridgeRegistrationSuccess>,
    error: Option<HueBridgeError>,
}

/// What an entry holds: the credential, if it grants one, and the type of
/// the error, if it reports one.
pub struct HueBridgeRegistrationView {
    pub username: Option<Seq<char>>,
    pub error: Option<HueBridgeErrorView>,
}

impl View for HueBridgeRegistration {
    type V = HueBridgeRegistrationView;

    closed spec fn view(&self) -> HueBridgeRegistrationView {
        HueBridgeRegistrationView {
            username: match self.success {
                Some(success) => Some(success.username@),
                None => None,
            },
            error: match self.error {
                Some(error) => Some(error@),
                None => None,
            },
        }
    }
}

impl HueBridgeRegistrationView {
    /// Whether the entry says anything: it grants a credential or reports
    /// an error.
    pub open spec fn decided(self) -> bool {
        self.username is Some || self.error is Some
    }
}

impl HueBridgeRegistration {
    /// An entry with the given parts.
    pub fn new(success: Option<HueBridgeRegistrationSuccess>, error: Option<HueBridgeError>) -> (r:
        Self)
        ensures
            r@.username == (match success {
                Some(s) => Some(s.username@),
                None => None,
            }),
            r@.error == (match error {
                Some(e) => Some(e@),
                None => None,
            }),
    {
        Self { success, error }
    }

    /// Whether the entry grants a credential or reports an error.
    pub fn is_decided(&self) -> (r: bool)
        ensures
            r == self@.decided(),
    {
        self.success.is_some() || self.error.is_some()
    }

    /// What each entry of an answer holds.
    pub open spec fn views(entries: Seq<HueBridgeRegistration>) -> Seq<HueBridgeRegistrationView> {
        entries.map_values(|entry: HueBridgeRegistration| entry@)
    }

    /// Get the username
    pub fn get_username(&self) -> (r: Option<&String>)
        ensures
            r is Some <==> self@.username is Some,
            r matches Some(name) ==> Some(name@) == self@.username,
    {
        match &self.success {
            Some(s) => Some(&s.username),
            None => None,
        }
    }

    /// Transform the response into a `Result`: the success where there is
    /// one, else the error.
    pub fn into_result(self) -> (r: Result<HueBridgeRegistrationSuccess, HueBridgeError>)
        requires
            self@.decided(),
        ensures
            r is Ok <==> self@.username is Some,
            r matches Ok(success) ==> Some(success.username@) == self@.username,
            r matches Err(error) ==> Some(error@) == self@.error,
    {
        match self.success {
            Some(success) => Ok(success),
            None => match self.error {
                Some(error) => Err(error),
                None => unreached(),
            },
        }
    }
}

} // verus!
