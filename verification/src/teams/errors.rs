//! Errors of team operations.
use vstd::prelude::*;

use crate::text::{push_str, string_of};

verus! {

/// Why a team operation failed.
#[derive(Clone, Debug)]
pub enum TeamsError {
    NotFound,
    AccessDenied,
    InvalidOperation(String),
    InviteInvalid,
    InviteStore(String),
    ModelProvider(String),
    Database(String),
    Redis(String),
}

/// The text of an error, as displayed.
pub open spec fn teams_error_text(e: TeamsError) -> Seq<char> {
    match e {
        TeamsError::NotFound => "team not found"@,
        TeamsError::AccessDenied => "team access denied"@,
        TeamsError::InvalidOperation(m) => "invalid team operation: "@ + m@,
        TeamsError::InviteInvalid => "invalid or expired invite"@,
        TeamsError::InviteStore(m) => "invite store error: "@ + m@,
        TeamsError::ModelProvider(m) => "model provider error: "@ + m@,
        TeamsError::Database(m) => "database error: "@ + m@,
        TeamsError::Redis(m) => "redis error: "@ + m@,
    }
}

impl TeamsError {
    /// The text of the error, as displayed.
    pub fn message(&self) -> (r: String)
        ensures
            r@ == teams_error_text(*self),
    {
        let mut out: Vec<char> = Vec::new();
        match self {
            TeamsError::NotFound => push_str(&mut out, "team not found"),
            TeamsError::AccessDenied => push_str(&mut out, "team access denied"),
            TeamsError::InvalidOperation(m) => {
                push_str(&mut out, "invalid team operation: ");
                push_str(&mut out, m.as_str());
            },
            TeamsError::InviteInvalid => push_str(&mut out, "invalid or expired invite"),
            TeamsError::InviteStore(m) => {
                push_str(&mut out, "invite store error: ");
                push_str(&mut out, m.as_str());
            },
            TeamsError::ModelProvider(m) => {
                push_str(&mut out, "model provider error: ");
                push_str(&mut out, m.as_str());
            },
            TeamsError::Database(m) => {
                push_str(&mut out, "database error: ");
                push_str(&mut out, m.as_str());
            },
            TeamsError::Redis(m) => {
                push_str(&mut out, "redis error: ");
                push_str(&mut out, m.as_str());
            },
        }
        string_of(&out)
    }
}

} // verus!
