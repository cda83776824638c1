//! The error taxonomy, its exit codes and its stable code strings.

use vstd::prelude::*;
use crate::text::joined;

verus! {

/// Process exit codes: 0 success, 2 validation, 3 authentication or
/// configuration, 4 not found, 5 API, network or I/O.
#[derive(Debug, Clone, Copy, PartialEq, Eq, Structural)]
pub enum AppExitCode {
    Success,
    Validation,
    Auth,
    NotFound,
    ApiError,
}

impl AppExitCode {
    pub open spec fn spec_value(self) -> u8 {
        match self {
            AppExitCode::Success => 0,
            AppExitCode::Validation => 2,
            AppExitCode::Auth => 3,
            AppExitCode::NotFound => 4,
            AppExitCode::ApiError => 5,
        }
    }

    /// The numeric process exit status.
    pub fn value(&self) -> (r: u8)
        ensures
            r == self.spec_value(),
    {
        match self {
            AppExitCode::Success => 0,
            AppExitCode::Validation => 2,
            AppExitCode::Auth => 3,
            AppExitCode::NotFound => 4,
            AppExitCode::ApiError => 5,
        }
    }
}

/// Every failure the client reports. The last three carry the text of a
/// failure of the file system or of a JSON or TOML reader.
#[derive(Debug, Clone)]
pub enum AppError {
    Validation { message: String, hint: Option<String> },
    Config { message: String, hint: Option<String> },
    Auth { message: String, hint: Option<String> },
    NotFound { resource: String, id: String, hint: Option<String> },
    Api { message: String, status: Option<u16>, hint: Option<String> },
    Network { message: String, hint: Option<String> },
    Io { message: String },
    Json { message: String },
    Toml { message: String },
}

pub open spec fn opt_view(o: Option<String>) -> Option<Seq<char>> {
    match o {
        Some(s) => Some(s@),
        None => None,
    }
}

impl AppError {
    pub open spec fn spec_exit_code(&self) -> AppExitCode {
        match self {
            AppError::Validation { .. } => AppExitCode::Validation,
            AppError::Config { .. } => AppExitCode::Auth,
            AppError::Auth { .. } => AppExitCode::Auth,
            AppError::NotFound { .. } => AppExitCode::NotFound,
            AppError::Api { .. } => AppExitCode::ApiError,
            AppError::Network { .. } => AppExitCode::ApiError,
            AppError::Io { .. } => AppExitCode::ApiError,
            AppError::Json { .. } => AppExitCode::ApiError,
            AppError::Toml { .. } => AppExitCode::Auth,
        }
    }

    pub open spec fn spec_code(&self) -> Seq<char> {
        match self {
            AppError::Validation { .. } => "VALIDATION_ERROR"@,
            AppError::Config { .. } => "CONFIG_ERROR"@,
            AppError::Auth { .. } => "AUTH_ERROR"@,
            AppError::NotFound { .. } => "NOT_FOUND"@,
            AppError::Api { .. } => "API_ERROR"@,
            AppError::Network { .. } => "NETWORK_ERROR"@,
            AppError::Io { .. } => "IO_ERROR"@,
            AppError::Json { .. } => "JSON_ERROR"@,
            AppError::Toml { .. } => "CONFIG_ERROR"@,
        }
    }

    pub open spec fn spec_hint(&self) -> Option<Seq<char>> {
        match self {
            AppError::Validation { hint, .. } => opt_view(*hint),
            AppError::Config { hint, .. } => opt_view(*hint),
            AppError::Auth { hint, .. } => opt_view(*hint),
            AppError::NotFound { hint, .. } => opt_view(*hint),
            AppError::Api { hint, .. } => opt_view(*hint),
            AppError::Network { hint, .. } => opt_view(*hint),
            _ => None,
        }
    }

    /// The one-line description of the error.
    pub open spec fn spec_display(&self) -> Seq<char> {
        match self {
            AppError::Validation { message, .. } => "Validation error: "@ + message@,
            AppError::Config { message, .. } => "Configuration error: "@ + message@,
            AppError::Auth { message, .. } => "Authentication error: "@ + message@,
            AppError::NotFound { resource, id, .. } => "Not found: "@ + resource@ + " #"@ + id@,
            AppError::Api { message, .. } => "API error: "@ + message@,
            AppError::Network { message, .. } => "Network error: "@ + message@,
            AppError::Io { message } => "IO error: "@ + message@,
            AppError::Json { message } => "JSON error: "@ + message@,
            AppError::Toml { message } => "TOML error: "@ + message@,
        }
    }

    /// The exit code that this error ends the process with.
    pub fn exit_code(&self) -> (r: AppExitCode)
        ensures
            r == self.spec_exit_code(),
    {
        match self {
            AppError::Validation { .. } => AppExitCode::Validation,
            AppError::Config { .. } => AppExitCode::Auth,
            AppError::Auth { .. } => AppExitCode::Auth,
            AppError::NotFound { .. } => AppExitCode::NotFound,
            AppError::Api { .. } => AppExitCode::ApiError,
            AppError::Network { .. } => AppExitCode::ApiError,
            AppError::Io { .. } => AppExitCode::ApiError,
            AppError::Json { .. } => AppExitCode::ApiError,
            AppError::Toml { .. } => AppExitCode::Auth,
        }
    }

    /// The stable code string of the error, as output shows it.
    pub fn code(&self) -> (r: &'static str)
        ensures
            r@ == self.spec_code(),
    {
        match self {
            AppError::Validation { .. } => "VALIDATION_ERROR",
            AppError::Config { .. } => "CONFIG_ERROR",
            AppError::Auth { .. } => "AUTH_ERROR",
            AppError::NotFound { .. } => "NOT_FOUND",
            AppError::Api { .. } => "API_ERROR",
            AppError::Network { .. } => "NETWORK_ERROR",
            AppError::Io { .. } => "IO_ERROR",
            AppError::Json { .. } => "JSON_ERROR",
            AppError::Toml { .. } => "CONFIG_ERROR",
        }
    }

    /// The remediation hint, where the error has one.
    pub fn hint(&self) -> (r: Option<&str>)
        ensures
            r.is_some() == self.spec_hint().is_some(),
            r.is_some() ==> r.unwrap()@ == self.spec_hint().unwrap(),
    {
        let h = match self {
            AppError::Validation { hint, .. } => hint,
            AppError::Config { hint, .. } => hint,
            AppError::Auth { hint, .. } => hint,
            AppError::NotFound { hint, .. } => hint,
            AppError::Api { hint, .. } => hint,
            AppError::Network { hint, .. } => hint,
            _ => {
                return None;
            },
        };
        match h {
            Some(s) => Some(s.as_str()),
            None => None,
        }
    }

    /// The one-line description of the error.
    pub fn display_text(&self) -> (r: String)
        ensures
            r@ == self.spec_display(),
    {
        match self {
            AppError::Validation { message, .. } => joined("Validation error: ", message.as_str()),
            AppError::Config { message, .. } => joined(
                "Configuration error: ",
                message.as_str(),
            ),
            AppError::Auth { message, .. } => joined(
                "Authentication error: ",
                message.as_str(),
            ),
            AppError::NotFound { resource, id, .. } => {
                let mut s = joined("Not found: ", resource.as_str());
                s.append(" #");
                s.append(id.as_str());
                s
            },
            AppError::Api { message, .. } => joined("API error: ", message.as_str()),
            AppError::Network { message, .. } => joined("Network error: ", message.as_str()),
            AppError::Io { message } => joined("IO error: ", message.as_str()),
            AppError::Json { message } => joined("JSON error: ", message.as_str()),
            AppError::Toml { message } => joined("TOML error: ", message.as_str()),
        }
    }

    /// A validation error.
    pub fn validation(message: &str) -> (r: AppError)
        ensures
            match r {
                AppError::Validation { message: m, hint: h } => m@ == message@ && h is None,
                _ => false,
            },
    {
        AppError::Validation { message: message.to_owned(), hint: None }
    }

    /// A validation error, with a remediation hint.
    pub fn validation_with_hint(message: &str, hint: &str) -> (r: AppError)
        ensures
            match r {
                AppError::Validation { message: m, hint: h } => m@ == message@ && h is Some
                    && h.unwrap()@ == hint@,
                _ => false,
            },
    {
        AppError::Validation { message: message.to_owned(), hint: Some(hint.to_owned()) }
    }

    /// A configuration error.
    pub fn config(message: &str) -> (r: AppError)
        ensures
            match r {
                AppError::Config { message: m, hint: h } => m@ == message@ && h is None,
                _ => false,
            },
    {
        AppError::Config { message: message.to_owned(), hint: None }
    }

    /// A configuration error, with a remediation hint.
    pub fn config_with_hint(message: &str, hint: &str) -> (r: AppError)
        ensures
            match r {
                AppError::Config { message: m, hint: h } => m@ == message@ && h is Some
                    && h.unwrap()@ == hint@,
                _ => false,
            },
    {
        AppError::Config { message: message.to_owned(), hint: Some(hint.to_owned()) }
    }

    /// An authentication error.
    pub fn auth(message: &str) -> (r: AppError)
        ensures
            match r {
                AppError::Auth { message: m, hint: h } => m@ == message@ && h is None,
                _ => false,
            },
    {
        AppError::Auth { message: message.to_owned(), hint: None }
    }

    /// An authentication error, with a remediation hint.
    pub fn auth_with_hint(message: &str, hint: &str) -> (r: AppError)
        ensures
            match r {
                AppError::Auth { message: m, hint: h } => m@ == message@ && h is Some
                    && h.unwrap()@ == hint@,
                _ => false,
            },
    {
        AppError::Auth { message: message.to_owned(), hint: Some(hint.to_owned()) }
    }

    /// A missing resource, named by its kind and identifier.
    pub fn not_found(resource: &str, id: &str) -> (r: AppError)
        ensures
            match r {
                AppError::NotFound { resource: k, id: i, hint: h } => k@ == resource@ && i@ == id@
                    && h is None,
                _ => false,
            },
    {
        AppError::NotFound { resource: resource.to_owned(), id: id.to_owned(), hint: None }
    }

    /// A missing resource, with a remediation hint.
    pub fn not_found_with_hint(resource: &str, id: &str, hint: &str) -> (r: AppError)
        ensures
            match r {
                AppError::NotFound { resource: k, id: i, hint: h } => k@ == resource@ && i@ == id@
                    && h is Some && h.unwrap()@ == hint@,
                _ => false,
            },
    {
        AppError::NotFound {
            resource: resource.to_owned(),
            id: id.to_owned(),
            hint: Some(hint.to_owned()),
        }
    }

    /// An error reported by the server, or a reply that could not be read.
    pub fn api(message: &str, status: Option<u16>) -> (r: AppError)
        ensures
            match r {
                AppError::Api { message: m, status: st, hint: h } => m@ == message@ && st == status
                    && h is None,
                _ => false,
            },
    {
        AppError::Api { message: message.to_owned(), status, hint: None }
    }

    /// An API error, with a remediation hint.
    pub fn api_with_hint(message: &str, status: Option<u16>, hint: &str) -> (r: AppError)
        ensures
            match r {
                AppError::Api { message: m, status: st, hint: h } => m@ == message@ && st == status
                    && h is Some && h.unwrap()@ == hint@,
                _ => false,
            },
    {
        AppError::Api { message: message.to_owned(), status, hint: Some(hint.to_owned()) }
    }

    /// A failure to reach the server.
    pub fn network(message: &str) -> (r: AppError)
        ensures
            match r {
                AppError::Network { message: m, hint: h } => m@ == message@ && h is None,
                _ => false,
            },
    {
        AppError::Network { message: message.to_owned(), hint: None }
    }
}

} // verus!
