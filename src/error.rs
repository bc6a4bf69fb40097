use vstd::prelude::*;

verus! {

/// The input field that a validation failure is attributed to.
#[derive(Clone, Copy, Debug, PartialEq, Eq, Structural)]
pub enum Field {
    Username,
    Email,
    Password,
}

impl Field {
    pub open spec fn name_spec(self) -> Seq<char> {
        match self {
            Field::Username => "username"@,
            Field::Email => "email"@,
            Field::Password => "password"@,
        }
    }

    /// The field's name as it appears on the wire.
    pub fn name(&self) -> (r: &'static str)
        ensures
            r@ == self.name_spec(),
    {
        proof {
            reveal_strlit("username");
            reveal_strlit("email");
            reveal_strlit("password");
        }
        match self {
            Field::Username => "username",
            Field::Email => "email",
            Field::Password => "password",
        }
    }
}

/// Every failure a domain operation can report. Exactly one of these is
/// returned by a failing operation.
#[derive(Clone, Debug)]
pub enum AppError {
    /// The input broke a validation rule; user-correctable.
    ValidationFailed { field: Field, reason: String },
    /// Another account already holds the normalized username.
    UsernameAlreadyExists,
    /// Another account already holds the normalized email.
    EmailAlreadyExists,
    /// Reserved for authentication flows.
    Unauthorized,
    /// A store or crypto failure; the cause is for server-side logs only.
    Internal { cause: String },
}

/// What a client is told about a failure.
#[derive(Clone, Copy, Debug, PartialEq, Eq, Structural)]
pub enum ErrorCode {
    InvalidInput,
    UsernameTaken,
    EmailTaken,
    InternalError,
}

/// The client-visible form of an `AppError`: the opaque cause of an internal
/// failure never appears here.
#[derive(Clone, Debug)]
pub struct ClientError {
    pub code: ErrorCode,
    pub field: Option<Field>,
    pub detail: Option<String>,
}

impl AppError {
    /// Validation failures and conflicts are shown to the client as they are.
    pub open spec fn is_client_visible(self) -> bool {
        match self {
            AppError::ValidationFailed { .. } => true,
            AppError::UsernameAlreadyExists => true,
            AppError::EmailAlreadyExists => true,
            _ => false,
        }
    }

    pub open spec fn client_view(self) -> ClientError {
        match self {
            AppError::ValidationFailed { field, reason } => ClientError {
                code: ErrorCode::InvalidInput,
                field: Some(field),
                detail: Some(reason),
            },
            AppError::UsernameAlreadyExists => ClientError {
                code: ErrorCode::UsernameTaken,
                field: Some(Field::Username),
                detail: None,
            },
            AppError::EmailAlreadyExists => ClientError {
                code: ErrorCode::EmailTaken,
                field: Some(Field::Email),
                detail: None,
            },
            _ => ClientError { code: ErrorCode::InternalError, field: None, detail: None },
        }
    }

    /// Maps the error onto what the client may see: validation failures and
    /// conflicts keep their field, every other kind collapses into one opaque
    /// internal error.
    pub fn to_client(&self) -> (r: ClientError)
        ensures
            r == self.client_view(),
    {
        match self {
            AppError::ValidationFailed { field, reason } => ClientError {
                code: ErrorCode::InvalidInput,
                field: Some(*field),
                detail: Some(reason.clone()),
            },
            AppError::UsernameAlreadyExists => ClientError {
                code: ErrorCode::UsernameTaken,
                field: Some(Field::Username),
                detail: None,
            },
            AppError::EmailAlreadyExists => ClientError {
                code: ErrorCode::EmailTaken,
                field: Some(Field::Email),
                detail: None,
            },
            _ => ClientError { code: ErrorCode::InternalError, field: None, detail: None },
        }
    }

    /// The cause to log server-side, for the kinds whose cause is hidden from
    /// the client.
    pub fn log_cause(&self) -> (r: Option<String>)
        ensures
            r == (match self {
                AppError::Internal { cause } => Some(*cause),
                _ => None::<String>,
            }),
    {
        match self {
            AppError::Internal { cause } => Some(cause.clone()),
            _ => None,
        }
    }
}

impl ErrorCode {
    pub open spec fn text_spec(self) -> Seq<char> {
        match self {
            ErrorCode::InvalidInput => "INVALID_INPUT"@,
            ErrorCode::UsernameTaken => "USERNAME_ALREADY_EXISTS"@,
            ErrorCode::EmailTaken => "EMAIL_ALREADY_EXISTS"@,
            ErrorCode::InternalError => "INTERNAL_SERVER_ERROR"@,
        }
    }

    /// The code as sent in a GraphQL error's extensions.
    pub fn text(&self) -> (r: &'static str)
        ensures
            r@ == self.text_spec(),
    {
        proof {
            reveal_strlit("INVALID_INPUT");
            reveal_strlit("USERNAME_ALREADY_EXISTS");
            reveal_strlit("EMAIL_ALREADY_EXISTS");
            reveal_strlit("INTERNAL_SERVER_ERROR");
        }
        match self {
            ErrorCode::InvalidInput => "INVALID_INPUT",
            ErrorCode::UsernameTaken => "USERNAME_ALREADY_EXISTS",
            ErrorCode::EmailTaken => "EMAIL_ALREADY_EXISTS",
            ErrorCode::InternalError => "INTERNAL_SERVER_ERROR",
        }
    }
}

} // verus!
