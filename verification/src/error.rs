//! The error vocabulary that every operation on every platform returns.
use vstd::prelude::*;
use vstd::string::*;

verus! {

/// The kinds of failure of a credential operation. `T` is the type of the
/// diagnostic message: `String` in executable code, `Seq<char>` in contracts.
#[derive(Debug, PartialEq, Eq)]
pub enum ErrorOf<T> {
    /// The entry that the call addressed is not in the store.
    NotFound,
    /// The store denied access: it is locked, a permission is missing, or the
    /// user declined a prompt.
    AccessDenied,
    /// The platform has no secret store that this library can reach.
    Unsupported,
    /// A lookup that returns one entry matched several.
    Ambiguous,
    /// A service name, an account name or a secret that the store cannot hold.
    Invalid,
    /// A native failure outside the kinds above, with the store's own code
    /// and message.
    Platform { code: i64, message: T },
}

/// An error as the operations return it.
pub type Error = ErrorOf<String>;

/// An error as the contracts speak of it.
pub type ErrorView = ErrorOf<Seq<char>>;

impl View for ErrorOf<String> {
    type V = ErrorOf<Seq<char>>;

    open spec fn view(&self) -> Self::V {
        match self {
            ErrorOf::NotFound => ErrorOf::NotFound,
            ErrorOf::AccessDenied => ErrorOf::AccessDenied,
            ErrorOf::Unsupported => ErrorOf::Unsupported,
            ErrorOf::Ambiguous => ErrorOf::Ambiguous,
            ErrorOf::Invalid => ErrorOf::Invalid,
            ErrorOf::Platform { code, message } => ErrorOf::Platform {
                code: *code,
                message: message@,
            },
        }
    }
}

/// The decimal digit `d`, for `d` from 0 to 9.
pub open spec fn digit(d: int) -> Seq<char> {
    if d == 0 {
        "0"@
    } else if d == 1 {
        "1"@
    } else if d == 2 {
        "2"@
    } else if d == 3 {
        "3"@
    } else if d == 4 {
        "4"@
    } else if d == 5 {
        "5"@
    } else if d == 6 {
        "6"@
    } else if d == 7 {
        "7"@
    } else if d == 8 {
        "8"@
    } else {
        "9"@
    }
}

/// The decimal digits of a number that is not negative, without leading zeros.
pub open spec fn natural(n: int) -> Seq<char>
    decreases n,
{
    if n < 10 {
        digit(n)
    } else {
        natural(n / 10) + digit(n % 10)
    }
}

/// A number in decimal, with a minus sign where it is negative.
pub open spec fn decimal(n: int) -> Seq<char> {
    if n < 0 {
        "-"@ + natural(-n)
    } else {
        natural(n)
    }
}

/// The text of an error. Each kind but `Platform` has fixed words; a
/// `Platform` error shows its code and, where it has one, its message.
pub open spec fn text_of(e: ErrorView) -> Seq<char> {
    match e {
        ErrorOf::NotFound => "no such entry"@,
        ErrorOf::AccessDenied => "access denied"@,
        ErrorOf::Unsupported => "no secret store available"@,
        ErrorOf::Ambiguous => "more than one entry matches"@,
        ErrorOf::Invalid => "invalid service, account or secret"@,
        ErrorOf::Platform { code, message } => if message.len() == 0 {
            "platform error "@ + decimal(code as int)
        } else {
            "platform error "@ + decimal(code as int) + ": "@ + message
        },
    }
}

/// The error without its message; every other kind is left as it is.
pub open spec fn without_message(e: ErrorView) -> ErrorView {
    match e {
        ErrorOf::Platform { code, message } => ErrorOf::Platform { code, message: Seq::empty() },
        _ => e,
    }
}

fn digit_text(d: u64) -> (r: &'static str)
    requires
        d < 10,
    ensures
        r@ == digit(d as int),
{
    if d == 0 {
        "0"
    } else if d == 1 {
        "1"
    } else if d == 2 {
        "2"
    } else if d == 3 {
        "3"
    } else if d == 4 {
        "4"
    } else if d == 5 {
        "5"
    } else if d == 6 {
        "6"
    } else if d == 7 {
        "7"
    } else if d == 8 {
        "8"
    } else {
        "9"
    }
}

fn natural_text(n: u64) -> (r: String)
    ensures
        r@ == natural(n as int),
    decreases n,
{
    if n < 10 {
        String::from_str(digit_text(n))
    } else {
        natural_text(n / 10).concat(digit_text(n % 10))
    }
}

/// Writes a number in decimal.
pub fn decimal_text(n: i64) -> (r: String)
    ensures
        r@ == decimal(n as int),
{
    if n < 0 {
        let magnitude: u64 = if n == i64::MIN {
            9223372036854775808u64
        } else {
            (-n) as u64
        };
        String::from_str("-").concat(natural_text(magnitude).as_str())
    } else {
        natural_text(n as u64)
    }
}

impl ErrorOf<String> {
    /// The text of this error, for a message to an operator.
    pub fn text(&self) -> (r: String)
        ensures
            r@ == text_of(self@),
    {
        match self {
            ErrorOf::NotFound => String::from_str("no such entry"),
            ErrorOf::AccessDenied => String::from_str("access denied"),
            ErrorOf::Unsupported => String::from_str("no secret store available"),
            ErrorOf::Ambiguous => String::from_str("more than one entry matches"),
            ErrorOf::Invalid => String::from_str("invalid service, account or secret"),
            ErrorOf::Platform { code, message } => {
                let head = String::from_str("platform error ").concat(decimal_text(*code).as_str());
                if message.as_str().is_empty() {
                    head
                } else {
                    head.concat(": ").concat(message.as_str())
                }
            },
        }
    }

    /// The native code of a `Platform` error.
    pub fn code(&self) -> (r: Option<i64>)
        ensures
            r == match self@ {
                ErrorOf::Platform { code, .. } => Some(code),
                _ => None,
            },
    {
        match self {
            ErrorOf::Platform { code, .. } => Some(*code),
            _ => None,
        }
    }
}

} // verus!
