use vstd::prelude::*;

verus! {

/// The closed set of failures this library reports.
///
/// Every failure of the backing store, of client construction, of the token
/// file read, or of the raw metadata call is translated into exactly one of
/// these variants before it reaches a caller.
#[derive(Debug, Clone, PartialEq, Eq)]
pub enum VaultierError {
    /// The backing store client reported a failure.
    VaultClient { message: String },
    /// The client settings could not be built, for instance because the
    /// address is not a well-formed URL of an accepted scheme.
    VaultClientSettings { message: String },
    /// The token file could not be read.
    IO { message: String },
    /// The backing store answered a read with HTTP 404; the payload is the
    /// full data path that was not found.
    PathNotFound { path: String },
    /// The metadata endpoint answered with a non-success status.
    Api { status: u16, message: String },
    /// The raw HTTP request could not be sent or its body not received.
    Reqwest { message: String },
    /// A response body could not be decoded as JSON.
    Json { message: String },
}

/// A failure of the backing store client, reduced to the plain values the
/// translation below reads: an API failure carries the HTTP status code it
/// came with, every other failure only its rendered message.
#[derive(Debug, Clone, PartialEq, Eq)]
pub enum ClientFault {
    Api { code: u16, message: String },
    Other { message: String },
}

/// The character for one decimal digit.
pub open spec fn digit_char(d: nat) -> char {
    if d == 0 {
        '0'
    } else if d == 1 {
        '1'
    } else if d == 2 {
        '2'
    } else if d == 3 {
        '3'
    } else if d == 4 {
        '4'
    } else if d == 5 {
        '5'
    } else if d == 6 {
        '6'
    } else if d == 7 {
        '7'
    } else if d == 8 {
        '8'
    } else {
        '9'
    }
}

/// The decimal numeral of `n`, most significant digit first, without
/// leading zeros except for zero itself.
pub open spec fn decimal_spec(n: nat) -> Seq<char>
    decreases n,
{
    if n < 10 {
        seq![digit_char(n)]
    } else {
        decimal_spec(n / 10) + seq![digit_char(n % 10)]
    }
}

/// The string of one decimal digit.
fn digit_str(d: u16) -> (r: &'static str)
    requires
        d < 10,
    ensures
        r@ == seq![digit_char(d as nat)],
{
    let r: &'static str = if d == 0 {
        "0"
    } else if d == 1 {
        "1"
    } else if d == 2 {
        "2"
    } else if d == 3 {
        "3"
    } else if d == 4 {
        "4"
    } else if d == 5 {
        "5"
    } else if d == 6 {
        "6"
    } else if d == 7 {
        "7"
    } else if d == 8 {
        "8"
    } else {
        "9"
    };
    proof {
        reveal_strlit("0");
        reveal_strlit("1");
        reveal_strlit("2");
        reveal_strlit("3");
        reveal_strlit("4");
        reveal_strlit("5");
        reveal_strlit("6");
        reveal_strlit("7");
        reveal_strlit("8");
        reveal_strlit("9");
        assert(r@ =~= seq![digit_char(d as nat)]);
    }
    r
}

/// Renders `n` as its decimal numeral.
pub fn render_u16(n: u16) -> (r: String)
    ensures
        r@ == decimal_spec(n as nat),
    decreases n,
{
    if n < 10 {
        digit_str(n).to_owned()
    } else {
        let mut r = render_u16(n / 10);
        r.append(digit_str(n % 10));
        r
    }
}

/// The one-line rendering of each error: its kind, then its payload; the
/// API error also names the status it came with.
pub open spec fn message_spec(e: VaultierError) -> Seq<char> {
    match e {
        VaultierError::VaultClient { message } => "Vault client error: "@ + message@,
        VaultierError::VaultClientSettings { message } => "Vault client settings error: "@
            + message@,
        VaultierError::IO { message } => "IO error: "@ + message@,
        VaultierError::PathNotFound { path } => "Path not found: "@ + path@,
        VaultierError::Api { status, message } => "Unexpected response from the Vault API: "@
            + decimal_spec(status as nat) + ". Message: "@ + message@ + "."@,
        VaultierError::Reqwest { message } => "Failed to send request: "@ + message@,
        VaultierError::Json { message } => "Json related error: "@ + message@,
    }
}

impl VaultierError {
    /// Renders the error as one line naming its kind and its payload.
    pub fn message(&self) -> (r: String)
        ensures
            r@ == message_spec(*self),
    {
        match self {
            VaultierError::VaultClient { message } => {
                let mut r = "Vault client error: ".to_owned();
                r.append(message.as_str());
                r
            },
            VaultierError::VaultClientSettings { message } => {
                let mut r = "Vault client settings error: ".to_owned();
                r.append(message.as_str());
                r
            },
            VaultierError::IO { message } => {
                let mut r = "IO error: ".to_owned();
                r.append(message.as_str());
                r
            },
            VaultierError::PathNotFound { path } => {
                let mut r = "Path not found: ".to_owned();
                r.append(path.as_str());
                r
            },
            VaultierError::Api { status, message } => {
                let mut r = "Unexpected response from the Vault API: ".to_owned();
                r.append(render_u16(*status).as_str());
                r.append(". Message: ");
                r.append(message.as_str());
                r.append(".");
                r
            },
            VaultierError::Reqwest { message } => {
                let mut r = "Failed to send request: ".to_owned();
                r.append(message.as_str());
                r
            },
            VaultierError::Json { message } => {
                let mut r = "Json related error: ".to_owned();
                r.append(message.as_str());
                r
            },
        }
    }
}

} // verus!
