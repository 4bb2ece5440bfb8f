use vstd::prelude::*;

verus! {

/// An HTTP status code: a 16-bit value with an associated canonical reason
/// phrase and a classification by the hundreds digit. Every `u16` is
/// accepted; values without a registered reason phrase fall back to a
/// generic phrase derived from their class.
#[derive(Clone, Copy, PartialEq, Eq, Structural, Debug, Hash)]
pub struct StatusCode {
    pub code: u16,
}

/// The classification of a status value by its hundreds digit.
#[derive(Clone, Copy, PartialEq, Eq, Structural, Debug, Hash)]
pub enum StatusClass {
    Informational,
    Success,
    Redirection,
    ClientError,
    ServerError,
    Unclassified,
}

/// The class of a status value: 1xx informational, 2xx success,
/// 3xx redirection, 4xx client error, 5xx server error, anything
/// else unclassified.
pub open spec fn class_of(code: u16) -> StatusClass {
    if 100 <= code && code <= 199 {
        StatusClass::Informational
    } else if 200 <= code && code <= 299 {
        StatusClass::Success
    } else if 300 <= code && code <= 399 {
        StatusClass::Redirection
    } else if 400 <= code && code <= 499 {
        StatusClass::ClientError
    } else if 500 <= code && code <= 599 {
        StatusClass::ServerError
    } else {
        StatusClass::Unclassified
    }
}

/// The registered reason phrase of a status value, if it has one.
pub open spec fn registered_reason(code: u16) -> Option<Seq<char>> {
    if code == 100 {
        Some("Continue"@)
    } else if code == 101 {
        Some("Switching Protocols"@)
    } else if code == 102 {
        Some("Processing"@)
    } else if code == 103 {
        Some("Early Hints"@)
    } else if code == 200 {
        Some("OK"@)
    } else if code == 201 {
        Some("Created"@)
    } else if code == 202 {
        Some("Accepted"@)
    } else if code == 203 {
        Some("Non Authoritative Information"@)
    } else if code == 204 {
        Some("No Content"@)
    } else if code == 205 {
        Some("Reset Content"@)
    } else if code == 206 {
        Some("Partial Content"@)
    } else if code == 207 {
        Some("Multi-Status"@)
    } else if code == 208 {
        Some("Already Reported"@)
    } else if code == 226 {
        Some("IM Used"@)
    } else if code == 300 {
        Some("Multiple Choices"@)
    } else if code == 301 {
        Some("Moved Permanently"@)
    } else if code == 302 {
        Some("Found"@)
    } else if code == 303 {
        Some("See Other"@)
    } else if code == 304 {
        Some("Not Modified"@)
    } else if code == 305 {
        Some("Use Proxy"@)
    } else if code == 307 {
        Some("Temporary Redirect"@)
    } else if code == 308 {
        Some("Permanent Redirect"@)
    } else if code == 400 {
        Some("Bad Request"@)
    } else if code == 401 {
        Some("Unauthorized"@)
    } else if code == 402 {
        Some("Payment Required"@)
    } else if code == 403 {
        Some("Forbidden"@)
    } else if code == 404 {
        Some("Not Found"@)
    } else if code == 405 {
        Some("Method Not Allowed"@)
    } else if code == 406 {
        Some("Not Acceptable"@)
    } else if code == 407 {
        Some("Proxy Authentication Required"@)
    } else if code == 408 {
        Some("Request Timeout"@)
    } else if code == 409 {
        Some("Conflict"@)
    } else if code == 410 {
        Some("Gone"@)
    } else if code == 411 {
        Some("Length Required"@)
    } else if code == 412 {
        Some("Precondition Failed"@)
    } else if code == 413 {
        Some("Payload Too Large"@)
    } else if code == 414 {
        Some("URI Too Long"@)
    } else if code == 415 {
        Some("Unsupported Media Type"@)
    } else if code == 416 {
        Some("Range Not Satisfiable"@)
    } else if code == 417 {
        Some("Expectation Failed"@)
    } else if code == 418 {
        Some("I'm a teapot"@)
    } else if code == 421 {
        Some("Misdirected Request"@)
    } else if code == 422 {
        Some("Unprocessable Entity"@)
    } else if code == 423 {
        Some("Locked"@)
    } else if code == 424 {
        Some("Failed Dependency"@)
    } else if code == 425 {
        Some("Too Early"@)
    } else if code == 426 {
        Some("Upgrade Required"@)
    } else if code == 428 {
        Some("Precondition Required"@)
    } else if code == 429 {
        Some("Too Many Requests"@)
    } else if code == 431 {
        Some("Request Header Fields Too Large"@)
    } else if code == 451 {
        Some("Unavailable For Legal Reasons"@)
    } else if code == 500 {
        Some("Internal Server Error"@)
    } else if code == 501 {
        Some("Not Implemented"@)
    } else if code == 502 {
        Some("Bad Gateway"@)
    } else if code == 503 {
        Some("Service Unavailable"@)
    } else if code == 504 {
        Some("Gateway Timeout"@)
    } else if code == 505 {
        Some("HTTP Version Not Supported"@)
    } else if code == 506 {
        Some("Variant Also Negotiates"@)
    } else if code == 507 {
        Some("Insufficient Storage"@)
    } else if code == 508 {
        Some("Loop Detected"@)
    } else if code == 510 {
        Some("Not Extended"@)
    } else if code == 511 {
        Some("Network Authentication Required"@)
    } else {
        None
    }
}

/// Whether a status value has a registered reason phrase.
pub open spec fn is_registered(code: u16) -> bool {
    registered_reason(code) is Some
}

/// The generic phrase used for a status value without a registered reason.
pub open spec fn fallback_reason(code: u16) -> Seq<char> {
    match class_of(code) {
        StatusClass::Informational => "Unregistered Informational"@,
        StatusClass::Success => "Unregistered Success"@,
        StatusClass::Redirection => "Unregistered Redirection"@,
        StatusClass::ClientError => "Unregistered Client Error"@,
        StatusClass::ServerError => "Unregistered Server Error"@,
        StatusClass::Unclassified => "Unregistered Status Code"@,
    }
}

/// The reason phrase of any status value: the registered phrase where one
/// exists, the class-based generic phrase otherwise. Total over `u16`.
pub open spec fn reason_phrase_of(code: u16) -> Seq<char> {
    match registered_reason(code) {
        Some(phrase) => phrase,
        None => fallback_reason(code),
    }
}

impl StatusCode {
    /// Builds a status from its numeric value; every value is accepted.
    pub fn from_u16(code: u16) -> (r: StatusCode)
        ensures
            r.code == code,
    {
        StatusCode { code }
    }

    /// The numeric value of the status.
    pub fn as_u16(&self) -> (r: u16)
        ensures
            r == self.code,
    {
        self.code
    }

    /// The class of the status, decided by the hundreds digit.
    pub fn class(&self) -> (r: StatusClass)
        ensures
            r == class_of(self.code),
    {
        let c = self.code;
        if 100 <= c && c <= 199 {
            StatusClass::Informational
        } else if 200 <= c && c <= 299 {
            StatusClass::Success
        } else if 300 <= c && c <= 399 {
            StatusClass::Redirection
        } else if 400 <= c && c <= 499 {
            StatusClass::ClientError
        } else if 500 <= c && c <= 599 {
            StatusClass::ServerError
        } else {
            StatusClass::Unclassified
        }
    }

    /// The canonical reason phrase of the status; total, with a generic
    /// class-based phrase for unregistered values.
    #[verifier::rlimit(30)]
    pub fn reason_phrase(&self) -> (r: &'static str)
        ensures
            r@ == reason_phrase_of(self.code),
    {
        match self.code {
        100 => "Continue",
        101 => "Switching Protocols",
        102 => "Processing",
        103 => "Early Hints",
        200 => "OK",
        201 => "Created",
        202 => "Accepted",
        203 => "Non Authoritative Information",
        204 => "No Content",
        205 => "Reset Content",
        206 => "Partial Content",
        207 => "Multi-Status",
        208 => "Already Reported",
        226 => "IM Used",
        300 => "Multiple Choices",
        301 => "Moved Permanently",
        302 => "Found",
        303 => "See Other",
        304 => "Not Modified",
        305 => "Use Proxy",
        307 => "Temporary Redirect",
        308 => "Permanent Redirect",
        400 => "Bad Request",
        401 => "Unauthorized",
        402 => "Payment Required",
        403 => "Forbidden",
        404 => "Not Found",
        405 => "Method Not Allowed",
        406 => "Not Acceptable",
        407 => "Proxy Authentication Required",
        408 => "Request Timeout",
        409 => "Conflict",
        410 => "Gone",
        411 => "Length Required",
        412 => "Precondition Failed",
        413 => "Payload Too Large",
        414 => "URI Too Long",
        415 => "Unsupported Media Type",
        416 => "Range Not Satisfiable",
        417 => "Expectation Failed",
        418 => "I'm a teapot",
        421 => "Misdirected Request",
        422 => "Unprocessable Entity",
        423 => "Locked",
        424 => "Failed Dependency",
        425 => "Too Early",
        426 => "Upgrade Required",
        428 => "Precondition Required",
        429 => "Too Many Requests",
        431 => "Request Header Fields Too Large",
        451 => "Unavailable For Legal Reasons",
        500 => "Internal Server Error",
        501 => "Not Implemented",
        502 => "Bad Gateway",
        503 => "Service Unavailable",
        504 => "Gateway Timeout",
        505 => "HTTP Version Not Supported",
        506 => "Variant Also Negotiates",
        507 => "Insufficient Storage",
        508 => "Loop Detected",
        510 => "Not Extended",
        511 => "Network Authentication Required",
            other => {
                if 100 <= other && other <= 199 {
                    "Unregistered Informational"
                } else if 200 <= other && other <= 299 {
                    "Unregistered Success"
                } else if 300 <= other && other <= 399 {
                    "Unregistered Redirection"
                } else if 400 <= other && other <= 499 {
                    "Unregistered Client Error"
                } else if 500 <= other && other <= 599 {
                    "Unregistered Server Error"
                } else {
                    "Unregistered Status Code"
                }
            },
        }
    }
}

/// Every status value has a non-empty reason phrase.
#[verifier::rlimit(60)]
pub proof fn lemma_reason_phrase_nonempty(code: u16)
    ensures
        reason_phrase_of(code).len() > 0,
{
    reveal_strlit("Continue");
    reveal_strlit("Switching Protocols");
    reveal_strlit("Processing");
    reveal_strlit("Early Hints");
    reveal_strlit("OK");
    reveal_strlit("Created");
    reveal_strlit("Accepted");
    reveal_strlit("Non Authoritative Information");
    reveal_strlit("No Content");
    reveal_strlit("Reset Content");
    reveal_strlit("Partial Content");
    reveal_strlit("Multi-Status");
    reveal_strlit("Already Reported");
    reveal_strlit("IM Used");
    reveal_strlit("Multiple Choices");
    reveal_strlit("Moved Permanently");
    reveal_strlit("Found");
    reveal_strlit("See Other");
    reveal_strlit("Not Modified");
    reveal_strlit("Use Proxy");
    reveal_strlit("Temporary Redirect");
    reveal_strlit("Permanent Redirect");
    reveal_strlit("Bad Request");
    reveal_strlit("Unauthorized");
    reveal_strlit("Payment Required");
    reveal_strlit("Forbidden");
    reveal_strlit("Not Found");
    reveal_strlit("Method Not Allowed");
    reveal_strlit("Not Acceptable");
    reveal_strlit("Proxy Authentication Required");
    reveal_strlit("Request Timeout");
    reveal_strlit("Conflict");
    reveal_strlit("Gone");
    reveal_strlit("Length Required");
    reveal_strlit("Precondition Failed");
    reveal_strlit("Payload Too Large");
    reveal_strlit("URI Too Long");
    reveal_strlit("Unsupported Media Type");
    reveal_strlit("Range Not Satisfiable");
    reveal_strlit("Expectation Failed");
    reveal_strlit("I'm a teapot");
    reveal_strlit("Misdirected Request");
    reveal_strlit("Unprocessable Entity");
    reveal_strlit("Locked");
    reveal_strlit("Failed Dependency");
    reveal_strlit("Too Early");
    reveal_strlit("Upgrade Required");
    reveal_strlit("Precondition Required");
    reveal_strlit("Too Many Requests");
    reveal_strlit("Request Header Fields Too Large");
    reveal_strlit("Unavailable For Legal Reasons");
    reveal_strlit("Internal Server Error");
    reveal_strlit("Not Implemented");
    reveal_strlit("Bad Gateway");
    reveal_strlit("Service Unavailable");
    reveal_strlit("Gateway Timeout");
    reveal_strlit("HTTP Version Not Supported");
    reveal_strlit("Variant Also Negotiates");
    reveal_strlit("Insufficient Storage");
    reveal_strlit("Loop Detected");
    reveal_strlit("Not Extended");
    reveal_strlit("Network Authentication Required");
    reveal_strlit("Unregistered Informational");
    reveal_strlit("Unregistered Success");
    reveal_strlit("Unregistered Redirection");
    reveal_strlit("Unregistered Client Error");
    reveal_strlit("Unregistered Server Error");
    reveal_strlit("Unregistered Status Code");
}

/// The character of a single decimal digit.
pub open spec fn digit_char(d: int) -> char {
    if d == 0 {
        '0'
    } else if d == 1 {
        '1'
    } else if d == 2 {
        '2'
    } else if d == 3 {
        '3'
    } else if d == 4 {
        '4'
    } else if d == 5 {
        '5'
    } else if d == 6 {
        '6'
    } else if d == 7 {
        '7'
    } else if d == 8 {
        '8'
    } else {
        '9'
    }
}

/// The decimal digits of `n`, most significant first.
pub open spec fn dec_digits(n: int) -> Seq<char>
    decreases n,
{
    if n < 10 {
        seq![digit_char(n)]
    } else {
        dec_digits(n / 10) + seq![digit_char(n % 10)]
    }
}

/// A one-character string holding the decimal digit `d`.
fn digit_str(d: u16) -> (r: &'static str)
    requires
        d < 10,
    ensures
        r@ == seq![digit_char(d as int)],
{
    proof {
        reveal_strlit("0");
        reveal_strlit("1");
        reveal_strlit("2");
        reveal_strlit("3");
        reveal_strlit("4");
        reveal_strlit("5");
        reveal_strlit("6");
        reveal_strlit("7");
        reveal_strlit("8");
        reveal_strlit("9");
        assert("0"@ =~= seq!['0']);
        assert("1"@ =~= seq!['1']);
        assert("2"@ =~= seq!['2']);
        assert("3"@ =~= seq!['3']);
        assert("4"@ =~= seq!['4']);
        assert("5"@ =~= seq!['5']);
        assert("6"@ =~= seq!['6']);
        assert("7"@ =~= seq!['7']);
        assert("8"@ =~= seq!['8']);
        assert("9"@ =~= seq!['9']);
    }
    if d == 0 {
        "0"
    } else if d == 1 {
        "1"
    } else if d == 2 {
        "2"
    } else if d == 3 {
        "3"
    } else if d == 4 {
        "4"
    } else if d == 5 {
        "5"
    } else if d == 6 {
        "6"
    } else if d == 7 {
        "7"
    } else if d == 8 {
        "8"
    } else {
        "9"
    }
}

/// Appends the decimal rendering of `n` to `out`.
pub fn append_dec(out: &mut String, n: u16)
    ensures
        final(out)@ == old(out)@ + dec_digits(n as int),
    decreases n,
{
    if n >= 10 {
        append_dec(out, n / 10);
        let d = digit_str(n % 10);
        out.append(d);
        proof {
            assert(old(out)@ + dec_digits(n as int) =~= (old(out)@ + dec_digits((n / 10) as int))
                + seq![digit_char((n % 10) as int)]);
        }
    } else {
        let d = digit_str(n);
        out.append(d);
    }
}

/// The text a status renders to: decimal value, a space, reason phrase.
pub open spec fn status_text(code: u16) -> Seq<char> {
    dec_digits(code as int) + " "@ + reason_phrase_of(code)
}

impl StatusCode {
    /// Renders the status as its decimal value followed by its reason
    /// phrase, as in `404 Not Found`.
    pub fn display_text(&self) -> (r: String)
        ensures
            r@ == status_text(self.code),
    {
        let mut out = String::new();
        append_dec(&mut out, self.code);
        out.append(" ");
        out.append(self.reason_phrase());
        out
    }
}

/// An externally supplied status representation that cannot become a
/// `StatusCode`: its value does not fit in 16 bits.
#[derive(Clone, Copy, PartialEq, Eq, Structural, Debug)]
pub struct InvalidStatusCode {
    pub value: u64,
}

impl StatusCode {
    /// Converts an externally supplied numeric status; fails exactly when
    /// the value does not fit in 16 bits.
    pub fn try_from_u64(value: u64) -> (r: Result<StatusCode, InvalidStatusCode>)
        ensures
            value <= 0xFFFF ==> r == Ok::<StatusCode, InvalidStatusCode>(
                StatusCode { code: value as u16 },
            ),
            value > 0xFFFF ==> r == Err::<StatusCode, InvalidStatusCode>(
                InvalidStatusCode { value },
            ),
    {
        if value <= 0xFFFF {
            Ok(StatusCode { code: value as u16 })
        } else {
            Err(InvalidStatusCode { value })
        }
    }
}

/// Every registered status value lies in the meaningful range 100..=599 and
/// its reason phrase is exactly its registered phrase; its numeric value is
/// preserved by construction.
pub proof fn lemma_registered_reason_phrase(code: u16)
    requires
        is_registered(code),
    ensures
        100 <= code <= 599,
        reason_phrase_of(code) == registered_reason(code).unwrap(),
        (StatusCode { code }).code == code,
{
}

/// A status value without a registered phrase is still classified by its
/// hundreds digit and gets the generic phrase of its class.
pub proof fn lemma_unregistered_reason_phrase(code: u16)
    requires
        !is_registered(code),
    ensures
        reason_phrase_of(code) == fallback_reason(code),
        100 <= code <= 199 ==> reason_phrase_of(code) == "Unregistered Informational"@,
        200 <= code <= 299 ==> reason_phrase_of(code) == "Unregistered Success"@,
        300 <= code <= 399 ==> reason_phrase_of(code) == "Unregistered Redirection"@,
        400 <= code <= 499 ==> reason_phrase_of(code) == "Unregistered Client Error"@,
        500 <= code <= 599 ==> reason_phrase_of(code) == "Unregistered Server Error"@,
        code < 100 || code > 599 ==> reason_phrase_of(code) == "Unregistered Status Code"@,
{
}

} // verus!
