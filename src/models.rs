//! Records exchanged with the service, and the library's error type.
use crate::json::Doc;
use vstd::prelude::*;
use vstd::string::StringExecFns;

verus! {

/// The decimal digits of `n`.
pub open spec fn digits(n: nat) -> Seq<char>
    decreases n,
{
    if n < 10 {
        seq!["0123456789"@[n as int]]
    } else {
        digits(n / 10).push("0123456789"@[(n % 10) as int])
    }
}

/// `n` written in decimal, with a leading minus sign when negative.
pub open spec fn decimal(n: int) -> Seq<char> {
    if n < 0 {
        seq!['-'] + digits((-n) as nat)
    } else {
        digits(n as nat)
    }
}

/// The decimal digit `d` as a one-character string.
fn digit(d: u64) -> (r: &'static str)
    requires
        d < 10,
    ensures
        r@ == seq!["0123456789"@[d as int]],
{
    proof {
        reveal_strlit("0123456789");
    }
    if d == 0 {
        proof {
            reveal_strlit("0");
        }
        "0"
    } else if d == 1 {
        proof {
            reveal_strlit("1");
        }
        "1"
    } else if d == 2 {
        proof {
            reveal_strlit("2");
        }
        "2"
    } else if d == 3 {
        proof {
            reveal_strlit("3");
        }
        "3"
    } else if d == 4 {
        proof {
            reveal_strlit("4");
        }
        "4"
    } else if d == 5 {
        proof {
            reveal_strlit("5");
        }
        "5"
    } else if d == 6 {
        proof {
            reveal_strlit("6");
        }
        "6"
    } else if d == 7 {
        proof {
            reveal_strlit("7");
        }
        "7"
    } else if d == 8 {
        proof {
            reveal_strlit("8");
        }
        "8"
    } else {
        proof {
            reveal_strlit("9");
        }
        "9"
    }
}

/// The decimal digits of `n`.
fn digits_string(n: u64) -> (r: String)
    ensures
        r@ == digits(n as nat),
    decreases n,
{
    if n < 10 {
        String::from_str(digit(n))
    } else {
        let mut s = digits_string(n / 10);
        s.append(digit(n % 10));
        s
    }
}

/// `n` written in decimal.
pub(crate) fn decimal_string(n: i64) -> (r: String)
    ensures
        r@ == decimal(n as int),
{
    if n < 0 {
        let m: u64 = if n == i64::MIN {
            9_223_372_036_854_775_808u64
        } else {
            (-n) as u64
        };
        let mut s = String::from_str("-");
        proof {
            reveal_strlit("-");
        }
        s.append(digits_string(m).as_str());
        s
    } else {
        digits_string(n as u64)
    }
}

/// Generic response envelope of the REST API.
pub struct ApiResponse<T> {
    /// 0 on success, otherwise an error code.
    pub code: i32,
    pub message: String,
    pub data: Option<T>,
}

/// Paging information of a list response.
#[derive(Clone, Copy, Debug, PartialEq, Eq, Structural)]
pub struct Meta {
    pub page: i32,
    pub page_total: i32,
    pub page_size: i32,
    pub total: i32,
}

/// A page of a list response.
pub struct PagedResponse<T> {
    pub items: Vec<T>,
    pub meta: Meta,
    pub sort: Option<serde_json::Value>,
}

/// A user account.
pub struct User {
    pub id: String,
    pub username: String,
    pub identify_num: String,
    pub online: bool,
    pub bot: bool,
    pub status: i32,
    pub avatar: String,
    pub vip_avatar: Option<String>,
    pub nickname: String,
    pub roles: Vec<i32>,
    pub is_vip: bool,
    pub vip_amp: bool,
    pub tag_info: Option<serde_json::Value>,
}

/// A guild (server).
#[derive(Clone, Debug)]
pub struct Guild {
    pub id: String,
    pub name: String,
    pub topic: String,
    pub user_id: String,
    pub icon: String,
    pub notify_type: i32,
    pub region: String,
    pub enable_open: bool,
    pub open_id: String,
    pub default_channel_id: String,
    pub welcome_channel_id: String,
}

/// A channel of a guild; `kind` is the wire field `type`.
pub struct Channel {
    pub id: String,
    pub name: String,
    pub user_id: String,
    pub guild_id: String,
    pub topic: String,
    pub is_category: bool,
    pub parent_id: String,
    pub level: i32,
    pub slow_mode: i32,
    pub kind: i32,
    pub permission_overwrites: Vec<serde_json::Value>,
    pub permission_users: Vec<serde_json::Value>,
    pub permission_sync: i32,
    pub has_password: bool,
}

/// Where to open the event stream.
#[derive(Clone, Debug)]
pub struct Gateway {
    pub url: String,
}

/// One decoded frame of the event stream: its kind code `s`, its payload
/// `d`, and for events its sequence number `sn`.
pub struct Signal {
    pub s: i32,
    pub d: Doc,
    pub sn: Option<i64>,
}

/// Payload of the handshake signal.
#[derive(Clone, Debug)]
pub struct HelloData {
    /// 0 when the handshake succeeded.
    pub code: i32,
    pub session_id: Option<String>,
}

/// Payload of an event; `kind` is the wire field `type`.
pub struct EventData {
    pub channel_type: String,
    pub kind: i32,
    pub target_id: String,
    pub author_id: String,
    pub content: String,
    pub msg_id: String,
    pub msg_timestamp: i64,
    pub nonce: String,
    pub extra: serde_json::Value,
}

/// Errors of the library.
#[derive(Clone, Debug)]
pub enum KookError {
    /// An error code returned by the API, with its message.
    Generic(i32, String),
    /// Connection-level failure.
    Network(String),
    /// A payload that could not be decoded.
    Json(String),
    /// Failure of the event stream or of its protocol.
    WebSocket(String),
    /// Rejected credentials; never retried.
    Auth(String),
    /// Invalid parameters.
    Params(String),
}

/// The message of an authentication failure reported with `code`.
pub open spec fn auth_message(code: i32, message: Seq<char>) -> Seq<char> {
    "Authentication failed ("@ + decimal(code as int) + "): "@ + message
}

/// Codes from 40100 to 40199 mean rejected credentials.
pub open spec fn is_auth_code(code: i32) -> bool {
    40100 <= code <= 40199
}

/// The text shown for an error.
pub open spec fn describe_spec(e: KookError) -> Seq<char> {
    match e {
        KookError::Generic(code, m) => "KOOK API Error "@ + decimal(code as int) + ": "@ + m@,
        KookError::Network(m) => "Network Error: "@ + m@,
        KookError::Json(m) => "JSON Error: "@ + m@,
        KookError::WebSocket(m) => "WebSocket Error: "@ + m@,
        KookError::Auth(m) => "Auth Error: "@ + m@,
        KookError::Params(m) => "Params Error: "@ + m@,
    }
}

/// `a` followed by `b`.
fn join(a: &str, b: &str) -> (r: String)
    ensures
        r@ == a@ + b@,
{
    let mut s = String::from_str(a);
    s.append(b);
    s
}

impl KookError {
    /// The error for an API error code: authentication codes become `Auth`,
    /// any other code `Generic`.
    pub fn from_code(code: i32, message: String) -> (r: Self)
        ensures
            is_auth_code(code) ==> (r matches KookError::Auth(m) && m@ == auth_message(code, message@)),
            !is_auth_code(code) ==> (r matches KookError::Generic(c, m) && c == code && m@ == message@),
    {
        if 40100 <= code && code <= 40199 {
            let mut s = join("Authentication failed (", decimal_string(code as i64).as_str());
            s.append("): ");
            s.append(message.as_str());
            KookError::Auth(s)
        } else {
            KookError::Generic(code, message)
        }
    }

    /// The text shown for this error.
    pub fn describe(&self) -> (r: String)
        ensures
            r@ == describe_spec(*self),
    {
        match self {
            KookError::Generic(code, m) => {
                let mut s = join("KOOK API Error ", decimal_string(*code as i64).as_str());
                s.append(": ");
                s.append(m.as_str());
                s
            },
            KookError::Network(m) => join("Network Error: ", m.as_str()),
            KookError::Json(m) => join("JSON Error: ", m.as_str()),
            KookError::WebSocket(m) => join("WebSocket Error: ", m.as_str()),
            KookError::Auth(m) => join("Auth Error: ", m.as_str()),
            KookError::Params(m) => join("Params Error: ", m.as_str()),
        }
    }

    /// Whether this error ends the session at once instead of being retried.
    pub fn is_terminal(&self) -> (r: bool)
        ensures
            r == (*self is Auth),
    {
        match self {
            KookError::Auth(_) => true,
            _ => false,
        }
    }
}

} // verus!
