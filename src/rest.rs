//! What the library computes for the directory service's REST API: URLs,
//! query parameters, and the reading of a response envelope. The requests
//! themselves are sent by the embedding application.
use crate::models::{decimal, decimal_string, is_auth_code, auth_message, KookError};
use vstd::prelude::*;
use vstd::string::{StrSliceExecFns, StringExecFns};

verus! {

/// Base URL of the REST API.
pub const API_BASE: &'static str = "https://www.kookapp.cn/api";

/// Paging parameters of a list request.
#[derive(Clone, Debug, Default)]
pub struct PageParams {
    pub page: Option<i32>,
    pub page_size: Option<i32>,
    pub sort: Option<String>,
}

/// Whether `s` starts with a slash.
fn starts_with_slash(s: &str) -> (r: bool)
    ensures
        r == (s@.len() > 0 && s@[0] == '/'),
{
    s.unicode_len() > 0 && s.get_char(0) == '/'
}

/// The URL of an API path: joined to the base with exactly the one slash
/// that the path may already start with.
pub open spec fn api_url_spec(base: Seq<char>, path: Seq<char>) -> Seq<char> {
    if path.len() > 0 && path[0] == '/' {
        base + path
    } else {
        base + "/"@ + path
    }
}

/// The URL of an API path under `base`.
pub fn api_url(base: &str, path: &str) -> (r: String)
    ensures
        r@ == api_url_spec(base@, path@),
{
    let mut url = String::from_str(base);
    if !starts_with_slash(path) {
        url.append("/");
    }
    url.append(path);
    url
}

/// The value of the `Authorization` header for a bot token.
pub fn auth_header(token: &str) -> (r: String)
    ensures
        r@ == "Bot "@ + token@,
{
    let mut h = String::from_str("Bot ");
    h.append(token);
    h
}

/// The `compress` query value of a gateway request.
pub fn compress_param(compress: bool) -> (r: &'static str)
    ensures
        r@ == (if compress {
            "1"@
        } else {
            "0"@
        }),
{
    if compress {
        "1"
    } else {
        "0"
    }
}

/// The URL of the event stream: the gateway URL with the token, and the
/// compression flag when compression is on.
pub open spec fn stream_url_spec(gateway: Seq<char>, token: Seq<char>, compress: bool) -> Seq<char> {
    gateway + "?token="@ + token + if compress {
        "&compress=1"@
    } else {
        Seq::empty()
    }
}

/// The URL of the event stream.
pub fn stream_url(gateway: &str, token: &str, compress: bool) -> (r: String)
    ensures
        r@ == stream_url_spec(gateway@, token@, compress),
{
    let mut url = String::from_str(gateway);
    url.append("?token=");
    url.append(token);
    if compress {
        url.append("&compress=1");
    } else {
        assert(url@ + Seq::<char>::empty() =~= url@);
    }
    url
}

/// A query parameter's name and value.
pub open spec fn pair_view(p: (String, String)) -> (Seq<char>, Seq<char>) {
    (p.0@, p.1@)
}

/// The query of a list request: `page`, `page_size` and `sort` where set,
/// in that order, then the extra parameters.
pub open spec fn page_query_spec(params: PageParams, extra: Seq<(Seq<char>, Seq<char>)>) -> Seq<(Seq<char>, Seq<char>)> {
    (match params.page {
        Some(p) => seq![("page"@, decimal(p as int))],
        None => Seq::empty(),
    }) + (match params.page_size {
        Some(p) => seq![("page_size"@, decimal(p as int))],
        None => Seq::empty(),
    }) + (match params.sort {
        Some(s) => seq![("sort"@, s@)],
        None => Seq::empty(),
    }) + extra
}

/// Builds the query of a list request.
pub fn page_query(params: &PageParams, extra: &Vec<(String, String)>) -> (r: Vec<(String, String)>)
    ensures
        r@.map_values(|p: (String, String)| pair_view(p)) == page_query_spec(
            *params,
            extra@.map_values(|p: (String, String)| pair_view(p)),
        ),
{
    let mut q: Vec<(String, String)> = Vec::new();
    if let Some(p) = params.page {
        q.push((String::from_str("page"), decimal_string(p as i64)));
    }
    if let Some(p) = params.page_size {
        q.push((String::from_str("page_size"), decimal_string(p as i64)));
    }
    if let Some(s) = &params.sort {
        q.push((String::from_str("sort"), s.clone()));
    }
    let ghost head = q@.map_values(|p: (String, String)| pair_view(p));
    let mut i: usize = 0;
    while i < extra.len()
        invariant
            i <= extra@.len(),
            q@.map_values(|p: (String, String)| pair_view(p)) == head + extra@.subrange(0, i as int).map_values(
                |p: (String, String)| pair_view(p),
            ),
        decreases extra@.len() - i,
    {
        let ghost before = q@;
        let (k, v) = &extra[i];
        q.push((k.clone(), v.clone()));
        proof {
            assert(q@ == before.push(extra@[i as int]));
            assert(q@.map_values(|p: (String, String)| pair_view(p)) =~= before.map_values(
                |p: (String, String)| pair_view(p),
            ).push(pair_view(extra@[i as int])));
            assert(extra@.subrange(0, i + 1).map_values(|p: (String, String)| pair_view(p)) =~= extra@.subrange(
                0,
                i as int,
            ).map_values(|p: (String, String)| pair_view(p)).push(pair_view(extra@[i as int])));
            assert(extra@.subrange(0, i + 1) =~= extra@.subrange(0, i as int).push(extra@[i as int]));
        }
        i = i + 1;
        assert(q@.map_values(|p: (String, String)| pair_view(p)) =~= head + extra@.subrange(0, i as int).map_values(
            |p: (String, String)| pair_view(p),
        ));
    }
    assert(extra@.subrange(0, extra@.len() as int) =~= extra@);
    proof {
        let ms = params.page;
        let ps = params.page_size;
        let ss = params.sort;
        assert(head =~= (match ms {
            Some(p) => seq![("page"@, decimal(p as int))],
            None => Seq::<(Seq<char>, Seq<char>)>::empty(),
        }) + (match ps {
            Some(p) => seq![("page_size"@, decimal(p as int))],
            None => Seq::<(Seq<char>, Seq<char>)>::empty(),
        }) + (match ss {
            Some(s) => seq![("sort"@, s@)],
            None => Seq::<(Seq<char>, Seq<char>)>::empty(),
        }));
    }
    q
}

/// The error for an HTTP status that is not a success, if any: its status
/// line and the response body. Success is a status from 200 to 299.
pub fn http_status_error(status: u16, status_line: &str, body: &str) -> (r: Option<KookError>)
    ensures
        (200 <= status <= 299) <==> r is None,
        r matches Some(e) ==> (e matches KookError::Network(m) && m@ == "HTTP "@ + status_line@ + ": "@ + body@),
{
    if 200 <= status && status <= 299 {
        None
    } else {
        let mut m = String::from_str("HTTP ");
        m.append(status_line);
        m.append(": ");
        m.append(body);
        Some(KookError::Network(m))
    }
}

/// The data of a response envelope: an error code other than 0 becomes the
/// error for that code; a success without data is a decoding error.
pub fn api_result<T>(code: i32, message: String, data: Option<T>) -> (r: Result<T, KookError>)
    ensures
        code == 0 && data is Some <==> r is Ok,
        r matches Ok(x) ==> data == Some(x),
        code != 0 && is_auth_code(code) ==> (r matches Err(KookError::Auth(m)) && m@ == auth_message(code, message@)),
        code != 0 && !is_auth_code(code) ==> (r matches Err(KookError::Generic(c, m)) && c == code && m@ == message@),
        code == 0 && data is None ==> (r matches Err(KookError::Json(m)) && m@ == "Response data is null"@),
{
    if code != 0 {
        return Err(KookError::from_code(code, message));
    }
    match data {
        Some(x) => Ok(x),
        None => Err(KookError::Json(String::from_str("Response data is null"))),
    }
}

} // verus!
