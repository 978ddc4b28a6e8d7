use vstd::prelude::*;

verus! {

/// The largest code of an [`HttpMethod`].
pub const MAX_HTTP_METHOD: u8 = 26;

/// An HTTP Request method.
#[derive(Clone, Copy, Debug, PartialEq, Eq, Structural)]
pub enum HttpMethod {
    Delete,
    Get,
    Head,
    Post,
    /* pathological */
    Put,
    Connect,
    Options,
    Trace,
    /* webdav */
    Copy,
    Lock,
    MkCol,
    Move,
    Propfind,
    PropPatch,
    Search,
    Unlock,
    /* subversion */
    Report,
    MkActivity,
    Checkout,
    Merge,
    /* upnp */
    MSearch,
    Notify,
    Subscribe,
    Unsubscribe,
    /* RFC-5789 */
    Patch,
    Purge,
    /* CalDAV */
    MkCalendar,
}

impl HttpMethod {
    /// The numeric code that the parser uses for this method.
    pub open spec fn spec_code(self) -> u8 {
        match self {
            HttpMethod::Delete => 0,
            HttpMethod::Get => 1,
            HttpMethod::Head => 2,
            HttpMethod::Post => 3,
            HttpMethod::Put => 4,
            HttpMethod::Connect => 5,
            HttpMethod::Options => 6,
            HttpMethod::Trace => 7,
            HttpMethod::Copy => 8,
            HttpMethod::Lock => 9,
            HttpMethod::MkCol => 10,
            HttpMethod::Move => 11,
            HttpMethod::Propfind => 12,
            HttpMethod::PropPatch => 13,
            HttpMethod::Search => 14,
            HttpMethod::Unlock => 15,
            HttpMethod::Report => 16,
            HttpMethod::MkActivity => 17,
            HttpMethod::Checkout => 18,
            HttpMethod::Merge => 19,
            HttpMethod::MSearch => 20,
            HttpMethod::Notify => 21,
            HttpMethod::Subscribe => 22,
            HttpMethod::Unsubscribe => 23,
            HttpMethod::Patch => 24,
            HttpMethod::Purge => 25,
            HttpMethod::MkCalendar => 26,
        }
    }

    /// The method with the given code, if there is one.
    pub open spec fn spec_from_code(code: u8) -> Option<HttpMethod> {
        match code {
            0 => Some(HttpMethod::Delete),
            1 => Some(HttpMethod::Get),
            2 => Some(HttpMethod::Head),
            3 => Some(HttpMethod::Post),
            4 => Some(HttpMethod::Put),
            5 => Some(HttpMethod::Connect),
            6 => Some(HttpMethod::Options),
            7 => Some(HttpMethod::Trace),
            8 => Some(HttpMethod::Copy),
            9 => Some(HttpMethod::Lock),
            10 => Some(HttpMethod::MkCol),
            11 => Some(HttpMethod::Move),
            12 => Some(HttpMethod::Propfind),
            13 => Some(HttpMethod::PropPatch),
            14 => Some(HttpMethod::Search),
            15 => Some(HttpMethod::Unlock),
            16 => Some(HttpMethod::Report),
            17 => Some(HttpMethod::MkActivity),
            18 => Some(HttpMethod::Checkout),
            19 => Some(HttpMethod::Merge),
            20 => Some(HttpMethod::MSearch),
            21 => Some(HttpMethod::Notify),
            22 => Some(HttpMethod::Subscribe),
            23 => Some(HttpMethod::Unsubscribe),
            24 => Some(HttpMethod::Patch),
            25 => Some(HttpMethod::Purge),
            26 => Some(HttpMethod::MkCalendar),
            _ => None,
        }
    }

    /// Returns the numeric code of this method (`0` for `DELETE`, `1` for `GET`, ...).
    pub fn code(&self) -> (c: u8)
        ensures
            c == self.spec_code(),
    {
        match self {
            HttpMethod::Delete => 0,
            HttpMethod::Get => 1,
            HttpMethod::Head => 2,
            HttpMethod::Post => 3,
            HttpMethod::Put => 4,
            HttpMethod::Connect => 5,
            HttpMethod::Options => 6,
            HttpMethod::Trace => 7,
            HttpMethod::Copy => 8,
            HttpMethod::Lock => 9,
            HttpMethod::MkCol => 10,
            HttpMethod::Move => 11,
            HttpMethod::Propfind => 12,
            HttpMethod::PropPatch => 13,
            HttpMethod::Search => 14,
            HttpMethod::Unlock => 15,
            HttpMethod::Report => 16,
            HttpMethod::MkActivity => 17,
            HttpMethod::Checkout => 18,
            HttpMethod::Merge => 19,
            HttpMethod::MSearch => 20,
            HttpMethod::Notify => 21,
            HttpMethod::Subscribe => 22,
            HttpMethod::Unsubscribe => 23,
            HttpMethod::Patch => 24,
            HttpMethod::Purge => 25,
            HttpMethod::MkCalendar => 26,
        }
    }

    /// Returns the method with the given numeric code, or `None` when the code is
    /// above [`MAX_HTTP_METHOD`].
    pub fn from_code(code: u8) -> (m: Option<HttpMethod>)
        ensures
            m == Self::spec_from_code(code),
    {
        match code {
            0 => Some(HttpMethod::Delete),
            1 => Some(HttpMethod::Get),
            2 => Some(HttpMethod::Head),
            3 => Some(HttpMethod::Post),
            4 => Some(HttpMethod::Put),
            5 => Some(HttpMethod::Connect),
            6 => Some(HttpMethod::Options),
            7 => Some(HttpMethod::Trace),
            8 => Some(HttpMethod::Copy),
            9 => Some(HttpMethod::Lock),
            10 => Some(HttpMethod::MkCol),
            11 => Some(HttpMethod::Move),
            12 => Some(HttpMethod::Propfind),
            13 => Some(HttpMethod::PropPatch),
            14 => Some(HttpMethod::Search),
            15 => Some(HttpMethod::Unlock),
            16 => Some(HttpMethod::Report),
            17 => Some(HttpMethod::MkActivity),
            18 => Some(HttpMethod::Checkout),
            19 => Some(HttpMethod::Merge),
            20 => Some(HttpMethod::MSearch),
            21 => Some(HttpMethod::Notify),
            22 => Some(HttpMethod::Subscribe),
            23 => Some(HttpMethod::Unsubscribe),
            24 => Some(HttpMethod::Patch),
            25 => Some(HttpMethod::Purge),
            26 => Some(HttpMethod::MkCalendar),
            _ => None,
        }
    }

    /// Returns the static string representation for this name (`GET`, `POST`, and so on).
    pub fn name(&self) -> (s: &'static str)
        ensures
            s@ == method_str_spec(self.spec_code()),
    {
        http_method_str(self.code())
    }
}

/// The text of the method with the given code; `<unknown>` for a code that
/// names no method.
pub open spec fn method_str_spec(code: u8) -> Seq<char> {
    match code {
        0 => "DELETE"@,
        1 => "GET"@,
        2 => "HEAD"@,
        3 => "POST"@,
        4 => "PUT"@,
        5 => "CONNECT"@,
        6 => "OPTIONS"@,
        7 => "TRACE"@,
        8 => "COPY"@,
        9 => "LOCK"@,
        10 => "MKCOL"@,
        11 => "MOVE"@,
        12 => "PROPFIND"@,
        13 => "PROPPATCH"@,
        14 => "SEARCH"@,
        15 => "UNLOCK"@,
        16 => "REPORT"@,
        17 => "MKACTIVITY"@,
        18 => "CHECKOUT"@,
        19 => "MERGE"@,
        20 => "M-SEARCH"@,
        21 => "NOTIFY"@,
        22 => "SUBSCRIBE"@,
        23 => "UNSUBSCRIBE"@,
        24 => "PATCH"@,
        25 => "PURGE"@,
        26 => "MKCALENDAR"@,
        _ => "<unknown>"@,
    }
}

/// Returns the text of the method with the given code (`"GET"` for `1`), or
/// `"<unknown>"` when no method has that code.
pub fn http_method_str(code: u8) -> (s: &'static str)
    ensures
        s@ == method_str_spec(code),
{
    match code {
        0 => "DELETE",
        1 => "GET",
        2 => "HEAD",
        3 => "POST",
        4 => "PUT",
        5 => "CONNECT",
        6 => "OPTIONS",
        7 => "TRACE",
        8 => "COPY",
        9 => "LOCK",
        10 => "MKCOL",
        11 => "MOVE",
        12 => "PROPFIND",
        13 => "PROPPATCH",
        14 => "SEARCH",
        15 => "UNLOCK",
        16 => "REPORT",
        17 => "MKACTIVITY",
        18 => "CHECKOUT",
        19 => "MERGE",
        20 => "M-SEARCH",
        21 => "NOTIFY",
        22 => "SUBSCRIBE",
        23 => "UNSUBSCRIBE",
        24 => "PATCH",
        25 => "PURGE",
        26 => "MKCALENDAR",
        _ => "<unknown>",
    }
}

/// Every method has a code no larger than [`MAX_HTTP_METHOD`], and that code
/// leads back to the method.
pub proof fn lemma_method_code_roundtrip(m: HttpMethod)
    ensures
        m.spec_code() <= MAX_HTTP_METHOD,
        HttpMethod::spec_from_code(m.spec_code()) == Some(m),
{
}

/// A code names a method exactly when it is no larger than [`MAX_HTTP_METHOD`],
/// and the method it names has that code.
pub proof fn lemma_method_code_complete(code: u8)
    ensures
        HttpMethod::spec_from_code(code) is Some <==> code <= MAX_HTTP_METHOD,
        HttpMethod::spec_from_code(code) matches Some(m) ==> m.spec_code() == code,
{
}

/// The text of a method is `<unknown>` exactly when its code names no method.
pub proof fn lemma_method_str_unknown(code: u8)
    ensures
        method_str_spec(code) == "<unknown>"@ <==> HttpMethod::spec_from_code(code) is None,
{
    reveal_strlit("<unknown>");
    if code <= MAX_HTTP_METHOD {
        assert(method_str_spec(code) != "<unknown>"@) by {
            reveal_strlit("DELETE");
            reveal_strlit("GET");
            reveal_strlit("HEAD");
            reveal_strlit("POST");
            reveal_strlit("PUT");
            reveal_strlit("CONNECT");
            reveal_strlit("OPTIONS");
            reveal_strlit("TRACE");
            reveal_strlit("COPY");
            reveal_strlit("LOCK");
            reveal_strlit("MKCOL");
            reveal_strlit("MOVE");
            reveal_strlit("PROPFIND");
            reveal_strlit("PROPPATCH");
            reveal_strlit("SEARCH");
            reveal_strlit("UNLOCK");
            reveal_strlit("REPORT");
            reveal_strlit("MKACTIVITY");
            reveal_strlit("CHECKOUT");
            reveal_strlit("MERGE");
            reveal_strlit("M-SEARCH");
            reveal_strlit("NOTIFY");
            reveal_strlit("SUBSCRIBE");
            reveal_strlit("UNSUBSCRIBE");
            reveal_strlit("PATCH");
            reveal_strlit("PURGE");
            reveal_strlit("MKCALENDAR");
            assert(method_str_spec(code)[0] != "<unknown>"@[0]);
        }
    }
}

/// Each method carries the number and the token that the parser's method map
/// gives it: `DELETE` is 0, `GET` 1, `HEAD` 2, `POST` 3, `PUT` 4, and so on up
/// to `MKCALENDAR`, 26.  The code of a method leads to the token that is the
/// method's own name.
pub proof fn lemma_method_table(m: HttpMethod)
    ensures
        m == HttpMethod::Delete ==> m.spec_code() == 0 && method_str_spec(m.spec_code()) == "DELETE"@,
        m == HttpMethod::Get ==> m.spec_code() == 1 && method_str_spec(m.spec_code()) == "GET"@,
        m == HttpMethod::Head ==> m.spec_code() == 2 && method_str_spec(m.spec_code()) == "HEAD"@,
        m == HttpMethod::Post ==> m.spec_code() == 3 && method_str_spec(m.spec_code()) == "POST"@,
        m == HttpMethod::Put ==> m.spec_code() == 4 && method_str_spec(m.spec_code()) == "PUT"@,
        m == HttpMethod::Connect ==> m.spec_code() == 5 && method_str_spec(m.spec_code()) == "CONNECT"@,
        m == HttpMethod::Options ==> m.spec_code() == 6 && method_str_spec(m.spec_code()) == "OPTIONS"@,
        m == HttpMethod::Trace ==> m.spec_code() == 7 && method_str_spec(m.spec_code()) == "TRACE"@,
        m == HttpMethod::Copy ==> m.spec_code() == 8 && method_str_spec(m.spec_code()) == "COPY"@,
        m == HttpMethod::Lock ==> m.spec_code() == 9 && method_str_spec(m.spec_code()) == "LOCK"@,
        m == HttpMethod::MkCol ==> m.spec_code() == 10 && method_str_spec(m.spec_code()) == "MKCOL"@,
        m == HttpMethod::Move ==> m.spec_code() == 11 && method_str_spec(m.spec_code()) == "MOVE"@,
        m == HttpMethod::Propfind ==> m.spec_code() == 12 && method_str_spec(m.spec_code()) == "PROPFIND"@,
        m == HttpMethod::PropPatch ==> m.spec_code() == 13 && method_str_spec(m.spec_code()) == "PROPPATCH"@,
        m == HttpMethod::Search ==> m.spec_code() == 14 && method_str_spec(m.spec_code()) == "SEARCH"@,
        m == HttpMethod::Unlock ==> m.spec_code() == 15 && method_str_spec(m.spec_code()) == "UNLOCK"@,
        m == HttpMethod::Report ==> m.spec_code() == 16 && method_str_spec(m.spec_code()) == "REPORT"@,
        m == HttpMethod::MkActivity ==> m.spec_code() == 17 && method_str_spec(m.spec_code()) == "MKACTIVITY"@,
        m == HttpMethod::Checkout ==> m.spec_code() == 18 && method_str_spec(m.spec_code()) == "CHECKOUT"@,
        m == HttpMethod::Merge ==> m.spec_code() == 19 && method_str_spec(m.spec_code()) == "MERGE"@,
        m == HttpMethod::MSearch ==> m.spec_code() == 20 && method_str_spec(m.spec_code()) == "M-SEARCH"@,
        m == HttpMethod::Notify ==> m.spec_code() == 21 && method_str_spec(m.spec_code()) == "NOTIFY"@,
        m == HttpMethod::Subscribe ==> m.spec_code() == 22 && method_str_spec(m.spec_code()) == "SUBSCRIBE"@,
        m == HttpMethod::Unsubscribe ==> m.spec_code() == 23 && method_str_spec(m.spec_code()) == "UNSUBSCRIBE"@,
        m == HttpMethod::Patch ==> m.spec_code() == 24 && method_str_spec(m.spec_code()) == "PATCH"@,
        m == HttpMethod::Purge ==> m.spec_code() == 25 && method_str_spec(m.spec_code()) == "PURGE"@,
        m == HttpMethod::MkCalendar ==> m.spec_code() == 26 && method_str_spec(m.spec_code()) == "MKCALENDAR"@,
{
}

/// Different method codes have different texts, so the text of a method
/// identifies it.
#[verifier::spinoff_prover]
#[verifier::rlimit(50)]
pub proof fn lemma_method_str_injective(c1: u8, c2: u8)
    requires
        c1 <= MAX_HTTP_METHOD,
        c2 <= MAX_HTTP_METHOD,
        c1 != c2,
    ensures
        method_str_spec(c1) != method_str_spec(c2),
{
    reveal_strlit("DELETE");
    reveal_strlit("GET");
    reveal_strlit("HEAD");
    reveal_strlit("POST");
    reveal_strlit("PUT");
    reveal_strlit("CONNECT");
    reveal_strlit("OPTIONS");
    reveal_strlit("TRACE");
    reveal_strlit("COPY");
    reveal_strlit("LOCK");
    reveal_strlit("MKCOL");
    reveal_strlit("MOVE");
    reveal_strlit("PROPFIND");
    reveal_strlit("PROPPATCH");
    reveal_strlit("SEARCH");
    reveal_strlit("UNLOCK");
    reveal_strlit("REPORT");
    reveal_strlit("MKACTIVITY");
    reveal_strlit("CHECKOUT");
    reveal_strlit("MERGE");
    reveal_strlit("M-SEARCH");
    reveal_strlit("NOTIFY");
    reveal_strlit("SUBSCRIBE");
    reveal_strlit("UNSUBSCRIBE");
    reveal_strlit("PATCH");
    reveal_strlit("PURGE");
    reveal_strlit("MKCALENDAR");
    if method_str_spec(c1) == method_str_spec(c2) {
        let s1 = method_str_spec(c1);
        let s2 = method_str_spec(c2);
        assert(s1.len() == s2.len());
        assert(s1[0] == s2[0] && s1[1] == s2[1] && s1[2] == s2[2]);
        assert(s1.len() > 3 ==> s1[3] == s2[3]);
        assert(s1.len() > 4 ==> s1[4] == s2[4]);
        assert(s1.len() > 5 ==> s1[5] == s2[5]);
        assert(s1.len() > 6 ==> s1[6] == s2[6]);
    }
}

} // verus!
