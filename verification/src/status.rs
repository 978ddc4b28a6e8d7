use vstd::prelude::*;

use crate::errno::{lemma_errno_code_complete, HttpErrno, MAX_HTTP_ERRNO};
use crate::method::{http_method_str, lemma_method_str_unknown, method_str_spec, HttpMethod};

verus! {

/// The response status code held in the low 16 bits of a status word.
pub open spec fn status_code_of(flags: u32) -> u16 {
    (flags % 0x10000) as u16
}

/// The method code held in bits 16 to 23 of a status word.
pub open spec fn method_code_of(flags: u32) -> u8 {
    ((flags / 0x10000) % 0x100) as u8
}

/// The error code held in bits 24 to 30 of a status word.
pub open spec fn errno_code_of(flags: u32) -> u8 {
    ((flags / 0x1000000) % 0x80) as u8
}

/// The upgrade flag held in bit 31 of a status word.
pub open spec fn upgrade_of(flags: u32) -> bool {
    flags >= 0x80000000
}

/// The status word that holds the given fields.
pub open spec fn status_word(code: u16, method: u8, errno: u8, upgrade: bool) -> int {
    code + method * 0x10000 + errno * 0x1000000 + if upgrade { 0x80000000int } else { 0 }
}

/// A structure containing extended status information.
///
/// It is a view of the parser's packed status word: the status code, the
/// method, the error number and the upgrade flag.
pub struct HttpStatus {
    flags: u32,
}

impl View for HttpStatus {
    type V = u32;

    closed spec fn view(&self) -> u32 {
        self.flags
    }
}

impl HttpStatus {
    /// Wraps a status word as reported by the parser.
    pub fn from_flags(flags: u32) -> (s: Self)
        ensures
            s@ == flags,
    {
        HttpStatus { flags }
    }

    /// Returns an HTTP response status code (think *404*).
    pub fn code(&self) -> (c: u16)
        ensures
            c == status_code_of(self@),
    {
        let flags = self.flags;
        assert(flags & 0xFFFF == flags % 0x10000) by (bit_vector);
        (flags & 0xFFFF) as u16
    }

    fn methodnum(&self) -> (m: u8)
        ensures
            m == method_code_of(self@),
    {
        let flags = self.flags;
        assert((flags >> 16) & 0xFF == (flags / 0x10000) % 0x100) by (bit_vector);
        ((flags >> 16) & 0xFF) as u8
    }

    /// Returns `Some(method)` if the parser's current HTTP method is valid,
    /// or `None` if it is invalid.  Note that this value only has meaning if the method was
    /// already parsed without raising InvalidMethod.
    pub fn method(&self) -> (m: Option<HttpMethod>)
        ensures
            m == HttpMethod::spec_from_code(method_code_of(self@)),
    {
        let method_code = self.methodnum();
        HttpMethod::from_code(method_code)
    }

    /// Returns an HTTP method static string ("GET", "POST", and so on), or "\<unknown\>" if it is
    /// invalid.  Note that this value only has meaning if the method was already parsed without
    /// raising InvalidMethod.
    pub fn method_name(&self) -> (s: &'static str)
        ensures
            s@ == method_str_spec(method_code_of(self@)),
    {
        let method_code = self.methodnum();
        http_method_str(method_code)
    }

    /// Return the last parsing error, if any.
    ///
    /// The parser only ever stores a known error number in the status word.
    pub fn errno(&self) -> (e: HttpErrno)
        requires
            errno_code_of(self@) <= MAX_HTTP_ERRNO,
        ensures
            e.spec_code() == errno_code_of(self@),
    {
        proof {
            lemma_errno_code_complete(errno_code_of(self@));
        }
        self.try_errno().unwrap()
    }

    /// Returns the last parsing error, or `None` when the status word holds an
    /// error number that names no error.
    pub fn try_errno(&self) -> (e: Option<HttpErrno>)
        ensures
            e == HttpErrno::spec_from_code(errno_code_of(self@)),
    {
        let flags = self.flags;
        assert((flags >> 24) & 0x7F == (flags / 0x1000000) % 0x80) by (bit_vector);
        let error_code = ((flags >> 24) & 0x7F) as u8;
        HttpErrno::from_code(error_code)
    }

    /// Checks if an upgrade protocol (e.g. WebSocket) was requested.
    pub fn is_upgrade(&self) -> (b: bool)
        ensures
            b == upgrade_of(self@),
    {
        let flags = self.flags;
        assert(((flags >> 31) & 0x01 == 1) == (flags >= 0x80000000)) by (bit_vector);
        ((flags >> 31) & 0x01) == 1
    }
}

/// A status word is exactly the sum of its four fields: the status code, the
/// method code, the error code and the upgrade flag.
pub proof fn lemma_status_word_fields(flags: u32)
    ensures
        flags as int == status_word(
            status_code_of(flags),
            method_code_of(flags),
            errno_code_of(flags),
            upgrade_of(flags),
        ),
{
}

/// Each field of a status word built from in-range fields reads back as it was
/// written.
pub proof fn lemma_status_word_roundtrip(code: u16, method: u8, errno: u8, upgrade: bool)
    requires
        errno < 0x80,
    ensures
        ({
            let flags = status_word(code, method, errno, upgrade) as u32;
            &&& 0 <= status_word(code, method, errno, upgrade) <= u32::MAX
            &&& status_code_of(flags) == code
            &&& method_code_of(flags) == method
            &&& errno_code_of(flags) == errno
            &&& upgrade_of(flags) == upgrade
        }),
{
}

/// The method name of a status agrees with its method: the name of that method
/// when there is one, `<unknown>` when there is none.
pub proof fn lemma_method_name_matches_method(flags: u32)
    ensures
        HttpMethod::spec_from_code(method_code_of(flags)) matches Some(m) ==> method_str_spec(
            method_code_of(flags),
        ) == method_str_spec(m.spec_code()),
        HttpMethod::spec_from_code(method_code_of(flags)) is None <==> method_str_spec(
            method_code_of(flags),
        ) == "<unknown>"@,
{
    lemma_method_str_unknown(method_code_of(flags));
}

/// The error of a status is [`HttpErrno::Success`] exactly when its error code is zero.
pub proof fn lemma_errno_success_iff_zero(flags: u32)
    requires
        errno_code_of(flags) <= MAX_HTTP_ERRNO,
    ensures
        HttpErrno::spec_from_code(errno_code_of(flags)) == Some(HttpErrno::Success) <==> errno_code_of(
            flags,
        ) == 0,
{
}

} // verus!
