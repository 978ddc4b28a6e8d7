use vstd::prelude::*;

verus! {

/// The largest code of an [`HttpErrno`].
pub const MAX_HTTP_ERRNO: u8 = 31;

/// Errors that can occur during parsing.
#[derive(Clone, Copy, Debug, PartialEq, Eq, Structural)]
pub enum HttpErrno {
    /* No error */
    /// success
    Success,

    /* Callback-related errors */
    /// the on_message_begin callback failed
    CbMessageBegin,
    /// the on_url callback failed
    CbUrl,
    /// the on_header_field callback failed
    CbHeaderField,
    /// the on_header_value callback failed
    CbHeaderValue,
    /// the on_headers_complete callback failed
    CbHeadersComplete,
    /// the on_body callback failed
    CbBody,
    /// the on_message_complete callback failed
    CbMessageComplete,
    /// the on_status callback failed
    CbStatus,
    /// the on_chunk_header callback failed
    CbChunkHeader,
    /// the on_chunk_complete callback failed
    CbChunkComplete,

    /* Parsing-related errors */
    /// stream ended at an unexpected time
    InvalidEofState,
    /// too many header bytes seen; overflow detected
    HeaderOverflow,
    /// data received after completed connection: close message
    ClosedConnection,
    /// invalid HTTP version
    InvalidVersion,
    /// invalid HTTP status code
    InvalidStatus,
    /// invalid HTTP method
    InvalidMethod,
    /// invalid URL
    InvalidUrl,
    /// invalid host,
    InvalidHost,
    /// invalid port
    InvalidPort,
    /// invalid path
    InvalidPath,
    /// invalid query string
    InvalidQueryString,
    /// invalid fragment
    InvalidFragment,
    /// LF character expected
    LfExpected,
    /// invalid character in header
    InvalidHeaderToken,
    /// invalid character in content-length header
    InvalidContentLength,
    /// invalid character in chunk size header
    InvalidChunkSize,
    /// invalid constant string
    InvalidConstant,
    /// encountered unexpected internal state
    InvalidInternalState,
    /// strict mode assertion failed
    Strict,
    /// parser is paused
    Paused,
    /// an unknown error occurred
    Unknown,
}

impl HttpErrno {
    /// The numeric code that the parser uses for this error.
    pub open spec fn spec_code(self) -> u8 {
        match self {
            HttpErrno::Success => 0,
            HttpErrno::CbMessageBegin => 1,
            HttpErrno::CbUrl => 2,
            HttpErrno::CbHeaderField => 3,
            HttpErrno::CbHeaderValue => 4,
            HttpErrno::CbHeadersComplete => 5,
            HttpErrno::CbBody => 6,
            HttpErrno::CbMessageComplete => 7,
            HttpErrno::CbStatus => 8,
            HttpErrno::CbChunkHeader => 9,
            HttpErrno::CbChunkComplete => 10,
            HttpErrno::InvalidEofState => 11,
            HttpErrno::HeaderOverflow => 12,
            HttpErrno::ClosedConnection => 13,
            HttpErrno::InvalidVersion => 14,
            HttpErrno::InvalidStatus => 15,
            HttpErrno::InvalidMethod => 16,
            HttpErrno::InvalidUrl => 17,
            HttpErrno::InvalidHost => 18,
            HttpErrno::InvalidPort => 19,
            HttpErrno::InvalidPath => 20,
            HttpErrno::InvalidQueryString => 21,
            HttpErrno::InvalidFragment => 22,
            HttpErrno::LfExpected => 23,
            HttpErrno::InvalidHeaderToken => 24,
            HttpErrno::InvalidContentLength => 25,
            HttpErrno::InvalidChunkSize => 26,
            HttpErrno::InvalidConstant => 27,
            HttpErrno::InvalidInternalState => 28,
            HttpErrno::Strict => 29,
            HttpErrno::Paused => 30,
            HttpErrno::Unknown => 31,
        }
    }

    /// The error with the given code, if there is one.
    pub open spec fn spec_from_code(code: u8) -> Option<HttpErrno> {
        match code {
            0 => Some(HttpErrno::Success),
            1 => Some(HttpErrno::CbMessageBegin),
            2 => Some(HttpErrno::CbUrl),
            3 => Some(HttpErrno::CbHeaderField),
            4 => Some(HttpErrno::CbHeaderValue),
            5 => Some(HttpErrno::CbHeadersComplete),
            6 => Some(HttpErrno::CbBody),
            7 => Some(HttpErrno::CbMessageComplete),
            8 => Some(HttpErrno::CbStatus),
            9 => Some(HttpErrno::CbChunkHeader),
            10 => Some(HttpErrno::CbChunkComplete),
            11 => Some(HttpErrno::InvalidEofState),
            12 => Some(HttpErrno::HeaderOverflow),
            13 => Some(HttpErrno::ClosedConnection),
            14 => Some(HttpErrno::InvalidVersion),
            15 => Some(HttpErrno::InvalidStatus),
            16 => Some(HttpErrno::InvalidMethod),
            17 => Some(HttpErrno::InvalidUrl),
            18 => Some(HttpErrno::InvalidHost),
            19 => Some(HttpErrno::InvalidPort),
            20 => Some(HttpErrno::InvalidPath),
            21 => Some(HttpErrno::InvalidQueryString),
            22 => Some(HttpErrno::InvalidFragment),
            23 => Some(HttpErrno::LfExpected),
            24 => Some(HttpErrno::InvalidHeaderToken),
            25 => Some(HttpErrno::InvalidContentLength),
            26 => Some(HttpErrno::InvalidChunkSize),
            27 => Some(HttpErrno::InvalidConstant),
            28 => Some(HttpErrno::InvalidInternalState),
            29 => Some(HttpErrno::Strict),
            30 => Some(HttpErrno::Paused),
            31 => Some(HttpErrno::Unknown),
            _ => None,
        }
    }

    /// Returns the numeric code of this error (`0` for [`HttpErrno::Success`]).
    pub fn code(&self) -> (c: u8)
        ensures
            c == self.spec_code(),
    {
        match self {
            HttpErrno::Success => 0,
            HttpErrno::CbMessageBegin => 1,
            HttpErrno::CbUrl => 2,
            HttpErrno::CbHeaderField => 3,
            HttpErrno::CbHeaderValue => 4,
            HttpErrno::CbHeadersComplete => 5,
            HttpErrno::CbBody => 6,
            HttpErrno::CbMessageComplete => 7,
            HttpErrno::CbStatus => 8,
            HttpErrno::CbChunkHeader => 9,
            HttpErrno::CbChunkComplete => 10,
            HttpErrno::InvalidEofState => 11,
            HttpErrno::HeaderOverflow => 12,
            HttpErrno::ClosedConnection => 13,
            HttpErrno::InvalidVersion => 14,
            HttpErrno::InvalidStatus => 15,
            HttpErrno::InvalidMethod => 16,
            HttpErrno::InvalidUrl => 17,
            HttpErrno::InvalidHost => 18,
            HttpErrno::InvalidPort => 19,
            HttpErrno::InvalidPath => 20,
            HttpErrno::InvalidQueryString => 21,
            HttpErrno::InvalidFragment => 22,
            HttpErrno::LfExpected => 23,
            HttpErrno::InvalidHeaderToken => 24,
            HttpErrno::InvalidContentLength => 25,
            HttpErrno::InvalidChunkSize => 26,
            HttpErrno::InvalidConstant => 27,
            HttpErrno::InvalidInternalState => 28,
            HttpErrno::Strict => 29,
            HttpErrno::Paused => 30,
            HttpErrno::Unknown => 31,
        }
    }

    /// Returns the error with the given numeric code, or `None` when the code is
    /// above [`MAX_HTTP_ERRNO`].
    pub fn from_code(code: u8) -> (e: Option<HttpErrno>)
        ensures
            e == Self::spec_from_code(code),
    {
        match code {
            0 => Some(HttpErrno::Success),
            1 => Some(HttpErrno::CbMessageBegin),
            2 => Some(HttpErrno::CbUrl),
            3 => Some(HttpErrno::CbHeaderField),
            4 => Some(HttpErrno::CbHeaderValue),
            5 => Some(HttpErrno::CbHeadersComplete),
            6 => Some(HttpErrno::CbBody),
            7 => Some(HttpErrno::CbMessageComplete),
            8 => Some(HttpErrno::CbStatus),
            9 => Some(HttpErrno::CbChunkHeader),
            10 => Some(HttpErrno::CbChunkComplete),
            11 => Some(HttpErrno::InvalidEofState),
            12 => Some(HttpErrno::HeaderOverflow),
            13 => Some(HttpErrno::ClosedConnection),
            14 => Some(HttpErrno::InvalidVersion),
            15 => Some(HttpErrno::InvalidStatus),
            16 => Some(HttpErrno::InvalidMethod),
            17 => Some(HttpErrno::InvalidUrl),
            18 => Some(HttpErrno::InvalidHost),
            19 => Some(HttpErrno::InvalidPort),
            20 => Some(HttpErrno::InvalidPath),
            21 => Some(HttpErrno::InvalidQueryString),
            22 => Some(HttpErrno::InvalidFragment),
            23 => Some(HttpErrno::LfExpected),
            24 => Some(HttpErrno::InvalidHeaderToken),
            25 => Some(HttpErrno::InvalidContentLength),
            26 => Some(HttpErrno::InvalidChunkSize),
            27 => Some(HttpErrno::InvalidConstant),
            28 => Some(HttpErrno::InvalidInternalState),
            29 => Some(HttpErrno::Strict),
            30 => Some(HttpErrno::Paused),
            31 => Some(HttpErrno::Unknown),
            _ => None,
        }
    }

    /// In case of a parsing error returns its mnemonic name.
    pub fn name(&self) -> (s: &'static str)
        ensures
            s@ == errno_name_spec(*self),
    {
        match self {
            HttpErrno::Success => "HPE_OK",
            HttpErrno::CbMessageBegin => "HPE_CB_message_begin",
            HttpErrno::CbUrl => "HPE_CB_url",
            HttpErrno::CbHeaderField => "HPE_CB_header_field",
            HttpErrno::CbHeaderValue => "HPE_CB_header_value",
            HttpErrno::CbHeadersComplete => "HPE_CB_headers_complete",
            HttpErrno::CbBody => "HPE_CB_body",
            HttpErrno::CbMessageComplete => "HPE_CB_message_complete",
            HttpErrno::CbStatus => "HPE_CB_status",
            HttpErrno::CbChunkHeader => "HPE_CB_chunk_header",
            HttpErrno::CbChunkComplete => "HPE_CB_chunk_complete",
            HttpErrno::InvalidEofState => "HPE_INVALID_EOF_STATE",
            HttpErrno::HeaderOverflow => "HPE_HEADER_OVERFLOW",
            HttpErrno::ClosedConnection => "HPE_CLOSED_CONNECTION",
            HttpErrno::InvalidVersion => "HPE_INVALID_VERSION",
            HttpErrno::InvalidStatus => "HPE_INVALID_STATUS",
            HttpErrno::InvalidMethod => "HPE_INVALID_METHOD",
            HttpErrno::InvalidUrl => "HPE_INVALID_URL",
            HttpErrno::InvalidHost => "HPE_INVALID_HOST",
            HttpErrno::InvalidPort => "HPE_INVALID_PORT",
            HttpErrno::InvalidPath => "HPE_INVALID_PATH",
            HttpErrno::InvalidQueryString => "HPE_INVALID_QUERY_STRING",
            HttpErrno::InvalidFragment => "HPE_INVALID_FRAGMENT",
            HttpErrno::LfExpected => "HPE_LF_EXPECTED",
            HttpErrno::InvalidHeaderToken => "HPE_INVALID_HEADER_TOKEN",
            HttpErrno::InvalidContentLength => "HPE_INVALID_CONTENT_LENGTH",
            HttpErrno::InvalidChunkSize => "HPE_INVALID_CHUNK_SIZE",
            HttpErrno::InvalidConstant => "HPE_INVALID_CONSTANT",
            HttpErrno::InvalidInternalState => "HPE_INVALID_INTERNAL_STATE",
            HttpErrno::Strict => "HPE_STRICT",
            HttpErrno::Paused => "HPE_PAUSED",
            HttpErrno::Unknown => "HPE_UNKNOWN",
        }
    }

    /// Returns a human-readable description of the error.
    pub fn description(&self) -> (s: &'static str)
        ensures
            s@ == errno_description_spec(*self),
    {
        match self {
            HttpErrno::Success => "success",
            HttpErrno::CbMessageBegin => "the on_message_begin callback failed",
            HttpErrno::CbUrl => "the on_url callback failed",
            HttpErrno::CbHeaderField => "the on_header_field callback failed",
            HttpErrno::CbHeaderValue => "the on_header_value callback failed",
            HttpErrno::CbHeadersComplete => "the on_headers_complete callback failed",
            HttpErrno::CbBody => "the on_body callback failed",
            HttpErrno::CbMessageComplete => "the on_message_complete callback failed",
            HttpErrno::CbStatus => "the on_status callback failed",
            HttpErrno::CbChunkHeader => "the on_chunk_header callback failed",
            HttpErrno::CbChunkComplete => "the on_chunk_complete callback failed",
            HttpErrno::InvalidEofState => "stream ended at an unexpected time",
            HttpErrno::HeaderOverflow => "too many header bytes seen; overflow detected",
            HttpErrno::ClosedConnection => "data received after completed connection: close message",
            HttpErrno::InvalidVersion => "invalid HTTP version",
            HttpErrno::InvalidStatus => "invalid HTTP status code",
            HttpErrno::InvalidMethod => "invalid HTTP method",
            HttpErrno::InvalidUrl => "invalid URL",
            HttpErrno::InvalidHost => "invalid host",
            HttpErrno::InvalidPort => "invalid port",
            HttpErrno::InvalidPath => "invalid path",
            HttpErrno::InvalidQueryString => "invalid query string",
            HttpErrno::InvalidFragment => "invalid fragment",
            HttpErrno::LfExpected => "LF character expected",
            HttpErrno::InvalidHeaderToken => "invalid character in header",
            HttpErrno::InvalidContentLength => "invalid character in content-length header",
            HttpErrno::InvalidChunkSize => "invalid character in chunk size header",
            HttpErrno::InvalidConstant => "invalid constant string",
            HttpErrno::InvalidInternalState => "encountered unexpected internal state",
            HttpErrno::Strict => "strict mode assertion failed",
            HttpErrno::Paused => "parser is paused",
            HttpErrno::Unknown => "an unknown error occurred",
        }
    }

    /// Checks if the last `parse` call was finished successfully.
    /// Returns true if it did.
    pub fn is_ok(&self) -> (b: bool)
        ensures
            b <==> *self == HttpErrno::Success,
    {
        match self {
            HttpErrno::Success => true,
            _ => false,
        }
    }
}

/// The mnemonic name of an error: `HPE_` followed by its identifier.
pub open spec fn errno_name_spec(e: HttpErrno) -> Seq<char> {
    match e {
        HttpErrno::Success => "HPE_OK"@,
        HttpErrno::CbMessageBegin => "HPE_CB_message_begin"@,
        HttpErrno::CbUrl => "HPE_CB_url"@,
        HttpErrno::CbHeaderField => "HPE_CB_header_field"@,
        HttpErrno::CbHeaderValue => "HPE_CB_header_value"@,
        HttpErrno::CbHeadersComplete => "HPE_CB_headers_complete"@,
        HttpErrno::CbBody => "HPE_CB_body"@,
        HttpErrno::CbMessageComplete => "HPE_CB_message_complete"@,
        HttpErrno::CbStatus => "HPE_CB_status"@,
        HttpErrno::CbChunkHeader => "HPE_CB_chunk_header"@,
        HttpErrno::CbChunkComplete => "HPE_CB_chunk_complete"@,
        HttpErrno::InvalidEofState => "HPE_INVALID_EOF_STATE"@,
        HttpErrno::HeaderOverflow => "HPE_HEADER_OVERFLOW"@,
        HttpErrno::ClosedConnection => "HPE_CLOSED_CONNECTION"@,
        HttpErrno::InvalidVersion => "HPE_INVALID_VERSION"@,
        HttpErrno::InvalidStatus => "HPE_INVALID_STATUS"@,
        HttpErrno::InvalidMethod => "HPE_INVALID_METHOD"@,
        HttpErrno::InvalidUrl => "HPE_INVALID_URL"@,
        HttpErrno::InvalidHost => "HPE_INVALID_HOST"@,
        HttpErrno::InvalidPort => "HPE_INVALID_PORT"@,
        HttpErrno::InvalidPath => "HPE_INVALID_PATH"@,
        HttpErrno::InvalidQueryString => "HPE_INVALID_QUERY_STRING"@,
        HttpErrno::InvalidFragment => "HPE_INVALID_FRAGMENT"@,
        HttpErrno::LfExpected => "HPE_LF_EXPECTED"@,
        HttpErrno::InvalidHeaderToken => "HPE_INVALID_HEADER_TOKEN"@,
        HttpErrno::InvalidContentLength => "HPE_INVALID_CONTENT_LENGTH"@,
        HttpErrno::InvalidChunkSize => "HPE_INVALID_CHUNK_SIZE"@,
        HttpErrno::InvalidConstant => "HPE_INVALID_CONSTANT"@,
        HttpErrno::InvalidInternalState => "HPE_INVALID_INTERNAL_STATE"@,
        HttpErrno::Strict => "HPE_STRICT"@,
        HttpErrno::Paused => "HPE_PAUSED"@,
        HttpErrno::Unknown => "HPE_UNKNOWN"@,
    }
}

/// The human-readable description of an error.
pub open spec fn errno_description_spec(e: HttpErrno) -> Seq<char> {
    match e {
        HttpErrno::Success => "success"@,
        HttpErrno::CbMessageBegin => "the on_message_begin callback failed"@,
        HttpErrno::CbUrl => "the on_url callback failed"@,
        HttpErrno::CbHeaderField => "the on_header_field callback failed"@,
        HttpErrno::CbHeaderValue => "the on_header_value callback failed"@,
        HttpErrno::CbHeadersComplete => "the on_headers_complete callback failed"@,
        HttpErrno::CbBody => "the on_body callback failed"@,
        HttpErrno::CbMessageComplete => "the on_message_complete callback failed"@,
        HttpErrno::CbStatus => "the on_status callback failed"@,
        HttpErrno::CbChunkHeader => "the on_chunk_header callback failed"@,
        HttpErrno::CbChunkComplete => "the on_chunk_complete callback failed"@,
        HttpErrno::InvalidEofState => "stream ended at an unexpected time"@,
        HttpErrno::HeaderOverflow => "too many header bytes seen; overflow detected"@,
        HttpErrno::ClosedConnection => "data received after completed connection: close message"@,
        HttpErrno::InvalidVersion => "invalid HTTP version"@,
        HttpErrno::InvalidStatus => "invalid HTTP status code"@,
        HttpErrno::InvalidMethod => "invalid HTTP method"@,
        HttpErrno::InvalidUrl => "invalid URL"@,
        HttpErrno::InvalidHost => "invalid host"@,
        HttpErrno::InvalidPort => "invalid port"@,
        HttpErrno::InvalidPath => "invalid path"@,
        HttpErrno::InvalidQueryString => "invalid query string"@,
        HttpErrno::InvalidFragment => "invalid fragment"@,
        HttpErrno::LfExpected => "LF character expected"@,
        HttpErrno::InvalidHeaderToken => "invalid character in header"@,
        HttpErrno::InvalidContentLength => "invalid character in content-length header"@,
        HttpErrno::InvalidChunkSize => "invalid character in chunk size header"@,
        HttpErrno::InvalidConstant => "invalid constant string"@,
        HttpErrno::InvalidInternalState => "encountered unexpected internal state"@,
        HttpErrno::Strict => "strict mode assertion failed"@,
        HttpErrno::Paused => "parser is paused"@,
        HttpErrno::Unknown => "an unknown error occurred"@,
    }
}

/// Every error has a code no larger than [`MAX_HTTP_ERRNO`], and that code
/// leads back to the error.
pub proof fn lemma_errno_code_roundtrip(e: HttpErrno)
    ensures
        e.spec_code() <= MAX_HTTP_ERRNO,
        HttpErrno::spec_from_code(e.spec_code()) == Some(e),
{
}

/// A code names an error exactly when it is no larger than [`MAX_HTTP_ERRNO`],
/// and the error it names has that code.
pub proof fn lemma_errno_code_complete(code: u8)
    ensures
        HttpErrno::spec_from_code(code) is Some <==> code <= MAX_HTTP_ERRNO,
        HttpErrno::spec_from_code(code) matches Some(e) ==> e.spec_code() == code,
{
}

/// Each error carries the number, the mnemonic and the description that the
/// parser's error map gives it: `HPE_OK` ("success") is 0, the callback errors
/// follow from 1 to 10, `HPE_INVALID_EOF_STATE` is 11, ..., `HPE_INVALID_VERSION`
/// 14, `HPE_INVALID_STATUS` 15, `HPE_INVALID_METHOD` 16, ..., `HPE_UNKNOWN` 31.
/// The mnemonic is `HPE_` followed by the error's identifier, and the
/// description is the text documented on its variant.
pub proof fn lemma_errno_table(e: HttpErrno)
    ensures
        e == HttpErrno::Success ==> e.spec_code() == 0 && errno_name_spec(e) == "HPE_OK"@
            && errno_description_spec(e) == "success"@,
        e == HttpErrno::CbMessageBegin ==> e.spec_code() == 1 && errno_name_spec(e) == "HPE_CB_message_begin"@
            && errno_description_spec(e) == "the on_message_begin callback failed"@,
        e == HttpErrno::CbUrl ==> e.spec_code() == 2 && errno_name_spec(e) == "HPE_CB_url"@
            && errno_description_spec(e) == "the on_url callback failed"@,
        e == HttpErrno::CbHeaderField ==> e.spec_code() == 3 && errno_name_spec(e) == "HPE_CB_header_field"@
            && errno_description_spec(e) == "the on_header_field callback failed"@,
        e == HttpErrno::CbHeaderValue ==> e.spec_code() == 4 && errno_name_spec(e) == "HPE_CB_header_value"@
            && errno_description_spec(e) == "the on_header_value callback failed"@,
        e == HttpErrno::CbHeadersComplete ==> e.spec_code() == 5 && errno_name_spec(e) == "HPE_CB_headers_complete"@
            && errno_description_spec(e) == "the on_headers_complete callback failed"@,
        e == HttpErrno::CbBody ==> e.spec_code() == 6 && errno_name_spec(e) == "HPE_CB_body"@
            && errno_description_spec(e) == "the on_body callback failed"@,
        e == HttpErrno::CbMessageComplete ==> e.spec_code() == 7 && errno_name_spec(e) == "HPE_CB_message_complete"@
            && errno_description_spec(e) == "the on_message_complete callback failed"@,
        e == HttpErrno::CbStatus ==> e.spec_code() == 8 && errno_name_spec(e) == "HPE_CB_status"@
            && errno_description_spec(e) == "the on_status callback failed"@,
        e == HttpErrno::CbChunkHeader ==> e.spec_code() == 9 && errno_name_spec(e) == "HPE_CB_chunk_header"@
            && errno_description_spec(e) == "the on_chunk_header callback failed"@,
        e == HttpErrno::CbChunkComplete ==> e.spec_code() == 10 && errno_name_spec(e) == "HPE_CB_chunk_complete"@
            && errno_description_spec(e) == "the on_chunk_complete callback failed"@,
        e == HttpErrno::InvalidEofState ==> e.spec_code() == 11 && errno_name_spec(e) == "HPE_INVALID_EOF_STATE"@
            && errno_description_spec(e) == "stream ended at an unexpected time"@,
        e == HttpErrno::HeaderOverflow ==> e.spec_code() == 12 && errno_name_spec(e) == "HPE_HEADER_OVERFLOW"@
            && errno_description_spec(e) == "too many header bytes seen; overflow detected"@,
        e == HttpErrno::ClosedConnection ==> e.spec_code() == 13 && errno_name_spec(e) == "HPE_CLOSED_CONNECTION"@
            && errno_description_spec(e) == "data received after completed connection: close message"@,
        e == HttpErrno::InvalidVersion ==> e.spec_code() == 14 && errno_name_spec(e) == "HPE_INVALID_VERSION"@
            && errno_description_spec(e) == "invalid HTTP version"@,
        e == HttpErrno::InvalidStatus ==> e.spec_code() == 15 && errno_name_spec(e) == "HPE_INVALID_STATUS"@
            && errno_description_spec(e) == "invalid HTTP status code"@,
        e == HttpErrno::InvalidMethod ==> e.spec_code() == 16 && errno_name_spec(e) == "HPE_INVALID_METHOD"@
            && errno_description_spec(e) == "invalid HTTP method"@,
        e == HttpErrno::InvalidUrl ==> e.spec_code() == 17 && errno_name_spec(e) == "HPE_INVALID_URL"@
            && errno_description_spec(e) == "invalid URL"@,
        e == HttpErrno::InvalidHost ==> e.spec_code() == 18 && errno_name_spec(e) == "HPE_INVALID_HOST"@
            && errno_description_spec(e) == "invalid host"@,
        e == HttpErrno::InvalidPort ==> e.spec_code() == 19 && errno_name_spec(e) == "HPE_INVALID_PORT"@
            && errno_description_spec(e) == "invalid port"@,
        e == HttpErrno::InvalidPath ==> e.spec_code() == 20 && errno_name_spec(e) == "HPE_INVALID_PATH"@
            && errno_description_spec(e) == "invalid path"@,
        e == HttpErrno::InvalidQueryString ==> e.spec_code() == 21 && errno_name_spec(e) == "HPE_INVALID_QUERY_STRING"@
            && errno_description_spec(e) == "invalid query string"@,
        e == HttpErrno::InvalidFragment ==> e.spec_code() == 22 && errno_name_spec(e) == "HPE_INVALID_FRAGMENT"@
            && errno_description_spec(e) == "invalid fragment"@,
        e == HttpErrno::LfExpected ==> e.spec_code() == 23 && errno_name_spec(e) == "HPE_LF_EXPECTED"@
            && errno_description_spec(e) == "LF character expected"@,
        e == HttpErrno::InvalidHeaderToken ==> e.spec_code() == 24 && errno_name_spec(e) == "HPE_INVALID_HEADER_TOKEN"@
            && errno_description_spec(e) == "invalid character in header"@,
        e == HttpErrno::InvalidContentLength ==> e.spec_code() == 25 && errno_name_spec(e) == "HPE_INVALID_CONTENT_LENGTH"@
            && errno_description_spec(e) == "invalid character in content-length header"@,
        e == HttpErrno::InvalidChunkSize ==> e.spec_code() == 26 && errno_name_spec(e) == "HPE_INVALID_CHUNK_SIZE"@
            && errno_description_spec(e) == "invalid character in chunk size header"@,
        e == HttpErrno::InvalidConstant ==> e.spec_code() == 27 && errno_name_spec(e) == "HPE_INVALID_CONSTANT"@
            && errno_description_spec(e) == "invalid constant string"@,
        e == HttpErrno::InvalidInternalState ==> e.spec_code() == 28 && errno_name_spec(e) == "HPE_INVALID_INTERNAL_STATE"@
            && errno_description_spec(e) == "encountered unexpected internal state"@,
        e == HttpErrno::Strict ==> e.spec_code() == 29 && errno_name_spec(e) == "HPE_STRICT"@
            && errno_description_spec(e) == "strict mode assertion failed"@,
        e == HttpErrno::Paused ==> e.spec_code() == 30 && errno_name_spec(e) == "HPE_PAUSED"@
            && errno_description_spec(e) == "parser is paused"@,
        e == HttpErrno::Unknown ==> e.spec_code() == 31 && errno_name_spec(e) == "HPE_UNKNOWN"@
            && errno_description_spec(e) == "an unknown error occurred"@,
{
}

/// Different errors have different mnemonic names.
#[verifier::spinoff_prover]
#[verifier::rlimit(80)]
pub proof fn lemma_errno_name_injective(e1: HttpErrno, e2: HttpErrno)
    requires
        e1 != e2,
    ensures
        errno_name_spec(e1) != errno_name_spec(e2),
{
    reveal_strlit("HPE_OK");
    reveal_strlit("HPE_CB_message_begin");
    reveal_strlit("HPE_CB_url");
    reveal_strlit("HPE_CB_header_field");
    reveal_strlit("HPE_CB_header_value");
    reveal_strlit("HPE_CB_headers_complete");
    reveal_strlit("HPE_CB_body");
    reveal_strlit("HPE_CB_message_complete");
    reveal_strlit("HPE_CB_status");
    reveal_strlit("HPE_CB_chunk_header");
    reveal_strlit("HPE_CB_chunk_complete");
    reveal_strlit("HPE_INVALID_EOF_STATE");
    reveal_strlit("HPE_HEADER_OVERFLOW");
    reveal_strlit("HPE_CLOSED_CONNECTION");
    reveal_strlit("HPE_INVALID_VERSION");
    reveal_strlit("HPE_INVALID_STATUS");
    reveal_strlit("HPE_INVALID_METHOD");
    reveal_strlit("HPE_INVALID_URL");
    reveal_strlit("HPE_INVALID_HOST");
    reveal_strlit("HPE_INVALID_PORT");
    reveal_strlit("HPE_INVALID_PATH");
    reveal_strlit("HPE_INVALID_QUERY_STRING");
    reveal_strlit("HPE_INVALID_FRAGMENT");
    reveal_strlit("HPE_LF_EXPECTED");
    reveal_strlit("HPE_INVALID_HEADER_TOKEN");
    reveal_strlit("HPE_INVALID_CONTENT_LENGTH");
    reveal_strlit("HPE_INVALID_CHUNK_SIZE");
    reveal_strlit("HPE_INVALID_CONSTANT");
    reveal_strlit("HPE_INVALID_INTERNAL_STATE");
    reveal_strlit("HPE_STRICT");
    reveal_strlit("HPE_PAUSED");
    reveal_strlit("HPE_UNKNOWN");
    if errno_name_spec(e1) == errno_name_spec(e2) {
        let s1 = errno_name_spec(e1);
        let s2 = errno_name_spec(e2);
        assert(s1.len() == s2.len());
        assert(s1.len() > 0 ==> s1[0] == s2[0]);
        assert(s1.len() > 1 ==> s1[1] == s2[1]);
        assert(s1.len() > 2 ==> s1[2] == s2[2]);
        assert(s1.len() > 3 ==> s1[3] == s2[3]);
        assert(s1.len() > 4 ==> s1[4] == s2[4]);
        assert(s1.len() > 5 ==> s1[5] == s2[5]);
        assert(s1.len() > 6 ==> s1[6] == s2[6]);
        assert(s1.len() > 7 ==> s1[7] == s2[7]);
        assert(s1.len() > 8 ==> s1[8] == s2[8]);
        assert(s1.len() > 9 ==> s1[9] == s2[9]);
        assert(s1.len() > 10 ==> s1[10] == s2[10]);
        assert(s1.len() > 11 ==> s1[11] == s2[11]);
        assert(s1.len() > 12 ==> s1[12] == s2[12]);
        assert(s1.len() > 13 ==> s1[13] == s2[13]);
        assert(s1.len() > 14 ==> s1[14] == s2[14]);
    }
}

/// Different errors have different descriptions.
#[verifier::spinoff_prover]
#[verifier::rlimit(80)]
pub proof fn lemma_errno_description_injective(e1: HttpErrno, e2: HttpErrno)
    requires
        e1 != e2,
    ensures
        errno_description_spec(e1) != errno_description_spec(e2),
{
    reveal_strlit("success");
    reveal_strlit("the on_message_begin callback failed");
    reveal_strlit("the on_url callback failed");
    reveal_strlit("the on_header_field callback failed");
    reveal_strlit("the on_header_value callback failed");
    reveal_strlit("the on_headers_complete callback failed");
    reveal_strlit("the on_body callback failed");
    reveal_strlit("the on_message_complete callback failed");
    reveal_strlit("the on_status callback failed");
    reveal_strlit("the on_chunk_header callback failed");
    reveal_strlit("the on_chunk_complete callback failed");
    reveal_strlit("stream ended at an unexpected time");
    reveal_strlit("too many header bytes seen; overflow detected");
    reveal_strlit("data received after completed connection: close message");
    reveal_strlit("invalid HTTP version");
    reveal_strlit("invalid HTTP status code");
    reveal_strlit("invalid HTTP method");
    reveal_strlit("invalid URL");
    reveal_strlit("invalid host");
    reveal_strlit("invalid port");
    reveal_strlit("invalid path");
    reveal_strlit("invalid query string");
    reveal_strlit("invalid fragment");
    reveal_strlit("LF character expected");
    reveal_strlit("invalid character in header");
    reveal_strlit("invalid character in content-length header");
    reveal_strlit("invalid character in chunk size header");
    reveal_strlit("invalid constant string");
    reveal_strlit("encountered unexpected internal state");
    reveal_strlit("strict mode assertion failed");
    reveal_strlit("parser is paused");
    reveal_strlit("an unknown error occurred");
    if errno_description_spec(e1) == errno_description_spec(e2) {
        let s1 = errno_description_spec(e1);
        let s2 = errno_description_spec(e2);
        assert(s1.len() == s2.len());
        assert(s1.len() > 0 ==> s1[0] == s2[0]);
        assert(s1.len() > 1 ==> s1[1] == s2[1]);
        assert(s1.len() > 2 ==> s1[2] == s2[2]);
        assert(s1.len() > 3 ==> s1[3] == s2[3]);
        assert(s1.len() > 4 ==> s1[4] == s2[4]);
        assert(s1.len() > 5 ==> s1[5] == s2[5]);
        assert(s1.len() > 6 ==> s1[6] == s2[6]);
        assert(s1.len() > 7 ==> s1[7] == s2[7]);
        assert(s1.len() > 8 ==> s1[8] == s2[8]);
        assert(s1.len() > 9 ==> s1[9] == s2[9]);
        assert(s1.len() > 10 ==> s1[10] == s2[10]);
        assert(s1.len() > 11 ==> s1[11] == s2[11]);
        assert(s1.len() > 12 ==> s1[12] == s2[12]);
        assert(s1.len() > 13 ==> s1[13] == s2[13]);
        assert(s1.len() > 14 ==> s1[14] == s2[14]);
    }
}

} // verus!
