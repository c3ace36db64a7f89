//! The log record variants and their canonical line serialization.
//!
//! A line is a sequence of bracket-delimited fields joined by single spaces,
//! in a fixed order per variant. Optional text fields render as an empty
//! bracket pair when absent and verbatim when present; an optional payload
//! size renders as `0` when absent and as its plain decimal digits when
//! present, always followed by the literal `B`.

use crate::digits::dec_digits;
use crate::digits::lemma_add_newline_free;
use crate::digits::lemma_dec_digits_newline_free;
use crate::digits::lemma_dec_digits_no_leading_zero;
use crate::digits::u64_to_dec_string;
use crate::tags::lemma_log_level_token_newline_free;
use crate::tags::lemma_log_type_token_newline_free;
use crate::timestamp::lemma_rfc3339_newline_free;
use crate::tags::LogDistinction;
use crate::tags::LogLevel;
use crate::tags::LogType;
use crate::timestamp::Timestamp;
use vstd::prelude::*;
use vstd::string::StringExecFns;

verus! {

/// One bracketed field of a log line.
pub open spec fn spec_field(content: Seq<char>) -> Seq<char> {
    "["@ + content + "]"@
}

/// The rendering of an optional text field: verbatim when present, empty when
/// absent.
pub open spec fn spec_opt_text(t: Option<String>) -> Seq<char> {
    match t {
        None => Seq::<char>::empty(),
        Some(s) => s@,
    }
}

/// The rendering of an optional payload size: its plain decimal digits when
/// present, the single digit `0` when absent. The literal `B` that follows it
/// in a line belongs to the field, not to this number.
pub open spec fn spec_payload_size(p: Option<usize>) -> Seq<char> {
    match p {
        None => dec_digits(0),
        Some(v) => dec_digits(v as nat),
    }
}

/// Whether two optional text fields hold equal values.
pub open spec fn spec_opt_text_eq(x: Option<String>, y: Option<String>) -> bool {
    match (x, y) {
        (Option::None, Option::None) => true,
        (Option::Some(s), Option::Some(t)) => s@ == t@,
        _ => false,
    }
}

/// Renders an optional payload size.
fn payload_size_string(p: &Option<usize>) -> (s: String)
    ensures
        s@ == spec_payload_size(*p),
{
    match p {
        None => u64_to_dec_string(0),
        Some(v) => u64_to_dec_string(*v as u64),
    }
}

/// Appends an optional text field to a line under construction.
fn append_opt_text(line: &mut String, text: &Option<String>)
    ensures
        final(line)@ == old(line)@ + spec_opt_text(*text),
{
    match text {
        None => {
            proof {
                assert(line@ =~= line@ + spec_opt_text(*text));
            }
        },
        Some(b) => {
            line.append(b.as_str());
        },
    }
}

/// A record of one request made to the database component.
pub struct DBRequestLog {
    pub timestamp: Timestamp,
    pub log_level: LogLevel,
    pub socket_addr: String,
    pub command: String,
    pub pile: Option<String>,
    pub payload_size_in_bytes: Option<usize>,
}

impl DBRequestLog {
    /// The canonical line of a database request record: timestamp, level,
    /// `REQUEST`, peer socket address, command, pile name or empty, payload
    /// size with its `B` suffix.
    pub open spec fn spec_log_line(self) -> Seq<char> {
        spec_field(self.timestamp.spec_rfc3339()) + " "@ + spec_field(self.log_level.spec_log_str())
            + " "@ + spec_field(LogType::REQUEST.spec_log_str()) + " "@ + spec_field(
            self.socket_addr@,
        ) + " "@ + spec_field(self.command@) + " "@ + spec_field(spec_opt_text(self.pile)) + " "@
            + spec_field(spec_payload_size(self.payload_size_in_bytes) + "B"@)
    }

    /// Renders this record as its canonical line.
    pub fn as_log_str(&self) -> (s: String)
        requires
            self.timestamp.well_formed(),
        ensures
            s@ == self.spec_log_line(),
    {
        let mut s = String::from_str("[");
        let ts = self.timestamp.to_rfc3339();
        s.append(ts.as_str());
        s.append("] [");
        let level = self.log_level.as_log_str();
        s.append(level.as_str());
        s.append("] [");
        let ty = LogType::REQUEST;
        let ty_str = ty.as_log_str();
        s.append(ty_str.as_str());
        s.append("] [");
        s.append(self.socket_addr.as_str());
        s.append("] [");
        s.append(self.command.as_str());
        s.append("] [");
        append_opt_text(&mut s, &self.pile);
        s.append("] [");
        let size = payload_size_string(&self.payload_size_in_bytes);
        s.append(size.as_str());
        s.append("B]");
        proof {
            lemma_db_request_line_shape(*self);
        }
        s
    }

    /// The routing distinction of this record.
    pub open spec fn spec_log_distinction(self) -> LogDistinction {
        LogDistinction::DB
    }

    /// Renders the routing distinction of this record.
    pub fn get_log_distinction(&self) -> (s: String)
        ensures
            s@ == self.spec_log_distinction().spec_log_str(),
    {
        let d = LogDistinction::DB;
        d.as_log_str()
    }
}

/// The canonical line of a database request record, regrouped into the flat
/// chunk order in which a serializer emits it.
#[verifier::spinoff_prover]
#[verifier::rlimit(100)]
proof fn lemma_db_request_line_shape(r: DBRequestLog)
    ensures
        r.spec_log_line() == "["@ + r.timestamp.spec_rfc3339() + "] ["@ + r.log_level.spec_log_str()
            + "] ["@ + LogType::REQUEST.spec_log_str() + "] ["@ + r.socket_addr@ + "] ["@
            + r.command@ + "] ["@ + spec_opt_text(r.pile) + "] ["@ + spec_payload_size(
            r.payload_size_in_bytes,
        ) + "B]"@,
{
    reveal_strlit("[");
    reveal_strlit("]");
    reveal_strlit(" ");
    reveal_strlit("] [");
    reveal_strlit("B");
    reveal_strlit("B]");
    assert(r.spec_log_line() =~= "["@ + r.timestamp.spec_rfc3339() + "] ["@
        + r.log_level.spec_log_str() + "] ["@ + LogType::REQUEST.spec_log_str() + "] ["@
        + r.socket_addr@ + "] ["@ + r.command@ + "] ["@ + spec_opt_text(r.pile) + "] ["@
        + spec_payload_size(r.payload_size_in_bytes) + "B]"@);
}

/// A record of one response given by the database component.
pub struct DBResponseLog {
    pub timestamp: Timestamp,
    pub log_level: LogLevel,
    pub exit_code: u8,
    pub message: Option<String>,
}

impl DBResponseLog {
    /// The canonical line of a database response record: timestamp, level,
    /// `RESPONSE`, exit code, message or empty.
    pub open spec fn spec_log_line(self) -> Seq<char> {
        spec_field(self.timestamp.spec_rfc3339()) + " "@ + spec_field(self.log_level.spec_log_str())
            + " "@ + spec_field(LogType::RESPONSE.spec_log_str()) + " "@ + spec_field(
            dec_digits(self.exit_code as nat),
        ) + " "@ + spec_field(spec_opt_text(self.message))
    }

    /// Renders this record as its canonical line.
    pub fn as_log_str(&self) -> (s: String)
        requires
            self.timestamp.well_formed(),
        ensures
            s@ == self.spec_log_line(),
    {
        let mut s = String::from_str("[");
        let ts = self.timestamp.to_rfc3339();
        s.append(ts.as_str());
        s.append("] [");
        let level = self.log_level.as_log_str();
        s.append(level.as_str());
        s.append("] [");
        let ty = LogType::RESPONSE;
        let ty_str = ty.as_log_str();
        s.append(ty_str.as_str());
        s.append("] [");
        let code = u64_to_dec_string(self.exit_code as u64);
        s.append(code.as_str());
        s.append("] [");
        append_opt_text(&mut s, &self.message);
        s.append("]");
        proof {
            reveal_strlit("[");
            reveal_strlit("]");
            reveal_strlit(" ");
            reveal_strlit("] [");
            assert(s@ =~= self.spec_log_line());
        }
        s
    }

    /// The routing distinction of this record.
    pub open spec fn spec_log_distinction(self) -> LogDistinction {
        LogDistinction::DB
    }

    /// Renders the routing distinction of this record.
    pub fn get_log_distinction(&self) -> (s: String)
        ensures
            s@ == self.spec_log_distinction().spec_log_str(),
    {
        let d = LogDistinction::DB;
        d.as_log_str()
    }
}

/// A record of one HTTP request received by the server.
pub struct HTTPRequestLog {
    pub timestamp: Timestamp,
    pub log_level: LogLevel,
    pub originating_ip_addr: String,
    pub api: String,
    pub restful_method: String,
    pub payload_size_in_bytes: Option<usize>,
    pub body_as_utf8_str: Option<String>,
}

impl HTTPRequestLog {
    /// The canonical line of an HTTP request record: timestamp, level,
    /// `REQUEST`, originating address, API path, method, payload size with
    /// its `B` suffix, body or empty.
    pub open spec fn spec_log_line(self) -> Seq<char> {
        spec_field(self.timestamp.spec_rfc3339()) + " "@ + spec_field(self.log_level.spec_log_str())
            + " "@ + spec_field(LogType::REQUEST.spec_log_str()) + " "@ + spec_field(
            self.originating_ip_addr@,
        ) + " "@ + spec_field(self.api@) + " "@ + spec_field(self.restful_method@) + " "@
            + spec_field(spec_payload_size(self.payload_size_in_bytes) + "B"@) + " "@ + spec_field(
            spec_opt_text(self.body_as_utf8_str),
        )
    }

    /// Renders this record as its canonical line.
    pub fn as_log_str(&self) -> (s: String)
        requires
            self.timestamp.well_formed(),
        ensures
            s@ == self.spec_log_line(),
    {
        let mut s = String::from_str("[");
        let ts = self.timestamp.to_rfc3339();
        s.append(ts.as_str());
        s.append("] [");
        let level = self.log_level.as_log_str();
        s.append(level.as_str());
        s.append("] [");
        let ty = LogType::REQUEST;
        let ty_str = ty.as_log_str();
        s.append(ty_str.as_str());
        s.append("] [");
        s.append(self.originating_ip_addr.as_str());
        s.append("] [");
        s.append(self.api.as_str());
        s.append("] [");
        s.append(self.restful_method.as_str());
        s.append("] [");
        let size = payload_size_string(&self.payload_size_in_bytes);
        s.append(size.as_str());
        s.append("B] [");
        append_opt_text(&mut s, &self.body_as_utf8_str);
        s.append("]");
        proof {
            lemma_http_request_line_shape(*self);
        }
        s
    }

    /// The routing distinction of this record.
    pub open spec fn spec_log_distinction(self) -> LogDistinction {
        LogDistinction::SERVER
    }

    /// Renders the routing distinction of this record.
    pub fn get_log_distinction(&self) -> (s: String)
        ensures
            s@ == self.spec_log_distinction().spec_log_str(),
    {
        let d = LogDistinction::SERVER;
        d.as_log_str()
    }
}

/// The canonical line of an HTTP request record, regrouped into the flat
/// chunk order in which a serializer emits it.
#[verifier::spinoff_prover]
#[verifier::rlimit(100)]
proof fn lemma_http_request_line_shape(r: HTTPRequestLog)
    ensures
        r.spec_log_line() == "["@ + r.timestamp.spec_rfc3339() + "] ["@ + r.log_level.spec_log_str()
            + "] ["@ + LogType::REQUEST.spec_log_str() + "] ["@ + r.originating_ip_addr@ + "] ["@
            + r.api@ + "] ["@ + r.restful_method@ + "] ["@ + spec_payload_size(
            r.payload_size_in_bytes,
        ) + "B] ["@ + spec_opt_text(r.body_as_utf8_str) + "]"@,
{
    reveal_strlit("[");
    reveal_strlit("]");
    reveal_strlit(" ");
    reveal_strlit("] [");
    reveal_strlit("B");
    reveal_strlit("B] [");
    assert(r.spec_log_line() =~= "["@ + r.timestamp.spec_rfc3339() + "] ["@
        + r.log_level.spec_log_str() + "] ["@ + LogType::REQUEST.spec_log_str() + "] ["@
        + r.originating_ip_addr@ + "] ["@ + r.api@ + "] ["@ + r.restful_method@ + "] ["@
        + spec_payload_size(r.payload_size_in_bytes) + "B] ["@ + spec_opt_text(r.body_as_utf8_str)
        + "]"@);
}

/// A record of one HTTP response sent by the server.
pub struct HTTPResponseLog {
    pub timestamp: Timestamp,
    pub log_level: LogLevel,
    pub originating_ip_addr: String,
    pub response_status_code: u16,
    pub body_as_utf8_str: Option<String>,
}

impl HTTPResponseLog {
    /// The canonical line of an HTTP response record: timestamp, level,
    /// `RESPONSE`, originating address, status code, body or empty.
    pub open spec fn spec_log_line(self) -> Seq<char> {
        spec_field(self.timestamp.spec_rfc3339()) + " "@ + spec_field(self.log_level.spec_log_str())
            + " "@ + spec_field(LogType::RESPONSE.spec_log_str()) + " "@ + spec_field(
            self.originating_ip_addr@,
        ) + " "@ + spec_field(dec_digits(self.response_status_code as nat)) + " "@ + spec_field(
            spec_opt_text(self.body_as_utf8_str),
        )
    }

    /// Renders this record as its canonical line.
    pub fn as_log_str(&self) -> (s: String)
        requires
            self.timestamp.well_formed(),
        ensures
            s@ == self.spec_log_line(),
    {
        let mut s = String::from_str("[");
        let ts = self.timestamp.to_rfc3339();
        s.append(ts.as_str());
        s.append("] [");
        let level = self.log_level.as_log_str();
        s.append(level.as_str());
        s.append("] [");
        let ty = LogType::RESPONSE;
        let ty_str = ty.as_log_str();
        s.append(ty_str.as_str());
        s.append("] [");
        s.append(self.originating_ip_addr.as_str());
        s.append("] [");
        let code = u64_to_dec_string(self.response_status_code as u64);
        s.append(code.as_str());
        s.append("] [");
        append_opt_text(&mut s, &self.body_as_utf8_str);
        s.append("]");
        proof {
            reveal_strlit("[");
            reveal_strlit("]");
            reveal_strlit(" ");
            reveal_strlit("] [");
            assert(s@ =~= self.spec_log_line());
        }
        s
    }

    /// The routing distinction of this record.
    pub open spec fn spec_log_distinction(self) -> LogDistinction {
        LogDistinction::SERVER
    }

    /// Renders the routing distinction of this record.
    pub fn get_log_distinction(&self) -> (s: String)
        ensures
            s@ == self.spec_log_distinction().spec_log_str(),
    {
        let d = LogDistinction::SERVER;
        d.as_log_str()
    }
}

/// An absent payload size renders as the single digit `0`; a present one as
/// its plain decimal digits, with no leading zero when it is nonzero.
pub proof fn lemma_payload_size_rendering(p: Option<usize>)
    ensures
        match p {
            None => spec_payload_size(p) == "0"@,
            Some(v) => spec_payload_size(p) == dec_digits(v as nat) && (v > 0
                ==> spec_payload_size(p).first() != '0'),
        },
{
    reveal_strlit("0");
    match p {
        None => {
            assert(spec_payload_size(p) =~= "0"@);
        },
        Some(v) => {
            if v > 0 {
                lemma_dec_digits_no_leading_zero(v as nat);
            }
        },
    }
}

/// An absent text field renders as the empty bracket pair `[]`; a present one
/// renders verbatim between its brackets, with no escaping.
pub proof fn lemma_opt_text_rendering(t: Option<String>)
    ensures
        match t {
            None => spec_field(spec_opt_text(t)) == "[]"@,
            Some(b) => spec_field(spec_opt_text(t)) == "["@ + b@ + "]"@,
        },
{
    match t {
        None => {
            reveal_strlit("[");
            reveal_strlit("]");
            reveal_strlit("[]");
            assert(spec_field(spec_opt_text(t)) =~= "[]"@);
        },
        Some(_) => {
        },
    }
}

/// A sequence of field contents rendered as a line: each field between its
/// own brackets, fields joined by single spaces, in the order given.
pub open spec fn spec_fields_joined(fields: Seq<Seq<char>>) -> Seq<char>
    decreases fields.len(),
{
    if fields.len() == 0 {
        Seq::<char>::empty()
    } else if fields.len() == 1 {
        spec_field(fields.first())
    } else {
        spec_field(fields.first()) + " "@ + spec_fields_joined(fields.drop_first())
    }
}

/// Field order is fixed per variant: the line of a database request record is
/// always the joined rendering of these seven fields in this order, whichever
/// optional fields are populated.
#[verifier::spinoff_prover]
#[verifier::rlimit(100)]
pub proof fn lemma_db_request_field_order(r: DBRequestLog)
    ensures
        r.spec_log_line() == spec_fields_joined(
            seq![
                r.timestamp.spec_rfc3339(),
                r.log_level.spec_log_str(),
                LogType::REQUEST.spec_log_str(),
                r.socket_addr@,
                r.command@,
                spec_opt_text(r.pile),
                spec_payload_size(r.payload_size_in_bytes) + "B"@,
            ],
        ),
{
    reveal_with_fuel(spec_fields_joined, 8);
    assert(r.spec_log_line() =~= spec_fields_joined(
        seq![
            r.timestamp.spec_rfc3339(),
            r.log_level.spec_log_str(),
            LogType::REQUEST.spec_log_str(),
            r.socket_addr@,
            r.command@,
            spec_opt_text(r.pile),
            spec_payload_size(r.payload_size_in_bytes) + "B"@,
        ],
    ));
}

/// Field order is fixed per variant: the line of a database response record
/// is always the joined rendering of these five fields in this order,
/// whichever optional fields are populated.
#[verifier::spinoff_prover]
#[verifier::rlimit(100)]
pub proof fn lemma_db_response_field_order(r: DBResponseLog)
    ensures
        r.spec_log_line() == spec_fields_joined(
            seq![
                r.timestamp.spec_rfc3339(),
                r.log_level.spec_log_str(),
                LogType::RESPONSE.spec_log_str(),
                dec_digits(r.exit_code as nat),
                spec_opt_text(r.message),
            ],
        ),
{
    reveal_with_fuel(spec_fields_joined, 6);
    assert(r.spec_log_line() =~= spec_fields_joined(
        seq![
            r.timestamp.spec_rfc3339(),
            r.log_level.spec_log_str(),
            LogType::RESPONSE.spec_log_str(),
            dec_digits(r.exit_code as nat),
            spec_opt_text(r.message),
        ],
    ));
}

/// Field order is fixed per variant: the line of an HTTP request record is
/// always the joined rendering of these eight fields in this order, whichever
/// optional fields are populated.
#[verifier::spinoff_prover]
#[verifier::rlimit(100)]
pub proof fn lemma_http_request_field_order(r: HTTPRequestLog)
    ensures
        r.spec_log_line() == spec_fields_joined(
            seq![
                r.timestamp.spec_rfc3339(),
                r.log_level.spec_log_str(),
                LogType::REQUEST.spec_log_str(),
                r.originating_ip_addr@,
                r.api@,
                r.restful_method@,
                spec_payload_size(r.payload_size_in_bytes) + "B"@,
                spec_opt_text(r.body_as_utf8_str),
            ],
        ),
{
    reveal_with_fuel(spec_fields_joined, 9);
    assert(r.spec_log_line() =~= spec_fields_joined(
        seq![
            r.timestamp.spec_rfc3339(),
            r.log_level.spec_log_str(),
            LogType::REQUEST.spec_log_str(),
            r.originating_ip_addr@,
            r.api@,
            r.restful_method@,
            spec_payload_size(r.payload_size_in_bytes) + "B"@,
            spec_opt_text(r.body_as_utf8_str),
        ],
    ));
}

/// Field order is fixed per variant: the line of an HTTP response record is
/// always the joined rendering of these six fields in this order, whichever
/// optional fields are populated.
#[verifier::spinoff_prover]
#[verifier::rlimit(100)]
pub proof fn lemma_http_response_field_order(r: HTTPResponseLog)
    ensures
        r.spec_log_line() == spec_fields_joined(
            seq![
                r.timestamp.spec_rfc3339(),
                r.log_level.spec_log_str(),
                LogType::RESPONSE.spec_log_str(),
                r.originating_ip_addr@,
                dec_digits(r.response_status_code as nat),
                spec_opt_text(r.body_as_utf8_str),
            ],
        ),
{
    reveal_with_fuel(spec_fields_joined, 7);
    assert(r.spec_log_line() =~= spec_fields_joined(
        seq![
            r.timestamp.spec_rfc3339(),
            r.log_level.spec_log_str(),
            LogType::RESPONSE.spec_log_str(),
            r.originating_ip_addr@,
            dec_digits(r.response_status_code as nat),
            spec_opt_text(r.body_as_utf8_str),
        ],
    ));
}

/// Serialization of a database request record is deterministic: equal field
/// values give the same canonical line.
pub proof fn lemma_db_request_log_deterministic(a: DBRequestLog, b: DBRequestLog)
    requires
        a.timestamp == b.timestamp,
        a.log_level == b.log_level,
        a.socket_addr@ == b.socket_addr@,
        a.command@ == b.command@,
        spec_opt_text_eq(a.pile, b.pile),
        a.payload_size_in_bytes == b.payload_size_in_bytes,
    ensures
        a.spec_log_line() == b.spec_log_line(),
{
}

/// Serialization of a database response record is deterministic: equal field
/// values give the same canonical line.
pub proof fn lemma_db_response_log_deterministic(a: DBResponseLog, b: DBResponseLog)
    requires
        a.timestamp == b.timestamp,
        a.log_level == b.log_level,
        a.exit_code == b.exit_code,
        spec_opt_text_eq(a.message, b.message),
    ensures
        a.spec_log_line() == b.spec_log_line(),
{
}

/// Serialization of an HTTP request record is deterministic: equal field
/// values give the same canonical line.
pub proof fn lemma_http_request_log_deterministic(a: HTTPRequestLog, b: HTTPRequestLog)
    requires
        a.timestamp == b.timestamp,
        a.log_level == b.log_level,
        a.originating_ip_addr@ == b.originating_ip_addr@,
        a.api@ == b.api@,
        a.restful_method@ == b.restful_method@,
        a.payload_size_in_bytes == b.payload_size_in_bytes,
        spec_opt_text_eq(a.body_as_utf8_str, b.body_as_utf8_str),
    ensures
        a.spec_log_line() == b.spec_log_line(),
{
}

/// Serialization of an HTTP response record is deterministic: equal field
/// values give the same canonical line.
pub proof fn lemma_http_response_log_deterministic(a: HTTPResponseLog, b: HTTPResponseLog)
    requires
        a.timestamp == b.timestamp,
        a.log_level == b.log_level,
        a.originating_ip_addr@ == b.originating_ip_addr@,
        a.response_status_code == b.response_status_code,
        spec_opt_text_eq(a.body_as_utf8_str, b.body_as_utf8_str),
    ensures
        a.spec_log_line() == b.spec_log_line(),
{
}

/// A bracketed field of newline-free content holds no newline.
proof fn lemma_field_newline_free(c: Seq<char>)
    requires
        !c.contains('\n'),
    ensures
        !spec_field(c).contains('\n'),
{
    reveal_strlit("[");
    reveal_strlit("]");
    if "["@.contains('\n') {
        let i = choose|i: int| 0 <= i < "["@.len() && "["@[i] == '\n';
    }
    if "]"@.contains('\n') {
        let i = choose|i: int| 0 <= i < "]"@.len() && "]"@[i] == '\n';
    }
    lemma_add_newline_free("["@, c);
    lemma_add_newline_free("["@ + c, "]"@);
}

/// A join of bracketed newline-free fields holds no newline.
proof fn lemma_joined_newline_free(fields: Seq<Seq<char>>)
    requires
        forall|i: int| 0 <= i < fields.len() ==> !(#[trigger] fields[i]).contains('\n'),
    ensures
        !spec_fields_joined(fields).contains('\n'),
    decreases fields.len(),
{
    reveal_strlit(" ");
    if " "@.contains('\n') {
        let i = choose|i: int| 0 <= i < " "@.len() && " "@[i] == '\n';
    }
    if fields.len() == 0 {
        if spec_fields_joined(fields).contains('\n') {
            let i = choose|i: int|
                0 <= i < spec_fields_joined(fields).len() && spec_fields_joined(fields)[i] == '\n';
        }
    } else if fields.len() == 1 {
        lemma_field_newline_free(fields.first());
    } else {
        lemma_field_newline_free(fields.first());
        assert(forall|i: int|
            0 <= i < fields.drop_first().len() ==> !(#[trigger] fields.drop_first()[i]).contains(
                '\n',
            ));
        lemma_joined_newline_free(fields.drop_first());
        lemma_add_newline_free(spec_field(fields.first()), " "@);
        lemma_add_newline_free(
            spec_field(fields.first()) + " "@,
            spec_fields_joined(fields.drop_first()),
        );
    }
}

/// A payload size field holds no newline, with or without its `B` suffix.
proof fn lemma_payload_size_newline_free(p: Option<usize>)
    ensures
        !spec_payload_size(p).contains('\n'),
        !(spec_payload_size(p) + "B"@).contains('\n'),
{
    reveal_strlit("B");
    match p {
        None => {
            lemma_dec_digits_newline_free(0);
        },
        Some(v) => {
            lemma_dec_digits_newline_free(v as nat);
        },
    }
    if "B"@.contains('\n') {
        let i = choose|i: int| 0 <= i < "B"@.len() && "B"@[i] == '\n';
    }
    lemma_add_newline_free(spec_payload_size(p), "B"@);
}

/// The serializer emits a single line: a database request record whose text
/// fields hold no newline renders with no newline.
pub proof fn lemma_db_request_line_is_single_line(r: DBRequestLog)
    requires
        !r.socket_addr@.contains('\n'),
        !r.command@.contains('\n'),
        !spec_opt_text(r.pile).contains('\n'),
    ensures
        !r.spec_log_line().contains('\n'),
{
    lemma_db_request_field_order(r);
    lemma_rfc3339_newline_free(r.timestamp);
    lemma_log_level_token_newline_free(r.log_level);
    lemma_log_type_token_newline_free(LogType::REQUEST);
    lemma_payload_size_newline_free(r.payload_size_in_bytes);
    lemma_joined_newline_free(
        seq![
            r.timestamp.spec_rfc3339(),
            r.log_level.spec_log_str(),
            LogType::REQUEST.spec_log_str(),
            r.socket_addr@,
            r.command@,
            spec_opt_text(r.pile),
            spec_payload_size(r.payload_size_in_bytes) + "B"@,
        ],
    );
}

/// The serializer emits a single line: a database response record whose
/// message holds no newline renders with no newline.
pub proof fn lemma_db_response_line_is_single_line(r: DBResponseLog)
    requires
        !spec_opt_text(r.message).contains('\n'),
    ensures
        !r.spec_log_line().contains('\n'),
{
    lemma_db_response_field_order(r);
    lemma_rfc3339_newline_free(r.timestamp);
    lemma_log_level_token_newline_free(r.log_level);
    lemma_log_type_token_newline_free(LogType::RESPONSE);
    lemma_dec_digits_newline_free(r.exit_code as nat);
    lemma_joined_newline_free(
        seq![
            r.timestamp.spec_rfc3339(),
            r.log_level.spec_log_str(),
            LogType::RESPONSE.spec_log_str(),
            dec_digits(r.exit_code as nat),
            spec_opt_text(r.message),
        ],
    );
}

/// The serializer emits a single line: an HTTP request record whose text
/// fields hold no newline renders with no newline.
pub proof fn lemma_http_request_line_is_single_line(r: HTTPRequestLog)
    requires
        !r.originating_ip_addr@.contains('\n'),
        !r.api@.contains('\n'),
        !r.restful_method@.contains('\n'),
        !spec_opt_text(r.body_as_utf8_str).contains('\n'),
    ensures
        !r.spec_log_line().contains('\n'),
{
    lemma_http_request_field_order(r);
    lemma_rfc3339_newline_free(r.timestamp);
    lemma_log_level_token_newline_free(r.log_level);
    lemma_log_type_token_newline_free(LogType::REQUEST);
    lemma_payload_size_newline_free(r.payload_size_in_bytes);
    lemma_joined_newline_free(
        seq![
            r.timestamp.spec_rfc3339(),
            r.log_level.spec_log_str(),
            LogType::REQUEST.spec_log_str(),
            r.originating_ip_addr@,
            r.api@,
            r.restful_method@,
            spec_payload_size(r.payload_size_in_bytes) + "B"@,
            spec_opt_text(r.body_as_utf8_str),
        ],
    );
}

/// The serializer emits a single line: an HTTP response record whose text
/// fields hold no newline renders with no newline.
pub proof fn lemma_http_response_line_is_single_line(r: HTTPResponseLog)
    requires
        !r.originating_ip_addr@.contains('\n'),
        !spec_opt_text(r.body_as_utf8_str).contains('\n'),
    ensures
        !r.spec_log_line().contains('\n'),
{
    lemma_http_response_field_order(r);
    lemma_rfc3339_newline_free(r.timestamp);
    lemma_log_level_token_newline_free(r.log_level);
    lemma_log_type_token_newline_free(LogType::RESPONSE);
    lemma_dec_digits_newline_free(r.response_status_code as nat);
    lemma_joined_newline_free(
        seq![
            r.timestamp.spec_rfc3339(),
            r.log_level.spec_log_str(),
            LogType::RESPONSE.spec_log_str(),
            r.originating_ip_addr@,
            dec_digits(r.response_status_code as nat),
            spec_opt_text(r.body_as_utf8_str),
        ],
    );
}

} // verus!
