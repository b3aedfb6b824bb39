//! The decisions of the HTTP service: session registration, and the checks
//! and replies of the BRM endpoints, as functions from the request's plain
//! values (and the current state) to a status and a reply body.
use vstd::prelude::*;
use vstd::string::*;

use crate::fields::{
    after_load, field_views, get_session_fields, load_obrm_fields, load_table, text_with_number, Field,
    SessionStore,
};
use crate::flist::{ccode_ok, ccode_spec, convert_flist2code, convert_flist2xml, initial_state, xml_ok, xml_spec};
use crate::number::{nat_chars, nat_str};
use crate::podl::{class_podl, class_run, class_run_ok, convert_class_spec_to_podl, convert_fld_spec_to_podl, fld_spec_podl};
use crate::text::{
    all_whitespace, char_views, chars_of, has_prefix, join, join_strings, lines, lines_chars,
    push_chars, push_string, split, split_chars, starts_with_chars, str_views, string_of, trim,
    trim_chars, chars_are, lowercase, to_lowercase,
};

verus! {

/// The HTTP status of a reply.
#[derive(Debug, Clone, Copy, PartialEq, Eq, Structural)]
pub enum HttpStatus {
    Success,
    BadRequest,
    NotFound,
    Conflict,
    InternalServerError,
}

/// The JSON envelope of most replies.
#[derive(Debug)]
pub struct ApiResponse<T> {
    pub success: bool,
    pub message: String,
    pub data: Option<T>,
}

impl<T> ApiResponse<T> {
    /// A successful reply with a message and optional data.
    pub fn success(message: &str, data: Option<T>) -> (r: Self)
        ensures
            r.success,
            r.message@ == message@,
            r.data == data,
    {
        ApiResponse { success: true, message: String::from_str(message), data: data }
    }

    /// A failed reply with a message and no data.
    pub fn error(message: &str) -> (r: Self)
        ensures
            !r.success,
            r.message@ == message@,
            r.data is None,
    {
        ApiResponse { success: false, message: String::from_str(message), data: None }
    }
}

/// The reply to a request to load fields.
#[derive(Debug)]
pub struct LoadFieldsResponse {
    pub success: bool,
    pub message: String,
    pub field_count: usize,
    pub session_id: String,
}

/// The reply to a conversion request.
#[derive(Debug)]
pub struct PodlConversionResponse {
    pub success: bool,
    pub message: String,
    pub podl_content: String,
}

/// The configuration of the request logging middleware: the log file.
#[derive(Debug)]
pub struct RequestResponseLogger {
    pub log_file: String,
}

impl RequestResponseLogger {
    /// A logger writing to `log_file`.
    pub fn new(log_file: String) -> (r: Self)
        ensures
            r.log_file == log_file,
    {
        RequestResponseLogger { log_file }
    }
}

/// The request logging middleware around one service: the service and the
/// log file.
pub struct RequestResponseLoggerMiddleware<S> {
    pub service: S,
    pub log_file: String,
}

/// The line logged when a request arrives: its time, method, URI and peer,
/// each as text.
pub fn request_log_line(time: &str, method: &str, uri: &str, peer: &str) -> (r: String)
    ensures
        r@ == "["@ + time@ + "] REQUEST: "@ + method@ + " "@ + uri@ + " from "@ + peer@,
{
    let mut r = String::from_str("[");
    r.append(time);
    r.append("] REQUEST: ");
    r.append(method);
    r.append(" ");
    r.append(uri);
    r.append(" from ");
    r.append(peer);
    r
}

/// The line logged when a reply leaves: its time, the request's method and
/// URI, the status code and the status's reason phrase.
pub fn response_log_line(time: &str, method: &str, uri: &str, status: u16, reason: &str) -> (r:
    String)
    ensures
        r@ == "["@ + time@ + "] RESPONSE: "@ + method@ + " "@ + uri@ + " -> "@ + nat_str(
            status as nat,
        ) + " "@ + reason@,
{
    let mut r = String::from_str("[");
    r.append(time);
    r.append("] RESPONSE: ");
    r.append(method);
    r.append(" ");
    r.append(uri);
    let code = text_with_number(" -> ", status as u64, " ");
    r.append(code.as_str());
    r.append(reason);
    r
}

/// The levels of log messages that the server lets through.
#[derive(Debug, Clone, Copy, PartialEq, Eq, Structural)]
pub enum LogLevel {
    Error,
    Warn,
    Info,
    Debug,
    Trace,
}

/// The level that a configured name selects, the name given in lower case:
/// `error`, `warn`, `info`, `debug` or `trace`; any other name selects
/// `Info`.
pub open spec fn level_named(lower: Seq<char>) -> LogLevel {
    if lower == "error"@ {
        LogLevel::Error
    } else if lower == "warn"@ {
        LogLevel::Warn
    } else if lower == "info"@ {
        LogLevel::Info
    } else if lower == "debug"@ {
        LogLevel::Debug
    } else if lower == "trace"@ {
        LogLevel::Trace
    } else {
        LogLevel::Info
    }
}

/// Compute `level_named` of a name already in lower case.
pub fn level_of_lowercase(lower: &str) -> (r: LogLevel)
    ensures
        r == level_named(lower@),
{
    let v = chars_of(lower);
    if chars_are(&v, "error") {
        LogLevel::Error
    } else if chars_are(&v, "warn") {
        LogLevel::Warn
    } else if chars_are(&v, "info") {
        LogLevel::Info
    } else if chars_are(&v, "debug") {
        LogLevel::Debug
    } else if chars_are(&v, "trace") {
        LogLevel::Trace
    } else {
        LogLevel::Info
    }
}

/// The log level that a configuration names, in any letter case: the name
/// is lowered (`str::to_lowercase`) and then read as `level_named` says.
pub fn log_level(name: &str) -> (r: LogLevel)
    ensures
        r == level_named(lowercase(name@)),
{
    let lower = to_lowercase(name);
    level_of_lowercase(lower.as_str())
}

/// A registered session: its id, when it was created (seconds and
/// nanoseconds since the Unix epoch, UTC), and whether it is active.
#[derive(Debug, Clone)]
pub struct Session {
    pub session_id: String,
    pub created_secs: i64,
    pub created_nanos: u32,
    pub is_active: bool,
}

/// What a session holds.
pub struct SessionView {
    pub id: Seq<char>,
    pub created_secs: i64,
    pub created_nanos: u32,
    pub is_active: bool,
}

impl View for Session {
    type V = SessionView;

    open spec fn view(&self) -> SessionView {
        SessionView {
            id: self.session_id@,
            created_secs: self.created_secs,
            created_nanos: self.created_nanos,
            is_active: self.is_active,
        }
    }
}

/// A copy of a session.
fn copy_session(s: &Session) -> (r: Session)
    ensures
        r@ == s@,
{
    Session {
        session_id: s.session_id.clone(),
        created_secs: s.created_secs,
        created_nanos: s.created_nanos,
        is_active: s.is_active,
    }
}

/// The status of a session as reported: its id, whether it is valid, and
/// when it was created (for a valid one).
#[derive(Debug)]
pub struct SessionStatus {
    pub session_id: String,
    pub is_valid: bool,
    pub created_at: Option<(i64, u32)>,
}

/// The registered sessions, in order of registration.
pub struct SessionRegistry {
    pub sessions: Vec<Session>,
}

/// The views of a sequence of sessions.
pub open spec fn session_views(v: Seq<Session>) -> Seq<SessionView> {
    v.map_values(|s: Session| s@)
}

/// The first position at or after `i` of session `id`.
pub open spec fn reg_index_from(s: Seq<SessionView>, id: Seq<char>, i: int) -> Option<int>
    decreases s.len() - i,
{
    if i < 0 || i >= s.len() {
        None
    } else if s[i].id == id {
        Some(i)
    } else {
        reg_index_from(s, id, i + 1)
    }
}

/// `reg_index_from` gives the first match.
pub proof fn lemma_reg_index_from(s: Seq<SessionView>, id: Seq<char>, i: int)
    requires
        0 <= i,
    ensures
        reg_index_from(s, id, i) matches Some(k) ==> i <= k < s.len() && s[k].id == id && forall|
            j: int,
        | i <= j < k ==> s[j].id != id,
        reg_index_from(s, id, i) is None ==> forall|j: int| i <= j < s.len() ==> s[j].id != id,
    decreases s.len() - i,
{
    if i < s.len() && s[i].id != id {
        lemma_reg_index_from(s, id, i + 1);
    }
}

/// The session registered as `id`.
pub open spec fn reg_lookup(s: Seq<SessionView>, id: Seq<char>) -> Option<SessionView> {
    match reg_index_from(s, id, 0) {
        Some(i) => Some(s[i]),
        None => None,
    }
}

/// The sessions without the one registered as `id`.
pub open spec fn reg_remove(s: Seq<SessionView>, id: Seq<char>) -> Seq<SessionView> {
    match reg_index_from(s, id, 0) {
        Some(i) => s.remove(i),
        None => s,
    }
}

impl SessionRegistry {
    /// The registered sessions, as values.
    pub open spec fn view_seq(&self) -> Seq<SessionView> {
        session_views(self.sessions@)
    }

    /// No sessions.
    pub fn new() -> (r: Self)
        ensures
            r.view_seq() == Seq::<SessionView>::empty(),
    {
        let r = SessionRegistry { sessions: Vec::new() };
        assert(r.view_seq() =~= Seq::<SessionView>::empty());
        r
    }

    /// The position of session `id`.
    fn find(&self, id: &String) -> (r: Option<usize>)
        ensures
            r matches Some(i) ==> reg_index_from(self.view_seq(), id@, 0) == Some(i as int) && i
                < self.sessions@.len(),
            r is None ==> reg_index_from(self.view_seq(), id@, 0) is None,
    {
        let n = self.sessions.len();
        let mut i: usize = 0;
        while i < n
            invariant
                n == self.sessions@.len(),
                i <= n,
                reg_index_from(self.view_seq(), id@, 0) == reg_index_from(
                    self.view_seq(),
                    id@,
                    i as int,
                ),
            decreases n - i,
        {
            assert(self.view_seq()[i as int] == self.sessions@[i as int]@);
            if self.sessions[i].session_id == *id {
                return Some(i);
            }
            i = i + 1;
        }
        None
    }
}

/// Register a session, created at the given time. An id that is blank is
/// refused (bad request); an id already registered is refused (conflict);
/// otherwise the session is added, active.
pub fn register_session(
    reg: &mut SessionRegistry,
    session_id: String,
    created_secs: i64,
    created_nanos: u32,
) -> (r: (HttpStatus, ApiResponse<Session>))
    ensures
        trim(session_id@).len() == 0 ==> {
            &&& r.0 == HttpStatus::BadRequest
            &&& !r.1.success && r.1.message@ == "Session ID cannot be empty"@ && r.1.data is None
            &&& final(reg).view_seq() == old(reg).view_seq()
        },
        trim(session_id@).len() != 0 && reg_lookup(old(reg).view_seq(), session_id@) is Some ==> {
            &&& r.0 == HttpStatus::Conflict
            &&& !r.1.success && r.1.message@ == "Session already exists"@ && r.1.data is None
            &&& final(reg).view_seq() == old(reg).view_seq()
        },
        trim(session_id@).len() != 0 && reg_lookup(old(reg).view_seq(), session_id@) is None ==> {
            let s = SessionView {
                id: session_id@,
                created_secs: created_secs,
                created_nanos: created_nanos,
                is_active: true,
            };
            &&& r.0 == HttpStatus::Success
            &&& r.1.success && r.1.message@ == "Session registered successfully"@
            &&& r.1.data matches Some(d) && d@ == s
            &&& final(reg).view_seq() == old(reg).view_seq().push(s)
        },
{
    if trim_chars(&chars_of(session_id.as_str())).len() == 0 {
        return (HttpStatus::BadRequest, ApiResponse::error("Session ID cannot be empty"));
    }
    proof {
        lemma_reg_index_from(reg.view_seq(), session_id@, 0);
    }
    if reg.find(&session_id).is_some() {
        return (HttpStatus::Conflict, ApiResponse::error("Session already exists"));
    }
    let session = Session {
        session_id: session_id,
        created_secs: created_secs,
        created_nanos: created_nanos,
        is_active: true,
    };
    let stored = copy_session(&session);
    let ghost before = reg.view_seq();
    reg.sessions.push(stored);
    assert(reg.view_seq() =~= before.push(session@));
    (HttpStatus::Success, ApiResponse::success("Session registered successfully", Some(session)))
}

/// The status of a session: valid with its creation time where it is
/// registered and active, not valid where it is inactive, not found (with
/// status 404) where it is not registered.
pub fn get_session_status(reg: &SessionRegistry, session_id: String) -> (r: (
    HttpStatus,
    ApiResponse<SessionStatus>,
))
    ensures
        r.1.success,
        r.1.data matches Some(st) && st.session_id@ == session_id@,
        r.1.data matches Some(st) && (st.is_valid <==> st.created_at is Some),
        match reg_lookup(reg.view_seq(), session_id@) {
            Some(s) => if s.is_active {
                &&& r.0 == HttpStatus::Success
                &&& r.1.message@ == "Session is valid"@
                &&& r.1.data matches Some(st) && st.is_valid && st.created_at == Some(
                    (s.created_secs, s.created_nanos),
                )
            } else {
                &&& r.0 == HttpStatus::Success
                &&& r.1.message@ == "Session exists but is inactive"@
                &&& r.1.data matches Some(st) && !st.is_valid && st.created_at is None
            },
            None => {
                &&& r.0 == HttpStatus::NotFound
                &&& r.1.message@ == "Session not found"@
                &&& r.1.data matches Some(st) && !st.is_valid && st.created_at is None
            },
        },
{
    match reg.find(&session_id) {
        Some(i) => {
            assert(reg.view_seq()[i as int] == reg.sessions@[i as int]@);
            let s = &reg.sessions[i];
            if s.is_active {
                let status = SessionStatus {
                    session_id: session_id,
                    is_valid: true,
                    created_at: Some((s.created_secs, s.created_nanos)),
                };
                (HttpStatus::Success, ApiResponse::success("Session is valid", Some(status)))
            } else {
                let status = SessionStatus {
                    session_id: session_id,
                    is_valid: false,
                    created_at: None,
                };
                (
                    HttpStatus::Success,
                    ApiResponse::success("Session exists but is inactive", Some(status)),
                )
            }
        },
        None => {
            let status = SessionStatus { session_id: session_id, is_valid: false, created_at: None };
            (HttpStatus::NotFound, ApiResponse::success("Session not found", Some(status)))
        },
    }
}

/// Remove a session, replying with it; not found (404) where it is not
/// registered.
pub fn unregister_session(reg: &mut SessionRegistry, session_id: String) -> (r: (
    HttpStatus,
    ApiResponse<Session>,
))
    ensures
        final(reg).view_seq() == reg_remove(old(reg).view_seq(), session_id@),
        match reg_lookup(old(reg).view_seq(), session_id@) {
            Some(s) => {
                &&& r.0 == HttpStatus::Success
                &&& r.1.success && r.1.message@ == "Session unregistered successfully"@
                &&& r.1.data matches Some(d) && d@ == s
            },
            None => {
                &&& r.0 == HttpStatus::NotFound
                &&& !r.1.success && r.1.message@ == "Session not found"@ && r.1.data is None
            },
        },
{
    match reg.find(&session_id) {
        Some(i) => {
            let ghost before = reg.view_seq();
            let s = reg.sessions.remove(i);
            assert(reg.view_seq() =~= before.remove(i as int));
            (HttpStatus::Success, ApiResponse::success("Session unregistered successfully", Some(s)))
        },
        None => (HttpStatus::NotFound, ApiResponse::error("Session not found")),
    }
}

/// The health check reply.
pub fn health_check() -> (r: (HttpStatus, ApiResponse<String>))
    ensures
        r.0 == HttpStatus::Success,
        r.1.success,
        r.1.message@ == "Server is running"@,
        r.1.data matches Some(d) && d@ == "OK"@,
{
    (HttpStatus::Success, ApiResponse::success("Server is running", Some(String::from_str("OK"))))
}

/// A text is blank: empty after trimming.
pub open spec fn blank(s: Seq<char>) -> bool {
    trim(s).len() == 0
}

/// Decide `blank`.
pub fn is_blank(s: &String) -> (r: bool)
    ensures
        r == blank(s@),
{
    trim_chars(&chars_of(s.as_str())).len() == 0
}

/// Load fields for a session: a blank session id or body is a bad request;
/// otherwise the fields are loaded (see `load_obrm_fields`) and the reply
/// gives the load message and the number of fields of the session.
pub fn load_obrm_fields_handler(store: &mut SessionStore, session_id: String, body: String) -> (r: (
    HttpStatus,
    LoadFieldsResponse,
))
    ensures
        r.1.session_id@ == session_id@,
        blank(session_id@) ==> r.0 == HttpStatus::BadRequest && !r.1.success && r.1.message@
            == "Session ID cannot be empty"@ && r.1.field_count == 0 && *final(store) == *old(
            store,
        ),
        !blank(session_id@) && blank(body@) ==> r.0 == HttpStatus::BadRequest && !r.1.success
            && r.1.message@ == "Request body cannot be empty"@ && r.1.field_count == 0
            && *final(store) == *old(store),
        !blank(session_id@) && !blank(body@) ==> {
            &&& r.0 == HttpStatus::Success
            &&& r.1.success
            &&& r.1.field_count == final(store).table(session_id@).len()
            &&& final(store).table(session_id@) == after_load(old(store).table(session_id@), body@)
            &&& old(store).table(session_id@).len() == 0 ==> r.1.message@ == "Fields ("@ + nat_str(
                load_table(lines(body@)).len(),
            ) + ") loaded!!!"@
            &&& old(store).table(session_id@).len() != 0 ==> r.1.message@ == "Fields ("@ + nat_str(
                old(store).table(session_id@).len(),
            ) + ") already loaded!!!"@
            &&& forall|k: Seq<char>|
                k != session_id@ ==> #[trigger] final(store).table(k) == old(store).table(k)
        },
{
    if is_blank(&session_id) {
        return (
            HttpStatus::BadRequest,
            LoadFieldsResponse {
                success: false,
                message: String::from_str("Session ID cannot be empty"),
                field_count: 0,
                session_id: session_id,
            },
        );
    }
    if is_blank(&body) {
        return (
            HttpStatus::BadRequest,
            LoadFieldsResponse {
                success: false,
                message: String::from_str("Request body cannot be empty"),
                field_count: 0,
                session_id: session_id,
            },
        );
    }
    let result = load_obrm_fields(store, session_id.as_str(), body);
    let fields = get_session_fields(store, session_id.as_str());
    (
        HttpStatus::Success,
        LoadFieldsResponse {
            success: true,
            message: result,
            field_count: fields.len(),
            session_id: session_id,
        },
    )
}

/// The fields loaded for a session; not found (404) where there are none.
pub fn get_session_fields_handler(store: &SessionStore, session_id: String) -> (r: (
    HttpStatus,
    ApiResponse<Vec<Field>>,
))
    ensures
        store.table(session_id@).len() == 0 ==> r.0 == HttpStatus::NotFound && !r.1.success
            && r.1.message@ == "No fields loaded for this session"@ && r.1.data is None,
        store.table(session_id@).len() != 0 ==> r.0 == HttpStatus::Success && r.1.success
            && r.1.message@ == "Fields retrieved successfully"@ && (r.1.data matches Some(v)
            && field_views(v@) == store.table(session_id@)),
{
    let fields = get_session_fields(store, session_id.as_str());
    if fields.len() == 0 {
        return (HttpStatus::NotFound, ApiResponse::error("No fields loaded for this session"));
    }
    (HttpStatus::Success, ApiResponse::success("Fields retrieved successfully", Some(fields)))
}

/// A conversion reply.
pub open spec fn conversion_reply(
    r: (HttpStatus, PodlConversionResponse),
    status: HttpStatus,
    success: bool,
    message: Seq<char>,
    content: Seq<char>,
) -> bool {
    &&& r.0 == status
    &&& r.1.success == success
    &&& r.1.message@ == message
    &&& r.1.podl_content@ == content
}

/// Make a conversion reply.
fn reply(status: HttpStatus, success: bool, message: String, content: String) -> (r: (
    HttpStatus,
    PodlConversionResponse,
))
    ensures
        conversion_reply(r, status, success, message@, content@),
{
    (status, PodlConversionResponse { success, message, podl_content: content })
}

/// The refusal that every conversion request gets before any conversion,
/// if any: a blank session id or body, or a session with no fields loaded.
pub open spec fn request_refusal(t_len: nat, session_id: Seq<char>, body: Seq<char>) -> Option<
    Seq<char>,
> {
    if blank(session_id) {
        Some("Session ID cannot be empty"@)
    } else if blank(body) {
        Some("Request body cannot be empty"@)
    } else if t_len == 0 {
        Some("Please load BRM fields first using the load_obrm_fields endpoint"@)
    } else {
        None
    }
}

/// Check a conversion request: the bad-request reply where it is refused.
pub fn check_conversion_request(store: &SessionStore, session_id: &String, body: &String) -> (r:
    Option<(HttpStatus, PodlConversionResponse)>)
    ensures
        match request_refusal(store.table(session_id@).len(), session_id@, body@) {
            Some(m) => r matches Some(x) && conversion_reply(
                x,
                HttpStatus::BadRequest,
                false,
                m,
                Seq::empty(),
            ),
            None => r is None,
        },
{
    let msg = if is_blank(session_id) {
        "Session ID cannot be empty"
    } else if is_blank(body) {
        "Request body cannot be empty"
    } else if store.field_count(session_id.as_str()) == 0 {
        "Please load BRM fields first using the load_obrm_fields endpoint"
    } else {
        return None;
    };
    Some(reply(HttpStatus::BadRequest, false, String::from_str(msg), String::new()))
}

/// The non-blank lines of a field specification.
pub open spec fn spec_lines(body: Seq<char>) -> Seq<Seq<char>> {
    lines(body).filter(|l: Seq<char>| !blank(l))
}

/// The complaints about the lines of a field specification with fewer than
/// four `|`-separated parts: `Line <n>: <line>`, numbered among the
/// non-blank lines from 1, from line `i` on.
pub open spec fn invalid_lines_from(ls: Seq<Seq<char>>, i: int) -> Seq<Seq<char>>
    decreases ls.len() - i,
{
    if i < 0 || i >= ls.len() {
        Seq::empty()
    } else {
        let rest = invalid_lines_from(ls, i + 1);
        if split(ls[i], seq!['|']).len() < 4 {
            seq!["Line "@ + nat_str((i + 1) as nat) + ": "@ + ls[i]] + rest
        } else {
            rest
        }
    }
}

/// Convert a field specification for a session: refused as
/// `request_refusal` says; refused where a non-blank line has fewer than
/// four parts, listing those lines; otherwise the PODL, with the number of
/// non-blank lines in the message.
pub fn convert_fld_spec_to_podl_handler(store: &SessionStore, session_id: String, body: String) -> (r:
    (HttpStatus, PodlConversionResponse))
    ensures
        ({
            let ls = spec_lines(body@);
            let bad = invalid_lines_from(ls, 0);
            match request_refusal(store.table(session_id@).len(), session_id@, body@) {
                Some(m) => conversion_reply(r, HttpStatus::BadRequest, false, m, Seq::empty()),
                None => if bad.len() > 0 {
                    conversion_reply(
                        r,
                        HttpStatus::BadRequest,
                        false,
                        "Invalid format. Lines should have format 'field_name|description|data_type|field_id'. Invalid lines: "@
                            + join(bad, ", "@),
                        Seq::empty(),
                    )
                } else if has_prefix(fld_spec_podl(body@), "Please load BRM fields first"@) {
                    conversion_reply(
                        r,
                        HttpStatus::BadRequest,
                        false,
                        fld_spec_podl(body@),
                        Seq::empty(),
                    )
                } else {
                    conversion_reply(
                        r,
                        HttpStatus::Success,
                        true,
                        "Successfully converted "@ + nat_str(ls.len())
                            + " field specifications to PODL format for session "@ + session_id@,
                        fld_spec_podl(body@),
                    )
                },
            }
        }),
{
    match check_conversion_request(store, &session_id, &body) {
        Some(x) => {
            return x;
        },
        None => {},
    }
    let all = lines_chars(&chars_of(body.as_str()));
    let ghost allv = char_views(all@);
    // The non-blank lines.
    let mut kept: Vec<Vec<char>> = Vec::new();
    let n = all.len();
    for i in 0..n
        invariant
            n == all@.len(),
            allv == char_views(all@),
            allv == lines(body@),
            char_views(kept@) == allv.take(i as int).filter(|l: Seq<char>| !blank(l)),
    {
        assert(allv.take(i + 1).drop_last() =~= allv.take(i as int));
        assert(allv[i as int] == all@[i as int]@);
        let t = trim_chars(&all[i]);
        let ghost before = char_views(kept@);
        if t.len() != 0 {
            let c = crate::text::sub_chars(&all[i], 0, all[i].len());
            assert(c@ =~= all@[i as int]@);
            kept.push(c);
            assert(char_views(kept@) =~= before.push(allv[i as int]));
        }
        proof {
            reveal_with_fuel(Seq::<Seq<char>>::filter, 1);
            assert(allv.take(i + 1).last() == allv[i as int]);
        }
    }
    assert(allv.take(n as int) =~= allv);
    let ghost ls = spec_lines(body@);
    assert(char_views(kept@) == ls);
    // Complaints about the lines with fewer than four parts, built from the
    // last line back.
    let bar = vec!['|'];
    assert(bar@ =~= seq!['|']);
    let mut bad_rev: Vec<String> = Vec::new();
    let k = kept.len();
    let mut j = k;
    while j > 0
        invariant
            j <= k,
            k == kept@.len(),
            ls == char_views(kept@),
            bar@ == seq!['|'],
            str_views(bad_rev@).reverse() == invalid_lines_from(ls, j as int),
        decreases j,
    {
        j = j - 1;
        assert(ls[j as int] == kept@[j as int]@);
        let parts = split_chars(&kept[j], &bar);
        if parts.len() < 4 {
            let mut m = String::from_str("Line ");
            push_chars(&mut m, &nat_chars((j + 1) as u64));
            m.append(": ");
            push_chars(&mut m, &kept[j]);
            let ghost before = str_views(bad_rev@);
            let ghost mv = m@;
            push_string(&mut bad_rev, m);
            assert(str_views(bad_rev@).reverse() =~= seq![mv] + before.reverse());
        }
    }
    let mut bad: Vec<String> = Vec::new();
    let mut q = bad_rev.len();
    let ghost rv = str_views(bad_rev@);
    while q > 0
        invariant
            q <= rv.len(),
            rv == str_views(bad_rev@),
            str_views(bad@) == rv.reverse().take((rv.len() - q) as int),
        decreases q,
    {
        q = q - 1;
        let ghost before = str_views(bad@);
        push_string(&mut bad, bad_rev[q].clone());
        assert(str_views(bad@) =~= rv.reverse().take((rv.len() - q) as int));
    }
    assert(rv.reverse().take(rv.len() as int) =~= rv.reverse());
    if bad.len() > 0 {
        let mut msg = String::from_str(
            "Invalid format. Lines should have format 'field_name|description|data_type|field_id'. Invalid lines: ",
        );
        let listed = join_strings(&bad, ", ");
        msg.append(listed.as_str());
        return reply(HttpStatus::BadRequest, false, msg, String::new());
    }
    let podl_content = convert_fld_spec_to_podl(store, session_id.as_str(), body);
    if starts_with_chars(
        &chars_of(podl_content.as_str()),
        &chars_of("Please load BRM fields first"),
    ) {
        return reply(HttpStatus::BadRequest, false, podl_content, String::new());
    }
    let mut msg = String::from_str("Successfully converted ");
    push_chars(&mut msg, &nat_chars(kept.len() as u64));
    msg.append(" field specifications to PODL format for session ");
    msg.append(session_id.as_str());
    reply(HttpStatus::Success, true, msg, podl_content)
}

/// Convert a class specification for a session: refused as
/// `request_refusal` says; refused where the conversion answers with a
/// message (no class line came); otherwise the PODL.
pub fn convert_class_spec_to_podl_handler(store: &SessionStore, session_id: String, body: String) -> (r:
    (HttpStatus, PodlConversionResponse))
    requires
        request_refusal(store.table(session_id@).len(), session_id@, body@) is None
            ==> class_run_ok(body@),
    ensures
        match request_refusal(store.table(session_id@).len(), session_id@, body@) {
            Some(m) => conversion_reply(r, HttpStatus::BadRequest, false, m, Seq::empty()),
            None => {
                let podl = class_podl(class_run(store.table(session_id@), body@));
                if has_prefix(podl, "Please load fields first"@) || podl == "No data found"@ {
                    conversion_reply(r, HttpStatus::BadRequest, false, podl, Seq::empty())
                } else {
                    conversion_reply(
                        r,
                        HttpStatus::Success,
                        true,
                        "Successfully converted class specification to PODL format for session "@
                            + session_id@,
                        podl,
                    )
                }
            },
        },
{
    match check_conversion_request(store, &session_id, &body) {
        Some(x) => {
            return x;
        },
        None => {},
    }
    let podl_content = convert_class_spec_to_podl(store, session_id.as_str(), body);
    let pv = chars_of(podl_content.as_str());
    if starts_with_chars(&pv, &chars_of("Please load fields first")) || chars_are(
        &pv,
        "No data found",
    ) {
        return reply(HttpStatus::BadRequest, false, podl_content, String::new());
    }
    let mut msg = String::from_str(
        "Successfully converted class specification to PODL format for session ",
    );
    msg.append(session_id.as_str());
    reply(HttpStatus::Success, true, msg, podl_content)
}

/// Convert an FLIST dump to C code for a session: refused as
/// `request_refusal` says; otherwise the C code.
pub fn convert_flist2code_handler(store: &SessionStore, session_id: String, body: String) -> (r: (
    HttpStatus,
    PodlConversionResponse,
))
    requires
        request_refusal(store.table(session_id@).len(), session_id@, body@) is None ==> ccode_ok(
            initial_state(),
            body@,
            "s_flistp"@,
        ),
    ensures
        match request_refusal(store.table(session_id@).len(), session_id@, body@) {
            Some(m) => conversion_reply(r, HttpStatus::BadRequest, false, m, Seq::empty()),
            None => conversion_reply(
                r,
                HttpStatus::Success,
                true,
                "Successfully converted FLIST to C code for session "@ + session_id@,
                ccode_spec(initial_state(), body@, "s_flistp"@).c_code,
            ),
        },
{
    match check_conversion_request(store, &session_id, &body) {
        Some(x) => {
            return x;
        },
        None => {},
    }
    let c_code = convert_flist2code(body);
    let mut msg = String::from_str("Successfully converted FLIST to C code for session ");
    msg.append(session_id.as_str());
    reply(HttpStatus::Success, true, msg, c_code)
}

/// Convert an FLIST dump to XML for a session: refused as `request_refusal`
/// says; otherwise the XML.
pub fn convert_flist2xml_handler(store: &SessionStore, session_id: String, body: String) -> (r: (
    HttpStatus,
    PodlConversionResponse,
))
    requires
        request_refusal(store.table(session_id@).len(), session_id@, body@) is None ==> xml_ok(
            initial_state(),
            body@,
        ),
    ensures
        match request_refusal(store.table(session_id@).len(), session_id@, body@) {
            Some(m) => conversion_reply(r, HttpStatus::BadRequest, false, m, Seq::empty()),
            None => conversion_reply(
                r,
                HttpStatus::Success,
                true,
                "Successfully converted FLIST to XML for session "@ + session_id@,
                xml_spec(initial_state(), body@).xml_code,
            ),
        },
{
    match check_conversion_request(store, &session_id, &body) {
        Some(x) => {
            return x;
        },
        None => {},
    }
    let xml = convert_flist2xml(body);
    let mut msg = String::from_str("Successfully converted FLIST to XML for session ");
    msg.append(session_id.as_str());
    reply(HttpStatus::Success, true, msg, xml)
}

/// The reply to a JSON conversion whose JSON was produced.
pub fn flist2json_reply(session_id: String, json: String) -> (r: (HttpStatus, PodlConversionResponse))
    ensures
        conversion_reply(
            r,
            HttpStatus::Success,
            true,
            "Successfully converted FLIST to JSON for session "@ + session_id@,
            json@,
        ),
{
    let mut msg = String::from_str("Successfully converted FLIST to JSON for session ");
    msg.append(session_id.as_str());
    reply(HttpStatus::Success, true, msg, json)
}

/// Where a call stack request failed: no archive came, no trace was found
/// in it, the trace could not be read, or the report could not be packed.
#[derive(Debug, Clone, Copy, PartialEq, Eq, Structural)]
pub enum CallStackStage {
    NoUpload,
    Extract,
    Parse,
    Package,
}

/// The JSON body of a failed call stack request.
#[derive(Debug)]
pub struct CallStackFailure {
    pub success: bool,
    pub message: String,
    pub details: String,
}

/// The status, message and details of a call stack request that failed at
/// `stage` with the error text `error` (unused where no archive came).
pub open spec fn call_stack_failure_spec(stage: CallStackStage, error: Seq<char>) -> (
    HttpStatus,
    Seq<char>,
    Seq<char>,
) {
    match stage {
        CallStackStage::NoUpload => (
            HttpStatus::BadRequest,
            "No ZIP file uploaded or file is empty"@,
            "Please upload a valid ZIP file containing callstack data"@,
        ),
        CallStackStage::Extract => (
            HttpStatus::BadRequest,
            "Failed to extract callstack from ZIP: "@ + error,
            "Ensure the ZIP contains a .txt, .log, or .trace file with Enter/Exit statements"@,
        ),
        CallStackStage::Parse => (
            HttpStatus::BadRequest,
            "Failed to parse callstack: "@ + error,
            "Ensure the callstack follows the format: timestamp dots Enter/Exit operation (returncode)"@,
        ),
        CallStackStage::Package => (
            HttpStatus::InternalServerError,
            "Failed to create ZIP file: "@ + error,
            "Internal error during ZIP file creation"@,
        ),
    }
}

/// The reply to a call stack request that failed (see
/// `call_stack_failure_spec`).
pub fn call_stack_failure(stage: CallStackStage, error: &str) -> (r: (HttpStatus, CallStackFailure))
    ensures
        !r.1.success,
        (r.0, r.1.message@, r.1.details@) == call_stack_failure_spec(stage, error@),
{
    let (status, message, details) = match stage {
        CallStackStage::NoUpload => (
            HttpStatus::BadRequest,
            String::from_str("No ZIP file uploaded or file is empty"),
            "Please upload a valid ZIP file containing callstack data",
        ),
        CallStackStage::Extract => {
            let mut m = String::from_str("Failed to extract callstack from ZIP: ");
            m.append(error);
            (
                HttpStatus::BadRequest,
                m,
                "Ensure the ZIP contains a .txt, .log, or .trace file with Enter/Exit statements",
            )
        },
        CallStackStage::Parse => {
            let mut m = String::from_str("Failed to parse callstack: ");
            m.append(error);
            (
                HttpStatus::BadRequest,
                m,
                "Ensure the callstack follows the format: timestamp dots Enter/Exit operation (returncode)",
            )
        },
        CallStackStage::Package => {
            let mut m = String::from_str("Failed to create ZIP file: ");
            m.append(error);
            (HttpStatus::InternalServerError, m, "Internal error during ZIP file creation")
        },
    };
    (status, CallStackFailure { success: false, message, details: String::from_str(details) })
}

} // verus!
