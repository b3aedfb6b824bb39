use oneclick_brm::fields::SessionStore;
use oneclick_brm::service::{
    check_conversion_request, convert_class_spec_to_podl_handler, convert_flist2code_handler,
    convert_flist2xml_handler, convert_fld_spec_to_podl_handler, flist2json_reply,
    get_session_fields_handler, get_session_status, health_check, is_blank,
    load_obrm_fields_handler, register_session, unregister_session, ApiResponse, HttpStatus,
    RequestResponseLogger, SessionRegistry,
};

fn loaded() -> SessionStore {
    let mut store = SessionStore::new();
    let (status, r) = load_obrm_fields_handler(&mut store, "s1".to_string(), "PIN_FLD_NAME|PIN_FLDT_STR|100\nPIN_FLD_X|PIN_FLDT_INT|7".to_string());
    assert_eq!(status, HttpStatus::Success);
    assert!(r.success);
    assert_eq!(r.message, "Fields (2) loaded!!!");
    assert_eq!(r.field_count, 2);
    store
}

#[test]
fn api_response_constructors() {
    let a: ApiResponse<u8> = ApiResponse::success("ok", Some(3));
    assert!(a.success);
    assert_eq!(a.message, "ok");
    assert_eq!(a.data, Some(3));
    let e: ApiResponse<u8> = ApiResponse::error("bad");
    assert!(!e.success);
    assert_eq!(e.message, "bad");
    assert_eq!(e.data, None);
    let l = RequestResponseLogger::new("logs/x.log".to_string());
    assert_eq!(l.log_file, "logs/x.log");
}

#[test]
fn register_then_status_then_unregister() {
    let mut reg = SessionRegistry::new();
    let (s, r) = register_session(&mut reg, "abc".to_string(), 1700000000, 5);
    assert_eq!(s, HttpStatus::Success);
    assert_eq!(r.message, "Session registered successfully");
    let d = r.data.unwrap();
    assert_eq!((d.session_id.as_str(), d.created_secs, d.created_nanos, d.is_active), ("abc", 1700000000, 5, true));
    let (s, r) = get_session_status(&reg, "abc".to_string());
    assert_eq!(s, HttpStatus::Success);
    assert_eq!(r.message, "Session is valid");
    let st = r.data.unwrap();
    assert!(st.is_valid);
    assert_eq!(st.created_at, Some((1700000000, 5)));
    let (s, r) = unregister_session(&mut reg, "abc".to_string());
    assert_eq!(s, HttpStatus::Success);
    assert_eq!(r.message, "Session unregistered successfully");
    assert_eq!(r.data.unwrap().session_id, "abc");
    let (s, r) = get_session_status(&reg, "abc".to_string());
    assert_eq!(s, HttpStatus::NotFound);
    assert!(r.success);
    assert_eq!(r.message, "Session not found");
    assert!(!r.data.unwrap().is_valid);
}

#[test]
fn register_refusals() {
    let mut reg = SessionRegistry::new();
    let (s, r) = register_session(&mut reg, "  \t".to_string(), 0, 0);
    assert_eq!(s, HttpStatus::BadRequest);
    assert_eq!(r.message, "Session ID cannot be empty");
    assert!(r.data.is_none());
    register_session(&mut reg, "a".to_string(), 1, 0);
    let (s, r) = register_session(&mut reg, "a".to_string(), 2, 0);
    assert_eq!(s, HttpStatus::Conflict);
    assert_eq!(r.message, "Session already exists");
    assert_eq!(reg.sessions.len(), 1);
    assert_eq!(reg.sessions[0].created_secs, 1);
    let (s, r) = unregister_session(&mut reg, "zz".to_string());
    assert_eq!(s, HttpStatus::NotFound);
    assert!(!r.success);
    assert_eq!(r.message, "Session not found");
    let (s, _) = register_session(&mut reg, "b".to_string(), 3, 0);
    assert_eq!(s, HttpStatus::Success);
    unregister_session(&mut reg, "a".to_string());
    let (s, r) = get_session_status(&reg, "b".to_string());
    assert_eq!(s, HttpStatus::Success);
    assert_eq!(r.data.unwrap().created_at, Some((3, 0)));
}

#[test]
fn inactive_session_status() {
    let mut reg = SessionRegistry::new();
    register_session(&mut reg, "a".to_string(), 1, 0);
    reg.sessions[0].is_active = false;
    let (s, r) = get_session_status(&reg, "a".to_string());
    assert_eq!(s, HttpStatus::Success);
    assert_eq!(r.message, "Session exists but is inactive");
    assert_eq!(r.data.unwrap().created_at, None);
}

#[test]
fn health() {
    let (s, r) = health_check();
    assert_eq!(s, HttpStatus::Success);
    assert_eq!(r.message, "Server is running");
    assert_eq!(r.data.as_deref(), Some("OK"));
}

#[test]
fn load_handler_refusals() {
    let mut store = SessionStore::new();
    let (s, r) = load_obrm_fields_handler(&mut store, " ".to_string(), "A|B|1".to_string());
    assert_eq!(s, HttpStatus::BadRequest);
    assert_eq!(r.message, "Session ID cannot be empty");
    assert_eq!(r.session_id, " ");
    let (s, r) = load_obrm_fields_handler(&mut store, "s".to_string(), "\n \n".to_string());
    assert_eq!(s, HttpStatus::BadRequest);
    assert_eq!(r.message, "Request body cannot be empty");
    assert_eq!(store.field_count("s"), 0);
    let store = loaded();
    let (s, r) = get_session_fields_handler(&store, "s1".to_string());
    assert_eq!(s, HttpStatus::Success);
    assert_eq!(r.message, "Fields retrieved successfully");
    assert_eq!(r.data.unwrap().len(), 2);
    let (s, r) = get_session_fields_handler(&store, "s9".to_string());
    assert_eq!(s, HttpStatus::NotFound);
    assert_eq!(r.message, "No fields loaded for this session");
}

#[test]
fn second_load_reports_already_loaded() {
    let mut store = loaded();
    let (s, r) = load_obrm_fields_handler(&mut store, "s1".to_string(), "A|B|1".to_string());
    assert_eq!(s, HttpStatus::Success);
    assert_eq!(r.message, "Fields (2) already loaded!!!");
    assert_eq!(r.field_count, 2);
}

#[test]
fn conversion_request_checks() {
    let store = loaded();
    assert!(is_blank(&" \t\n".to_string()));
    assert!(!is_blank(&" x ".to_string()));
    let r = check_conversion_request(&store, &"".to_string(), &"x".to_string()).unwrap();
    assert_eq!(r.1.message, "Session ID cannot be empty");
    let r = check_conversion_request(&store, &"s1".to_string(), &"".to_string()).unwrap();
    assert_eq!(r.1.message, "Request body cannot be empty");
    let r = check_conversion_request(&store, &"s2".to_string(), &"x".to_string()).unwrap();
    assert_eq!(r.0, HttpStatus::BadRequest);
    assert_eq!(r.1.message, "Please load BRM fields first using the load_obrm_fields endpoint");
    assert!(check_conversion_request(&store, &"s1".to_string(), &"x".to_string()).is_none());
}

#[test]
fn fld_spec_handler_lists_invalid_lines() {
    let store = loaded();
    let (s, r) = convert_fld_spec_to_podl_handler(&store, "s1".to_string(), "A|b|c|d\n\nbad line\nx|y".to_string());
    assert_eq!(s, HttpStatus::BadRequest);
    assert!(!r.success);
    assert_eq!(
        r.message,
        "Invalid format. Lines should have format 'field_name|description|data_type|field_id'. Invalid lines: Line 2: bad line, Line 3: x|y"
    );
    assert_eq!(r.podl_content, "");
}

#[test]
fn fld_spec_handler_converts() {
    let store = loaded();
    let (s, r) = convert_fld_spec_to_podl_handler(&store, "s1".to_string(), "A|b|c|d\n\n".to_string());
    assert_eq!(s, HttpStatus::Success);
    assert_eq!(r.message, "Successfully converted 1 field specifications to PODL format for session s1");
    assert_eq!(
        r.podl_content,
        "#=======================================\n#  Field A\n#=======================================\n\nc A {\n\tID = d;\n\tDESCR = b;\n}\n\n# Invalid line format: \n"
    );
}

#[test]
fn class_spec_handler() {
    let store = loaded();
    let (s, r) = convert_class_spec_to_podl_handler(&store, "s1".to_string(), "no class".to_string());
    assert_eq!(s, HttpStatus::BadRequest);
    assert_eq!(r.message, "No data found");
    let (s, r) = convert_class_spec_to_podl_handler(&store, "s1".to_string(), "//c|d".to_string());
    assert_eq!(s, HttpStatus::Success);
    assert_eq!(r.message, "Successfully converted class specification to PODL format for session s1");
    assert!(r.podl_content.starts_with("#=======================================\n#  Storable Class //c\n"));
}

#[test]
fn flist_handlers() {
    let store = loaded();
    let (s, r) = convert_flist2code_handler(&store, "s1".to_string(), "0 PIN_FLD_A STR [0] a".to_string());
    assert_eq!(s, HttpStatus::Success);
    assert_eq!(r.message, "Successfully converted FLIST to C code for session s1");
    assert!(r.podl_content.ends_with("\tPIN_FLIST_FLD_SET(s_flistp, PIN_FLD_A, a, ebufp);\n"));
    let (s, r) = convert_flist2xml_handler(&store, "s1".to_string(), "0 PIN_FLD_A STR [0] a".to_string());
    assert_eq!(s, HttpStatus::Success);
    assert_eq!(r.message, "Successfully converted FLIST to XML for session s1");
    assert_eq!(r.podl_content, "<flist>\n\t<PIN_FLD_A>a</PIN_FLD_A>\n</flist>\n");
    let (s, r) = convert_flist2xml_handler(&store, "s2".to_string(), "0 PIN_FLD_A STR [0] a".to_string());
    assert_eq!(s, HttpStatus::BadRequest);
    assert_eq!(r.message, "Please load BRM fields first using the load_obrm_fields endpoint");
    let (s, r) = flist2json_reply("s1".to_string(), "{}".to_string());
    assert_eq!(s, HttpStatus::Success);
    assert_eq!(r.message, "Successfully converted FLIST to JSON for session s1");
    assert_eq!(r.podl_content, "{}");
}

use oneclick_brm::service::{level_of_lowercase, log_level, request_log_line, response_log_line, LogLevel};

#[test]
fn log_lines_text() {
    assert_eq!(
        request_log_line("2024-01-02 03:04:05 UTC", "GET", "/health", "Some(127.0.0.1:5000)"),
        "[2024-01-02 03:04:05 UTC] REQUEST: GET /health from Some(127.0.0.1:5000)"
    );
    assert_eq!(
        response_log_line("2024-01-02 03:04:05 UTC", "GET", "/health", 200, "OK"),
        "[2024-01-02 03:04:05 UTC] RESPONSE: GET /health -> 200 OK"
    );
    assert_eq!(
        response_log_line("t", "POST", "/x", 0, "Unknown"),
        "[t] RESPONSE: POST /x -> 0 Unknown"
    );
}

#[test]
fn log_level_names() {
    assert_eq!(level_of_lowercase("error"), LogLevel::Error);
    assert_eq!(level_of_lowercase("warn"), LogLevel::Warn);
    assert_eq!(level_of_lowercase("info"), LogLevel::Info);
    assert_eq!(level_of_lowercase("debug"), LogLevel::Debug);
    assert_eq!(level_of_lowercase("trace"), LogLevel::Trace);
    assert_eq!(level_of_lowercase("verbose"), LogLevel::Info);
    assert_eq!(level_of_lowercase("WARN"), LogLevel::Info);
    assert_eq!(log_level("WARN"), LogLevel::Warn);
    assert_eq!(log_level("Debug"), LogLevel::Debug);
    assert_eq!(log_level(""), LogLevel::Info);
}

use oneclick_brm::service::{call_stack_failure, CallStackStage};

#[test]
fn call_stack_failure_replies() {
    let (status, f) = call_stack_failure(CallStackStage::NoUpload, "");
    assert_eq!(status, HttpStatus::BadRequest);
    assert!(!f.success);
    assert_eq!(f.message, "No ZIP file uploaded or file is empty");
    assert_eq!(f.details, "Please upload a valid ZIP file containing callstack data");

    let (status, f) = call_stack_failure(CallStackStage::Extract, "No suitable callstack data found in zip file");
    assert_eq!(status, HttpStatus::BadRequest);
    assert_eq!(f.message, "Failed to extract callstack from ZIP: No suitable callstack data found in zip file");

    let (status, f) = call_stack_failure(CallStackStage::Parse, "Failed to parse line: x");
    assert_eq!(status, HttpStatus::BadRequest);
    assert_eq!(f.message, "Failed to parse callstack: Failed to parse line: x");
    assert_eq!(f.details, "Ensure the callstack follows the format: timestamp dots Enter/Exit operation (returncode)");

    let (status, f) = call_stack_failure(CallStackStage::Package, "disk full");
    assert_eq!(status, HttpStatus::InternalServerError);
    assert_eq!(f.message, "Failed to create ZIP file: disk full");
    assert_eq!(f.details, "Internal error during ZIP file creation");
}
