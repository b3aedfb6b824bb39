use oneclick_brm::fields::{
    get_field_num, get_field_type, get_session_fields, load_obrm_fields, SessionStore,
};

const DATA: &str = "PIN_FLD_NAME|PIN_FLDT_STR|17\nPIN_FLD_X|PIN_FLDT_INT|abc\nbad line\nPIN_FLD_NAME|PIN_FLDT_INT|18\nA|B|C|D\n";

#[test]
fn load_counts_distinct_names() {
    let mut store = SessionStore::new();
    let r = load_obrm_fields(&mut store, "s1", DATA.to_string());
    assert_eq!(r, "Fields (2) loaded!!!");
    assert_eq!(store.field_count("s1"), 2);
}

#[test]
fn later_definition_replaces_earlier() {
    let mut store = SessionStore::new();
    load_obrm_fields(&mut store, "s1", DATA.to_string());
    assert_eq!(get_field_type(&store, "s1", "PIN_FLD_NAME"), "PIN_FLDT_INT");
    assert_eq!(get_field_num(&store, "s1", "PIN_FLD_NAME"), 18);
    let fields = get_session_fields(&store, "s1");
    assert_eq!(fields.len(), 2);
    assert_eq!(fields[0].name, "PIN_FLD_NAME");
    assert_eq!(fields[0].num, "18");
    assert_eq!(fields[1].name, "PIN_FLD_X");
}

#[test]
fn second_load_is_refused() {
    let mut store = SessionStore::new();
    load_obrm_fields(&mut store, "s1", DATA.to_string());
    let r = load_obrm_fields(&mut store, "s1", "PIN_FLD_Y|PIN_FLDT_STR|5".to_string());
    assert_eq!(r, "Fields (2) already loaded!!!");
    assert_eq!(get_field_type(&store, "s1", "PIN_FLD_Y"), "Field Not Found while getting its data type");
}

#[test]
fn sessions_are_separate() {
    let mut store = SessionStore::new();
    load_obrm_fields(&mut store, "s1", DATA.to_string());
    assert_eq!(get_session_fields(&store, "s2").len(), 0);
    let r = load_obrm_fields(&mut store, "s2", "PIN_FLD_Y|PIN_FLDT_STR|5".to_string());
    assert_eq!(r, "Fields (1) loaded!!!");
    assert_eq!(store.field_count("s1"), 2);
    assert_eq!(get_field_num(&store, "s2", "PIN_FLD_Y"), 5);
}

#[test]
fn empty_load_can_be_repeated() {
    let mut store = SessionStore::new();
    assert_eq!(load_obrm_fields(&mut store, "s1", "no fields here".to_string()), "Fields (0) loaded!!!");
    assert_eq!(load_obrm_fields(&mut store, "s1", DATA.to_string()), "Fields (2) loaded!!!");
}

#[test]
fn missing_and_unparsable_numbers_give_minus_one() {
    let mut store = SessionStore::new();
    load_obrm_fields(&mut store, "s1", DATA.to_string());
    assert_eq!(get_field_num(&store, "s1", "PIN_FLD_X"), -1);
    assert_eq!(get_field_num(&store, "s1", "PIN_FLD_NONE"), -1);
    assert_eq!(get_field_num(&store, "nobody", "PIN_FLD_NAME"), -1);
    assert_eq!(get_field_type(&store, "nobody", "PIN_FLD_NAME"), "Field Not Found while getting its data type");
}

#[test]
fn field_numbers_parse_like_i32() {
    let mut store = SessionStore::new();
    let data = "A|T|+7\nB|T|-2147483648\nC|T|2147483648\nD|T| 1\nE|T|-\nF|T|007\nG|T|\n";
    load_obrm_fields(&mut store, "s", data.to_string());
    assert_eq!(get_field_num(&store, "s", "A"), 7);
    assert_eq!(get_field_num(&store, "s", "B"), i32::MIN);
    assert_eq!(get_field_num(&store, "s", "C"), -1);
    assert_eq!(get_field_num(&store, "s", "D"), -1);
    assert_eq!(get_field_num(&store, "s", "E"), -1);
    assert_eq!(get_field_num(&store, "s", "F"), 7);
    assert_eq!(get_field_num(&store, "s", "G"), -1);
}

#[test]
fn crlf_lines_are_read() {
    let mut store = SessionStore::new();
    let r = load_obrm_fields(&mut store, "s", "A|T|1\r\nB|T|2\r\n".to_string());
    assert_eq!(r, "Fields (2) loaded!!!");
    assert_eq!(get_field_num(&store, "s", "A"), 1);
}
