use oneclick_brm::flist::{
    ccode_input_ok, convert_flist2code, convert_flist2xml, try_convert_flist2code,
    try_convert_flist2xml, xml_input_ok, Flist2Code,
};
use oneclick_brm::lfield::{level_parses, LField};

const SAMPLE: &str = "0 PIN_FLD_POID           POID [0] 0.0.0.1 /account 12345 0\n\
0 PIN_FLD_STATUS         ENUM [0] 10100\n\
0 PIN_FLD_NAME           STR [0] \"John\"\n\
0 PIN_FLD_BALANCES       ARRAY [840] allocated 20, used 1\n\
1     PIN_FLD_CURRENT_BAL  DECIMAL [0] 10.5\n\
0 PIN_FLD_CREATED_T      TSTAMP [0] (1577836800) Wed Jan  1 00:00:00 2020\n";

#[test]
fn lfield_new_is_empty() {
    let f = LField::new();
    assert_eq!(f.field_level, 0);
    assert_eq!(f.field_arr_idx, "0");
    assert_eq!(f.field_name, "");
    assert_eq!(f.field_type, "");
    assert_eq!(f.field_value, "");
}

#[test]
fn set_field_reads_groups() {
    let mut f = LField::new();
    f.set_field("2   PIN_FLD_NAME\tSTR [*]   \"Jo] hn\"  ".to_string());
    assert_eq!(f.field_level, 2);
    assert_eq!(f.field_name, "PIN_FLD_NAME");
    assert_eq!(f.field_type, "STR");
    assert_eq!(f.field_arr_idx, "*]   \"Jo");
    assert_eq!(f.field_value, "hn\"");
}

#[test]
fn set_field_ignores_non_matching_line() {
    let mut f = LField::new();
    f.set_field("1 PIN_FLD_A INT [0] 5".to_string());
    f.set_field("not an flist line".to_string());
    assert_eq!(f.field_level, 1);
    assert_eq!(f.field_name, "PIN_FLD_A");
    assert_eq!(f.field_value, "5");
    f.set_field("1 PIN_FLD_B INT 0] 5".to_string());
    assert_eq!(f.field_name, "PIN_FLD_A");
}

#[test]
fn set_field_cleans_nulls() {
    let mut f = LField::new();
    f.set_field("0 PIN_FLD_S STR [0] NULL str ptr".to_string());
    assert_eq!(f.field_value, "NULL");
    f.set_field("0 PIN_FLD_P POID [0] NULL poid pointer".to_string());
    assert_eq!(f.field_value, "NULL");
    f.set_field("0 PIN_FLD_T TSTAMP [0] (0) <null>".to_string());
    assert_eq!(f.field_value, "0");
    f.set_field("0 PIN_FLD_T TSTAMP [0] (1577836800) Wed Jan  1 00:00:00 2020".to_string());
    assert_eq!(f.field_value, "1577836800");
    f.set_field("0 PIN_FLD_S STR [0] text with NULL inside".to_string());
    assert_eq!(f.field_value, "text with NULL inside");
}

#[test]
fn level_must_fit_i8() {
    assert!(level_parses(&"127 A B [0] x".to_string()));
    assert!(!level_parses(&"128 A B [0] x".to_string()));
    assert!(!level_parses(&"\u{0663} A B [0] x".to_string()));
    assert!(level_parses(&"\u{0663}x A B [0] x".to_string()));
    assert!(level_parses(&"free text".to_string()));
}

#[test]
fn flist_to_c_code() {
    let expected = "\tpin_flist_t\t\t*s_flistp = NULL;\n\
\tu_int\t\t\tenum_status0 = 10100;\n\
\tpin_flist_t\t\t*array_balances_0_flistp = NULL;\n\
\tpin_decimal_t\t\t*decimal_current_bal1 = pbo_decimal_from_str(\"10.5\", ebufp);\n\
\ttime_t\t\t\ttstamp_created_t0 = 1577836800L;\n\
\n\
\ts_flistp = PIN_FLIST_CREATE(ebufp);\n\
\tPIN_FLIST_FLD_PUT(s_flistp, PIN_FLD_POID, PIN_POID_FROM_STR(\"0.0.0.1 /account 12345 0\", NULL, ebufp), ebufp);\n\
\tPIN_FLIST_FLD_SET(s_flistp, PIN_FLD_STATUS, &enum_status0, ebufp);\n\
\tPIN_FLIST_FLD_SET(s_flistp, PIN_FLD_NAME, \"John\", ebufp);\n\
\n\
\tarray_balances_0_flistp = PIN_FLIST_ELEM_ADD(s_flistp, PIN_FLD_BALANCES, 840, ebufp);\n\
\tPIN_FLIST_FLD_PUT(array_balances_0_flistp, PIN_FLD_CURRENT_BAL, decimal_current_bal1, ebufp);\n\
\tPIN_FLIST_FLD_SET(array_balances_0_flistp, PIN_FLD_CREATED_T, &tstamp_created_t0, ebufp);\n";
    assert!(ccode_input_ok(&SAMPLE.to_string()));
    assert_eq!(convert_flist2code(SAMPLE.to_string()), expected);
    assert_eq!(try_convert_flist2code(SAMPLE.to_string()), Some(expected.to_string()));
}

#[test]
fn flist_to_c_code_closes_substructs() {
    let input = "0 PIN_FLD_A SUBSTRUCT [0] x\n1 PIN_FLD_B SUBSTRUCT [0] y\n2 PIN_FLD_C STR [0] \"c\"\n0 PIN_FLD_D STR [0] \"d\"\n";
    let expected = "\tpin_flist_t\t\t*s_flistp = NULL;\n\
\tpin_flist_t\t\t*substruct_a_0_flistp = NULL;\n\
\tpin_flist_t\t\t*substruct_b_1_flistp = NULL;\n\
\n\
\ts_flistp = PIN_FLIST_CREATE(ebufp);\n\
\n\
\tsubstruct_a_0_flistp = PIN_FLIST_SUBSTR_ADD(s_flistp, PIN_FLD_A, ebufp);\n\
\tsubstruct_b_1_flistp = PIN_FLIST_SUBSTR_ADD(substruct_a_0_flistp, PIN_FLD_B, ebufp);\n\
\tPIN_FLIST_FLD_SET(substruct_b_1_flistp, PIN_FLD_C, \"c\", ebufp);\n\
\tPIN_FLIST_FLD_SET(s_flistp, PIN_FLD_D, \"d\", ebufp);\n";
    assert_eq!(convert_flist2code(input.to_string()), expected);
}

#[test]
fn flist_to_c_code_sibling_arrays() {
    let input = "0 PIN_FLD_A ARRAY [0] x\n1 PIN_FLD_B STR [0] \"b\"\n0 PIN_FLD_C ARRAY [*] y\n1 PIN_FLD_D INT [0] 5\n";
    let expected = "\tpin_flist_t\t\t*s_flistp = NULL;\n\
\tpin_flist_t\t\t*array_a_0_flistp = NULL;\n\
\tpin_flist_t\t\t*array_c_0_flistp = NULL;\n\
\tint32\t\t\tint_d1 = 5;\n\
\n\
\ts_flistp = PIN_FLIST_CREATE(ebufp);\n\
\n\
\tarray_a_0_flistp = PIN_FLIST_ELEM_ADD(s_flistp, PIN_FLD_A, 0, ebufp);\n\
\tPIN_FLIST_FLD_SET(array_a_0_flistp, PIN_FLD_B, \"b\", ebufp);\n\
\n\
\tarray_c_0_flistp = PIN_FLIST_ELEM_ADD(s_flistp, PIN_FLD_C, PIN_ELEMID_ANY, ebufp);\n\
\tPIN_FLIST_FLD_SET(array_c_0_flistp, PIN_FLD_D, &int_d1, ebufp);\n";
    assert_eq!(convert_flist2code(input.to_string()), expected);
}

#[test]
fn repeated_variable_name_is_bumped() {
    let input = "1 PIN_FLD_X INT [0] 1\n1 PIN_FLD_X INT [0] 2\n";
    let out = convert_flist2code(input.to_string());
    assert!(out.contains("\tint32\t\t\tint_x1 = 1;\n\tint32\t\t\tint_x2 = 2;\n"));
    assert!(out.contains("PIN_FLIST_FLD_SET(s_flistp, PIN_FLD_X, &int_x2, ebufp);"));
}

#[test]
fn failing_inputs_are_detected() {
    assert_eq!(try_convert_flist2code("200 PIN_FLD_X STR [0] a".to_string()), None);
    assert_eq!(try_convert_flist2code("9 PIN_FLD_X INT [0] 1\n9 PIN_FLD_X INT [0] 2\n".to_string()), None);
    assert!(!ccode_input_ok(&"9 PIN_FLD_X INT [0] 1\n9 PIN_FLD_X INT [0] 2\n".to_string()));
    assert_eq!(try_convert_flist2xml("300 PIN_FLD_X STR [0] a".to_string()), None);
    assert!(xml_input_ok(&"9 PIN_FLD_X INT [0] 1\n9 PIN_FLD_X INT [0] 2\n".to_string()));
}

#[test]
fn flist_to_xml() {
    let expected = "<flist>\n\
\t<PIN_FLD_POID>0.0.0.1 /account 12345 0</PIN_FLD_POID>\n\
\t<PIN_FLD_STATUS>10100</PIN_FLD_STATUS>\n\
\t<PIN_FLD_NAME>John</PIN_FLD_NAME>\n\
\t<PIN_FLD_BALANCES elem=\"840\">\n\
\t\t<PIN_FLD_CURRENT_BAL>10.5</PIN_FLD_CURRENT_BAL>\n\
\t\t<PIN_FLD_CREATED_T>1577836800</PIN_FLD_CREATED_T>\n\
\t</PIN_FLD_BALANCES>\n\
</flist>\n";
    assert_eq!(convert_flist2xml(SAMPLE.to_string()), expected);
    assert_eq!(try_convert_flist2xml(SAMPLE.to_string()), Some(expected.to_string()));
}

#[test]
fn flist_to_xml_closes_siblings() {
    let input = "0 PIN_FLD_A ARRAY [0] x\n1 PIN_FLD_B STR [0] \"b\"\n0 PIN_FLD_C SUBSTRUCT [1] y\n1 PIN_FLD_D INT [0] 5\n";
    let expected = "<flist>\n\
\t<PIN_FLD_A elem=\"0\">\n\
\t\t<PIN_FLD_B>b</PIN_FLD_B>\n\
\t</PIN_FLD_A>\n\
\t<PIN_FLD_C>\n\
\t\t<PIN_FLD_D>5</PIN_FLD_D>\n\
\t</PIN_FLD_C>\n\
</flist>\n";
    let mut conv = Flist2Code::new();
    assert_eq!(conv.convert_flist_2_xml(input.to_string()), Ok(expected.to_string()));
    assert_eq!(conv.xml_tag_stack, vec!["FLIST".to_string()]);
}

#[test]
fn empty_flist() {
    assert_eq!(convert_flist2xml(String::new()), "<flist>\n</flist>\n");
    assert_eq!(
        convert_flist2code(String::new()),
        "\tpin_flist_t\t\t*s_flistp = NULL;\n\n\ts_flistp = PIN_FLIST_CREATE(ebufp);\n"
    );
}

#[test]
fn named_flist_has_no_tab() {
    let mut conv = Flist2Code::new();
    let r = conv.convert_flist_2_ccode("0 PIN_FLD_A STR [0] a".to_string(), "r_flistp".to_string());
    assert_eq!(
        r,
        Ok("pin_flist_t\t\t*r_flistp = NULL;\n\nr_flistp = PIN_FLIST_CREATE(ebufp);\nPIN_FLIST_FLD_SET(r_flistp, PIN_FLD_A, a, ebufp);\n".to_string())
    );
    assert_eq!(conv.flname_list, vec!["r_flistp".to_string()]);
    assert_eq!(conv.flname_with_level_list, vec!["r_flistp-0".to_string()]);
}

#[test]
fn variable_names_are_lower_case_without_prefix() {
    let mut conv = Flist2Code::new();
    assert_eq!(conv.get_var_name("PIN_FLD_ACCOUNT_OBJ", "POID"), "poid_account_obj");
    assert_eq!(conv.get_flist_var_name("PIN_FLD_BAL_IMPACTS"), "bal_impacts_flistp");
    assert_eq!(conv.get_flist_var_name("Other"), "other_flistp");
}

#[test]
fn json_is_recorded_after_xml() {
    let mut conv = Flist2Code::new();
    conv.record_json("{\"a\":1}".to_string()).unwrap();
    assert_eq!(conv.record_json("x".to_string()), Ok("{\"a\":1}x".to_string()));
}

#[test]
fn repeated_array_declares_its_flist_once() {
    let input = "0 PIN_FLD_ARGS          ARRAY [1] allocated 20, used 1\n\
1     PIN_FLD_STATUS         ENUM [0] 1\n\
0 PIN_FLD_ARGS          ARRAY [2] allocated 20, used 1\n\
1     PIN_FLD_STATUS         ENUM [0] 2\n";
    assert!(ccode_input_ok(&input.to_string()));
    let mut conv = Flist2Code::new();
    let code = conv.convert_flist_2_ccode(input.to_string(), "s_flistp".to_string()).unwrap();
    assert_eq!(code.matches("pin_flist_t\t\t*array_args_0_flistp = NULL;").count(), 1);
    assert_eq!(code.matches("array_args_0_flistp = PIN_FLIST_ELEM_ADD(").count(), 2);
    let mut names = conv.flname_with_level_list.clone();
    names.sort();
    names.dedup();
    assert_eq!(names.len(), conv.flname_with_level_list.len());
}
