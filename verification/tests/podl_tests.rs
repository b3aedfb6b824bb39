use oneclick_brm::fields::{load_obrm_fields, SessionStore};
use oneclick_brm::podl::{
    class_spec_input_ok, convert_class_spec_to_podl, convert_fld_spec_to_podl, create_field_podl,
    get_begining_tab_count, get_first_char, try_convert_class_spec_to_podl, ClassPODL,
    ObjCreatePermission, ObjModifyPermission,
};

fn loaded() -> SessionStore {
    let mut store = SessionStore::new();
    load_obrm_fields(
        &mut store,
        "s1",
        "PIN_FLD_NAME|PIN_FLDT_STR|100\nPIN_FLD_AMT|PIN_FLDT_DECIMAL|200\nPIN_FLD_ITEMS|PIN_FLDT_ARRAY|300".to_string(),
    );
    store
}

const NAME_BLOCK: &str = "\tSTRING PIN_FLD_NAME {\n\t\tDESCR = Name;\n\t\tORDER = 0;\n\t\tCREATE = Optional;\n\t\tMODIFY = Not_Writeable;\n\t\tAUDITABLE = 1;\n\t\tENCRYPTABLE = 0;\n\t\tSERIALIZABLE = 0;\n\t}";
const ITEMS_BLOCK: &str = "\tARRAY PIN_FLD_ITEMS {\n\t\tDESCR = Items;\n\t\tORDER = 0;\n\t\tCREATE = Required;\n\t\tMODIFY = Writeable;\n\t\tAUDITABLE = 0;\n\t\tENCRYPTABLE = 0;\n\t\tSERIALIZABLE = 0;\n\t}";

fn header(t: &str, d: &str) -> String {
    format!(
        "#=======================================\n#  Storable Class {}\n#=======================================\n\nSTORABLE CLASS {} {{\n\tDESCR = {};\n\tREAD_ACCESS = \"BrandLineage\";\n\tWRITE_ACCESS = \"BrandLineage\";\n\tIS_PARTITIONED = \"0\";\n\tEVENT_TYPE = \"NONE\";",
        t, t, d
    )
}

/// A field block at `depth` tabs, with the blocks nested in it.
fn block(depth: usize, ty: &str, name: &str, descr: &str, flags: (&str, &str, u8, u8), inner: &str) -> String {
    let t = "\t".repeat(depth);
    let u = "\t".repeat(depth + 1);
    format!(
        "{t}{ty} {name} {{\n{u}DESCR = {descr};\n{u}ORDER = 0;\n{u}CREATE = {};\n{u}MODIFY = {};\n{u}AUDITABLE = {};\n{u}ENCRYPTABLE = {};\n{u}SERIALIZABLE = 0;{inner}\n{t}}}",
        flags.0, flags.1, flags.2, flags.3
    )
}

const DEFAULT_FLAGS: (&str, &str, u8, u8) = ("Required", "Writeable", 0, 0);

const BANNER: &str = "\t#=======================================\n\t#  Fields\n\t#=======================================";

#[test]
fn first_char_and_tabs() {
    assert_eq!(get_first_char("abc"), 'a');
    assert_eq!(get_first_char(""), ' ');
    assert_eq!(get_begining_tab_count("\t\tx\t"), 2);
    assert_eq!(get_begining_tab_count("x"), 0);
    assert_eq!(get_begining_tab_count("\t\t\t"), 3);
}

#[test]
fn permission_texts() {
    assert_eq!(ObjCreatePermission::Prohibited.as_text(), "Prohibited");
    assert_eq!(ObjCreatePermission::System.as_text(), "System");
    assert_eq!(ObjModifyPermission::NotWriteable.as_text(), "Not_Writeable");
    assert_eq!(ObjModifyPermission::Writeable.as_text(), "Writeable");
}

#[test]
fn field_podl_from_spec() {
    let store = loaded();
    let f = create_field_podl(
        &store,
        "s1",
        "  PIN_FLD_NAME ",
        vec![" Name ".to_string(), "col_name".to_string(), "3,2,1,1".to_string(), "80".to_string()],
    );
    assert_eq!(f.name, "PIN_FLD_NAME");
    assert_eq!(f.num, 100);
    assert_eq!(f.data_type, "PIN_FLDT_STR");
    assert_eq!(f.descr, "Name");
    assert_eq!(f.col_tab_name, "col_name");
    assert!(matches!(f.create_flag, ObjCreatePermission::System));
    assert!(matches!(f.modify_flag, ObjModifyPermission::System));
    assert!(f.audit_flag);
    assert!(f.encryp_flag);
    assert_eq!(f.data_length, 80);
    assert!(f.nested_fields.is_empty());
}

#[test]
fn field_podl_defaults() {
    let store = loaded();
    let f = create_field_podl(&store, "s1", "PIN_FLD_NAME", vec!["Name".to_string()]);
    assert!(matches!(f.create_flag, ObjCreatePermission::Required));
    assert!(matches!(f.modify_flag, ObjModifyPermission::Writeable));
    assert!(!f.audit_flag);
    assert_eq!(f.data_length, 60);
    assert_eq!(f.col_tab_name, "");
    let g = create_field_podl(&store, "s1", "PIN_FLD_NAME", vec!["N".to_string(), "c".to_string(), "9,x".to_string(), " 70".to_string()]);
    assert!(matches!(g.create_flag, ObjCreatePermission::Required));
    assert!(matches!(g.modify_flag, ObjModifyPermission::Writeable));
    assert_eq!(g.data_length, 60);
    let h = create_field_podl(&store, "s1", "PIN_FLD_AMT", vec!["A".to_string(), "c".to_string(), "1".to_string(), "70".to_string()]);
    assert_eq!(h.data_length, 0);
    assert!(matches!(h.create_flag, ObjCreatePermission::Optional));
    let u = create_field_podl(&store, "s1", "PIN_FLD_UNKNOWN", vec![]);
    assert_eq!(u.num, -1);
    assert_eq!(u.data_type, "Field Not Found while getting its data type");
}

#[test]
fn empty_class_podl() {
    let c = ClassPODL::new();
    assert_eq!(c.no_of_fields, -1);
    assert_eq!(c.generate_podl(), vec![header("", ""), "}".to_string()]);
}

#[test]
fn class_levels() {
    let store = loaded();
    let mut c = ClassPODL::new_value("/c".to_string(), "d".to_string(), "t".to_string());
    let f = |n: &str| create_field_podl(&store, "s1", n, vec![]);
    c.add_0th_lvl_field("PIN_FLD_ITEMS".to_string(), f("PIN_FLD_ITEMS"));
    c.add_0th_lvl_field("PIN_FLD_ITEMS".to_string(), f("PIN_FLD_ITEMS"));
    assert_eq!(c.no_of_fields, 1);
    c.add_1st_lvl_field("PIN_FLD_ITEMS".to_string(), "PIN_FLD_AMT".to_string(), f("PIN_FLD_AMT"));
    c.add_1st_lvl_field("PIN_FLD_ITEMS".to_string(), "PIN_FLD_AMT".to_string(), f("PIN_FLD_AMT"));
    c.add_1st_lvl_field("PIN_FLD_NONE".to_string(), "PIN_FLD_X".to_string(), f("PIN_FLD_X"));
    assert_eq!(c.fields[0].nested_fields.len(), 1);
    assert_eq!(c.fields_1st_lvl.len(), 1);
    c.add_2nd_lvl_field("PIN_FLD_ITEMS".to_string(), "PIN_FLD_AMT".to_string(), "PIN_FLD_NAME".to_string(), f("PIN_FLD_NAME"));
    c.add_2nd_lvl_field("PIN_FLD_ITEMS".to_string(), "PIN_FLD_NONE".to_string(), "PIN_FLD_NAME".to_string(), f("PIN_FLD_NAME"));
    assert_eq!(c.fields[0].nested_fields[0].nested_fields.len(), 1);
    assert_eq!(c.fields[0].nested_fields[0].nested_fields[0].name, "PIN_FLD_NAME");
    assert_eq!(c.fields_2nd_lvl.len(), 1);
}

#[test]
fn field_spec_to_podl() {
    let store = loaded();
    let out = convert_fld_spec_to_podl(&store, "s1", "PIN_FLD_X| My descr |STR| 1001 \nbad".to_string());
    assert_eq!(
        out,
        "#=======================================\n#  Field PIN_FLD_X\n#=======================================\n\nSTR PIN_FLD_X {\n\tID = 1001;\n\tDESCR = My descr;\n}\n\n# Invalid line format: bad\n"
    );
    assert_eq!(
        convert_fld_spec_to_podl(&SessionStore::new(), "s1", "a|b|c|d".to_string()),
        "Please load BRM fields first using the load_obrm_fields endpoint !!!"
    );
}

#[test]
fn class_spec_to_podl() {
    let store = loaded();
    let data = "/my_class|My class->my_table\n    PIN_FLD_NAME|Name->col_name->1,1,1,0->80\n\tPIN_FLD_ITEMS|Items\n\t\tPIN_FLD_AMT|Amount\n\t\t\tPIN_FLD_NAME|deep\n\tPIN_FLD_NAME|dup\n\n";
    let deep = block(3, "STRING", "PIN_FLD_NAME", "deep", DEFAULT_FLAGS, "");
    let amt = block(2, "DECIMAL", "PIN_FLD_AMT", "Amount", DEFAULT_FLAGS, &format!("\n{}", deep));
    let items = block(1, "ARRAY", "PIN_FLD_ITEMS", "Items", DEFAULT_FLAGS, &format!("\n{}", amt));
    assert_eq!(block(1, "ARRAY", "PIN_FLD_ITEMS", "Items", DEFAULT_FLAGS, ""), ITEMS_BLOCK);
    let expected = [header("/my_class", "My class"), BANNER.to_string(), NAME_BLOCK.to_string(), items, "}".to_string()].join("\n");
    assert!(class_spec_input_ok(&data.to_string()));
    assert_eq!(convert_class_spec_to_podl(&store, "s1", data.to_string()), expected);
    assert_eq!(try_convert_class_spec_to_podl(&store, "s1", data.to_string()), Some(expected));
}

#[test]
fn class_spec_without_class_line() {
    let store = loaded();
    assert_eq!(convert_class_spec_to_podl(&store, "s1", "just text\n".to_string()), "No data found");
    assert_eq!(
        convert_class_spec_to_podl(&SessionStore::new(), "s1", "/c|d->t".to_string()),
        "Please load fields first !!!"
    );
    let only_class = convert_class_spec_to_podl(&store, "s1", "//c|d".to_string());
    assert_eq!(only_class, [header("//c", "d"), "}".to_string()].join("\n"));
    let no_table = convert_class_spec_to_podl(&store, "s1", "/c|d".to_string());
    assert_eq!(no_table, "No data found");
}

#[test]
fn class_spec_emits_nested_fields() {
    let mut store = SessionStore::new();
    load_obrm_fields(&mut store, "c2", "PIN_FLD_ARGS|PIN_FLDT_ARRAY|61\nPIN_FLD_NAME|PIN_FLDT_STR|17".to_string());
    let data = "/service/x|Svc\n\tPIN_FLD_ARGS|Args\n\t\tPIN_FLD_NAME|Name";
    let r = convert_class_spec_to_podl(&store, "c2", data.to_string());
    assert!(r.contains("PIN_FLD_NAME"));
    let name = block(2, "STRING", "PIN_FLD_NAME", "Name", DEFAULT_FLAGS, "");
    let args = block(1, "ARRAY", "PIN_FLD_ARGS", "Args", DEFAULT_FLAGS, &format!("\n{}", name));
    let expected = [header("/service/x", "Svc"), BANNER.to_string(), args, "}".to_string()].join("\n");
    assert_eq!(r, expected);
}

#[test]
fn four_spaces_read_as_a_tab() {
    let mut store = SessionStore::new();
    load_obrm_fields(&mut store, "c2", "PIN_FLD_ARGS|PIN_FLDT_ARRAY|61\nPIN_FLD_NAME|PIN_FLDT_STR|17".to_string());
    let tabs = "/service/x|Svc\n\tPIN_FLD_ARGS|Args\n\t\tPIN_FLD_NAME|Name";
    let spaces = "/service/x|Svc\n    PIN_FLD_ARGS|Args\n        PIN_FLD_NAME|Name";
    assert_eq!(
        convert_class_spec_to_podl(&store, "c2", spaces.to_string()),
        convert_class_spec_to_podl(&store, "c2", tabs.to_string())
    );
}

#[test]
fn class_counter_follows_top_level_fields() {
    let store = loaded();
    let f = |n: &str| create_field_podl(&store, "s1", n, vec![]);
    let mut c = ClassPODL::new();
    let steps: Vec<(usize, &str)> = vec![
        (0, "PIN_FLD_ITEMS"),
        (1, "PIN_FLD_AMT"),
        (0, "PIN_FLD_NAME"),
        (0, "PIN_FLD_ITEMS"),
        (2, "PIN_FLD_NAME"),
        (0, "PIN_FLD_AMT"),
    ];
    for (level, name) in steps {
        match level {
            0 => c.add_0th_lvl_field(name.to_string(), f(name)),
            1 => c.add_1st_lvl_field("PIN_FLD_ITEMS".to_string(), name.to_string(), f(name)),
            _ => c.add_2nd_lvl_field(
                "PIN_FLD_ITEMS".to_string(),
                "PIN_FLD_AMT".to_string(),
                name.to_string(),
                f(name),
            ),
        }
        assert_eq!(c.fields.len(), c.fields_0th_lvl.len());
        assert_eq!(c.no_of_fields, c.fields.len() as i32 - 1);
    }
    assert_eq!(c.no_of_fields, 2);
}
