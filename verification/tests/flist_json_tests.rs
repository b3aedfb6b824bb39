use oneclick_brm::flist_json::{json_files, json_or_fallback, json_pipeline_command, json_temp_files};

#[test]
fn temp_files_are_numbered() {
    let (input, output) = json_files(42);
    assert_eq!(input, "test_input_42");
    assert_eq!(output, "test_input_42.out");
    let (input, output) = json_files(0);
    assert_eq!(input, "test_input_0");
    assert_eq!(output, "test_input_0.out");
}

#[test]
fn random_temp_files_are_below_a_thousand() {
    for _ in 0..50 {
        let (input, output) = json_temp_files();
        let n: u64 = input.strip_prefix("test_input_").unwrap().parse().unwrap();
        assert!(n < 1000);
        assert_eq!(output, format!("{}.out", input));
    }
}

#[test]
fn pipeline_command_text() {
    let cmd = json_pipeline_command("in", "out");
    assert_eq!(
        cmd,
        "cat in | xml2json 2>/dev/null | jq 'walk(if type == \"object\" and has(\"$t\") then . |= .[\"$t\"] else . end)' | sed 's/\"elem\": \"\\([^\"]*\\)\",/\"_elem\": \"\\1\",/g' | tee out"
    );
}

#[test]
fn fallback_when_no_output() {
    assert_eq!(json_or_fallback(Some("{\"a\": 1}".to_string())), "{\"a\": 1}");
    assert_eq!(json_or_fallback(None), "{\"error\": \"xml2json command not available\"}");
}
