use calendar_tray::json::is_valid_json_array;

#[test]
fn empty_and_blank_arrays() {
    assert!(is_valid_json_array("[]"));
    assert!(is_valid_json_array("[ ]"));
    assert!(is_valid_json_array("[\n\t ]"));
}

#[test]
fn literals_and_numbers() {
    assert!(is_valid_json_array("[null,true,false]"));
    assert!(is_valid_json_array("[0]"));
    assert!(is_valid_json_array("[-12, 3.25, 1e9, 2E-3, 0.5e+1]"));
    assert!(!is_valid_json_array("[truth]"));
    assert!(!is_valid_json_array("[+1]"));
    assert!(!is_valid_json_array("[.5]"));
    assert!(!is_valid_json_array("[1.]"));
    assert!(!is_valid_json_array("[1e]"));
    assert!(!is_valid_json_array("[01]"));
    assert!(!is_valid_json_array("[-]"));
}

#[test]
fn strings_and_escapes() {
    assert!(is_valid_json_array("[\"\"]"));
    assert!(is_valid_json_array("[\"hello, world\"]"));
    assert!(is_valid_json_array("[\"a\\nb\\t\\\\\\\"c\\/\"]"));
    assert!(is_valid_json_array("[\"\\u12AB\\u00ff\"]"));
    assert!(is_valid_json_array("[\"caf\u{e9} \u{4e16}\u{754c}\"]"));
    assert!(!is_valid_json_array("[\"unterminated]"));
    assert!(!is_valid_json_array("[\"\\q\"]"));
    assert!(!is_valid_json_array("[\"\\u12G4\"]"));
    assert!(!is_valid_json_array("[\"\\u12\"]"));
    assert!(!is_valid_json_array("[\"raw\ncontrol\"]"));
}

#[test]
fn nested_values() {
    assert!(is_valid_json_array("[[], [1, [2, [3]]]]"));
    assert!(is_valid_json_array("[{}, {\"a\": 1}, {\"a\": {\"b\": [null]}, \"c\": 2}]"));
    assert!(is_valid_json_array(
        "[ { \"title\" : \"Standup\" , \"isAllDay\" : false } , { \"url\" : null } ]"
    ));
    assert!(!is_valid_json_array("[{\"a\" 1}]"));
    assert!(!is_valid_json_array("[{a: 1}]"));
    assert!(!is_valid_json_array("[{\"a\": 1,}]"));
    assert!(!is_valid_json_array("[[1, 2]"));
}

#[test]
fn non_arrays_are_rejected() {
    assert!(!is_valid_json_array(""));
    assert!(!is_valid_json_array("null"));
    assert!(!is_valid_json_array("{\"a\": []}"));
    assert!(!is_valid_json_array("42"));
    assert!(!is_valid_json_array(" []"));
    assert!(!is_valid_json_array("[] "));
    assert!(!is_valid_json_array("[1], [2]"));
    assert!(!is_valid_json_array("[1,]"));
    assert!(!is_valid_json_array("]["));
}
