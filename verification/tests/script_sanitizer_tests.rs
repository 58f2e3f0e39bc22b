use sharing_hub::script_sanitizer::clean_python_script;

#[test]
fn test_clean_python_script_removes_simple_print() {
    let script = "print('hello')\nprint('world')".to_string();
    let result = clean_python_script(script);
    assert_eq!(result, "");
}

#[test]
fn test_clean_python_script_removes_print_with_complex_args() {
    let script = "x = 5\nprint(f'Value is {x}')\ny = 10".to_string();
    let result = clean_python_script(script);
    assert_eq!(result, "x = 5\ny = 10");
}

#[test]
fn test_clean_python_script_removes_multiline_print() {
    let script = "print(\n    'hello',\n    'world'\n)\nprint('done')".to_string();
    let result = clean_python_script(script);
    assert_eq!(result, "");
}

#[test]
fn test_clean_python_script_preserves_print_in_strings() {
    let script = "text = 'print(\"hello\")'\nprint('world')".to_string();
    let result = clean_python_script(script);
    assert_eq!(result, "text = 'print(\"hello\")'\n");
}

#[test]
fn test_clean_python_script_handles_nested_parentheses() {
    let script = "print(f'Result: {func(1, 2, 3)}')\nx = 5".to_string();
    let result = clean_python_script(script);
    assert_eq!(result, "x = 5");
}

#[test]
fn test_clean_python_script_handles_escaped_quotes() {
    let script = "print('He said \\'hello\\'')\nprint(\"She said \\\"world\\\"\")".to_string();
    let result = clean_python_script(script);
    assert_eq!(result, "");
}

#[test]
fn test_clean_python_script_removes_print_with_semicolon() {
    let script = "print('hello'); print('world'); x = 5".to_string();
    let result = clean_python_script(script);
    assert_eq!(result, "x = 5");
}

#[test]
fn test_clean_python_script_preserves_comments() {
    let script = "# This is a comment\nprint('hello')\n# Another comment".to_string();
    let result = clean_python_script(script);
    assert_eq!(result, "# This is a comment\n# Another comment");
}

#[test]
fn test_clean_python_script_handles_empty_script() {
    let script = "".to_string();
    let result = clean_python_script(script);
    assert_eq!(result, "");
}

#[test]
fn test_clean_python_script_handles_no_print_statements() {
    let script = "x = 5\ny = 10\nz = x + y".to_string();
    let result = clean_python_script(script);
    assert_eq!(result, "x = 5\ny = 10\nz = x + y");
}

#[test]
fn test_clean_python_script_handles_print_in_comments() {
    let script =
        "# print('this should stay')\nprint('this should go')\n# print('this too')".to_string();
    let result = clean_python_script(script);
    assert_eq!(result, "# print('this should stay')\n# print('this too')");
}

#[test]
fn test_clean_python_script_keeps_result_assignment_after_print() {
    let script = "print('debug')\nresult = {\"ok\": true}".to_string();
    let result = clean_python_script(script);
    assert_eq!(result, "result = {\"ok\": true}");
}

#[test]
fn test_clean_python_script_removes_print_with_leading_indent() {
    let script = "if x:\n    print('dbg')\n    y = 1".to_string();
    let result = clean_python_script(script);
    assert_eq!(result, "if x:\n        y = 1");
}
