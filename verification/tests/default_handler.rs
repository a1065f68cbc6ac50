use pdf_studio_ops::defaults::{
    command_points_at_app, extract_prog_id, last_token, prog_id_is_app, split_lines,
};

#[test]
fn prog_id_is_the_last_token_of_its_line() {
    let out = String::from(
        "\r\nHKEY_CURRENT_USER\\...\\UserChoice\r\n    ProgId    REG_SZ    AcmeReader.Document\r\n\r\n",
    );
    assert_eq!(extract_prog_id(&out), "AcmeReader.Document");
}

#[test]
fn missing_value_line_yields_nothing() {
    let out = String::from("HKEY_CURRENT_USER\\...\r\n    NoSuchValue    REG_SZ    x\r\n");
    assert_eq!(extract_prog_id(&out), "");
}

#[test]
fn first_matching_line_wins() {
    let out = String::from("ProgId REG_SZ First\nProgId REG_SZ Second\n");
    assert_eq!(extract_prog_id(&out), "First");
}

#[test]
fn value_only_line_yields_the_value_name_itself() {
    let out = String::from("   ProgId   \r\n");
    assert_eq!(extract_prog_id(&out), "ProgId");
}

#[test]
fn split_lines_keeps_empty_lines() {
    let lines = split_lines("a\nb\n\nc");
    assert_eq!(lines, vec!["a", "b", "", "c"]);
    assert_eq!(split_lines(""), vec![""]);
    assert_eq!(split_lines("x\n"), vec!["x", ""]);
}

#[test]
fn last_token_takes_the_trailing_word() {
    assert_eq!(last_token("    ProgId    REG_SZ    MyApp.Doc  \r"), "MyApp.Doc");
    assert_eq!(last_token("single"), "single");
    assert_eq!(last_token("   \t "), "");
    assert_eq!(last_token(""), "");
}

#[test]
fn prog_id_match_is_case_insensitive() {
    assert!(prog_id_is_app(&String::from("OpenPDFStudio.Document")));
    assert!(prog_id_is_app(&String::from("OPENPDFSTUDIO")));
    assert!(!prog_id_is_app(&String::from("AcmeReader.Document")));
    assert!(!prog_id_is_app(&String::from("")));
}

#[test]
fn command_match_accepts_name_or_escaped_path() {
    let out = String::from("(Default) REG_SZ \"C:\\Apps\\OpenPDFStudio\\app.exe\" \"%1\"");
    assert!(command_points_at_app(&out, &String::from("C:\\elsewhere\\app.exe")));
    // The stored command doubles backslashes; the raw path still matches
    // because the comparison doubles them too.
    let doubled = String::from("command REG_SZ c:\\\\tools\\\\viewer\\\\viewer.exe \"%1\"");
    assert!(command_points_at_app(
        &doubled,
        &String::from("C:\\Tools\\Viewer\\Viewer.exe")
    ));
    assert!(!command_points_at_app(
        &String::from("command REG_SZ c:\\other\\reader.exe"),
        &String::from("C:\\Tools\\Viewer\\Viewer.exe")
    ));
}
