use pdf_studio_ops::startup::pick_opened_file;

#[test]
fn first_pdf_argument_is_picked() {
    let args = vec![
        String::from("app.exe"),
        String::from("--verbose"),
        String::from("C:\\Docs\\Report.PDF"),
        String::from("second.pdf"),
    ];
    assert_eq!(pick_opened_file(&args), Some(String::from("C:\\Docs\\Report.PDF")));
}

#[test]
fn switches_and_other_files_are_skipped() {
    let args = vec![
        String::from("app.exe"),
        String::from("--open=x.pdf"),
        String::from("notes.txt"),
    ];
    assert_eq!(pick_opened_file(&args), None);
}

#[test]
fn the_program_name_itself_is_not_picked() {
    let args = vec![String::from("viewer.pdf")];
    assert_eq!(pick_opened_file(&args), None);
    assert_eq!(pick_opened_file(&Vec::new()), None);
}
