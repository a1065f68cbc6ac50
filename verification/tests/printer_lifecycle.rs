use pdf_studio_ops::printer::{
    install_script, is_installed_query, printer_name, query_reports_installed, remove_script,
};
use pdf_studio_ops::printing::{normalize_printer_list, print_command, temp_pdf_name};

#[test]
fn print_scratch_name_follows_the_stamp() {
    assert_eq!(temp_pdf_name(42), "openstudio_print_42.pdf");
    assert_ne!(temp_pdf_name(1), temp_pdf_name(2));
}

#[test]
fn printer_name_is_fixed() {
    assert_eq!(printer_name(), "Open PDF Studio");
}

#[test]
fn install_script_creates_after_best_effort_removal() {
    let s = install_script();
    let expected = "$ErrorActionPreference = 'Stop'\n$printerName = 'Open PDF Studio'\ntry { Remove-Printer -Name $printerName -ErrorAction SilentlyContinue } catch {}\nAdd-Printer -Name $printerName -DriverName 'Microsoft Print to PDF' -PortName 'PORTPROMPT:'";
    assert_eq!(s, expected);
}

#[test]
fn remove_script_tolerates_an_absent_device() {
    let s = remove_script();
    let expected = "$ErrorActionPreference = 'Stop'\n$printerName = 'Open PDF Studio'\nif (Get-Printer -Name $printerName -ErrorAction SilentlyContinue) { Remove-Printer -Name $printerName }\nGet-PrinterPort | Where-Object { $_.Name -like '*OpenPDFStudio*print-capture*' } | Remove-PrinterPort";
    assert_eq!(s, expected);
}

#[test]
fn install_query_is_non_mutating_lookup() {
    let q = is_installed_query();
    assert_eq!(
        q,
        "Get-Printer -Name 'Open PDF Studio' -ErrorAction SilentlyContinue | Select-Object -ExpandProperty Name"
    );
}

#[test]
fn query_match_is_exact_after_trim() {
    assert!(query_reports_installed(&String::from("Open PDF Studio")));
    assert!(query_reports_installed(&String::from("Open PDF Studio\r\n")));
    assert!(query_reports_installed(&String::from("  Open PDF Studio  ")));
    assert!(!query_reports_installed(&String::from("")));
    assert!(!query_reports_installed(&String::from("open pdf studio")));
    assert!(!query_reports_installed(&String::from("Open PDF Studio 2")));
    assert!(!query_reports_installed(&String::from("Microsoft Print to PDF")));
}

#[test]
fn single_object_output_is_wrapped_into_an_array() {
    let raw = String::from("{\"Name\":\"P\",\"DriverName\":\"D\"}\r\n");
    assert_eq!(
        normalize_printer_list(&raw),
        "[{\"Name\":\"P\",\"DriverName\":\"D\"}]"
    );
}

#[test]
fn array_output_is_only_trimmed() {
    let raw = String::from(" [{\"Name\":\"A\"},{\"Name\":\"B\"}]\n");
    assert_eq!(normalize_printer_list(&raw), "[{\"Name\":\"A\"},{\"Name\":\"B\"}]");
    assert_eq!(normalize_printer_list(&String::from("")), "");
    assert_eq!(normalize_printer_list(&String::from("[]")), "[]");
}

#[test]
fn print_command_escapes_single_quotes() {
    let cmd = print_command(&String::from("C:\\it's.pdf"), &String::from("My Printer"));
    assert_eq!(
        cmd,
        "Start-Process -FilePath 'C:\\it''s.pdf' -Verb PrintTo -ArgumentList '\"My Printer\"' -WindowStyle Hidden"
    );
}

#[test]
fn print_command_plain_values_pass_through() {
    let cmd = print_command(&String::from("a.pdf"), &String::from("Open PDF Studio"));
    assert_eq!(
        cmd,
        "Start-Process -FilePath 'a.pdf' -Verb PrintTo -ArgumentList '\"Open PDF Studio\"' -WindowStyle Hidden"
    );
}
