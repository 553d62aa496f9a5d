use jsandbox::error::Error;
use jsandbox::error::ErrorKind;

#[test]
fn each_kind_introduces_its_detail() {
    let cases = [
        (ErrorKind::Loading, "Error loading module: d"),
        (ErrorKind::Evaluating, "Error evaluating module: d"),
        (ErrorKind::GettingDefaultExport, "Error getting default export: d"),
        (ErrorKind::GettingDefaultFunction, "Error getting `default` function: d"),
        (ErrorKind::ParsingInputValues, "Error parsing input values: d"),
        (ErrorKind::CallingModuleFunction, "d"),
        (ErrorKind::NotStringifiable, "Value could not be stringified to JSON: d"),
        (ErrorKind::EngineError, "A QuickJS error occured: d"),
    ];
    for (kind, message) in cases {
        let error = Error::new(kind, "d".to_string());
        assert_eq!(error.kind(), kind);
        assert_eq!(error.detail(), "d");
        assert_eq!(error.message(), message);
        assert_eq!(format!("{}{}", kind.prefix(), "d"), message);
    }
}

#[test]
fn value_without_json_text_and_without_cause_reads_as_the_bare_sentence() {
    let error = Error::new(ErrorKind::NotStringifiable, String::new());
    assert_eq!(error.message(), "Value could not be stringified to JSON");
}

#[test]
fn empty_detail_keeps_the_prefix_of_other_kinds() {
    assert_eq!(Error::new(ErrorKind::Loading, String::new()).message(), "Error loading module: ");
    assert_eq!(Error::new(ErrorKind::CallingModuleFunction, String::new()).message(), "");
}

#[test]
fn errors_compare_by_kind_and_detail() {
    let a = Error::new(ErrorKind::Loading, "x".to_string());
    assert_eq!(a, Error::new(ErrorKind::Loading, "x".to_string()));
    assert_ne!(a, Error::new(ErrorKind::Evaluating, "x".to_string()));
    assert_ne!(a, Error::new(ErrorKind::Loading, "y".to_string()));
}
