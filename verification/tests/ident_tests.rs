use geoconnect::ident::validate_sql_identifier;
use geoconnect::ident::quote_identifier;
use geoconnect::ident::quote_raw_identifier;
use geoconnect::ident::IdentifierError;

#[test]
fn plain_identifier_passes() {
    assert!(validate_sql_identifier("layers").is_ok());
    assert!(validate_sql_identifier("safe_name_42").is_ok());
    assert!(validate_sql_identifier("wkb_geometry").is_ok());
}

#[test]
fn empty_identifier_fails_with_empty_error() {
    assert_eq!(validate_sql_identifier(""), Err(IdentifierError::Empty));
    assert_eq!(
        IdentifierError::Empty.message(),
        "Identifier cannot be empty"
    );
}

#[test]
fn injection_attempt_fails() {
    assert_eq!(
        validate_sql_identifier("layers;DROP TABLE x"),
        Err(IdentifierError::Unsafe)
    );
    assert_eq!(
        IdentifierError::Unsafe.message(),
        "Invalid identifier: contains unsafe characters"
    );
}

#[test]
fn each_forbidden_character_fails() {
    assert!(validate_sql_identifier("semi;colon").is_err());
    assert!(validate_sql_identifier("quo'te").is_err());
    assert!(validate_sql_identifier("dou\"ble").is_err());
    assert!(validate_sql_identifier("back\\slash").is_err());
    assert!(validate_sql_identifier("nul\0byte").is_err());
    assert!(validate_sql_identifier("line\nfeed").is_err());
    assert!(validate_sql_identifier("carriage\rreturn").is_err());
}

#[test]
fn keywords_fail_case_insensitively() {
    assert!(validate_sql_identifier("drop").is_err());
    assert!(validate_sql_identifier("DrOp").is_err());
    assert!(validate_sql_identifier("xxDELETEyy").is_err());
    assert!(validate_sql_identifier("insertion").is_err());
    assert!(validate_sql_identifier("updates").is_err());
    assert!(validate_sql_identifier("my_update_log").is_err());
}

#[test]
fn near_keywords_pass() {
    assert!(validate_sql_identifier("dro").is_ok());
    assert!(validate_sql_identifier("dr0p").is_ok());
    assert!(validate_sql_identifier("inser_t").is_ok());
    assert!(validate_sql_identifier("up_date").is_ok());
}

#[test]
fn quoting_doubles_embedded_double_quotes() {
    assert_eq!(quote_raw_identifier("O'Hara\"s"), "\"O'Hara\"\"s\"");
}

#[test]
fn quoting_wraps_plain_identifier() {
    assert_eq!(quote_raw_identifier("layers"), "\"layers\"");
    assert_eq!(quote_identifier("layers"), Ok(String::from("\"layers\"")));
}

#[test]
fn quote_identifier_rejects_what_validation_rejects() {
    assert_eq!(quote_identifier("O'Hara\"s"), Err(IdentifierError::Unsafe));
    assert_eq!(quote_identifier(""), Err(IdentifierError::Empty));
}
