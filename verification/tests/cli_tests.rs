use rcli::cli::base64_opts::parse_base64_format;
use rcli::cli::csv_opts::parse_format as parse_output_format;
use rcli::cli::text_opts::parse_format as parse_text_format;
use rcli::cli::{verify_file, verify_path};
use rcli::opts::verify_input_file;
use rcli::{Base64Format, OutputFormat, ProcessError, TextSignFormat};

#[test]
fn test_verify_input_file() {
    assert_eq!(verify_file("-"), Ok("-".into()));
    assert_eq!(verify_file("*"), Err("File not found"));
    assert_eq!(verify_file("src"), Ok("src".into()));
    assert_eq!(verify_file("not_found.csv"), Err("File not found"));
}

#[test]
fn test_verify_input_file_no_stdin_sentinel() {
    assert_eq!(verify_input_file("src"), Ok("src".into()));
    assert_eq!(verify_input_file("-"), Err("File not found"));
    assert_eq!(verify_input_file("not_found.csv"), Err("File not found"));
}

#[test]
fn test_verify_path() {
    assert_eq!(verify_path("src"), Ok("src".into()));
    assert_eq!(
        verify_path("Cargo.toml"),
        Err("Path does not exist or is not a directory")
    );
    assert_eq!(
        verify_path("no_such_dir"),
        Err("Path does not exist or is not a directory")
    );
}

#[test]
fn test_parse_text_sign_format() {
    assert_eq!(parse_text_format("black3"), Ok(TextSignFormat::Blake3));
    assert_eq!(parse_text_format("BLACK3"), Ok(TextSignFormat::Blake3));
    assert_eq!(parse_text_format("ed25519"), Ok(TextSignFormat::Ed25519));
    assert_eq!(
        parse_text_format("chacha_poly"),
        Ok(TextSignFormat::ChaChaPoly)
    );
    assert_eq!(
        parse_text_format("blake3"),
        Err(ProcessError::UnsupportedFormat)
    );
    assert_eq!(parse_text_format(""), Err(ProcessError::UnsupportedFormat));
}

#[test]
fn test_parse_base64_format() {
    assert_eq!(parse_base64_format("standard"), Ok(Base64Format::Standard));
    assert_eq!(parse_base64_format("UrlSafe"), Ok(Base64Format::UrlSafe));
    assert_eq!(
        parse_base64_format("base32"),
        Err(ProcessError::UnsupportedFormat)
    );
}

#[test]
fn test_parse_output_format() {
    assert_eq!(parse_output_format("json"), Ok(OutputFormat::Json));
    assert_eq!(parse_output_format("YAML"), Ok(OutputFormat::Yaml));
    assert_eq!(
        parse_output_format("toml"),
        Err(ProcessError::UnsupportedFormat)
    );
}

#[test]
fn test_format_names() {
    assert_eq!(TextSignFormat::Blake3.as_str(), "black3");
    assert_eq!(TextSignFormat::Ed25519.as_str(), "ed25519");
    assert_eq!(TextSignFormat::ChaChaPoly.as_str(), "chacha_poly");
    assert_eq!(Base64Format::Standard.as_str(), "standard");
    assert_eq!(Base64Format::UrlSafe.as_str(), "urlsafe");
    assert_eq!(OutputFormat::Json.as_str(), "json");
    assert_eq!(OutputFormat::Yaml.as_str(), "yaml");
}

#[test]
fn test_error_messages() {
    assert_eq!(
        ProcessError::UnsupportedFormat.message(),
        "Unsupported format"
    );
    assert_eq!(ProcessError::InvalidKeyLength.message(), "invalid key length");
}
