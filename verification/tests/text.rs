use hotshader::error::Error;
use hotshader::command::Stage;
use hotshader::text::{info_log_to_str, is_whitespace, strip_nul, strip_trailing_space};

#[test]
fn white_space_is_what_the_standard_library_calls_white_space() {
    let mut code: u32 = 0;
    while code <= 0x10FFFF {
        if let Some(c) = char::from_u32(code) {
            assert_eq!(is_whitespace(c), c.is_whitespace(), "U+{:04X}", code);
        }
        code += 1;
    }
}

#[test]
fn info_log_loses_padding_and_trailing_space() {
    let mut log = b"ERROR: 0:3: 'x' : undeclared identifier \r\n\t".to_vec();
    log.resize(511, 0);
    assert_eq!(info_log_to_str(&log), "ERROR: 0:3: 'x' : undeclared identifier");
}

#[test]
fn info_log_keeps_leading_and_inner_space() {
    assert_eq!(info_log_to_str(&b"  a  b \n".to_vec()), "  a  b");
}

#[test]
fn info_log_loses_inner_nul_characters() {
    assert_eq!(info_log_to_str(&b"a\0b\0 \0".to_vec()), "ab");
}

#[test]
fn info_log_of_nothing_is_empty() {
    assert_eq!(info_log_to_str(&Vec::new()), "");
    assert_eq!(info_log_to_str(&vec![0u8; 511]), "");
    assert_eq!(info_log_to_str(&b" \n\t ".to_vec()), "");
}

#[test]
fn info_log_decodes_utf8_and_replaces_what_is_malformed() {
    assert_eq!(info_log_to_str(&"größe\u{2003}".as_bytes().to_vec()), "größe");
    assert_eq!(info_log_to_str(&vec![b'a', 0xFF, b'b', 0]), "a\u{FFFD}b");
}

#[test]
fn strip_nul_leaves_everything_else() {
    assert_eq!(strip_nul("\0a \0\0b\n\0"), "a b\n");
    assert_eq!(strip_nul(""), "");
}

#[test]
fn strip_trailing_space_stops_at_the_last_visible_character() {
    assert_eq!(strip_trailing_space(" a b \u{85}\u{A0}\u{3000} "), " a b");
    assert_eq!(strip_trailing_space("a\0 "), "a\0");
    assert_eq!(strip_trailing_space("   "), "");
}

#[test]
fn messages_follow_the_kind_of_failure() {
    assert_eq!(
        Error::Compile { stage: Stage::Vertex, log: "bad".to_string() }.message(),
        "ERROR::SHADER::VERTEX::COMPILATION_FAILED\nbad"
    );
    assert_eq!(
        Error::Compile { stage: Stage::Fragment, log: "bad".to_string() }.message(),
        "ERROR::SHADER::FRAGMENT::COMPILATION_FAILED\nbad"
    );
    assert_eq!(
        Error::Link { log: "worse".to_string() }.message(),
        "ERROR::SHADER::PROGRAM::COMPILATION_FAILED\nworse"
    );
    assert_eq!(Error::MissingVertices.message(), "No vertices supplied");
    assert_eq!(
        Error::UniformNotFound { name: "ourColor".to_string() }.message(),
        "Cannot find location ourColor in current shader"
    );
    assert_eq!(
        Error::FileRead { path: "a.vert".to_string() }.message(),
        "Could not read file a.vert"
    );
}
