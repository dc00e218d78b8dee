use std::io::Read;
use std::io::Write;
use std::path::PathBuf;

use include_glob::Error;
use include_glob::InputToken;
use include_glob::Token;
use include_glob::bytes_to_token_stream;
use include_glob::extract_pattern;
use include_glob::file_name_token;
use include_glob::get_path;
use include_glob::select_single;
use include_glob::str_to_token_stream;

/// The invocation input for a pattern written literally at a call site.
fn input_for(pattern: &str) -> Vec<InputToken> {
    vec![InputToken::Literal(format!("\"{}\"", pattern))]
}

/// A fresh directory holding one file with the given name and contents.
fn dir_with_file(name: &str, contents: &[u8]) -> (tempfile::TempDir, tempfile::NamedTempFile) {
    let dir = tempfile::tempdir().unwrap();
    let file = file_in(&dir, name, contents);
    (dir, file)
}

fn file_in(dir: &tempfile::TempDir, name: &str, contents: &[u8]) -> tempfile::NamedTempFile {
    let dot = name.rfind('.').unwrap();
    let mut file = tempfile::Builder::new()
        .prefix(&name[..dot])
        .suffix(&name[dot..])
        .rand_bytes(0)
        .tempfile_in(dir.path())
        .unwrap();
    file.write_all(contents).unwrap();
    file
}

fn pattern_in(dir: &tempfile::TempDir, tail: &str) -> String {
    format!("{}/{}", dir.path().to_str().unwrap(), tail)
}

fn read_back(file: &tempfile::NamedTempFile) -> Vec<u8> {
    let mut buf = Vec::new();
    file.reopen().unwrap().read_to_end(&mut buf).unwrap();
    buf
}

fn single_str_token(ts: &[Token]) -> &str {
    assert_eq!(ts.len(), 1);
    match &ts[0] {
        Token::Str(s) => s,
        other => panic!("expected a string token, got {:?}", other),
    }
}

fn decoded_bytes(ts: &[Token]) -> Vec<u8> {
    assert_eq!(ts.len(), 2);
    assert_eq!(ts[0], Token::Punct('&'));
    let group = match &ts[1] {
        Token::Group(g) => g,
        other => panic!("expected a bracketed group, got {:?}", other),
    };
    assert_eq!(group.len() % 2, 0);
    let mut out = Vec::new();
    let mut i = 0;
    while i < group.len() {
        match &group[i] {
            Token::Byte(b) => out.push(*b),
            other => panic!("expected a byte literal, got {:?}", other),
        }
        assert_eq!(group[i + 1], Token::Punct(','));
        i += 2;
    }
    out
}

#[test]
fn read_bytes() {
    let (dir, file) = dir_with_file("hello.123.txt", b"hello world");
    let input = input_for(&pattern_in(&dir, "hello.*.txt"));

    let path = get_path(&input).unwrap();
    assert_eq!(path.as_path(), file.path());
    let hello_world = decoded_bytes(&bytes_to_token_stream(&read_back(&file)));

    assert_eq!(hello_world, b"hello world");
}

#[test]
fn read_str() {
    let (dir, file) = dir_with_file("hello.123.txt", b"hello world");
    let input = input_for(&pattern_in(&dir, "hello.*.txt"));

    let path = get_path(&input).unwrap();
    assert_eq!(path.as_path(), file.path());
    let ts = str_to_token_stream(read_back(&file)).unwrap();
    let hello_world = single_str_token(&ts);

    assert_eq!(hello_world, "hello world");
}

#[test]
fn glob() {
    let (dir, file) = dir_with_file("hello.123.txt", b"hello world");
    let input = input_for(&pattern_in(&dir, "hello.*.txt"));

    let ts = include_glob::glob(&input).unwrap();
    let file_name = single_str_token(&ts);

    assert_eq!(file_name, "hello.123.txt");

    // The emitted name, joined back onto its directory, designates the
    // matched file itself.
    assert_eq!(dir.path().join(file_name).as_path(), file.path());
    let file_data = read_back(&file);

    assert_eq!(file_data, b"hello world");
}

#[test]
fn empty_input_needs_string() {
    assert_eq!(extract_pattern(&Vec::new()), Err(Error::NeedsString));
    assert_eq!(get_path(&Vec::new()), Err(Error::NeedsString));
}

#[test]
fn non_literal_needs_string() {
    let input = vec![InputToken::Other];
    assert_eq!(extract_pattern(&input), Err(Error::NeedsString));
}

#[test]
fn two_tokens_rejected() {
    let input = vec![
        InputToken::Literal("\"a\"".to_string()),
        InputToken::Literal("\"b\"".to_string()),
    ];
    assert_eq!(extract_pattern(&input), Err(Error::ExtraInput));
    assert_eq!(include_glob::glob(&input), Err(Error::ExtraInput));
}

#[test]
fn unquoted_literal_rejected() {
    let input = vec![InputToken::Literal("123".to_string())];
    assert_eq!(extract_pattern(&input), Err(Error::NotAString));
}

#[test]
fn quotes_are_stripped() {
    let input = vec![InputToken::Literal("\"a*b\"".to_string())];
    assert_eq!(extract_pattern(&input), Ok("a*b".to_string()));
}

#[test]
fn invalid_pattern_rejected() {
    let input = input_for("a***");
    match get_path(&input) {
        Err(Error::InvalidPattern { .. }) => {},
        other => panic!("expected a pattern error, got {:?}", other),
    }
    match include_glob::glob(&input) {
        Err(Error::InvalidPattern { cause }) => {
            let e = Error::InvalidPattern { cause };
            assert!(e.message().starts_with("invalid glob pattern: "));
        },
        other => panic!("expected a pattern error, got {:?}", other),
    }
}

#[test]
fn zero_matches_fail() {
    let dir = tempfile::tempdir().unwrap();
    let pattern = pattern_in(&dir, "nothing.*.txt");
    let input = input_for(&pattern);

    assert_eq!(
        get_path(&input),
        Err(Error::NoMatch { pattern: pattern.clone() })
    );
    assert_eq!(
        include_glob::glob(&input),
        Err(Error::NoMatch { pattern: pattern.clone() })
    );
    let e = Error::NoMatch { pattern: pattern.clone() };
    assert_eq!(
        e.message(),
        format!("no file found that matches pattern {}", pattern)
    );
}

#[test]
fn two_matches_fail() {
    let dir = tempfile::tempdir().unwrap();
    let _first = file_in(&dir, "hello.123.txt", b"hello world");
    let _second = file_in(&dir, "hello.456.txt", b"bye world");
    let input = input_for(&pattern_in(&dir, "hello.*.txt"));

    assert_eq!(get_path(&input), Err(Error::MultipleMatches));
    assert_eq!(include_glob::glob(&input), Err(Error::MultipleMatches));
    assert_eq!(
        Error::MultipleMatches.message(),
        "pattern is valid for multiple files"
    );
}

#[test]
fn invalid_utf8_contents_fail() {
    let (dir, file) = dir_with_file("hello.123.txt", &[0x68, 0xff, 0xfe]);
    let input = input_for(&pattern_in(&dir, "hello.*.txt"));

    let path = get_path(&input).unwrap();
    assert_eq!(path.as_path(), file.path());
    match str_to_token_stream(read_back(&file)) {
        Err(Error::NotUtf8 { cause }) => {
            let e = Error::NotUtf8 { cause };
            assert!(e.message().starts_with("file is not valid utf8: "));
        },
        other => panic!("expected an encoding error, got {:?}", other),
    }
    // The byte form embeds the same contents untouched.
    assert_eq!(
        decoded_bytes(&bytes_to_token_stream(&read_back(&file))),
        vec![0x68, 0xff, 0xfe]
    );
}

#[test]
fn empty_file_embeds_empty_literals() {
    let ts = bytes_to_token_stream(&Vec::new());
    assert_eq!(decoded_bytes(&ts), Vec::<u8>::new());
    assert_eq!(ts[1], Token::Group(Vec::new()));

    let ts = str_to_token_stream(Vec::new()).unwrap();
    assert_eq!(single_str_token(&ts), "");
}

#[test]
fn byte_embedding_round_trips() {
    let mut contents = Vec::new();
    for i in 0..=255u8 {
        contents.push(i);
        contents.push(i.wrapping_mul(37).wrapping_add(11));
    }
    let (dir, file) = dir_with_file("blob.123.bin", &contents);
    let input = input_for(&pattern_in(&dir, "blob.*.bin"));

    let path = get_path(&input).unwrap();
    assert_eq!(path.as_path(), file.path());
    let on_disk = read_back(&file);
    assert_eq!(on_disk, contents);
    assert_eq!(decoded_bytes(&bytes_to_token_stream(&on_disk)), contents);
}

#[test]
fn file_name_is_base_name_only() {
    let ts = file_name_token(&PathBuf::from("tests/data/hello.123.txt")).unwrap();
    assert_eq!(single_str_token(&ts), "hello.123.txt");
}

#[test]
fn root_path_has_no_file_name() {
    assert_eq!(file_name_token(&PathBuf::from("/")), Err(Error::NoFileName));
    assert_eq!(Error::NoFileName.message(), "couldn't read file name");
}

#[test]
fn repeated_calls_agree() {
    let (dir, _file) = dir_with_file("hello.123.txt", b"hello world");
    let input = input_for(&pattern_in(&dir, "hello.*.txt"));

    assert_eq!(get_path(&input), get_path(&input));
    assert_eq!(include_glob::glob(&input), include_glob::glob(&input));
    assert_eq!(extract_pattern(&input), extract_pattern(&input));

    let contents = b"hello world".to_vec();
    assert_eq!(
        bytes_to_token_stream(&contents),
        bytes_to_token_stream(&contents)
    );
    assert_eq!(
        str_to_token_stream(contents.clone()),
        str_to_token_stream(contents)
    );
}

#[test]
fn single_match_decision_table() {
    // Zero candidates: no file found, naming the pattern itself.
    assert_eq!(
        select_single("a.*.txt", None, false),
        Err(Error::NoMatch { pattern: "a.*.txt".to_string() })
    );

    // A first candidate that was unreadable: its read failure surfaces.
    assert_eq!(
        select_single(
            "a.*.txt",
            Some(Err(("a/b".to_string(), "denied".to_string()))),
            false
        ),
        Err(Error::Read { path: "a/b".to_string(), cause: "denied".to_string() })
    );

    // A lone successful candidate resolves to its path.
    assert_eq!(
        select_single("a.*.txt", Some(Ok(PathBuf::from("a.1.txt"))), false),
        Ok(PathBuf::from("a.1.txt"))
    );

    // Any second candidate at all makes the pattern ambiguous.
    assert_eq!(
        select_single("a.*.txt", Some(Ok(PathBuf::from("a.1.txt"))), true),
        Err(Error::MultipleMatches)
    );
}

#[test]
fn usage_messages_are_fixed() {
    assert_eq!(Error::NeedsString.message(), "input needs to be a string");
    assert_eq!(Error::ExtraInput.message(), "input can only be one string");
    assert_eq!(
        Error::NotAString.message(),
        "this macro only accepts a string argument"
    );
    assert_eq!(
        Error::FileNameNotUtf8.message(),
        "file name is not valid utf8"
    );
    let e = Error::Read {
        path: "a/b.txt".to_string(),
        cause: "denied".to_string(),
    };
    assert_eq!(e.message(), "couldn't read a/b.txt: denied");
}
