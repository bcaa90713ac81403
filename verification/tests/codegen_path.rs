use transact::codegen::path::{path_to_token_stream, PathToken};

fn render(tokens: &[PathToken]) -> Vec<String> {
    tokens
        .iter()
        .map(|t| match t {
            PathToken::Ident(s) => s.clone(),
            PathToken::Sep => "::".to_string(),
        })
        .collect()
}

#[test]
fn splits_a_message_path() {
    let tokens = path_to_token_stream("protos::processor::TpRegisterRequest");
    assert_eq!(
        render(&tokens),
        vec!["protos", "::", "processor", "::", "TpRegisterRequest"]
    );
    assert!(matches!(tokens[1], PathToken::Sep));
}

#[test]
fn single_identifier_has_no_separator() {
    let tokens = path_to_token_stream("Message");
    assert_eq!(render(&tokens), vec!["Message"]);
}

#[test]
fn empty_path_is_one_empty_identifier() {
    let tokens = path_to_token_stream("");
    assert_eq!(render(&tokens), vec![""]);
}

#[test]
fn separators_are_found_from_the_left() {
    assert_eq!(render(&path_to_token_stream(":::")), vec!["", "::", ":"]);
    assert_eq!(render(&path_to_token_stream("a:::b")), vec!["a", "::", ":b"]);
    assert_eq!(render(&path_to_token_stream("a::")), vec!["a", "::", ""]);
    assert_eq!(render(&path_to_token_stream("::a")), vec!["", "::", "a"]);
}

#[test]
fn joining_the_identifiers_gives_back_the_path() {
    for path in ["a::b::c", "x", "::", "a:b::c:", "ä::ö"] {
        let joined: String = render(&path_to_token_stream(path)).concat();
        assert_eq!(joined, path);
    }
}
