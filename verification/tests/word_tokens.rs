use narracut_core::segmentation::tokenize_words;

#[test]
fn tokens_join_to_the_text_without_whitespace() {
    let text = "Hello, world! 这是  测试。 it's_ok";
    let tokens = tokenize_words(text);
    let joined: String = tokens.concat();
    let stripped: String = text.chars().filter(|c| !c.is_whitespace()).collect();
    assert_eq!(joined, stripped);
    assert!(tokens.iter().all(|token| !token.is_empty() && !token.chars().any(char::is_whitespace)));
    assert_eq!(tokens, vec!["Hello,", "world!", "这", "是", "测", "试。", "it's_ok"]);
}

#[test]
fn whitespace_only_text_is_its_own_token() {
    assert_eq!(tokenize_words("  \t "), vec!["  \t ".to_owned()]);
    assert_eq!(tokenize_words(""), vec![String::new()]);
}
