use minishell::parser::{ParseError, Parser};

fn stages(line: &str) -> Vec<Vec<String>> {
    Parser::parse(line).expect("line should parse").commands
}

#[test]
fn lexer_quotes_scenario() {
    let out = Parser::parse("echo 'a b' \"c\\\"d\"").unwrap();
    assert_eq!(out.commands, vec![vec![
        "echo".to_string(),
        "a b".to_string(),
        "c\"d".to_string(),
    ]]);
    assert_eq!(out.out_target, None);
    assert_eq!(out.err_target, None);
}

#[test]
fn lexing_is_repeatable() {
    let line = "echo 'a b' \"c\\\"d\" > out.txt | sort";
    let first = Parser::parse(line);
    let second = Parser::parse(line);
    assert_eq!(first, second);
}

#[test]
fn redirect_truncate_target() {
    let out = Parser::parse("echo foo > /tmp/x.txt").unwrap();
    assert_eq!(out.commands, vec![vec!["echo".to_string(), "foo".to_string()]]);
    assert_eq!(out.out_target, Some(("/tmp/x.txt".to_string(), false)));
    assert_eq!(out.err_target, None);
}

#[test]
fn redirect_append_target() {
    let out = Parser::parse("echo foo >> /tmp/x.txt").unwrap();
    assert_eq!(out.commands, vec![vec!["echo".to_string(), "foo".to_string()]]);
    assert_eq!(out.out_target, Some(("/tmp/x.txt".to_string(), true)));
}

#[test]
fn alternate_stdout_operators() {
    let out = Parser::parse("cmd 1> a.txt").unwrap();
    assert_eq!(out.out_target, Some(("a.txt".to_string(), false)));
    let out = Parser::parse("cmd 1>> a.txt").unwrap();
    assert_eq!(out.out_target, Some(("a.txt".to_string(), true)));
}

#[test]
fn stderr_redirect_target() {
    let out = Parser::parse("cmd 2> err.txt").unwrap();
    assert_eq!(out.commands, vec![vec!["cmd".to_string()]]);
    assert_eq!(out.out_target, None);
    assert_eq!(out.err_target, Some("err.txt".to_string()));
}

#[test]
fn last_redirect_wins() {
    let out = Parser::parse("echo a > f1 >> f2").unwrap();
    assert_eq!(out.out_target, Some(("f2".to_string(), true)));
    let out = Parser::parse("echo a >> f1 > f2").unwrap();
    assert_eq!(out.out_target, Some(("f2".to_string(), false)));
    let out = Parser::parse("cmd 2> e1 2> e2").unwrap();
    assert_eq!(out.err_target, Some("e2".to_string()));
}

#[test]
fn pipeline_stages() {
    let out = Parser::parse("printf 'b\\na\\nc\\n' | sort").unwrap();
    assert_eq!(out.commands, vec![
        vec!["printf".to_string(), "b\\na\\nc\\n".to_string()],
        vec!["sort".to_string()],
    ]);
}

#[test]
fn empty_quotes_make_empty_arg() {
    assert_eq!(stages("echo ''"), vec![vec!["echo".to_string(), "".to_string()]]);
    assert_eq!(stages("echo \"\" x"), vec![vec![
        "echo".to_string(),
        "".to_string(),
        "x".to_string(),
    ]]);
}

#[test]
fn quoted_pipe_is_literal() {
    assert_eq!(stages("echo '|'"), vec![vec!["echo".to_string(), "|".to_string()]]);
}

#[test]
fn quoted_redirect_is_literal() {
    let out = Parser::parse("echo '>' x").unwrap();
    assert_eq!(out.commands, vec![vec![
        "echo".to_string(),
        ">".to_string(),
        "x".to_string(),
    ]]);
    assert_eq!(out.out_target, None);
}

#[test]
fn escape_outside_quotes_joins_words() {
    assert_eq!(stages("echo a\\ b"), vec![vec!["echo".to_string(), "a b".to_string()]]);
}

#[test]
fn double_quote_escapes() {
    // Inside double quotes, backslash escapes only \ " $ and newline;
    // before anything else it stands for itself.
    assert_eq!(stages("echo \"a\\\"b\""), vec![vec!["echo".to_string(), "a\"b".to_string()]]);
    assert_eq!(stages("echo \"a\\$\""), vec![vec!["echo".to_string(), "a$".to_string()]]);
    assert_eq!(stages("echo \"a\\\\b\""), vec![vec!["echo".to_string(), "a\\b".to_string()]]);
    assert_eq!(stages("echo \"a\\xb\""), vec![vec!["echo".to_string(), "a\\xb".to_string()]]);
}

#[test]
fn single_quotes_keep_backslashes() {
    assert_eq!(stages("echo 'a\\nb'"), vec![vec!["echo".to_string(), "a\\nb".to_string()]]);
}

#[test]
fn adjacent_quoted_parts_form_one_token() {
    assert_eq!(stages("echo 'a'\"b\"c"), vec![vec!["echo".to_string(), "abc".to_string()]]);
}

#[test]
fn trailing_backslash_is_error() {
    assert_eq!(Parser::parse("ab\\"), Err(ParseError::TrailingBackslash));
}

#[test]
fn trailing_backslash_in_double_quotes_is_error() {
    assert_eq!(Parser::parse("\"ab\\"), Err(ParseError::TrailingBackslash));
}

#[test]
fn unterminated_quotes_are_errors() {
    assert_eq!(Parser::parse("'oops"), Err(ParseError::UnterminatedSingleQuote));
    assert_eq!(Parser::parse("\"oops"), Err(ParseError::UnterminatedDoubleQuote));
}

#[test]
fn missing_redirect_target_is_error() {
    assert_eq!(Parser::parse("echo hi >"), Err(ParseError::MissingRedirectionTarget));
    assert_eq!(Parser::parse("echo hi 2>"), Err(ParseError::MissingRedirectionTarget));
}

#[test]
fn empty_pipeline_stage_is_error() {
    assert_eq!(Parser::parse("| foo"), Err(ParseError::EmptyPipelineStage));
    assert_eq!(Parser::parse("foo |"), Err(ParseError::EmptyPipelineStage));
    assert_eq!(Parser::parse("a | | b"), Err(ParseError::EmptyPipelineStage));
}

#[test]
fn blank_line_makes_no_stages() {
    for line in ["", "   ", " \t ", "\n"] {
        let out = Parser::parse(line).unwrap();
        assert!(out.commands.is_empty());
        assert_eq!(out.out_target, None);
        assert_eq!(out.err_target, None);
    }
}

#[test]
fn surrounding_whitespace_is_trimmed() {
    assert_eq!(stages("  echo hi  "), vec![vec!["echo".to_string(), "hi".to_string()]]);
}

#[test]
fn error_messages() {
    assert_eq!(ParseError::TrailingBackslash.message(), "trailing backslash");
    assert_eq!(ParseError::UnterminatedSingleQuote.message(), "unterminated single quote");
    assert_eq!(ParseError::UnterminatedDoubleQuote.message(), "unterminated double quote");
    assert_eq!(
        ParseError::MissingRedirectionTarget.message(),
        "no file specified for redirection"
    );
    assert_eq!(ParseError::EmptyPipelineStage.message(), "empty pipeline stage");
}
