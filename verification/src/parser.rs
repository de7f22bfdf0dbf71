//! The input tokenizer and the pipeline / redirection extractor.
//!
//! [`Parser::parse`] turns a raw line into an ordered sequence of pipeline
//! stages (each a non-empty argument list) plus at most one stdout and one
//! stderr redirection target.  Its result is pinned, for every input, to
//! the spec-level model [`parse_spec`]: a three-state lexer over the
//! trimmed character sequence followed by a single scan that splits on
//! unquoted `|` tokens and extracts redirection operators.

use vstd::prelude::*;

use crate::text::{
    is_space, is_space_char, push_char, str_eq, to_chars, trim_chars, trim_spec,
};

verus! {

/// The states of the lexer: outside quotes, inside `'...'`, inside `"..."`.
#[derive(Clone, Copy, Debug, PartialEq, Eq, Structural)]
pub enum ParseState {
    Normal,
    InSingleQuote,
    InDoubleQuote,
}

/// The ways a line can fail to parse.  All are fatal for the current line
/// only: nothing of the line executes and nothing enters the history.
#[derive(Clone, Copy, Debug, PartialEq, Eq, Structural)]
pub enum ParseError {
    /// The line ends in an unescaped `\` outside single quotes.
    TrailingBackslash,
    /// A `'` is never closed.
    UnterminatedSingleQuote,
    /// A `"` is never closed.
    UnterminatedDoubleQuote,
    /// A redirection operator stands last, with no filename after it.
    MissingRedirectionTarget,
    /// A `|` with no command before or after it.
    EmptyPipelineStage,
}

impl ParseError {
    /// The diagnostic text for this error.
    pub open spec fn message_spec(self) -> Seq<char> {
        match self {
            ParseError::TrailingBackslash => "trailing backslash"@,
            ParseError::UnterminatedSingleQuote => "unterminated single quote"@,
            ParseError::UnterminatedDoubleQuote => "unterminated double quote"@,
            ParseError::MissingRedirectionTarget => "no file specified for redirection"@,
            ParseError::EmptyPipelineStage => "empty pipeline stage"@,
        }
    }

    /// The diagnostic text reported to the stderr destination.
    pub fn message(&self) -> (r: &'static str)
        ensures
            r@ == self.message_spec(),
    {
        match self {
            ParseError::TrailingBackslash => "trailing backslash",
            ParseError::UnterminatedSingleQuote => "unterminated single quote",
            ParseError::UnterminatedDoubleQuote => "unterminated double quote",
            ParseError::MissingRedirectionTarget => "no file specified for redirection",
            ParseError::EmptyPipelineStage => "empty pipeline stage",
        }
    }
}

/// A finished token: its characters, and whether quotes contributed to
/// it.  A token that came from quotes is never an operator.
pub type LexToken = (Seq<char>, bool);

/// Ends the token under construction: an accumulated token joins the
/// output if it has characters or came from quotes (so empty quotes make
/// an explicit empty argument, and bare separators make nothing).
pub open spec fn flush_token(cur: Seq<char>, quoted: bool, acc: Seq<LexToken>) -> Seq<
    LexToken,
> {
    if cur.len() > 0 || quoted {
        acc.push((cur, quoted))
    } else {
        acc
    }
}

/// One pass of the lexer over `s` from position `i`, in state `st`, with
/// `cur` the token under construction (`quoted` when quotes contributed to
/// it) and `acc` the tokens already finished.
///
/// Outside quotes, white space separates tokens, `\` copies the next
/// character literally, and quotes open their state.  Inside single quotes
/// everything is literal.  Inside double quotes `\` escapes only `\`, `"`,
/// `$` and newline, and stands for itself before anything else.  Ending
/// inside a quote, or right after a `\`, is an error.
pub open spec fn lex_from(
    s: Seq<char>,
    i: int,
    st: ParseState,
    cur: Seq<char>,
    quoted: bool,
    acc: Seq<LexToken>,
) -> Result<Seq<LexToken>, ParseError>
    decreases s.len() - i,
    when 0 <= i <= s.len()
{
    if i == s.len() {
        match st {
            ParseState::Normal => Ok(flush_token(cur, quoted, acc)),
            ParseState::InSingleQuote => Err(ParseError::UnterminatedSingleQuote),
            ParseState::InDoubleQuote => Err(ParseError::UnterminatedDoubleQuote),
        }
    } else {
        let c = s[i];
        match st {
            ParseState::Normal => {
                if c == '\\' {
                    if i + 1 == s.len() {
                        Err(ParseError::TrailingBackslash)
                    } else {
                        lex_from(s, i + 2, ParseState::Normal, cur.push(s[i + 1]), quoted, acc)
                    }
                } else if c == '\'' {
                    lex_from(s, i + 1, ParseState::InSingleQuote, cur, true, acc)
                } else if c == '"' {
                    lex_from(s, i + 1, ParseState::InDoubleQuote, cur, true, acc)
                } else if is_space_char(c) {
                    lex_from(
                        s,
                        i + 1,
                        ParseState::Normal,
                        Seq::empty(),
                        false,
                        flush_token(cur, quoted, acc),
                    )
                } else {
                    lex_from(s, i + 1, ParseState::Normal, cur.push(c), quoted, acc)
                }
            },
            ParseState::InSingleQuote => {
                if c == '\'' {
                    lex_from(s, i + 1, ParseState::Normal, cur, quoted, acc)
                } else {
                    lex_from(s, i + 1, ParseState::InSingleQuote, cur.push(c), quoted, acc)
                }
            },
            ParseState::InDoubleQuote => {
                if c == '"' {
                    lex_from(s, i + 1, ParseState::Normal, cur, quoted, acc)
                } else if c == '\\' {
                    if i + 1 == s.len() {
                        Err(ParseError::TrailingBackslash)
                    } else if s[i + 1] == '\\' || s[i + 1] == '"' || s[i + 1] == '$' || s[i + 1]
                        == '\n' {
                        lex_from(s, i + 2, ParseState::InDoubleQuote, cur.push(s[i + 1]), quoted, acc)
                    } else {
                        lex_from(s, i + 1, ParseState::InDoubleQuote, cur.push('\\'), quoted, acc)
                    }
                } else {
                    lex_from(s, i + 1, ParseState::InDoubleQuote, cur.push(c), quoted, acc)
                }
            },
        }
    }
}

/// The token sequence of a line: the lexer run over the trimmed input.
pub open spec fn lex_spec(s: Seq<char>) -> Result<Seq<LexToken>, ParseError> {
    lex_from(trim_spec(s), 0, ParseState::Normal, Seq::empty(), false, Seq::empty())
}

/// What the extractor produces: the ordered stage groups, the stdout
/// target with its append flag, and the stderr target.
pub type ExtractedLine = (Seq<Seq<Seq<char>>>, Option<(Seq<char>, bool)>, Option<Seq<char>>);

/// One scan over the token sequence from position `j`: `cur` is the stage
/// under construction, `stages` the finished stages, `out` and `err` the
/// redirection targets seen so far (a later occurrence wins).
///
/// The operators are matched as whole tokens only, and only where no
/// quote contributed to the token: `echo "|"` passes a literal `|`
/// argument.  Each operator must be followed by a filename token, which
/// it consumes.  `|` closes the current stage, which must not be empty;
/// if any stage was opened, the last one must not be empty either.  A
/// line with no tokens makes zero stages.
pub open spec fn extract_from(
    toks: Seq<LexToken>,
    j: int,
    cur: Seq<Seq<char>>,
    stages: Seq<Seq<Seq<char>>>,
    out: Option<(Seq<char>, bool)>,
    err: Option<Seq<char>>,
) -> Result<ExtractedLine, ParseError>
    decreases toks.len() - j,
    when 0 <= j <= toks.len()
{
    if j == toks.len() {
        if cur.len() > 0 {
            Ok((stages.push(cur), out, err))
        } else if stages.len() > 0 {
            Err(ParseError::EmptyPipelineStage)
        } else {
            Ok((stages, out, err))
        }
    } else {
        let t = toks[j];
        if !t.1 && (t.0 == ">"@ || t.0 == "1>"@) {
            if j + 1 == toks.len() {
                Err(ParseError::MissingRedirectionTarget)
            } else {
                extract_from(toks, j + 2, cur, stages, Some((toks[j + 1].0, false)), err)
            }
        } else if !t.1 && (t.0 == ">>"@ || t.0 == "1>>"@) {
            if j + 1 == toks.len() {
                Err(ParseError::MissingRedirectionTarget)
            } else {
                extract_from(toks, j + 2, cur, stages, Some((toks[j + 1].0, true)), err)
            }
        } else if !t.1 && t.0 == "2>"@ {
            if j + 1 == toks.len() {
                Err(ParseError::MissingRedirectionTarget)
            } else {
                extract_from(toks, j + 2, cur, stages, out, Some(toks[j + 1].0))
            }
        } else if !t.1 && t.0 == "|"@ {
            if cur.len() == 0 {
                Err(ParseError::EmptyPipelineStage)
            } else {
                extract_from(toks, j + 1, Seq::empty(), stages.push(cur), out, err)
            }
        } else {
            extract_from(toks, j + 1, cur.push(t.0), stages, out, err)
        }
    }
}

/// The extractor run over a whole token sequence.
pub open spec fn extract_spec(toks: Seq<LexToken>) -> Result<ExtractedLine, ParseError> {
    extract_from(toks, 0, Seq::empty(), Seq::empty(), None, None)
}

/// The meaning of a raw input line: lexing followed by extraction.
pub open spec fn parse_spec(s: Seq<char>) -> Result<ExtractedLine, ParseError> {
    match lex_spec(s) {
        Ok(toks) => extract_spec(toks),
        Err(e) => Err(e),
    }
}

/// The stdout target as the spec model sees it.
pub open spec fn out_target_view(t: Option<(String, bool)>) -> Option<(Seq<char>, bool)> {
    match t {
        Some(p) => Some((p.0@, p.1)),
        None => None,
    }
}

/// The stderr target as the spec model sees it.
pub open spec fn err_target_view(t: Option<String>) -> Option<Seq<char>> {
    match t {
        Some(s) => Some(s@),
        None => None,
    }
}

/// A parsed line: the pipeline stages in order (each a non-empty argument
/// list whose first token is the command name) and the redirection
/// targets.  The stdout target carries its append flag; the stderr target
/// is opened for truncation and is shared by every stage.
#[derive(Debug, PartialEq, Eq)]
pub struct ParseOutput {
    pub commands: Vec<Vec<String>>,
    pub out_target: Option<(String, bool)>,
    pub err_target: Option<String>,
}

impl View for ParseOutput {
    type V = ExtractedLine;

    open spec fn view(&self) -> ExtractedLine {
        (self.commands.deep_view(), out_target_view(self.out_target), err_target_view(
            self.err_target,
        ))
    }
}

/// The lexer's working state while it walks a line.
#[derive(Debug)]
pub struct Parser {
    chars: Vec<char>,
    pos: usize,
    state: ParseState,
    current: String,
    current_quoted: bool,
    args: Vec<(String, bool)>,
}

impl Parser {
    /// What the rest of the walk will produce, from this state on.
    spec fn lex_rest(self, i: int, st: ParseState) -> Result<Seq<LexToken>, ParseError> {
        lex_from(self.chars@, i, st, self.current@, self.current_quoted, self.args.deep_view())
    }

    fn new(input: &str) -> (p: Parser)
        ensures
            p.chars@ == trim_spec(input@),
            p.pos == 0,
            p.state is Normal,
            p.current@ == Seq::<char>::empty(),
            p.current_quoted == false,
            p.args.deep_view() == Seq::<LexToken>::empty(),
    {
        let cs = to_chars(input);
        let trimmed = trim_chars(&cs);
        let args: Vec<(String, bool)> = Vec::new();
        proof {
            assert(args.deep_view() =~= Seq::<LexToken>::empty());
        }
        Parser {
            chars: trimmed,
            pos: 0,
            state: ParseState::Normal,
            current: String::new(),
            current_quoted: false,
            args,
        }
    }

    /// Ends the token under construction, the executable counterpart of
    /// [`flush_token`].
    fn flush(&mut self)
        ensures
            final(self).chars == old(self).chars,
            final(self).pos == old(self).pos,
            final(self).state == old(self).state,
            final(self).args.deep_view() == flush_token(
                old(self).current@,
                old(self).current_quoted,
                old(self).args.deep_view(),
            ),
            final(self).current@ == Seq::<char>::empty(),
            final(self).current_quoted == false,
    {
        if !self.current.as_str().is_empty() || self.current_quoted {
            let ghost before = self.args.deep_view();
            let t = self.current.clone();
            self.args.push((t, self.current_quoted));
            self.current = String::new();
            self.current_quoted = false;
            proof {
                assert(self.args.deep_view() =~= before.push(
                    (old(self).current@, old(self).current_quoted),
                ));
            }
        } else {
            assert(self.current@ =~= Seq::<char>::empty());
        }
    }

    /// One step outside quotes.
    fn handle_normal(&mut self, ch: char) -> (r: Result<ParseState, ParseError>)
        requires
            1 <= old(self).pos <= old(self).chars@.len(),
            ch == old(self).chars@[old(self).pos - 1],
        ensures
            final(self).chars == old(self).chars,
            final(self).state == old(self).state,
            old(self).pos <= final(self).pos <= final(self).chars@.len(),
            match r {
                Ok(st) => old(self).lex_rest(old(self).pos - 1, ParseState::Normal)
                    == final(self).lex_rest(final(self).pos as int, st),
                Err(e) => old(self).lex_rest(old(self).pos - 1, ParseState::Normal) == Err::<
                    Seq<LexToken>,
                    ParseError,
                >(e),
            },
    {
        if ch == '\\' {
            if self.pos < self.chars.len() {
                let e = self.chars[self.pos];
                self.pos = self.pos + 1;
                push_char(&mut self.current, e);
                Ok(ParseState::Normal)
            } else {
                Err(ParseError::TrailingBackslash)
            }
        } else if ch == '\'' {
            self.current_quoted = true;
            Ok(ParseState::InSingleQuote)
        } else if ch == '"' {
            self.current_quoted = true;
            Ok(ParseState::InDoubleQuote)
        } else if is_space(ch) {
            self.flush();
            Ok(ParseState::Normal)
        } else {
            push_char(&mut self.current, ch);
            Ok(ParseState::Normal)
        }
    }

    /// One step inside single quotes: everything is literal until `'`.
    fn handle_in_single_quote(&mut self, ch: char) -> (st: ParseState)
        requires
            1 <= old(self).pos <= old(self).chars@.len(),
            ch == old(self).chars@[old(self).pos - 1],
        ensures
            final(self).chars == old(self).chars,
            final(self).state == old(self).state,
            final(self).pos == old(self).pos,
            old(self).lex_rest(old(self).pos - 1, ParseState::InSingleQuote)
                == final(self).lex_rest(final(self).pos as int, st),
    {
        if ch == '\'' {
            ParseState::Normal
        } else {
            push_char(&mut self.current, ch);
            ParseState::InSingleQuote
        }
    }

    /// One step inside double quotes: `\` escapes only `\`, `"`, `$` and
    /// newline, and stands for itself otherwise.
    fn handle_in_double_quote(&mut self, ch: char) -> (r: Result<ParseState, ParseError>)
        requires
            1 <= old(self).pos <= old(self).chars@.len(),
            ch == old(self).chars@[old(self).pos - 1],
        ensures
            final(self).chars == old(self).chars,
            final(self).state == old(self).state,
            old(self).pos <= final(self).pos <= final(self).chars@.len(),
            match r {
                Ok(st) => old(self).lex_rest(old(self).pos - 1, ParseState::InDoubleQuote)
                    == final(self).lex_rest(final(self).pos as int, st),
                Err(e) => old(self).lex_rest(old(self).pos - 1, ParseState::InDoubleQuote)
                    == Err::<Seq<LexToken>, ParseError>(e),
            },
    {
        if ch == '"' {
            Ok(ParseState::Normal)
        } else if ch == '\\' {
            if self.pos < self.chars.len() {
                let n = self.chars[self.pos];
                if n == '\\' || n == '"' || n == '$' || n == '\n' {
                    self.pos = self.pos + 1;
                    push_char(&mut self.current, n);
                } else {
                    push_char(&mut self.current, '\\');
                }
                Ok(ParseState::InDoubleQuote)
            } else {
                Err(ParseError::TrailingBackslash)
            }
        } else {
            push_char(&mut self.current, ch);
            Ok(ParseState::InDoubleQuote)
        }
    }

    /// Splits the finished token sequence into pipeline stages and pulls
    /// out the redirection targets, as [`extract_spec`] describes.
    fn handle_redirections(&self) -> (r: Result<ParseOutput, ParseError>)
        ensures
            match r {
                Ok(o) => extract_spec(self.args.deep_view()) == Ok::<ExtractedLine, ParseError>(
                    o@,
                ),
                Err(e) => extract_spec(self.args.deep_view()) == Err::<ExtractedLine, ParseError>(
                    e,
                ),
            },
    {
        let ghost toks = self.args.deep_view();
        let mut commands: Vec<Vec<String>> = Vec::new();
        let mut cur: Vec<String> = Vec::new();
        let mut out_target: Option<(String, bool)> = None;
        let mut err_target: Option<String> = None;
        let mut j: usize = 0;
        proof {
            assert(cur.deep_view() =~= Seq::<Seq<char>>::empty());
            assert(commands.deep_view() =~= Seq::<Seq<Seq<char>>>::empty());
        }
        while j < self.args.len()
            invariant
                j <= self.args@.len(),
                toks == self.args.deep_view(),
                toks.len() == self.args@.len(),
                extract_from(
                    toks,
                    j as int,
                    cur.deep_view(),
                    commands.deep_view(),
                    out_target_view(out_target),
                    err_target_view(err_target),
                ) == extract_spec(toks),
            decreases self.args@.len() - j,
        {
            proof {
                assert(toks[j as int] == (self.args@[j as int].0@, self.args@[j as int].1));
            }
            let t = &self.args[j];
            let unquoted = !t.1;
            if unquoted && (str_eq(&t.0, ">") || str_eq(&t.0, "1>")) {
                if j + 1 < self.args.len() {
                    proof {
                        assert(toks[j + 1] == (self.args@[j + 1].0@, self.args@[j + 1].1));
                    }
                    out_target = Some((self.args[j + 1].0.clone(), false));
                    j = j + 2;
                } else {
                    return Err(ParseError::MissingRedirectionTarget);
                }
            } else if unquoted && (str_eq(&t.0, ">>") || str_eq(&t.0, "1>>")) {
                if j + 1 < self.args.len() {
                    proof {
                        assert(toks[j + 1] == (self.args@[j + 1].0@, self.args@[j + 1].1));
                    }
                    out_target = Some((self.args[j + 1].0.clone(), true));
                    j = j + 2;
                } else {
                    return Err(ParseError::MissingRedirectionTarget);
                }
            } else if unquoted && str_eq(&t.0, "2>") {
                if j + 1 < self.args.len() {
                    proof {
                        assert(toks[j + 1] == (self.args@[j + 1].0@, self.args@[j + 1].1));
                    }
                    err_target = Some(self.args[j + 1].0.clone());
                    j = j + 2;
                } else {
                    return Err(ParseError::MissingRedirectionTarget);
                }
            } else if unquoted && str_eq(&t.0, "|") {
                if cur.len() == 0 {
                    proof {
                        assert(cur.deep_view() =~= Seq::<Seq<char>>::empty());
                    }
                    return Err(ParseError::EmptyPipelineStage);
                } else {
                    let ghost cs = commands.deep_view();
                    commands.push(cur);
                    cur = Vec::new();
                    j = j + 1;
                    proof {
                        assert(commands.deep_view() =~= cs.push(commands@.last().deep_view()));
                        assert(cur.deep_view() =~= Seq::<Seq<char>>::empty());
                    }
                }
            } else {
                let ghost cv = cur.deep_view();
                cur.push(t.0.clone());
                j = j + 1;
                proof {
                    assert(cur.deep_view() =~= cv.push(cur@.last()@));
                }
            }
        }
        if cur.len() > 0 {
            let ghost cs = commands.deep_view();
            commands.push(cur);
            proof {
                assert(commands.deep_view() =~= cs.push(commands@.last().deep_view()));
            }
        } else if commands.len() > 0 {
            proof {
                assert(cur.deep_view() =~= Seq::<Seq<char>>::empty());
            }
            return Err(ParseError::EmptyPipelineStage);
        } else {
            proof {
                assert(cur.deep_view() =~= Seq::<Seq<char>>::empty());
            }
        }
        Ok(ParseOutput { commands, out_target, err_target })
    }

    /// Parses a raw input line into pipeline stages and redirection
    /// targets.  For every input the result, success or error, equals
    /// [`parse_spec`] of the line's characters: parsing has no state
    /// beside its argument.
    pub fn parse(input: &str) -> (r: Result<ParseOutput, ParseError>)
        ensures
            match r {
                Ok(o) => parse_spec(input@) == Ok::<ExtractedLine, ParseError>(o@),
                Err(e) => parse_spec(input@) == Err::<ExtractedLine, ParseError>(e),
            },
    {
        let mut parser = Parser::new(input);
        while parser.pos < parser.chars.len()
            invariant
                parser.pos <= parser.chars@.len(),
                parser.chars@ == trim_spec(input@),
                parser.lex_rest(parser.pos as int, parser.state) == lex_spec(input@),
            decreases parser.chars@.len() - parser.pos,
        {
            let ch = parser.chars[parser.pos];
            parser.pos = parser.pos + 1;
            let r = match parser.state {
                ParseState::Normal => parser.handle_normal(ch),
                ParseState::InSingleQuote => Ok(parser.handle_in_single_quote(ch)),
                ParseState::InDoubleQuote => parser.handle_in_double_quote(ch),
            };
            match r {
                Ok(st) => {
                    parser.state = st;
                },
                Err(e) => {
                    return Err(e);
                },
            }
        }
        match parser.state {
            ParseState::InSingleQuote => Err(ParseError::UnterminatedSingleQuote),
            ParseState::InDoubleQuote => Err(ParseError::UnterminatedDoubleQuote),
            ParseState::Normal => {
                parser.flush();
                assert(lex_spec(input@) == Ok::<Seq<LexToken>, ParseError>(
                    parser.args.deep_view(),
                ));
                parser.handle_redirections()
            },
        }
    }
}

/// Whatever stages the extractor accepts are non-empty, provided the
/// stages already closed are.
proof fn lemma_extract_stages_nonempty(
    toks: Seq<LexToken>,
    j: int,
    cur: Seq<Seq<char>>,
    stages: Seq<Seq<Seq<char>>>,
    out: Option<(Seq<char>, bool)>,
    err: Option<Seq<char>>,
)
    requires
        0 <= j <= toks.len(),
        forall|k: int| 0 <= k < stages.len() ==> stages[k].len() > 0,
    ensures
        match extract_from(toks, j, cur, stages, out, err) {
            Ok(r) => forall|k: int| 0 <= k < r.0.len() ==> r.0[k].len() > 0,
            Err(_) => true,
        },
    decreases toks.len() - j,
{
    if j == toks.len() {
    } else {
        let t = toks[j];
        if !t.1 && (t.0 == ">"@ || t.0 == "1>"@) {
            if j + 1 < toks.len() {
                lemma_extract_stages_nonempty(toks, j + 2, cur, stages, Some((toks[j + 1].0, false)), err);
            }
        } else if !t.1 && (t.0 == ">>"@ || t.0 == "1>>"@) {
            if j + 1 < toks.len() {
                lemma_extract_stages_nonempty(toks, j + 2, cur, stages, Some((toks[j + 1].0, true)), err);
            }
        } else if !t.1 && t.0 == "2>"@ {
            if j + 1 < toks.len() {
                lemma_extract_stages_nonempty(toks, j + 2, cur, stages, out, Some(toks[j + 1].0));
            }
        } else if !t.1 && t.0 == "|"@ {
            if cur.len() > 0 {
                lemma_extract_stages_nonempty(toks, j + 1, Seq::empty(), stages.push(cur), out, err);
            }
        } else {
            lemma_extract_stages_nonempty(toks, j + 1, cur.push(t.0), stages, out, err);
        }
    }
}

/// Every stage of a parsed line is a non-empty argument list: its first
/// token is the stage's command name.
pub proof fn lemma_parsed_stages_nonempty(s: Seq<char>)
    ensures
        match parse_spec(s) {
            Ok(r) => forall|k: int| 0 <= k < r.0.len() ==> r.0[k].len() > 0,
            Err(_) => true,
        },
{
    match lex_spec(s) {
        Ok(toks) => {
            lemma_extract_stages_nonempty(
                toks,
                0,
                Seq::empty(),
                Seq::empty(),
                None,
                None,
            );
        },
        Err(_) => {},
    }
}

/// Lexing is a pure function of the line: two parses of equal lines give
/// equal results, token for token.
pub proof fn lemma_parse_no_hidden_state(a: Seq<char>, b: Seq<char>)
    requires
        a == b,
    ensures
        parse_spec(a) == parse_spec(b),
{
}

/// A line of nothing but white space parses to zero stages, no
/// redirection targets and no error.
pub proof fn lemma_blank_line(s: Seq<char>)
    requires
        forall|i: int| 0 <= i < s.len() ==> is_space_char(s[i]),
    ensures
        parse_spec(s) == Ok::<ExtractedLine, ParseError>(
            (Seq::<Seq<Seq<char>>>::empty(), None, None),
        ),
{
    crate::text::lemma_trim_all_space(s);
    assert(lex_spec(s) == Ok::<Seq<LexToken>, ParseError>(Seq::<LexToken>::empty()));
    assert(extract_spec(Seq::<LexToken>::empty()) == Ok::<ExtractedLine, ParseError>(
        (Seq::<Seq<Seq<char>>>::empty(), None, None),
    ));
}

} // verus!
