//! Splits a command line into words and quotes each word again, so that the
//! command can be handed on without a shell reading anything into it.
//!
//! The `shlex` crate splits and quotes: [`shell_words`] and [`shell_quoted`]
//! stand for what it computes, and nothing is proved of them. That a quoted
//! word reads back as the word is therefore not taken on trust: the builder
//! splits each quoted word again and refuses the command where that fails.

use crate::text::{blank, is_blank, optional_texts, texts};
use shlex::QuoteError;
use vstd::prelude::*;

verus! {

/// `shlex::QuoteError`, why a word was not quoted: opaque to the verifier.
#[verifier::external_type_specification]
#[verifier::external_body]
pub struct ExQuoteError(shlex::QuoteError);

/// What `shlex::split` makes of a line: its words, or `None` where the line
/// ends inside a quotation or after a lone backslash.
pub uninterp spec fn shell_words(line: Seq<char>) -> Option<Seq<Seq<char>>>;

/// What `shlex::try_quote` makes of a word that it accepts: the word in a
/// form that a shell reads as one argument.
pub uninterp spec fn shell_quoted(word: Seq<char>) -> Seq<char>;

/// The character that no shell word can hold.
pub open spec fn nul() -> char {
    '\0'
}

/// Calls `shlex::split`, which reads the line as a POSIX shell would.
/// Trusted: the outcome depends on the line alone, so it goes by the name
/// [`shell_words`]. The call does not panic.
#[verifier::external_body]
fn split_words(line: &str) -> (words: Option<Vec<String>>)
    ensures
        words is Some <==> shell_words(line@) is Some,
        words matches Some(w) ==> shell_words(line@) == Some(texts(w@)),
{
    shlex::split(line)
}

/// Calls `shlex::try_quote`. Trusted: it refuses a word exactly when the
/// word holds a nul character, and what it returns otherwise depends on the
/// word alone, so it goes by the name [`shell_quoted`]. The call does not
/// panic.
#[verifier::external_body]
fn quote_word(word: &str) -> (quoted: Result<String, QuoteError>)
    ensures
        quoted is Err <==> word@.contains(nul()),
        quoted matches Ok(q) ==> q@ == shell_quoted(word@),
{
    shlex::try_quote(word).map(|q| q.into_owned())
}

/// Calls `to_string` on a `shlex::QuoteError`, for the crate's own wording
/// of the error. Nothing is claimed of the text.
#[verifier::external_body]
fn quote_error_text(error: &QuoteError) -> (text: String) {
    error.to_string()
}

/// Why a command line could not be rebuilt.
#[derive(Debug, PartialEq, Eq)]
pub enum QuotingError {
    /// The command has no words: it is blank or a comment, or it ends inside
    /// a quotation or after a lone backslash.
    Unparsable { command: String },
    /// A word of the command cannot be made safe. Where the word holds a nul
    /// character, `reason` is the quoting crate's own wording.
    Unquotable { argument: String, reason: String },
}

impl QuotingError {
    /// The text of `message`.
    pub open spec fn message_text(self) -> Seq<char> {
        match self {
            QuotingError::Unparsable { command } => "Failed to parse command: "@ + command@,
            QuotingError::Unquotable { argument, reason } => "Failed to quote argument '"@
                + argument@ + "': "@ + reason@,
        }
    }

    /// The error as a line for the user.
    pub fn message(&self) -> (text: String)
        ensures
            text@ == self.message_text(),
    {
        match self {
            QuotingError::Unparsable { command } => {
                let mut text = String::from_str("Failed to parse command: ");
                text.append(command.as_str());
                text
            },
            QuotingError::Unquotable { argument, reason } => {
                let mut text = String::from_str("Failed to quote argument '");
                text.append(argument.as_str());
                text.append("': ");
                text.append(reason.as_str());
                text
            },
        }
    }
}

/// The quoted form of a word reads back where splitting it gives the word
/// again, and nothing else.
pub open spec fn reads_back(word: Seq<char>) -> bool {
    shell_words(shell_quoted(word)) == Some(seq![word])
}

/// A word can be made safe where it holds no nul character and its quoted
/// form reads back.
pub open spec fn quotable(word: Seq<char>) -> bool {
    !word.contains(nul()) && reads_back(word)
}

/// The words of a command, where it has any: a blank command has none, and
/// neither has one that the shell rules cannot split.
pub open spec fn words_of(command: Seq<char>) -> Option<Seq<Seq<char>>> {
    words_from(command, shell_words(command))
}

/// Each word of the list in its quoted form.
pub open spec fn quote_all(words: Seq<Seq<char>>) -> Seq<Seq<char>> {
    words.map_values(|word: Seq<char>| shell_quoted(word))
}

/// Word `at` is the first of `words` that cannot be made safe.
pub open spec fn first_unquotable(words: Seq<Seq<char>>, at: int) -> bool {
    &&& 0 <= at < words.len()
    &&& !quotable(words[at])
    &&& forall|k: int| 0 <= k < at ==> quotable(#[trigger] words[k])
}

/// The safe arguments of a command: its words, each quoted on its own; `None`
/// where the command has no words or one of them cannot be made safe.
pub open spec fn safe_arguments(command: Seq<char>) -> Option<Seq<Seq<char>>> {
    safe_arguments_from(words_of(command))
}

/// The reason given for a word whose quoted form does not read back.
pub open spec fn no_read_back() -> Seq<char> {
    "quoted form does not read back as the word"@
}

/// The error that a command fails with: it has no words, or `argument` is the
/// first of its words that cannot be made safe.
pub open spec fn quoting_failure(command: Seq<char>, error: QuotingError) -> bool {
    failure_from(command, words_of(command), error)
}

/// Rebuilding is a round trip: each safe argument, split on its own by the
/// shell rules, gives back exactly the word of the command that it stands
/// for, so the arguments taken together give back the words of the command.
pub proof fn lemma_arguments_read_back(command: Seq<char>)
    ensures
        safe_arguments(command) matches Some(arguments) ==> {
            &&& words_of(command) matches Some(words)
            &&& arguments.len() == words.len()
            &&& forall|i: int|
                0 <= i < words.len() ==> shell_words(#[trigger] arguments[i]) == Some(
                    seq![words[i]],
                )
        },
{
    if let Some(words) = words_of(command) {
        if forall|i: int| 0 <= i < words.len() ==> quotable(#[trigger] words[i]) {
            let arguments = quote_all(words);
            assert forall|i: int| 0 <= i < words.len() implies shell_words(
                #[trigger] arguments[i],
            ) == Some(seq![words[i]]) by {
                assert(quotable(words[i]));
            }
        }
    }
}

/// Tells whether `quoted` splits back into `word` and nothing else.
fn splits_back(quoted: &str, word: &String) -> (same: bool)
    ensures
        same == (shell_words(quoted@) == Some(seq![word@])),
{
    match split_words(quoted) {
        Some(back) => {
            if back.len() == 1 && back[0] == *word {
                assert(texts(back@) =~= seq![word@]);
                true
            } else {
                assert(back.len() == 1 ==> texts(back@)[0] != word@);
                false
            }
        },
        None => false,
    }
}

/// The words of a command that was split into `split`.
pub open spec fn words_from(command: Seq<char>, split: Option<Seq<Seq<char>>>) -> Option<
    Seq<Seq<char>>,
> {
    if is_blank(command) {
        None
    } else {
        match split {
            Some(words) => if words.len() > 0 {
                Some(words)
            } else {
                None
            },
            None => None,
        }
    }
}

/// The safe arguments of the words of a command.
pub open spec fn safe_arguments_from(words: Option<Seq<Seq<char>>>) -> Option<Seq<Seq<char>>> {
    match words {
        Some(words) => if forall|i: int| 0 <= i < words.len() ==> quotable(#[trigger] words[i]) {
            Some(quote_all(words))
        } else {
            None
        },
        None => None,
    }
}

/// The error for words that give no safe arguments.
pub open spec fn failure_from(
    command: Seq<char>,
    words: Option<Seq<Seq<char>>>,
    error: QuotingError,
) -> bool {
    match error {
        QuotingError::Unparsable { command: failed } => {
            &&& words is None
            &&& failed@ == command
        },
        QuotingError::Unquotable { argument, reason } => {
            &&& words matches Some(words)
            &&& exists|at: int| first_unquotable(words, at) && argument@ == words[at]
            &&& !argument@.contains(nul()) ==> reason@ == no_read_back()
        },
    }
}

/// Quotes the words that `raw_command` was split into, `split` being `None`
/// where it could not be split. Fails where the command is blank, could not
/// be split or has no words, and where a word cannot be made safe: the first
/// such word is reported.
pub fn quote_words(raw_command: &str, split: Option<Vec<String>>) -> (result: Result<
    Vec<String>,
    QuotingError,
>)
    ensures
        ({
            let words = words_from(raw_command@, optional_texts(split));
            &&& result is Ok <==> safe_arguments_from(words) is Some
            &&& match result {
                Ok(arguments) => safe_arguments_from(words) == Some(texts(arguments@)),
                Err(error) => failure_from(raw_command@, words, error),
            }
        }),
{
    let ghost given = words_from(raw_command@, optional_texts(split));
    if blank(raw_command) {
        return Err(QuotingError::Unparsable { command: raw_command.to_owned() });
    }
    let words = match split {
        Some(words) => words,
        None => {
            return Err(QuotingError::Unparsable { command: raw_command.to_owned() });
        },
    };
    if words.len() == 0 {
        return Err(QuotingError::Unparsable { command: raw_command.to_owned() });
    }
    let ghost model = texts(words@);
    let mut arguments: Vec<String> = Vec::new();
    let mut i: usize = 0;
    while i < words.len()
        invariant
            i <= words.len(),
            model == texts(words@),
            given == Some(model),
            given == words_from(raw_command@, optional_texts(split)),
            arguments.len() == i,
            forall|k: int| 0 <= k < i ==> quotable(#[trigger] model[k]),
            forall|k: int| 0 <= k < i ==> (#[trigger] arguments@[k])@ == shell_quoted(model[k]),
        decreases words.len() - i,
    {
        assert(model[i as int] == words@[i as int]@);
        match quote_word(words[i].as_str()) {
            Ok(quoted) => {
                if !splits_back(quoted.as_str(), &words[i]) {
                    assert(first_unquotable(model, i as int));
                    return Err(
                        QuotingError::Unquotable {
                            argument: words[i].clone(),
                            reason: String::from_str("quoted form does not read back as the word"),
                        },
                    );
                }
                arguments.push(quoted);
            },
            Err(error) => {
                assert(first_unquotable(model, i as int));
                return Err(
                    QuotingError::Unquotable {
                        argument: words[i].clone(),
                        reason: quote_error_text(&error),
                    },
                );
            },
        }
        i += 1;
    }
    assert(texts(arguments@) =~= quote_all(model));
    Ok(arguments)
}

/// Splits `raw_command` into words as a POSIX shell would and quotes each
/// word again, so that a shell reads each argument as that word and nothing
/// more. Fails where the command has no words, and where a word cannot be
/// made safe: the first such word is reported.
pub fn build_safe_command_arguments(raw_command: &str) -> (result: Result<
    Vec<String>,
    QuotingError,
>)
    ensures
        result is Ok <==> safe_arguments(raw_command@) is Some,
        match result {
            Ok(arguments) => safe_arguments(raw_command@) == Some(texts(arguments@)),
            Err(error) => quoting_failure(raw_command@, error),
        },
{
    quote_words(raw_command, split_words(raw_command))
}

} // verus!
