//! Command recognition: deciding whether a message's text is a bot command,
//! which command it is, and what query a generation command carries.

use vstd::prelude::*;

use crate::text::{has_prefix, is_space_char, lemma_trim_keeps_first_char, str_equal, trim,
    trim_spec};

verus! {

/// The number of leading characters a generation command consumes: the
/// token itself plus the character that separates it from the query.
pub const QUERY_START: usize = 9;

/// Whether the text begins with one of the two command markers.
pub open spec fn is_marked(text: Seq<char>) -> bool {
    text.len() > 0 && (text[0] == '.' || text[0] == '!')
}

/// The token that opens a generation command.
pub open spec fn generate_token() -> Seq<char> {
    ".chatgpt"@
}

/// Whether the text begins with the generation-command token.
pub open spec fn is_generate(text: Seq<char>) -> bool {
    text.len() >= generate_token().len() && text.subrange(
        0,
        generate_token().len() as int,
    ) == generate_token()
}

/// Whether the text, once trimmed, is exactly the ping command.
pub open spec fn is_ping(text: Seq<char>) -> bool {
    trim_spec(text) == "!ping"@
}

/// The query a generation command carries: everything after the first
/// `QUERY_START` characters, leading whitespace included.
pub open spec fn query_spec(text: Seq<char>) -> Seq<char>
    recommends
        text.len() >= QUERY_START,
{
    text.skip(QUERY_START as int)
}

/// Classification of a message's text into the fixed set of commands.
/// Every text maps to exactly one value; text that matches no known
/// command, marker-prefixed or not, is `Unrecognized`.
#[derive(Clone, Copy, Debug, PartialEq, Eq, Structural)]
pub enum Command {
    GenerateQuery,
    Ping,
    Unrecognized,
}

/// The command a message's text is classified as. A generation command is
/// recognized before the ping command, so a text beginning with the
/// generation token is never read as a ping.
pub open spec fn classify_spec(text: Seq<char>) -> Command {
    if is_generate(text) {
        Command::GenerateQuery
    } else if is_ping(text) {
        Command::Ping
    } else {
        Command::Unrecognized
    }
}

/// A text that begins with the generation token begins with a command marker.
pub proof fn lemma_generate_is_marked(text: Seq<char>)
    requires
        is_generate(text),
    ensures
        is_marked(text),
{
    reveal_strlit(".chatgpt");
    assert(text.subrange(0, generate_token().len() as int)[0] == text[0]);
}

/// The generation command and the ping command never overlap: a text that
/// begins with the generation token cannot trim to the ping literal.
pub proof fn lemma_generate_not_ping(text: Seq<char>)
    requires
        is_generate(text),
    ensures
        !is_ping(text),
{
    reveal_strlit(".chatgpt");
    reveal_strlit("!ping");
    assert(text.subrange(0, generate_token().len() as int)[0] == text[0]);
    assert(text[0] == '.');
    assert(!is_space_char(text[0]));
    lemma_trim_keeps_first_char(text);
    if is_ping(text) {
        assert(trim_spec(text)[0] == '!');
    }
}

/// Classifies a message's text.
pub fn classify(text: &str) -> (c: Command)
    ensures
        c == classify_spec(text@),
{
    if has_prefix(text, ".chatgpt") {
        Command::GenerateQuery
    } else if str_equal(trim(text), "!ping") {
        Command::Ping
    } else {
        Command::Unrecognized
    }
}

/// The query carried by a generation command: the text after the first
/// `QUERY_START` characters, taken verbatim.
pub fn query_of(text: &str) -> (q: String)
    requires
        is_generate(text@),
        text@.len() >= QUERY_START,
    ensures
        q@ == query_spec(text@),
{
    let n: usize = text.unicode_len();
    let rest = text.substring_char(QUERY_START, n);
    proof {
        assert(text@.subrange(QUERY_START as int, text@.len() as int) =~= query_spec(text@));
    }
    rest.to_owned()
}

} // verus!
