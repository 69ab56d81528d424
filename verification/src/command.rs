//! The command grammar: whitespace tokens, the leading mention dropped where
//! the addressing says so, then exact token-count and keyword matching.
//! Parsing is total; everything that matches no row is `Invalid`.

use vstd::prelude::*;

use crate::strings::{eq_str, make_mention, mention_spec, split_ws, split_ws_spec};
use crate::strings::{starts_with_spec, str_starts_with, trim_char, trim_spec};

verus! {

/// A parsed command.
#[derive(Debug)]
pub enum ParsedCommand {
    Help,
    Ping,
    Create { host: String },
    Update { host: String },
    Join { group: String, host: String },
    Invalid,
}

/// The tokens considered for matching: a channel message loses its leading
/// mention token, and a direct message loses it only when the text opens
/// with the bot's mention.
pub open spec fn effective_tokens(text: Seq<char>, is_direct: bool, my_id: Seq<char>) -> Seq<
    Seq<char>,
> {
    let toks = split_ws_spec(text);
    let strip = if is_direct {
        starts_with_spec(trim_spec(text, '"'), mention_spec(my_id))
    } else {
        true
    };
    if strip && toks.len() > 0 {
        toks.drop_first()
    } else {
        toks
    }
}

/// The grammar rows: which command a token list denotes. `help` stands only
/// in a direct message; in a channel it matches no row.
pub open spec fn parse_shape(toks: Seq<Seq<char>>, is_direct: bool, c: ParsedCommand) -> bool {
    if toks.len() == 1 && toks[0] == "help"@ {
        if is_direct {
            c matches ParsedCommand::Help
        } else {
            c matches ParsedCommand::Invalid
        }
    } else if toks.len() == 1 && toks[0] == "ping"@ {
        c matches ParsedCommand::Ping
    } else if toks.len() == 2 && toks[0] == "create"@ {
        c matches ParsedCommand::Create { host } && host@ == toks[1]
    } else if toks.len() == 2 && toks[0] == "update"@ {
        c matches ParsedCommand::Update { host } && host@ == toks[1]
    } else if toks.len() == 3 && toks[0] == "join"@ {
        c matches ParsedCommand::Join { group, host } && group@ == toks[1] && host@ == toks[2]
    } else {
        c matches ParsedCommand::Invalid
    }
}

/// Parses the text of a command-bearing message.
pub fn parse(text: &str, is_direct: bool, my_id: &str) -> (c: ParsedCommand)
    ensures
        parse_shape(effective_tokens(text@, is_direct, my_id@), is_direct, c),
{
    let toks = split_ws(text);
    let strip: bool;
    if is_direct {
        let trimmed = trim_char(text, '"');
        let mention = make_mention(my_id);
        strip = str_starts_with(trimmed.as_str(), mention.as_str());
    } else {
        strip = true;
    }
    let off: usize = if strip && toks.len() > 0 {
        1
    } else {
        0
    };
    let ghost etoks = effective_tokens(text@, is_direct, my_id@);
    proof {
        if off == 1 {
            assert(etoks =~= toks.deep_view().drop_first());
        } else {
            assert(etoks =~= toks.deep_view());
        }
        assert(toks.deep_view().len() == toks@.len());
    }
    let n = toks.len() - off;
    if n == 1 && eq_str(toks[off].as_str(), "help") {
        if is_direct {
            ParsedCommand::Help
        } else {
            ParsedCommand::Invalid
        }
    } else if n == 1 && eq_str(toks[off].as_str(), "ping") {
        ParsedCommand::Ping
    } else if n == 2 && eq_str(toks[off].as_str(), "create") {
        ParsedCommand::Create { host: toks[off + 1].clone() }
    } else if n == 2 && eq_str(toks[off].as_str(), "update") {
        ParsedCommand::Update { host: toks[off + 1].clone() }
    } else if n == 3 && eq_str(toks[off].as_str(), "join") {
        ParsedCommand::Join { group: toks[off + 1].clone(), host: toks[off + 2].clone() }
    } else {
        ParsedCommand::Invalid
    }
}

} // verus!
