//! Command parser: classifies inbound text as a `/join` command, a malformed
//! or unknown command, or plain chat content.

use vstd::prelude::*;

use crate::text::{
    first_space, first_space_spec, is_usize_string, parse_usize, str_eq, trim, trim_spec,
    usize_string_value,
};

verus! {

/// What a line of inbound text means, over the trimmed character sequence.
///
/// A line starting with `/` is a command: it splits at the first space into
/// a name and the rest.  `/join` with a well-formed room id is a join; with
/// anything else it is a malformed join; with no rest at all it is a bare
/// join, which this core does not accept.  Any other name is unknown, and a
/// line without the leading `/` is plain chat content.
pub ghost enum TextClass {
    Join { chat_id: nat },
    JoinBare,
    InvalidJoin { rest: Seq<char> },
    Unknown { trimmed: Seq<char> },
    Plain { trimmed: Seq<char> },
}

/// Classification of raw inbound text, after trimming.
pub open spec fn classify(raw: Seq<char>) -> TextClass {
    let t = trim_spec(raw);
    if t.len() > 0 && t[0] == '/' {
        let fs = first_space_spec(t);
        let name = t.subrange(0, fs);
        if name == "/join"@ {
            if fs < t.len() {
                let rest = t.subrange(fs + 1, t.len() as int);
                if is_usize_string(rest) {
                    TextClass::Join { chat_id: usize_string_value(rest) }
                } else {
                    TextClass::InvalidJoin { rest }
                }
            } else {
                TextClass::JoinBare
            }
        } else {
            TextClass::Unknown { trimmed: t }
        }
    } else {
        TextClass::Plain { trimmed: t }
    }
}

/// Runtime counterpart of [`TextClass`], carrying the text it was built
/// from: the rest of a malformed join, or the trimmed line.
#[derive(Debug, Clone, PartialEq)]
pub enum Command {
    Join(usize),
    InvalidJoin(String),
    Unknown(String),
    Plain(String),
}

/// Whether the trimmed text is exactly `/join` with nothing after it.
/// The session refuses such a line, so its callers test for it first.
pub fn is_bare_join(text: &str) -> (r: bool)
    ensures
        r == (classify(text@) is JoinBare),
{
    let t = trim(text);
    let r = str_eq(t, "/join");
    proof {
        reveal_strlit("/join");
        lemma_classify_bare(text@);
    }
    r
}

/// The bare-join class is exactly the lines whose trimmed text is `/join`.
proof fn lemma_classify_bare(raw: Seq<char>)
    ensures
        (classify(raw) is JoinBare) <==> trim_spec(raw) == "/join"@,
{
    reveal_strlit("/join");
    let t = trim_spec(raw);
    crate::text::lemma_first_space(t);
    if classify(raw) is JoinBare {
        let fs = first_space_spec(t);
        assert(t.subrange(0, fs) =~= t);
    }
    if t == "/join"@ {
        let fs = first_space_spec(t);
        if fs < t.len() {
            assert(t[fs] == ' ');
        }
        assert(t.subrange(0, t.len() as int) =~= t);
    }
}

/// Classifies one line of inbound text, exactly as [`classify`] says.
pub fn parse_command(text: &str) -> (c: Command)
    requires
        !(classify(text@) is JoinBare),
    ensures
        (match classify(text@) {
            TextClass::Join { chat_id } => c matches Command::Join(id) && id as nat == chat_id,
            TextClass::JoinBare => false,
            TextClass::InvalidJoin { rest } => c matches Command::InvalidJoin(r) && r@ == rest,
            TextClass::Unknown { trimmed } => c matches Command::Unknown(u) && u@ == trimmed,
            TextClass::Plain { trimmed } => c matches Command::Plain(p) && p@ == trimmed,
        }),
{
    let t = trim(text);
    let len: usize = t.unicode_len();
    if len > 0 && t.get_char(0) == '/' {
        let fs = first_space(t);
        proof {
            crate::text::lemma_first_space(t@);
        }
        let name = t.substring_char(0, fs);
        if str_eq(name, "/join") {
            proof {
                assert(fs < len);
            }
            let rest = t.substring_char(fs + 1, len);
            match parse_usize(rest) {
                Some(id) => Command::Join(id),
                None => Command::InvalidJoin(String::from_str(rest)),
            }
        } else {
            Command::Unknown(String::from_str(t))
        }
    } else {
        Command::Plain(String::from_str(t))
    }
}

} // verus!
