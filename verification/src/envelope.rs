//! The outbound message envelope: a structured payload with fixed field
//! names, encoded to its canonical JSON text for the text-frame send. The
//! encoding escapes exactly the characters JSON requires: quote, backslash,
//! and control characters, the common ones by their short forms.

use vstd::prelude::*;

use vstd::string::{StrSliceExecFns, StringExecFns};

verus! {

/// The lowercase hex digit for `n`.
pub open spec fn hex_char(n: nat) -> char {
    if n < 10 {
        ((48 + n) as u8) as char
    } else {
        ((87 + n) as u8) as char
    }
}

/// The JSON escape of one character: quote and backslash by backslash
/// escapes, the named control characters by their short forms, the remaining
/// control characters as `\u00` plus two lowercase hex digits, and every
/// other character by itself.
pub open spec fn esc_char(c: char) -> Seq<char> {
    if c == '"' {
        seq!['\\', '"']
    } else if c == '\\' {
        seq!['\\', '\\']
    } else if c == '\u{8}' {
        seq!['\\', 'b']
    } else if c == '\t' {
        seq!['\\', 't']
    } else if c == '\n' {
        seq!['\\', 'n']
    } else if c == '\u{c}' {
        seq!['\\', 'f']
    } else if c == '\r' {
        seq!['\\', 'r']
    } else if (c as u32) < 32 {
        seq!['\\', 'u', '0', '0', hex_char((c as u32 / 16) as nat), hex_char((c as u32 % 16) as nat)]
    } else {
        seq![c]
    }
}

/// The JSON escape of a character sequence.
pub open spec fn esc_chars(s: Seq<char>) -> Seq<char>
    decreases s.len(),
{
    if s.len() == 0 {
        Seq::empty()
    } else {
        esc_char(s.first()) + esc_chars(s.drop_first())
    }
}

/// A JSON string literal: the escaped characters between double quotes.
pub open spec fn json_string(s: Seq<char>) -> Seq<char> {
    seq!['"'] + esc_chars(s) + seq!['"']
}

/// The canonical JSON text of the message envelope with the given field
/// values.
pub open spec fn envelope_json(mt: Seq<char>, file: Seq<char>, msg: Seq<char>) -> Seq<char> {
    "{\"message_type\":"@ + json_string(mt) + ",\"file_name\":"@ + json_string(file)
        + ",\"message\":"@ + json_string(msg) + "}"@
}

proof fn lemma_esc_chars_snoc(s: Seq<char>, c: char)
    ensures
        esc_chars(s.push(c)) == esc_chars(s) + esc_char(c),
    decreases s.len(),
{
    if s.len() == 0 {
        assert(s.push(c).drop_first() =~= Seq::<char>::empty());
        assert(s.push(c).first() == c);
        assert(esc_chars(s.push(c)) == esc_char(c) + esc_chars(Seq::<char>::empty()));
        assert(esc_chars(s.push(c)) =~= esc_char(c));
        assert(esc_chars(s) + esc_char(c) =~= esc_char(c));
    } else {
        lemma_esc_chars_snoc(s.drop_first(), c);
        assert(s.push(c).drop_first() =~= s.drop_first().push(c));
        assert(esc_chars(s.push(c)) =~= esc_chars(s) + esc_char(c));
    }
}

fn hex_digit(n: u8) -> (c: char)
    requires
        n < 16,
    ensures
        c == hex_char(n as nat),
{
    if n < 10 {
        (48 + n) as char
    } else {
        (87 + n) as char
    }
}

/// Appends the JSON escape of `s` to `out`.
fn escape_into(s: &str, out: &mut String)
    ensures
        final(out)@ == old(out)@ + esc_chars(s@),
{
    let ghost orig = out@;
    let n = s.unicode_len();
    let mut i: usize = 0;
    proof {
        assert(s@.subrange(0, 0) =~= Seq::<char>::empty());
        assert(orig + esc_chars(s@.subrange(0, 0)) =~= orig);
    }
    while i < n
        invariant
            0 <= i <= n,
            n == s@.len(),
            out@ == orig + esc_chars(s@.subrange(0, i as int)),
        decreases n - i,
    {
        let c = s.get_char(i);
        if c == '"' {
            out.append("\\\"");
            proof {
                reveal_strlit("\\\"");
                assert("\\\""@ =~= esc_char(c));
            }
        } else if c == '\\' {
            out.append("\\\\");
            proof {
                reveal_strlit("\\\\");
                assert("\\\\"@ =~= esc_char(c));
            }
        } else if c == '\u{8}' {
            out.append("\\b");
            proof {
                reveal_strlit("\\b");
                assert("\\b"@ =~= esc_char(c));
            }
        } else if c == '\t' {
            out.append("\\t");
            proof {
                reveal_strlit("\\t");
                assert("\\t"@ =~= esc_char(c));
            }
        } else if c == '\n' {
            out.append("\\n");
            proof {
                reveal_strlit("\\n");
                assert("\\n"@ =~= esc_char(c));
            }
        } else if c == '\u{c}' {
            out.append("\\f");
            proof {
                reveal_strlit("\\f");
                assert("\\f"@ =~= esc_char(c));
            }
        } else if c == '\r' {
            out.append("\\r");
            proof {
                reveal_strlit("\\r");
                assert("\\r"@ =~= esc_char(c));
            }
        } else if (c as u32) < 32 {
            out.append("\\u00");
            let u = c as u32;
            crate::text::push_char(out, hex_digit((u / 16) as u8));
            crate::text::push_char(out, hex_digit((u % 16) as u8));
            proof {
                reveal_strlit("\\u00");
                assert("\\u00"@ + seq![hex_char((c as u32 / 16) as nat)] + seq![
                    hex_char((c as u32 % 16) as nat),
                ] =~= esc_char(c));
            }
        } else {
            crate::text::push_char(out, c);
            proof {
                assert(seq![c] =~= esc_char(c));
            }
        }
        proof {
            assert(s@.subrange(0, i + 1) =~= s@.subrange(0, i as int).push(s@[i as int]));
            lemma_esc_chars_snoc(s@.subrange(0, i as int), s@[i as int]);
            assert(out@ =~= orig + esc_chars(s@.subrange(0, i + 1)));
        }
        i = i + 1;
    }
    proof {
        assert(s@.subrange(0, n as int) =~= s@);
    }
}

/// Appends `s` as a JSON string literal to `out`.
fn append_json_string(s: &str, out: &mut String)
    ensures
        final(out)@ == old(out)@ + json_string(s@),
{
    crate::text::push_char(out, '"');
    escape_into(s, out);
    crate::text::push_char(out, '"');
    proof {
        assert(old(out)@ + seq!['"'] + esc_chars(s@) + seq!['"'] =~= old(out)@ + json_string(s@));
    }
}

/// The structured payload of the outbound send: a tagged message with fixed
/// field names.
pub struct MessagePayload {
    pub message_type: String,
    pub file_name: String,
    pub message: String,
}

impl MessagePayload {
    /// Encodes the payload as its canonical JSON text. Every payload
    /// encodes; the encoding is exactly `envelope_json` of the fields.
    pub fn to_json(&self) -> (r: String)
        ensures
            r@ == envelope_json(self.message_type@, self.file_name@, self.message@),
    {
        let mut out = "{\"message_type\":".to_owned();
        append_json_string(self.message_type.as_str(), &mut out);
        out.append(",\"file_name\":");
        append_json_string(self.file_name.as_str(), &mut out);
        out.append(",\"message\":");
        append_json_string(self.message.as_str(), &mut out);
        out.append("}");
        out
    }
}

} // verus!
