//! JSON framing for the wire format.
//!
//! The calibration and quantization endpoints take their tensor lists and
//! dynamic-range mappings as JSON text parts of the multipart form.  The
//! functions here produce that text and are specified down to the character:
//! strings are escaped exactly as the standard JSON serializers escape them
//! (`"`, `\`, and the short or `\u00XX` forms for control characters), and
//! the array and object layouts are fixed by the specs below.

use vstd::prelude::*;

use crate::dss::DynamicRange;
use crate::text::hex_char;
use crate::text::hex_str;

verus! {

/// How one character appears inside a JSON string literal.
pub open spec fn json_escape_char(c: char) -> Seq<char> {
    if c == '"' {
        seq!['\\', '"']
    } else if c == '\\' {
        seq!['\\', '\\']
    } else if c == '\u{8}' {
        seq!['\\', 'b']
    } else if c == '\u{c}' {
        seq!['\\', 'f']
    } else if c == '\n' {
        seq!['\\', 'n']
    } else if c == '\r' {
        seq!['\\', 'r']
    } else if c == '\t' {
        seq!['\\', 't']
    } else if (c as u32) < 0x20 {
        seq!['\\', 'u', '0', '0', hex_char(((c as u32) / 16) as nat), hex_char(
            ((c as u32) % 16) as nat,
        )]
    } else {
        seq![c]
    }
}

/// A text with every character escaped for a JSON string literal.
pub open spec fn json_escape(s: Seq<char>) -> Seq<char>
    decreases s.len(),
{
    if s.len() == 0 {
        Seq::empty()
    } else {
        json_escape_char(s[0]) + json_escape(s.skip(1))
    }
}

/// Escaping a text one character longer appends that character's escape.
pub proof fn lemma_json_escape_push(s: Seq<char>, c: char)
    ensures
        json_escape(s.push(c)) == json_escape(s) + json_escape_char(c),
    decreases s.len(),
{
    if s.len() == 0 {
        assert(s.push(c)[0] == c);
        assert(s.push(c).skip(1) =~= Seq::<char>::empty());
        assert(json_escape(Seq::<char>::empty()) == Seq::<char>::empty());
        assert(json_escape(s.push(c)) == json_escape_char(c) + json_escape(
            Seq::<char>::empty(),
        ));
        assert(json_escape(s) == Seq::<char>::empty());
        assert(json_escape(s.push(c)) =~= json_escape(s) + json_escape_char(c));
    } else {
        assert(s.push(c)[0] == s[0]);
        assert(s.push(c).skip(1) =~= s.skip(1).push(c));
        lemma_json_escape_push(s.skip(1), c);
        assert(json_escape(s.push(c)) == json_escape_char(s[0]) + json_escape(s.skip(1).push(c)));
        assert(json_escape(s.push(c)) =~= json_escape(s) + json_escape_char(c));
    }
}

/// Escapes a text for use inside a JSON string literal.
pub fn json_escaped(s: &str) -> (r: String)
    ensures
        r@ == json_escape(s@),
{
    let n: usize = s.unicode_len();
    let mut r = String::new();
    let mut i: usize = 0;
    proof {
        assert(s@.subrange(0, 0) =~= Seq::<char>::empty());
    }
    while i < n
        invariant
            i <= n,
            n == s@.len(),
            r@ == json_escape(s@.subrange(0, i as int)),
        decreases n - i,
    {
        let ghost pre = r@;
        let c: char = s.get_char(i);
        if c == '"' {
            r.append("\\\"");
            proof {
                reveal_strlit("\\\"");
                assert(("\\\"")@ =~= json_escape_char(c));
            }
        } else if c == '\\' {
            r.append("\\\\");
            proof {
                reveal_strlit("\\\\");
                assert(("\\\\")@ =~= json_escape_char(c));
            }
        } else if c == '\u{8}' {
            r.append("\\b");
            proof {
                reveal_strlit("\\b");
                assert(("\\b")@ =~= json_escape_char(c));
            }
        } else if c == '\u{c}' {
            r.append("\\f");
            proof {
                reveal_strlit("\\f");
                assert(("\\f")@ =~= json_escape_char(c));
            }
        } else if c == '\n' {
            r.append("\\n");
            proof {
                reveal_strlit("\\n");
                assert(("\\n")@ =~= json_escape_char(c));
            }
        } else if c == '\r' {
            r.append("\\r");
            proof {
                reveal_strlit("\\r");
                assert(("\\r")@ =~= json_escape_char(c));
            }
        } else if c == '\t' {
            r.append("\\t");
            proof {
                reveal_strlit("\\t");
                assert(("\\t")@ =~= json_escape_char(c));
            }
        } else if (c as u32) < 0x20 {
            let u: u32 = c as u32;
            r.append("\\u00");
            let hi: &str = hex_str(u / 16);
            r.append(hi);
            let lo: &str = hex_str(u % 16);
            r.append(lo);
            proof {
                reveal_strlit("\\u00");
                assert(r@ =~= pre + json_escape_char(c));
            }
        } else {
            let piece: &str = s.substring_char(i, i + 1);
            r.append(piece);
            proof {
                assert(piece@ =~= seq![c]);
                assert(seq![c] =~= json_escape_char(c));
            }
        }
        proof {
            assert(r@ == pre + json_escape_char(c));
            lemma_json_escape_push(s@.subrange(0, i as int), c);
            assert(s@.subrange(0, i as int).push(c) =~= s@.subrange(0, i + 1 as int));
        }
        i = i + 1;
    }
    proof {
        assert(s@.subrange(0, n as int) =~= s@);
    }
    r
}

/// Whether a character stands for itself inside a JSON string literal.
pub open spec fn plain_json_char(c: char) -> bool {
    c != '"' && c != '\\' && (c as u32) >= 0x20
}

/// A text with no character that needs escaping is its own escape: such
/// texts (ordinary tensor names among them) survive quoting unchanged
/// between the quotes.
pub proof fn lemma_json_escape_plain(s: Seq<char>)
    requires
        forall|i: int| 0 <= i < s.len() ==> plain_json_char(#[trigger] s[i]),
    ensures
        json_escape(s) == s,
    decreases s.len(),
{
    if s.len() == 0 {
        assert(json_escape(s) =~= s);
    } else {
        assert(plain_json_char(s[0]));
        assert(json_escape_char(s[0]) == seq![s[0]]);
        assert forall|i: int| 0 <= i < s.skip(1).len() implies plain_json_char(
            #[trigger] s.skip(1)[i],
        ) by {
            assert(s.skip(1)[i] == s[i + 1]);
        }
        lemma_json_escape_plain(s.skip(1));
        assert(json_escape(s) =~= s);
    }
}

/// A JSON string literal: the escaped text between double quotes.
pub open spec fn json_quoted(s: Seq<char>) -> Seq<char> {
    seq!['"'] + json_escape(s) + seq!['"']
}

/// Renders a text as a JSON string literal.
pub fn json_string(s: &str) -> (r: String)
    ensures
        r@ == json_quoted(s@),
{
    let mut r = "\"".to_owned();
    let e = json_escaped(s);
    r.append(e.as_str());
    r.append("\"");
    proof {
        reveal_strlit("\"");
        assert(r@ =~= json_quoted(s@));
    }
    r
}

/// The body of the tensor-name array: the quoted names, comma separated.
pub open spec fn tensors_json_body(ts: Seq<Seq<char>>) -> Seq<char>
    decreases ts.len(),
{
    if ts.len() == 0 {
        Seq::empty()
    } else if ts.len() == 1 {
        json_quoted(ts[0])
    } else {
        tensors_json_body(ts.drop_last()) + seq![','] + json_quoted(ts.last())
    }
}

/// The JSON array of tensor names, exactly as the wire format frames it.
pub open spec fn tensors_json_text(ts: Seq<Seq<char>>) -> Seq<char> {
    seq!['['] + tensors_json_body(ts) + seq![']']
}

/// Renders the input-tensor name list as a JSON array of strings.
pub fn tensors_json(ts: &Vec<String>) -> (r: String)
    ensures
        r@ == tensors_json_text(ts.deep_view()),
{
    let mut r = "[".to_owned();
    proof {
        reveal_strlit("[");
        assert(r@ =~= seq!['['] + tensors_json_body(ts.deep_view().take(0)));
    }
    let n: usize = ts.len();
    let mut i: usize = 0;
    while i < n
        invariant
            i <= n,
            n == ts@.len(),
            r@ == seq!['['] + tensors_json_body(ts.deep_view().take(i as int)),
        decreases n - i,
    {
        let ghost pre = r@;
        if i > 0 {
            r.append(",");
            proof {
                reveal_strlit(",");
            }
        }
        let q = json_string(ts[i].as_str());
        r.append(q.as_str());
        proof {
            let deep = ts.deep_view();
            assert(deep.take(i + 1 as int).drop_last() =~= deep.take(i as int));
            assert(deep.take(i + 1 as int).last() == deep[i as int]);
            assert(deep[i as int] == ts@[i as int]@);
            if i == 0 {
                assert(r@ =~= seq!['['] + tensors_json_body(deep.take(1)));
            } else {
                assert(r@ =~= seq!['['] + tensors_json_body(deep.take(i + 1 as int)));
            }
        }
        i = i + 1;
    }
    r.append("]");
    proof {
        reveal_strlit("]");
        assert(ts.deep_view().take(n as int) =~= ts.deep_view());
        assert(r@ =~= tensors_json_text(ts.deep_view()));
    }
    r
}

/// One entry of the dynamic-range object: the quoted tensor name mapped to
/// the two-element array of its bounds.
pub open spec fn range_json(e: DynamicRange) -> Seq<char> {
    json_quoted(e.tensor@) + seq![':', '['] + e.min@ + seq![','] + e.max@ + seq![']']
}

/// The body of the dynamic-range object: the entries, comma separated, in
/// the order given.
pub open spec fn ranges_json_body(rs: Seq<DynamicRange>) -> Seq<char>
    decreases rs.len(),
{
    if rs.len() == 0 {
        Seq::empty()
    } else if rs.len() == 1 {
        range_json(rs[0])
    } else {
        ranges_json_body(rs.drop_last()) + seq![','] + range_json(rs.last())
    }
}

/// The JSON object mapping each tensor name to its range pair.
pub open spec fn ranges_json_text(rs: Seq<DynamicRange>) -> Seq<char> {
    seq!['{'] + ranges_json_body(rs) + seq!['}']
}

/// Renders the dynamic-range mapping as a JSON object of two-element arrays.
pub fn ranges_json(rs: &Vec<DynamicRange>) -> (r: String)
    ensures
        r@ == ranges_json_text(rs@),
{
    let mut r = "{".to_owned();
    proof {
        reveal_strlit("{");
        assert(r@ =~= seq!['{'] + ranges_json_body(rs@.take(0)));
    }
    let n: usize = rs.len();
    let mut i: usize = 0;
    while i < n
        invariant
            i <= n,
            n == rs@.len(),
            r@ == seq!['{'] + ranges_json_body(rs@.take(i as int)),
        decreases n - i,
    {
        let ghost pre = r@;
        if i > 0 {
            r.append(",");
            proof {
                reveal_strlit(",");
            }
        }
        let entry = &rs[i];
        let q = json_string(entry.tensor.as_str());
        r.append(q.as_str());
        r.append(":[");
        r.append(entry.min.as_str());
        r.append(",");
        r.append(entry.max.as_str());
        r.append("]");
        proof {
            reveal_strlit(":[");
            reveal_strlit(",");
            reveal_strlit("]");
            assert(rs@.take(i + 1 as int).drop_last() =~= rs@.take(i as int));
            assert(rs@.take(i + 1 as int).last() == rs@[i as int]);
            if i == 0 {
                assert(r@ =~= seq!['{'] + ranges_json_body(rs@.take(1)));
            } else {
                assert(r@ =~= seq!['{'] + ranges_json_body(rs@.take(i + 1 as int)));
            }
        }
        i = i + 1;
    }
    r.append("}");
    proof {
        reveal_strlit("}");
        assert(rs@.take(n as int) =~= rs@);
        assert(r@ =~= ranges_json_text(rs@));
    }
    r
}

} // verus!
