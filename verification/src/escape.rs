//! Escaping of report text for the rich-markup rendering.
//!
//! Free text supplied by a reporter must not be able to inject markup into
//! the notification shown to administrators, so every markup-significant
//! character is replaced by its character-entity form before it is placed in
//! the rich body.

use vstd::prelude::*;
use vstd::string::StringExecFns;
use vstd::string::StrSliceExecFns;

verus! {

/// The entity form of a single character: markup-significant characters map
/// to their character entities, every other character to itself.
pub open spec fn escape_char(c: char) -> Seq<char> {
    if c == '&' {
        seq!['&', 'a', 'm', 'p', ';']
    } else if c == '<' {
        seq!['&', 'l', 't', ';']
    } else if c == '>' {
        seq!['&', 'g', 't', ';']
    } else if c == '"' {
        seq!['&', 'q', 'u', 'o', 't', ';']
    } else if c == '\'' {
        seq!['&', '#', 'x', '2', '7', ';']
    } else if c == '/' {
        seq!['&', '#', 'x', '2', 'F', ';']
    } else {
        seq![c]
    }
}

/// The escaped form of a text: each character replaced by its entity form,
/// in order.
pub open spec fn escape_seq(s: Seq<char>) -> Seq<char>
    decreases s.len(),
{
    if s.len() == 0 {
        Seq::empty()
    } else {
        escape_seq(s.drop_last()) + escape_char(s.last())
    }
}

/// Escaped text carries no raw markup: no angle bracket, quote or apostrophe
/// survives escaping, so reporter-supplied text cannot open or close a tag or
/// break out of an attribute in the rich rendering.
pub proof fn lemma_escape_no_raw_markup(s: Seq<char>)
    ensures
        forall|i: int|
            0 <= i < escape_seq(s).len() ==> escape_seq(s)[i] != '<' && escape_seq(s)[i] != '>'
                && escape_seq(s)[i] != '"' && escape_seq(s)[i] != '\'',
    decreases s.len(),
{
    if s.len() > 0 {
        lemma_escape_no_raw_markup(s.drop_last());
        let e1 = escape_seq(s.drop_last());
        let e2 = escape_char(s.last());
        assert(escape_seq(s) == e1 + e2);
        assert forall|i: int|
            0 <= i < escape_seq(s).len() implies escape_seq(s)[i] != '<' && escape_seq(s)[i] != '>'
            && escape_seq(s)[i] != '"' && escape_seq(s)[i] != '\'' by {
            if i < e1.len() {
                assert((e1 + e2)[i] == e1[i]);
            } else {
                assert((e1 + e2)[i] == e2[i - e1.len()]);
            }
        }
    }
}

/// Relies on `String::push` of std: appends exactly one character at the end
/// of the string.
#[verifier::external_body]
fn push_char(out: &mut String, c: char)
    ensures
        final(out)@ == old(out)@.push(c),
{
    out.push(c);
}

/// The executable form of [`escape_seq`]: escapes a text for inclusion in
/// the rich-markup rendering.
pub fn escape_markup(s: &String) -> (out: String)
    ensures
        out@ == escape_seq(s@),
{
    let mut out = String::new();
    let n: usize = s.as_str().unicode_len();
    let mut i: usize = 0;
    while i < n
        invariant
            i <= n,
            n == s@.len(),
            out@ == escape_seq(s@.subrange(0, i as int)),
        decreases n - i,
    {
        let c = s.as_str().get_char(i);
        proof {
            assert(s@.subrange(0, i + 1).drop_last() =~= s@.subrange(0, i as int));
            assert(s@.subrange(0, i + 1).last() == s@[i as int]);
        }
        if c == '&' {
            out.append("&amp;");
            proof {
                reveal_strlit("&amp;");
                assert("&amp;"@ =~= seq!['&', 'a', 'm', 'p', ';']);
            }
        } else if c == '<' {
            out.append("&lt;");
            proof {
                reveal_strlit("&lt;");
                assert("&lt;"@ =~= seq!['&', 'l', 't', ';']);
            }
        } else if c == '>' {
            out.append("&gt;");
            proof {
                reveal_strlit("&gt;");
                assert("&gt;"@ =~= seq!['&', 'g', 't', ';']);
            }
        } else if c == '"' {
            out.append("&quot;");
            proof {
                reveal_strlit("&quot;");
                assert("&quot;"@ =~= seq!['&', 'q', 'u', 'o', 't', ';']);
            }
        } else if c == '\'' {
            out.append("&#x27;");
            proof {
                reveal_strlit("&#x27;");
                assert("&#x27;"@ =~= seq!['&', '#', 'x', '2', '7', ';']);
            }
        } else if c == '/' {
            out.append("&#x2F;");
            proof {
                reveal_strlit("&#x2F;");
                assert("&#x2F;"@ =~= seq!['&', '#', 'x', '2', 'F', ';']);
            }
        } else {
            push_char(&mut out, c);
            proof {
                assert(out@ =~= escape_seq(s@.subrange(0, i as int)) + escape_char(c));
            }
        }
        i = i + 1;
    }
    proof {
        assert(s@.subrange(0, n as int) =~= s@);
    }
    out
}

} // verus!
