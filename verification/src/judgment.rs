//! The structured judgment object exchanged with the judge model: a single
//! JSON object `{"should_reply": <bool>}`. The library owns this wire format:
//! it emits the canonical serialization and accepts the object with JSON
//! whitespace at token boundaries.

use vstd::prelude::*;

verus! {

use vstd::string::StrSliceExecFns;
use vstd::string::StringExecFns;

/// A parsed judgment: whether the agent speaks now.
#[derive(Clone, Copy, Debug, PartialEq, Eq, Structural)]
pub struct ShouldReply {
    pub should_reply: bool,
}

/// The canonical serialization of a judgment object.
pub open spec fn spec_judgment(b: bool) -> Seq<char> {
    if b {
        "{\"should_reply\":true}"@
    } else {
        "{\"should_reply\":false}"@
    }
}

/// Serializes a judgment object canonically.
pub fn render_judgment(b: bool) -> (r: String)
    ensures
        r@ == spec_judgment(b),
{
    if b {
        String::from_str("{\"should_reply\":true}")
    } else {
        String::from_str("{\"should_reply\":false}")
    }
}

/// JSON whitespace.
pub open spec fn is_ws(c: char) -> bool {
    c == ' ' || c == '\t' || c == '\n' || c == '\r'
}

/// The first position at or after `i` holding a non-whitespace character (or
/// the end of the string).
pub open spec fn skip_ws(s: Seq<char>, i: int) -> int
    decreases s.len() - i,
{
    if 0 <= i < s.len() && is_ws(s[i]) {
        skip_ws(s, i + 1)
    } else {
        i
    }
}

/// Whether the literal `lit` occurs in `s` starting at position `i`.
pub open spec fn lit_at(s: Seq<char>, i: int, lit: Seq<char>) -> bool {
    &&& 0 <= i
    &&& i + lit.len() <= s.len()
    &&& s.subrange(i, i + lit.len()) == lit
}

/// The tail of a judgment object after its boolean: whitespace, a closing
/// brace, trailing whitespace, then the end of the string.
pub open spec fn judgment_tail(s: Seq<char>, i: int, b: bool) -> Option<bool> {
    let j = skip_ws(s, i);
    if lit_at(s, j, "}"@) && skip_ws(s, j + 1) == s.len() {
        Some(b)
    } else {
        None
    }
}

/// What parsing a judge response yields: the boolean of a well-formed
/// `{"should_reply": <bool>}` object (JSON whitespace tolerated at token
/// boundaries), or nothing for any other string.
pub open spec fn judgment_of(s: Seq<char>) -> Option<bool> {
    let i1 = skip_ws(s, 0);
    if !lit_at(s, i1, "{"@) {
        None
    } else {
        let i2 = skip_ws(s, i1 + 1);
        if !lit_at(s, i2, "\"should_reply\""@) {
            None
        } else {
            let i3 = skip_ws(s, i2 + "\"should_reply\""@.len());
            if !lit_at(s, i3, ":"@) {
                None
            } else {
                let i4 = skip_ws(s, i3 + 1);
                if lit_at(s, i4, "true"@) {
                    judgment_tail(s, i4 + "true"@.len(), true)
                } else if lit_at(s, i4, "false"@) {
                    judgment_tail(s, i4 + "false"@.len(), false)
                } else {
                    None
                }
            }
        }
    }
}

/// Round trip: the canonical serialization of a judgment parses back to the
/// verdict it was made from.
pub proof fn lemma_judgment_round_trip(b: bool)
    ensures
        judgment_of(spec_judgment(b)) == Some(b),
{
    reveal_strlit("{\"should_reply\":true}");
    reveal_strlit("{\"should_reply\":false}");
    reveal_strlit("{");
    reveal_strlit("\"should_reply\"");
    reveal_strlit(":");
    reveal_strlit("true");
    reveal_strlit("false");
    reveal_strlit("}");
    let s = spec_judgment(b);
    if b {
        assert(s.len() == 21);
        assert(s.subrange(0, 1) =~= "{"@);
        assert(s.subrange(1, 15) =~= "\"should_reply\""@);
        assert(s.subrange(15, 16) =~= ":"@);
        assert(s.subrange(16, 20) =~= "true"@);
        assert(s.subrange(20, 21) =~= "}"@);
        assert(skip_ws(s, 0) == 0);
        assert(skip_ws(s, 1) == 1);
        assert(skip_ws(s, 15) == 15);
        assert(skip_ws(s, 16) == 16);
        assert(skip_ws(s, 20) == 20);
        assert(skip_ws(s, 21) == 21);
    } else {
        assert(s.len() == 22);
        assert(s.subrange(0, 1) =~= "{"@);
        assert(s.subrange(1, 15) =~= "\"should_reply\""@);
        assert(s.subrange(15, 16) =~= ":"@);
        assert(s.subrange(16, 21) =~= "false"@);
        assert(s.subrange(21, 22) =~= "}"@);
        assert(s.subrange(16, 20) != "true"@) by {
            if s.subrange(16, 20) == "true"@ {
                assert(s.subrange(16, 20)[0] == "true"@[0]);
            }
        }
        assert(skip_ws(s, 0) == 0);
        assert(skip_ws(s, 1) == 1);
        assert(skip_ws(s, 15) == 15);
        assert(skip_ws(s, 16) == 16);
        assert(skip_ws(s, 21) == 21);
        assert(skip_ws(s, 22) == 22);
    }
}

/// What [`parse_judgment`] returns for a given response.
pub open spec fn spec_parse_judgment(s: Seq<char>) -> Option<ShouldReply> {
    match judgment_of(s) {
        Some(b) => Some(ShouldReply { should_reply: b }),
        None => None,
    }
}

fn skip_ws_exec(s: &str, n: usize, i: usize) -> (r: usize)
    requires
        n == s@.len(),
        i <= n,
    ensures
        r == skip_ws(s@, i as int),
        i <= r <= n,
{
    let mut j = i;
    while j < n
        invariant
            n == s@.len(),
            i <= j <= n,
            skip_ws(s@, i as int) == skip_ws(s@, j as int),
        decreases n - j,
    {
        let c = s.get_char(j);
        if c == ' ' || c == '\t' || c == '\n' || c == '\r' {
            j += 1;
        } else {
            return j;
        }
    }
    j
}

fn lit_at_exec(s: &str, n: usize, i: usize, lit: &str) -> (r: bool)
    requires
        n == s@.len(),
    ensures
        r == lit_at(s@, i as int, lit@),
        r ==> i + lit@.len() <= n,
{
    let llen = lit.unicode_len();
    if i > n || n - i < llen {
        return false;
    }
    let mut j: usize = 0;
    while j < llen
        invariant
            n == s@.len(),
            llen == lit@.len(),
            i + llen <= n,
            j <= llen,
            forall|k: int| 0 <= k < j ==> s@[i + k] == lit@[k],
        decreases llen - j,
    {
        if s.get_char(i + j) != lit.get_char(j) {
            proof {
                assert(s@.subrange(i as int, i + lit@.len())[j as int] == s@[i + j as int]);
            }
            return false;
        }
        j += 1;
    }
    proof {
        assert(s@.subrange(i as int, i + lit@.len()) =~= lit@);
    }
    true
}

/// Parses a judge response as a judgment object; any malformed response
/// yields `None` (never a default verdict).
pub fn parse_judgment(s: &str) -> (r: Option<ShouldReply>)
    ensures
        r == spec_parse_judgment(s@),
{
    let n = s.unicode_len();
    let i1 = skip_ws_exec(s, n, 0);
    if !lit_at_exec(s, n, i1, "{") {
        return None;
    }
    proof {
        reveal_strlit("{");
    }
    let i2 = skip_ws_exec(s, n, i1 + 1);
    if !lit_at_exec(s, n, i2, "\"should_reply\"") {
        return None;
    }
    proof {
        reveal_strlit("\"should_reply\"");
    }
    let i3 = skip_ws_exec(s, n, i2 + 14);
    if !lit_at_exec(s, n, i3, ":") {
        return None;
    }
    proof {
        reveal_strlit(":");
    }
    let i4 = skip_ws_exec(s, n, i3 + 1);
    let verdict: bool;
    let after: usize;
    if lit_at_exec(s, n, i4, "true") {
        proof {
            reveal_strlit("true");
        }
        verdict = true;
        after = i4 + 4;
    } else if lit_at_exec(s, n, i4, "false") {
        proof {
            reveal_strlit("false");
        }
        verdict = false;
        after = i4 + 5;
    } else {
        return None;
    }
    let j = skip_ws_exec(s, n, after);
    if !lit_at_exec(s, n, j, "}") {
        return None;
    }
    proof {
        reveal_strlit("}");
    }
    let end = skip_ws_exec(s, n, j + 1);
    if end != n {
        return None;
    }
    Some(ShouldReply { should_reply: verdict })
}

} // verus!
