//! Whitespace trimming for reply texts: a reply is displayed and recorded
//! without leading or trailing blank characters.

use vstd::prelude::*;
use vstd::string::*;

verus! {

/// The blank characters stripped from the ends of a reply.
pub open spec fn is_space_char(c: char) -> bool {
    c == ' ' || c == '\t' || c == '\n' || c == '\r'
}

/// The text with every leading and trailing blank character removed.
pub open spec fn trim_spec(s: Seq<char>) -> Seq<char>
    decreases s.len(),
{
    if s.len() == 0 {
        s
    } else if is_space_char(s[0]) {
        trim_spec(s.drop_first())
    } else if is_space_char(s[s.len() - 1]) {
        trim_spec(s.drop_last())
    } else {
        s
    }
}

/// Whether the character is one of the blanks `trim_spec` strips.
pub fn is_space(c: char) -> (r: bool)
    ensures
        r == is_space_char(c),
{
    c == ' ' || c == '\t' || c == '\n' || c == '\r'
}

/// Trimming keeps exactly the characters between the first and the last
/// non-blank one.
proof fn lemma_trim_range(s: Seq<char>, i: int, j: int)
    requires
        0 <= i <= j <= s.len(),
        forall|k: int| 0 <= k < i ==> is_space_char(s[k]),
        forall|k: int| j <= k < s.len() ==> is_space_char(s[k]),
        i < j ==> !is_space_char(s[i]),
        i < j ==> !is_space_char(s[j - 1]),
    ensures
        trim_spec(s) == s.subrange(i, j),
    decreases s.len(),
{
    if s.len() == 0 {
        assert(s.subrange(i, j) =~= s);
    } else if i == j {
        // Every character is blank, so the whole text trims to nothing.
        assert(is_space_char(s[0]));
        let rest = s.drop_first();
        if i > 0 {
            lemma_trim_range(rest, i - 1, j - 1);
        } else {
            lemma_trim_range(rest, 0, 0);
        }
        assert(trim_spec(s) == trim_spec(rest));
        assert(trim_spec(s).len() == 0);
        assert(s.subrange(i, j) =~= trim_spec(s));
    } else if i > 0 {
        let rest = s.drop_first();
        lemma_trim_range(rest, i - 1, j - 1);
        assert(trim_spec(s) == trim_spec(rest));
        assert(rest.subrange(i - 1, j - 1) =~= s.subrange(i, j));
    } else if j < s.len() {
        // i == 0 < j, so the first character is not blank; the last one is.
        assert(is_space_char(s[s.len() - 1]));
        let rest = s.drop_last();
        lemma_trim_range(rest, 0, j);
        assert(trim_spec(s) == trim_spec(rest));
        assert(rest.subrange(0, j) =~= s.subrange(0, j));
    } else {
        // Neither end is blank: the text is already trimmed.
        assert(s.subrange(0, s.len() as int) =~= s);
    }
}

/// Remove leading and trailing blanks from a reply text.
pub fn trim_ws(s: &str) -> (r: String)
    ensures
        r@ == trim_spec(s@),
{
    let len: usize = s.unicode_len();
    let mut i: usize = 0;
    while i < len && is_space(s.get_char(i))
        invariant
            i <= len,
            len == s@.len(),
            forall|k: int| 0 <= k < i ==> is_space_char(s@[k]),
        decreases len - i,
    {
        i = i + 1;
    }
    let mut j: usize = len;
    while j > i && is_space(s.get_char(j - 1))
        invariant
            i <= j <= len,
            len == s@.len(),
            forall|k: int| 0 <= k < i ==> is_space_char(s@[k]),
            forall|k: int| j <= k < len ==> is_space_char(s@[k]),
        decreases j,
    {
        j = j - 1;
    }
    proof {
        lemma_trim_range(s@, i as int, j as int);
    }
    s.substring_char(i, j).to_owned()
}

} // verus!
