//! Character-sequence helpers: trimming blanks from both ends of a prompt
//! and appending a single character to a `String`.
use vstd::prelude::*;

verus! {

use vstd::string::StrSliceExecFns;

/// Characters treated as blank when a prompt is trimmed.
pub open spec fn is_blank(c: char) -> bool {
    c == ' ' || c == '\t' || c == '\n' || c == '\r'
}

/// `s` with its leading blanks removed.
pub open spec fn trim_front(s: Seq<char>) -> Seq<char>
    decreases s.len(),
{
    if s.len() > 0 && is_blank(s[0]) {
        trim_front(s.drop_first())
    } else {
        s
    }
}

/// `s` with its trailing blanks removed.
pub open spec fn trim_back(s: Seq<char>) -> Seq<char>
    decreases s.len(),
{
    if s.len() > 0 && is_blank(s.last()) {
        trim_back(s.drop_last())
    } else {
        s
    }
}

/// `s` with blanks removed from both ends.
pub open spec fn trim_spec(s: Seq<char>) -> Seq<char> {
    trim_back(trim_front(s))
}

pub fn is_blank_char(c: char) -> (r: bool)
    ensures
        r == is_blank(c),
{
    c == ' ' || c == '\t' || c == '\n' || c == '\r'
}

proof fn lemma_trim_front_subrange(s: Seq<char>, i: int)
    requires
        0 <= i <= s.len(),
        forall|k: int| 0 <= k < i ==> is_blank(s[k]),
        i < s.len() ==> !is_blank(s[i]),
    ensures
        trim_front(s) == s.subrange(i, s.len() as int),
    decreases i,
{
    if i == 0 {
        if s.len() > 0 {
            assert(!is_blank(s[0]));
        }
        assert(s.subrange(0, s.len() as int) =~= s);
    } else {
        assert(is_blank(s[0]));
        let t = s.drop_first();
        assert(forall|k: int| 0 <= k < i - 1 ==> is_blank(#[trigger] t[k]));
        lemma_trim_front_subrange(t, i - 1);
        assert(t.subrange(i - 1, t.len() as int) =~= s.subrange(i, s.len() as int));
    }
}

proof fn lemma_trim_back_subrange(s: Seq<char>, j: int)
    requires
        0 <= j <= s.len(),
        forall|k: int| j <= k < s.len() ==> is_blank(s[k]),
        j > 0 ==> !is_blank(s[j - 1]),
    ensures
        trim_back(s) == s.subrange(0, j),
    decreases s.len() - j,
{
    if j == s.len() {
        if s.len() > 0 {
            assert(!is_blank(s.last()));
        }
        assert(s.subrange(0, j) =~= s);
    } else {
        assert(is_blank(s.last()));
        let t = s.drop_last();
        assert(forall|k: int| j <= k < t.len() ==> is_blank(#[trigger] t[k]));
        lemma_trim_back_subrange(t, j);
        assert(t.subrange(0, j) =~= s.subrange(0, j));
    }
}

/// A copy of `s` with blank characters removed from both ends.
pub fn trimmed(s: &String) -> (r: String)
    ensures
        r@ == trim_spec(s@),
{
    let st: &str = s.as_str();
    let n: usize = st.unicode_len();
    let mut i: usize = 0;
    while i < n && is_blank_char(st.get_char(i))
        invariant
            i <= n,
            n == st@.len(),
            st@ == s@,
            forall|k: int| 0 <= k < i ==> is_blank(s@[k]),
        decreases n - i,
    {
        i = i + 1;
    }
    if i == n {
        proof {
            lemma_trim_front_subrange(s@, n as int);
            assert(s@.subrange(n as int, n as int) =~= Seq::<char>::empty());
            assert(trim_back(Seq::<char>::empty()) == Seq::<char>::empty());
        }
        String::new()
    } else {
        let mut j: usize = n;
        while j > i && is_blank_char(st.get_char(j - 1))
            invariant
                i < j <= n,
                i < n,
                n == st@.len(),
                st@ == s@,
                !is_blank(s@[i as int]),
                forall|k: int| j <= k < n ==> is_blank(s@[k]),
            decreases j,
        {
            j = j - 1;
        }
        let r = st.substring_char(i, j).to_owned();
        proof {
            lemma_trim_front_subrange(s@, i as int);
            let t = s@.subrange(i as int, n as int);
            assert(forall|k: int| j - i <= k < t.len() ==> is_blank(#[trigger] t[k]));
            lemma_trim_back_subrange(t, j - i);
            assert(t.subrange(0, j - i) =~= s@.subrange(i as int, j as int));
        }
        r
    }
}

/// Relies on `String::push`, which appends the given character to the end
/// of the string.
#[verifier::external_body]
pub(crate) fn push_char(s: &mut String, c: char)
    ensures
        final(s)@ == old(s)@.push(c),
{
    s.push(c);
}

} // verus!
