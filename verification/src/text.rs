//! Text primitives for the documentation extractor: the whitespace
//! predicate and whitespace trimming of a single line.

use vstd::prelude::*;

verus! {

/// The characters treated as whitespace when documentation lines are
/// trimmed: the Unicode `White_Space` set.
pub open spec fn is_doc_space(c: char) -> bool {
    ||| c == ' '
    ||| c == '\t'
    ||| c == '\n'
    ||| c == '\r'
    ||| c == '\u{000B}'
    ||| c == '\u{000C}'
    ||| c == '\u{0085}'
    ||| c == '\u{00A0}'
    ||| c == '\u{1680}'
    ||| (0x2000 <= c as u32 && c as u32 <= 0x200A)
    ||| c == '\u{2028}'
    ||| c == '\u{2029}'
    ||| c == '\u{202F}'
    ||| c == '\u{205F}'
    ||| c == '\u{3000}'
}

/// Decides [`is_doc_space`] for one character.
pub fn is_doc_space_char(c: char) -> (r: bool)
    ensures
        r == is_doc_space(c),
{
    c == ' ' || c == '\t' || c == '\n' || c == '\r' || c == '\u{000B}' || c == '\u{000C}'
        || c == '\u{0085}' || c == '\u{00A0}' || c == '\u{1680}' || (0x2000 <= c as u32 && c as u32
        <= 0x200A) || c == '\u{2028}' || c == '\u{2029}' || c == '\u{202F}' || c == '\u{205F}' || c
        == '\u{3000}'
}

/// The line with its leading whitespace removed.
pub open spec fn trim_front(s: Seq<char>) -> Seq<char>
    decreases s.len(),
{
    if s.len() == 0 {
        s
    } else if is_doc_space(s[0]) {
        trim_front(s.drop_first())
    } else {
        s
    }
}

/// The line with its trailing whitespace removed.
pub open spec fn trim_back(s: Seq<char>) -> Seq<char>
    decreases s.len(),
{
    if s.len() == 0 {
        s
    } else if is_doc_space(s.last()) {
        trim_back(s.drop_last())
    } else {
        s
    }
}

/// The line with leading and trailing whitespace removed.
pub open spec fn trimmed(s: Seq<char>) -> Seq<char> {
    trim_back(trim_front(s))
}

proof fn lemma_trim_front_range(s: Seq<char>, i: int)
    requires
        0 <= i <= s.len(),
        forall|k: int| 0 <= k < i ==> is_doc_space(s[k]),
        i == s.len() || !is_doc_space(s[i]),
    ensures
        trim_front(s) == s.skip(i),
    decreases i,
{
    if i == 0 {
        assert(s.skip(0) =~= s);
    } else {
        assert(is_doc_space(s[0]));
        lemma_trim_front_range(s.drop_first(), i - 1);
        assert(s.drop_first().skip(i - 1) =~= s.skip(i));
    }
}

proof fn lemma_trim_back_range(s: Seq<char>, j: int)
    requires
        0 <= j <= s.len(),
        forall|k: int| j <= k < s.len() ==> is_doc_space(s[k]),
        j == 0 || !is_doc_space(s[j - 1]),
    ensures
        trim_back(s) == s.take(j),
    decreases s.len(),
{
    if j == s.len() {
        if s.len() == 0 {
            assert(s.take(0) =~= s);
        } else {
            assert(!is_doc_space(s.last()));
            assert(s.take(j) =~= s);
        }
    } else {
        assert(is_doc_space(s.last()));
        lemma_trim_back_range(s.drop_last(), j);
        assert(s.drop_last().take(j) =~= s.take(j));
    }
}

/// Decides whether two strings hold the same characters.
pub fn str_eq(a: &str, b: &str) -> (r: bool)
    ensures
        r == (a@ == b@),
{
    let an = a.unicode_len();
    let bn = b.unicode_len();
    if an != bn {
        return false;
    }
    let mut i: usize = 0;
    while i < an
        invariant
            0 <= i <= an,
            an == a@.len(),
            bn == b@.len(),
            an == bn,
            forall|k: int| 0 <= k < i ==> a@[k] == b@[k],
        decreases an - i,
    {
        if a.get_char(i) != b.get_char(i) {
            return false;
        }
        i = i + 1;
    }
    proof {
        assert(a@ =~= b@);
    }
    true
}

/// Removes leading and trailing whitespace from one line of text.
pub fn trim_line(s: &str) -> (r: String)
    ensures
        r@ == trimmed(s@),
{
    let n = s.unicode_len();
    let mut i: usize = 0;
    while i < n && is_doc_space_char(s.get_char(i))
        invariant
            0 <= i <= n,
            n == s@.len(),
            forall|k: int| 0 <= k < i ==> is_doc_space(s@[k]),
        decreases n - i,
    {
        i = i + 1;
    }
    if i == n {
        proof {
            lemma_trim_front_range(s@, i as int);
            assert(s@.skip(i as int).len() == 0);
            assert(trim_front(s@) =~= Seq::<char>::empty());
        }
        String::new()
    } else {
        let mut j: usize = n;
        while j > i + 1 && is_doc_space_char(s.get_char(j - 1))
            invariant
                i + 1 <= j <= n,
                i < n,
                n == s@.len(),
                !is_doc_space(s@[i as int]),
                forall|k: int| j <= k < n ==> is_doc_space(s@[k]),
            decreases j,
        {
            j = j - 1;
        }
        let t = s.substring_char(i, j);
        proof {
            lemma_trim_front_range(s@, i as int);
            let m = s@.skip(i as int);
            if j == i + 1 {
                assert(!is_doc_space(m[(j - i - 1) as int]));
            }
            lemma_trim_back_range(m, j - i);
            assert(m.take(j - i) =~= s@.subrange(i as int, j as int));
        }
        t.to_owned()
    }
}

} // verus!

