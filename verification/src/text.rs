//! Small operations on text: swapping one character for another, dropping
//! a character, taking a piece, comparing.

use vstd::prelude::*;

verus! {

/// `s` with every `from` turned into `to`.
pub open spec fn swapped(s: Seq<char>, from: char, to: char) -> Seq<char> {
    Seq::new(
        s.len(),
        |i: int|
            if s[i] == from {
                to
            } else {
                s[i]
            },
    )
}

/// `s` with every `/` turned into `-`.
pub open spec fn slash_to_dash(s: Seq<char>) -> Seq<char> {
    swapped(s, '/', '-')
}

/// `s` with every `unwanted` left out.
pub open spec fn without_char(s: Seq<char>, unwanted: char) -> Seq<char>
    decreases s.len(),
{
    if s.len() == 0 {
        Seq::empty()
    } else if s.last() == unwanted {
        without_char(s.drop_last(), unwanted)
    } else {
        without_char(s.drop_last(), unwanted).push(s.last())
    }
}

/// Whether `unwanted` occurs nowhere in `s`.
pub open spec fn free_of(s: Seq<char>, unwanted: char) -> bool {
    forall|i: int| 0 <= i < s.len() ==> #[trigger] s[i] != unwanted
}

/// Dropping a character from two texts in a row is dropping it from each.
pub proof fn lemma_without_char_concat(a: Seq<char>, b: Seq<char>, unwanted: char)
    ensures
        without_char(a + b, unwanted) == without_char(a, unwanted) + without_char(b, unwanted),
    decreases b.len(),
{
    if b.len() == 0 {
        assert(a + b == a);
        assert(without_char(a, unwanted) + Seq::<char>::empty() == without_char(a, unwanted));
    } else {
        assert((a + b).drop_last() == a + b.drop_last());
        assert((a + b).last() == b.last());
        lemma_without_char_concat(a, b.drop_last(), unwanted);
        assert(without_char(a, unwanted) + without_char(b.drop_last(), unwanted).push(b.last())
            == (without_char(a, unwanted) + without_char(b.drop_last(), unwanted)).push(b.last()));
    }
}

/// Dropping a character that does not occur changes nothing.
pub proof fn lemma_without_char_absent(s: Seq<char>, unwanted: char)
    requires
        free_of(s, unwanted),
    ensures
        without_char(s, unwanted) == s,
    decreases s.len(),
{
    if s.len() > 0 {
        assert(s.last() == s[s.len() - 1]);
        assert forall|i: int| 0 <= i < s.drop_last().len() implies #[trigger] s.drop_last()[i]
            != unwanted by {
            assert(s.drop_last()[i] == s[i]);
        }
        lemma_without_char_absent(s.drop_last(), unwanted);
        assert(s.drop_last().push(s.last()) == s);
    }
}

/// A copy of `s` with every `from` turned into `to`.
pub fn replace_char(s: &str, from: char, to: char) -> (r: String)
    ensures
        r@ == swapped(s@, from, to),
{
    let n = s.unicode_len();
    let mut out = String::new();
    let mut i: usize = 0;
    while i < n
        invariant
            i <= n,
            n == s@.len(),
            out@ == swapped(s@, from, to).take(i as int),
        decreases n - i,
    {
        let c = s.get_char(i);
        let put = if c == from {
            to
        } else {
            c
        };
        out.push(put);
        assert(out@ == swapped(s@, from, to).take(i + 1));
        i += 1;
    }
    assert(swapped(s@, from, to).take(n as int) == swapped(s@, from, to));
    out
}

/// A copy of `s` with every `unwanted` left out.
pub fn strip_char(s: &str, unwanted: char) -> (r: String)
    ensures
        r@ == without_char(s@, unwanted),
{
    let n = s.unicode_len();
    let mut out = String::new();
    let mut i: usize = 0;
    while i < n
        invariant
            i <= n,
            n == s@.len(),
            out@ == without_char(s@.take(i as int), unwanted),
        decreases n - i,
    {
        let c = s.get_char(i);
        assert(s@.take(i + 1).drop_last() == s@.take(i as int));
        if c != unwanted {
            out.push(c);
        }
        i += 1;
    }
    assert(s@.take(n as int) == s@);
    out
}

/// The characters of `s` from position `from` up to, not including, `to`.
pub fn piece(s: &str, from: usize, to: usize) -> (r: String)
    requires
        from <= to <= s@.len(),
    ensures
        r@ == s@.subrange(from as int, to as int),
{
    s.substring_char(from, to).to_owned()
}

/// Whether two texts are the same, character by character.
pub fn same_text(a: &str, b: &str) -> (r: bool)
    ensures
        r == (a@ == b@),
{
    let n = a.unicode_len();
    if n != b.unicode_len() {
        return false;
    }
    let mut i: usize = 0;
    while i < n
        invariant
            i <= n,
            n == a@.len(),
            n == b@.len(),
            forall|k: int| 0 <= k < i ==> a@[k] == b@[k],
        decreases n - i,
    {
        if a.get_char(i) != b.get_char(i) {
            return false;
        }
        i += 1;
    }
    assert(a@ =~= b@);
    true
}

} // verus!
