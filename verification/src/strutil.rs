//! Small verified string utilities: equality of string slices and
//! detection of a leading character, stated over the `Seq<char>` views.

use vstd::prelude::*;

verus! {

/// Character-by-character equality of two string slices.
pub fn str_eq(a: &str, b: &str) -> (r: bool)
    ensures
        r == (a@ == b@),
{
    let alen = a.unicode_len();
    let blen = b.unicode_len();
    if alen != blen {
        return false;
    }
    let mut i: usize = 0;
    while i < alen
        invariant
            alen == a@.len(),
            blen == b@.len(),
            alen == blen,
            i <= alen,
            forall|j: int| 0 <= j < i ==> a@[j] == b@[j],
        decreases alen - i,
    {
        if a.get_char(i) != b.get_char(i) {
            return false;
        }
        i += 1;
    }
    proof {
        assert(a@ =~= b@);
    }
    true
}

/// Whether the view of a string begins with the given character.
pub open spec fn starts_with_char(s: Seq<char>, c: char) -> bool {
    s.len() > 0 && s[0] == c
}

/// Whether a string slice begins with the given character.
pub fn first_char_is(s: &str, c: char) -> (r: bool)
    ensures
        r == starts_with_char(s@, c),
{
    let n = s.unicode_len();
    if n == 0 {
        false
    } else {
        s.get_char(0) == c
    }
}

/// Join a directory path and an entry name with a '/' between them.
pub fn path_join(dir: &str, name: &str) -> (r: String)
    ensures
        r@ == dir@ + seq!['/'] + name@,
{
    let mut r = String::from_str(dir);
    proof {
        reveal_strlit("/");
        assert("/"@ =~= seq!['/']);
    }
    r.append("/");
    r.append(name);
    r
}

/// The views of a sequence of strings.
pub open spec fn views(args: Seq<String>) -> Seq<Seq<char>> {
    args.map_values(|s: String| s@)
}

/// The characters of a sequence of strings joined by single spaces.
pub open spec fn joined_with_spaces(parts: Seq<Seq<char>>) -> Seq<char>
    decreases parts.len(),
{
    if parts.len() == 0 {
        Seq::empty()
    } else if parts.len() == 1 {
        parts[0]
    } else {
        joined_with_spaces(parts.drop_last()) + seq![' '] + parts.last()
    }
}

/// Join the strings from position `start` on with single spaces.
pub fn join_spaces(args: &Vec<String>, start: usize) -> (r: String)
    requires
        start <= args@.len(),
    ensures
        r@ == joined_with_spaces(views(args@).skip(start as int)),
{
    let ghost parts = views(args@).skip(start as int);
    let mut r = String::new();
    let mut i: usize = start;
    proof {
        reveal_strlit(" ");
        assert(" "@ =~= seq![' ']);
        assert(parts.subrange(0, 0) =~= Seq::<Seq<char>>::empty());
    }
    while i < args.len()
        invariant
            start <= i <= args@.len(),
            parts == views(args@).skip(start as int),
            " "@ =~= seq![' '],
            r@ == joined_with_spaces(parts.subrange(0, i - start)),
        decreases args@.len() - i,
    {
        let ghost k = i - start;
        proof {
            assert(parts.subrange(0, k + 1).drop_last() =~= parts.subrange(0, k));
            assert(parts.subrange(0, k + 1).last() == parts[k]);
            assert(parts[k] == args@[i as int]@);
        }
        if i > start {
            r.append(" ");
        }
        r.append(args[i].as_str());
        i += 1;
    }
    proof {
        assert(parts.subrange(0, i - start) =~= parts);
    }
    r
}

} // verus!
