//! Small string helpers shared by the classifier and the emitters:
//! character-wise string equality, ASCII case mapping, and appending a
//! single character to a `String`.

use vstd::prelude::*;

verus! {

/// Compares two string slices character by character.
pub fn str_eq(a: &str, b: &str) -> (r: bool)
    ensures
        r == (a@ == b@),
{
    let alen = a.unicode_len();
    let blen = b.unicode_len();
    if alen != blen {
        proof {
            assert(a@ != b@);
        }
        return false;
    }
    let mut i: usize = 0;
    while i < alen
        invariant
            i <= alen,
            alen == a@.len(),
            alen == b@.len(),
            forall|j: int| 0 <= j < i ==> a@[j] == b@[j],
        decreases alen - i,
    {
        if a.get_char(i) != b.get_char(i) {
            return false;
        }
        i = i + 1;
    }
    proof {
        assert(a@ =~= b@);
    }
    true
}

/// Appends one character.
///
/// Relies on `String::push`, which appends the given character to the end
/// of the string.
#[verifier::external_body]
pub fn push_char(s: &mut String, c: char)
    ensures
        final(s)@ == old(s)@.push(c),
{
    s.push(c)
}

/// The ASCII upper-case counterpart of a character; characters outside
/// `'a'..='z'` are unchanged.
pub open spec fn to_upper(c: char) -> char {
    if 'a' <= c && c <= 'z' {
        ((c as u32) - 32) as char
    } else {
        c
    }
}

/// The ASCII lower-case counterpart of a character; characters outside
/// `'A'..='Z'` are unchanged.
pub open spec fn to_lower(c: char) -> char {
    if 'A' <= c && c <= 'Z' {
        ((c as u32) + 32) as char
    } else {
        c
    }
}

/// Maps the first character of a string to its ASCII upper-case
/// counterpart, leaving the rest unchanged.
pub open spec fn capitalize_spec(s: Seq<char>) -> Seq<char> {
    if s.len() == 0 {
        s
    } else {
        seq![to_upper(s[0])] + s.skip(1)
    }
}

/// Maps every character of a string to its ASCII lower-case counterpart.
pub open spec fn lower_spec(s: Seq<char>) -> Seq<char> {
    Seq::new(s.len(), |i: int| to_lower(s[i]))
}

/// Maps every character of a string to its ASCII upper-case counterpart.
pub open spec fn upper_spec(s: Seq<char>) -> Seq<char> {
    Seq::new(s.len(), |i: int| to_upper(s[i]))
}

fn upper_char(c: char) -> (r: char)
    ensures
        r == to_upper(c),
{
    let u = c as u32;
    if 97 <= u && u <= 122 {
        let v: u32 = u - 32;
        proof {
            assert(v as u8 as u32 == v) by (bit_vector)
                requires
                    v < 256,
            ;
        }
        (v as u8) as char
    } else {
        c
    }
}

fn lower_char(c: char) -> (r: char)
    ensures
        r == to_lower(c),
{
    let u = c as u32;
    if 65 <= u && u <= 90 {
        let v: u32 = u + 32;
        proof {
            assert(v as u8 as u32 == v) by (bit_vector)
                requires
                    v < 256,
            ;
        }
        (v as u8) as char
    } else {
        c
    }
}

/// Upper-cases the first character of a string, keeping the rest. The
/// mapping is deliberately ASCII-only: exported identifiers are expected
/// to be ASCII, and any other character passes through unchanged.
pub fn capitalize_first_letter(s: &str) -> (r: String)
    ensures
        r@ == capitalize_spec(s@),
{
    let len = s.unicode_len();
    if len == 0 {
        return String::new();
    }
    let first = s.get_char(0);
    let mut out = String::new();
    push_char(&mut out, upper_char(first));
    let rest = s.substring_char(1, len);
    out.append(rest);
    proof {
        assert(out@ =~= capitalize_spec(s@));
    }
    out
}

/// Upper-cases every character of a string. Deliberately ASCII-only, as
/// `capitalize_first_letter` is; any other character passes through
/// unchanged.
pub fn to_uppercase(s: &str) -> (r: String)
    ensures
        r@ == upper_spec(s@),
{
    let len = s.unicode_len();
    let mut out = String::new();
    let mut i: usize = 0;
    while i < len
        invariant
            i <= len,
            len == s@.len(),
            out@.len() == i as int,
            forall|j: int| 0 <= j < i ==> out@[j] == to_upper(s@[j]),
        decreases len - i,
    {
        push_char(&mut out, upper_char(s.get_char(i)));
        i = i + 1;
    }
    proof {
        assert(out@ =~= upper_spec(s@));
    }
    out
}

/// Lower-cases every character of a string. Deliberately ASCII-only, as
/// `capitalize_first_letter` is; any other character passes through
/// unchanged.
pub fn to_lowercase(s: &str) -> (r: String)
    ensures
        r@ == lower_spec(s@),
{
    let len = s.unicode_len();
    let mut out = String::new();
    let mut i: usize = 0;
    while i < len
        invariant
            i <= len,
            len == s@.len(),
            out@.len() == i as int,
            forall|j: int| 0 <= j < i ==> out@[j] == to_lower(s@[j]),
        decreases len - i,
    {
        push_char(&mut out, lower_char(s.get_char(i)));
        i = i + 1;
    }
    proof {
        assert(out@ =~= lower_spec(s@));
    }
    out
}

/// The join of a list of strings with the given separator between
/// neighbours.
pub open spec fn join_with(parts: Seq<Seq<char>>, sep: Seq<char>) -> Seq<char>
    decreases parts.len(),
{
    if parts.len() == 0 {
        Seq::empty()
    } else if parts.len() == 1 {
        parts[0]
    } else {
        parts[0] + sep + join_with(parts.skip(1), sep)
    }
}

/// Joining one more string appends it, after a separator when anything
/// came before.
pub proof fn lemma_join_with_push(parts: Seq<Seq<char>>, sep: Seq<char>, x: Seq<char>)
    ensures
        join_with(parts.push(x), sep) == if parts.len() == 0 {
            x
        } else {
            join_with(parts, sep) + sep + x
        },
    decreases parts.len(),
{
    if parts.len() == 0 {
        assert(parts.push(x) =~= seq![x]);
    } else {
        assert(parts.push(x).skip(1) =~= parts.skip(1).push(x));
        lemma_join_with_push(parts.skip(1), sep, x);
        if parts.len() == 1 {
            assert(parts.push(x)[0] == parts[0]);
        }
    }
}

/// The comma-separated join of a list of strings.
pub open spec fn comma_join(parts: Seq<Seq<char>>) -> Seq<char> {
    join_with(parts, ", "@)
}

/// The plain concatenation of a list of strings.
pub open spec fn concat_seq(parts: Seq<Seq<char>>) -> Seq<char>
    decreases parts.len(),
{
    if parts.len() == 0 {
        Seq::empty()
    } else {
        parts[0] + concat_seq(parts.skip(1))
    }
}

/// Concatenating one more string appends it.
pub proof fn lemma_concat_seq_push(parts: Seq<Seq<char>>, x: Seq<char>)
    ensures
        concat_seq(parts.push(x)) == concat_seq(parts) + x,
    decreases parts.len(),
{
    if parts.len() == 0 {
        assert(parts.push(x) =~= seq![x]);
        assert(seq![x].skip(1) =~= Seq::<Seq<char>>::empty());
        assert(x + concat_seq(Seq::<Seq<char>>::empty()) =~= x);
        assert(concat_seq(parts) + x =~= x);
    } else {
        assert(parts.push(x).skip(1) =~= parts.skip(1).push(x));
        lemma_concat_seq_push(parts.skip(1), x);
        assert((parts[0] + concat_seq(parts.skip(1))) + x =~= parts[0] + (concat_seq(
            parts.skip(1),
        ) + x));
    }
}

/// Joins a list of strings with the given separator.
pub fn join_str(parts: &Vec<String>, sep: &str) -> (r: String)
    ensures
        r@ == join_with(parts.deep_view(), sep@),
{
    let mut out = String::new();
    let mut i: usize = 0;
    while i < parts.len()
        invariant
            i <= parts.len(),
            out@ == join_with(parts.deep_view().take(i as int), sep@),
        decreases parts.len() - i,
    {
        if i > 0 {
            out.append(sep);
        }
        out.append(parts[i].as_str());
        proof {
            let pre = parts.deep_view().take(i as int);
            lemma_join_with_push(pre, sep@, parts.deep_view()[i as int]);
            assert(pre.push(parts.deep_view()[i as int]) =~= parts.deep_view().take(i + 1));
        }
        i = i + 1;
    }
    proof {
        assert(parts.deep_view().take(parts.deep_view().len() as int) =~= parts.deep_view());
    }
    out
}

/// Joins a list of strings with commas.
pub fn join_comma(parts: &Vec<String>) -> (r: String)
    ensures
        r@ == comma_join(parts.deep_view()),
{
    join_str(parts, ", ")
}

/// How often a character occurs in a string.
pub open spec fn count_char(s: Seq<char>, c: char) -> nat
    decreases s.len(),
{
    if s.len() == 0 {
        0
    } else {
        (if s[0] == c {
            1nat
        } else {
            0nat
        }) + count_char(s.skip(1), c)
    }
}

/// Occurrences add up over concatenation.
pub proof fn lemma_count_char_concat(a: Seq<char>, b: Seq<char>, c: char)
    ensures
        count_char(a + b, c) == count_char(a, c) + count_char(b, c),
    decreases a.len(),
{
    if a.len() == 0 {
        assert(a + b =~= b);
    } else {
        assert((a + b).skip(1) =~= a.skip(1) + b);
        lemma_count_char_concat(a.skip(1), b, c);
    }
}

/// A string without the character holds no occurrence of it.
pub proof fn lemma_count_char_absent(s: Seq<char>, c: char)
    requires
        !s.contains(c),
    ensures
        count_char(s, c) == 0,
    decreases s.len(),
{
    if s.len() > 0 {
        assert(!s.skip(1).contains(c)) by {
            if s.skip(1).contains(c) {
                let i = choose|i: int| 0 <= i < s.skip(1).len() && s.skip(1)[i] == c;
                assert(s[i + 1] == c);
            }
        }
        lemma_count_char_absent(s.skip(1), c);
        assert(s[0] != c);
    }
}

} // verus!
