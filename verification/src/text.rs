//! Text helpers shared by the library: string equality, decimal rendering,
//! Unicode white-space trimming, ASCII case folding and repeated characters.

use vstd::prelude::*;

verus! {

/// Appends one character to a string (`String::push`).
///
/// Trusted: claims that after the call the string holds its old characters
/// followed by `c`, which is what the standard library documents for `push`.
#[verifier::external_body]
pub(crate) fn push_char(s: &mut String, c: char)
    ensures
        final(s)@ == old(s)@.push(c),
{
    s.push(c);
}

/// Whether two string slices hold the same characters.
pub fn str_eq(a: &str, b: &str) -> (r: bool)
    ensures
        r == (a@ == b@),
{
    let a_owned = a.to_owned();
    let b_owned = b.to_owned();
    a_owned == b_owned
}

/// The character of a decimal digit.
pub open spec fn spec_digit_char(d: nat) -> char {
    if d == 0 {
        '0'
    } else if d == 1 {
        '1'
    } else if d == 2 {
        '2'
    } else if d == 3 {
        '3'
    } else if d == 4 {
        '4'
    } else if d == 5 {
        '5'
    } else if d == 6 {
        '6'
    } else if d == 7 {
        '7'
    } else if d == 8 {
        '8'
    } else {
        '9'
    }
}

/// The decimal rendering of a natural number, as `Display` prints an integer.
pub open spec fn spec_decimal(n: nat) -> Seq<char>
    decreases n,
{
    if n < 10 {
        seq![spec_digit_char(n)]
    } else {
        spec_decimal(n / 10).push(spec_digit_char(n % 10))
    }
}

fn digit_char(d: u128) -> (c: char)
    requires
        d < 10,
    ensures
        c == spec_digit_char(d as nat),
{
    if d == 0 {
        '0'
    } else if d == 1 {
        '1'
    } else if d == 2 {
        '2'
    } else if d == 3 {
        '3'
    } else if d == 4 {
        '4'
    } else if d == 5 {
        '5'
    } else if d == 6 {
        '6'
    } else if d == 7 {
        '7'
    } else if d == 8 {
        '8'
    } else {
        '9'
    }
}

/// Appends the decimal rendering of `n`.
pub fn push_decimal(s: &mut String, n: u128)
    ensures
        final(s)@ == old(s)@ + spec_decimal(n as nat),
    decreases n,
{
    if n >= 10 {
        push_decimal(s, n / 10);
        push_char(s, digit_char(n % 10));
    } else {
        push_char(s, digit_char(n));
    }
}

/// Unicode `White_Space`, the set that `char::is_whitespace` and `str::trim` use.
pub open spec fn is_white_space(c: char) -> bool {
    let u = c as u32;
    ||| 0x9 <= u <= 0xd
    ||| u == 0x20
    ||| u == 0x85
    ||| u == 0xa0
    ||| u == 0x1680
    ||| 0x2000 <= u <= 0x200a
    ||| u == 0x2028
    ||| u == 0x2029
    ||| u == 0x202f
    ||| u == 0x205f
    ||| u == 0x3000
}

fn char_is_white_space(c: char) -> (r: bool)
    ensures
        r == is_white_space(c),
{
    let u = c as u32;
    (0x9 <= u && u <= 0xd) || u == 0x20 || u == 0x85 || u == 0xa0 || u == 0x1680 || (0x2000
        <= u && u <= 0x200a) || u == 0x2028 || u == 0x2029 || u == 0x202f || u == 0x205f || u
        == 0x3000
}

/// The characters left after dropping leading white space.
pub open spec fn spec_trim_start(s: Seq<char>) -> Seq<char>
    decreases s.len(),
{
    if s.len() > 0 && is_white_space(s[0]) {
        spec_trim_start(s.drop_first())
    } else {
        s
    }
}

/// The characters left after dropping trailing white space.
pub open spec fn spec_trim_end(s: Seq<char>) -> Seq<char>
    decreases s.len(),
{
    if s.len() > 0 && is_white_space(s.last()) {
        spec_trim_end(s.drop_last())
    } else {
        s
    }
}

/// What `str::trim` returns: leading and trailing white space removed.
pub open spec fn spec_trim(s: Seq<char>) -> Seq<char> {
    spec_trim_end(spec_trim_start(s))
}

/// Removes leading and trailing white space.
pub fn trim(s: &str) -> (r: &str)
    ensures
        r@ == spec_trim(s@),
{
    let n = s.unicode_len();
    let mut i: usize = 0;
    assert(s@.subrange(0, n as int) =~= s@);
    while i < n && char_is_white_space(s.get_char(i))
        invariant
            n == s@.len(),
            i <= n,
            spec_trim_start(s@) == spec_trim_start(s@.subrange(i as int, n as int)),
        decreases n - i,
    {
        assert(s@.subrange(i as int, n as int).drop_first() =~= s@.subrange(i + 1, n as int));
        i = i + 1;
    }
    assert(spec_trim_start(s@) == s@.subrange(i as int, n as int)) by {
        if i == n {
            assert(s@.subrange(i as int, n as int).len() == 0);
        }
    }
    let mut j: usize = n;
    while j > i && char_is_white_space(s.get_char(j - 1))
        invariant
            n == s@.len(),
            i <= j <= n,
            spec_trim(s@) == spec_trim_end(s@.subrange(i as int, j as int)),
        decreases j - i,
    {
        assert(s@.subrange(i as int, j as int).drop_last() =~= s@.subrange(i as int, j - 1));
        j = j - 1;
    }
    s.substring_char(i, j)
}

/// Whether every character is white space, i.e. whether `trim` leaves nothing.
pub open spec fn spec_is_blank(s: Seq<char>) -> bool {
    spec_trim(s).len() == 0
}

/// Whether `str::trim` of the text is empty.
pub fn is_blank(s: &str) -> (r: bool)
    ensures
        r == spec_is_blank(s@),
{
    let t = trim(s);
    t.unicode_len() == 0
}

proof fn lemma_trim_start_empty(s: Seq<char>)
    ensures
        spec_trim_start(s).len() == 0 <==> forall|i: int| 0 <= i < s.len() ==> is_white_space(
            #[trigger] s[i],
        ),
        spec_trim_start(s).len() > 0 ==> !is_white_space(spec_trim_start(s)[0]),
    decreases s.len(),
{
    if s.len() > 0 && is_white_space(s[0]) {
        lemma_trim_start_empty(s.drop_first());
        assert forall|i: int| 1 <= i < s.len() implies #[trigger] s[i] == s.drop_first()[i - 1] by {}
        if spec_trim_start(s).len() == 0 {
            assert forall|i: int| 0 <= i < s.len() implies is_white_space(#[trigger] s[i]) by {
                if i > 0 {
                    assert(s[i] == s.drop_first()[i - 1]);
                }
            }
        }
    }
}

proof fn lemma_trim_end_keeps_leading(t: Seq<char>)
    requires
        t.len() > 0,
        !is_white_space(t[0]),
    ensures
        spec_trim_end(t).len() > 0,
    decreases t.len(),
{
    if is_white_space(t.last()) {
        lemma_trim_end_keeps_leading(t.drop_last());
    }
}

/// A text is blank exactly when every one of its characters is white space.
pub proof fn lemma_blank_means_all_white_space(s: Seq<char>)
    ensures
        spec_is_blank(s) <==> forall|i: int| 0 <= i < s.len() ==> is_white_space(#[trigger] s[i]),
{
    lemma_trim_start_empty(s);
    if spec_trim_start(s).len() > 0 {
        lemma_trim_end_keeps_leading(spec_trim_start(s));
    }
}

/// `n` copies of one character.
pub open spec fn spec_repeat(c: char, n: nat) -> Seq<char> {
    Seq::new(n, |i: int| c)
}

/// Appends `n` copies of `c`.
pub fn push_repeated(s: &mut String, c: char, n: usize)
    ensures
        final(s)@ == old(s)@ + spec_repeat(c, n as nat),
{
    let ghost start = s@;
    let mut k: usize = 0;
    while k < n
        invariant
            k <= n,
            s@ == start + spec_repeat(c, k as nat),
        decreases n - k,
    {
        push_char(s, c);
        k = k + 1;
        assert(s@ =~= start + spec_repeat(c, k as nat));
    }
}

/// Appends a string slice.
pub fn push_text(s: &mut String, t: &str)
    ensures
        final(s)@ == old(s)@ + t@,
{
    s.append(t);
}

} // verus!
