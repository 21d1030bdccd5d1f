//! Text building blocks: equality, prefixes, numbers in decimal and hexadecimal, trimming and
//! paragraphs. A text is modelled by the sequence of its characters.
use vstd::prelude::*;

verus! {

/// `String::push` appends the given character to the end of the string.
pub assume_specification[ String::push ](s: &mut String, c: char)
    ensures
        final(s)@ == old(s)@.push(c),
;

/// Whether two texts hold the same characters.
pub fn same(a: &str, b: &str) -> (r: bool)
    ensures
        r == (a@ == b@),
{
    a.to_owned() == b.to_owned()
}

/// Whether `text` begins with `prefix`.
pub fn starts_with(text: &str, prefix: &str) -> (r: bool)
    ensures
        r == prefix@.is_prefix_of(text@),
{
    let n: usize = prefix.unicode_len();
    if text.unicode_len() < n {
        false
    } else {
        proof {
            assert(prefix@.is_prefix_of(text@) <==> text@.subrange(0, n as int) == prefix@) by {
                assert(text@.subrange(0, prefix@.len() as int).len() == prefix@.len());
            }
        }
        same(text.substring_char(0, n), prefix)
    }
}

/// The character that writes the digit `d`: `0` to `9`, then `a` to `f`.
pub open spec fn digit(d: nat) -> char {
    if d < 10 {
        (d + 48) as char
    } else {
        (d + 87) as char
    }
}

/// `n` written in decimal, without leading zeros.
pub open spec fn decimal(n: nat) -> Seq<char>
    decreases n,
{
    if n < 10 {
        seq![digit(n)]
    } else {
        decimal(n / 10).push(digit(n % 10))
    }
}

/// `n` written as two hexadecimal digits in lower case.
pub open spec fn hex_pair(n: nat) -> Seq<char> {
    seq![digit(n / 16), digit(n % 16)]
}

/// Writes one digit.
fn digit_char(d: u8) -> (r: char)
    requires
        d < 16,
    ensures
        r == digit(d as nat),
{
    if d < 10 {
        (d + 48) as char
    } else {
        (d + 87) as char
    }
}

/// Appends `n` in decimal.
pub fn push_decimal(out: &mut String, n: u16)
    ensures
        final(out)@ == old(out)@ + decimal(n as nat),
    decreases n,
{
    if n >= 10 {
        push_decimal(out, n / 10);
    }
    out.push(digit_char((n % 10) as u8));
}

/// Appends `n` as two hexadecimal digits.
pub fn push_hex_pair(out: &mut String, n: u8)
    ensures
        final(out)@ == old(out)@ + hex_pair(n as nat),
{
    out.push(digit_char(n / 16));
    out.push(digit_char(n % 16));
}

/// The characters with the Unicode property White_Space.
pub open spec fn white_space(c: char) -> bool {
    let v = c as u32;
    ||| 0x9 <= v <= 0xd
    ||| v == 0x20
    ||| v == 0x85
    ||| v == 0xa0
    ||| v == 0x1680
    ||| 0x2000 <= v <= 0x200a
    ||| v == 0x2028
    ||| v == 0x2029
    ||| v == 0x202f
    ||| v == 0x205f
    ||| v == 0x3000
}

/// Whether `c` has the Unicode property White_Space.
pub fn is_white_space(c: char) -> (r: bool)
    ensures
        r == white_space(c),
{
    let v: u32 = c as u32;
    (0x9 <= v && v <= 0xd) || v == 0x20 || v == 0x85 || v == 0xa0 || v == 0x1680 || (0x2000 <= v
        && v <= 0x200a) || v == 0x2028 || v == 0x2029 || v == 0x202f || v == 0x205f || v == 0x3000
}

/// `s` without the white space at its start.
pub open spec fn trimmed_start(s: Seq<char>) -> Seq<char>
    decreases s.len(),
{
    if s.len() > 0 && white_space(s.first()) {
        trimmed_start(s.drop_first())
    } else {
        s
    }
}

/// `s` without the white space at its end.
pub open spec fn trimmed_end(s: Seq<char>) -> Seq<char>
    decreases s.len(),
{
    if s.len() > 0 && white_space(s.last()) {
        trimmed_end(s.drop_last())
    } else {
        s
    }
}

/// `s` without the white space at either end.
pub open spec fn trimmed(s: Seq<char>) -> Seq<char> {
    trimmed_end(trimmed_start(s))
}

/// Whether `s` holds nothing but white space.
pub open spec fn blank(s: Seq<char>) -> bool {
    forall|i: int| 0 <= i < s.len() ==> white_space(#[trigger] s[i])
}

/// Removes the white space at either end of `text`.
pub fn trim(text: &str) -> (r: &str)
    ensures
        r@ == trimmed(text@),
{
    let n: usize = text.unicode_len();
    let mut start: usize = 0;
    proof {
        assert(text@.skip(0) == text@);
    }
    while start < n && is_white_space(text.get_char(start))
        invariant
            n == text@.len(),
            start <= n,
            trimmed_start(text@) == trimmed_start(text@.skip(start as int)),
        decreases n - start,
    {
        proof {
            assert(text@.skip(start as int).drop_first() == text@.skip(start + 1));
        }
        start = start + 1;
    }
    let ghost rest = text@.skip(start as int);
    assert(trimmed_start(text@) == rest);
    let mut end: usize = n;
    proof {
        assert(text@.subrange(start as int, n as int) == rest);
    }
    while start < end && is_white_space(text.get_char(end - 1))
        invariant
            n == text@.len(),
            start <= end <= n,
            trimmed_end(rest) == trimmed_end(text@.subrange(start as int, end as int)),
        decreases end,
    {
        proof {
            assert(text@.subrange(start as int, end as int).drop_last() == text@.subrange(
                start as int,
                end - 1,
            ));
        }
        end = end - 1;
    }
    text.substring_char(start, end)
}

/// What trimming leaves of a text is empty exactly when the text is blank.
pub proof fn trimmed_empty_iff_blank(s: Seq<char>)
    ensures
        trimmed(s).len() == 0 <==> blank(s),
{
    trimmed_start_empty_iff_blank(s);
    let t = trimmed_start(s);
    trimmed_end_keeps_first(t);
}

proof fn trimmed_start_empty_iff_blank(s: Seq<char>)
    ensures
        trimmed_start(s).len() == 0 <==> blank(s),
        trimmed_start(s).len() > 0 ==> !white_space(trimmed_start(s).first()),
    decreases s.len(),
{
    if s.len() > 0 && white_space(s.first()) {
        trimmed_start_empty_iff_blank(s.drop_first());
        assert(blank(s) <==> blank(s.drop_first())) by {
            if blank(s.drop_first()) {
                assert forall|i: int| 0 <= i < s.len() implies white_space(#[trigger] s[i]) by {
                    if i > 0 {
                        assert(s.drop_first()[i - 1] == s[i]);
                    }
                }
            }
            if blank(s) {
                assert forall|i: int| 0 <= i < s.len() - 1 implies white_space(
                    #[trigger] s.drop_first()[i],
                ) by {
                    assert(s.drop_first()[i] == s[i + 1]);
                }
            }
        }
    } else if s.len() > 0 {
        assert(!white_space(s[0]));
    }
}

proof fn trimmed_end_keeps_first(s: Seq<char>)
    requires
        s.len() > 0 ==> !white_space(s.first()),
    ensures
        s.len() > 0 ==> trimmed_end(s).len() > 0 && trimmed_end(s).first() == s.first(),
    decreases s.len(),
{
    if s.len() > 0 && white_space(s.last()) {
        trimmed_end_keeps_first(s.drop_last());
    }
}

/// `s` up to its first blank line.
pub open spec fn first_paragraph(s: Seq<char>) -> Seq<char>
    decreases s.len(),
{
    if s.len() < 2 {
        s
    } else if s[0] == '\n' && s[1] == '\n' {
        seq![]
    } else {
        seq![s[0]] + first_paragraph(s.drop_first())
    }
}

/// Whether no two line ends in `s` follow each other.
pub open spec fn single_spaced(s: Seq<char>) -> bool {
    forall|i: int, j: int|
        #![trigger s[i], s[j]]
        0 <= i < s.len() - 1 && j == i + 1 ==> s[i] != '\n' || s[j] != '\n'
}

/// Cuts a text at its first blank line.
pub fn paragraph(text: &str) -> (r: &str)
    ensures
        r@ == first_paragraph(text@),
{
    let n: usize = text.unicode_len();
    let mut i: usize = 0;
    assert(text@.skip(0) == text@);
    assert(text@.take(0) == Seq::<char>::empty());
    while i < n && i + 1 < n
        invariant
            n == text@.len(),
            i <= n,
            first_paragraph(text@) == text@.take(i as int) + first_paragraph(
                text@.skip(i as int),
            ),
        decreases n - i,
    {
        let ghost rest = text@.skip(i as int);
        if text.get_char(i) == '\n' && text.get_char(i + 1) == '\n' {
            assert(rest[0] == text@[i as int] && rest[1] == text@[i + 1]);
            assert(first_paragraph(text@) == text@.take(i as int));
            return text.substring_char(0, i);
        }
        proof {
            assert(rest[0] == text@[i as int] && rest[1] == text@[i + 1]);
            assert(rest.drop_first() == text@.skip(i + 1));
            assert(text@.take(i as int) + seq![rest[0]] == text@.take(i + 1));
            assert(first_paragraph(text@) == text@.take(i + 1) + first_paragraph(
                text@.skip(i + 1),
            ));
        }
        i = i + 1;
    }
    assert(text@.take(i as int) + text@.skip(i as int) == text@);
    text
}

/// A paragraph ends where the first blank line begins.
pub proof fn first_paragraph_ends_at_blank_line(a: Seq<char>, b: Seq<char>)
    requires
        single_spaced(a),
        a.len() > 0 ==> a.last() != '\n',
    ensures
        first_paragraph(a + "\n\n"@ + b) == a,
    decreases a.len(),
{
    reveal_strlit("\n\n");
    let s = a + "\n\n"@ + b;
    if a.len() == 0 {
        assert(s[0] == '\n' && s[1] == '\n');
    } else {
        let rest = a.drop_first();
        assert(single_spaced(rest)) by {
            assert forall|i: int, j: int|
                #![trigger rest[i], rest[j]]
                0 <= i < rest.len() - 1 && j == i + 1 implies rest[i] != '\n' || rest[j]
                != '\n' by {
                assert(rest[i] == a[i + 1] && rest[j] == a[j + 1]);
            }
        }
        first_paragraph_ends_at_blank_line(rest, b);
        assert(s.drop_first() == rest + "\n\n"@ + b);
        assert(s[0] == a[0]);
        if a.len() > 1 {
            assert(s[1] == a[1]);
        }
        assert(seq![a[0]] + rest == a);
    }
}

/// Trimming takes white space, and nothing else, from either end of a text, and leaves no more of
/// it there.
pub proof fn trimmed_is_the_middle(s: Seq<char>)
    ensures
        exists|i: int, j: int|
            0 <= i <= j <= s.len() && trimmed(s) == #[trigger] s.subrange(i, j) && (forall|k: int|
                0 <= k < i || j <= k < s.len() ==> white_space(#[trigger] s[k])),
        trimmed(s).len() > 0 ==> !white_space(trimmed(s).first()) && !white_space(
            trimmed(s).last(),
        ),
{
    let t = trimmed_start(s);
    trimmed_start_empty_iff_blank(s);
    trimmed_end_keeps_first(t);
    trimmed_start_is_a_suffix(s);
    trimmed_end_is_a_prefix(t);
    let i = s.len() - t.len();
    let j = i + trimmed(s).len();
    assert(trimmed(s) =~= s.subrange(i, j));
    assert forall|k: int| 0 <= k < i || j <= k < s.len() implies white_space(#[trigger] s[k]) by {
        if k >= j {
            assert(t[k - i] == s[k]);
        }
    }
}

proof fn trimmed_start_is_a_suffix(s: Seq<char>)
    ensures
        trimmed_start(s).len() <= s.len(),
        trimmed_start(s) == s.skip(s.len() - trimmed_start(s).len()),
        forall|k: int|
            0 <= k < s.len() - trimmed_start(s).len() ==> white_space(#[trigger] s[k]),
    decreases s.len(),
{
    if s.len() > 0 && white_space(s.first()) {
        let rest = s.drop_first();
        trimmed_start_is_a_suffix(rest);
        assert(trimmed_start(s) =~= s.skip(s.len() - trimmed_start(s).len()));
        assert forall|k: int| 0 <= k < s.len() - trimmed_start(s).len() implies white_space(
            #[trigger] s[k],
        ) by {
            if k > 0 {
                assert(rest[k - 1] == s[k]);
            }
        }
    } else {
        assert(s.skip(0) == s);
    }
}

proof fn trimmed_end_is_a_prefix(s: Seq<char>)
    ensures
        trimmed_end(s).len() <= s.len(),
        trimmed_end(s) == s.take(trimmed_end(s).len() as int),
        forall|k: int| trimmed_end(s).len() <= k < s.len() ==> white_space(#[trigger] s[k]),
        trimmed_end(s).len() > 0 ==> !white_space(trimmed_end(s).last()),
    decreases s.len(),
{
    if s.len() > 0 && white_space(s.last()) {
        let rest = s.drop_last();
        trimmed_end_is_a_prefix(rest);
        assert(trimmed_end(s) =~= s.take(trimmed_end(s).len() as int));
        assert forall|k: int| trimmed_end(s).len() <= k < s.len() implies white_space(
            #[trigger] s[k],
        ) by {
            if k < s.len() - 1 {
                assert(rest[k] == s[k]);
            }
        }
    } else {
        assert(s.take(s.len() as int) == s);
    }
}

/// A paragraph is the start of its text, up to the first blank line or, if there is none, to the
/// end.
pub proof fn first_paragraph_is_the_start(s: Seq<char>)
    ensures
        first_paragraph(s).is_prefix_of(s),
        forall|i: int|
            0 <= i < first_paragraph(s).len() && i + 1 < s.len() ==> !(#[trigger] s[i] == '\n'
                && s[i + 1] == '\n'),
        first_paragraph(s).len() < s.len() ==> {
            &&& first_paragraph(s).len() + 1 < s.len()
            &&& s[first_paragraph(s).len() as int] == '\n'
            &&& s[first_paragraph(s).len() as int + 1] == '\n'
        },
    decreases s.len(),
{
    if s.len() >= 2 && !(s[0] == '\n' && s[1] == '\n') {
        let rest = s.drop_first();
        let p = first_paragraph(rest);
        first_paragraph_is_the_start(rest);
        assert(first_paragraph(s).len() == 1 + p.len());
        assert forall|k: int| 0 <= k < first_paragraph(s).len() implies first_paragraph(s)[k]
            == s[k] by {
            if k > 0 {
                assert(first_paragraph(s)[k] == p[k - 1]);
                assert(p[k - 1] == rest[k - 1]);
            }
        }
        assert(first_paragraph(s) =~= s.subrange(0, first_paragraph(s).len() as int));
        assert forall|i: int| 0 <= i < first_paragraph(s).len() && i + 1 < s.len() implies !(
        #[trigger] s[i] == '\n' && s[i + 1] == '\n') by {
            if i > 0 {
                assert(rest[i - 1] == s[i] && rest[i] == s[i + 1]);
            }
        }
        if first_paragraph(s).len() < s.len() {
            let n = p.len() as int;
            assert(rest[n] == s[n + 1] && rest[n + 1] == s[n + 2]);
        }
    }
}

/// Reading a decimal text digit by digit gives the number, and only zero begins with a zero.
pub proof fn decimal_reads_back(n: nat)
    ensures
        decimal_value(decimal(n)) == n,
        decimal(n).len() > 0,
        forall|i: int| 0 <= i < decimal(n).len() ==> '0' <= #[trigger] decimal(n)[i] <= '9',
        decimal(n)[0] == '0' <==> n == 0,
    decreases n,
{
    if n >= 10 {
        decimal_reads_back(n / 10);
        assert(decimal(n).drop_last() == decimal(n / 10));
    } else {
        assert(decimal(n).drop_last() == Seq::<char>::empty());
        assert(decimal_value(Seq::<char>::empty()) == 0);
    }
}

/// The number that decimal digits stand for.
pub open spec fn decimal_value(s: Seq<char>) -> nat
    decreases s.len(),
{
    if s.len() == 0 {
        0
    } else {
        10 * decimal_value(s.drop_last()) + (s.last() as nat - '0' as nat) as nat
    }
}

} // verus!
