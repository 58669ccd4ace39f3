//! Decimal numbers and other small pieces of text.

use vstd::prelude::*;

verus! {

/// The character that writes the digit `d`, for `d` below ten.
pub open spec fn digit_char(d: nat) -> char {
    if d == 0 {
        '0'
    } else if d == 1 {
        '1'
    } else if d == 2 {
        '2'
    } else if d == 3 {
        '3'
    } else if d == 4 {
        '4'
    } else if d == 5 {
        '5'
    } else if d == 6 {
        '6'
    } else if d == 7 {
        '7'
    } else if d == 8 {
        '8'
    } else {
        '9'
    }
}

/// The decimal numeral of `n`: no sign, no leading zero, `"0"` for zero.
pub open spec fn decimal_text(n: nat) -> Seq<char>
    decreases n,
{
    if n < 10 {
        seq![digit_char(n)]
    } else {
        decimal_text(n / 10).push(digit_char(n % 10))
    }
}

fn digit_str(d: u32) -> (s: &'static str)
    requires
        d < 10,
    ensures
        s@ == seq![digit_char(d as nat)],
{
    proof {
        reveal_strlit("0");
        reveal_strlit("1");
        reveal_strlit("2");
        reveal_strlit("3");
        reveal_strlit("4");
        reveal_strlit("5");
        reveal_strlit("6");
        reveal_strlit("7");
        reveal_strlit("8");
        reveal_strlit("9");
    }
    let s = if d == 0 {
        "0"
    } else if d == 1 {
        "1"
    } else if d == 2 {
        "2"
    } else if d == 3 {
        "3"
    } else if d == 4 {
        "4"
    } else if d == 5 {
        "5"
    } else if d == 6 {
        "6"
    } else if d == 7 {
        "7"
    } else if d == 8 {
        "8"
    } else {
        "9"
    };
    assert(s@ =~= seq![digit_char(d as nat)]);
    s
}

/// Writes `n` in decimal.
pub fn decimal(n: u32) -> (s: String)
    ensures
        s@ == decimal_text(n as nat),
    decreases n,
{
    if n < 10 {
        let s = String::from_str(digit_str(n));
        s
    } else {
        let mut s = decimal(n / 10);
        s.append(digit_str(n % 10));
        s
    }
}

/// What `char::is_whitespace` answers for `c`.
pub uninterp spec fn whitespace(c: char) -> bool;

/// `char::is_whitespace` of the standard library: its answer depends on the character alone,
/// and is the one that [`whitespace`] names.
pub assume_specification[ char::is_whitespace ](c: char) -> (b: bool)
    ensures
        b == whitespace(c),
;

/// A text is blank when nothing but white space is in it.
pub open spec fn blank_text(s: Seq<char>) -> bool {
    forall|i: int| 0 <= i < s.len() ==> whitespace(#[trigger] s[i])
}

/// Tells whether `s` is empty once the white space at both ends is taken away.
pub fn is_blank(s: &str) -> (b: bool)
    ensures
        b == blank_text(s@),
{
    for c in it: s.chars()
        invariant
            it.seq() == s@,
            forall|i: int| 0 <= i < it.index() ==> whitespace(#[trigger] s@[i]),
    {
        if !c.is_whitespace() {
            return false;
        }
    }
    true
}

/// Tells whether the character `'\0'` occurs in `s`.
pub fn has_nul(s: &str) -> (b: bool)
    ensures
        b == s@.contains('\0'),
{
    for c in it: s.chars()
        invariant
            it.seq() == s@,
            forall|i: int| 0 <= i < it.index() ==> s@[i] != '\0',
    {
        if c == '\0' {
            return true;
        }
    }
    false
}

/// One of the ten characters `'0'` to `'9'`.
pub open spec fn is_digit(c: char) -> bool {
    48 <= c as u32 <= 57
}

/// The number that the digit `c` stands for; zero for any other character.
pub open spec fn digit_value(c: char) -> nat {
    if is_digit(c) {
        (c as u32 - 48) as nat
    } else {
        0
    }
}

/// The number that a row of digits writes in decimal; zero for the empty row.
pub open spec fn digits_value(s: Seq<char>) -> nat
    decreases s.len(),
{
    if s.len() == 0 {
        0
    } else {
        digits_value(s.drop_last()) * 10 + digit_value(s.last())
    }
}

/// Every character of `s` is a digit.
pub open spec fn all_digits(s: Seq<char>) -> bool {
    forall|i: int| 0 <= i < s.len() ==> is_digit(#[trigger] s[i])
}

/// `s` without the `'+'` that may stand in front of it.
pub open spec fn unsigned_part(s: Seq<char>) -> Seq<char> {
    if s.len() > 0 && s[0] == '+' {
        s.subrange(1, s.len() as int)
    } else {
        s
    }
}

/// The number that `s` writes, if it writes one that fits in 32 bits: an optional `'+'`, then
/// one or more digits and nothing else. Leading zeros are allowed; white space, a `'-'` and an
/// empty text are not.
pub open spec fn number_of(s: Seq<char>) -> Option<u32> {
    let body = unsigned_part(s);
    if body.len() > 0 && all_digits(body) && digits_value(body) <= u32::MAX {
        Some(digits_value(body) as u32)
    } else {
        None
    }
}

/// A row of digits is worth at least as much as any of its beginnings.
proof fn lemma_digits_value_grows(s: Seq<char>, k: int)
    requires
        0 <= k <= s.len(),
    ensures
        digits_value(s.take(k)) <= digits_value(s),
    decreases s.len(),
{
    if k == s.len() {
        assert(s.take(k) =~= s);
    } else {
        lemma_digits_value_grows(s.drop_last(), k);
        assert(s.drop_last().take(k) =~= s.take(k));
    }
}

/// Reads a number written in decimal.
pub fn parse_number(s: &str) -> (r: Option<u32>)
    ensures
        r == number_of(s@),
{
    let ghost start: int = if s@.len() > 0 && s@[0] == '+' {
        1
    } else {
        0
    };
    let ghost body = unsigned_part(s@);
    let mut value: u64 = 0;
    let mut any = false;
    let mut first = true;
    for c in it: s.chars()
        invariant
            it.seq() == s@,
            body == unsigned_part(s@),
            start == s@.len() - body.len(),
            first <==> it.index() == 0,
            !first ==> start <= it.index(),
            first ==> !any && value == 0,
            any <==> start < it.index(),
            !first ==> all_digits(s@.subrange(start, it.index())),
            !first ==> value == digits_value(s@.subrange(start, it.index())),
            value <= u32::MAX,
    {
        let ghost i = it.index();
        let code = c as u32;
        if first && c == '+' {
            first = false;
            assert(s@.subrange(start, i + 1) =~= Seq::<char>::empty());
        } else if 48 <= code && code <= 57 {
            let ghost before = s@.subrange(start, i);
            let ghost after = s@.subrange(start, i + 1);
            proof {
                if first {
                    assert(before =~= Seq::<char>::empty());
                }
                assert(after.drop_last() =~= before);
                assert(after.last() == c);
                assert(digit_value(c) == code - 48);
                assert(digits_value(before) == value);
                assert(digits_value(after) == value * 10 + (code - 48));
                assert(after =~= body.take(i + 1 - start));
                lemma_digits_value_grows(body, i + 1 - start);
            }
            first = false;
            any = true;
            value = value * 10 + (code - 48) as u64;
            if value > 0xffff_ffff {
                return None;
            }
        } else {
            assert(body[i - start] == c);
            return None;
        }
    }
    if any {
        assert(s@.subrange(start, s@.len() as int) =~= body);
        Some(value as u32)
    } else {
        None
    }
}

/// The pieces of `s` that lie between the occurrences of `sep`, in order: the one row of
/// pieces, none of them holding `sep`, that gives `s` back when a `sep` is put between each
/// two (see [`law_split_then_join`] and [`law_join_then_split`]).
pub open spec fn split_text(s: Seq<char>, sep: char) -> Seq<Seq<char>>
    decreases s.len(),
{
    if s.len() == 0 {
        seq![Seq::empty()]
    } else {
        let before = split_text(s.drop_last(), sep);
        if s.last() == sep {
            before.push(Seq::empty())
        } else {
            before.drop_last().push(before.last().push(s.last()))
        }
    }
}

/// Cuts `line` at every `sep`.
pub fn split(line: &str, sep: char) -> (pieces: Vec<String>)
    ensures
        pieces.deep_view() == split_text(line@, sep),
{
    let n = line.unicode_len();
    let mut pieces: Vec<String> = Vec::new();
    let mut start: usize = 0;
    let mut i: usize = 0;
    assert(line@.take(0) =~= Seq::<char>::empty());
    assert(line@.subrange(0, 0) =~= Seq::<char>::empty());
    assert(pieces.deep_view() =~= Seq::<Seq<char>>::empty());
    for c in it: line.chars()
        invariant
            it.seq() == line@,
            n == line@.len(),
            i == it.index(),
            start <= i,
            split_text(line@.take(i as int), sep) == pieces.deep_view().push(
                line@.subrange(start as int, i as int),
            ),
    {
        let ghost done = pieces.deep_view();
        let ghost piece = line@.subrange(start as int, i as int);
        proof {
            assert(line@.take(i + 1).drop_last() =~= line@.take(i as int));
            assert(line@.take(i + 1).last() == c);
        }
        if c == sep {
            pieces.push(String::from_str(line.substring_char(start, i)));
            start = i + 1;
            proof {
                assert(pieces.deep_view() =~= done.push(piece));
                assert(line@.subrange(start as int, i + 1) =~= Seq::<char>::empty());
            }
        } else {
            proof {
                assert(line@.subrange(start as int, i + 1) =~= piece.push(c));
                assert(done.push(piece).drop_last() =~= done);
            }
        }
        i = i + 1;
    }
    let ghost done = pieces.deep_view();
    pieces.push(String::from_str(line.substring_char(start, i)));
    proof {
        assert(line@.take(i as int) =~= line@);
        assert(pieces.deep_view() =~= done.push(line@.subrange(start as int, i as int)));
    }
    pieces
}

/// The pieces written one after another with a `sep` between each two.
pub open spec fn joined(pieces: Seq<Seq<char>>, sep: char) -> Seq<char>
    decreases pieces.len(),
{
    if pieces.len() == 0 {
        seq![]
    } else if pieces.len() == 1 {
        pieces[0]
    } else {
        joined(pieces.drop_last(), sep).push(sep) + pieces.last()
    }
}

/// No piece holds `sep`.
pub open spec fn free_of(pieces: Seq<Seq<char>>, sep: char) -> bool {
    forall|i: int| 0 <= i < pieces.len() ==> !(#[trigger] pieces[i]).contains(sep)
}

/// Cutting a text gives at least one piece, no piece holds the separator, and joining the
/// pieces gives the text back.
pub proof fn law_split_then_join(s: Seq<char>, sep: char)
    ensures
        split_text(s, sep).len() >= 1,
        free_of(split_text(s, sep), sep),
        joined(split_text(s, sep), sep) == s,
    decreases s.len(),
{
    let pieces = split_text(s, sep);
    if s.len() == 0 {
        assert(joined(pieces, sep) =~= s);
    } else {
        let before = split_text(s.drop_last(), sep);
        law_split_then_join(s.drop_last(), sep);
        if s.last() == sep {
            assert(pieces.drop_last() =~= before);
            assert(joined(pieces, sep) =~= s.drop_last().push(sep));
            assert(s.drop_last().push(sep) =~= s);
            assert forall|i: int| 0 <= i < pieces.len() implies !(#[trigger] pieces[i]).contains(
                sep,
            ) by {
                if i < before.len() {
                    assert(pieces[i] == before[i]);
                }
            }
        } else {
            let grown = before.last().push(s.last());
            assert(pieces.drop_last() =~= before.drop_last());
            assert(pieces.last() == grown);
            if before.len() == 1 {
                assert(joined(pieces, sep) =~= s.drop_last().push(s.last()));
            } else {
                assert(joined(pieces, sep) =~= (joined(before.drop_last(), sep).push(sep)
                    + before.last()).push(s.last()));
            }
            assert(s.drop_last().push(s.last()) =~= s);
            assert forall|i: int| 0 <= i < pieces.len() implies !(#[trigger] pieces[i]).contains(
                sep,
            ) by {
                if i < before.len() - 1 {
                    assert(pieces[i] == before[i]);
                } else {
                    assert(!before[before.len() - 1].contains(sep));
                    if grown.contains(sep) {
                        let k = choose|k: int| 0 <= k < grown.len() && grown[k] == sep;
                        assert(before.last()[k] == sep);
                    }
                }
            }
        }
    }
}

proof fn lemma_split_whole(piece: Seq<char>, sep: char)
    requires
        !piece.contains(sep),
    ensures
        split_text(piece, sep) == seq![piece],
    decreases piece.len(),
{
    if piece.len() == 0 {
        assert(piece =~= Seq::<char>::empty());
    } else {
        let shorter = piece.drop_last();
        assert(piece[piece.len() - 1] != sep);
        assert forall|k: int| 0 <= k < shorter.len() implies shorter[k] != sep by {
            assert(piece[k] == shorter[k]);
        }
        lemma_split_whole(shorter, sep);
        let before = split_text(shorter, sep);
        assert(before.drop_last() =~= Seq::<Seq<char>>::empty());
        assert(before.last() == shorter);
        assert(shorter.push(piece.last()) =~= piece);
        assert(split_text(piece, sep) =~= seq![piece]);
    }
}

proof fn lemma_split_after(head: Seq<char>, piece: Seq<char>, sep: char)
    requires
        !piece.contains(sep),
    ensures
        split_text(head.push(sep) + piece, sep) == split_text(head, sep).push(piece),
    decreases piece.len(),
{
    let whole = head.push(sep) + piece;
    if piece.len() == 0 {
        assert(whole =~= head.push(sep));
        assert(whole.drop_last() =~= head);
        assert(piece =~= Seq::<char>::empty());
    } else {
        let shorter = piece.drop_last();
        assert(piece[piece.len() - 1] != sep);
        assert forall|k: int| 0 <= k < shorter.len() implies shorter[k] != sep by {
            assert(piece[k] == shorter[k]);
        }
        lemma_split_after(head, shorter, sep);
        assert(whole.drop_last() =~= head.push(sep) + shorter);
        assert(whole.last() == piece.last());
        let before = split_text(head, sep).push(shorter);
        assert(before.drop_last() =~= split_text(head, sep));
        assert(shorter.push(piece.last()) =~= piece);
    }
}

/// Joining pieces that do not hold the separator, and cutting what comes of it, gives the
/// pieces back.
pub proof fn law_join_then_split(pieces: Seq<Seq<char>>, sep: char)
    requires
        pieces.len() >= 1,
        free_of(pieces, sep),
    ensures
        split_text(joined(pieces, sep), sep) == pieces,
    decreases pieces.len(),
{
    if pieces.len() == 1 {
        lemma_split_whole(pieces[0], sep);
        assert(seq![pieces[0]] =~= pieces);
    } else {
        let before = pieces.drop_last();
        assert forall|i: int| 0 <= i < before.len() implies !(#[trigger] before[i]).contains(
            sep,
        ) by {
            assert(before[i] == pieces[i]);
        }
        law_join_then_split(before, sep);
        assert(!pieces[pieces.len() - 1].contains(sep));
        lemma_split_after(joined(before, sep), pieces.last(), sep);
        assert(before.push(pieces.last()) =~= pieces);
    }
}

/// What [`decimal_text`] writes, [`number_of`] reads back.
pub proof fn law_decimal_reads_back(n: nat)
    requires
        n <= u32::MAX,
    ensures
        number_of(decimal_text(n)) == Some(n as u32),
{
    lemma_decimal_is_digits(n);
    assert(unsigned_part(decimal_text(n)) == decimal_text(n)) by {
        assert(is_digit(decimal_text(n)[0]));
    }
}

proof fn lemma_decimal_is_digits(n: nat)
    ensures
        decimal_text(n).len() >= 1,
        all_digits(decimal_text(n)),
        digits_value(decimal_text(n)) == n,
    decreases n,
{
    let text = decimal_text(n);
    if n < 10 {
        assert(text.drop_last() =~= Seq::<char>::empty());
        assert(digits_value(text.drop_last()) == 0);
        assert(digit_value(text.last()) == n);
    } else {
        lemma_decimal_is_digits(n / 10);
        assert(text.drop_last() =~= decimal_text(n / 10));
        assert(digit_value(text.last()) == n % 10);
        assert(is_digit(text.last()));
        assert forall|i: int| 0 <= i < text.len() implies is_digit(#[trigger] text[i]) by {
            if i < text.len() - 1 {
                assert(text[i] == decimal_text(n / 10)[i]);
            }
        }
    }
}

} // verus!
