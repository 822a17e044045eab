//! Text building blocks: character pushing, decimal numbers, CSV fields.

use vstd::prelude::*;
use vstd::string::*;
use crate::types::{Color, Square};

verus! {

/// Appends one character to a string.
///
/// Trusted wrapper around `String::push`, whose documentation states that it
/// appends the given `char` to the end of the `String`.
#[verifier::external_body]
pub(crate) fn push_char(s: &mut String, c: char)
    ensures
        final(s)@ == old(s)@.push(c),
{
    s.push(c);
}

/// The decimal digit for `d` (0 to 9).
pub open spec fn digit_char(d: nat) -> char {
    if d == 0 {
        '0'
    } else if d == 1 {
        '1'
    } else if d == 2 {
        '2'
    } else if d == 3 {
        '3'
    } else if d == 4 {
        '4'
    } else if d == 5 {
        '5'
    } else if d == 6 {
        '6'
    } else if d == 7 {
        '7'
    } else if d == 8 {
        '8'
    } else {
        '9'
    }
}

/// The decimal notation of a number, without leading zeros.
pub open spec fn decimal(n: nat) -> Seq<char>
    decreases n,
{
    if n < 10 {
        seq![digit_char(n)]
    } else {
        decimal(n / 10).push(digit_char(n % 10))
    }
}

/// The decimal notation padded with a leading zero to at least two digits.
pub open spec fn pad2(n: nat) -> Seq<char> {
    if n < 10 {
        seq!['0'] + decimal(n)
    } else {
        decimal(n)
    }
}

fn digit(d: u64) -> (c: char)
    requires
        d < 10,
    ensures
        c == digit_char(d as nat),
{
    if d == 0 {
        '0'
    } else if d == 1 {
        '1'
    } else if d == 2 {
        '2'
    } else if d == 3 {
        '3'
    } else if d == 4 {
        '4'
    } else if d == 5 {
        '5'
    } else if d == 6 {
        '6'
    } else if d == 7 {
        '7'
    } else if d == 8 {
        '8'
    } else {
        '9'
    }
}

/// Appends the decimal notation of `n`.
pub fn push_decimal(s: &mut String, n: u64)
    ensures
        final(s)@ == old(s)@ + decimal(n as nat),
    decreases n,
{
    if n >= 10 {
        push_decimal(s, n / 10);
    }
    push_char(s, digit(n % 10));
    proof {
        if n >= 10 {
            assert(decimal(n as nat) == decimal((n / 10) as nat).push(digit_char((n % 10) as nat)));
        } else {
            assert(decimal(n as nat) == seq![digit_char(n as nat)]);
        }
    }
}

/// Appends `n` padded to at least two digits.
pub fn push_pad2(s: &mut String, n: u64)
    ensures
        final(s)@ == old(s)@ + pad2(n as nat),
{
    if n < 10 {
        push_char(s, '0');
    }
    push_decimal(s, n);
}

/// A clock reading "MM:SS", each part padded to two digits (minutes may
/// take more).
pub open spec fn clock_text(total_seconds: nat) -> Seq<char> {
    pad2(total_seconds / 60) + seq![':'] + pad2(total_seconds % 60)
}

/// Formats whole seconds as a clock reading such as "04:05".
pub fn format_clock(total_seconds: u32) -> (r: String)
    ensures
        r@ == clock_text(total_seconds as nat),
{
    let mut s = String::new();
    push_pad2(&mut s, (total_seconds / 60) as u64);
    push_char(&mut s, ':');
    push_pad2(&mut s, (total_seconds % 60) as u64);
    assert(s@ =~= clock_text(total_seconds as nat));
    s
}

/// Letter of a file index (0 to 7 gives 'a' to 'h').
pub open spec fn file_char(f: int) -> char {
    if f == 0 {
        'a'
    } else if f == 1 {
        'b'
    } else if f == 2 {
        'c'
    } else if f == 3 {
        'd'
    } else if f == 4 {
        'e'
    } else if f == 5 {
        'f'
    } else if f == 6 {
        'g'
    } else {
        'h'
    }
}

/// Digit of a rank index (0 to 7 gives '1' to '8').
pub open spec fn rank_char(r: int) -> char {
    if r == 0 {
        '1'
    } else if r == 1 {
        '2'
    } else if r == 2 {
        '3'
    } else if r == 3 {
        '4'
    } else if r == 4 {
        '5'
    } else if r == 5 {
        '6'
    } else if r == 6 {
        '7'
    } else {
        '8'
    }
}

/// The name of a square, such as "e4" (file letter, then rank digit), as
/// shakmaty's `Display` for `Square` writes it.
pub open spec fn square_name(sq: Square) -> Seq<char> {
    seq![file_char(sq.file()), rank_char(sq.rank())]
}

/// Appends the name of a square.
pub fn push_square(s: &mut String, sq: Square)
    ensures
        final(s)@ == old(s)@ + square_name(sq),
{
    let f = sq.index % 8;
    let r = sq.index / 8;
    let fc = if f == 0 {
        'a'
    } else if f == 1 {
        'b'
    } else if f == 2 {
        'c'
    } else if f == 3 {
        'd'
    } else if f == 4 {
        'e'
    } else if f == 5 {
        'f'
    } else if f == 6 {
        'g'
    } else {
        'h'
    };
    let rc = if r == 0 {
        '1'
    } else if r == 1 {
        '2'
    } else if r == 2 {
        '3'
    } else if r == 3 {
        '4'
    } else if r == 4 {
        '5'
    } else if r == 5 {
        '6'
    } else if r == 6 {
        '7'
    } else {
        '8'
    };
    push_char(s, fc);
    push_char(s, rc);
    assert(final(s)@ =~= old(s)@ + square_name(sq));
}

/// The text of a square's name.
pub fn square_text(square: Square) -> (r: String)
    ensures
        r@ == square_name(square),
{
    let mut s = String::new();
    push_square(&mut s, square);
    assert(s@ =~= square_name(square));
    s
}

/// The English name of a color.
pub open spec fn color_name_of(color: Color) -> Seq<char> {
    match color {
        Color::White => "White"@,
        Color::Black => "Black"@,
    }
}

/// Returns "White" or "Black".
pub fn color_name(color: Color) -> (r: &'static str)
    ensures
        r@ == color_name_of(color),
{
    match color {
        Color::White => "White",
        Color::Black => "Black",
    }
}

/// Whether a character forces a CSV field to be quoted.
pub open spec fn is_csv_special(c: char) -> bool {
    c == ',' || c == '"' || c == '\n' || c == '\r'
}

/// Whether a field holds a comma, a quote or a line break.
pub open spec fn needs_csv_quotes(s: Seq<char>) -> bool {
    exists|i: int| 0 <= i < s.len() && is_csv_special(#[trigger] s[i])
}

/// The field with every quote doubled.
pub open spec fn double_quotes(s: Seq<char>) -> Seq<char>
    decreases s.len(),
{
    if s.len() == 0 {
        Seq::empty()
    } else {
        double_quotes(s.drop_last()) + if s.last() == '"' {
            seq!['"', '"']
        } else {
            seq![s.last()]
        }
    }
}

/// A CSV field: wrapped in quotes, with inner quotes doubled, when it holds a
/// comma, a quote or a line break; unchanged otherwise.
pub open spec fn csv_field(s: Seq<char>) -> Seq<char> {
    if needs_csv_quotes(s) {
        seq!['"'] + double_quotes(s) + seq!['"']
    } else {
        s
    }
}

/// Undoes quote doubling, reading from the front: each pair of quotes
/// becomes one quote.
pub open spec fn undouble_quotes(s: Seq<char>) -> Seq<char>
    decreases s.len(),
{
    if s.len() == 0 {
        Seq::empty()
    } else if s.len() >= 2 && s[0] == '"' && s[1] == '"' {
        seq!['"'] + undouble_quotes(s.skip(2))
    } else {
        seq![s[0]] + undouble_quotes(s.skip(1))
    }
}

/// Reads one CSV field back: a field wrapped in quotes loses them and has
/// its doubled quotes undone; any other field is read as it stands.
pub open spec fn csv_read_field(f: Seq<char>) -> Seq<char> {
    if f.len() >= 2 && f[0] == '"' && f[f.len() - 1] == '"' {
        undouble_quotes(f.subrange(1, f.len() - 1))
    } else {
        f
    }
}

proof fn lemma_double_quotes_concat(a: Seq<char>, b: Seq<char>)
    ensures
        double_quotes(a + b) == double_quotes(a) + double_quotes(b),
    decreases b.len(),
{
    if b.len() == 0 {
        assert(a + b =~= a);
        assert(double_quotes(a) + double_quotes(b) =~= double_quotes(a));
    } else {
        lemma_double_quotes_concat(a, b.drop_last());
        assert((a + b).drop_last() =~= a + b.drop_last());
        assert((a + b).last() == b.last());
        let t = if b.last() == '"' {
            seq!['"', '"']
        } else {
            seq![b.last()]
        };
        assert(double_quotes(a) + double_quotes(b.drop_last()) + t =~= double_quotes(a) + (
        double_quotes(b.drop_last()) + t));
    }
}

proof fn lemma_undouble_double(s: Seq<char>)
    ensures
        undouble_quotes(double_quotes(s)) == s,
    decreases s.len(),
{
    if s.len() > 0 {
        let c = s[0];
        let rest = s.skip(1);
        lemma_undouble_double(rest);
        assert(s =~= seq![c] + rest);
        lemma_double_quotes_concat(seq![c], rest);
        assert(seq![c].drop_last() =~= Seq::<char>::empty());
        assert(double_quotes(Seq::<char>::empty()) == Seq::<char>::empty());
        let t = if c == '"' {
            seq!['"', '"']
        } else {
            seq![c]
        };
        assert(double_quotes(seq![c]) == double_quotes(seq![c].drop_last()) + t);
        assert(Seq::<char>::empty() + t =~= t);
        let d = double_quotes(rest);
        let x = double_quotes(s);
        if c == '"' {
            assert(double_quotes(seq![c]) == seq!['"', '"']);
            assert(x =~= seq!['"', '"'] + d);
            assert(x.skip(2) =~= d);
            assert(seq!['"'] + rest =~= s);
        } else {
            assert(double_quotes(seq![c]) == seq![c]);
            assert(x =~= seq![c] + d);
            assert(x.skip(1) =~= d);
        }
    } else {
        assert(double_quotes(s) == Seq::<char>::empty());
        assert(s =~= Seq::<char>::empty());
    }
}

/// Reading back an escaped field gives the original text, whatever it holds.
pub proof fn lemma_csv_field_round_trip(s: Seq<char>)
    ensures
        csv_read_field(csv_field(s)) == s,
{
    if needs_csv_quotes(s) {
        let d = double_quotes(s);
        let f = seq!['"'] + d + seq!['"'];
        assert(f.subrange(1, f.len() - 1) =~= d);
        lemma_undouble_double(s);
    } else if s.len() >= 2 {
        assert(!is_csv_special(s[0]));
    }
}

/// Escapes one CSV field.
pub fn csv_escape(value: &str) -> (r: String)
    ensures
        r@ == csv_field(value@),
{
    let n = value.unicode_len();
    let mut special = false;
    let mut i: usize = 0;
    while i < n
        invariant
            n == value@.len(),
            i <= n,
            special <==> exists|j: int| 0 <= j < i && is_csv_special(#[trigger] value@[j]),
        decreases n - i,
    {
        let c = value.get_char(i);
        if c == ',' || c == '"' || c == '\n' || c == '\r' {
            special = true;
        }
        i = i + 1;
    }
    if !special {
        return value.to_owned();
    }
    let mut out = String::new();
    push_char(&mut out, '"');
    let mut k: usize = 0;
    while k < n
        invariant
            n == value@.len(),
            k <= n,
            out@ == seq!['"'] + double_quotes(value@.take(k as int)),
        decreases n - k,
    {
        let c = value.get_char(k);
        proof {
            assert(value@.take(k + 1).drop_last() =~= value@.take(k as int));
        }
        if c == '"' {
            push_char(&mut out, '"');
            push_char(&mut out, '"');
        } else {
            push_char(&mut out, c);
        }
        k = k + 1;
    }
    push_char(&mut out, '"');
    proof {
        assert(value@.take(n as int) =~= value@);
    }
    out
}

} // verus!
