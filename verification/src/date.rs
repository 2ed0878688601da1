use vstd::prelude::*;

verus! {

/// A calendar date: a year, a month from 1 to 12 and a day from 1 to 31.
#[derive(Clone, Copy, Debug)]
pub struct LocalDate {
    year: i32,
    month: u32,
    day: u32,
}

impl LocalDate {
    #[verifier::type_invariant]
    spec fn inv(self) -> bool {
        1 <= self.month <= 12 && 1 <= self.day <= 31
    }

    /// The year.
    pub closed spec fn year(self) -> int {
        self.year as int
    }

    /// The month, from 1 to 12.
    pub closed spec fn month(self) -> int {
        self.month as int
    }

    /// The day of the month, from 1 to 31.
    pub closed spec fn day(self) -> int {
        self.day as int
    }

    /// The date with these parts, when the month is from 1 to 12 and the day
    /// from 1 to 31.
    pub fn new(year: i32, month: u32, day: u32) -> (r: Option<Self>)
        ensures
            r is Some <==> (1 <= month <= 12 && 1 <= day <= 31),
            r matches Some(d) ==> d.year() == year && d.month() == month && d.day() == day,
    {
        if 1 <= month && month <= 12 && 1 <= day && day <= 31 {
            Some(LocalDate { year, month, day })
        } else {
            None
        }
    }
}

/// The decimal digit of `d`, from 0 to 9.
pub open spec fn digit_char(d: int) -> char {
    if d == 0 {
        '0'
    } else if d == 1 {
        '1'
    } else if d == 2 {
        '2'
    } else if d == 3 {
        '3'
    } else if d == 4 {
        '4'
    } else if d == 5 {
        '5'
    } else if d == 6 {
        '6'
    } else if d == 7 {
        '7'
    } else if d == 8 {
        '8'
    } else {
        '9'
    }
}

/// The decimal digits of `n`, without leading zeros.
pub open spec fn decimal(n: nat) -> Seq<char>
    decreases n,
{
    if n < 10 {
        seq![digit_char(n as int)]
    } else {
        decimal(n / 10).push(digit_char((n % 10) as int))
    }
}

/// `s` preceded by as many `0` as make it at least `width` long.
pub open spec fn zero_padded(s: Seq<char>, width: nat) -> Seq<char> {
    if s.len() >= width {
        s
    } else {
        Seq::new((width - s.len()) as nat, |i: int| '0') + s
    }
}

/// The year as `%Y` writes it: four digits, zero-padded, for years 0 to
/// 9999; otherwise a sign and at least four digits.
pub open spec fn year_text(y: int) -> Seq<char> {
    if 0 <= y <= 9999 {
        zero_padded(decimal(y as nat), 4)
    } else if y < 0 {
        seq!['-'] + zero_padded(decimal((-y) as nat), 4)
    } else {
        seq!['+'] + zero_padded(decimal(y as nat), 4)
    }
}

/// The date as `%Y-%m-%d` writes it: year, month and day, the month and day
/// zero-padded to two digits.
pub open spec fn iso_date(d: LocalDate) -> Seq<char> {
    year_text(d.year()) + seq!['-'] + zero_padded(decimal(d.month() as nat), 2) + seq!['-']
        + zero_padded(decimal(d.day() as nat), 2)
}

/// `String::push`: appends `c`.
#[verifier::external_body]
fn string_push(s: &mut String, c: char)
    ensures
        final(s)@ == old(s)@.push(c),
{
    s.push(c)
}

fn digit(d: u32) -> (c: char)
    requires
        d < 10,
    ensures
        c == digit_char(d as int),
{
    if d == 0 {
        '0'
    } else if d == 1 {
        '1'
    } else if d == 2 {
        '2'
    } else if d == 3 {
        '3'
    } else if d == 4 {
        '4'
    } else if d == 5 {
        '5'
    } else if d == 6 {
        '6'
    } else if d == 7 {
        '7'
    } else if d == 8 {
        '8'
    } else {
        '9'
    }
}

/// Ten to the power `k`.
pub open spec fn pow10(k: nat) -> nat
    decreases k,
{
    if k == 0 {
        1
    } else {
        10 * pow10((k - 1) as nat)
    }
}

/// A number below `10^k` has at most `k` digits.
proof fn lemma_decimal_len_bound(n: nat, k: nat)
    requires
        k >= 1,
        n < pow10(k),
    ensures
        decimal(n).len() <= k,
    decreases n,
{
    if n >= 10 {
        assert(k >= 2) by {
            if k == 1 {
                assert(pow10(1) == 10) by {
                    reveal_with_fuel(pow10, 2);
                }
            }
        }
        assert(n / 10 < pow10((k - 1) as nat));
        lemma_decimal_len_bound(n / 10, (k - 1) as nat);
    }
}

/// The year's text begins the date's text.
pub proof fn lemma_year_begins_date(d: LocalDate)
    ensures
        iso_date(d).take(year_text(d.year()).len() as int) == year_text(d.year()),
{
    assert(iso_date(d).take(year_text(d.year()).len() as int) =~= year_text(d.year()));
}

/// Every number has at least one digit.
proof fn lemma_decimal_nonempty(n: nat)
    ensures
        decimal(n).len() >= 1,
{
}

/// For a year from 0 to 9999 and a valid month and day, the date reads
/// `YYYY-MM-DD`: ten characters, `-` at the fifth and the eighth, and the
/// year is four characters long.
pub proof fn lemma_iso_date_shape(d: LocalDate)
    requires
        0 <= d.year() <= 9999,
        1 <= d.month() <= 12,
        1 <= d.day() <= 31,
    ensures
        year_text(d.year()).len() == 4,
        iso_date(d).len() == 10,
        iso_date(d)[4] == '-',
        iso_date(d)[7] == '-',
{
    reveal_with_fuel(pow10, 5);
    lemma_decimal_len_bound(d.year() as nat, 4);
    lemma_decimal_len_bound(d.month() as nat, 2);
    lemma_decimal_len_bound(d.day() as nat, 2);
    lemma_decimal_nonempty(d.year() as nat);
    lemma_decimal_nonempty(d.month() as nat);
    lemma_decimal_nonempty(d.day() as nat);
    assert(zero_padded(decimal(d.year() as nat), 4).len() == 4);
    assert(zero_padded(decimal(d.month() as nat), 2).len() == 2);
    assert(zero_padded(decimal(d.day() as nat), 2).len() == 2);
}

/// The number of decimal digits of `n`.
fn decimal_len(n: u32) -> (r: usize)
    ensures
        r == decimal(n as nat).len(),
        r <= 10,
    decreases n,
{
    if n < 10 {
        1
    } else {
        let k = decimal_len(n / 10);
        proof {
            reveal_with_fuel(pow10, 11);
            lemma_decimal_len_bound((n / 10) as nat, 9);
        }
        1 + k
    }
}

/// Append the decimal digits of `n`.
fn push_decimal(s: &mut String, n: u32)
    ensures
        final(s)@ == old(s)@ + decimal(n as nat),
    decreases n,
{
    if n >= 10 {
        push_decimal(s, n / 10);
    }
    string_push(s, digit(n % 10));
    assert(final(s)@ =~= old(s)@ + decimal(n as nat)) by {
        if n >= 10 {
            assert(decimal(n as nat) == decimal((n / 10) as nat).push(digit_char((n % 10) as int)));
        }
    }
}

/// Append `n`, zero-padded to at least `width` digits.
fn push_padded(s: &mut String, n: u32, width: usize)
    ensures
        final(s)@ == old(s)@ + zero_padded(decimal(n as nat), width as nat),
{
    let len = decimal_len(n);
    let ghost start = s@;
    if len < width {
        let mut k: usize = 0;
        while k < width - len
            invariant
                len < width,
                k <= width - len,
                s@ == start + Seq::new(k as nat, |i: int| '0'),
            decreases width - len - k,
        {
            string_push(s, '0');
            assert(start + Seq::new((k + 1) as nat, |i: int| '0') =~= (start + Seq::new(
                k as nat,
                |i: int| '0',
            )).push('0'));
            k = k + 1;
        }
    }
    let ghost mid = s@;
    push_decimal(s, n);
    assert(s@ =~= start + zero_padded(decimal(n as nat), width as nat));
}

/// Append the year as `%Y` writes it.
fn push_year(s: &mut String, y: i32)
    ensures
        final(s)@ == old(s)@ + year_text(y as int),
{
    let ghost start = s@;
    if 0 <= y && y <= 9999 {
        push_padded(s, y as u32, 4);
    } else if y < 0 {
        string_push(s, '-');
        let a: u32 = (0i64 - (y as i64)) as u32;
        push_padded(s, a, 4);
        assert(s@ =~= start + year_text(y as int));
    } else {
        string_push(s, '+');
        push_padded(s, y as u32, 4);
        assert(s@ =~= start + year_text(y as int));
    }
}

/// The year of `d` as `%Y` writes it.
pub fn format_year(d: &LocalDate) -> (r: String)
    ensures
        r@ == year_text(d.year()),
{
    let mut s = String::new();
    push_year(&mut s, d.year);
    assert(s@ =~= year_text(d.year()));
    s
}

/// The date `d` as `%Y-%m-%d` writes it.
pub fn format_iso_date(d: &LocalDate) -> (r: String)
    ensures
        r@ == iso_date(*d),
{
    proof {
        use_type_invariant(d);
    }
    let mut s = String::new();
    push_year(&mut s, d.year);
    string_push(&mut s, '-');
    push_padded(&mut s, d.month, 2);
    string_push(&mut s, '-');
    push_padded(&mut s, d.day, 2);
    assert(s@ =~= iso_date(*d));
    s
}

} // verus!
