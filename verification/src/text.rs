//! Text building blocks: decimal numbers, padding, joining and file paths.

use vstd::prelude::*;

verus! {

/// The decimal digit that stands for `d`, for `d` below ten.
pub open spec fn digit(d: nat) -> char {
    if d == 0 {
        '0'
    } else if d == 1 {
        '1'
    } else if d == 2 {
        '2'
    } else if d == 3 {
        '3'
    } else if d == 4 {
        '4'
    } else if d == 5 {
        '5'
    } else if d == 6 {
        '6'
    } else if d == 7 {
        '7'
    } else if d == 8 {
        '8'
    } else {
        '9'
    }
}

/// The decimal numeral of `n`, without leading zeros (`0` is "0").
pub open spec fn decimal(n: nat) -> Seq<char>
    decreases n,
{
    if n < 10 {
        seq![digit(n)]
    } else {
        decimal(n / 10).push(digit(n % 10))
    }
}

/// `count` zeros in a row.
pub open spec fn zeros(count: nat) -> Seq<char> {
    Seq::new(count, |i: int| '0')
}

/// The decimal numeral of `n`, with zeros in front until it is `width` long.
/// A numeral that is already longer stays as it is.
pub open spec fn zero_padded(n: nat, width: nat) -> Seq<char> {
    if decimal(n).len() >= width {
        decimal(n)
    } else {
        zeros((width - decimal(n).len()) as nat) + decimal(n)
    }
}

/// A signed number in a field of `width` characters, filled with zeros
/// behind the sign.
pub open spec fn signed_zero_padded(value: int, width: nat) -> Seq<char> {
    if value < 0 {
        seq!['-'] + zero_padded((-value) as nat, if width > 0 { (width - 1) as nat } else { 0 })
    } else {
        zero_padded(value as nat, width)
    }
}

/// Whether a character is one of the ten decimal digits.
pub open spec fn is_digit(c: char) -> bool {
    exists|d: nat| d < 10 && c == #[trigger] digit(d)
}

/// A numeral holds digits only, and as many of them as the number has
/// decimal places: one below ten, two below a hundred, and so on.
pub proof fn lemma_decimal_places(n: nat)
    ensures
        decimal(n).len() >= 1,
        forall|i: int| 0 <= i < decimal(n).len() ==> is_digit(#[trigger] decimal(n)[i]),
        n < 10 ==> decimal(n).len() == 1,
        10 <= n < 100 ==> decimal(n).len() == 2,
        100 <= n < 1000 ==> decimal(n).len() == 3,
        1000 <= n < 10000 ==> decimal(n).len() == 4,
    decreases n,
{
    if n >= 10 {
        lemma_decimal_places(n / 10);
        let front = decimal(n / 10);
        assert forall|i: int| 0 <= i < decimal(n).len() implies is_digit(
            #[trigger] decimal(n)[i],
        ) by {
            if i < front.len() {
                assert(decimal(n)[i] == front[i]);
            } else {
                assert(decimal(n)[i] == digit(n % 10));
            }
        }
    }
}

/// A padded numeral holds digits only and is at least as long as the width
/// asks; it is exactly that long when the number has no more places.
pub proof fn lemma_zero_padded_places(n: nat, width: nat)
    ensures
        zero_padded(n, width).len() >= width,
        zero_padded(n, width).len() >= decimal(n).len(),
        decimal(n).len() <= width ==> zero_padded(n, width).len() == width,
        forall|i: int|
            0 <= i < zero_padded(n, width).len() ==> is_digit(#[trigger] zero_padded(n, width)[i]),
{
    lemma_decimal_places(n);
    assert(is_digit(digit(0)));
    let padded = zero_padded(n, width);
    assert forall|i: int| 0 <= i < padded.len() implies is_digit(#[trigger] padded[i]) by {
        if decimal(n).len() < width {
            let fill = width - decimal(n).len();
            if i < fill {
                assert(padded[i] == digit(0));
            } else {
                assert(padded[i] == decimal(n)[i - fill]);
            }
        }
    }
}

/// The one-character text of a digit.
fn digit_text(d: usize) -> (r: &'static str)
    requires
        d < 10,
    ensures
        r@ == seq![digit(d as nat)],
{
    proof {
        reveal_strlit("0");
        reveal_strlit("1");
        reveal_strlit("2");
        reveal_strlit("3");
        reveal_strlit("4");
        reveal_strlit("5");
        reveal_strlit("6");
        reveal_strlit("7");
        reveal_strlit("8");
        reveal_strlit("9");
    }
    let r = if d == 0 {
        "0"
    } else if d == 1 {
        "1"
    } else if d == 2 {
        "2"
    } else if d == 3 {
        "3"
    } else if d == 4 {
        "4"
    } else if d == 5 {
        "5"
    } else if d == 6 {
        "6"
    } else if d == 7 {
        "7"
    } else if d == 8 {
        "8"
    } else {
        "9"
    };
    r
}

/// Writes `n` in decimal.
pub fn to_decimal(n: usize) -> (r: String)
    ensures
        r@ == decimal(n as nat),
    decreases n,
{
    if n < 10 {
        digit_text(n).to_owned()
    } else {
        let mut r = to_decimal(n / 10);
        r.append(digit_text(n % 10));
        r
    }
}

/// Writes `n` in decimal, with zeros in front until the text is `width` long.
pub fn to_zero_padded(n: usize, width: usize) -> (r: String)
    ensures
        r@ == zero_padded(n as nat, width as nat),
{
    let digits = to_decimal(n);
    let len = digits.as_str().unicode_len();
    let mut r = String::new();
    let mut filled: usize = len;
    while filled < width
        invariant
            len <= filled,
            len < width ==> filled <= width,
            len >= width ==> filled == len,
            r@ == zeros((filled - len) as nat),
        decreases width - filled,
    {
        proof {
            reveal_strlit("0");
        }
        r.append("0");
        filled = filled + 1;
    }
    r.append(digits.as_str());
    r
}

/// Writes a signed number in a field of `width` characters, filled with zeros
/// behind the sign.
pub fn to_signed_zero_padded(value: i32, width: usize) -> (r: String)
    ensures
        r@ == signed_zero_padded(value as int, width as nat),
{
    if value < 0 {
        let magnitude: i64 = -(value as i64);
        let digits = to_zero_padded(magnitude as usize, if width == 0 { 0 } else { width - 1 });
        let mut r = "-".to_owned();
        proof {
            reveal_strlit("-");
        }
        r.append(digits.as_str());
        r
    } else {
        to_zero_padded(value as usize, width)
    }
}

/// The items in a row, with the separator between each two neighbours.
pub open spec fn joined(items: Seq<Seq<char>>, separator: Seq<char>) -> Seq<char>
    decreases items.len(),
{
    if items.len() == 0 {
        Seq::empty()
    } else if items.len() == 1 {
        items[0]
    } else {
        joined(items.drop_last(), separator) + separator + items.last()
    }
}

/// Joins the items, with the separator between each two neighbours.
pub fn join(items: &Vec<String>, separator: &str) -> (r: String)
    ensures
        r@ == joined(items.deep_view(), separator@),
{
    let mut r = String::new();
    let mut done: usize = 0;
    while done < items.len()
        invariant
            done <= items.len(),
            r@ == joined(items.deep_view().take(done as int), separator@),
        decreases items.len() - done,
    {
        let ghost before = items.deep_view().take(done as int);
        let ghost after = items.deep_view().take(done + 1);
        assert(after.drop_last() =~= before);
        if done > 0 {
            r.append(separator);
        }
        r.append(items[done].as_str());
        done = done + 1;
    }
    assert(items.deep_view().take(done as int) =~= items.deep_view());
    r
}

/// The path of the entry `name` below the directory `base`, on a file system
/// that separates components with `/`. An empty base stands for the working
/// directory, and an absolute `name` stands for itself.
pub open spec fn child_path(base: Seq<char>, name: Seq<char>) -> Seq<char> {
    if name.len() > 0 && name[0] == '/' {
        name
    } else if base.len() == 0 || base.last() == '/' {
        base + name
    } else {
        base + seq!['/'] + name
    }
}

/// Builds the path of the entry `name` below the directory `base`.
pub fn join_path(base: &str, name: &str) -> (r: String)
    ensures
        r@ == child_path(base@, name@),
{
    let base_len = base.unicode_len();
    let name_len = name.unicode_len();
    if name_len > 0 && name.get_char(0) == '/' {
        return name.to_owned();
    }
    let mut r = base.to_owned();
    if base_len > 0 && base.get_char(base_len - 1) != '/' {
        proof {
            reveal_strlit("/");
        }
        r.append("/");
    }
    r.append(name);
    r
}

} // verus!
