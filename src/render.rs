use vstd::prelude::*;
use vstd::string::*;
use crate::exponent::MantissaRange;

verus! {

/// The suffix tiers of plain rendering.
#[derive(Clone, Copy, Debug, PartialEq, Eq, Structural)]
pub enum Tier {
    /// Below a thousand: no suffix.
    Units,
    /// Thousands: `K`.
    Thousands,
    /// Millions: `M`.
    Millions,
    /// Billions: `B`.
    Billions,
}

impl Tier {
    /// The power of ten that the value is divided by within this tier.
    pub open spec fn shift_spec(self) -> u32 {
        match self {
            Tier::Units => 0,
            Tier::Thousands => 3,
            Tier::Millions => 6,
            Tier::Billions => 9,
        }
    }

    /// The power of ten that the value is divided by within this tier.
    pub fn shift(&self) -> (r: u32)
        ensures
            r == self.shift_spec(),
    {
        match self {
            Tier::Units => 0,
            Tier::Thousands => 3,
            Tier::Millions => 6,
            Tier::Billions => 9,
        }
    }
}

/// The text appended to a value rendered in `tier`.
pub open spec fn suffix_of(tier: Tier) -> Seq<char> {
    match tier {
        Tier::Units => seq![],
        Tier::Thousands => seq!['K'],
        Tier::Millions => seq!['M'],
        Tier::Billions => seq!['B'],
    }
}

/// The shape in which a value is rendered.
#[derive(Clone, Copy, Debug, PartialEq, Eq, Structural)]
pub enum Layout {
    /// The literal `0`.
    Zero,
    /// The value divided by `10^tier.shift()`, followed by the tier's suffix.
    /// The digits to render are those of the magnitude.
    Suffixed { negative: bool, tier: Tier },
    /// The mantissa, `e`, and the exponent. The digits to render are those
    /// of the mantissa's magnitude.
    Scientific { negative: bool, exponent: i32 },
}

/// Exponents from this one up are rendered in scientific form.
pub const SCIENTIFIC_FROM: i32 = 12;

/// The layout of a value whose mantissa is in `range`, negative or not, at
/// `exponent`. For a normalized mantissa the exponent is the decade of the
/// value, so it alone picks the tier.
pub open spec fn layout_spec(range: MantissaRange, negative: bool, exponent: i32) -> Layout {
    if range == MantissaRange::Zero {
        Layout::Zero
    } else if range == MantissaRange::Above || exponent >= SCIENTIFIC_FROM {
        Layout::Scientific { negative, exponent }
    } else if exponent < 3 {
        Layout::Suffixed { negative, tier: Tier::Units }
    } else if exponent < 6 {
        Layout::Suffixed { negative, tier: Tier::Thousands }
    } else if exponent < 9 {
        Layout::Suffixed { negative, tier: Tier::Millions }
    } else {
        Layout::Suffixed { negative, tier: Tier::Billions }
    }
}

/// Chooses how a value is rendered: `0` for a zero mantissa; scientific form
/// when the mantissa is out of range above or the value reaches `10^12`;
/// otherwise the suffix tier of its decade.
pub fn layout_of(range: MantissaRange, negative: bool, exponent: i32) -> (r: Layout)
    ensures
        r == layout_spec(range, negative, exponent),
{
    if range == MantissaRange::Zero {
        Layout::Zero
    } else if range == MantissaRange::Above || exponent >= SCIENTIFIC_FROM {
        Layout::Scientific { negative, exponent }
    } else if exponent < 3 {
        Layout::Suffixed { negative, tier: Tier::Units }
    } else if exponent < 6 {
        Layout::Suffixed { negative, tier: Tier::Thousands }
    } else if exponent < 9 {
        Layout::Suffixed { negative, tier: Tier::Millions }
    } else {
        Layout::Suffixed { negative, tier: Tier::Billions }
    }
}

/// `s` without its trailing run of `c`.
pub open spec fn strip_trailing(s: Seq<char>, c: char) -> Seq<char>
    decreases s.len(),
{
    if s.len() > 0 && s.last() == c {
        strip_trailing(s.drop_last(), c)
    } else {
        s
    }
}

/// A fixed-point rendering with its trailing fractional zeros removed, and
/// then a trailing decimal point. Text without a point is left as it is.
pub open spec fn trimmed(s: Seq<char>) -> Seq<char> {
    if s.contains('.') {
        strip_trailing(strip_trailing(s, '0'), '.')
    } else {
        s
    }
}

/// The character of the decimal digit `d`.
pub open spec fn digit_char(d: int) -> char {
    if d == 0 {
        '0'
    } else if d == 1 {
        '1'
    } else if d == 2 {
        '2'
    } else if d == 3 {
        '3'
    } else if d == 4 {
        '4'
    } else if d == 5 {
        '5'
    } else if d == 6 {
        '6'
    } else if d == 7 {
        '7'
    } else if d == 8 {
        '8'
    } else {
        '9'
    }
}

/// The decimal digits of `n`, without leading zeros.
pub open spec fn nat_text(n: nat) -> Seq<char>
    decreases n,
{
    if n < 10 {
        seq![digit_char(n as int)]
    } else {
        nat_text(n / 10) + seq![digit_char((n % 10) as int)]
    }
}

/// The decimal text of `n`, with a leading `-` when it is negative.
pub open spec fn int_text(n: int) -> Seq<char> {
    if n < 0 {
        seq!['-'] + nat_text((-n) as nat)
    } else {
        nat_text(n as nat)
    }
}

/// The text of a value laid out as `layout`, where `digits` is the
/// fixed-point rendering of the magnitude that the layout names.
pub open spec fn rendered(layout: Layout, digits: Seq<char>) -> Seq<char> {
    match layout {
        Layout::Zero => seq!['0'],
        Layout::Suffixed { negative, tier } => (if negative {
            seq!['-']
        } else {
            seq![]
        }) + trimmed(digits) + suffix_of(tier),
        Layout::Scientific { negative, exponent } => (if negative {
            seq!['-']
        } else {
            seq![]
        }) + trimmed(digits) + seq!['e'] + int_text(exponent as int),
    }
}

fn digit_str(d: u32) -> (r: &'static str)
    requires
        d < 10,
    ensures
        r@ == seq![digit_char(d as int)],
{
    if d == 0 {
        proof {
            reveal_strlit("0");
        }
        "0"
    } else if d == 1 {
        proof {
            reveal_strlit("1");
        }
        "1"
    } else if d == 2 {
        proof {
            reveal_strlit("2");
        }
        "2"
    } else if d == 3 {
        proof {
            reveal_strlit("3");
        }
        "3"
    } else if d == 4 {
        proof {
            reveal_strlit("4");
        }
        "4"
    } else if d == 5 {
        proof {
            reveal_strlit("5");
        }
        "5"
    } else if d == 6 {
        proof {
            reveal_strlit("6");
        }
        "6"
    } else if d == 7 {
        proof {
            reveal_strlit("7");
        }
        "7"
    } else if d == 8 {
        proof {
            reveal_strlit("8");
        }
        "8"
    } else {
        proof {
            reveal_strlit("9");
        }
        "9"
    }
}

fn append_nat(out: &mut String, n: u32)
    ensures
        final(out)@ == old(out)@ + nat_text(n as nat),
    decreases n,
{
    if n >= 10 {
        append_nat(out, n / 10);
    }
    out.append(digit_str(n % 10));
    proof {
        if n >= 10 {
            assert(final(out)@ =~= old(out)@ + nat_text(n as nat));
        }
    }
}

/// The decimal text of an exponent.
pub fn exponent_text(e: i32) -> (r: String)
    ensures
        r@ == int_text(e as int),
{
    let mut out = String::new();
    if e < 0 {
        proof {
            reveal_strlit("-");
        }
        out.append("-");
        let magnitude: u32 = (-(e as i64)) as u32;
        append_nat(&mut out, magnitude);
    } else {
        append_nat(&mut out, e as u32);
    }
    assert(out@ =~= int_text(e as int));
    out
}

/// The end of `s[..end]` once its trailing run of `c` is removed.
fn trailing_end(s: &str, end: usize, c: char) -> (r: usize)
    requires
        end <= s@.len(),
    ensures
        r <= end,
        s@.subrange(0, r as int) == strip_trailing(s@.subrange(0, end as int), c),
{
    let mut k: usize = end;
    loop
        invariant
            k <= end <= s@.len(),
            strip_trailing(s@.subrange(0, k as int), c) == strip_trailing(
                s@.subrange(0, end as int),
                c,
            ),
        decreases k,
    {
        if k == 0 || s.get_char(k - 1) != c {
            return k;
        }
        assert(s@.subrange(0, k as int).drop_last() =~= s@.subrange(0, k - 1));
        k = k - 1;
    }
}

/// Removes the trailing fractional zeros of a fixed-point rendering, and
/// then a trailing decimal point: `1.230` gives `1.23`, `5.000` gives `5`.
/// Text without a decimal point is returned unchanged.
pub fn trim_fixed(s: &str) -> (r: String)
    ensures
        r@ == trimmed(s@),
{
    let n = s.unicode_len();
    let mut i: usize = 0;
    let mut has_point = false;
    while i < n
        invariant
            n == s@.len(),
            i <= n,
            has_point <==> exists|j: int| 0 <= j < i && s@[j] == '.',
        decreases n - i,
    {
        if s.get_char(i) == '.' {
            has_point = true;
        }
        i = i + 1;
    }
    if !has_point {
        return String::from_str(s);
    }
    assert(s@.subrange(0, n as int) =~= s@);
    let zeros_end = trailing_end(s, n, '0');
    let end = trailing_end(s, zeros_end, '.');
    String::from_str(s.substring_char(0, end))
}

fn suffix_str(tier: Tier) -> (r: &'static str)
    ensures
        r@ == suffix_of(tier),
{
    match tier {
        Tier::Units => {
            proof {
                reveal_strlit("");
            }
            ""
        },
        Tier::Thousands => {
            proof {
                reveal_strlit("K");
            }
            "K"
        },
        Tier::Millions => {
            proof {
                reveal_strlit("M");
            }
            "M"
        },
        Tier::Billions => {
            proof {
                reveal_strlit("B");
            }
            "B"
        },
    }
}

/// Renders a value laid out as `layout`. `digits` is the fixed-point
/// rendering, at the wanted precision, of the magnitude that the layout
/// names; its trailing zeros are trimmed, the sign is put in front, and the
/// suffix or the exponent is appended.
pub fn render(layout: Layout, digits: &str) -> (r: String)
    ensures
        r@ == rendered(layout, digits@),
{
    proof {
        reveal_strlit("0");
        reveal_strlit("-");
        reveal_strlit("e");
        reveal_strlit("");
    }
    match layout {
        Layout::Zero => String::from_str("0"),
        Layout::Suffixed { negative, tier } => {
            let mut out = String::from_str(if negative { "-" } else { "" });
            out.append(trim_fixed(digits).as_str());
            out.append(suffix_str(tier));
            assert(out@ =~= rendered(layout, digits@));
            out
        },
        Layout::Scientific { negative, exponent } => {
            let mut out = String::from_str(if negative { "-" } else { "" });
            out.append(trim_fixed(digits).as_str());
            out.append("e");
            out.append(exponent_text(exponent).as_str());
            assert(out@ =~= rendered(layout, digits@));
            out
        },
    }
}

} // verus!
