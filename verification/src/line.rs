//! A single hexagram line: Yin or Yang polarity, static or changing
//! volatility, produced by the traditional three-coin draw.

use vstd::prelude::*;

verus! {

/// A broken line is "yin" and a solid line is "yang"; lines may be either
/// static (young) or changing (old).
#[derive(Debug, Clone, Copy)]
pub enum Line {
    ChangingYin,
    StaticYang,
    StaticYin,
    ChangingYang,
}

/// The polarity of a line, ignoring its volatility.
#[derive(Debug)]
pub enum Aspect {
    Yin,
    Yang,
}

/// A supply of independent fair coin flips, injected so that line generation
/// can be driven by a real random source or by a fixed one in tests.
pub trait CoinSource {
    /// Draw one coin flip; `true` is heads.
    fn flip(&mut self) -> bool;
}

/// Whether the line has Yang polarity (solid), regardless of volatility.
pub open spec fn spec_is_yang(l: Line) -> bool {
    l is StaticYang || l is ChangingYang
}

/// Whether the line is a changing (old) line.
pub open spec fn spec_is_changing(l: Line) -> bool {
    l is ChangingYang || l is ChangingYin
}

/// The transformation rule for deriving the future hexagram: a changing line
/// flips polarity and becomes static, a static line is left unchanged.
pub open spec fn spec_change_line(l: Line) -> Line {
    match l {
        Line::ChangingYang => Line::StaticYin,
        Line::ChangingYin => Line::StaticYang,
        Line::StaticYang => Line::StaticYang,
        Line::StaticYin => Line::StaticYin,
    }
}

/// The textual glyph of a line: solid for Yang, broken for Yin, with a
/// marker in the middle when the line is changing.
pub open spec fn spec_line_glyph(l: Line) -> Seq<char> {
    match l {
        Line::StaticYang => "---------"@,
        Line::StaticYin => "---   ---"@,
        Line::ChangingYang => "----o----"@,
        Line::ChangingYin => "--- x ---"@,
    }
}

/// The worth of one coin flip: heads count 3, tails count 2.
pub open spec fn spec_coin_worth(heads: bool) -> int {
    if heads {
        3
    } else {
        2
    }
}

/// The line obtained from a three-coin sum: 6 is an old Yin, 7 a young Yang,
/// 8 a young Yin, 9 an old Yang.
pub open spec fn spec_line_for_sum(sum: int) -> Line {
    if sum == 6 {
        Line::ChangingYin
    } else if sum == 7 {
        Line::StaticYang
    } else if sum == 8 {
        Line::StaticYin
    } else {
        Line::ChangingYang
    }
}

/// The line produced by three given coin flips.
pub open spec fn spec_line_for_draws(d1: bool, d2: bool, d3: bool) -> Line {
    spec_line_for_sum(spec_coin_worth(d1) + spec_coin_worth(d2) + spec_coin_worth(d3))
}

impl Line {
    /// Build the line determined by three coin flips: heads are worth 3 and
    /// tails 2, and the sum of the three worths (always 6 to 9) picks the
    /// line.
    pub fn from_draws(d1: bool, d2: bool, d3: bool) -> (l: Line)
        ensures
            l == spec_line_for_draws(d1, d2, d3),
    {
        let sum: u8 = (if d1 {
            3
        } else {
            2
        }) + (if d2 {
            3
        } else {
            2
        }) + (if d3 {
            3
        } else {
            2
        });
        match sum {
            6 => Line::ChangingYin,
            7 => Line::StaticYang,
            8 => Line::StaticYin,
            _ => Line::ChangingYang,
        }
    }

    /// Draw a fresh line from the supplied coin source: flip three coins and
    /// map their sum as `from_draws` does.
    pub fn generate(src: &mut impl CoinSource) -> Line {
        let d1 = src.flip();
        let d2 = src.flip();
        let d3 = src.flip();
        Line::from_draws(d1, d2, d3)
    }

    /// Whether the line has Yang polarity, regardless of volatility.
    pub fn is_yang(&self) -> (r: bool)
        ensures
            r == spec_is_yang(*self),
    {
        matches!(self, Line::StaticYang | Line::ChangingYang)
    }

    /// Whether the line is a changing (old) line.
    pub fn is_changing(&self) -> (r: bool)
        ensures
            r == spec_is_changing(*self),
    {
        matches!(self, Line::ChangingYang | Line::ChangingYin)
    }

    /// Apply the transformation rule: a changing line flips polarity and
    /// settles, a static line stays as it is.
    pub fn change_line(&self) -> (r: Line)
        ensures
            r == spec_change_line(*self),
    {
        match self {
            Line::ChangingYang => Line::StaticYin,
            Line::ChangingYin => Line::StaticYang,
            other => *other,
        }
    }

    /// The glyph of the line as a fresh string.
    pub fn to_string(&self) -> (r: String)
        ensures
            r@ == spec_line_glyph(*self),
    {
        match self {
            Line::StaticYang => String::from_str("---------"),
            Line::StaticYin => String::from_str("---   ---"),
            Line::ChangingYang => String::from_str("----o----"),
            Line::ChangingYin => String::from_str("--- x ---"),
        }
    }

    /// The polarity of the line, with volatility forgotten.
    pub fn get_aspect(&self) -> (a: Aspect)
        ensures
            a is Yang <==> spec_is_yang(*self),
    {
        match self {
            Line::ChangingYang => Aspect::Yang,
            Line::StaticYang => Aspect::Yang,
            Line::ChangingYin => Aspect::Yin,
            Line::StaticYin => Aspect::Yin,
        }
    }
}

} // verus!
