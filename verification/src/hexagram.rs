//! Hexagram encoding: the six-line pattern, its King Wen sequence number,
//! the trigram decomposition, and the changing-line transformation.

use vstd::prelude::*;

use crate::line::CoinSource;
use crate::line::Line;
use crate::line::spec_change_line;
use crate::line::spec_is_changing;
use crate::line::spec_is_yang;
use crate::line::spec_line_glyph;
use crate::text::push_decimal;
use crate::text::spec_decimal;

verus! {

/// The binary weight of one line: Yang counts 1, Yin counts 0.
pub open spec fn spec_line_bit(l: Line) -> int {
    if spec_is_yang(l) {
        1
    } else {
        0
    }
}

/// The 6-bit binary pattern of a hexagram's lines, bottom line as bit 0.
/// Volatility does not enter: only polarity counts.
pub open spec fn spec_hexagram_pattern(s: Seq<Line>) -> int {
    spec_line_bit(s[0]) + 2 * spec_line_bit(s[1]) + 4 * spec_line_bit(s[2]) + 8 * spec_line_bit(
        s[3],
    ) + 16 * spec_line_bit(s[4]) + 32 * spec_line_bit(s[5])
}

/// The 3-bit binary pattern of a trigram's lines, bottom line as bit 0.
pub open spec fn spec_trigram_pattern(s: Seq<Line>) -> int {
    spec_line_bit(s[0]) + 2 * spec_line_bit(s[1]) + 4 * spec_line_bit(s[2])
}

/// The fixed King Wen sequence: the entry at `idx` is the traditional
/// number (1 to 64) of the hexagram whose 6-bit binary pattern is `idx`.
/// The mapping is historical ground data with no derivable formula.
pub open spec fn king_wen_of(idx: int) -> u8 {
    if idx == 0 {
        2
    } else if idx == 1 {
        24
    } else if idx == 2 {
        7
    } else if idx == 3 {
        19
    } else if idx == 4 {
        15
    } else if idx == 5 {
        36
    } else if idx == 6 {
        46
    } else if idx == 7 {
        11
    } else if idx == 8 {
        16
    } else if idx == 9 {
        51
    } else if idx == 10 {
        40
    } else if idx == 11 {
        54
    } else if idx == 12 {
        62
    } else if idx == 13 {
        55
    } else if idx == 14 {
        32
    } else if idx == 15 {
        34
    } else if idx == 16 {
        8
    } else if idx == 17 {
        3
    } else if idx == 18 {
        29
    } else if idx == 19 {
        60
    } else if idx == 20 {
        39
    } else if idx == 21 {
        63
    } else if idx == 22 {
        48
    } else if idx == 23 {
        5
    } else if idx == 24 {
        45
    } else if idx == 25 {
        17
    } else if idx == 26 {
        47
    } else if idx == 27 {
        58
    } else if idx == 28 {
        31
    } else if idx == 29 {
        49
    } else if idx == 30 {
        28
    } else if idx == 31 {
        43
    } else if idx == 32 {
        23
    } else if idx == 33 {
        27
    } else if idx == 34 {
        4
    } else if idx == 35 {
        41
    } else if idx == 36 {
        52
    } else if idx == 37 {
        22
    } else if idx == 38 {
        18
    } else if idx == 39 {
        26
    } else if idx == 40 {
        35
    } else if idx == 41 {
        21
    } else if idx == 42 {
        64
    } else if idx == 43 {
        38
    } else if idx == 44 {
        56
    } else if idx == 45 {
        30
    } else if idx == 46 {
        50
    } else if idx == 47 {
        14
    } else if idx == 48 {
        20
    } else if idx == 49 {
        42
    } else if idx == 50 {
        59
    } else if idx == 51 {
        61
    } else if idx == 52 {
        53
    } else if idx == 53 {
        37
    } else if idx == 54 {
        57
    } else if idx == 55 {
        9
    } else if idx == 56 {
        12
    } else if idx == 57 {
        25
    } else if idx == 58 {
        6
    } else if idx == 59 {
        10
    } else if idx == 60 {
        33
    } else if idx == 61 {
        13
    } else if idx == 62 {
        44
    } else {
        1
    }
}

/// The inverse of the King Wen sequence: the 6-bit binary pattern of the
/// hexagram whose King Wen number is `n`.
pub open spec fn king_wen_pattern_of(n: int) -> int {
    if n == 1 {
        63
    } else if n == 2 {
        0
    } else if n == 3 {
        17
    } else if n == 4 {
        34
    } else if n == 5 {
        23
    } else if n == 6 {
        58
    } else if n == 7 {
        2
    } else if n == 8 {
        16
    } else if n == 9 {
        55
    } else if n == 10 {
        59
    } else if n == 11 {
        7
    } else if n == 12 {
        56
    } else if n == 13 {
        61
    } else if n == 14 {
        47
    } else if n == 15 {
        4
    } else if n == 16 {
        8
    } else if n == 17 {
        25
    } else if n == 18 {
        38
    } else if n == 19 {
        3
    } else if n == 20 {
        48
    } else if n == 21 {
        41
    } else if n == 22 {
        37
    } else if n == 23 {
        32
    } else if n == 24 {
        1
    } else if n == 25 {
        57
    } else if n == 26 {
        39
    } else if n == 27 {
        33
    } else if n == 28 {
        30
    } else if n == 29 {
        18
    } else if n == 30 {
        45
    } else if n == 31 {
        28
    } else if n == 32 {
        14
    } else if n == 33 {
        60
    } else if n == 34 {
        15
    } else if n == 35 {
        40
    } else if n == 36 {
        5
    } else if n == 37 {
        53
    } else if n == 38 {
        43
    } else if n == 39 {
        20
    } else if n == 40 {
        10
    } else if n == 41 {
        35
    } else if n == 42 {
        49
    } else if n == 43 {
        31
    } else if n == 44 {
        62
    } else if n == 45 {
        24
    } else if n == 46 {
        6
    } else if n == 47 {
        26
    } else if n == 48 {
        22
    } else if n == 49 {
        29
    } else if n == 50 {
        46
    } else if n == 51 {
        9
    } else if n == 52 {
        36
    } else if n == 53 {
        52
    } else if n == 54 {
        11
    } else if n == 55 {
        13
    } else if n == 56 {
        44
    } else if n == 57 {
        54
    } else if n == 58 {
        27
    } else if n == 59 {
        50
    } else if n == 60 {
        19
    } else if n == 61 {
        51
    } else if n == 62 {
        12
    } else if n == 63 {
        21
    } else {
        42
    }
}

/// The King Wen number of a six-line sequence: the table entry at its binary
/// pattern.
pub open spec fn spec_number(s: Seq<Line>) -> u8 {
    king_wen_of(spec_hexagram_pattern(s))
}

/// The name of the trigram with binary pattern `idx`.
pub open spec fn spec_trigram_name(idx: int) -> Seq<char> {
    if idx == 0 {
        "Earth"@
    } else if idx == 1 {
        "Thunder"@
    } else if idx == 2 {
        "Water"@
    } else if idx == 3 {
        "Lake"@
    } else if idx == 4 {
        "Mountain"@
    } else if idx == 5 {
        "Fire"@
    } else if idx == 6 {
        "Wind"@
    } else {
        "Heaven"@
    }
}

/// One row of the hexagram report: the 1-indexed position, a space, the
/// line's glyph, and a line break.
pub open spec fn spec_line_row(pos: int, l: Line) -> Seq<char> {
    spec_decimal(pos) + " "@ + spec_line_glyph(l) + "\n"@
}

/// The full hexagram report: a heading with the King Wen number, the six
/// line glyphs from top to bottom, and the two trigram names, upper over
/// lower.
pub open spec fn spec_hexagram_display(h: Hexagram) -> Seq<char> {
    "HEXAGRAM "@ + spec_decimal(h.king_wen_number as int) + " : \n"@ + spec_line_row(
        6,
        h.lines@[5],
    ) + spec_line_row(5, h.lines@[4]) + spec_line_row(4, h.lines@[3]) + spec_line_row(
        3,
        h.lines@[2],
    ) + spec_line_row(2, h.lines@[1]) + spec_line_row(1, h.lines@[0]) + spec_trigram_name(
        spec_trigram_pattern(h.lines@.subrange(3, 6)),
    ) + " over "@ + spec_trigram_name(spec_trigram_pattern(h.lines@.subrange(0, 3))) + "\n"@
}

/// The one changing-line position contributed by the line at 1-indexed
/// position `pos`: a singleton if the line is changing, else nothing.
pub open spec fn spec_position_if_changing(l: Line, pos: u8) -> Seq<u8> {
    if spec_is_changing(l) {
        seq![pos]
    } else {
        seq![]
    }
}

/// The 1-indexed positions (1 = bottom, 6 = top) of the changing lines of a
/// six-line sequence, in bottom-to-top order.
pub open spec fn spec_changing_positions(s: Seq<Line>) -> Seq<u8> {
    spec_position_if_changing(s[0], 1) + spec_position_if_changing(s[1], 2)
        + spec_position_if_changing(s[2], 3) + spec_position_if_changing(s[3], 4)
        + spec_position_if_changing(s[4], 5) + spec_position_if_changing(s[5], 6)
}

/// An ordered stack of six lines together with its King Wen sequence number.
#[derive(Debug)]
pub struct Hexagram {
    /// Lines are stored in the order generated, i.e. `lines[0]` is the
    /// bottom line of the hexagram.
    pub lines: [Line; 6],
    /// King Wen sequence number, looked up from the fixed table.
    pub king_wen_number: u8,
}

impl Hexagram {
    /// A hexagram is well formed when its stored number is the one the table
    /// gives for its lines.
    pub open spec fn wf(self) -> bool {
        self.king_wen_number == spec_number(self.lines@)
    }

    /// Generates a random hexagram, with changing and static lines.
    /// Use to generate the present hexagram.
    pub fn generate_present(src: &mut impl CoinSource) -> (h: Hexagram)
        ensures
            h.wf(),
    {
        let lines: [Line; 6] = [
            Line::generate(src),
            Line::generate(src),
            Line::generate(src),
            Line::generate(src),
            Line::generate(src),
            Line::generate(src),
        ];
        let number = Hexagram::calculate_number(&lines);
        Hexagram { lines, king_wen_number: number }
    }

    /// Given the six lines, return the hexagram number (1 to 64) from the
    /// King Wen sequence.
    pub fn calculate_number(lines: &[Line; 6]) -> (n: u8)
        ensures
            n == spec_number(lines@),
            1 <= n <= 64,
    {
        let mut pattern: u8 = 0;
        if lines[0].is_yang() {
            pattern += 1;
        }
        if lines[1].is_yang() {
            pattern += 2;
        }
        if lines[2].is_yang() {
            pattern += 4;
        }
        if lines[3].is_yang() {
            pattern += 8;
        }
        if lines[4].is_yang() {
            pattern += 16;
        }
        if lines[5].is_yang() {
            pattern += 32;
        }
        let n = Hexagram::king_wen_lookup(pattern);
        proof {
            lemma_king_wen_range();
        }
        n
    }

    /// Look up the King Wen number of a 6-bit binary pattern in the fixed
    /// table.
    pub fn king_wen_lookup(pattern: u8) -> (n: u8)
        requires
            pattern < 64,
        ensures
            n == king_wen_of(pattern as int),
    {
        match pattern {
            0 => 2,
            1 => 24,
            2 => 7,
            3 => 19,
            4 => 15,
            5 => 36,
            6 => 46,
            7 => 11,
            8 => 16,
            9 => 51,
            10 => 40,
            11 => 54,
            12 => 62,
            13 => 55,
            14 => 32,
            15 => 34,
            16 => 8,
            17 => 3,
            18 => 29,
            19 => 60,
            20 => 39,
            21 => 63,
            22 => 48,
            23 => 5,
            24 => 45,
            25 => 17,
            26 => 47,
            27 => 58,
            28 => 31,
            29 => 49,
            30 => 28,
            31 => 43,
            32 => 23,
            33 => 27,
            34 => 4,
            35 => 41,
            36 => 52,
            37 => 22,
            38 => 18,
            39 => 26,
            40 => 35,
            41 => 21,
            42 => 64,
            43 => 38,
            44 => 56,
            45 => 30,
            46 => 50,
            47 => 14,
            48 => 20,
            49 => 42,
            50 => 59,
            51 => 61,
            52 => 53,
            53 => 37,
            54 => 57,
            55 => 9,
            56 => 12,
            57 => 25,
            58 => 6,
            59 => 10,
            60 => 33,
            61 => 13,
            62 => 44,
            _ => 1,
        }
    }

    /// Compute the 3-bit binary pattern (0 to 7) of three lines, for direct
    /// indexing into the trigram name table.
    pub fn calculate_trigram(lines: &[Line]) -> (idx: usize)
        requires
            lines@.len() == 3,
        ensures
            idx == spec_trigram_pattern(lines@),
            idx < 8,
    {
        let mut idx: usize = 0;
        if lines[0].is_yang() {
            idx += 1;
        }
        if lines[1].is_yang() {
            idx += 2;
        }
        if lines[2].is_yang() {
            idx += 4;
        }
        idx
    }

    /// The name of the trigram with binary pattern `idx`, from the fixed
    /// eight-entry table.
    pub fn trigram_name(idx: usize) -> (name: &'static str)
        requires
            idx < 8,
        ensures
            name@ == spec_trigram_name(idx as int),
    {
        match idx {
            0 => "Earth",
            1 => "Thunder",
            2 => "Water",
            3 => "Lake",
            4 => "Mountain",
            5 => "Fire",
            6 => "Wind",
            _ => "Heaven",
        }
    }

    /// Returns a vector of the changing lines.
    /// Indexes are in the traditional I Ching order, i.e. the first line
    /// generated is the bottom line is 1, the top line is 6 which is the
    /// last line that was generated.
    pub fn get_changing_lines(&self) -> (r: Vec<u8>)
        ensures
            r@ == spec_changing_positions(self.lines@),
    {
        let ghost s = self.lines@;
        let mut r: Vec<u8> = Vec::new();
        if self.lines[0].is_changing() {
            r.push(1);
        }
        proof {
            assert(r@ =~= spec_position_if_changing(s[0], 1));
        }
        if self.lines[1].is_changing() {
            r.push(2);
        }
        proof {
            assert(r@ =~= spec_position_if_changing(s[0], 1) + spec_position_if_changing(s[1], 2));
        }
        if self.lines[2].is_changing() {
            r.push(3);
        }
        proof {
            assert(r@ =~= spec_position_if_changing(s[0], 1) + spec_position_if_changing(s[1], 2)
                + spec_position_if_changing(s[2], 3));
        }
        if self.lines[3].is_changing() {
            r.push(4);
        }
        proof {
            assert(r@ =~= spec_position_if_changing(s[0], 1) + spec_position_if_changing(s[1], 2)
                + spec_position_if_changing(s[2], 3) + spec_position_if_changing(s[3], 4));
        }
        if self.lines[4].is_changing() {
            r.push(5);
        }
        proof {
            assert(r@ =~= spec_position_if_changing(s[0], 1) + spec_position_if_changing(s[1], 2)
                + spec_position_if_changing(s[2], 3) + spec_position_if_changing(s[3], 4)
                + spec_position_if_changing(s[4], 5));
        }
        if self.lines[5].is_changing() {
            r.push(6);
        }
        proof {
            assert(r@ =~= spec_changing_positions(s));
        }
        r
    }

    /// Given a "present" hexagram, return the future hexagram (with all
    /// changing lines changed), or `None` when no line is changing. The
    /// future hexagram's number is computed afresh from its own lines; the
    /// present hexagram is left untouched.
    pub fn change(&self) -> (r: Option<Hexagram>)
        ensures
            r is None <==> spec_changing_positions(self.lines@).len() == 0,
            r matches Some(f) ==> {
                &&& forall|i: int| 0 <= i < 6 ==> f.lines@[i] == spec_change_line(self.lines@[i])
                &&& f.wf()
            },
    {
        if self.get_changing_lines().is_empty() {
            return None;
        }
        let future_lines: [Line; 6] = [
            self.lines[0].change_line(),
            self.lines[1].change_line(),
            self.lines[2].change_line(),
            self.lines[3].change_line(),
            self.lines[4].change_line(),
            self.lines[5].change_line(),
        ];
        let future_number = Hexagram::calculate_number(&future_lines);
        Some(Hexagram { lines: future_lines, king_wen_number: future_number })
    }

    /// Render the hexagram report: heading, the six glyphs top to bottom,
    /// and the trigram names, upper over lower.
    pub fn to_string(&self) -> (r: String)
        ensures
            r@ == spec_hexagram_display(*self),
    {
        let ghost h = *self;
        let mut result = String::from_str("HEXAGRAM ");
        push_decimal(&mut result, self.king_wen_number as u64);
        result.append(" : \n");
        let ghost heading = "HEXAGRAM "@ + spec_decimal(h.king_wen_number as int) + " : \n"@;
        proof {
            assert(result@ =~= heading);
        }
        let lower_trigram = Hexagram::calculate_trigram(&self.lines[0..3]);
        let upper_trigram = Hexagram::calculate_trigram(&self.lines[3..6]);
        push_line_row(&mut result, 6, &self.lines[5]);
        push_line_row(&mut result, 5, &self.lines[4]);
        push_line_row(&mut result, 4, &self.lines[3]);
        push_line_row(&mut result, 3, &self.lines[2]);
        push_line_row(&mut result, 2, &self.lines[1]);
        push_line_row(&mut result, 1, &self.lines[0]);
        let ghost body = heading + spec_line_row(6, h.lines@[5]) + spec_line_row(5, h.lines@[4])
            + spec_line_row(4, h.lines@[3]) + spec_line_row(3, h.lines@[2]) + spec_line_row(
            2,
            h.lines@[1],
        ) + spec_line_row(1, h.lines@[0]);
        proof {
            assert(result@ =~= body);
        }
        result.append(Hexagram::trigram_name(upper_trigram));
        result.append(" over ");
        result.append(Hexagram::trigram_name(lower_trigram));
        result.append("\n");
        proof {
            assert(result@ =~= spec_hexagram_display(h));
        }
        result
    }
}

/// Append one report row for the line at 1-indexed position `pos`.
fn push_line_row(s: &mut String, pos: u8, l: &Line)
    ensures
        final(s)@ == old(s)@ + spec_line_row(pos as int, *l),
{
    push_decimal(s, pos as u64);
    s.append(" ");
    s.append(l.to_string().as_str());
    s.append("\n");
    proof {
        assert(s@ =~= old(s)@ + spec_line_row(pos as int, *l));
    }
}


/// Every entry of the King Wen table is a number from 1 to 64.
pub proof fn lemma_king_wen_range()
    ensures
        forall|p: int| 0 <= p < 64 ==> 1 <= #[trigger] king_wen_of(p) <= 64,
{
}

/// The encoding of six-line patterns is a bijection onto the canonical
/// numbers 1 to 64: every pattern's entry is in range, no two patterns share
/// an entry, and every number from 1 to 64 is some pattern's entry, namely
/// the one `king_wen_pattern_of` gives.
pub proof fn lemma_king_wen_bijection()
    ensures
        forall|p: int| 0 <= p < 64 ==> 1 <= #[trigger] king_wen_of(p) <= 64,
        forall|p: int| 0 <= p < 64 ==> king_wen_pattern_of(king_wen_of(p) as int) == p,
        forall|n: int|
            1 <= n <= 64 ==> {
                &&& 0 <= #[trigger] king_wen_pattern_of(n) < 64
                &&& king_wen_of(king_wen_pattern_of(n)) == n
            },
{
    lemma_king_wen_range();
}

} // verus!
