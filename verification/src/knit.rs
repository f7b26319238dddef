//! Knit border patterns and the knit playground's color entries.

use vstd::prelude::*;

verus! {

/// A knitted border pattern.
#[derive(Clone, Copy, Debug, PartialEq, Eq, Structural)]
pub enum KnitPattern {
    Stockinette,
    Rib,
    Checker,
    Zigzag,
    Diamond,
    Dots,
}

/// The patterns in the order the playground lists them.
pub open spec fn pattern_at(i: int) -> Option<KnitPattern> {
    if i == 0 {
        Some(KnitPattern::Stockinette)
    } else if i == 1 {
        Some(KnitPattern::Rib)
    } else if i == 2 {
        Some(KnitPattern::Checker)
    } else if i == 3 {
        Some(KnitPattern::Zigzag)
    } else if i == 4 {
        Some(KnitPattern::Diamond)
    } else if i == 5 {
        Some(KnitPattern::Dots)
    } else {
        None
    }
}

impl KnitPattern {
    /// The pattern's number in the border shader; also its position in the
    /// playground's list.
    pub open spec fn index(self) -> int {
        match self {
            KnitPattern::Stockinette => 0,
            KnitPattern::Rib => 1,
            KnitPattern::Checker => 2,
            KnitPattern::Zigzag => 3,
            KnitPattern::Diamond => 4,
            KnitPattern::Dots => 5,
        }
    }

    /// The pattern's number in the border shader.
    pub fn shader_index(self) -> (n: u32)
        ensures
            n == self.index(),
    {
        match self {
            KnitPattern::Stockinette => 0,
            KnitPattern::Rib => 1,
            KnitPattern::Checker => 2,
            KnitPattern::Zigzag => 3,
            KnitPattern::Diamond => 4,
            KnitPattern::Dots => 5,
        }
    }

    /// The pattern's display name.
    pub fn label(self) -> (s: &'static str)
        ensures
            s@ == match self {
                KnitPattern::Stockinette => "Stockinette"@,
                KnitPattern::Rib => "Rib"@,
                KnitPattern::Checker => "Checker"@,
                KnitPattern::Zigzag => "Zigzag"@,
                KnitPattern::Diamond => "Diamond"@,
                KnitPattern::Dots => "Dots"@,
            },
    {
        match self {
            KnitPattern::Stockinette => "Stockinette",
            KnitPattern::Rib => "Rib",
            KnitPattern::Checker => "Checker",
            KnitPattern::Zigzag => "Zigzag",
            KnitPattern::Diamond => "Diamond",
            KnitPattern::Dots => "Dots",
        }
    }

    /// The pattern at `position` in the playground's list, if any.
    pub fn from_position(position: u32) -> (p: Option<KnitPattern>)
        ensures
            p == pattern_at(position as int),
    {
        match position {
            0 => Some(KnitPattern::Stockinette),
            1 => Some(KnitPattern::Rib),
            2 => Some(KnitPattern::Checker),
            3 => Some(KnitPattern::Zigzag),
            4 => Some(KnitPattern::Diamond),
            5 => Some(KnitPattern::Dots),
            _ => None,
        }
    }

    /// The pattern's position in the playground's list.
    pub fn position(self) -> (n: u32)
        ensures
            n == self.index(),
            pattern_at(n as int) == Some(self),
    {
        self.shader_index()
    }
}

/// The list position of a pattern selects that pattern again, and every
/// selectable position is the position of the pattern it selects.
pub proof fn lemma_pattern_position_roundtrip(p: KnitPattern, i: int)
    ensures
        pattern_at(p.index()) == Some(p),
        pattern_at(i) matches Some(q) ==> q.index() == i,
        pattern_at(i) is Some <==> 0 <= i < 6,
{
}

/// A window geometry axis of the playground.
#[derive(Clone, Copy, Debug, PartialEq, Eq, Structural)]
pub enum Axis {
    Width,
    Height,
    Radius,
}

impl Axis {
    /// The axis's display name.
    pub fn name(self) -> (s: &'static str)
        ensures
            s@ == match self {
                Axis::Width => "Width"@,
                Axis::Height => "Height"@,
                Axis::Radius => "Corner radius"@,
            },
    {
        match self {
            Axis::Width => "Width",
            Axis::Height => "Height",
            Axis::Radius => "Corner radius",
        }
    }
}

/// A color setting of the playground.
#[derive(Clone, Copy, Debug, PartialEq, Eq, Structural)]
pub enum ColorField {
    Background,
    Inner,
    Base,
    Accent,
}

impl ColorField {
    /// The field's display name.
    pub fn name(self) -> (s: &'static str)
        ensures
            s@ == match self {
                ColorField::Background => "Background"@,
                ColorField::Inner => "Inner"@,
                ColorField::Base => "Base"@,
                ColorField::Accent => "Accent"@,
            },
    {
        match self {
            ColorField::Background => "Background",
            ColorField::Inner => "Inner",
            ColorField::Base => "Base",
            ColorField::Accent => "Accent",
        }
    }

    /// The background is opaque; the other colors allow alpha.
    pub fn opaque(self) -> (b: bool)
        ensures
            b == (self == ColorField::Background),
    {
        matches!(self, ColorField::Background)
    }

    /// The placeholder of the field's hex entry.
    pub fn hex_hint(self) -> (s: &'static str)
        ensures
            s@ == if self == ColorField::Background {
                "#RRGGBB"@
            } else {
                "#RRGGBBAA"@
            },
    {
        if self.opaque() {
            "#RRGGBB"
        } else {
            "#RRGGBBAA"
        }
    }
}

/// The upper-case hexadecimal digit of `n < 16`.
pub open spec fn hex_char(n: int) -> char {
    if n < 10 {
        ('0' as int + n) as char
    } else {
        ('A' as int + n - 10) as char
    }
}

/// The two upper-case hexadecimal digits of a byte.
pub open spec fn hex_byte(b: u8) -> Seq<char> {
    seq![hex_char(b as int / 16), hex_char(b as int % 16)]
}

/// A color as `#RRGGBB`, or `#RRGGBBAA` when it carries alpha.
pub open spec fn hex_color(r: u8, g: u8, b: u8, a: u8, opaque: bool) -> Seq<char> {
    let rgb = seq!['#'] + hex_byte(r) + hex_byte(g) + hex_byte(b);
    if opaque {
        rgb
    } else {
        rgb + hex_byte(a)
    }
}

/// Whether `c` is an ASCII hexadecimal digit of either case.
pub open spec fn is_hex_digit(c: char) -> bool {
    ('0' <= c && c <= '9') || ('a' <= c && c <= 'f') || ('A' <= c && c <= 'F')
}

/// Whether a trimmed entry is `#` followed by six hex digits, or by six or
/// eight when alpha is allowed.
pub open spec fn hex_entry_ok(t: Seq<char>, opaque: bool) -> bool {
    &&& t.len() >= 1
    &&& t[0] == '#'
    &&& (t.len() == 7 || (!opaque && t.len() == 9))
    &&& forall|i: int| 1 <= i < t.len() ==> is_hex_digit(#[trigger] t[i])
}

/// Whether `c` has the Unicode `White_Space` property: U+0009 to U+000D,
/// U+0020, U+0085, U+00A0, U+1680, U+2000 to U+200A, U+2028, U+2029, U+202F,
/// U+205F and U+3000.
pub open spec fn is_white_space(c: char) -> bool {
    let n = c as int;
    ||| 0x09 <= n <= 0x0D
    ||| n == 0x20
    ||| n == 0x85
    ||| n == 0xA0
    ||| n == 0x1680
    ||| 0x2000 <= n <= 0x200A
    ||| n == 0x2028
    ||| n == 0x2029
    ||| n == 0x202F
    ||| n == 0x205F
    ||| n == 0x3000
}

/// `s` without its leading white space.
pub open spec fn trim_start(s: Seq<char>) -> Seq<char>
    decreases s.len(),
{
    if s.len() > 0 && is_white_space(s[0]) {
        trim_start(s.drop_first())
    } else {
        s
    }
}

/// `s` without its trailing white space.
pub open spec fn trim_end(s: Seq<char>) -> Seq<char>
    decreases s.len(),
{
    if s.len() > 0 && is_white_space(s.last()) {
        trim_end(s.drop_last())
    } else {
        s
    }
}

/// `s` without its leading and trailing white space.
pub open spec fn trimmed(s: Seq<char>) -> Seq<char> {
    trim_end(trim_start(s))
}

/// Calls `str::trim`. Its documentation states that it returns the slice
/// with leading and trailing Unicode `White_Space` removed, which is
/// `trimmed`; it never panics.
#[verifier::external_body]
fn trim(s: &str) -> (r: &str)
    ensures
        r@ == trimmed(s@),
{
    s.trim()
}

/// The upper-case hexadecimal digit of `n`.
fn hex_digit(n: u8) -> (s: &'static str)
    requires
        n < 16,
    ensures
        s@ == seq![hex_char(n as int)],
{
    let digits = "0123456789ABCDEF";
    proof {
        reveal_strlit("0123456789ABCDEF");
    }
    let s = digits.substring_char(n as usize, n as usize + 1);
    assert(s@ =~= seq![hex_char(n as int)]);
    s
}

/// Appends the two upper-case hexadecimal digits of `b`.
fn push_hex_byte(out: &mut String, b: u8)
    ensures
        final(out)@ == old(out)@ + hex_byte(b),
{
    out.append(hex_digit(b / 16));
    out.append(hex_digit(b % 16));
    assert(final(out)@ =~= old(out)@ + hex_byte(b));
}

/// Formats color bytes as `#RRGGBB`, or `#RRGGBBAA` unless `opaque`.
pub fn format_hex_bytes(r: u8, g: u8, b: u8, a: u8, opaque: bool) -> (s: String)
    ensures
        s@ == hex_color(r, g, b, a, opaque),
{
    let mut s = String::from_str("#");
    proof {
        reveal_strlit("#");
    }
    push_hex_byte(&mut s, r);
    push_hex_byte(&mut s, g);
    push_hex_byte(&mut s, b);
    if !opaque {
        push_hex_byte(&mut s, a);
    }
    s
}

/// Whether `c` is an ASCII hexadecimal digit.
fn hex_digit_char(c: char) -> (b: bool)
    ensures
        b == is_hex_digit(c),
{
    ('0' <= c && c <= '9') || ('a' <= c && c <= 'f') || ('A' <= c && c <= 'F')
}

/// Whether a hex color entry is well formed: after trimming whitespace it is
/// `#` followed by six hex digits, or by six or eight unless `opaque`.
pub fn is_hex_entry(text: &str, opaque: bool) -> (b: bool)
    ensures
        b == hex_entry_ok(trimmed(text@), opaque),
{
    let t = trim(text);
    let n: usize = t.unicode_len();
    if n == 0 || t.get_char(0) != '#' {
        return false;
    }
    let len_ok = if opaque {
        n == 7
    } else {
        n == 7 || n == 9
    };
    if !len_ok {
        return false;
    }
    let mut i: usize = 1;
    while i < n
        invariant
            1 <= i <= n,
            n == t@.len(),
            t@ == trimmed(text@),
            t@[0] == '#',
            n == 7 || (!opaque && n == 9),
            forall|j: int| 1 <= j < i ==> is_hex_digit(#[trigger] t@[j]),
        decreases n - i,
    {
        if !hex_digit_char(t.get_char(i)) {
            assert(!is_hex_digit(t@[i as int]));
            return false;
        }
        i = i + 1;
    }
    true
}

} // verus!
