//! The expression that an evaluator component computes: a tree of operators
//! over literals and up to five input slots, and the text in which the host
//! reads it.

use vstd::prelude::*;
use vstd::string::*;
use super::line_value::LineInner;
use crate::ftd_data::{DataEntry, EntryView, SectionData};
use crate::guid::Guid;

verus! {

/// A tree of operators over literals and the five input slots.
#[derive(Debug)]
pub enum EvaluatorExpression {
    InputA,
    InputB,
    InputC,
    InputD,
    InputE,
    Int(i64),
    Float(FloatLiteral),
    Sin(Box<EvaluatorExpression>),
    Cos(Box<EvaluatorExpression>),
    Tan(Box<EvaluatorExpression>),
    Sqrt(Box<EvaluatorExpression>),
    Asin(Box<EvaluatorExpression>),
    Acos(Box<EvaluatorExpression>),
    Atan(Box<EvaluatorExpression>),
    Atan2(Box<EvaluatorExpression>, Box<EvaluatorExpression>),
    Exp(Box<EvaluatorExpression>),
    Log(Box<EvaluatorExpression>),
    Pow(Box<EvaluatorExpression>, Box<EvaluatorExpression>),
    /// The absolute value; of a vector, component by component.
    Abs(Box<EvaluatorExpression>),
    Sign(Box<EvaluatorExpression>),
    Round(Box<EvaluatorExpression>),
    Floor(Box<EvaluatorExpression>),
    Ceil(Box<EvaluatorExpression>),
    Max2(Box<EvaluatorExpression>, Box<EvaluatorExpression>),
    Max3(Box<EvaluatorExpression>, Box<EvaluatorExpression>, Box<EvaluatorExpression>),
    /// The largest component of a vector.
    MaxV(Box<EvaluatorExpression>),
    Min2(Box<EvaluatorExpression>, Box<EvaluatorExpression>),
    Min3(Box<EvaluatorExpression>, Box<EvaluatorExpression>, Box<EvaluatorExpression>),
    /// The smallest component of a vector.
    MinV(Box<EvaluatorExpression>),
    If {
        condition: Box<EvaluatorExpression>,
        true_value: Box<EvaluatorExpression>,
        false_value: Box<EvaluatorExpression>,
    },
    Vector(Box<EvaluatorExpression>, Box<EvaluatorExpression>, Box<EvaluatorExpression>),
    MakeRotationBetween {
        from_vector: Box<EvaluatorExpression>,
        to_vector: Box<EvaluatorExpression>,
    },
    FromEuler {
        pitch: Box<EvaluatorExpression>,
        yaw: Box<EvaluatorExpression>,
        roll: Box<EvaluatorExpression>,
    },
    /// The rotation with the vector's components as its angles.
    FromEularV(Box<EvaluatorExpression>),
    /// The angles of a rotation, as a vector.
    ToEularV(Box<EvaluatorExpression>),
    /// The angle of a rotation.
    Angle(Box<EvaluatorExpression>),
    /// The axis of a rotation.
    Axis(Box<EvaluatorExpression>),
    AngleBetween { from_vector: Box<EvaluatorExpression>, to_vector: Box<EvaluatorExpression> },
    /// The vector with another first component.
    SetX { vector: Box<EvaluatorExpression>, x: Box<EvaluatorExpression> },
    /// The vector with another second component.
    SetY { vector: Box<EvaluatorExpression>, y: Box<EvaluatorExpression> },
    /// The vector with another third component.
    SetZ { vector: Box<EvaluatorExpression>, z: Box<EvaluatorExpression> },
    /// The vector that the output at the given index had one frame ago.
    OutputV(Box<EvaluatorExpression>),
    /// The number that the output at the given index had one frame ago.
    Output(Box<EvaluatorExpression>),
    GetX(Box<EvaluatorExpression>),
    GetY(Box<EvaluatorExpression>),
    GetZ(Box<EvaluatorExpression>),
    Magnitude(Box<EvaluatorExpression>),
    SquareMagnitude(Box<EvaluatorExpression>),
    RotationInverse(Box<EvaluatorExpression>),
    /// The sum of two numbers or vectors; of two texts, one after the other.
    Add(Box<EvaluatorExpression>, Box<EvaluatorExpression>),
    /// The difference of two numbers or vectors; of two texts, the first
    /// without the first occurrence of the second.
    Sub(Box<EvaluatorExpression>, Box<EvaluatorExpression>),
    /// The cross product of two vectors.
    Cross(Box<EvaluatorExpression>, Box<EvaluatorExpression>),
    /// The product of two numbers; of two vectors, the dot product; of a
    /// vector and a rotation, the rotated vector; of a number and a vector,
    /// the scaled vector; of two rotations, the right one followed by the
    /// left one.
    Mul(Box<EvaluatorExpression>, Box<EvaluatorExpression>),
    /// The quotient of two numbers, or of a vector and a number.
    Div(Box<EvaluatorExpression>, Box<EvaluatorExpression>),
    /// The remainder of two numbers.
    Mod(Box<EvaluatorExpression>, Box<EvaluatorExpression>),
    Eq(Box<EvaluatorExpression>, Box<EvaluatorExpression>),
    Ne(Box<EvaluatorExpression>, Box<EvaluatorExpression>),
    Gt(Box<EvaluatorExpression>, Box<EvaluatorExpression>),
    Gte(Box<EvaluatorExpression>, Box<EvaluatorExpression>),
    Lt(Box<EvaluatorExpression>, Box<EvaluatorExpression>),
    Lte(Box<EvaluatorExpression>, Box<EvaluatorExpression>),
    Not(Box<EvaluatorExpression>),
    OpAnd(Box<EvaluatorExpression>, Box<EvaluatorExpression>),
    OpOr(Box<EvaluatorExpression>, Box<EvaluatorExpression>),
    /// The first operand if it is not zero, else the second.
    FalseCoalesce(Box<EvaluatorExpression>, Box<EvaluatorExpression>),
    Negate(Box<EvaluatorExpression>),
}

/// The text of one decimal digit.
pub open spec fn digit_text(d: int) -> Seq<char> {
    if d == 0 {
        "0"@
    } else if d == 1 {
        "1"@
    } else if d == 2 {
        "2"@
    } else if d == 3 {
        "3"@
    } else if d == 4 {
        "4"@
    } else if d == 5 {
        "5"@
    } else if d == 6 {
        "6"@
    } else if d == 7 {
        "7"@
    } else if d == 8 {
        "8"@
    } else {
        "9"@
    }
}

/// The decimal text of a natural number, without leading zeros.
pub open spec fn nat_text(n: nat) -> Seq<char>
    decreases n,
{
    if n < 10 {
        digit_text(n as int)
    } else {
        nat_text(n / 10) + digit_text((n % 10) as int)
    }
}

/// The decimal text of an integer, with a minus sign if it is negative.
pub open spec fn int_text(n: int) -> Seq<char> {
    if n < 0 {
        "-"@ + nat_text((-n) as nat)
    } else {
        nat_text(n as nat)
    }
}

fn digit_str(d: u64) -> (text: &'static str)
    requires
        d < 10,
    ensures
        text@ == digit_text(d as int),
{
    if d == 0 {
        "0"
    } else if d == 1 {
        "1"
    } else if d == 2 {
        "2"
    } else if d == 3 {
        "3"
    } else if d == 4 {
        "4"
    } else if d == 5 {
        "5"
    } else if d == 6 {
        "6"
    } else if d == 7 {
        "7"
    } else if d == 8 {
        "8"
    } else {
        "9"
    }
}

/// The decimal text of `n`.
pub fn render_nat(n: u64) -> (text: String)
    ensures
        text@ == nat_text(n as nat),
    decreases n,
{
    if n < 10 {
        String::from_str(digit_str(n))
    } else {
        let mut text = render_nat(n / 10);
        text.append(digit_str(n % 10));
        text
    }
}

/// The decimal text of `n`.
pub fn render_int(n: i64) -> (text: String)
    ensures
        text@ == int_text(n as int),
{
    if n < 0 {
        let magnitude: u64 = if n == i64::MIN {
            0x8000_0000_0000_0000
        } else {
            (-n) as u64
        };
        let digits = render_nat(magnitude);
        let mut text = String::from_str("-");
        text.append(digits.as_str());
        text
    } else {
        render_nat(n as u64)
    }
}

/// Whether `c` is a decimal digit.
pub open spec fn is_digit(c: char) -> bool {
    '0' <= c && c <= '9'
}

/// The first place at or after `from` at which `s` holds no digit; the
/// length of `s` if it holds digits from `from` to its end.
pub open spec fn digits_end(s: Seq<char>, from: int) -> int
    decreases s.len() - from,
{
    if from < 0 || from >= s.len() || !is_digit(s[from]) {
        from
    } else {
        digits_end(s, from + 1)
    }
}

/// Whether `s` from `from` on is a number without a sign: one or more
/// digits, and then either nothing or a point and one or more digits.
pub open spec fn is_plain_number(s: Seq<char>, from: int) -> bool {
    let point = digits_end(s, from);
    &&& from < point
    &&& point == s.len() || (s[point] == '.' && point + 1 < s.len() && digits_end(s, point + 1)
        == s.len())
}

/// Whether `s` is the text of a literal number: a number without a sign, or
/// a minus sign and such a number, or one of `inf`, `-inf` and `NaN`.
pub open spec fn is_literal_text(s: Seq<char>) -> bool {
    ||| is_plain_number(s, 0)
    ||| (s.len() > 0 && s[0] == '-' && is_plain_number(s, 1))
    ||| s == seq!['i', 'n', 'f']
    ||| s == seq!['-', 'i', 'n', 'f']
    ||| s == seq!['N', 'a', 'N']
}

/// The text of a digit is that digit alone.
proof fn lemma_digit_text(d: int)
    requires
        0 <= d < 10,
    ensures
        digit_text(d).len() == 1,
        is_digit(digit_text(d)[0]),
{
    reveal_strlit("0");
    reveal_strlit("1");
    reveal_strlit("2");
    reveal_strlit("3");
    reveal_strlit("4");
    reveal_strlit("5");
    reveal_strlit("6");
    reveal_strlit("7");
    reveal_strlit("8");
    reveal_strlit("9");
}

/// The decimal text of a natural number is one or more digits.
proof fn lemma_nat_text_digits(n: nat)
    ensures
        nat_text(n).len() > 0,
        forall|i: int| 0 <= i < nat_text(n).len() ==> is_digit(#[trigger] nat_text(n)[i]),
    decreases n,
{
    if n < 10 {
        lemma_digit_text(n as int);
    } else {
        lemma_nat_text_digits(n / 10);
        lemma_digit_text((n % 10) as int);
    }
}

/// Where `s` holds digits from `from` to its end, the digits end at the end
/// of `s`.
proof fn lemma_digits_to_the_end(s: Seq<char>, from: int)
    requires
        0 <= from <= s.len(),
        forall|i: int| from <= i < s.len() ==> is_digit(#[trigger] s[i]),
    ensures
        digits_end(s, from) == s.len(),
    decreases s.len() - from,
{
    if from < s.len() {
        lemma_digits_to_the_end(s, from + 1);
    }
}

/// The decimal text of an integer is the text of a literal number.
proof fn lemma_int_text_is_literal(n: int)
    ensures
        is_literal_text(int_text(n)),
{
    if n < 0 {
        let digits = nat_text((-n) as nat);
        lemma_nat_text_digits((-n) as nat);
        reveal_strlit("-");
        let s = int_text(n);
        assert(s == "-"@ + digits);
        assert(s[0] == '-');
        assert forall|i: int| 1 <= i < s.len() implies is_digit(#[trigger] s[i]) by {
            assert(s[i] == digits[i - 1]);
        }
        lemma_digits_to_the_end(s, 1);
    } else {
        lemma_nat_text_digits(n as nat);
        lemma_digits_to_the_end(nat_text(n as nat), 0);
    }
}

/// The first place at or after `from` at which `text` holds no digit.
fn scan_digits(text: &str, from: usize) -> (end: usize)
    requires
        from <= text@.len(),
    ensures
        end == digits_end(text@, from as int),
        from <= end <= text@.len(),
{
    let n = text.unicode_len();
    let mut at: usize = from;
    while at < n
        invariant
            n == text@.len(),
            from <= at <= n,
            digits_end(text@, at as int) == digits_end(text@, from as int),
        decreases n - at,
    {
        let c = text.get_char(at);
        if !('0' <= c && c <= '9') {
            return at;
        }
        at += 1;
    }
    at
}

/// Whether `text` from `from` on is a number without a sign.
fn scan_plain_number(text: &str, from: usize) -> (plain: bool)
    requires
        from <= text@.len(),
    ensures
        plain == is_plain_number(text@, from as int),
{
    let n = text.unicode_len();
    let point = scan_digits(text, from);
    if point == from {
        false
    } else if point == n {
        true
    } else if text.get_char(point) == '.' && point + 1 < n {
        scan_digits(text, point + 1) == n
    } else {
        false
    }
}

/// Whether `text` is the three characters `a`, `b`, `c` after `from`
/// characters, and nothing more.
fn is_word(text: &str, from: usize, a: char, b: char, c: char) -> (same: bool)
    requires
        from <= text@.len(),
    ensures
        same == (text@.len() == from + 3 && text@[from as int] == a && text@[from + 1] == b
            && text@[from + 2] == c),
{
    let n = text.unicode_len();
    n - from == 3 && text.get_char(from) == a && text.get_char(from + 1) == b && text.get_char(
        from + 2,
    ) == c
}

/// A literal number of an expression, held as the decimal text in which the
/// host reads it.
#[derive(Debug)]
pub struct FloatLiteral {
    text: String,
}

impl View for FloatLiteral {
    type V = Seq<char>;

    closed spec fn view(&self) -> Seq<char> {
        self.text@
    }
}

impl FloatLiteral {
    #[verifier::type_invariant]
    spec fn well_formed(&self) -> bool {
        is_literal_text(self.text@)
    }

    /// The literal with the text `text`, if that is the text of a literal
    /// number.
    pub fn parse(text: &str) -> (literal: Option<Self>)
        ensures
            literal.is_some() == is_literal_text(text@),
            literal.is_some() ==> literal.unwrap()@ == text@,
    {
        let n = text.unicode_len();
        let negative = n > 0 && text.get_char(0) == '-';
        let accepted = scan_plain_number(text, 0) || (negative && scan_plain_number(text, 1))
            || is_word(text, 0, 'i', 'n', 'f') || (negative && is_word(text, 1, 'i', 'n', 'f'))
            || is_word(text, 0, 'N', 'a', 'N');
        proof {
            let s = text@;
            assert((s == seq!['i', 'n', 'f']) == (s.len() == 3 && s[0] == 'i' && s[1] == 'n' && s[2]
                == 'f')) by {
                if s.len() == 3 && s[0] == 'i' && s[1] == 'n' && s[2] == 'f' {
                    assert(s =~= seq!['i', 'n', 'f']);
                }
            }
            assert((s == seq!['N', 'a', 'N']) == (s.len() == 3 && s[0] == 'N' && s[1] == 'a' && s[2]
                == 'N')) by {
                if s.len() == 3 && s[0] == 'N' && s[1] == 'a' && s[2] == 'N' {
                    assert(s =~= seq!['N', 'a', 'N']);
                }
            }
            assert((s == seq!['-', 'i', 'n', 'f']) == (s.len() == 4 && s[0] == '-' && s[1] == 'i'
                && s[2] == 'n' && s[3] == 'f')) by {
                if s.len() == 4 && s[0] == '-' && s[1] == 'i' && s[2] == 'n' && s[3] == 'f' {
                    assert(s =~= seq!['-', 'i', 'n', 'f']);
                }
            }
        }
        if accepted {
            Some(FloatLiteral { text: String::from_str(text) })
        } else {
            None
        }
    }

    /// The literal of the integer `n`.
    pub fn from_int(n: i64) -> (literal: Self)
        ensures
            literal@ == int_text(n as int),
    {
        proof {
            lemma_int_text_is_literal(n as int);
        }
        FloatLiteral { text: render_int(n) }
    }

    /// The literal's text.
    pub fn to_text(&self) -> (text: String)
        ensures
            text@ == self@,
            is_literal_text(text@),
    {
        proof {
            use_type_invariant(self);
        }
        self.text.clone()
    }
}

fn wrap1(open: &str, a: &String, close: &str) -> (text: String)
    ensures
        text@ == open@ + a@ + close@,
{
    let mut text = String::from_str(open);
    text.append(a.as_str());
    text.append(close);
    text
}

fn wrap2(open: &str, a: &String, mid: &str, b: &String, close: &str) -> (text: String)
    ensures
        text@ == open@ + a@ + mid@ + b@ + close@,
{
    let mut text = String::from_str(open);
    text.append(a.as_str());
    text.append(mid);
    text.append(b.as_str());
    text.append(close);
    text
}

fn wrap3(open: &str, a: &String, mid: &str, b: &String, c: &String, close: &str) -> (text: String)
    ensures
        text@ == open@ + a@ + mid@ + b@ + mid@ + c@ + close@,
{
    let mut text = String::from_str(open);
    text.append(a.as_str());
    text.append(mid);
    text.append(b.as_str());
    text.append(mid);
    text.append(c.as_str());
    text.append(close);
    text
}

/// The larger of two numbers.
pub open spec fn larger(a: nat, b: nat) -> nat {
    if a >= b {
        a
    } else {
        b
    }
}

impl EvaluatorExpression {
    /// The expression for the input slot at place `n`; there are five.
    pub open spec fn slot(n: int) -> Option<EvaluatorExpression> {
        if n == 0 {
            Some(EvaluatorExpression::InputA)
        } else if n == 1 {
            Some(EvaluatorExpression::InputB)
        } else if n == 2 {
            Some(EvaluatorExpression::InputC)
        } else if n == 3 {
            Some(EvaluatorExpression::InputD)
        } else if n == 4 {
            Some(EvaluatorExpression::InputE)
        } else {
            None
        }
    }

    /// The expression for the input slot at place `n`, if there is such a
    /// slot.
    pub fn from_input_index(n: usize) -> (expr: Option<Self>)
        ensures
            expr == Self::slot(n as int),
    {
        match n {
            0 => Some(EvaluatorExpression::InputA),
            1 => Some(EvaluatorExpression::InputB),
            2 => Some(EvaluatorExpression::InputC),
            3 => Some(EvaluatorExpression::InputD),
            4 => Some(EvaluatorExpression::InputE),
            _ => None,
        }
    }

    /// The text in which the host reads the expression: every operator
    /// under its name, every operand in parentheses, the input slots as the
    /// letters `a` to `e`.
    pub open spec fn text(&self) -> Seq<char>
        decreases self,
    {
        match self {
            EvaluatorExpression::InputA => "a"@,
            EvaluatorExpression::InputB => "b"@,
            EvaluatorExpression::InputC => "c"@,
            EvaluatorExpression::InputD => "d"@,
            EvaluatorExpression::InputE => "e"@,
            EvaluatorExpression::Int(val) => int_text(*val as int),
            EvaluatorExpression::Float(val) => val@,
            EvaluatorExpression::Sin(val1) => "Sin("@ + val1.text() + ")"@,
            EvaluatorExpression::Cos(val1) => "Cos("@ + val1.text() + ")"@,
            EvaluatorExpression::Tan(val1) => "Tan("@ + val1.text() + ")"@,
            EvaluatorExpression::Sqrt(val1) => "Sqrt("@ + val1.text() + ")"@,
            EvaluatorExpression::Asin(val1) => "Asin("@ + val1.text() + ")"@,
            EvaluatorExpression::Acos(val1) => "Acos("@ + val1.text() + ")"@,
            EvaluatorExpression::Atan(val1) => "Atan("@ + val1.text() + ")"@,
            EvaluatorExpression::Atan2(val1, val2) => {
                "Atan("@ + val1.text() + ", "@ + val2.text() + ")"@
            },
            EvaluatorExpression::Exp(val1) => "Exp("@ + val1.text() + ")"@,
            EvaluatorExpression::Log(val1) => "Log("@ + val1.text() + ")"@,
            EvaluatorExpression::Pow(val1, val2) => {
                "Pow("@ + val1.text() + ", "@ + val2.text() + ")"@
            },
            EvaluatorExpression::Abs(val1) => "Abs("@ + val1.text() + ")"@,
            EvaluatorExpression::Sign(val1) => "Sign("@ + val1.text() + ")"@,
            EvaluatorExpression::Round(val1) => "Round("@ + val1.text() + ")"@,
            EvaluatorExpression::Floor(val1) => "Floor("@ + val1.text() + ")"@,
            EvaluatorExpression::Ceil(val1) => "Ceil("@ + val1.text() + ")"@,
            EvaluatorExpression::Max2(val1, val2) => {
                "Max("@ + val1.text() + ", "@ + val2.text() + ")"@
            },
            EvaluatorExpression::Max3(val1, val2, val3) => {
                "Max("@ + val1.text() + ", "@ + val2.text() + ", "@ + val3.text() + ")"@
            },
            EvaluatorExpression::MaxV(val1) => "Max("@ + val1.text() + ")"@,
            EvaluatorExpression::Min2(val1, val2) => {
                "Min("@ + val1.text() + ", "@ + val2.text() + ")"@
            },
            EvaluatorExpression::Min3(val1, val2, val3) => {
                "Min("@ + val1.text() + ", "@ + val2.text() + ", "@ + val3.text() + ")"@
            },
            EvaluatorExpression::MinV(val1) => "Min("@ + val1.text() + ")"@,
            EvaluatorExpression::If { condition: val1, true_value: val2, false_value: val3 } => {
                "If("@ + val1.text() + ", "@ + val2.text() + ", "@ + val3.text() + ")"@
            },
            EvaluatorExpression::Vector(val1, val2, val3) => {
                "Vector("@ + val1.text() + ", "@ + val2.text() + ", "@ + val3.text() + ")"@
            },
            EvaluatorExpression::MakeRotationBetween { from_vector: val1, to_vector: val2 } => {
                "FromToRot("@ + val1.text() + ", "@ + val2.text() + ")"@
            },
            EvaluatorExpression::FromEuler { pitch: val1, yaw: val2, roll: val3 } => {
                "FromEuler("@ + val1.text() + ", "@ + val2.text() + ", "@ + val3.text() + ")"@
            },
            EvaluatorExpression::FromEularV(val1) => "FromEuler("@ + val1.text() + ")"@,
            EvaluatorExpression::ToEularV(val1) => "ToEuler("@ + val1.text() + ")"@,
            EvaluatorExpression::Angle(val1) => "Angle("@ + val1.text() + ")"@,
            EvaluatorExpression::Axis(val1) => "Axis("@ + val1.text() + ")"@,
            EvaluatorExpression::AngleBetween { from_vector: val1, to_vector: val2 } => {
                "Angle("@ + val1.text() + ", "@ + val2.text() + ")"@
            },
            EvaluatorExpression::SetX { vector: val1, x: val2 } => {
                "setX("@ + val1.text() + ", "@ + val2.text() + ")"@
            },
            EvaluatorExpression::SetY { vector: val1, y: val2 } => {
                "setY("@ + val1.text() + ", "@ + val2.text() + ")"@
            },
            EvaluatorExpression::SetZ { vector: val1, z: val2 } => {
                "setZ("@ + val1.text() + ", "@ + val2.text() + ")"@
            },
            EvaluatorExpression::OutputV(val1) => "outputV("@ + val1.text() + ")"@,
            EvaluatorExpression::Output(val1) => "output("@ + val1.text() + ")"@,
            EvaluatorExpression::GetX(val1) => "("@ + val1.text() + ").x"@,
            EvaluatorExpression::GetY(val1) => "("@ + val1.text() + ").y"@,
            EvaluatorExpression::GetZ(val1) => "("@ + val1.text() + ").z"@,
            EvaluatorExpression::Magnitude(val1) => "("@ + val1.text() + ").magnitude"@,
            EvaluatorExpression::SquareMagnitude(val1) => "("@ + val1.text() + ").sqrMagnitude"@,
            EvaluatorExpression::RotationInverse(val1) => "("@ + val1.text() + ").inverse"@,
            EvaluatorExpression::Add(val1, val2) => {
                "("@ + val1.text() + ") + ("@ + val2.text() + ")"@
            },
            EvaluatorExpression::Sub(val1, val2) => {
                "("@ + val1.text() + ") - ("@ + val2.text() + ")"@
            },
            EvaluatorExpression::Cross(val1, val2) => {
                "("@ + val1.text() + ") x ("@ + val2.text() + ")"@
            },
            EvaluatorExpression::Mul(val1, val2) => {
                "("@ + val1.text() + ") * ("@ + val2.text() + ")"@
            },
            EvaluatorExpression::Div(val1, val2) => {
                "("@ + val1.text() + ") / ("@ + val2.text() + ")"@
            },
            EvaluatorExpression::Mod(val1, val2) => {
                "("@ + val1.text() + ") % ("@ + val2.text() + ")"@
            },
            EvaluatorExpression::Eq(val1, val2) => {
                "("@ + val1.text() + ") = ("@ + val2.text() + ")"@
            },
            EvaluatorExpression::Ne(val1, val2) => {
                "("@ + val1.text() + ") != ("@ + val2.text() + ")"@
            },
            EvaluatorExpression::Gt(val1, val2) => {
                "("@ + val1.text() + ") > ("@ + val2.text() + ")"@
            },
            EvaluatorExpression::Gte(val1, val2) => {
                "("@ + val1.text() + ") >= ("@ + val2.text() + ")"@
            },
            EvaluatorExpression::Lt(val1, val2) => {
                "("@ + val1.text() + ") < ("@ + val2.text() + ")"@
            },
            EvaluatorExpression::Lte(val1, val2) => {
                "("@ + val1.text() + ") <= ("@ + val2.text() + ")"@
            },
            EvaluatorExpression::Not(val1) => "!("@ + val1.text() + ")"@,
            EvaluatorExpression::OpAnd(val1, val2) => {
                "("@ + val1.text() + ") & ("@ + val2.text() + ")"@
            },
            EvaluatorExpression::OpOr(val1, val2) => {
                "("@ + val1.text() + ") | ("@ + val2.text() + ")"@
            },
            EvaluatorExpression::FalseCoalesce(val1, val2) => {
                "("@ + val1.text() + ") or ("@ + val2.text() + ")"@
            },
            EvaluatorExpression::Negate(val1) => "-("@ + val1.text() + ")"@,
        }
    }

    /// The number of input slots that the expression needs: the place of
    /// the last slot it reads, counted from one; zero if it reads none.
    pub open spec fn slot_bound(&self) -> nat
        decreases self,
    {
        match self {
            EvaluatorExpression::InputA => 1,
            EvaluatorExpression::InputB => 2,
            EvaluatorExpression::InputC => 3,
            EvaluatorExpression::InputD => 4,
            EvaluatorExpression::InputE => 5,
            EvaluatorExpression::Int(_) => 0,
            EvaluatorExpression::Float(_) => 0,
            EvaluatorExpression::Sin(val1) => val1.slot_bound(),
            EvaluatorExpression::Cos(val1) => val1.slot_bound(),
            EvaluatorExpression::Tan(val1) => val1.slot_bound(),
            EvaluatorExpression::Sqrt(val1) => val1.slot_bound(),
            EvaluatorExpression::Asin(val1) => val1.slot_bound(),
            EvaluatorExpression::Acos(val1) => val1.slot_bound(),
            EvaluatorExpression::Atan(val1) => val1.slot_bound(),
            EvaluatorExpression::Atan2(val1, val2) => larger(val1.slot_bound(), val2.slot_bound()),
            EvaluatorExpression::Exp(val1) => val1.slot_bound(),
            EvaluatorExpression::Log(val1) => val1.slot_bound(),
            EvaluatorExpression::Pow(val1, val2) => larger(val1.slot_bound(), val2.slot_bound()),
            EvaluatorExpression::Abs(val1) => val1.slot_bound(),
            EvaluatorExpression::Sign(val1) => val1.slot_bound(),
            EvaluatorExpression::Round(val1) => val1.slot_bound(),
            EvaluatorExpression::Floor(val1) => val1.slot_bound(),
            EvaluatorExpression::Ceil(val1) => val1.slot_bound(),
            EvaluatorExpression::Max2(val1, val2) => larger(val1.slot_bound(), val2.slot_bound()),
            EvaluatorExpression::Max3(val1, val2, val3) => {
                larger(val1.slot_bound(), larger(val2.slot_bound(), val3.slot_bound()))
            },
            EvaluatorExpression::MaxV(val1) => val1.slot_bound(),
            EvaluatorExpression::Min2(val1, val2) => larger(val1.slot_bound(), val2.slot_bound()),
            EvaluatorExpression::Min3(val1, val2, val3) => {
                larger(val1.slot_bound(), larger(val2.slot_bound(), val3.slot_bound()))
            },
            EvaluatorExpression::MinV(val1) => val1.slot_bound(),
            EvaluatorExpression::If { condition: val1, true_value: val2, false_value: val3 } => {
                larger(val1.slot_bound(), larger(val2.slot_bound(), val3.slot_bound()))
            },
            EvaluatorExpression::Vector(val1, val2, val3) => {
                larger(val1.slot_bound(), larger(val2.slot_bound(), val3.slot_bound()))
            },
            EvaluatorExpression::MakeRotationBetween { from_vector: val1, to_vector: val2 } => {
                larger(val1.slot_bound(), val2.slot_bound())
            },
            EvaluatorExpression::FromEuler { pitch: val1, yaw: val2, roll: val3 } => {
                larger(val1.slot_bound(), larger(val2.slot_bound(), val3.slot_bound()))
            },
            EvaluatorExpression::FromEularV(val1) => val1.slot_bound(),
            EvaluatorExpression::ToEularV(val1) => val1.slot_bound(),
            EvaluatorExpression::Angle(val1) => val1.slot_bound(),
            EvaluatorExpression::Axis(val1) => val1.slot_bound(),
            EvaluatorExpression::AngleBetween { from_vector: val1, to_vector: val2 } => {
                larger(val1.slot_bound(), val2.slot_bound())
            },
            EvaluatorExpression::SetX { vector: val1, x: val2 } => {
                larger(val1.slot_bound(), val2.slot_bound())
            },
            EvaluatorExpression::SetY { vector: val1, y: val2 } => {
                larger(val1.slot_bound(), val2.slot_bound())
            },
            EvaluatorExpression::SetZ { vector: val1, z: val2 } => {
                larger(val1.slot_bound(), val2.slot_bound())
            },
            EvaluatorExpression::OutputV(val1) => val1.slot_bound(),
            EvaluatorExpression::Output(val1) => val1.slot_bound(),
            EvaluatorExpression::GetX(val1) => val1.slot_bound(),
            EvaluatorExpression::GetY(val1) => val1.slot_bound(),
            EvaluatorExpression::GetZ(val1) => val1.slot_bound(),
            EvaluatorExpression::Magnitude(val1) => val1.slot_bound(),
            EvaluatorExpression::SquareMagnitude(val1) => val1.slot_bound(),
            EvaluatorExpression::RotationInverse(val1) => val1.slot_bound(),
            EvaluatorExpression::Add(val1, val2) => larger(val1.slot_bound(), val2.slot_bound()),
            EvaluatorExpression::Sub(val1, val2) => larger(val1.slot_bound(), val2.slot_bound()),
            EvaluatorExpression::Cross(val1, val2) => larger(val1.slot_bound(), val2.slot_bound()),
            EvaluatorExpression::Mul(val1, val2) => larger(val1.slot_bound(), val2.slot_bound()),
            EvaluatorExpression::Div(val1, val2) => larger(val1.slot_bound(), val2.slot_bound()),
            EvaluatorExpression::Mod(val1, val2) => larger(val1.slot_bound(), val2.slot_bound()),
            EvaluatorExpression::Eq(val1, val2) => larger(val1.slot_bound(), val2.slot_bound()),
            EvaluatorExpression::Ne(val1, val2) => larger(val1.slot_bound(), val2.slot_bound()),
            EvaluatorExpression::Gt(val1, val2) => larger(val1.slot_bound(), val2.slot_bound()),
            EvaluatorExpression::Gte(val1, val2) => larger(val1.slot_bound(), val2.slot_bound()),
            EvaluatorExpression::Lt(val1, val2) => larger(val1.slot_bound(), val2.slot_bound()),
            EvaluatorExpression::Lte(val1, val2) => larger(val1.slot_bound(), val2.slot_bound()),
            EvaluatorExpression::Not(val1) => val1.slot_bound(),
            EvaluatorExpression::OpAnd(val1, val2) => larger(val1.slot_bound(), val2.slot_bound()),
            EvaluatorExpression::OpOr(val1, val2) => larger(val1.slot_bound(), val2.slot_bound()),
            EvaluatorExpression::FalseCoalesce(val1, val2) => {
                larger(val1.slot_bound(), val2.slot_bound())
            },
            EvaluatorExpression::Negate(val1) => val1.slot_bound(),
        }
    }

    /// Writes the expression out as the host reads it.
    pub fn render(&self) -> (text: String)
        ensures
            text@ == self.text(),
        decreases self,
    {
        match self {
            EvaluatorExpression::InputA => String::from_str("a"),
            EvaluatorExpression::InputB => String::from_str("b"),
            EvaluatorExpression::InputC => String::from_str("c"),
            EvaluatorExpression::InputD => String::from_str("d"),
            EvaluatorExpression::InputE => String::from_str("e"),
            EvaluatorExpression::Int(val) => render_int(*val),
            EvaluatorExpression::Float(val) => val.to_text(),
            EvaluatorExpression::Sin(val1) => wrap1("Sin(", &val1.render(), ")"),
            EvaluatorExpression::Cos(val1) => wrap1("Cos(", &val1.render(), ")"),
            EvaluatorExpression::Tan(val1) => wrap1("Tan(", &val1.render(), ")"),
            EvaluatorExpression::Sqrt(val1) => wrap1("Sqrt(", &val1.render(), ")"),
            EvaluatorExpression::Asin(val1) => wrap1("Asin(", &val1.render(), ")"),
            EvaluatorExpression::Acos(val1) => wrap1("Acos(", &val1.render(), ")"),
            EvaluatorExpression::Atan(val1) => wrap1("Atan(", &val1.render(), ")"),
            EvaluatorExpression::Atan2(val1, val2) => {
                wrap2("Atan(", &val1.render(), ", ", &val2.render(), ")")
            },
            EvaluatorExpression::Exp(val1) => wrap1("Exp(", &val1.render(), ")"),
            EvaluatorExpression::Log(val1) => wrap1("Log(", &val1.render(), ")"),
            EvaluatorExpression::Pow(val1, val2) => {
                wrap2("Pow(", &val1.render(), ", ", &val2.render(), ")")
            },
            EvaluatorExpression::Abs(val1) => wrap1("Abs(", &val1.render(), ")"),
            EvaluatorExpression::Sign(val1) => wrap1("Sign(", &val1.render(), ")"),
            EvaluatorExpression::Round(val1) => wrap1("Round(", &val1.render(), ")"),
            EvaluatorExpression::Floor(val1) => wrap1("Floor(", &val1.render(), ")"),
            EvaluatorExpression::Ceil(val1) => wrap1("Ceil(", &val1.render(), ")"),
            EvaluatorExpression::Max2(val1, val2) => {
                wrap2("Max(", &val1.render(), ", ", &val2.render(), ")")
            },
            EvaluatorExpression::Max3(val1, val2, val3) => {
                wrap3("Max(", &val1.render(), ", ", &val2.render(), &val3.render(), ")")
            },
            EvaluatorExpression::MaxV(val1) => wrap1("Max(", &val1.render(), ")"),
            EvaluatorExpression::Min2(val1, val2) => {
                wrap2("Min(", &val1.render(), ", ", &val2.render(), ")")
            },
            EvaluatorExpression::Min3(val1, val2, val3) => {
                wrap3("Min(", &val1.render(), ", ", &val2.render(), &val3.render(), ")")
            },
            EvaluatorExpression::MinV(val1) => wrap1("Min(", &val1.render(), ")"),
            EvaluatorExpression::If { condition: val1, true_value: val2, false_value: val3 } => {
                wrap3("If(", &val1.render(), ", ", &val2.render(), &val3.render(), ")")
            },
            EvaluatorExpression::Vector(val1, val2, val3) => {
                wrap3("Vector(", &val1.render(), ", ", &val2.render(), &val3.render(), ")")
            },
            EvaluatorExpression::MakeRotationBetween { from_vector: val1, to_vector: val2 } => {
                wrap2("FromToRot(", &val1.render(), ", ", &val2.render(), ")")
            },
            EvaluatorExpression::FromEuler { pitch: val1, yaw: val2, roll: val3 } => {
                wrap3("FromEuler(", &val1.render(), ", ", &val2.render(), &val3.render(), ")")
            },
            EvaluatorExpression::FromEularV(val1) => wrap1("FromEuler(", &val1.render(), ")"),
            EvaluatorExpression::ToEularV(val1) => wrap1("ToEuler(", &val1.render(), ")"),
            EvaluatorExpression::Angle(val1) => wrap1("Angle(", &val1.render(), ")"),
            EvaluatorExpression::Axis(val1) => wrap1("Axis(", &val1.render(), ")"),
            EvaluatorExpression::AngleBetween { from_vector: val1, to_vector: val2 } => {
                wrap2("Angle(", &val1.render(), ", ", &val2.render(), ")")
            },
            EvaluatorExpression::SetX { vector: val1, x: val2 } => {
                wrap2("setX(", &val1.render(), ", ", &val2.render(), ")")
            },
            EvaluatorExpression::SetY { vector: val1, y: val2 } => {
                wrap2("setY(", &val1.render(), ", ", &val2.render(), ")")
            },
            EvaluatorExpression::SetZ { vector: val1, z: val2 } => {
                wrap2("setZ(", &val1.render(), ", ", &val2.render(), ")")
            },
            EvaluatorExpression::OutputV(val1) => wrap1("outputV(", &val1.render(), ")"),
            EvaluatorExpression::Output(val1) => wrap1("output(", &val1.render(), ")"),
            EvaluatorExpression::GetX(val1) => wrap1("(", &val1.render(), ").x"),
            EvaluatorExpression::GetY(val1) => wrap1("(", &val1.render(), ").y"),
            EvaluatorExpression::GetZ(val1) => wrap1("(", &val1.render(), ").z"),
            EvaluatorExpression::Magnitude(val1) => wrap1("(", &val1.render(), ").magnitude"),
            EvaluatorExpression::SquareMagnitude(val1) => {
                wrap1("(", &val1.render(), ").sqrMagnitude")
            },
            EvaluatorExpression::RotationInverse(val1) => wrap1("(", &val1.render(), ").inverse"),
            EvaluatorExpression::Add(val1, val2) => {
                wrap2("(", &val1.render(), ") + (", &val2.render(), ")")
            },
            EvaluatorExpression::Sub(val1, val2) => {
                wrap2("(", &val1.render(), ") - (", &val2.render(), ")")
            },
            EvaluatorExpression::Cross(val1, val2) => {
                wrap2("(", &val1.render(), ") x (", &val2.render(), ")")
            },
            EvaluatorExpression::Mul(val1, val2) => {
                wrap2("(", &val1.render(), ") * (", &val2.render(), ")")
            },
            EvaluatorExpression::Div(val1, val2) => {
                wrap2("(", &val1.render(), ") / (", &val2.render(), ")")
            },
            EvaluatorExpression::Mod(val1, val2) => {
                wrap2("(", &val1.render(), ") % (", &val2.render(), ")")
            },
            EvaluatorExpression::Eq(val1, val2) => {
                wrap2("(", &val1.render(), ") = (", &val2.render(), ")")
            },
            EvaluatorExpression::Ne(val1, val2) => {
                wrap2("(", &val1.render(), ") != (", &val2.render(), ")")
            },
            EvaluatorExpression::Gt(val1, val2) => {
                wrap2("(", &val1.render(), ") > (", &val2.render(), ")")
            },
            EvaluatorExpression::Gte(val1, val2) => {
                wrap2("(", &val1.render(), ") >= (", &val2.render(), ")")
            },
            EvaluatorExpression::Lt(val1, val2) => {
                wrap2("(", &val1.render(), ") < (", &val2.render(), ")")
            },
            EvaluatorExpression::Lte(val1, val2) => {
                wrap2("(", &val1.render(), ") <= (", &val2.render(), ")")
            },
            EvaluatorExpression::Not(val1) => wrap1("!(", &val1.render(), ")"),
            EvaluatorExpression::OpAnd(val1, val2) => {
                wrap2("(", &val1.render(), ") & (", &val2.render(), ")")
            },
            EvaluatorExpression::OpOr(val1, val2) => {
                wrap2("(", &val1.render(), ") | (", &val2.render(), ")")
            },
            EvaluatorExpression::FalseCoalesce(val1, val2) => {
                wrap2("(", &val1.render(), ") or (", &val2.render(), ")")
            },
            EvaluatorExpression::Negate(val1) => wrap1("-(", &val1.render(), ")"),
        }
    }
}

/// The place at which `line` first stands in `lines`; the length of
/// `lines` if it stands nowhere.
pub open spec fn first_place(lines: Seq<LineInner>, line: LineInner) -> int
    decreases lines.len(),
{
    if lines.len() == 0 {
        0
    } else if lines[0] == line {
        0
    } else {
        1 + first_place(lines.skip(1), line)
    }
}

/// A line that stands at `i` and nowhere before has `i` as its first place.
pub proof fn lemma_first_place(lines: Seq<LineInner>, line: LineInner, i: int)
    requires
        0 <= i < lines.len(),
        lines[i] == line,
        forall|j: int| 0 <= j < i ==> lines[j] != line,
    ensures
        first_place(lines, line) == i,
    decreases i,
{
    if i > 0 {
        let rest = lines.skip(1);
        assert forall|j: int| 0 <= j < i - 1 implies rest[j] != line by {
            assert(rest[j] == lines[j + 1]);
        }
        lemma_first_place(rest, line, i - 1);
    }
}

/// The first place of a line is at most the number of lines.
pub proof fn lemma_first_place_bound(lines: Seq<LineInner>, line: LineInner)
    ensures
        0 <= first_place(lines, line) <= lines.len(),
    decreases lines.len(),
{
    if lines.len() > 0 && lines[0] != line {
        lemma_first_place_bound(lines.skip(1), line);
    }
}

/// The input lines after `line` was asked for: a line that is there keeps
/// its slot, a new one takes the next slot while one of the five is free.
pub open spec fn inputs_after(lines: Seq<LineInner>, line: LineInner) -> Seq<LineInner> {
    if lines.contains(line) || lines.len() >= 5 {
        lines
    } else {
        lines.push(line)
    }
}

/// The slot expression that asking for `line` gives: the slot that the line
/// has or takes, or nothing where the line is new and no slot is free.
pub open spec fn input_expression(lines: Seq<LineInner>, line: LineInner) -> Option<
    EvaluatorExpression,
> {
    EvaluatorExpression::slot(first_place(lines, line))
}

/// The texts of the expressions, with a comma between every two.
pub open spec fn joined(exprs: Seq<EvaluatorExpression>) -> Seq<char>
    decreases exprs.len(),
{
    if exprs.len() == 0 {
        Seq::empty()
    } else if exprs.len() == 1 {
        exprs[0].text()
    } else {
        joined(exprs.drop_last()) + ","@ + exprs.last().text()
    }
}

/// The bytes of the host's type identifier for evaluator components, in
/// the host's published notation.
pub open spec fn evaluator_type_id() -> Seq<u8> {
    seq![
        0x7cu8, 0xf3u8, 0xb7u8, 0x06u8, 0x75u8, 0x7eu8, 0x42u8, 0x8au8, 0xbbu8, 0x45u8, 0x45u8,
        0x4au8, 0x17u8, 0xedu8, 0x71u8, 0x0au8,
    ]
}

/// A component that computes one expression for each of its outputs, all
/// over the same input slots.
#[derive(Debug)]
pub struct Evaluator {
    inputs: Vec<LineInner>,
    // there is one expression for each output
    exprs: Vec<EvaluatorExpression>,
}

impl Evaluator {
    /// The lines that feed the input slots, the line of slot `a` first.
    pub closed spec fn input_lines(&self) -> Seq<LineInner> {
        self.inputs@
    }

    /// The expressions, one for each output.
    pub closed spec fn expressions(&self) -> Seq<EvaluatorExpression> {
        self.exprs@
    }

    /// No more than five input lines, each of them once, and no expression
    /// that reads a slot without an input line.
    pub open spec fn wf(&self) -> bool {
        &&& self.input_lines().len() <= 5
        &&& self.input_lines().no_duplicates()
        &&& forall|i: int|
            0 <= i < self.expressions().len() ==> (#[trigger] self.expressions()[i]).slot_bound()
                <= self.input_lines().len()
    }

    /// An evaluator without inputs and outputs.
    pub fn new() -> (eval: Self)
        ensures
            eval.wf(),
            eval.input_lines() == Seq::<LineInner>::empty(),
            eval.expressions() == Seq::<EvaluatorExpression>::empty(),
    {
        Evaluator { inputs: Vec::new(), exprs: Vec::new() }
    }

    /// Returns an expression representing the given input: the slot that
    /// the line has, or the next free slot, which the line then takes. A
    /// new line gets nothing once the five slots are taken.
    pub fn get_input(&mut self, input_line: LineInner) -> (expr: Option<EvaluatorExpression>)
        ensures
            final(self).expressions() == old(self).expressions(),
            final(self).input_lines() == inputs_after(old(self).input_lines(), input_line),
            expr == input_expression(old(self).input_lines(), input_line),
            expr.is_none() == (first_place(old(self).input_lines(), input_line) >= 5),
            expr.is_some() ==> expr.unwrap().slot_bound() <= final(self).input_lines().len(),
            old(self).wf() ==> final(self).wf(),
    {
        let n = self.inputs.len();
        let mut i: usize = 0;
        while i < n
            invariant
                n == self.inputs@.len(),
                i <= n,
                self.inputs@ == old(self).inputs@,
                self.exprs@ == old(self).exprs@,
                forall|j: int| 0 <= j < i ==> self.inputs@[j] != input_line,
            decreases n - i,
        {
            if input_line == self.inputs[i] {
                proof {
                    lemma_first_place(self.inputs@, input_line, i as int);
                    lemma_first_place_bound(self.inputs@, input_line);
                }
                return EvaluatorExpression::from_input_index(i);
            }
            i += 1;
        }
        proof {
            lemma_first_place_absent(self.inputs@, input_line);
            lemma_first_place_bound(self.inputs@, input_line);
        }
        let expr = EvaluatorExpression::from_input_index(n);
        if expr.is_some() {
            self.inputs.push(input_line);
            proof {
                let before = old(self).inputs@;
                let now = self.inputs@;
                if old(self).wf() {
                    assert forall|i: int, j: int|
                        0 <= i < now.len() && 0 <= j < now.len() && i != j implies now[i]
                        != now[j] by {
                        if i < before.len() {
                            assert(now[i] == before[i]);
                            assert(before[i] != input_line);
                        }
                        if j < before.len() {
                            assert(now[j] == before[j]);
                            assert(before[j] != input_line);
                        }
                    }
                    assert forall|i: int| 0 <= i < self.exprs@.len() implies (#[trigger] self
                        .expressions()[i]).slot_bound() <= now.len() by {
                        assert(old(self).expressions()[i].slot_bound() <= before.len());
                    }
                }
            }
        }
        expr
    }

    /// Adds an output that computes `expr`.
    pub(crate) fn push_expression(&mut self, expr: EvaluatorExpression)
        requires
            old(self).wf(),
            expr.slot_bound() <= old(self).input_lines().len(),
        ensures
            final(self).wf(),
            final(self).input_lines() == old(self).input_lines(),
            final(self).expressions() == old(self).expressions().push(expr),
    {
        self.exprs.push(expr);
        proof {
            let before = old(self).exprs@;
            assert forall|i: int| 0 <= i < self.exprs@.len() implies (#[trigger] self
                .expressions()[i]).slot_bound() <= self.inputs@.len() by {
                if i < before.len() {
                    assert(self.exprs@[i] == before[i]);
                    assert(old(self).expressions()[i].slot_bound() <= self.inputs@.len());
                } else {
                    assert(self.exprs@[i] == expr);
                }
            }
        }
    }

    /// The host's type identifier for evaluator components, in the host's
    /// published notation.
    pub fn ftd_uuid(&self) -> (id: Guid)
        ensures
            id@ == evaluator_type_id(),
    {
        let id = Guid::from_bytes(
            [
                0x7c, 0xf3, 0xb7, 0x06, 0x75, 0x7e, 0x42, 0x8a, 0xbb, 0x45, 0x45, 0x4a, 0x17, 0xed,
                0x71, 0x0a,
            ],
        );
        assert(id@ =~= evaluator_type_id());
        id
    }

    /// The component's own section: one text entry that holds the
    /// expressions, with a comma between every two.
    pub fn section_data(&self) -> (section: SectionData)
        ensures
            section.wf(),
            section.ids() == seq![0u32],
            section.entry_views() == seq![EntryView::String(joined(self.expressions()))],
    {
        let mut expr_string = String::new();
        let n = self.exprs.len();
        let mut i: usize = 0;
        assert(self.exprs@.take(0) =~= Seq::<EvaluatorExpression>::empty());
        while i < n
            invariant
                n == self.exprs@.len(),
                i <= n,
                expr_string@ == joined(self.exprs@.take(i as int)),
            decreases n - i,
        {
            if i != 0 {
                expr_string.append(",");
            }
            let text = self.exprs[i].render();
            expr_string.append(text.as_str());
            proof {
                let now = self.exprs@.take(i + 1);
                assert(now.drop_last() =~= self.exprs@.take(i as int));
                assert(now.last() == self.exprs@[i as int]);
                if i == 0 {
                    assert(expr_string@ =~= now[0].text());
                }
            }
            i += 1;
        }
        assert(self.exprs@.take(n as int) =~= self.exprs@);
        let section = SectionData::new().with_entry(0, DataEntry::String(expr_string));
        assert(section.ids() =~= seq![0u32]);
        assert(section.entry_views() =~= seq![EntryView::String(joined(self.expressions()))]);
        section
    }

    /// The number of outputs: one for each expression.
    pub fn num_outputs(&self) -> (n: usize)
        ensures
            n == self.expressions().len(),
    {
        self.exprs.len()
    }

    /// The expression of the output at place `index`.
    pub fn expression(&self, index: usize) -> (expr: &EvaluatorExpression)
        requires
            index < self.expressions().len(),
        ensures
            *expr == self.expressions()[index as int],
    {
        &self.exprs[index]
    }

    /// The lines that feed the input slots.
    pub fn inputs(&self) -> (lines: &[LineInner])
        ensures
            lines@ == self.input_lines(),
    {
        self.inputs.as_slice()
    }
}

impl Default for Evaluator {
    /// An evaluator without inputs and outputs.
    fn default() -> (eval: Self)
        ensures
            eval.wf(),
            eval.input_lines() == Seq::<LineInner>::empty(),
            eval.expressions() == Seq::<EvaluatorExpression>::empty(),
    {
        Evaluator::new()
    }
}

/// A line that stands nowhere in `lines` has the length of `lines` as its
/// first place.
pub proof fn lemma_first_place_absent(lines: Seq<LineInner>, line: LineInner)
    requires
        !lines.contains(line),
    ensures
        first_place(lines, line) == lines.len(),
    decreases lines.len(),
{
    if lines.len() > 0 {
        let rest = lines.skip(1);
        assert(lines[0] != line);
        assert forall|j: int| 0 <= j < rest.len() implies rest[j] != line by {
            assert(rest[j] == lines[j + 1]);
        }
        lemma_first_place_absent(rest, line);
    }
}

/// A line that stands in `lines` has its first place within `lines`, and
/// stands there.
pub proof fn lemma_first_place_present(lines: Seq<LineInner>, line: LineInner)
    requires
        lines.contains(line),
    ensures
        0 <= first_place(lines, line) < lines.len(),
        lines[first_place(lines, line)] == line,
    decreases lines.len(),
{
    if lines[0] != line {
        let rest = lines.skip(1);
        let i = choose|i: int| 0 <= i < lines.len() && lines[i] == line;
        assert(rest[i - 1] == line);
        lemma_first_place_present(rest, line);
    }
}

/// The operators of one operand that the builder offers.
#[derive(Debug, Clone, Copy, PartialEq, Eq, Structural)]
pub enum UnaryOp {
    Sin,
    Cos,
    Tan,
    Sqrt,
    Asin,
    Acos,
    Atan,
    Exp,
    Log,
    Abs,
    Sign,
    Round,
    Floor,
    Ceil,
    MaxV,
    MinV,
    FromEularV,
    ToEularV,
    Angle,
    Axis,
    GetX,
    GetY,
    GetZ,
    Magnitude,
    SquareMagnitude,
    RotationInverse,
    Not,
    Negate,
}

/// The operators of two operands that the builder offers.
#[derive(Debug, Clone, Copy, PartialEq, Eq, Structural)]
pub enum BinaryOp {
    Atan2,
    Pow,
    Max2,
    Min2,
    MakeRotationBetween,
    AngleBetween,
    SetX,
    SetY,
    SetZ,
    Add,
    Sub,
    Cross,
    Mul,
    Div,
    Mod,
    Eq,
    Ne,
    Gt,
    Gte,
    Lt,
    Lte,
    OpAnd,
    OpOr,
    FalseCoalesce,
}

/// The operators of three operands that the builder offers.
#[derive(Debug, Clone, Copy, PartialEq, Eq, Structural)]
pub enum TernaryOp {
    Max3,
    Min3,
    If,
    Vector,
    FromEuler,
}

impl UnaryOp {
    /// The expression that applies the operator to its operands.
    pub open spec fn apply(self, a: EvaluatorExpression) -> EvaluatorExpression {
        match self {
            UnaryOp::Sin => EvaluatorExpression::Sin(Box::new(a)),
            UnaryOp::Cos => EvaluatorExpression::Cos(Box::new(a)),
            UnaryOp::Tan => EvaluatorExpression::Tan(Box::new(a)),
            UnaryOp::Sqrt => EvaluatorExpression::Sqrt(Box::new(a)),
            UnaryOp::Asin => EvaluatorExpression::Asin(Box::new(a)),
            UnaryOp::Acos => EvaluatorExpression::Acos(Box::new(a)),
            UnaryOp::Atan => EvaluatorExpression::Atan(Box::new(a)),
            UnaryOp::Exp => EvaluatorExpression::Exp(Box::new(a)),
            UnaryOp::Log => EvaluatorExpression::Log(Box::new(a)),
            UnaryOp::Abs => EvaluatorExpression::Abs(Box::new(a)),
            UnaryOp::Sign => EvaluatorExpression::Sign(Box::new(a)),
            UnaryOp::Round => EvaluatorExpression::Round(Box::new(a)),
            UnaryOp::Floor => EvaluatorExpression::Floor(Box::new(a)),
            UnaryOp::Ceil => EvaluatorExpression::Ceil(Box::new(a)),
            UnaryOp::MaxV => EvaluatorExpression::MaxV(Box::new(a)),
            UnaryOp::MinV => EvaluatorExpression::MinV(Box::new(a)),
            UnaryOp::FromEularV => EvaluatorExpression::FromEularV(Box::new(a)),
            UnaryOp::ToEularV => EvaluatorExpression::ToEularV(Box::new(a)),
            UnaryOp::Angle => EvaluatorExpression::Angle(Box::new(a)),
            UnaryOp::Axis => EvaluatorExpression::Axis(Box::new(a)),
            UnaryOp::GetX => EvaluatorExpression::GetX(Box::new(a)),
            UnaryOp::GetY => EvaluatorExpression::GetY(Box::new(a)),
            UnaryOp::GetZ => EvaluatorExpression::GetZ(Box::new(a)),
            UnaryOp::Magnitude => EvaluatorExpression::Magnitude(Box::new(a)),
            UnaryOp::SquareMagnitude => EvaluatorExpression::SquareMagnitude(Box::new(a)),
            UnaryOp::RotationInverse => EvaluatorExpression::RotationInverse(Box::new(a)),
            UnaryOp::Not => EvaluatorExpression::Not(Box::new(a)),
            UnaryOp::Negate => EvaluatorExpression::Negate(Box::new(a)),
        }
    }

    /// Builds the expression that applies the operator to its operands.
    pub fn build(self, a: EvaluatorExpression) -> (expr: EvaluatorExpression)
        ensures
            expr == self.apply(a),
            expr.slot_bound() == a.slot_bound(),
    {
        match self {
            UnaryOp::Sin => EvaluatorExpression::Sin(Box::new(a)),
            UnaryOp::Cos => EvaluatorExpression::Cos(Box::new(a)),
            UnaryOp::Tan => EvaluatorExpression::Tan(Box::new(a)),
            UnaryOp::Sqrt => EvaluatorExpression::Sqrt(Box::new(a)),
            UnaryOp::Asin => EvaluatorExpression::Asin(Box::new(a)),
            UnaryOp::Acos => EvaluatorExpression::Acos(Box::new(a)),
            UnaryOp::Atan => EvaluatorExpression::Atan(Box::new(a)),
            UnaryOp::Exp => EvaluatorExpression::Exp(Box::new(a)),
            UnaryOp::Log => EvaluatorExpression::Log(Box::new(a)),
            UnaryOp::Abs => EvaluatorExpression::Abs(Box::new(a)),
            UnaryOp::Sign => EvaluatorExpression::Sign(Box::new(a)),
            UnaryOp::Round => EvaluatorExpression::Round(Box::new(a)),
            UnaryOp::Floor => EvaluatorExpression::Floor(Box::new(a)),
            UnaryOp::Ceil => EvaluatorExpression::Ceil(Box::new(a)),
            UnaryOp::MaxV => EvaluatorExpression::MaxV(Box::new(a)),
            UnaryOp::MinV => EvaluatorExpression::MinV(Box::new(a)),
            UnaryOp::FromEularV => EvaluatorExpression::FromEularV(Box::new(a)),
            UnaryOp::ToEularV => EvaluatorExpression::ToEularV(Box::new(a)),
            UnaryOp::Angle => EvaluatorExpression::Angle(Box::new(a)),
            UnaryOp::Axis => EvaluatorExpression::Axis(Box::new(a)),
            UnaryOp::GetX => EvaluatorExpression::GetX(Box::new(a)),
            UnaryOp::GetY => EvaluatorExpression::GetY(Box::new(a)),
            UnaryOp::GetZ => EvaluatorExpression::GetZ(Box::new(a)),
            UnaryOp::Magnitude => EvaluatorExpression::Magnitude(Box::new(a)),
            UnaryOp::SquareMagnitude => EvaluatorExpression::SquareMagnitude(Box::new(a)),
            UnaryOp::RotationInverse => EvaluatorExpression::RotationInverse(Box::new(a)),
            UnaryOp::Not => EvaluatorExpression::Not(Box::new(a)),
            UnaryOp::Negate => EvaluatorExpression::Negate(Box::new(a)),
        }
    }
}

impl BinaryOp {
    /// The expression that applies the operator to its operands.
    pub open spec fn apply(
        self,
        a: EvaluatorExpression,
        b: EvaluatorExpression,
    ) -> EvaluatorExpression {
        match self {
            BinaryOp::Atan2 => EvaluatorExpression::Atan2(Box::new(a), Box::new(b)),
            BinaryOp::Pow => EvaluatorExpression::Pow(Box::new(a), Box::new(b)),
            BinaryOp::Max2 => EvaluatorExpression::Max2(Box::new(a), Box::new(b)),
            BinaryOp::Min2 => EvaluatorExpression::Min2(Box::new(a), Box::new(b)),
            BinaryOp::MakeRotationBetween => EvaluatorExpression::MakeRotationBetween {
                from_vector: Box::new(a),
                to_vector: Box::new(b),
            },
            BinaryOp::AngleBetween => EvaluatorExpression::AngleBetween {
                from_vector: Box::new(a),
                to_vector: Box::new(b),
            },
            BinaryOp::SetX => EvaluatorExpression::SetX { vector: Box::new(a), x: Box::new(b) },
            BinaryOp::SetY => EvaluatorExpression::SetY { vector: Box::new(a), y: Box::new(b) },
            BinaryOp::SetZ => EvaluatorExpression::SetZ { vector: Box::new(a), z: Box::new(b) },
            BinaryOp::Add => EvaluatorExpression::Add(Box::new(a), Box::new(b)),
            BinaryOp::Sub => EvaluatorExpression::Sub(Box::new(a), Box::new(b)),
            BinaryOp::Cross => EvaluatorExpression::Cross(Box::new(a), Box::new(b)),
            BinaryOp::Mul => EvaluatorExpression::Mul(Box::new(a), Box::new(b)),
            BinaryOp::Div => EvaluatorExpression::Div(Box::new(a), Box::new(b)),
            BinaryOp::Mod => EvaluatorExpression::Mod(Box::new(a), Box::new(b)),
            BinaryOp::Eq => EvaluatorExpression::Eq(Box::new(a), Box::new(b)),
            BinaryOp::Ne => EvaluatorExpression::Ne(Box::new(a), Box::new(b)),
            BinaryOp::Gt => EvaluatorExpression::Gt(Box::new(a), Box::new(b)),
            BinaryOp::Gte => EvaluatorExpression::Gte(Box::new(a), Box::new(b)),
            BinaryOp::Lt => EvaluatorExpression::Lt(Box::new(a), Box::new(b)),
            BinaryOp::Lte => EvaluatorExpression::Lte(Box::new(a), Box::new(b)),
            BinaryOp::OpAnd => EvaluatorExpression::OpAnd(Box::new(a), Box::new(b)),
            BinaryOp::OpOr => EvaluatorExpression::OpOr(Box::new(a), Box::new(b)),
            BinaryOp::FalseCoalesce => EvaluatorExpression::FalseCoalesce(Box::new(a), Box::new(b)),
        }
    }

    /// Builds the expression that applies the operator to its operands.
    pub fn build(self, a: EvaluatorExpression, b: EvaluatorExpression) -> (expr:
        EvaluatorExpression)
        ensures
            expr == self.apply(a, b),
            expr.slot_bound() == larger(a.slot_bound(), b.slot_bound()),
    {
        match self {
            BinaryOp::Atan2 => EvaluatorExpression::Atan2(Box::new(a), Box::new(b)),
            BinaryOp::Pow => EvaluatorExpression::Pow(Box::new(a), Box::new(b)),
            BinaryOp::Max2 => EvaluatorExpression::Max2(Box::new(a), Box::new(b)),
            BinaryOp::Min2 => EvaluatorExpression::Min2(Box::new(a), Box::new(b)),
            BinaryOp::MakeRotationBetween => EvaluatorExpression::MakeRotationBetween {
                from_vector: Box::new(a),
                to_vector: Box::new(b),
            },
            BinaryOp::AngleBetween => EvaluatorExpression::AngleBetween {
                from_vector: Box::new(a),
                to_vector: Box::new(b),
            },
            BinaryOp::SetX => EvaluatorExpression::SetX { vector: Box::new(a), x: Box::new(b) },
            BinaryOp::SetY => EvaluatorExpression::SetY { vector: Box::new(a), y: Box::new(b) },
            BinaryOp::SetZ => EvaluatorExpression::SetZ { vector: Box::new(a), z: Box::new(b) },
            BinaryOp::Add => EvaluatorExpression::Add(Box::new(a), Box::new(b)),
            BinaryOp::Sub => EvaluatorExpression::Sub(Box::new(a), Box::new(b)),
            BinaryOp::Cross => EvaluatorExpression::Cross(Box::new(a), Box::new(b)),
            BinaryOp::Mul => EvaluatorExpression::Mul(Box::new(a), Box::new(b)),
            BinaryOp::Div => EvaluatorExpression::Div(Box::new(a), Box::new(b)),
            BinaryOp::Mod => EvaluatorExpression::Mod(Box::new(a), Box::new(b)),
            BinaryOp::Eq => EvaluatorExpression::Eq(Box::new(a), Box::new(b)),
            BinaryOp::Ne => EvaluatorExpression::Ne(Box::new(a), Box::new(b)),
            BinaryOp::Gt => EvaluatorExpression::Gt(Box::new(a), Box::new(b)),
            BinaryOp::Gte => EvaluatorExpression::Gte(Box::new(a), Box::new(b)),
            BinaryOp::Lt => EvaluatorExpression::Lt(Box::new(a), Box::new(b)),
            BinaryOp::Lte => EvaluatorExpression::Lte(Box::new(a), Box::new(b)),
            BinaryOp::OpAnd => EvaluatorExpression::OpAnd(Box::new(a), Box::new(b)),
            BinaryOp::OpOr => EvaluatorExpression::OpOr(Box::new(a), Box::new(b)),
            BinaryOp::FalseCoalesce => EvaluatorExpression::FalseCoalesce(Box::new(a), Box::new(b)),
        }
    }
}

impl TernaryOp {
    /// The expression that applies the operator to its operands.
    pub open spec fn apply(
        self,
        a: EvaluatorExpression,
        b: EvaluatorExpression,
        c: EvaluatorExpression,
    ) -> EvaluatorExpression {
        match self {
            TernaryOp::Max3 => EvaluatorExpression::Max3(Box::new(a), Box::new(b), Box::new(c)),
            TernaryOp::Min3 => EvaluatorExpression::Min3(Box::new(a), Box::new(b), Box::new(c)),
            TernaryOp::If => EvaluatorExpression::If {
                condition: Box::new(a),
                true_value: Box::new(b),
                false_value: Box::new(c),
            },
            TernaryOp::Vector => EvaluatorExpression::Vector(Box::new(a), Box::new(b), Box::new(c)),
            TernaryOp::FromEuler => EvaluatorExpression::FromEuler {
                pitch: Box::new(a),
                yaw: Box::new(b),
                roll: Box::new(c),
            },
        }
    }

    /// Builds the expression that applies the operator to its operands.
    pub fn build(
        self,
        a: EvaluatorExpression,
        b: EvaluatorExpression,
        c: EvaluatorExpression,
    ) -> (expr: EvaluatorExpression)
        ensures
            expr == self.apply(a, b, c),
            expr.slot_bound() == larger(a.slot_bound(), larger(b.slot_bound(), c.slot_bound())),
    {
        match self {
            TernaryOp::Max3 => EvaluatorExpression::Max3(Box::new(a), Box::new(b), Box::new(c)),
            TernaryOp::Min3 => EvaluatorExpression::Min3(Box::new(a), Box::new(b), Box::new(c)),
            TernaryOp::If => EvaluatorExpression::If {
                condition: Box::new(a),
                true_value: Box::new(b),
                false_value: Box::new(c),
            },
            TernaryOp::Vector => EvaluatorExpression::Vector(Box::new(a), Box::new(b), Box::new(c)),
            TernaryOp::FromEuler => EvaluatorExpression::FromEuler {
                pitch: Box::new(a),
                yaw: Box::new(b),
                roll: Box::new(c),
            },
        }
    }
}

} // verus!
