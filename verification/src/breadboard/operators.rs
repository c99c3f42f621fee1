//! The builder calls that add an evaluator component: one operator over one
//! to three handles, or a vector of three literals.

use vstd::prelude::*;
use super::evaluator::{
    first_place, input_expression, inputs_after, lemma_first_place_absent,
    lemma_first_place_bound, lemma_first_place_present, BinaryOp, Evaluator, EvaluatorExpression,
    FloatLiteral, TernaryOp, UnaryOp,
};
use super::line_value::{BNumber, BQuaternion, BString, BVector3, Line, LineInner, LineValue};
use super::{is_output, Breadboard, Component};

verus! {

/// The input lines of an expression over the lines `a` and `b`: one slot
/// where they are the same line, else `a` in the first slot and `b` in the
/// second.
pub open spec fn slots2(a: LineInner, b: LineInner) -> Seq<LineInner> {
    inputs_after(seq![a], b)
}

/// The input lines of an expression over the lines `a`, `b` and `c`: each
/// distinct line once, in the order in which it first comes.
pub open spec fn slots3(a: LineInner, b: LineInner, c: LineInner) -> Seq<LineInner> {
    inputs_after(slots2(a, b), c)
}

/// The slot expression for `line` as the next operand of an expression
/// whose earlier operands took the slots `lines`.
pub open spec fn operand(lines: Seq<LineInner>, line: LineInner) -> EvaluatorExpression {
    match input_expression(lines, line) {
        Some(expr) => expr,
        None => EvaluatorExpression::InputE,
    }
}

/// The expression of `op` over the line `a`, which has the first slot.
pub open spec fn unary_expression(op: UnaryOp, a: LineInner) -> EvaluatorExpression {
    op.apply(EvaluatorExpression::InputA)
}

/// The expression of `op` over the lines `a` and `b`.
pub open spec fn binary_expression(
    op: BinaryOp,
    a: LineInner,
    b: LineInner,
) -> EvaluatorExpression {
    op.apply(EvaluatorExpression::InputA, operand(seq![a], b))
}

/// The expression of `op` over the lines `a`, `b` and `c`.
pub open spec fn ternary_expression(
    op: TernaryOp,
    a: LineInner,
    b: LineInner,
    c: LineInner,
) -> EvaluatorExpression {
    op.apply(EvaluatorExpression::InputA, operand(seq![a], b), operand(slots2(a, b), c))
}

/// Whether `component` is an evaluator with one output that computes `expr`
/// over the input lines `inputs`.
pub open spec fn computes(
    component: Component,
    inputs: Seq<LineInner>,
    expr: EvaluatorExpression,
) -> bool {
    component matches Component::Evaluator(eval) && eval.input_lines() == inputs
        && eval.expressions() == seq![expr]
}

/// The same line as both operands takes one slot, and both operands read
/// that slot.
pub proof fn lemma_same_line_one_slot(op: BinaryOp, a: LineInner)
    ensures
        slots2(a, a) == seq![a],
        binary_expression(op, a, a) == op.apply(
            EvaluatorExpression::InputA,
            EvaluatorExpression::InputA,
        ),
{
    assert(seq![a][0] == a);
    assert(seq![a].contains(a));
}

/// Two different lines take two slots, in the order of the operands.
pub proof fn lemma_two_lines_two_slots(op: BinaryOp, a: LineInner, b: LineInner)
    requires
        a != b,
    ensures
        slots2(a, b) == seq![a, b],
        binary_expression(op, a, b) == op.apply(
            EvaluatorExpression::InputA,
            EvaluatorExpression::InputB,
        ),
{
    let one = seq![a];
    assert(!one.contains(b)) by {
        if one.contains(b) {
            let i = choose|i: int| 0 <= i < one.len() && one[i] == b;
            assert(one[i] == a);
        }
    }
    assert(one.push(b) =~= seq![a, b]);
    lemma_first_place_absent(one, b);
}

/// A line that is not among five taken slots gets no slot, and the slots
/// stay as they are.
pub proof fn lemma_sixth_line_refused(lines: Seq<LineInner>, line: LineInner)
    requires
        lines.len() >= 5,
        !lines.contains(line),
    ensures
        input_expression(lines, line) is None,
        inputs_after(lines, line) == lines,
{
    lemma_first_place_absent(lines, line);
}

/// A line that has a slot keeps it: asking for it again takes no new slot.
pub proof fn lemma_known_line_keeps_slot(lines: Seq<LineInner>, line: LineInner)
    requires
        lines.contains(line),
    ensures
        inputs_after(lines, line) == lines,
        first_place(lines, line) < lines.len(),
        lines[first_place(lines, line)] == line,
{
    lemma_first_place_present(lines, line);
}

/// Every line among the slots after `line` was asked for is `line` or was
/// among the slots before.
proof fn lemma_inputs_after_members(lines: Seq<LineInner>, line: LineInner, j: int)
    requires
        0 <= j < inputs_after(lines, line).len(),
    ensures
        inputs_after(lines, line)[j] == line || (j < lines.len() && inputs_after(lines, line)[j]
            == lines[j]),
{
}

impl Breadboard {
    /// Adds an evaluator that computes `op` over `val1`.
    pub(crate) fn evaluator_expr<A: LineValue, T: LineValue>(
        &mut self,
        val1: Line<A>,
        op: UnaryOp,
    ) -> (line: Line<T>)
        requires
            old(self).wf(),
            old(self).accepts(val1),
        ensures
            final(self).wf(),
            final(self).grown_from(old(self)),
            computes(final(self).newest(), seq![val1.inner()], unary_expression(op, val1.inner())),
            final(self).issued(line, 0),
            final(self).accepts(line),
    {
        let mut eval = Evaluator::new();
        let a = val1.address();
        let first = eval.get_input(a);
        proof {
            let none = Seq::<LineInner>::empty();
            assert(eval.input_lines() =~= seq![a]);
            assert(first_place(none, a) == 0);
        }
        let input_expr1 = first.unwrap();
        eval.push_expression(op.build(input_expr1));
        assert(eval.expressions() =~= seq![unary_expression(op, a)]);
        self.insert_component_with_output(Component::Evaluator(eval))
    }

    /// Adds an evaluator that computes `op` over `val1` and `val2`.
    pub(crate) fn evaluator_expr2<A: LineValue, B: LineValue, T: LineValue>(
        &mut self,
        val1: Line<A>,
        val2: Line<B>,
        op: BinaryOp,
    ) -> (line: Line<T>)
        requires
            old(self).wf(),
            old(self).accepts(val1),
            old(self).accepts(val2),
        ensures
            final(self).wf(),
            final(self).grown_from(old(self)),
            computes(
                final(self).newest(),
                slots2(val1.inner(), val2.inner()),
                binary_expression(op, val1.inner(), val2.inner()),
            ),
            final(self).issued(line, 0),
            final(self).accepts(line),
    {
        let mut eval = Evaluator::new();
        let a = val1.address();
        let b = val2.address();
        let first = eval.get_input(a);
        proof {
            let none = Seq::<LineInner>::empty();
            assert(eval.input_lines() =~= seq![a]);
            assert(first_place(none, a) == 0);
            lemma_first_place_bound(seq![a], b);
        }
        let input_expr1 = first.unwrap();
        let second = eval.get_input(b);
        let input_expr2 = second.unwrap();
        eval.push_expression(op.build(input_expr1, input_expr2));
        proof {
            assert(eval.expressions() =~= seq![binary_expression(op, a, b)]);
            assert forall|j: int| 0 <= j < eval.input_lines().len() implies is_output(
                self.components(),
                #[trigger] eval.input_lines()[j],
            ) by {
                lemma_inputs_after_members(seq![a], b, j);
            }
        }
        self.insert_component_with_output(Component::Evaluator(eval))
    }

    /// Adds an evaluator that computes `op` over `val1`, `val2` and `val3`.
    pub(crate) fn evaluator_expr3<A: LineValue, B: LineValue, C: LineValue, T: LineValue>(
        &mut self,
        val1: Line<A>,
        val2: Line<B>,
        val3: Line<C>,
        op: TernaryOp,
    ) -> (line: Line<T>)
        requires
            old(self).wf(),
            old(self).accepts(val1),
            old(self).accepts(val2),
            old(self).accepts(val3),
        ensures
            final(self).wf(),
            final(self).grown_from(old(self)),
            computes(
                final(self).newest(),
                slots3(val1.inner(), val2.inner(), val3.inner()),
                ternary_expression(op, val1.inner(), val2.inner(), val3.inner()),
            ),
            final(self).issued(line, 0),
            final(self).accepts(line),
    {
        let mut eval = Evaluator::new();
        let a = val1.address();
        let b = val2.address();
        let c = val3.address();
        let first = eval.get_input(a);
        proof {
            let none = Seq::<LineInner>::empty();
            assert(eval.input_lines() =~= seq![a]);
            assert(first_place(none, a) == 0);
            lemma_first_place_bound(seq![a], b);
        }
        let input_expr1 = first.unwrap();
        let second = eval.get_input(b);
        let input_expr2 = second.unwrap();
        proof {
            lemma_first_place_bound(slots2(a, b), c);
        }
        let third = eval.get_input(c);
        let input_expr3 = third.unwrap();
        eval.push_expression(op.build(input_expr1, input_expr2, input_expr3));
        proof {
            assert(eval.expressions() =~= seq![ternary_expression(op, a, b, c)]);
            assert forall|j: int| 0 <= j < eval.input_lines().len() implies is_output(
                self.components(),
                #[trigger] eval.input_lines()[j],
            ) by {
                lemma_inputs_after_members(slots2(a, b), c, j);
                if j < slots2(a, b).len() {
                    lemma_inputs_after_members(seq![a], b, j);
                }
            }
        }
        self.insert_component_with_output(Component::Evaluator(eval))
    }

    /// Adds a component that gives the vector with the literal components
    /// `x`, `y` and `z`. It has no inputs.
    pub fn new_vector(&mut self, x: FloatLiteral, y: FloatLiteral, z: FloatLiteral) -> (line: Line<
        BVector3,
    >)
        requires
            old(self).wf(),
        ensures
            final(self).wf(),
            final(self).grown_from(old(self)),
            computes(
                final(self).newest(),
                Seq::empty(),
                EvaluatorExpression::Vector(
                    Box::new(EvaluatorExpression::Float(x)),
                    Box::new(EvaluatorExpression::Float(y)),
                    Box::new(EvaluatorExpression::Float(z)),
                ),
            ),
            final(self).issued(line, 0),
            final(self).accepts(line),
    {
        let expr = EvaluatorExpression::Vector(
            Box::new(EvaluatorExpression::Float(x)),
            Box::new(EvaluatorExpression::Float(y)),
            Box::new(EvaluatorExpression::Float(z)),
        );
        let mut eval = Evaluator::new();
        proof {
            reveal_with_fuel(EvaluatorExpression::slot_bound, 2);
        }
        eval.push_expression(expr);
        assert(eval.expressions() =~= seq![expr]);
        self.insert_component_with_output(Component::Evaluator(eval))
    }

    /// Adds a component that gives the sine of `angle`.
    pub fn sin(&mut self, angle: Line<BNumber>) -> (line: Line<BNumber>)
        requires
            old(self).wf(),
            old(self).accepts(angle),
        ensures
            final(self).wf(),
            final(self).grown_from(old(self)),
            computes(
                final(self).newest(),
                seq![angle.inner()],
                unary_expression(UnaryOp::Sin, angle.inner()),
            ),
            final(self).issued(line, 0),
            final(self).accepts(line),
    {
        self.evaluator_expr(angle, UnaryOp::Sin)
    }

    /// Adds a component that gives the cosine of `angle`.
    pub fn cos(&mut self, angle: Line<BNumber>) -> (line: Line<BNumber>)
        requires
            old(self).wf(),
            old(self).accepts(angle),
        ensures
            final(self).wf(),
            final(self).grown_from(old(self)),
            computes(
                final(self).newest(),
                seq![angle.inner()],
                unary_expression(UnaryOp::Cos, angle.inner()),
            ),
            final(self).issued(line, 0),
            final(self).accepts(line),
    {
        self.evaluator_expr(angle, UnaryOp::Cos)
    }

    /// Adds a component that gives the tangent of `angle`.
    pub fn tan(&mut self, angle: Line<BNumber>) -> (line: Line<BNumber>)
        requires
            old(self).wf(),
            old(self).accepts(angle),
        ensures
            final(self).wf(),
            final(self).grown_from(old(self)),
            computes(
                final(self).newest(),
                seq![angle.inner()],
                unary_expression(UnaryOp::Tan, angle.inner()),
            ),
            final(self).issued(line, 0),
            final(self).accepts(line),
    {
        self.evaluator_expr(angle, UnaryOp::Tan)
    }

    /// Adds a component that gives the square root of `num`.
    pub fn sqrt(&mut self, num: Line<BNumber>) -> (line: Line<BNumber>)
        requires
            old(self).wf(),
            old(self).accepts(num),
        ensures
            final(self).wf(),
            final(self).grown_from(old(self)),
            computes(
                final(self).newest(),
                seq![num.inner()],
                unary_expression(UnaryOp::Sqrt, num.inner()),
            ),
            final(self).issued(line, 0),
            final(self).accepts(line),
    {
        self.evaluator_expr(num, UnaryOp::Sqrt)
    }

    /// Adds a component that gives the arc sine of `num`.
    pub fn asin(&mut self, num: Line<BNumber>) -> (line: Line<BNumber>)
        requires
            old(self).wf(),
            old(self).accepts(num),
        ensures
            final(self).wf(),
            final(self).grown_from(old(self)),
            computes(
                final(self).newest(),
                seq![num.inner()],
                unary_expression(UnaryOp::Asin, num.inner()),
            ),
            final(self).issued(line, 0),
            final(self).accepts(line),
    {
        self.evaluator_expr(num, UnaryOp::Asin)
    }

    /// Adds a component that gives the arc cosine of `num`.
    pub fn acos(&mut self, num: Line<BNumber>) -> (line: Line<BNumber>)
        requires
            old(self).wf(),
            old(self).accepts(num),
        ensures
            final(self).wf(),
            final(self).grown_from(old(self)),
            computes(
                final(self).newest(),
                seq![num.inner()],
                unary_expression(UnaryOp::Acos, num.inner()),
            ),
            final(self).issued(line, 0),
            final(self).accepts(line),
    {
        self.evaluator_expr(num, UnaryOp::Acos)
    }

    /// Adds a component that gives the arc tangent of `num`.
    pub fn atan(&mut self, num: Line<BNumber>) -> (line: Line<BNumber>)
        requires
            old(self).wf(),
            old(self).accepts(num),
        ensures
            final(self).wf(),
            final(self).grown_from(old(self)),
            computes(
                final(self).newest(),
                seq![num.inner()],
                unary_expression(UnaryOp::Atan, num.inner()),
            ),
            final(self).issued(line, 0),
            final(self).accepts(line),
    {
        self.evaluator_expr(num, UnaryOp::Atan)
    }

    /// Adds a component that gives the two-argument arc tangent of `x` and `y`.
    pub fn atan2(&mut self, x: Line<BNumber>, y: Line<BNumber>) -> (line: Line<BNumber>)
        requires
            old(self).wf(),
            old(self).accepts(x),
            old(self).accepts(y),
        ensures
            final(self).wf(),
            final(self).grown_from(old(self)),
            computes(
                final(self).newest(),
                slots2(x.inner(), y.inner()),
                binary_expression(BinaryOp::Atan2, x.inner(), y.inner()),
            ),
            final(self).issued(line, 0),
            final(self).accepts(line),
    {
        self.evaluator_expr2(x, y, BinaryOp::Atan2)
    }

    /// Adds a component that gives e to the power of `exponent`.
    pub fn exp(&mut self, exponent: Line<BNumber>) -> (line: Line<BNumber>)
        requires
            old(self).wf(),
            old(self).accepts(exponent),
        ensures
            final(self).wf(),
            final(self).grown_from(old(self)),
            computes(
                final(self).newest(),
                seq![exponent.inner()],
                unary_expression(UnaryOp::Exp, exponent.inner()),
            ),
            final(self).issued(line, 0),
            final(self).accepts(line),
    {
        self.evaluator_expr(exponent, UnaryOp::Exp)
    }

    /// Adds a component that gives the logarithm of `num`.
    pub fn log(&mut self, num: Line<BNumber>) -> (line: Line<BNumber>)
        requires
            old(self).wf(),
            old(self).accepts(num),
        ensures
            final(self).wf(),
            final(self).grown_from(old(self)),
            computes(
                final(self).newest(),
                seq![num.inner()],
                unary_expression(UnaryOp::Log, num.inner()),
            ),
            final(self).issued(line, 0),
            final(self).accepts(line),
    {
        self.evaluator_expr(num, UnaryOp::Log)
    }

    /// Adds a component that gives `base` to the power of `exponent`.
    pub fn pow(&mut self, base: Line<BNumber>, exponent: Line<BNumber>) -> (line: Line<BNumber>)
        requires
            old(self).wf(),
            old(self).accepts(base),
            old(self).accepts(exponent),
        ensures
            final(self).wf(),
            final(self).grown_from(old(self)),
            computes(
                final(self).newest(),
                slots2(base.inner(), exponent.inner()),
                binary_expression(BinaryOp::Pow, base.inner(), exponent.inner()),
            ),
            final(self).issued(line, 0),
            final(self).accepts(line),
    {
        self.evaluator_expr2(base, exponent, BinaryOp::Pow)
    }

    /// Adds a component that gives the absolute value of `num`.
    pub fn abs(&mut self, num: Line<BNumber>) -> (line: Line<BNumber>)
        requires
            old(self).wf(),
            old(self).accepts(num),
        ensures
            final(self).wf(),
            final(self).grown_from(old(self)),
            computes(
                final(self).newest(),
                seq![num.inner()],
                unary_expression(UnaryOp::Abs, num.inner()),
            ),
            final(self).issued(line, 0),
            final(self).accepts(line),
    {
        self.evaluator_expr(num, UnaryOp::Abs)
    }

    /// Adds a component that gives the absolute value of `vec`, component by component.
    pub fn absv(&mut self, vec: Line<BVector3>) -> (line: Line<BVector3>)
        requires
            old(self).wf(),
            old(self).accepts(vec),
        ensures
            final(self).wf(),
            final(self).grown_from(old(self)),
            computes(
                final(self).newest(),
                seq![vec.inner()],
                unary_expression(UnaryOp::Abs, vec.inner()),
            ),
            final(self).issued(line, 0),
            final(self).accepts(line),
    {
        self.evaluator_expr(vec, UnaryOp::Abs)
    }

    /// Adds a component that gives the sign of `num`.
    pub fn sign(&mut self, num: Line<BNumber>) -> (line: Line<BNumber>)
        requires
            old(self).wf(),
            old(self).accepts(num),
        ensures
            final(self).wf(),
            final(self).grown_from(old(self)),
            computes(
                final(self).newest(),
                seq![num.inner()],
                unary_expression(UnaryOp::Sign, num.inner()),
            ),
            final(self).issued(line, 0),
            final(self).accepts(line),
    {
        self.evaluator_expr(num, UnaryOp::Sign)
    }

    /// Adds a component that gives `num` rounded to the nearest whole number.
    pub fn round(&mut self, num: Line<BNumber>) -> (line: Line<BNumber>)
        requires
            old(self).wf(),
            old(self).accepts(num),
        ensures
            final(self).wf(),
            final(self).grown_from(old(self)),
            computes(
                final(self).newest(),
                seq![num.inner()],
                unary_expression(UnaryOp::Round, num.inner()),
            ),
            final(self).issued(line, 0),
            final(self).accepts(line),
    {
        self.evaluator_expr(num, UnaryOp::Round)
    }

    /// Adds a component that gives `num` rounded down.
    pub fn floor(&mut self, num: Line<BNumber>) -> (line: Line<BNumber>)
        requires
            old(self).wf(),
            old(self).accepts(num),
        ensures
            final(self).wf(),
            final(self).grown_from(old(self)),
            computes(
                final(self).newest(),
                seq![num.inner()],
                unary_expression(UnaryOp::Floor, num.inner()),
            ),
            final(self).issued(line, 0),
            final(self).accepts(line),
    {
        self.evaluator_expr(num, UnaryOp::Floor)
    }

    /// Adds a component that gives `num` rounded up.
    pub fn ceil(&mut self, num: Line<BNumber>) -> (line: Line<BNumber>)
        requires
            old(self).wf(),
            old(self).accepts(num),
        ensures
            final(self).wf(),
            final(self).grown_from(old(self)),
            computes(
                final(self).newest(),
                seq![num.inner()],
                unary_expression(UnaryOp::Ceil, num.inner()),
            ),
            final(self).issued(line, 0),
            final(self).accepts(line),
    {
        self.evaluator_expr(num, UnaryOp::Ceil)
    }

    /// Adds a component that gives the larger of `a` and `b`.
    pub fn max2(&mut self, a: Line<BNumber>, b: Line<BNumber>) -> (line: Line<BNumber>)
        requires
            old(self).wf(),
            old(self).accepts(a),
            old(self).accepts(b),
        ensures
            final(self).wf(),
            final(self).grown_from(old(self)),
            computes(
                final(self).newest(),
                slots2(a.inner(), b.inner()),
                binary_expression(BinaryOp::Max2, a.inner(), b.inner()),
            ),
            final(self).issued(line, 0),
            final(self).accepts(line),
    {
        self.evaluator_expr2(a, b, BinaryOp::Max2)
    }

    /// Adds a component that gives the largest of `a`, `b` and `c`.
    pub fn max3(
        &mut self,
        a: Line<BNumber>,
        b: Line<BNumber>,
        c: Line<BNumber>,
    ) -> (line: Line<BNumber>)
        requires
            old(self).wf(),
            old(self).accepts(a),
            old(self).accepts(b),
            old(self).accepts(c),
        ensures
            final(self).wf(),
            final(self).grown_from(old(self)),
            computes(
                final(self).newest(),
                slots3(a.inner(), b.inner(), c.inner()),
                ternary_expression(TernaryOp::Max3, a.inner(), b.inner(), c.inner()),
            ),
            final(self).issued(line, 0),
            final(self).accepts(line),
    {
        self.evaluator_expr3(a, b, c, TernaryOp::Max3)
    }

    /// Adds a component that gives the largest component of `vec`.
    pub fn maxv(&mut self, vec: Line<BVector3>) -> (line: Line<BNumber>)
        requires
            old(self).wf(),
            old(self).accepts(vec),
        ensures
            final(self).wf(),
            final(self).grown_from(old(self)),
            computes(
                final(self).newest(),
                seq![vec.inner()],
                unary_expression(UnaryOp::MaxV, vec.inner()),
            ),
            final(self).issued(line, 0),
            final(self).accepts(line),
    {
        self.evaluator_expr(vec, UnaryOp::MaxV)
    }

    /// Adds a component that gives the smaller of `a` and `b`.
    pub fn min2(&mut self, a: Line<BNumber>, b: Line<BNumber>) -> (line: Line<BNumber>)
        requires
            old(self).wf(),
            old(self).accepts(a),
            old(self).accepts(b),
        ensures
            final(self).wf(),
            final(self).grown_from(old(self)),
            computes(
                final(self).newest(),
                slots2(a.inner(), b.inner()),
                binary_expression(BinaryOp::Min2, a.inner(), b.inner()),
            ),
            final(self).issued(line, 0),
            final(self).accepts(line),
    {
        self.evaluator_expr2(a, b, BinaryOp::Min2)
    }

    /// Adds a component that gives the smallest of `a`, `b` and `c`.
    pub fn min3(
        &mut self,
        a: Line<BNumber>,
        b: Line<BNumber>,
        c: Line<BNumber>,
    ) -> (line: Line<BNumber>)
        requires
            old(self).wf(),
            old(self).accepts(a),
            old(self).accepts(b),
            old(self).accepts(c),
        ensures
            final(self).wf(),
            final(self).grown_from(old(self)),
            computes(
                final(self).newest(),
                slots3(a.inner(), b.inner(), c.inner()),
                ternary_expression(TernaryOp::Min3, a.inner(), b.inner(), c.inner()),
            ),
            final(self).issued(line, 0),
            final(self).accepts(line),
    {
        self.evaluator_expr3(a, b, c, TernaryOp::Min3)
    }

    /// Adds a component that gives the smallest component of `vec`.
    pub fn minv(&mut self, vec: Line<BVector3>) -> (line: Line<BNumber>)
        requires
            old(self).wf(),
            old(self).accepts(vec),
        ensures
            final(self).wf(),
            final(self).grown_from(old(self)),
            computes(
                final(self).newest(),
                seq![vec.inner()],
                unary_expression(UnaryOp::MinV, vec.inner()),
            ),
            final(self).issued(line, 0),
            final(self).accepts(line),
    {
        self.evaluator_expr(vec, UnaryOp::MinV)
    }

    /// Adds a component that gives `true_value` where `condition` is not zero, else `false_value`.
    pub fn b_if<T: LineValue>(
        &mut self,
        condition: Line<BNumber>,
        true_value: Line<T>,
        false_value: Line<T>,
    ) -> (line: Line<T>)
        requires
            old(self).wf(),
            old(self).accepts(condition),
            old(self).accepts(true_value),
            old(self).accepts(false_value),
        ensures
            final(self).wf(),
            final(self).grown_from(old(self)),
            computes(
                final(self).newest(),
                slots3(condition.inner(), true_value.inner(), false_value.inner()),
                ternary_expression(
                    TernaryOp::If,
                    condition.inner(),
                    true_value.inner(),
                    false_value.inner(),
                ),
            ),
            final(self).issued(line, 0),
            final(self).accepts(line),
    {
        self.evaluator_expr3(condition, true_value, false_value, TernaryOp::If)
    }

    /// Adds a component that gives the vector with the components `x`, `y` and `z`.
    pub fn vector(
        &mut self,
        x: Line<BNumber>,
        y: Line<BNumber>,
        z: Line<BNumber>,
    ) -> (line: Line<BVector3>)
        requires
            old(self).wf(),
            old(self).accepts(x),
            old(self).accepts(y),
            old(self).accepts(z),
        ensures
            final(self).wf(),
            final(self).grown_from(old(self)),
            computes(
                final(self).newest(),
                slots3(x.inner(), y.inner(), z.inner()),
                ternary_expression(TernaryOp::Vector, x.inner(), y.inner(), z.inner()),
            ),
            final(self).issued(line, 0),
            final(self).accepts(line),
    {
        self.evaluator_expr3(x, y, z, TernaryOp::Vector)
    }

    /// Adds a component that gives the rotation that turns `from_vector` into `to_vector`.
    pub fn new_rotation_between(
        &mut self,
        from_vector: Line<BVector3>,
        to_vector: Line<BVector3>,
    ) -> (line: Line<BQuaternion>)
        requires
            old(self).wf(),
            old(self).accepts(from_vector),
            old(self).accepts(to_vector),
        ensures
            final(self).wf(),
            final(self).grown_from(old(self)),
            computes(
                final(self).newest(),
                slots2(from_vector.inner(), to_vector.inner()),
                binary_expression(
                    BinaryOp::MakeRotationBetween,
                    from_vector.inner(),
                    to_vector.inner(),
                ),
            ),
            final(self).issued(line, 0),
            final(self).accepts(line),
    {
        self.evaluator_expr2(from_vector, to_vector, BinaryOp::MakeRotationBetween)
    }

    /// Adds a component that gives the rotation with the angles `pitch`, `yaw` and `roll`.
    pub fn rotation_from_euler_angles(
        &mut self,
        pitch: Line<BNumber>,
        yaw: Line<BNumber>,
        roll: Line<BNumber>,
    ) -> (line: Line<BQuaternion>)
        requires
            old(self).wf(),
            old(self).accepts(pitch),
            old(self).accepts(yaw),
            old(self).accepts(roll),
        ensures
            final(self).wf(),
            final(self).grown_from(old(self)),
            computes(
                final(self).newest(),
                slots3(pitch.inner(), yaw.inner(), roll.inner()),
                ternary_expression(TernaryOp::FromEuler, pitch.inner(), yaw.inner(), roll.inner()),
            ),
            final(self).issued(line, 0),
            final(self).accepts(line),
    {
        self.evaluator_expr3(pitch, yaw, roll, TernaryOp::FromEuler)
    }

    /// Adds a component that gives the rotation with the components of `vector` as its angles.
    pub fn rotation_from_euler_vector(
        &mut self,
        vector: Line<BVector3>,
    ) -> (line: Line<BQuaternion>)
        requires
            old(self).wf(),
            old(self).accepts(vector),
        ensures
            final(self).wf(),
            final(self).grown_from(old(self)),
            computes(
                final(self).newest(),
                seq![vector.inner()],
                unary_expression(UnaryOp::FromEularV, vector.inner()),
            ),
            final(self).issued(line, 0),
            final(self).accepts(line),
    {
        self.evaluator_expr(vector, UnaryOp::FromEularV)
    }

    /// Adds a component that gives the angles of `rotation`, as a vector.
    pub fn rotation_to_euler_vector(
        &mut self,
        rotation: Line<BQuaternion>,
    ) -> (line: Line<BVector3>)
        requires
            old(self).wf(),
            old(self).accepts(rotation),
        ensures
            final(self).wf(),
            final(self).grown_from(old(self)),
            computes(
                final(self).newest(),
                seq![rotation.inner()],
                unary_expression(UnaryOp::ToEularV, rotation.inner()),
            ),
            final(self).issued(line, 0),
            final(self).accepts(line),
    {
        self.evaluator_expr(rotation, UnaryOp::ToEularV)
    }

    /// Adds a component that gives the angle of `rotation`.
    pub fn rotation_angle(&mut self, rotation: Line<BQuaternion>) -> (line: Line<BNumber>)
        requires
            old(self).wf(),
            old(self).accepts(rotation),
        ensures
            final(self).wf(),
            final(self).grown_from(old(self)),
            computes(
                final(self).newest(),
                seq![rotation.inner()],
                unary_expression(UnaryOp::Angle, rotation.inner()),
            ),
            final(self).issued(line, 0),
            final(self).accepts(line),
    {
        self.evaluator_expr(rotation, UnaryOp::Angle)
    }

    /// Adds a component that gives the axis of `rotation`.
    pub fn rotation_axis(&mut self, rotation: Line<BQuaternion>) -> (line: Line<BVector3>)
        requires
            old(self).wf(),
            old(self).accepts(rotation),
        ensures
            final(self).wf(),
            final(self).grown_from(old(self)),
            computes(
                final(self).newest(),
                seq![rotation.inner()],
                unary_expression(UnaryOp::Axis, rotation.inner()),
            ),
            final(self).issued(line, 0),
            final(self).accepts(line),
    {
        self.evaluator_expr(rotation, UnaryOp::Axis)
    }

    /// Adds a component that gives the angle between `from_vector` and `to_vector`.
    pub fn angle_between(
        &mut self,
        from_vector: Line<BVector3>,
        to_vector: Line<BVector3>,
    ) -> (line: Line<BNumber>)
        requires
            old(self).wf(),
            old(self).accepts(from_vector),
            old(self).accepts(to_vector),
        ensures
            final(self).wf(),
            final(self).grown_from(old(self)),
            computes(
                final(self).newest(),
                slots2(from_vector.inner(), to_vector.inner()),
                binary_expression(BinaryOp::AngleBetween, from_vector.inner(), to_vector.inner()),
            ),
            final(self).issued(line, 0),
            final(self).accepts(line),
    {
        self.evaluator_expr2(from_vector, to_vector, BinaryOp::AngleBetween)
    }

    /// Adds a component that gives `vector` with `x` as its first component.
    pub fn set_x(&mut self, vector: Line<BVector3>, x: Line<BNumber>) -> (line: Line<BVector3>)
        requires
            old(self).wf(),
            old(self).accepts(vector),
            old(self).accepts(x),
        ensures
            final(self).wf(),
            final(self).grown_from(old(self)),
            computes(
                final(self).newest(),
                slots2(vector.inner(), x.inner()),
                binary_expression(BinaryOp::SetX, vector.inner(), x.inner()),
            ),
            final(self).issued(line, 0),
            final(self).accepts(line),
    {
        self.evaluator_expr2(vector, x, BinaryOp::SetX)
    }

    /// Adds a component that gives `vector` with `y` as its second component.
    pub fn set_y(&mut self, vector: Line<BVector3>, y: Line<BNumber>) -> (line: Line<BVector3>)
        requires
            old(self).wf(),
            old(self).accepts(vector),
            old(self).accepts(y),
        ensures
            final(self).wf(),
            final(self).grown_from(old(self)),
            computes(
                final(self).newest(),
                slots2(vector.inner(), y.inner()),
                binary_expression(BinaryOp::SetY, vector.inner(), y.inner()),
            ),
            final(self).issued(line, 0),
            final(self).accepts(line),
    {
        self.evaluator_expr2(vector, y, BinaryOp::SetY)
    }

    /// Adds a component that gives `vector` with `z` as its third component.
    pub fn set_z(&mut self, vector: Line<BVector3>, z: Line<BNumber>) -> (line: Line<BVector3>)
        requires
            old(self).wf(),
            old(self).accepts(vector),
            old(self).accepts(z),
        ensures
            final(self).wf(),
            final(self).grown_from(old(self)),
            computes(
                final(self).newest(),
                slots2(vector.inner(), z.inner()),
                binary_expression(BinaryOp::SetZ, vector.inner(), z.inner()),
            ),
            final(self).issued(line, 0),
            final(self).accepts(line),
    {
        self.evaluator_expr2(vector, z, BinaryOp::SetZ)
    }

    /// Adds a component that gives the first component of `vector`.
    pub fn x(&mut self, vector: Line<BVector3>) -> (line: Line<BNumber>)
        requires
            old(self).wf(),
            old(self).accepts(vector),
        ensures
            final(self).wf(),
            final(self).grown_from(old(self)),
            computes(
                final(self).newest(),
                seq![vector.inner()],
                unary_expression(UnaryOp::GetX, vector.inner()),
            ),
            final(self).issued(line, 0),
            final(self).accepts(line),
    {
        self.evaluator_expr(vector, UnaryOp::GetX)
    }

    /// Adds a component that gives the second component of `vector`.
    pub fn y(&mut self, vector: Line<BVector3>) -> (line: Line<BNumber>)
        requires
            old(self).wf(),
            old(self).accepts(vector),
        ensures
            final(self).wf(),
            final(self).grown_from(old(self)),
            computes(
                final(self).newest(),
                seq![vector.inner()],
                unary_expression(UnaryOp::GetY, vector.inner()),
            ),
            final(self).issued(line, 0),
            final(self).accepts(line),
    {
        self.evaluator_expr(vector, UnaryOp::GetY)
    }

    /// Adds a component that gives the third component of `vector`.
    pub fn z(&mut self, vector: Line<BVector3>) -> (line: Line<BNumber>)
        requires
            old(self).wf(),
            old(self).accepts(vector),
        ensures
            final(self).wf(),
            final(self).grown_from(old(self)),
            computes(
                final(self).newest(),
                seq![vector.inner()],
                unary_expression(UnaryOp::GetZ, vector.inner()),
            ),
            final(self).issued(line, 0),
            final(self).accepts(line),
    {
        self.evaluator_expr(vector, UnaryOp::GetZ)
    }

    /// Adds a component that gives the length of `vector`.
    pub fn magnitude(&mut self, vector: Line<BVector3>) -> (line: Line<BNumber>)
        requires
            old(self).wf(),
            old(self).accepts(vector),
        ensures
            final(self).wf(),
            final(self).grown_from(old(self)),
            computes(
                final(self).newest(),
                seq![vector.inner()],
                unary_expression(UnaryOp::Magnitude, vector.inner()),
            ),
            final(self).issued(line, 0),
            final(self).accepts(line),
    {
        self.evaluator_expr(vector, UnaryOp::Magnitude)
    }

    /// Adds a component that gives the square of the length of `vector`.
    pub fn square_magnitude(&mut self, vector: Line<BVector3>) -> (line: Line<BNumber>)
        requires
            old(self).wf(),
            old(self).accepts(vector),
        ensures
            final(self).wf(),
            final(self).grown_from(old(self)),
            computes(
                final(self).newest(),
                seq![vector.inner()],
                unary_expression(UnaryOp::SquareMagnitude, vector.inner()),
            ),
            final(self).issued(line, 0),
            final(self).accepts(line),
    {
        self.evaluator_expr(vector, UnaryOp::SquareMagnitude)
    }

    /// Adds a component that gives the inverse of `rotation`.
    pub fn rotation_inverse(&mut self, rotation: Line<BQuaternion>) -> (line: Line<BQuaternion>)
        requires
            old(self).wf(),
            old(self).accepts(rotation),
        ensures
            final(self).wf(),
            final(self).grown_from(old(self)),
            computes(
                final(self).newest(),
                seq![rotation.inner()],
                unary_expression(UnaryOp::RotationInverse, rotation.inner()),
            ),
            final(self).issued(line, 0),
            final(self).accepts(line),
    {
        self.evaluator_expr(rotation, UnaryOp::RotationInverse)
    }

    /// Adds a component that gives the sum of `a` and `b`.
    pub fn add(&mut self, a: Line<BNumber>, b: Line<BNumber>) -> (line: Line<BNumber>)
        requires
            old(self).wf(),
            old(self).accepts(a),
            old(self).accepts(b),
        ensures
            final(self).wf(),
            final(self).grown_from(old(self)),
            computes(
                final(self).newest(),
                slots2(a.inner(), b.inner()),
                binary_expression(BinaryOp::Add, a.inner(), b.inner()),
            ),
            final(self).issued(line, 0),
            final(self).accepts(line),
    {
        self.evaluator_expr2(a, b, BinaryOp::Add)
    }

    /// Adds a component that gives the sum of the vectors `a` and `b`.
    pub fn addv(&mut self, a: Line<BVector3>, b: Line<BVector3>) -> (line: Line<BVector3>)
        requires
            old(self).wf(),
            old(self).accepts(a),
            old(self).accepts(b),
        ensures
            final(self).wf(),
            final(self).grown_from(old(self)),
            computes(
                final(self).newest(),
                slots2(a.inner(), b.inner()),
                binary_expression(BinaryOp::Add, a.inner(), b.inner()),
            ),
            final(self).issued(line, 0),
            final(self).accepts(line),
    {
        self.evaluator_expr2(a, b, BinaryOp::Add)
    }

    /// Adds a component that gives the text `a` followed by the text `b`.
    pub fn concat(&mut self, a: Line<BString>, b: Line<BString>) -> (line: Line<BString>)
        requires
            old(self).wf(),
            old(self).accepts(a),
            old(self).accepts(b),
        ensures
            final(self).wf(),
            final(self).grown_from(old(self)),
            computes(
                final(self).newest(),
                slots2(a.inner(), b.inner()),
                binary_expression(BinaryOp::Add, a.inner(), b.inner()),
            ),
            final(self).issued(line, 0),
            final(self).accepts(line),
    {
        self.evaluator_expr2(a, b, BinaryOp::Add)
    }

    /// Adds a component that gives the difference of `a` and `b`.
    pub fn sub(&mut self, a: Line<BNumber>, b: Line<BNumber>) -> (line: Line<BNumber>)
        requires
            old(self).wf(),
            old(self).accepts(a),
            old(self).accepts(b),
        ensures
            final(self).wf(),
            final(self).grown_from(old(self)),
            computes(
                final(self).newest(),
                slots2(a.inner(), b.inner()),
                binary_expression(BinaryOp::Sub, a.inner(), b.inner()),
            ),
            final(self).issued(line, 0),
            final(self).accepts(line),
    {
        self.evaluator_expr2(a, b, BinaryOp::Sub)
    }

    /// Adds a component that gives the difference of the vectors `a` and `b`.
    pub fn subv(&mut self, a: Line<BVector3>, b: Line<BVector3>) -> (line: Line<BVector3>)
        requires
            old(self).wf(),
            old(self).accepts(a),
            old(self).accepts(b),
        ensures
            final(self).wf(),
            final(self).grown_from(old(self)),
            computes(
                final(self).newest(),
                slots2(a.inner(), b.inner()),
                binary_expression(BinaryOp::Sub, a.inner(), b.inner()),
            ),
            final(self).issued(line, 0),
            final(self).accepts(line),
    {
        self.evaluator_expr2(a, b, BinaryOp::Sub)
    }

    /// Adds a component that gives the text `a` without the first occurrence of the text `b`.
    pub fn remove_instances(&mut self, a: Line<BString>, b: Line<BString>) -> (line: Line<BString>)
        requires
            old(self).wf(),
            old(self).accepts(a),
            old(self).accepts(b),
        ensures
            final(self).wf(),
            final(self).grown_from(old(self)),
            computes(
                final(self).newest(),
                slots2(a.inner(), b.inner()),
                binary_expression(BinaryOp::Sub, a.inner(), b.inner()),
            ),
            final(self).issued(line, 0),
            final(self).accepts(line),
    {
        self.evaluator_expr2(a, b, BinaryOp::Sub)
    }

    /// Adds a component that gives the cross product of `a` and `b`.
    pub fn cross(&mut self, a: Line<BVector3>, b: Line<BVector3>) -> (line: Line<BVector3>)
        requires
            old(self).wf(),
            old(self).accepts(a),
            old(self).accepts(b),
        ensures
            final(self).wf(),
            final(self).grown_from(old(self)),
            computes(
                final(self).newest(),
                slots2(a.inner(), b.inner()),
                binary_expression(BinaryOp::Cross, a.inner(), b.inner()),
            ),
            final(self).issued(line, 0),
            final(self).accepts(line),
    {
        self.evaluator_expr2(a, b, BinaryOp::Cross)
    }

    /// Adds a component that gives the product of `a` and `b`.
    pub fn mul(&mut self, a: Line<BNumber>, b: Line<BNumber>) -> (line: Line<BNumber>)
        requires
            old(self).wf(),
            old(self).accepts(a),
            old(self).accepts(b),
        ensures
            final(self).wf(),
            final(self).grown_from(old(self)),
            computes(
                final(self).newest(),
                slots2(a.inner(), b.inner()),
                binary_expression(BinaryOp::Mul, a.inner(), b.inner()),
            ),
            final(self).issued(line, 0),
            final(self).accepts(line),
    {
        self.evaluator_expr2(a, b, BinaryOp::Mul)
    }

    /// Adds a component that gives the dot product of `a` and `b`.
    pub fn dot(&mut self, a: Line<BVector3>, b: Line<BVector3>) -> (line: Line<BNumber>)
        requires
            old(self).wf(),
            old(self).accepts(a),
            old(self).accepts(b),
        ensures
            final(self).wf(),
            final(self).grown_from(old(self)),
            computes(
                final(self).newest(),
                slots2(a.inner(), b.inner()),
                binary_expression(BinaryOp::Mul, a.inner(), b.inner()),
            ),
            final(self).issued(line, 0),
            final(self).accepts(line),
    {
        self.evaluator_expr2(a, b, BinaryOp::Mul)
    }

    /// Adds a component that gives the vector `a` rotated by `b`.
    pub fn rotate(&mut self, a: Line<BVector3>, b: Line<BQuaternion>) -> (line: Line<BVector3>)
        requires
            old(self).wf(),
            old(self).accepts(a),
            old(self).accepts(b),
        ensures
            final(self).wf(),
            final(self).grown_from(old(self)),
            computes(
                final(self).newest(),
                slots2(a.inner(), b.inner()),
                binary_expression(BinaryOp::Mul, a.inner(), b.inner()),
            ),
            final(self).issued(line, 0),
            final(self).accepts(line),
    {
        self.evaluator_expr2(a, b, BinaryOp::Mul)
    }

    /// Adds a component that gives the vector `b` scaled by `a`.
    pub fn scale(&mut self, a: Line<BNumber>, b: Line<BVector3>) -> (line: Line<BVector3>)
        requires
            old(self).wf(),
            old(self).accepts(a),
            old(self).accepts(b),
        ensures
            final(self).wf(),
            final(self).grown_from(old(self)),
            computes(
                final(self).newest(),
                slots2(a.inner(), b.inner()),
                binary_expression(BinaryOp::Mul, a.inner(), b.inner()),
            ),
            final(self).issued(line, 0),
            final(self).accepts(line),
    {
        self.evaluator_expr2(a, b, BinaryOp::Mul)
    }

    /// Adds a component that gives the rotation `b` followed by the rotation `a`.
    pub fn compose_rotations(
        &mut self,
        a: Line<BQuaternion>,
        b: Line<BQuaternion>,
    ) -> (line: Line<BQuaternion>)
        requires
            old(self).wf(),
            old(self).accepts(a),
            old(self).accepts(b),
        ensures
            final(self).wf(),
            final(self).grown_from(old(self)),
            computes(
                final(self).newest(),
                slots2(a.inner(), b.inner()),
                binary_expression(BinaryOp::Mul, a.inner(), b.inner()),
            ),
            final(self).issued(line, 0),
            final(self).accepts(line),
    {
        self.evaluator_expr2(a, b, BinaryOp::Mul)
    }

    /// Adds a component that gives the quotient of `a` and `b`.
    pub fn div(&mut self, a: Line<BNumber>, b: Line<BNumber>) -> (line: Line<BNumber>)
        requires
            old(self).wf(),
            old(self).accepts(a),
            old(self).accepts(b),
        ensures
            final(self).wf(),
            final(self).grown_from(old(self)),
            computes(
                final(self).newest(),
                slots2(a.inner(), b.inner()),
                binary_expression(BinaryOp::Div, a.inner(), b.inner()),
            ),
            final(self).issued(line, 0),
            final(self).accepts(line),
    {
        self.evaluator_expr2(a, b, BinaryOp::Div)
    }

    /// Adds a component that gives the vector `a` divided by `b`.
    pub fn scaler_div(&mut self, a: Line<BVector3>, b: Line<BNumber>) -> (line: Line<BVector3>)
        requires
            old(self).wf(),
            old(self).accepts(a),
            old(self).accepts(b),
        ensures
            final(self).wf(),
            final(self).grown_from(old(self)),
            computes(
                final(self).newest(),
                slots2(a.inner(), b.inner()),
                binary_expression(BinaryOp::Div, a.inner(), b.inner()),
            ),
            final(self).issued(line, 0),
            final(self).accepts(line),
    {
        self.evaluator_expr2(a, b, BinaryOp::Div)
    }

    /// Adds a component that gives the remainder of `a` divided by `b`.
    pub fn modulo(&mut self, a: Line<BNumber>, b: Line<BNumber>) -> (line: Line<BNumber>)
        requires
            old(self).wf(),
            old(self).accepts(a),
            old(self).accepts(b),
        ensures
            final(self).wf(),
            final(self).grown_from(old(self)),
            computes(
                final(self).newest(),
                slots2(a.inner(), b.inner()),
                binary_expression(BinaryOp::Mod, a.inner(), b.inner()),
            ),
            final(self).issued(line, 0),
            final(self).accepts(line),
    {
        self.evaluator_expr2(a, b, BinaryOp::Mod)
    }

    /// Adds a component that gives whether `a` equals `b`, as 1 or 0.
    pub fn eq(&mut self, a: Line<BNumber>, b: Line<BNumber>) -> (line: Line<BNumber>)
        requires
            old(self).wf(),
            old(self).accepts(a),
            old(self).accepts(b),
        ensures
            final(self).wf(),
            final(self).grown_from(old(self)),
            computes(
                final(self).newest(),
                slots2(a.inner(), b.inner()),
                binary_expression(BinaryOp::Eq, a.inner(), b.inner()),
            ),
            final(self).issued(line, 0),
            final(self).accepts(line),
    {
        self.evaluator_expr2(a, b, BinaryOp::Eq)
    }

    /// Adds a component that gives whether `a` differs from `b`, as 1 or 0.
    pub fn ne(&mut self, a: Line<BNumber>, b: Line<BNumber>) -> (line: Line<BNumber>)
        requires
            old(self).wf(),
            old(self).accepts(a),
            old(self).accepts(b),
        ensures
            final(self).wf(),
            final(self).grown_from(old(self)),
            computes(
                final(self).newest(),
                slots2(a.inner(), b.inner()),
                binary_expression(BinaryOp::Ne, a.inner(), b.inner()),
            ),
            final(self).issued(line, 0),
            final(self).accepts(line),
    {
        self.evaluator_expr2(a, b, BinaryOp::Ne)
    }

    /// Adds a component that gives whether `a` is above `b`, as 1 or 0.
    pub fn gt(&mut self, a: Line<BNumber>, b: Line<BNumber>) -> (line: Line<BNumber>)
        requires
            old(self).wf(),
            old(self).accepts(a),
            old(self).accepts(b),
        ensures
            final(self).wf(),
            final(self).grown_from(old(self)),
            computes(
                final(self).newest(),
                slots2(a.inner(), b.inner()),
                binary_expression(BinaryOp::Gt, a.inner(), b.inner()),
            ),
            final(self).issued(line, 0),
            final(self).accepts(line),
    {
        self.evaluator_expr2(a, b, BinaryOp::Gt)
    }

    /// Adds a component that gives whether `a` is `b` or above, as 1 or 0.
    pub fn gte(&mut self, a: Line<BNumber>, b: Line<BNumber>) -> (line: Line<BNumber>)
        requires
            old(self).wf(),
            old(self).accepts(a),
            old(self).accepts(b),
        ensures
            final(self).wf(),
            final(self).grown_from(old(self)),
            computes(
                final(self).newest(),
                slots2(a.inner(), b.inner()),
                binary_expression(BinaryOp::Gte, a.inner(), b.inner()),
            ),
            final(self).issued(line, 0),
            final(self).accepts(line),
    {
        self.evaluator_expr2(a, b, BinaryOp::Gte)
    }

    /// Adds a component that gives whether `a` is below `b`, as 1 or 0.
    pub fn lt(&mut self, a: Line<BNumber>, b: Line<BNumber>) -> (line: Line<BNumber>)
        requires
            old(self).wf(),
            old(self).accepts(a),
            old(self).accepts(b),
        ensures
            final(self).wf(),
            final(self).grown_from(old(self)),
            computes(
                final(self).newest(),
                slots2(a.inner(), b.inner()),
                binary_expression(BinaryOp::Lt, a.inner(), b.inner()),
            ),
            final(self).issued(line, 0),
            final(self).accepts(line),
    {
        self.evaluator_expr2(a, b, BinaryOp::Lt)
    }

    /// Adds a component that gives whether `a` is `b` or below, as 1 or 0.
    pub fn lte(&mut self, a: Line<BNumber>, b: Line<BNumber>) -> (line: Line<BNumber>)
        requires
            old(self).wf(),
            old(self).accepts(a),
            old(self).accepts(b),
        ensures
            final(self).wf(),
            final(self).grown_from(old(self)),
            computes(
                final(self).newest(),
                slots2(a.inner(), b.inner()),
                binary_expression(BinaryOp::Lte, a.inner(), b.inner()),
            ),
            final(self).issued(line, 0),
            final(self).accepts(line),
    {
        self.evaluator_expr2(a, b, BinaryOp::Lte)
    }

    /// Adds a component that gives 1 where `n` is zero, else 0.
    pub fn not(&mut self, n: Line<BNumber>) -> (line: Line<BNumber>)
        requires
            old(self).wf(),
            old(self).accepts(n),
        ensures
            final(self).wf(),
            final(self).grown_from(old(self)),
            computes(
                final(self).newest(),
                seq![n.inner()],
                unary_expression(UnaryOp::Not, n.inner()),
            ),
            final(self).issued(line, 0),
            final(self).accepts(line),
    {
        self.evaluator_expr(n, UnaryOp::Not)
    }

    /// Adds a component that gives whether neither `a` nor `b` is zero, as 1 or 0.
    pub fn and(&mut self, a: Line<BNumber>, b: Line<BNumber>) -> (line: Line<BNumber>)
        requires
            old(self).wf(),
            old(self).accepts(a),
            old(self).accepts(b),
        ensures
            final(self).wf(),
            final(self).grown_from(old(self)),
            computes(
                final(self).newest(),
                slots2(a.inner(), b.inner()),
                binary_expression(BinaryOp::OpAnd, a.inner(), b.inner()),
            ),
            final(self).issued(line, 0),
            final(self).accepts(line),
    {
        self.evaluator_expr2(a, b, BinaryOp::OpAnd)
    }

    /// Adds a component that gives whether `a` or `b` is not zero, as 1 or 0.
    pub fn or(&mut self, a: Line<BNumber>, b: Line<BNumber>) -> (line: Line<BNumber>)
        requires
            old(self).wf(),
            old(self).accepts(a),
            old(self).accepts(b),
        ensures
            final(self).wf(),
            final(self).grown_from(old(self)),
            computes(
                final(self).newest(),
                slots2(a.inner(), b.inner()),
                binary_expression(BinaryOp::OpOr, a.inner(), b.inner()),
            ),
            final(self).issued(line, 0),
            final(self).accepts(line),
    {
        self.evaluator_expr2(a, b, BinaryOp::OpOr)
    }

    /// Adds a component that gives `a` if it is not zero, else `b`.
    pub fn false_coalesce(&mut self, a: Line<BNumber>, b: Line<BNumber>) -> (line: Line<BNumber>)
        requires
            old(self).wf(),
            old(self).accepts(a),
            old(self).accepts(b),
        ensures
            final(self).wf(),
            final(self).grown_from(old(self)),
            computes(
                final(self).newest(),
                slots2(a.inner(), b.inner()),
                binary_expression(BinaryOp::FalseCoalesce, a.inner(), b.inner()),
            ),
            final(self).issued(line, 0),
            final(self).accepts(line),
    {
        self.evaluator_expr2(a, b, BinaryOp::FalseCoalesce)
    }

    /// Adds a component that gives `n` with its sign changed.
    pub fn negate(&mut self, n: Line<BNumber>) -> (line: Line<BNumber>)
        requires
            old(self).wf(),
            old(self).accepts(n),
        ensures
            final(self).wf(),
            final(self).grown_from(old(self)),
            computes(
                final(self).newest(),
                seq![n.inner()],
                unary_expression(UnaryOp::Negate, n.inner()),
            ),
            final(self).issued(line, 0),
            final(self).accepts(line),
    {
        self.evaluator_expr(n, UnaryOp::Negate)
    }
}

impl Line<BVector3> {
    /// Adds a component to `breadboard` that gives the cross product of this vector and `rhs`.
    pub fn cross(&self, breadboard: &mut Breadboard, rhs: &Line<BVector3>) -> (line: Line<BVector3>)
        requires
            old(breadboard).wf(),
            old(breadboard).accepts(*self),
            old(breadboard).accepts(*rhs),
        ensures
            final(breadboard).wf(),
            final(breadboard).grown_from(old(breadboard)),
            computes(
                final(breadboard).newest(),
                slots2(self.inner(), rhs.inner()),
                binary_expression(BinaryOp::Cross, self.inner(), rhs.inner()),
            ),
            final(breadboard).issued(line, 0),
            final(breadboard).accepts(line),
    {
        breadboard.cross(*self, *rhs)
    }

    /// Adds a component to `breadboard` that gives the dot product of this vector and `rhs`.
    pub fn dot(&self, breadboard: &mut Breadboard, rhs: &Line<BVector3>) -> (line: Line<BNumber>)
        requires
            old(breadboard).wf(),
            old(breadboard).accepts(*self),
            old(breadboard).accepts(*rhs),
        ensures
            final(breadboard).wf(),
            final(breadboard).grown_from(old(breadboard)),
            computes(
                final(breadboard).newest(),
                slots2(self.inner(), rhs.inner()),
                binary_expression(BinaryOp::Mul, self.inner(), rhs.inner()),
            ),
            final(breadboard).issued(line, 0),
            final(breadboard).accepts(line),
    {
        breadboard.dot(*self, *rhs)
    }

    /// Adds a component to `breadboard` that gives the first component of this vector.
    pub fn x(&self, breadboard: &mut Breadboard) -> (line: Line<BNumber>)
        requires
            old(breadboard).wf(),
            old(breadboard).accepts(*self),
        ensures
            final(breadboard).wf(),
            final(breadboard).grown_from(old(breadboard)),
            computes(
                final(breadboard).newest(),
                seq![self.inner()],
                unary_expression(UnaryOp::GetX, self.inner()),
            ),
            final(breadboard).issued(line, 0),
            final(breadboard).accepts(line),
    {
        breadboard.x(*self)
    }

    /// Adds a component to `breadboard` that gives the second component of this vector.
    pub fn y(&self, breadboard: &mut Breadboard) -> (line: Line<BNumber>)
        requires
            old(breadboard).wf(),
            old(breadboard).accepts(*self),
        ensures
            final(breadboard).wf(),
            final(breadboard).grown_from(old(breadboard)),
            computes(
                final(breadboard).newest(),
                seq![self.inner()],
                unary_expression(UnaryOp::GetY, self.inner()),
            ),
            final(breadboard).issued(line, 0),
            final(breadboard).accepts(line),
    {
        breadboard.y(*self)
    }

    /// Adds a component to `breadboard` that gives the third component of this vector.
    pub fn z(&self, breadboard: &mut Breadboard) -> (line: Line<BNumber>)
        requires
            old(breadboard).wf(),
            old(breadboard).accepts(*self),
        ensures
            final(breadboard).wf(),
            final(breadboard).grown_from(old(breadboard)),
            computes(
                final(breadboard).newest(),
                seq![self.inner()],
                unary_expression(UnaryOp::GetZ, self.inner()),
            ),
            final(breadboard).issued(line, 0),
            final(breadboard).accepts(line),
    {
        breadboard.z(*self)
    }

    /// Adds a component to `breadboard` that gives the length of this vector.
    pub fn magnitude(&self, breadboard: &mut Breadboard) -> (line: Line<BNumber>)
        requires
            old(breadboard).wf(),
            old(breadboard).accepts(*self),
        ensures
            final(breadboard).wf(),
            final(breadboard).grown_from(old(breadboard)),
            computes(
                final(breadboard).newest(),
                seq![self.inner()],
                unary_expression(UnaryOp::Magnitude, self.inner()),
            ),
            final(breadboard).issued(line, 0),
            final(breadboard).accepts(line),
    {
        breadboard.magnitude(*self)
    }

    /// Adds a component to `breadboard` that gives the square of the length of this vector.
    pub fn square_magnitude(&self, breadboard: &mut Breadboard) -> (line: Line<BNumber>)
        requires
            old(breadboard).wf(),
            old(breadboard).accepts(*self),
        ensures
            final(breadboard).wf(),
            final(breadboard).grown_from(old(breadboard)),
            computes(
                final(breadboard).newest(),
                seq![self.inner()],
                unary_expression(UnaryOp::SquareMagnitude, self.inner()),
            ),
            final(breadboard).issued(line, 0),
            final(breadboard).accepts(line),
    {
        breadboard.square_magnitude(*self)
    }
}

impl Line<BQuaternion> {
    /// Adds a component to `breadboard` that gives the inverse of this rotation.
    pub fn inverse(&self, breadboard: &mut Breadboard) -> (line: Line<BQuaternion>)
        requires
            old(breadboard).wf(),
            old(breadboard).accepts(*self),
        ensures
            final(breadboard).wf(),
            final(breadboard).grown_from(old(breadboard)),
            computes(
                final(breadboard).newest(),
                seq![self.inner()],
                unary_expression(UnaryOp::RotationInverse, self.inner()),
            ),
            final(breadboard).issued(line, 0),
            final(breadboard).accepts(line),
    {
        breadboard.rotation_inverse(*self)
    }
}

/// Adds a component to `breadboard` that gives `true_value` where
/// `condition` is not zero, else `false_value`.
pub fn b_if<T: LineValue>(
    breadboard: &mut Breadboard,
    condition: &Line<BNumber>,
    true_value: &Line<T>,
    false_value: &Line<T>,
) -> (line: Line<T>)
    requires
        old(breadboard).wf(),
        old(breadboard).accepts(*condition),
        old(breadboard).accepts(*true_value),
        old(breadboard).accepts(*false_value),
    ensures
        final(breadboard).wf(),
        final(breadboard).grown_from(old(breadboard)),
        computes(
            final(breadboard).newest(),
            slots3(condition.inner(), true_value.inner(), false_value.inner()),
            ternary_expression(
                TernaryOp::If,
                condition.inner(),
                true_value.inner(),
                false_value.inner(),
            ),
        ),
        final(breadboard).issued(line, 0),
        final(breadboard).accepts(line),
{
    breadboard.b_if(*condition, *true_value, *false_value)
}

} // verus!
