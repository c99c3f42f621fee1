use ftd_breadboard::breadboard::block::ComponentPosition;
use ftd_breadboard::breadboard::evaluator::{
    render_int, render_nat, BinaryOp, Evaluator, EvaluatorExpression, FloatLiteral, TernaryOp,
    UnaryOp,
};
use ftd_breadboard::breadboard::line_value::{BNumber, BVector3, InputGroup, Line, LineInner};
use ftd_breadboard::breadboard::operators::b_if;
use ftd_breadboard::breadboard::wire_map::BreadboardWireMap;
use ftd_breadboard::breadboard::{
    AltitudeOutputType, Component, SpeedOutputType, VelocityOutputType,
};
use ftd_breadboard::float32::Float32;
use ftd_breadboard::ftd_data::{BlockData, DataEntry, SectionData, SectionId};
use ftd_breadboard::guid::Guid;
use ftd_breadboard::{find_ftd_folder, find_prefabs_folder, Breadboard, SwitchOptions};

fn f(x: f32) -> Float32 {
    Float32::from_bits(x.to_bits())
}

fn line(component_index: usize, output_index: usize) -> LineInner {
    LineInner { component_index, output_index }
}

fn boxed(e: EvaluatorExpression) -> Box<EvaluatorExpression> {
    Box::new(e)
}

fn text_of(bb: &Breadboard, index: usize) -> String {
    match bb.component(index) {
        Component::Evaluator(eval) => {
            assert_eq!(eval.num_outputs(), 1);
            eval.expression(0).render()
        }
        other => panic!("not an evaluator: {:?}", other),
    }
}

fn inputs_of(bb: &Breadboard, index: usize) -> Vec<LineInner> {
    bb.component(index).inputs()
}

fn section_of(block: &BlockData, id: u32) -> &SectionData {
    block.section(SectionId::new(id)).unwrap()
}

fn bytes_entry(section: &SectionData, id: u16) -> Vec<u8> {
    match section.entry(id) {
        Some(DataEntry::Bytes(bytes)) => bytes.clone(),
        other => panic!("no bytes under {}: {:?}", id, other),
    }
}

fn float_entry(section: &SectionData, id: u16) -> u32 {
    match section.entry(id) {
        Some(DataEntry::F32(x)) => x.to_bits(),
        other => panic!("no number under {}: {:?}", id, other),
    }
}

#[test]
fn constant_is_clamped_to_ten_thousand() {
    let mut bb = Breadboard::new();
    bb.constant(f(20000.0));
    bb.constant(f(-20000.0));
    bb.constant(f(5.0));
    bb.constant(f(10000.0));
    let stored: Vec<u32> = (0..4)
        .map(|i| match bb.component(i) {
            Component::Constant { n } => n.to_bits(),
            other => panic!("not a constant: {:?}", other),
        })
        .collect();
    assert_eq!(
        stored,
        vec![10000.0f32.to_bits(), (-10000.0f32).to_bits(), 5.0f32.to_bits(), 10000.0f32.to_bits()]
    );
}

#[test]
fn constant_returns_the_handle_of_the_new_component() {
    let mut bb = Breadboard::new();
    let first = bb.constant(f(1.0));
    let second = bb.constant(f(2.0));
    assert_eq!(first.address(), line(0, 0));
    assert_eq!(second.address(), line(1, 0));
    assert_eq!(bb.len(), 2);
    assert!(bb.verify_line(&first));
    assert!(bb.verify_line(&second));
}

#[test]
fn random_number_clamps_both_bounds() {
    let mut bb = Breadboard::new();
    bb.random_number(f(-20000.0), f(20000.0));
    bb.random_number(f(5.0), f(1.0));
    bb.random_number(f(1.0), f(2.0));
    let stored: Vec<(f32, f32)> = (0..3)
        .map(|i| match bb.component(i) {
            Component::RandomInput { min, max } => {
                (f32::from_bits(min.to_bits()), f32::from_bits(max.to_bits()))
            }
            other => panic!("not a random input: {:?}", other),
        })
        .collect();
    assert_eq!(stored, vec![(-10000.0, 10000.0), (5.0, 5.0), (1.0, 2.0)]);
}

#[test]
fn sensors_store_their_modes() {
    let mut bb = Breadboard::new();
    bb.altitude(AltitudeOutputType::TerrainAndSea);
    let p: Line<BVector3> = bb.position();
    bb.speed(SpeedOutputType::ForwardsMagnitude);
    bb.velocity(VelocityOutputType::Magnitude);
    assert_eq!(p.address(), line(1, 0));
    assert!(matches!(
        bb.component(0),
        Component::Altitude { typ: AltitudeOutputType::TerrainAndSea }
    ));
    assert!(matches!(bb.component(1), Component::Position));
    assert!(matches!(
        bb.component(2),
        Component::Speed { typ: SpeedOutputType::ForwardsMagnitude }
    ));
    assert!(matches!(
        bb.component(3),
        Component::Velocity { typ: VelocityOutputType::Magnitude }
    ));
    assert_eq!(AltitudeOutputType::SeaLevel.to_code(), 0);
    assert_eq!(AltitudeOutputType::WaveLevel.to_code(), 1);
    assert_eq!(AltitudeOutputType::TerrainLevel.to_code(), 2);
    assert_eq!(AltitudeOutputType::TerrainAndWave.to_code(), 3);
    assert_eq!(AltitudeOutputType::TerrainAndSea.to_code(), 4);
    assert_eq!(SpeedOutputType::Magnitude.to_code(), 0);
    assert_eq!(SpeedOutputType::ForwardsMagnitude.to_code(), 3);
    assert_eq!(VelocityOutputType::Magnitude.to_code(), 0);
    assert_eq!(VelocityOutputType::ForwardsMagnitude.to_code(), 3);
}

#[test]
fn target_info_has_seven_outputs() {
    let mut bb = Breadboard::new();
    bb.constant(f(0.0));
    let info = bb.target_info();
    assert_eq!(info.present.address(), line(1, 0));
    assert_eq!(info.distance.address(), line(1, 1));
    assert_eq!(info.altitude.address(), line(1, 2));
    assert_eq!(info.bearing.address(), line(1, 3));
    assert_eq!(info.position.address(), line(1, 4));
    assert_eq!(info.velocity.address(), line(1, 5));
    assert_eq!(info.volume.address(), line(1, 6));
    assert_eq!(bb.component(1).num_outputs(), 7);
    assert!(bb.verify_line(&info.volume));
    assert!(bb.has_line(line(1, 6)));
    assert!(!bb.has_line(line(1, 7)));
    assert!(!bb.has_line(line(2, 0)));
}

#[test]
fn multiply_clamps_its_multiplier_and_keeps_its_inputs() {
    let mut bb = Breadboard::new();
    let a = bb.constant(f(1.0));
    let b = bb.constant(f(2.0));
    let c = bb.constant(f(3.0));
    let out = bb.multiply(&(a, b, c), f(250.0));
    bb.multiply(&a, f(-250.0));
    bb.multiply(&vec![c, a], f(2.0));
    assert_eq!(out.address(), line(3, 0));
    match bb.component(3) {
        Component::Multiply { multiplier, inputs } => {
            assert_eq!(multiplier.to_bits(), 100.0f32.to_bits());
            assert_eq!(inputs, &vec![line(0, 0), line(1, 0), line(2, 0)]);
        }
        other => panic!("not a multiply: {:?}", other),
    }
    match bb.component(4) {
        Component::Multiply { multiplier, inputs } => {
            assert_eq!(multiplier.to_bits(), (-100.0f32).to_bits());
            assert_eq!(inputs, &vec![line(0, 0)]);
        }
        other => panic!("not a multiply: {:?}", other),
    }
    assert_eq!(inputs_of(&bb, 5), vec![line(2, 0), line(0, 0)]);
}

#[test]
fn input_groups_list_their_lines_in_order() {
    let mut bb = Breadboard::new();
    let a = bb.constant(f(1.0));
    let b = bb.constant(f(2.0));
    let addresses = |lines: Vec<Line<BNumber>>| -> Vec<LineInner> {
        lines.iter().map(|l| l.address()).collect()
    };
    assert_eq!(addresses(a.iter_inputs()), vec![line(0, 0)]);
    assert_eq!(addresses((b,).iter_inputs()), vec![line(1, 0)]);
    assert_eq!(addresses((a, b).iter_inputs()), vec![line(0, 0), line(1, 0)]);
    assert_eq!(addresses((a, b, a, b).iter_inputs()).len(), 4);
    assert_eq!(addresses((a, b, a, b, a).iter_inputs()).len(), 5);
    assert_eq!((b, a).as_vec(), vec![line(1, 0), line(0, 0)]);
    assert_eq!(vec![a, a, b].as_vec(), vec![line(0, 0), line(0, 0), line(1, 0)]);
}

#[test]
fn switch_clamps_its_options() {
    let mut bb = Breadboard::new();
    let a = bb.constant(f(1.0));
    let b = bb.constant(f(2.0));
    let defaults = SwitchOptions::default();
    assert_eq!(defaults.threshhold.to_bits(), 0.5f32.to_bits());
    assert_eq!(defaults.open_value.to_bits(), 0.0f32.to_bits());
    bb.switch(a, b, defaults);
    bb.switch(b, a, SwitchOptions { threshhold: f(1.0e9), open_value: f(-1.0e9) });
    match bb.component(2) {
        Component::Switch { inputs, threshhold, open_value } => {
            assert_eq!(inputs, &[line(0, 0), line(1, 0)]);
            assert_eq!(threshhold.to_bits(), 0.5f32.to_bits());
            assert_eq!(open_value.to_bits(), 0.0f32.to_bits());
        }
        other => panic!("not a switch: {:?}", other),
    }
    match bb.component(3) {
        Component::Switch { inputs, threshhold, open_value } => {
            assert_eq!(inputs, &[line(1, 0), line(0, 0)]);
            assert_eq!(threshhold.to_bits(), 10000.0f32.to_bits());
            assert_eq!(open_value.to_bits(), (-10000.0f32).to_bits());
        }
        other => panic!("not a switch: {:?}", other),
    }
}

#[test]
fn same_line_twice_takes_one_slot() {
    let mut bb = Breadboard::new();
    let a = bb.constant(f(1.0));
    let out = bb.add(a, a);
    assert_eq!(out.address(), line(1, 0));
    assert_eq!(inputs_of(&bb, 1), vec![line(0, 0)]);
    assert_eq!(text_of(&bb, 1), "(a) + (a)");
}

#[test]
fn different_lines_take_slots_in_order() {
    let mut bb = Breadboard::new();
    let a = bb.constant(f(1.0));
    let b = bb.constant(f(2.0));
    bb.sub(b, a);
    assert_eq!(inputs_of(&bb, 2), vec![line(1, 0), line(0, 0)]);
    assert_eq!(text_of(&bb, 2), "(a) - (b)");
}

#[test]
fn three_operands_share_slots() {
    let mut bb = Breadboard::new();
    let a = bb.constant(f(1.0));
    let b = bb.constant(f(2.0));
    let c = bb.constant(f(3.0));
    bb.max3(a, b, c);
    bb.max3(a, b, a);
    bb.max3(a, a, b);
    bb.max3(c, c, c);
    bb.b_if(a, b, c);
    assert_eq!(inputs_of(&bb, 3), vec![line(0, 0), line(1, 0), line(2, 0)]);
    assert_eq!(text_of(&bb, 3), "Max(a, b, c)");
    assert_eq!(inputs_of(&bb, 4), vec![line(0, 0), line(1, 0)]);
    assert_eq!(text_of(&bb, 4), "Max(a, b, a)");
    assert_eq!(inputs_of(&bb, 5), vec![line(0, 0), line(1, 0)]);
    assert_eq!(text_of(&bb, 5), "Max(a, a, b)");
    assert_eq!(inputs_of(&bb, 6), vec![line(2, 0)]);
    assert_eq!(text_of(&bb, 6), "Max(a, a, a)");
    assert_eq!(text_of(&bb, 7), "If(a, b, c)");
}

#[test]
fn get_input_deduplicates_and_stops_at_five() {
    let mut eval = Evaluator::new();
    assert!(matches!(eval.get_input(line(0, 0)), Some(EvaluatorExpression::InputA)));
    assert!(matches!(eval.get_input(line(0, 0)), Some(EvaluatorExpression::InputA)));
    assert_eq!(eval.inputs(), &[line(0, 0)]);
    assert!(matches!(eval.get_input(line(0, 1)), Some(EvaluatorExpression::InputB)));
    assert!(matches!(eval.get_input(line(1, 0)), Some(EvaluatorExpression::InputC)));
    assert!(matches!(eval.get_input(line(2, 0)), Some(EvaluatorExpression::InputD)));
    assert!(matches!(eval.get_input(line(3, 0)), Some(EvaluatorExpression::InputE)));
    assert_eq!(eval.inputs().len(), 5);
    assert!(eval.get_input(line(4, 0)).is_none());
    assert_eq!(eval.inputs().len(), 5);
    assert!(matches!(eval.get_input(line(1, 0)), Some(EvaluatorExpression::InputC)));
    assert!(matches!(eval.get_input(line(3, 0)), Some(EvaluatorExpression::InputE)));
    assert_eq!(
        eval.inputs(),
        &[line(0, 0), line(0, 1), line(1, 0), line(2, 0), line(3, 0)]
    );
    assert_eq!(eval.num_outputs(), 0);
}

#[test]
fn from_input_index_knows_five_slots() {
    assert!(matches!(EvaluatorExpression::from_input_index(0), Some(EvaluatorExpression::InputA)));
    assert!(matches!(EvaluatorExpression::from_input_index(4), Some(EvaluatorExpression::InputE)));
    assert!(EvaluatorExpression::from_input_index(5).is_none());
    assert!(EvaluatorExpression::from_input_index(usize::MAX).is_none());
}

#[test]
fn foreign_line_is_refused() {
    let mut x = Breadboard::new();
    let mut y = Breadboard::new();
    let from_x = x.constant(f(1.0));
    let from_y = y.constant(f(1.0));
    assert!(x.verify_line(&from_x));
    assert!(y.verify_line(&from_y));
    assert!(!y.verify_line(&from_x));
    assert!(!x.verify_line(&from_y));
    assert!(!y.verify_lines(&vec![from_y, from_x]));
    assert!(y.verify_lines(&vec![from_y, from_y]));
    assert!(!from_x.breadboard_identity().same(&from_y.breadboard_identity()));
}

#[test]
fn line_of_a_later_component_is_refused_by_a_shorter_board() {
    let mut x = Breadboard::new();
    x.constant(f(1.0));
    let second = x.constant(f(1.0));
    let y = Breadboard::new();
    assert!(!y.verify_line(&second));
}

#[test]
fn unary_operators_render_with_their_names() {
    let a = || boxed(EvaluatorExpression::InputA);
    let cases: Vec<(EvaluatorExpression, &str)> = vec![
        (EvaluatorExpression::Sin(a()), "Sin(a)"),
        (EvaluatorExpression::Cos(a()), "Cos(a)"),
        (EvaluatorExpression::Tan(a()), "Tan(a)"),
        (EvaluatorExpression::Sqrt(a()), "Sqrt(a)"),
        (EvaluatorExpression::Asin(a()), "Asin(a)"),
        (EvaluatorExpression::Acos(a()), "Acos(a)"),
        (EvaluatorExpression::Atan(a()), "Atan(a)"),
        (EvaluatorExpression::Exp(a()), "Exp(a)"),
        (EvaluatorExpression::Log(a()), "Log(a)"),
        (EvaluatorExpression::Abs(a()), "Abs(a)"),
        (EvaluatorExpression::Sign(a()), "Sign(a)"),
        (EvaluatorExpression::Round(a()), "Round(a)"),
        (EvaluatorExpression::Floor(a()), "Floor(a)"),
        (EvaluatorExpression::Ceil(a()), "Ceil(a)"),
        (EvaluatorExpression::MaxV(a()), "Max(a)"),
        (EvaluatorExpression::MinV(a()), "Min(a)"),
        (EvaluatorExpression::FromEularV(a()), "FromEuler(a)"),
        (EvaluatorExpression::ToEularV(a()), "ToEuler(a)"),
        (EvaluatorExpression::Angle(a()), "Angle(a)"),
        (EvaluatorExpression::Axis(a()), "Axis(a)"),
        (EvaluatorExpression::OutputV(a()), "outputV(a)"),
        (EvaluatorExpression::Output(a()), "output(a)"),
        (EvaluatorExpression::GetX(a()), "(a).x"),
        (EvaluatorExpression::GetY(a()), "(a).y"),
        (EvaluatorExpression::GetZ(a()), "(a).z"),
        (EvaluatorExpression::Magnitude(a()), "(a).magnitude"),
        (EvaluatorExpression::SquareMagnitude(a()), "(a).sqrMagnitude"),
        (EvaluatorExpression::RotationInverse(a()), "(a).inverse"),
        (EvaluatorExpression::Not(a()), "!(a)"),
        (EvaluatorExpression::Negate(a()), "-(a)"),
    ];
    for (expr, text) in cases {
        assert_eq!(expr.render(), text);
    }
}

#[test]
fn binary_operators_render_with_their_names() {
    let a = || boxed(EvaluatorExpression::InputA);
    let b = || boxed(EvaluatorExpression::InputB);
    let cases: Vec<(EvaluatorExpression, &str)> = vec![
        (EvaluatorExpression::Atan2(a(), b()), "Atan(a, b)"),
        (EvaluatorExpression::Pow(a(), b()), "Pow(a, b)"),
        (EvaluatorExpression::Max2(a(), b()), "Max(a, b)"),
        (EvaluatorExpression::Min2(a(), b()), "Min(a, b)"),
        (
            EvaluatorExpression::MakeRotationBetween { from_vector: a(), to_vector: b() },
            "FromToRot(a, b)",
        ),
        (EvaluatorExpression::AngleBetween { from_vector: a(), to_vector: b() }, "Angle(a, b)"),
        (EvaluatorExpression::SetX { vector: a(), x: b() }, "setX(a, b)"),
        (EvaluatorExpression::SetY { vector: a(), y: b() }, "setY(a, b)"),
        (EvaluatorExpression::SetZ { vector: a(), z: b() }, "setZ(a, b)"),
        (EvaluatorExpression::Add(a(), b()), "(a) + (b)"),
        (EvaluatorExpression::Sub(a(), b()), "(a) - (b)"),
        (EvaluatorExpression::Cross(a(), b()), "(a) x (b)"),
        (EvaluatorExpression::Mul(a(), b()), "(a) * (b)"),
        (EvaluatorExpression::Div(a(), b()), "(a) / (b)"),
        (EvaluatorExpression::Mod(a(), b()), "(a) % (b)"),
        (EvaluatorExpression::Eq(a(), b()), "(a) = (b)"),
        (EvaluatorExpression::Ne(a(), b()), "(a) != (b)"),
        (EvaluatorExpression::Gt(a(), b()), "(a) > (b)"),
        (EvaluatorExpression::Gte(a(), b()), "(a) >= (b)"),
        (EvaluatorExpression::Lt(a(), b()), "(a) < (b)"),
        (EvaluatorExpression::Lte(a(), b()), "(a) <= (b)"),
        (EvaluatorExpression::OpAnd(a(), b()), "(a) & (b)"),
        (EvaluatorExpression::OpOr(a(), b()), "(a) | (b)"),
        (EvaluatorExpression::FalseCoalesce(a(), b()), "(a) or (b)"),
    ];
    for (expr, text) in cases {
        assert_eq!(expr.render(), text);
    }
}

#[test]
fn ternary_operators_and_leaves_render() {
    let c = || boxed(EvaluatorExpression::InputC);
    let d = || boxed(EvaluatorExpression::InputD);
    let e = || boxed(EvaluatorExpression::InputE);
    let cases: Vec<(EvaluatorExpression, &str)> = vec![
        (EvaluatorExpression::Max3(c(), d(), e()), "Max(c, d, e)"),
        (EvaluatorExpression::Min3(c(), d(), e()), "Min(c, d, e)"),
        (
            EvaluatorExpression::If { condition: c(), true_value: d(), false_value: e() },
            "If(c, d, e)",
        ),
        (EvaluatorExpression::Vector(c(), d(), e()), "Vector(c, d, e)"),
        (EvaluatorExpression::FromEuler { pitch: c(), yaw: d(), roll: e() }, "FromEuler(c, d, e)"),
        (EvaluatorExpression::InputB, "b"),
        (EvaluatorExpression::Int(-17), "-17"),
        (EvaluatorExpression::Int(0), "0"),
        (EvaluatorExpression::Float(FloatLiteral::from_int(12)), "12"),
    ];
    for (expr, text) in cases {
        assert_eq!(expr.render(), text);
    }
}

#[test]
fn nested_expressions_render_inside_out() {
    let expr = EvaluatorExpression::Mul(
        boxed(EvaluatorExpression::Add(
            boxed(EvaluatorExpression::InputA),
            boxed(EvaluatorExpression::Int(2)),
        )),
        boxed(EvaluatorExpression::Negate(boxed(EvaluatorExpression::Sin(boxed(
            EvaluatorExpression::InputB,
        ))))),
    );
    assert_eq!(expr.render(), "((a) + (2)) * (-(Sin(b)))");
}

#[test]
fn integers_render_in_decimal() {
    assert_eq!(render_nat(0), "0");
    assert_eq!(render_nat(9), "9");
    assert_eq!(render_nat(10), "10");
    assert_eq!(render_nat(1234567890), "1234567890");
    assert_eq!(render_nat(u64::MAX), u64::MAX.to_string());
    assert_eq!(render_int(0), "0");
    assert_eq!(render_int(-1), "-1");
    assert_eq!(render_int(i64::MAX), i64::MAX.to_string());
    assert_eq!(render_int(i64::MIN), i64::MIN.to_string());
    assert_eq!(render_int(-9000), "-9000");
}

#[test]
fn operator_tags_build_their_expressions() {
    let a = EvaluatorExpression::InputA;
    assert_eq!(UnaryOp::Sqrt.build(a).render(), "Sqrt(a)");
    assert_eq!(
        BinaryOp::SetY.build(EvaluatorExpression::InputA, EvaluatorExpression::InputB).render(),
        "setY(a, b)"
    );
    assert_eq!(
        TernaryOp::FromEuler
            .build(
                EvaluatorExpression::InputA,
                EvaluatorExpression::InputB,
                EvaluatorExpression::InputC
            )
            .render(),
        "FromEuler(a, b, c)"
    );
}

#[test]
fn every_typed_operator_adds_its_expression() {
    let mut bb = Breadboard::new();
    let n = bb.constant(f(1.0));
    let m = bb.constant(f(2.0));
    let k = bb.constant(f(3.0));
    let v = bb.position();
    let w = bb.velocity(VelocityOutputType::Magnitude);
    let mut expected: Vec<&str> = Vec::new();
    let first = bb.len();
    bb.sin(n); expected.push("Sin(a)");
    bb.cos(n); expected.push("Cos(a)");
    bb.tan(n); expected.push("Tan(a)");
    bb.sqrt(n); expected.push("Sqrt(a)");
    bb.asin(n); expected.push("Asin(a)");
    bb.acos(n); expected.push("Acos(a)");
    bb.atan(n); expected.push("Atan(a)");
    bb.atan2(n, m); expected.push("Atan(a, b)");
    bb.exp(n); expected.push("Exp(a)");
    bb.log(n); expected.push("Log(a)");
    bb.pow(n, m); expected.push("Pow(a, b)");
    bb.abs(n); expected.push("Abs(a)");
    bb.absv(v); expected.push("Abs(a)");
    bb.sign(n); expected.push("Sign(a)");
    bb.round(n); expected.push("Round(a)");
    bb.floor(n); expected.push("Floor(a)");
    bb.ceil(n); expected.push("Ceil(a)");
    bb.max2(n, m); expected.push("Max(a, b)");
    bb.max3(n, m, k); expected.push("Max(a, b, c)");
    bb.maxv(v); expected.push("Max(a)");
    bb.min2(n, m); expected.push("Min(a, b)");
    bb.min3(n, m, k); expected.push("Min(a, b, c)");
    bb.minv(v); expected.push("Min(a)");
    bb.b_if(n, v, w); expected.push("If(a, b, c)");
    bb.vector(n, m, k); expected.push("Vector(a, b, c)");
    let q = bb.new_rotation_between(v, w); expected.push("FromToRot(a, b)");
    bb.rotation_from_euler_angles(n, m, k); expected.push("FromEuler(a, b, c)");
    bb.rotation_from_euler_vector(v); expected.push("FromEuler(a)");
    bb.rotation_to_euler_vector(q); expected.push("ToEuler(a)");
    bb.rotation_angle(q); expected.push("Angle(a)");
    bb.rotation_axis(q); expected.push("Axis(a)");
    bb.angle_between(v, w); expected.push("Angle(a, b)");
    bb.set_x(v, n); expected.push("setX(a, b)");
    bb.set_y(v, n); expected.push("setY(a, b)");
    bb.set_z(v, n); expected.push("setZ(a, b)");
    bb.x(v); expected.push("(a).x");
    bb.y(v); expected.push("(a).y");
    bb.z(v); expected.push("(a).z");
    bb.magnitude(v); expected.push("(a).magnitude");
    bb.square_magnitude(v); expected.push("(a).sqrMagnitude");
    bb.rotation_inverse(q); expected.push("(a).inverse");
    bb.add(n, m); expected.push("(a) + (b)");
    bb.addv(v, w); expected.push("(a) + (b)");
    bb.sub(n, m); expected.push("(a) - (b)");
    bb.subv(v, w); expected.push("(a) - (b)");
    bb.cross(v, w); expected.push("(a) x (b)");
    bb.mul(n, m); expected.push("(a) * (b)");
    bb.dot(v, w); expected.push("(a) * (b)");
    bb.rotate(v, q); expected.push("(a) * (b)");
    bb.scale(n, v); expected.push("(a) * (b)");
    bb.compose_rotations(q, q); expected.push("(a) * (a)");
    bb.div(n, m); expected.push("(a) / (b)");
    bb.scaler_div(v, n); expected.push("(a) / (b)");
    bb.modulo(n, m); expected.push("(a) % (b)");
    bb.eq(n, m); expected.push("(a) = (b)");
    bb.ne(n, m); expected.push("(a) != (b)");
    bb.gt(n, m); expected.push("(a) > (b)");
    bb.gte(n, m); expected.push("(a) >= (b)");
    bb.lt(n, m); expected.push("(a) < (b)");
    bb.lte(n, m); expected.push("(a) <= (b)");
    bb.not(n); expected.push("!(a)");
    bb.and(n, m); expected.push("(a) & (b)");
    bb.or(n, m); expected.push("(a) | (b)");
    bb.false_coalesce(n, m); expected.push("(a) or (b)");
    bb.negate(n); expected.push("-(a)");
    assert_eq!(bb.len(), first + expected.len());
    for (i, text) in expected.iter().enumerate() {
        assert_eq!(text_of(&bb, first + i), *text, "component {}", first + i);
    }
}

#[test]
fn handle_methods_add_components() {
    let mut bb = Breadboard::new();
    let v = bb.position();
    let w = bb.velocity(VelocityOutputType::Magnitude);
    let n = bb.constant(f(1.0));
    let q = bb.new_rotation_between(v, w);
    let first = bb.len();
    v.cross(&mut bb, &w);
    v.dot(&mut bb, &w);
    v.x(&mut bb);
    v.y(&mut bb);
    v.z(&mut bb);
    v.magnitude(&mut bb);
    v.square_magnitude(&mut bb);
    let inverse = q.inverse(&mut bb);
    let chosen = b_if(&mut bb, &n, &v, &w);
    let expected = [
        "(a) x (b)", "(a) * (b)", "(a).x", "(a).y", "(a).z", "(a).magnitude", "(a).sqrMagnitude",
        "(a).inverse", "If(a, b, c)",
    ];
    for (i, text) in expected.iter().enumerate() {
        assert_eq!(text_of(&bb, first + i), *text);
    }
    assert_eq!(inverse.address(), line(first + 7, 0));
    assert_eq!(chosen.address(), line(first + 8, 0));
    assert_eq!(inputs_of(&bb, first + 8), vec![line(2, 0), line(0, 0), line(1, 0)]);
}

#[test]
fn new_vector_has_no_inputs() {
    let mut bb = Breadboard::new();
    let out = bb.new_vector(
        FloatLiteral::from_int(1),
        FloatLiteral::from_int(-2),
        FloatLiteral::from_int(30),
    );
    assert_eq!(out.address(), line(0, 0));
    assert_eq!(inputs_of(&bb, 0), Vec::<LineInner>::new());
    assert_eq!(text_of(&bb, 0), "Vector(1, -2, 30)");
}

#[test]
fn component_sections_hold_the_settings() {
    let mut bb = Breadboard::new();
    let a = bb.constant(f(5.0));
    bb.random_number(f(1.0), f(2.0));
    bb.speed(SpeedOutputType::ForwardsMagnitude);
    bb.switch(a, a, SwitchOptions::default());
    bb.negate(a);
    assert!(matches!(
        bb.component(0).section_data().entry(0),
        Some(DataEntry::F32(x)) if x.to_bits() == 5.0f32.to_bits()
    ));
    assert!(matches!(
        bb.component(1).section_data().entry(0),
        Some(DataEntry::Vector2(v)) if v.x.to_bits() == 1.0f32.to_bits() && v.y.to_bits() == 2.0f32.to_bits()
    ));
    assert!(matches!(bb.component(2).section_data().entry(0), Some(DataEntry::U32(3))));
    let switch = bb.component(3).section_data();
    assert_eq!(float_entry(&switch, 0), 0.5f32.to_bits());
    assert_eq!(float_entry(&switch, 1), 0.0f32.to_bits());
    assert!(matches!(
        bb.component(4).section_data().entry(0),
        Some(DataEntry::String(s)) if s == "-(a)"
    ));
}

#[test]
fn component_type_identifiers_are_converted_for_the_file() {
    let mut bb = Breadboard::new();
    bb.constant(f(5.0));
    let component = bb.component(0);
    assert_eq!(
        component.ftd_uuid().into_bytes(),
        [0x91, 0x42, 0xc7, 0x0d, 0x78, 0x33, 0x41, 0xcd, 0x80, 0x4d, 0x55, 0x4e, 0x99, 0x0b, 0x69, 0x04]
    );
    assert_eq!(
        component.uuid().into_bytes(),
        [0x0d, 0xc7, 0x42, 0x91, 0x33, 0x78, 0xcd, 0x41, 0x80, 0x4d, 0x55, 0x4e, 0x99, 0x0b, 0x69, 0x04]
    );
}

#[test]
fn end_to_end_constant_and_negate() {
    let mut bb = Breadboard::new();
    let five = bb.constant(f(5.0));
    bb.negate(five);
    let block = bb.block_data();
    // two sections that the host expects, one for each component, the main one
    assert_eq!(block.len(), 5);
    assert_eq!(section_of(&block, 3000).len(), 0);
    assert_eq!(section_of(&block, 72541).len(), 0);
    let constant = section_of(&block, 72542);
    let negate = section_of(&block, 72543);
    assert!(block.section(SectionId::new(72544)).is_none());

    assert!(matches!(
        constant.entry(0),
        Some(DataEntry::F32(x)) if x.to_bits() == 5.0f32.to_bits()
    ));
    assert_eq!(bytes_entry(constant, 900), Vec::<u8>::new());
    let constant_outputs = bytes_entry(constant, 901);
    assert_eq!(constant_outputs.len(), 16);

    assert!(matches!(negate.entry(0), Some(DataEntry::String(s)) if s == "-(a)"));
    let descriptors = bytes_entry(negate, 900);
    assert_eq!(descriptors.len(), 32);
    assert_eq!(&descriptors[16..], &constant_outputs[..]);
    assert_ne!(&descriptors[..16], &constant_outputs[..]);
    let negate_outputs = bytes_entry(negate, 901);
    assert_eq!(negate_outputs.len(), 16);
    assert_ne!(negate_outputs, constant_outputs);

    assert_eq!(float_entry(constant, 8000), 0.0f32.to_bits());
    assert_eq!(float_entry(negate, 8000), 200.0f32.to_bits());
    for section in [constant, negate] {
        assert_eq!(float_entry(section, 8001), 0.0f32.to_bits());
        assert_eq!(float_entry(section, 8002), 25.0f32.to_bits());
        assert_eq!(float_entry(section, 8003), 25.0f32.to_bits());
    }

    let main = section_of(&block, 9999);
    assert_eq!(main.len(), 4);
    assert!(matches!(main.entry(0), Some(DataEntry::Uuid(id)) if *id == bb.component(0).uuid()));
    assert!(matches!(main.entry(1), Some(DataEntry::U32(72542))));
    assert!(matches!(main.entry(2), Some(DataEntry::Uuid(id)) if *id == bb.component(1).uuid()));
    assert!(matches!(main.entry(3), Some(DataEntry::U32(72543))));
}

#[test]
fn fresh_identifiers_are_random_version_four() {
    let mut bb = Breadboard::new();
    bb.target_info();
    let block = bb.block_data();
    let outputs = bytes_entry(section_of(&block, 72542), 901);
    assert_eq!(outputs.len(), 7 * 16);
    let ids: Vec<&[u8]> = outputs.chunks(16).collect();
    for id in &ids {
        assert_eq!(id[6] & 0xf0, 0x40);
        assert_eq!(id[8] & 0xc0, 0x80);
    }
    for i in 0..ids.len() {
        for j in 0..i {
            assert_ne!(ids[i], ids[j]);
        }
    }
}

#[test]
fn block_data_with_given_identifiers_is_exact() {
    let mut bb = Breadboard::new();
    let a = bb.constant(f(1.0));
    let info = bb.target_info();
    bb.add(info.altitude, a);
    let out = |n: u8| Guid::from_bytes([n; 16]);
    let wire_map = BreadboardWireMap::from_ids(
        vec![vec![out(1)], (10..17).map(|n| out(n)).collect(), vec![out(3)]],
        vec![vec![], vec![], vec![out(100), out(101)]],
    );
    let block = bb.block_data_with(&wire_map);
    assert_eq!(block.len(), 6);
    assert_eq!(bytes_entry(section_of(&block, 72542), 901), vec![1u8; 16]);
    let target = bytes_entry(section_of(&block, 72543), 901);
    let expected: Vec<u8> = (10u8..17).flat_map(|n| vec![n; 16]).collect();
    assert_eq!(target, expected);
    let sum = section_of(&block, 72544);
    let mut descriptors = vec![100u8; 16];
    descriptors.extend_from_slice(&[12u8; 16]);
    descriptors.extend_from_slice(&[101u8; 16]);
    descriptors.extend_from_slice(&[1u8; 16]);
    assert_eq!(bytes_entry(sum, 900), descriptors);
    assert_eq!(bytes_entry(sum, 901), vec![3u8; 16]);
    assert!(matches!(sum.entry(0), Some(DataEntry::String(s)) if s == "(a) + (b)"));
    assert_eq!(float_entry(sum, 8000), 400.0f32.to_bits());
    assert_eq!(*wire_map.get_output_uuid(line(1, 2)), out(12));
}

#[test]
fn wire_map_mints_one_identifier_for_every_wire() {
    let mut bb = Breadboard::new();
    let a = bb.constant(f(1.0));
    bb.target_info();
    bb.add(a, a);
    let mut map = BreadboardWireMap::new(2);
    map.set_num_outputs(1, 3, 2);
    let first = *map.get_output_uuid(line(1, 0));
    let second = *map.get_output_uuid(line(1, 1));
    assert!(!first.same(&second));
}

#[test]
fn blueprint_holds_the_breadboard_as_block_zero() {
    let mut bb = Breadboard::new();
    let five = bb.constant(f(5.0));
    bb.negate(five);
    let blueprint = bb.blueprint();
    let block = blueprint.block(ftd_breadboard::ftd_data::BlockIndex::new(0)).unwrap();
    assert_eq!(block.len(), 5);
    let bytes = blueprint.serialize();
    let text = blueprint.serialize_to_bp_data_string();
    assert_eq!(&bytes[..3], &[0, 0, 0]);
    assert_eq!(&bytes[3..5], &[35, 0]);
    assert_eq!(text.len(), (bytes.len() + 2) / 3 * 4);
    assert!(text.starts_with("AAAAIwAA"));
}

#[test]
fn component_position_has_a_fixed_size() {
    let position = ComponentPosition::new(f(200.0), f(0.0));
    assert_eq!(position.x.to_bits(), 200.0f32.to_bits());
    assert_eq!(position.width.to_bits(), 25.0f32.to_bits());
    assert_eq!(position.height.to_bits(), 25.0f32.to_bits());
    let mut section = SectionData::new().with_entry(8001, DataEntry::Bool(true));
    position.set_section_data_position(&mut section);
    assert_eq!(section.len(), 4);
    assert_eq!(float_entry(&section, 8000), 200.0f32.to_bits());
    assert_eq!(float_entry(&section, 8001), 0.0f32.to_bits());
}

#[test]
fn folders_are_the_profile_and_its_prefabs() {
    assert_eq!(find_ftd_folder(), "/home/jack/From The Depths/Player Profiles/DeltaForce");
    assert_eq!(
        find_prefabs_folder(),
        "/home/jack/From The Depths/Player Profiles/DeltaForce/PrefabsVersion2"
    );
}

#[test]
fn literals_are_decimal_numbers() {
    for text in ["0", "12", "1.5", "-0", "-12.25", "0.0000001", "1000000000000000000000", "inf", "-inf", "NaN"] {
        let literal = FloatLiteral::parse(text);
        assert!(literal.is_some(), "{:?}", text);
        assert_eq!(literal.unwrap().to_text(), text);
    }
}

#[test]
fn literals_refuse_other_texts() {
    for text in [
        "", "-", ".", "1.", ".5", "-.5", "1e5", "a", "1.2.3", "+1", " 1", "1 ", "--1", "-NaN",
        "Inf", "nan", "infinity", "1,5", "1.5)", "1-", "\u{ff11}",
    ] {
        assert!(FloatLiteral::parse(text).is_none(), "{:?}", text);
    }
}

#[test]
fn literals_of_what_numbers_print_as() {
    for x in [0.0f64, -0.0, 1.0, -2.5, 0.1, 1.0e-7, 1.0e21, 123456.789, f64::MAX, f64::MIN_POSITIVE, f64::INFINITY, f64::NEG_INFINITY, f64::NAN] {
        let text = x.to_string();
        let literal = FloatLiteral::parse(&text).unwrap();
        assert_eq!(literal.to_text(), text);
    }
}

#[test]
fn literals_of_integers() {
    assert_eq!(FloatLiteral::from_int(0).to_text(), "0");
    assert_eq!(FloatLiteral::from_int(-45).to_text(), "-45");
    assert_eq!(FloatLiteral::from_int(i64::MIN).to_text(), "-9223372036854775808");
}

#[test]
fn new_vector_renders_its_literals() {
    let mut bb = Breadboard::new();
    bb.new_vector(
        FloatLiteral::parse("1.5").unwrap(),
        FloatLiteral::parse("2").unwrap(),
        FloatLiteral::parse("-3.25").unwrap(),
    );
    assert_eq!(text_of(&bb, 0), "Vector(1.5, 2, -3.25)");
}

#[test]
fn breadboard_with_a_given_identity_issues_handles_under_it() {
    let mut bb = Breadboard::with_identity(Guid::from_bytes([7; 16]));
    assert_eq!(bb.id(), Guid::from_bytes([7; 16]));
    let a = bb.constant(f(1.0));
    assert_eq!(a.breadboard_identity(), Guid::from_bytes([7; 16]));
    assert!(bb.verify_line(&a));
}

#[test]
fn handle_of_a_board_with_another_identity_is_refused() {
    let mut x = Breadboard::with_identity(Guid::from_bytes([1; 16]));
    let mut y = Breadboard::with_identity(Guid::from_bytes([2; 16]));
    let from_x = x.constant(f(1.0));
    let from_y = y.constant(f(1.0));
    // both name output 0 of component 0; only the identity tells them apart
    assert_eq!(from_x.address(), from_y.address());
    assert!(!y.verify_line(&from_x));
    assert!(!x.verify_line(&from_y));
    assert!(y.verify_line(&from_y));
    assert_eq!(y.len(), 1);
}

#[test]
fn boards_with_one_identity_share_their_handles() {
    let mut x = Breadboard::with_identity(Guid::from_bytes([3; 16]));
    let mut y = Breadboard::with_identity(Guid::from_bytes([3; 16]));
    let from_x = x.constant(f(1.0));
    y.constant(f(2.0));
    assert!(y.verify_line(&from_x));
}

#[test]
fn default_breadboard_and_evaluator_are_empty() {
    let bb = Breadboard::default();
    assert_eq!(bb.len(), 0);
    let other = Breadboard::default();
    assert!(!bb.id().same(&other.id()));
    let eval = Evaluator::default();
    assert_eq!(eval.num_outputs(), 0);
    assert_eq!(eval.inputs().len(), 0);
}

#[test]
fn new_breadboard_has_a_random_identity() {
    let bb = Breadboard::new();
    let id = bb.id().into_bytes();
    assert_eq!(id[6] & 0xf0, 0x40);
    assert_eq!(id[8] & 0xc0, 0x80);
    assert!(!bb.id().same(&Breadboard::new().id()));
}
