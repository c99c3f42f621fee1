//! Breadboards: ordered collections of components, built one component at a
//! time through typed handles to the components' outputs.

pub mod block;
pub mod evaluator;
pub mod line_value;
pub mod operators;
pub mod wire_map;
mod private;

use vstd::prelude::*;
use crate::float32::Float32;
use crate::ftd_data::{DataEntry, EntryView, SectionData, Vector2};
use crate::guid::{ftd_uuid_to_uuid, permuted, Guid};
use evaluator::{evaluator_type_id, Evaluator};
use line_value::{addresses, BNumber, BVector3, InputGroup, Line, LineInner, LineValue};

verus! {

/// The reference level of an altitude sensor.
#[derive(Debug, Clone, Copy, PartialEq, Eq, Structural)]
pub enum AltitudeOutputType {
    SeaLevel,
    WaveLevel,
    TerrainLevel,
    TerrainAndWave,
    TerrainAndSea,
}

impl AltitudeOutputType {
    /// The number under which the host knows the level.
    pub open spec fn code(self) -> u32 {
        match self {
            AltitudeOutputType::SeaLevel => 0,
            AltitudeOutputType::WaveLevel => 1,
            AltitudeOutputType::TerrainLevel => 2,
            AltitudeOutputType::TerrainAndWave => 3,
            AltitudeOutputType::TerrainAndSea => 4,
        }
    }

    pub fn to_code(self) -> (code: u32)
        ensures
            code == self.code(),
    {
        match self {
            AltitudeOutputType::SeaLevel => 0,
            AltitudeOutputType::WaveLevel => 1,
            AltitudeOutputType::TerrainLevel => 2,
            AltitudeOutputType::TerrainAndWave => 3,
            AltitudeOutputType::TerrainAndSea => 4,
        }
    }
}

/// What a speed sensor measures.
#[derive(Debug, Clone, Copy, PartialEq, Eq, Structural)]
pub enum SpeedOutputType {
    Magnitude,
    ForwardsMagnitude,
}

impl SpeedOutputType {
    /// The number under which the host knows the mode.
    pub open spec fn code(self) -> u32 {
        match self {
            SpeedOutputType::Magnitude => 0,
            SpeedOutputType::ForwardsMagnitude => 3,
        }
    }

    pub fn to_code(self) -> (code: u32)
        ensures
            code == self.code(),
    {
        match self {
            SpeedOutputType::Magnitude => 0,
            SpeedOutputType::ForwardsMagnitude => 3,
        }
    }
}

/// What a velocity sensor measures. The host has one component for speed
/// and velocity; these are its modes that give a vector.
#[derive(Debug, Clone, Copy, PartialEq, Eq, Structural)]
pub enum VelocityOutputType {
    Magnitude,
    ForwardsMagnitude,
}

impl VelocityOutputType {
    /// The number under which the host knows the mode.
    pub open spec fn code(self) -> u32 {
        match self {
            VelocityOutputType::Magnitude => 0,
            VelocityOutputType::ForwardsMagnitude => 3,
        }
    }

    pub fn to_code(self) -> (code: u32)
        ensures
            code == self.code(),
    {
        match self {
            VelocityOutputType::Magnitude => 0,
            VelocityOutputType::ForwardsMagnitude => 3,
        }
    }
}

/// The settings of a switch: the threshold that the switch signal has to
/// reach, and the value that the switch gives while it is open.
#[derive(Debug, Clone, Copy)]
pub struct SwitchOptions {
    pub threshhold: Float32,
    pub open_value: Float32,
}

/// The pattern of one half.
pub const ONE_HALF: u32 = 0x3f00_0000;

impl Default for SwitchOptions {
    /// A threshold of one half and an open value of zero.
    fn default() -> (options: Self)
        ensures
            options.threshhold.bits == ONE_HALF,
            options.open_value.bits == 0,
    {
        SwitchOptions {
            threshhold: Float32::from_bits(ONE_HALF),
            open_value: Float32::from_bits(0),
        }
    }
}

/// The largest constant, threshold or random bound that the host accepts.
pub open spec fn signal_limit() -> Float32 {
    Float32::of_nat(10000)
}

/// The largest multiplier that the host accepts.
pub open spec fn multiplier_limit() -> Float32 {
    Float32::of_nat(100)
}

/// The bit patterns of the two limits.
pub proof fn lemma_limit_patterns()
    ensures
        signal_limit().bits == 0x461c_4000,
        multiplier_limit().bits == 0x42c8_0000,
{
    reveal_with_fuel(crate::float32::top_bit, 15);
    vstd::arithmetic::power2::lemma2_to64();
}

/// The number limited to the range from minus `limit` to `limit`.
pub open spec fn limited(x: Float32, limit: Float32) -> Float32 {
    x.clamped(limit.negated(), limit)
}

/// Limits `x` to the range from minus `limit` to `limit`, where `limit` is
/// a whole number.
fn limit_to(x: Float32, limit: u32) -> (y: Float32)
    requires
        limit < 0x100_0000,
    ensures
        y == limited(x, Float32::of_nat(limit as nat)),
        x.is_nan() == y.is_nan(),
        !y.is_nan() ==> -(limit * vstd::arithmetic::power2::pow2(149)) <= y.value() <= limit
            * vstd::arithmetic::power2::pow2(149),
{
    let high = Float32::from_small_int(limit);
    let low = high.negate();
    proof {
        high.lemma_negated_value();
        vstd::arithmetic::power2::lemma_pow2_pos(149);
        assert(0 <= limit * vstd::arithmetic::power2::pow2(149)) by (nonlinear_arith)
            requires
                limit >= 0,
                vstd::arithmetic::power2::pow2(149) > 0,
        ;
    }
    x.clamp(low, high)
}

/// The bytes of the host's type identifier for constant components, in the host's
/// published notation.
pub open spec fn constant_type_id() -> Seq<u8> {
    seq![
        0x91u8, 0x42u8, 0xc7u8, 0x0du8, 0x78u8, 0x33u8, 0x41u8, 0xcdu8,
        0x80u8, 0x4du8, 0x55u8, 0x4eu8, 0x99u8, 0x0bu8, 0x69u8, 0x04u8,
    ]
}

/// The bytes of the host's type identifier for random number components, in the host's
/// published notation.
pub open spec fn random_input_type_id() -> Seq<u8> {
    seq![
        0x26u8, 0x8bu8, 0x7du8, 0xb2u8, 0xbcu8, 0xcfu8, 0x41u8, 0xfdu8,
        0x8cu8, 0xfau8, 0x3fu8, 0x21u8, 0xd2u8, 0xf2u8, 0xbau8, 0xcbu8,
    ]
}

/// The bytes of the host's type identifier for altitude sensors, in the host's
/// published notation.
pub open spec fn altitude_type_id() -> Seq<u8> {
    seq![
        0xaeu8, 0x46u8, 0x57u8, 0x2bu8, 0xdfu8, 0xf8u8, 0x41u8, 0x53u8,
        0x97u8, 0xdcu8, 0x14u8, 0x61u8, 0x08u8, 0xf3u8, 0xa6u8, 0x4fu8,
    ]
}

/// The bytes of the host's type identifier for position sensors, in the host's
/// published notation.
pub open spec fn position_type_id() -> Seq<u8> {
    seq![
        0xe2u8, 0x0du8, 0x6au8, 0x3au8, 0xc0u8, 0xb9u8, 0x46u8, 0x65u8,
        0x87u8, 0x49u8, 0x7au8, 0x85u8, 0xc4u8, 0x0au8, 0xfau8, 0xbeu8,
    ]
}

/// The bytes of the host's type identifier for speed and velocity sensors, in the host's
/// published notation.
pub open spec fn speed_type_id() -> Seq<u8> {
    seq![
        0xc8u8, 0xf6u8, 0x44u8, 0x43u8, 0xb8u8, 0x1fu8, 0x4bu8, 0x75u8,
        0x81u8, 0x05u8, 0x18u8, 0xcdu8, 0x6eu8, 0x45u8, 0x35u8, 0x39u8,
    ]
}

/// The bytes of the host's type identifier for target sensors, in the host's
/// published notation.
pub open spec fn target_info_type_id() -> Seq<u8> {
    seq![
        0x53u8, 0x90u8, 0xbcu8, 0xf0u8, 0xd0u8, 0x9du8, 0x40u8, 0xb8u8,
        0x99u8, 0xa3u8, 0x8du8, 0x37u8, 0x52u8, 0xe6u8, 0x56u8, 0xc6u8,
    ]
}

/// The bytes of the host's type identifier for weighted sums, in the host's
/// published notation.
pub open spec fn multiply_type_id() -> Seq<u8> {
    seq![
        0x93u8, 0x0eu8, 0x53u8, 0x31u8, 0xceu8, 0xcfu8, 0x40u8, 0x8au8,
        0x8du8, 0x90u8, 0xdau8, 0xc6u8, 0xb4u8, 0x79u8, 0xd5u8, 0xb0u8,
    ]
}

/// The bytes of the host's type identifier for switches, in the host's
/// published notation.
pub open spec fn switch_type_id() -> Seq<u8> {
    seq![
        0x58u8, 0x1du8, 0xe0u8, 0x1eu8, 0x37u8, 0x54u8, 0x45u8, 0xf6u8,
        0x91u8, 0x33u8, 0xf5u8, 0x14u8, 0x43u8, 0x84u8, 0x4eu8, 0xcau8,
    ]
}

/// One component of a breadboard, with the settings it was made with.
#[derive(Debug)]
#[allow(inconsistent_fields)]
pub enum Component {
    Constant { n: Float32 },
    RandomInput { min: Float32, max: Float32 },
    Altitude { typ: AltitudeOutputType },
    Position,
    Speed { typ: SpeedOutputType },
    Velocity { typ: VelocityOutputType },
    TargetInfo,
    Multiply { multiplier: Float32, inputs: Vec<LineInner> },
    /// The first input is passed through, the second is the switch signal.
    Switch { inputs: [LineInner; 2], threshhold: Float32, open_value: Float32 },
    Evaluator(Evaluator),
}

impl Component {
    /// The bytes of the host's type identifier, in the host's published
    /// notation.
    pub open spec fn type_id(&self) -> Seq<u8> {
        match self {
            Component::Constant { .. } => constant_type_id(),
            Component::RandomInput { .. } => random_input_type_id(),
            Component::Altitude { .. } => altitude_type_id(),
            Component::Position => position_type_id(),
            Component::Speed { .. } => speed_type_id(),
            Component::Velocity { .. } => speed_type_id(),
            Component::TargetInfo => target_info_type_id(),
            Component::Multiply { .. } => multiply_type_id(),
            Component::Switch { .. } => switch_type_id(),
            Component::Evaluator(_) => evaluator_type_id(),
        }
    }

    /// An evaluator has no more than five input lines, each of them once,
    /// and no expression that reads a slot without an input line.
    pub open spec fn wf(&self) -> bool {
        match self {
            Component::Evaluator(eval) => eval.wf(),
            _ => true,
        }
    }

    /// The number of outputs.
    pub open spec fn output_count(&self) -> nat {
        match self {
            Component::TargetInfo => 7,
            Component::Evaluator(eval) => eval.expressions().len(),
            _ => 1,
        }
    }

    /// The outputs that feed the component, in the order of its inputs.
    pub open spec fn input_lines(&self) -> Seq<LineInner> {
        match self {
            Component::Multiply { inputs, .. } => inputs@,
            Component::Switch { inputs, .. } => inputs@,
            Component::Evaluator(eval) => eval.input_lines(),
            _ => Seq::empty(),
        }
    }

    /// The ids of the entries that hold the component's settings.
    pub open spec fn parameter_ids(&self) -> Seq<u32> {
        match self {
            Component::Position => Seq::empty(),
            Component::TargetInfo => Seq::empty(),
            Component::Switch { .. } => seq![0u32, 1u32],
            _ => seq![0u32],
        }
    }

    /// The entries that hold the component's settings.
    pub open spec fn parameters(&self) -> Seq<EntryView> {
        match self {
            Component::Constant { n } => seq![EntryView::F32(*n)],
            Component::RandomInput { min, max } => seq![
                EntryView::Vector2(Vector2 { x: *min, y: *max }),
            ],
            Component::Altitude { typ } => seq![EntryView::U32(typ.code())],
            Component::Position => Seq::empty(),
            Component::Speed { typ } => seq![EntryView::U32(typ.code())],
            Component::Velocity { typ } => seq![EntryView::U32(typ.code())],
            Component::TargetInfo => Seq::empty(),
            Component::Multiply { multiplier, .. } => seq![EntryView::F32(*multiplier)],
            Component::Switch { threshhold, open_value, .. } => seq![
                EntryView::F32(*threshhold),
                EntryView::F32(*open_value),
            ],
            Component::Evaluator(eval) => seq![
                EntryView::String(evaluator::joined(eval.expressions())),
            ],
        }
    }

    /// The host's type identifier, in the host's published notation.
    pub fn ftd_uuid(&self) -> (id: Guid)
        ensures
            id@ == self.type_id(),
    {
        match self {
            Component::Constant { .. } => {
                let id = Guid::from_bytes(
                    [
                        0x91, 0x42, 0xc7, 0x0d, 0x78, 0x33, 0x41, 0xcd,
                        0x80, 0x4d, 0x55, 0x4e, 0x99, 0x0b, 0x69, 0x04,
                    ],
                );
                assert(id@ =~= constant_type_id());
                id
            },
            Component::RandomInput { .. } => {
                let id = Guid::from_bytes(
                    [
                        0x26, 0x8b, 0x7d, 0xb2, 0xbc, 0xcf, 0x41, 0xfd,
                        0x8c, 0xfa, 0x3f, 0x21, 0xd2, 0xf2, 0xba, 0xcb,
                    ],
                );
                assert(id@ =~= random_input_type_id());
                id
            },
            Component::Altitude { .. } => {
                let id = Guid::from_bytes(
                    [
                        0xae, 0x46, 0x57, 0x2b, 0xdf, 0xf8, 0x41, 0x53,
                        0x97, 0xdc, 0x14, 0x61, 0x08, 0xf3, 0xa6, 0x4f,
                    ],
                );
                assert(id@ =~= altitude_type_id());
                id
            },
            Component::Position => {
                let id = Guid::from_bytes(
                    [
                        0xe2, 0x0d, 0x6a, 0x3a, 0xc0, 0xb9, 0x46, 0x65,
                        0x87, 0x49, 0x7a, 0x85, 0xc4, 0x0a, 0xfa, 0xbe,
                    ],
                );
                assert(id@ =~= position_type_id());
                id
            },
            Component::Speed { .. } => {
                let id = Guid::from_bytes(
                    [
                        0xc8, 0xf6, 0x44, 0x43, 0xb8, 0x1f, 0x4b, 0x75,
                        0x81, 0x05, 0x18, 0xcd, 0x6e, 0x45, 0x35, 0x39,
                    ],
                );
                assert(id@ =~= speed_type_id());
                id
            },
            Component::Velocity { .. } => {
                let id = Guid::from_bytes(
                    [
                        0xc8, 0xf6, 0x44, 0x43, 0xb8, 0x1f, 0x4b, 0x75,
                        0x81, 0x05, 0x18, 0xcd, 0x6e, 0x45, 0x35, 0x39,
                    ],
                );
                assert(id@ =~= speed_type_id());
                id
            },
            Component::TargetInfo => {
                let id = Guid::from_bytes(
                    [
                        0x53, 0x90, 0xbc, 0xf0, 0xd0, 0x9d, 0x40, 0xb8,
                        0x99, 0xa3, 0x8d, 0x37, 0x52, 0xe6, 0x56, 0xc6,
                    ],
                );
                assert(id@ =~= target_info_type_id());
                id
            },
            Component::Multiply { .. } => {
                let id = Guid::from_bytes(
                    [
                        0x93, 0x0e, 0x53, 0x31, 0xce, 0xcf, 0x40, 0x8a,
                        0x8d, 0x90, 0xda, 0xc6, 0xb4, 0x79, 0xd5, 0xb0,
                    ],
                );
                assert(id@ =~= multiply_type_id());
                id
            },
            Component::Switch { .. } => {
                let id = Guid::from_bytes(
                    [
                        0x58, 0x1d, 0xe0, 0x1e, 0x37, 0x54, 0x45, 0xf6,
                        0x91, 0x33, 0xf5, 0x14, 0x43, 0x84, 0x4e, 0xca,
                    ],
                );
                assert(id@ =~= switch_type_id());
                id
            },
            Component::Evaluator(eval) => eval.ftd_uuid(),
        }
    }

    /// The host's type identifier, in the notation of the host's files.
    pub fn uuid(&self) -> (id: Guid)
        ensures
            id@ == permuted(self.type_id()),
    {
        ftd_uuid_to_uuid(self.ftd_uuid())
    }

    /// The section that holds the component's settings.
    pub fn section_data(&self) -> (section: SectionData)
        ensures
            section.wf(),
            section.ids() == self.parameter_ids(),
            section.entry_views() == self.parameters(),
    {
        let section = match self {
            Component::Constant { n } => SectionData::new().with_entry(0, DataEntry::F32(*n)),
            Component::RandomInput { min, max } => SectionData::new().with_entry(
                0,
                DataEntry::Vector2(Vector2::new(*min, *max)),
            ),
            Component::Altitude { typ } => SectionData::new().with_entry(
                0,
                DataEntry::U32(typ.to_code()),
            ),
            Component::Position => SectionData::new(),
            Component::Speed { typ } => SectionData::new().with_entry(
                0,
                DataEntry::U32(typ.to_code()),
            ),
            Component::Velocity { typ } => SectionData::new().with_entry(
                0,
                DataEntry::U32(typ.to_code()),
            ),
            Component::TargetInfo => SectionData::new(),
            Component::Multiply { multiplier, .. } => SectionData::new().with_entry(
                0,
                DataEntry::F32(*multiplier),
            ),
            Component::Switch { threshhold, open_value, .. } => {
                let first = SectionData::new().with_entry(0, DataEntry::F32(*threshhold));
                assert(first.ids() =~= seq![0u32]);
                assert(!first.ids().contains(1u32)) by {
                    if first.ids().contains(1u32) {
                        let i = choose|i: int| 0 <= i < first.ids().len() && first.ids()[i] == 1u32;
                    }
                }
                first.with_entry(1, DataEntry::F32(*open_value))
            },
            Component::Evaluator(eval) => eval.section_data(),
        };
        assert(section.ids() =~= self.parameter_ids());
        assert(section.entry_views() =~= self.parameters());
        section
    }

    /// The number of outputs.
    pub fn num_outputs(&self) -> (n: usize)
        ensures
            n == self.output_count(),
    {
        match self {
            Component::TargetInfo => 7,
            Component::Evaluator(eval) => eval.num_outputs(),
            _ => 1,
        }
    }

    /// The outputs that feed the component, in the order of its inputs.
    pub fn inputs(&self) -> (lines: Vec<LineInner>)
        ensures
            lines@ == self.input_lines(),
    {
        match self {
            Component::Multiply { inputs, .. } => copy_lines(inputs.as_slice()),
            Component::Switch { inputs, .. } => copy_lines(inputs.as_slice()),
            Component::Evaluator(eval) => copy_lines(eval.inputs()),
            _ => Vec::new(),
        }
    }
}

fn copy_lines(lines: &[LineInner]) -> (copy: Vec<LineInner>)
    ensures
        copy@ == lines@,
{
    let mut copy: Vec<LineInner> = Vec::new();
    let mut i: usize = 0;
    while i < lines.len()
        invariant
            i <= lines@.len(),
            copy@ == lines@.take(i as int),
        decreases lines@.len() - i,
    {
        copy.push(lines[i]);
        assert(lines@.take(i + 1) =~= lines@.take(i as int).push(lines@[i as int]));
        i += 1;
    }
    assert(lines@.take(i as int) =~= lines@);
    copy
}

/// Whether `line` names an output of one of `components`.
pub open spec fn is_output(components: Seq<Component>, line: LineInner) -> bool {
    &&& line.component_index < components.len()
    &&& line.output_index < components[line.component_index as int].output_count()
}

/// Whether every input of the component at place `i` is an output of a
/// component at an earlier place.
pub open spec fn fed_from_before(components: Seq<Component>, i: int) -> bool {
    forall|j: int|
        0 <= j < components[i].input_lines().len() ==> is_output(
            components.take(i),
            #[trigger] components[i].input_lines()[j],
        )
}

/// An append-only, ordered collection of components. A component's inputs
/// are outputs of components that were there before it, so the wiring has
/// no cycle.
#[derive(Debug)]
pub struct Breadboard {
    identity: Guid,
    components: Vec<Component>,
}

/// The handles to the outputs of a target sensor.
#[derive(Clone, Copy)]
pub struct TargetInfoOutputs {
    pub present: Line<BNumber>,
    pub distance: Line<BNumber>,
    pub altitude: Line<BNumber>,
    /// Target bearing relative to our forward in degrees, from -180 to 180.
    pub bearing: Line<BNumber>,
    pub position: Line<BVector3>,
    pub velocity: Line<BVector3>,
    pub volume: Line<BNumber>,
}

impl Breadboard {
    /// The token by which the breadboard knows its own handles.
    pub closed spec fn identity(&self) -> Guid {
        self.identity
    }

    /// The components, in the order in which they were added.
    pub closed spec fn components(&self) -> Seq<Component> {
        self.components@
    }

    /// Every component is well formed and fed from components before it.
    pub open spec fn wf(&self) -> bool {
        &&& forall|i: int|
            0 <= i < self.components().len() ==> #[trigger] fed_from_before(self.components(), i)
        &&& forall|i: int|
            0 <= i < self.components().len() ==> (#[trigger] self.components()[i]).wf()
    }

    /// Whether `inner`, on a handle that `owner` gave out, is an output of
    /// this breadboard.
    pub open spec fn has_output(&self, owner: Guid, inner: LineInner) -> bool {
        &&& owner == self.identity()
        &&& is_output(self.components(), inner)
    }

    /// Whether the breadboard takes `line` as an input: the breadboard gave
    /// it out, and it names one of the breadboard's outputs.
    pub open spec fn accepts<T: LineValue>(&self, line: Line<T>) -> bool {
        self.has_output(line.owner(), line.inner())
    }

    /// Whether the breadboard takes every handle of `lines`.
    pub open spec fn accepts_all<T: LineValue>(&self, lines: Seq<Line<T>>) -> bool {
        forall|i: int| 0 <= i < lines.len() ==> self.accepts(#[trigger] lines[i])
    }

    /// Whether this breadboard is `before` with one component added at the
    /// end.
    pub open spec fn grown_from(&self, before: &Breadboard) -> bool {
        &&& self.identity() == before.identity()
        &&& self.components().len() == before.components().len() + 1
        &&& self.components().drop_last() == before.components()
    }

    /// The component that was added last.
    pub open spec fn newest(&self) -> Component {
        self.components().last()
    }

    /// Whether `line` is this breadboard's handle to output `output` of the
    /// component that was added last.
    pub open spec fn issued<T: LineValue>(&self, line: Line<T>, output: usize) -> bool {
        &&& line.owner() == self.identity()
        &&& line.inner().component_index == self.components().len() - 1
        &&& line.inner().output_index == output
    }

    /// A handle that a breadboard takes, it takes after it has grown.
    pub proof fn lemma_grown_keeps_lines(&self, before: &Breadboard, owner: Guid, inner: LineInner)
        requires
            self.grown_from(before),
            before.has_output(owner, inner),
        ensures
            self.has_output(owner, inner),
    {
        assert(self.components().drop_last()[inner.component_index as int]
            == self.components()[inner.component_index as int]);
    }

    /// A handle that another breadboard gave out is not taken, whatever
    /// output it names: no call that adds a component can be made with it.
    pub proof fn lemma_foreign_line_refused<T: LineValue>(&self, other: &Breadboard, line: Line<T>)
        requires
            line.owner() == other.identity(),
            other.identity() != self.identity(),
        ensures
            !self.accepts(line),
    {
    }

    /// A handle that names no output of the breadboard is not taken, though
    /// it bears the breadboard's identity.
    pub proof fn lemma_unknown_output_refused<T: LineValue>(&self, line: Line<T>)
        requires
            !is_output(self.components(), line.inner()),
        ensures
            !self.accepts(line),
    {
    }

    /// An empty breadboard that knows its handles by `identity`. Two
    /// breadboards tell their handles apart as far as their identities
    /// differ.
    pub fn with_identity(identity: Guid) -> (breadboard: Self)
        ensures
            breadboard.wf(),
            breadboard.identity() == identity,
            breadboard.components() == Seq::<Component>::empty(),
    {
        Breadboard { identity, components: Vec::new() }
    }

    /// An empty breadboard with a random identity.
    pub fn new() -> (breadboard: Self)
        ensures
            breadboard.wf(),
            breadboard.identity().is_version_four(),
            breadboard.components() == Seq::<Component>::empty(),
    {
        Breadboard::with_identity(Guid::random())
    }

    /// The token by which the breadboard knows its own handles.
    pub fn id(&self) -> (identity: Guid)
        ensures
            identity == self.identity(),
    {
        self.identity
    }

    /// The number of components.
    pub fn len(&self) -> (n: usize)
        ensures
            n == self.components().len(),
    {
        self.components.len()
    }

    /// The component at place `index`.
    pub fn component(&self, index: usize) -> (component: &Component)
        requires
            index < self.components().len(),
        ensures
            *component == self.components()[index as int],
    {
        &self.components[index]
    }

    /// Whether `inner` names an output of this breadboard.
    pub fn has_line(&self, inner: LineInner) -> (known: bool)
        ensures
            known == is_output(self.components(), inner),
    {
        inner.component_index < self.components.len()
            && inner.output_index < self.components[inner.component_index].num_outputs()
    }

    /// Whether the breadboard takes `line` as an input. A handle that
    /// another breadboard gave out is refused.
    pub fn verify_line<T: LineValue>(&self, line: &Line<T>) -> (accepted: bool)
        ensures
            accepted == self.accepts(*line),
    {
        let owner = line.breadboard_identity();
        self.identity.same(&owner) && self.has_line(line.address())
    }

    /// Whether the breadboard takes every handle of `lines`.
    pub fn verify_lines<T: LineValue>(&self, lines: &Vec<Line<T>>) -> (accepted: bool)
        ensures
            accepted == self.accepts_all(lines@),
    {
        let mut i: usize = 0;
        while i < lines.len()
            invariant
                i <= lines@.len(),
                forall|k: int| 0 <= k < i ==> self.accepts(#[trigger] lines@[k]),
            decreases lines@.len() - i,
        {
            if !self.verify_line(&lines[i]) {
                return false;
            }
            i += 1;
        }
        true
    }

    /// Inserts the component into the breadboard and returns its index.
    pub(crate) fn insert_component(&mut self, component: Component) -> (index: usize)
        requires
            old(self).wf(),
            component.wf(),
            forall|j: int|
                0 <= j < component.input_lines().len() ==> is_output(
                    old(self).components(),
                    #[trigger] component.input_lines()[j],
                ),
        ensures
            final(self).wf(),
            final(self).grown_from(old(self)),
            final(self).newest() == component,
            final(self).components() == old(self).components().push(component),
            index == old(self).components().len(),
    {
        let ghost before = self.components@;
        self.components.push(component);
        proof {
            let now = self.components@;
            assert(now.drop_last() =~= before);
            assert forall|i: int| 0 <= i < now.len() implies #[trigger] fed_from_before(
                now,
                i,
            ) by {
                if i < before.len() {
                    assert(before == old(self).components());
                    assert(fed_from_before(old(self).components(), i));
                    assert(now.take(i) =~= before.take(i));
                    assert(now[i] == before[i]);
                } else {
                    assert(now.take(i) =~= before);
                }
            }
            assert forall|i: int| 0 <= i < now.len() implies (#[trigger] now[i]).wf() by {
                if i < before.len() {
                    assert(before == old(self).components());
                    assert(now[i] == before[i]);
                }
            }
        }
        self.components.len() - 1
    }

    /// Inserts a component with one output and returns the handle to it.
    pub(crate) fn insert_component_with_output<T: LineValue>(
        &mut self,
        component: Component,
    ) -> (line: Line<T>)
        requires
            old(self).wf(),
            component.wf(),
            component.output_count() >= 1,
            forall|j: int|
                0 <= j < component.input_lines().len() ==> is_output(
                    old(self).components(),
                    #[trigger] component.input_lines()[j],
                ),
        ensures
            final(self).wf(),
            final(self).grown_from(old(self)),
            final(self).newest() == component,
            final(self).issued(line, 0),
            final(self).accepts(line),
    {
        let index = self.insert_component(component);
        Line::new(self.identity, index, 0)
    }

    /// Adds a component that gives the number `n`, limited to the range
    /// from -10000 to 10000.
    pub fn constant(&mut self, n: Float32) -> (line: Line<BNumber>)
        requires
            old(self).wf(),
        ensures
            final(self).wf(),
            final(self).grown_from(old(self)),
            final(self).newest() == (Component::Constant { n: limited(n, signal_limit()) }),
            final(self).issued(line, 0),
            final(self).accepts(line),
    {
        self.insert_component_with_output(Component::Constant { n: limit_to(n, 10000) })
    }

    /// Adds a component that gives a random number between `min` and
    /// `max`. `min` is limited to the range from -10000 to 10000, `max` to
    /// the range from the limited `min` to 10000.
    pub fn random_number(&mut self, min: Float32, max: Float32) -> (line: Line<BNumber>)
        requires
            old(self).wf(),
            !min.is_nan(),
        ensures
            final(self).wf(),
            final(self).grown_from(old(self)),
            final(self).newest() == (Component::RandomInput {
                min: limited(min, signal_limit()),
                max: max.clamped(limited(min, signal_limit()), signal_limit()),
            }),
            final(self).issued(line, 0),
            final(self).accepts(line),
    {
        let min = limit_to(min, 10000);
        let high = Float32::from_small_int(10000);
        let max = max.clamp(min, high);
        self.insert_component_with_output(Component::RandomInput { min, max })
    }

    /// Adds an altitude sensor.
    pub fn altitude(&mut self, altitude_type: AltitudeOutputType) -> (line: Line<BNumber>)
        requires
            old(self).wf(),
        ensures
            final(self).wf(),
            final(self).grown_from(old(self)),
            final(self).newest() == (Component::Altitude { typ: altitude_type }),
            final(self).issued(line, 0),
            final(self).accepts(line),
    {
        self.insert_component_with_output(Component::Altitude { typ: altitude_type })
    }

    /// Adds a position sensor.
    pub fn position(&mut self) -> (line: Line<BVector3>)
        requires
            old(self).wf(),
        ensures
            final(self).wf(),
            final(self).grown_from(old(self)),
            final(self).newest() == Component::Position,
            final(self).issued(line, 0),
            final(self).accepts(line),
    {
        self.insert_component_with_output(Component::Position)
    }

    /// Adds a speed sensor.
    pub fn speed(&mut self, speed_type: SpeedOutputType) -> (line: Line<BNumber>)
        requires
            old(self).wf(),
        ensures
            final(self).wf(),
            final(self).grown_from(old(self)),
            final(self).newest() == (Component::Speed { typ: speed_type }),
            final(self).issued(line, 0),
            final(self).accepts(line),
    {
        self.insert_component_with_output(Component::Speed { typ: speed_type })
    }

    /// Adds a velocity sensor.
    pub fn velocity(&mut self, speed_type: VelocityOutputType) -> (line: Line<BVector3>)
        requires
            old(self).wf(),
        ensures
            final(self).wf(),
            final(self).grown_from(old(self)),
            final(self).newest() == (Component::Velocity { typ: speed_type }),
            final(self).issued(line, 0),
            final(self).accepts(line),
    {
        self.insert_component_with_output(Component::Velocity { typ: speed_type })
    }

    /// Adds a sensor for the primary target, with its seven outputs.
    pub fn target_info(&mut self) -> (outputs: TargetInfoOutputs)
        requires
            old(self).wf(),
        ensures
            final(self).wf(),
            final(self).grown_from(old(self)),
            final(self).newest() == Component::TargetInfo,
            final(self).issued(outputs.present, 0),
            final(self).issued(outputs.distance, 1),
            final(self).issued(outputs.altitude, 2),
            final(self).issued(outputs.bearing, 3),
            final(self).issued(outputs.position, 4),
            final(self).issued(outputs.velocity, 5),
            final(self).issued(outputs.volume, 6),
            final(self).accepts(outputs.present),
            final(self).accepts(outputs.distance),
            final(self).accepts(outputs.altitude),
            final(self).accepts(outputs.bearing),
            final(self).accepts(outputs.position),
            final(self).accepts(outputs.velocity),
            final(self).accepts(outputs.volume),
    {
        let component_id = self.insert_component(Component::TargetInfo);
        TargetInfoOutputs {
            present: Line::new(self.identity, component_id, 0),
            distance: Line::new(self.identity, component_id, 1),
            altitude: Line::new(self.identity, component_id, 2),
            bearing: Line::new(self.identity, component_id, 3),
            position: Line::new(self.identity, component_id, 4),
            velocity: Line::new(self.identity, component_id, 5),
            volume: Line::new(self.identity, component_id, 6),
        }
    }

    /// Adds a component that gives the sum of its inputs, times
    /// `multiplier` limited to the range from -100 to 100.
    pub fn multiply<G: InputGroup<BNumber>>(&mut self, inputs: &G, multiplier: Float32) -> (line:
        Line<BNumber>)
        requires
            old(self).wf(),
            old(self).accepts_all(inputs.lines()),
        ensures
            final(self).wf(),
            final(self).grown_from(old(self)),
            final(self).newest() matches Component::Multiply { multiplier: m, inputs: lines }
                && m == limited(multiplier, multiplier_limit()) && lines@ == addresses(
                inputs.lines(),
            ),
            final(self).issued(line, 0),
            final(self).accepts(line),
    {
        let multiplier = limit_to(multiplier, 100);
        let lines = inputs.as_vec();
        proof {
            assert forall|j: int| 0 <= j < lines@.len() implies is_output(
                self.components(),
                #[trigger] lines@[j],
            ) by {
                assert(self.accepts(inputs.lines()[j]));
            }
        }
        self.insert_component_with_output(Component::Multiply { multiplier, inputs: lines })
    }

    /// Adds a switch that passes `passthrough` on while `switch_signal`
    /// reaches the threshold, and gives the open value otherwise. Both
    /// settings are limited to the range from -10000 to 10000.
    pub fn switch(
        &mut self,
        passthrough: Line<BNumber>,
        switch_signal: Line<BNumber>,
        options: SwitchOptions,
    ) -> (line: Line<BNumber>)
        requires
            old(self).wf(),
            old(self).accepts(passthrough),
            old(self).accepts(switch_signal),
        ensures
            final(self).wf(),
            final(self).grown_from(old(self)),
            final(self).newest() matches Component::Switch { inputs, threshhold, open_value }
                && inputs@ == seq![passthrough.inner(), switch_signal.inner()] && threshhold
                == limited(options.threshhold, signal_limit()) && open_value == limited(
                options.open_value,
                signal_limit(),
            ),
            final(self).issued(line, 0),
            final(self).accepts(line),
    {
        let inputs = [passthrough.address(), switch_signal.address()];
        assert(inputs@ =~= seq![passthrough.inner(), switch_signal.inner()]);
        self.insert_component_with_output(
            Component::Switch {
                inputs,
                threshhold: limit_to(options.threshhold, 10000),
                open_value: limit_to(options.open_value, 10000),
            },
        )
    }
}

impl Default for Breadboard {
    /// An empty breadboard with a random identity.
    fn default() -> (breadboard: Self)
        ensures
            breadboard.wf(),
            breadboard.identity().is_version_four(),
            breadboard.components() == Seq::<Component>::empty(),
    {
        Breadboard::new()
    }
}

} // verus!
