//! Writing a breadboard out as a block of the blueprint container: one
//! section for every component, and the main section that lists them.

use vstd::prelude::*;
use super::wire_map::{
    fit, lemma_parameter_ids, minted, wired_entries, wired_ids, BreadboardWireMap,
};
use super::{fed_from_before, is_output, Breadboard, Component};
use crate::float32::Float32;
use crate::ftd_data::{
    bodies, section_headers, BlockData, BlockIndex, BlueprintData, DataEntry, EntryView,
    SectionData, SectionId,
};
use crate::guid::{permuted, Guid};
use crate::keyed::{keys_after, values_after};

verus! {

/// Ids used for components to avoid interfering with other ids
pub const COMPONENT_ID_START: u32 = 72542;

/// The id of the section that lists the components.
pub const MAIN_SECTION: u32 = 9999;

/// The most components that the main section can list under 16-bit ids.
pub const MAX_COMPONENTS: usize = 32768;

/// Where a component is drawn, and how large.
#[derive(Debug, Clone, Copy)]
pub struct ComponentPosition {
    pub x: Float32,
    pub y: Float32,
    pub width: Float32,
    pub height: Float32,
}

/// The ids of a section once a position was put into it.
pub open spec fn positioned_ids(ids: Seq<u32>) -> Seq<u32> {
    keys_after(keys_after(keys_after(keys_after(ids, 8000), 8001), 8002), 8003)
}

/// The entries of a section once `position` was put into it, under the ids
/// 8000 to 8003.
pub open spec fn positioned_entries(
    ids: Seq<u32>,
    entries: Seq<EntryView>,
    position: ComponentPosition,
) -> Seq<EntryView> {
    let ids1 = keys_after(ids, 8000);
    let ids2 = keys_after(ids1, 8001);
    let ids3 = keys_after(ids2, 8002);
    let entries1 = values_after(ids, entries, 8000, EntryView::F32(position.x));
    let entries2 = values_after(ids1, entries1, 8001, EntryView::F32(position.y));
    let entries3 = values_after(ids2, entries2, 8002, EntryView::F32(position.width));
    values_after(ids3, entries3, 8003, EntryView::F32(position.height))
}

impl ComponentPosition {
    /// The position at `x` and `y`, with the width and height of 25 that
    /// every component has.
    pub fn new(x: Float32, y: Float32) -> (position: ComponentPosition)
        ensures
            position.x == x,
            position.y == y,
            position.width == Float32::of_nat(25),
            position.height == Float32::of_nat(25),
    {
        ComponentPosition {
            x,
            y,
            width: Float32::from_small_int(25),
            height: Float32::from_small_int(25),
        }
    }

    /// Puts the position into `section_data`, under the ids 8000 to 8003.
    pub fn set_section_data_position(&self, section_data: &mut SectionData)
        requires
            old(section_data).wf(),
        ensures
            final(section_data).wf(),
            final(section_data).ids() == positioned_ids(old(section_data).ids()),
            final(section_data).entry_views() == positioned_entries(
                old(section_data).ids(),
                old(section_data).entry_views(),
                *self,
            ),
    {
        section_data.add_entry(8000, DataEntry::F32(self.x));
        section_data.add_entry(8001, DataEntry::F32(self.y));
        section_data.add_entry(8002, DataEntry::F32(self.width));
        section_data.add_entry(8003, DataEntry::F32(self.height));
    }
}

/// The ids of the sections of a breadboard's block: two sections that the
/// host expects, one section for each of the `n` components, and the main
/// section.
pub open spec fn block_section_ids(n: nat) -> Seq<u32> {
    seq![3000u32, 72541u32] + Seq::new(n, |i: int| (72542 + i) as u32) + seq![9999u32]
}

/// The ids of a component's section in the block.
pub open spec fn placed_ids(component: Component) -> Seq<u32> {
    wired_ids(component) + seq![8000u32, 8001u32, 8002u32, 8003u32]
}

/// The entries of the section of the component at place `index`: its
/// settings, its wires, and its position, 200 units to the right of the
/// component before it.
pub open spec fn placed_entries(
    component: Component,
    index: int,
    locals: Seq<Guid>,
    own_outputs: Seq<Guid>,
    outputs: Seq<Seq<Guid>>,
) -> Seq<EntryView> {
    wired_entries(component, locals, own_outputs, outputs) + seq![
        EntryView::F32(Float32::of_nat((200 * index) as nat)),
        EntryView::F32(Float32::of_nat(0)),
        EntryView::F32(Float32::of_nat(25)),
        EntryView::F32(Float32::of_nat(25)),
    ]
}

/// The ids of the main section for `n` components: two entries for each.
pub open spec fn main_ids(n: nat) -> Seq<u32> {
    Seq::new(2 * n, |k: int| k as u32)
}

/// The entries of the main section: for each component, its type
/// identifier in the notation of the host's files, then the id of its
/// section.
pub open spec fn main_entries(components: Seq<Component>) -> Seq<EntryView> {
    Seq::new(
        2 * components.len(),
        |k: int|
            if k % 2 == 0 {
                EntryView::Uuid(permuted(components[k / 2].type_id()))
            } else {
                EntryView::U32((72542 + k / 2) as u32)
            },
    )
}

/// Whether `block` is the block of a breadboard with these components and
/// these identifiers for their wires.
pub open spec fn describes(
    block: BlockData,
    components: Seq<Component>,
    outputs: Seq<Seq<Guid>>,
    locals: Seq<Seq<Guid>>,
) -> bool {
    let n = components.len() as int;
    let sections = block.sections();
    &&& block.section_ids() == block_section_ids(n as nat)
    &&& sections.len() == n + 3
    &&& sections[0].ids() == Seq::<u32>::empty()
    &&& sections[1].ids() == Seq::<u32>::empty()
    &&& forall|k: int|
        2 <= k < n + 2 ==> (#[trigger] sections[k]).ids() == placed_ids(components[k - 2])
            && sections[k].entry_views() == placed_entries(
            components[k - 2],
            k - 2,
            locals[k - 2],
            outputs[k - 2],
            outputs,
        )
    &&& sections[n + 2].ids() == main_ids(n as nat)
    &&& sections[n + 2].entry_views() == main_entries(components)
}

/// Sections that agree one by one in their bytes have the same bodies and
/// the same headers.
pub proof fn lemma_sections_agree(ids: Seq<u32>, a: Seq<SectionData>, b: Seq<SectionData>)
    requires
        a.len() == b.len(),
        forall|i: int| 0 <= i < a.len() ==> (#[trigger] a[i]).bytes() == b[i].bytes(),
    ensures
        bodies(a) == bodies(b),
        section_headers(ids, a) == section_headers(ids, b),
    decreases a.len(), ids.len(),
{
    if a.len() > 0 {
        assert(a.last().bytes() == b.last().bytes());
        let front = a.drop_last();
        assert forall|i: int| 0 <= i < front.len() implies (#[trigger] front[i]).bytes()
            == b.drop_last()[i].bytes() by {
            assert(a.drop_last()[i] == a[i]);
            assert(b.drop_last()[i] == b[i]);
        }
        lemma_sections_agree(ids.drop_last(), a.drop_last(), b.drop_last());
    }
}

/// The wire identifiers decide the block: two blocks of the same components
/// with the same identifiers are written out as the same bytes.
pub proof fn lemma_described_blocks_agree(
    first: BlockData,
    second: BlockData,
    components: Seq<Component>,
    outputs: Seq<Seq<Guid>>,
    locals: Seq<Seq<Guid>>,
)
    requires
        describes(first, components, outputs, locals),
        describes(second, components, outputs, locals),
    ensures
        first.bytes() == second.bytes(),
{
    let a = first.sections();
    let b = second.sections();
    let n = components.len() as int;
    assert forall|i: int| 0 <= i < a.len() implies (#[trigger] a[i]).bytes() == b[i].bytes() by {
        if i < 2 {
            assert(a[i].ids() == b[i].ids());
        } else if i < n + 2 {
            assert(a[i].ids() == b[i].ids());
            assert(a[i].entry_views() == b[i].entry_views());
        } else {
            assert(a[i].entry_views() == b[i].entry_views());
        }
    }
    lemma_sections_agree(first.section_ids(), a, b);
}

/// A key above every key of `keys` is not among them.
proof fn lemma_absent_above(keys: Seq<u32>, bound: u32, key: u32)
    requires
        forall|i: int| 0 <= i < keys.len() ==> #[trigger] keys[i] < bound,
        key >= bound,
    ensures
        !keys.contains(key),
        keys_after(keys, key) == keys.push(key),
{
    if keys.contains(key) {
        let i = choose|i: int| 0 <= i < keys.len() && keys[i] == key;
        assert(keys[i] < bound);
    }
}

/// Putting a position into the section of a component adds four entries at
/// its end.
proof fn lemma_placed(component: Component, entries: Seq<EntryView>, position: ComponentPosition)
    requires
        entries.len() == wired_ids(component).len(),
    ensures
        positioned_ids(wired_ids(component)) == placed_ids(component),
        positioned_entries(wired_ids(component), entries, position) == entries + seq![
            EntryView::F32(position.x),
            EntryView::F32(position.y),
            EntryView::F32(position.width),
            EntryView::F32(position.height),
        ],
{
    lemma_parameter_ids(component);
    let ids = wired_ids(component);
    assert forall|i: int| 0 <= i < ids.len() implies #[trigger] ids[i] < 8000 by {
        if i < component.parameter_ids().len() {
            assert(ids[i] == component.parameter_ids()[i]);
        }
    }
    lemma_absent_above(ids, 8000, 8000);
    let ids1 = ids.push(8000u32);
    assert forall|i: int| 0 <= i < ids1.len() implies #[trigger] ids1[i] < 8001 by {
        if i < ids.len() {
            assert(ids1[i] == ids[i]);
        }
    }
    lemma_absent_above(ids1, 8001, 8001);
    let ids2 = ids1.push(8001u32);
    assert forall|i: int| 0 <= i < ids2.len() implies #[trigger] ids2[i] < 8002 by {
        if i < ids1.len() {
            assert(ids2[i] == ids1[i]);
        }
    }
    lemma_absent_above(ids2, 8002, 8002);
    let ids3 = ids2.push(8002u32);
    assert forall|i: int| 0 <= i < ids3.len() implies #[trigger] ids3[i] < 8003 by {
        if i < ids2.len() {
            assert(ids3[i] == ids2[i]);
        }
    }
    lemma_absent_above(ids3, 8003, 8003);
    assert(positioned_ids(ids) =~= placed_ids(component));
    assert(positioned_entries(ids, entries, position) =~= entries + seq![
        EntryView::F32(position.x),
        EntryView::F32(position.y),
        EntryView::F32(position.width),
        EntryView::F32(position.height),
    ]);
}

impl Breadboard {
    /// Whether the breadboard can be written out: the main section lists
    /// its components under 16-bit ids, two for each.
    pub open spec fn writable(&self) -> bool {
        self.components().len() <= 32768
    }

    /// The block of the breadboard, with the wire identifiers of
    /// `wire_map`.
    pub fn block_data_with(&self, wire_map: &BreadboardWireMap) -> (block: BlockData)
        requires
            self.wf(),
            self.writable(),
            wire_map.fits(self.components()),
        ensures
            block.wf(),
            describes(block, self.components(), wire_map.outputs(), wire_map.locals()),
    {
        let ghost components = self.components();
        let ghost outputs = wire_map.outputs();
        let ghost locals = wire_map.locals();
        let mut data = BlockData::new();
        // the host generates these two empty sections for a breadboard
        data.add_section_data(SectionId::new(3000), SectionData::new());
        proof {
            lemma_absent_above(seq![3000u32], 3001, 72541);
        }
        data.add_section_data(SectionId::new(72541), SectionData::new());
        let mut breadboard_main_section = SectionData::new();
        let n = self.components.len();
        let mut i: usize = 0;
        proof {
            assert(data.section_ids() =~= seq![3000u32, 72541u32] + Seq::new(
                0,
                |k: int| (72542 + k) as u32,
            ));
            assert(breadboard_main_section.ids() =~= main_ids(0));
            assert(breadboard_main_section.entry_views() =~= main_entries(components.take(0)));
        }
        while i < n
            invariant
                self.wf(),
                components == self.components(),
                outputs == wire_map.outputs(),
                locals == wire_map.locals(),
                fit(outputs, locals, components),
                n == components.len(),
                n <= 32768,
                i <= n,
                data.wf(),
                breadboard_main_section.wf(),
                data.section_ids() == seq![3000u32, 72541u32] + Seq::new(
                    i as nat,
                    |k: int| (72542 + k) as u32,
                ),
                data.sections().len() == i + 2,
                data.sections()[0].ids() == Seq::<u32>::empty(),
                data.sections()[1].ids() == Seq::<u32>::empty(),
                forall|k: int|
                    2 <= k < i + 2 ==> (#[trigger] data.sections()[k]).ids() == placed_ids(
                        components[k - 2],
                    ) && data.sections()[k].entry_views() == placed_entries(
                        components[k - 2],
                        k - 2,
                        locals[k - 2],
                        outputs[k - 2],
                        outputs,
                    ),
                breadboard_main_section.ids() == main_ids(i as nat),
                breadboard_main_section.entry_views() == main_entries(components.take(i as int)),
            decreases n - i,
        {
            let component = &self.components[i];
            let ghost main_before = breadboard_main_section.ids();
            let ghost main_views = breadboard_main_section.entry_views();
            proof {
                lemma_absent_above(main_before, (2 * i) as u32, (2 * i) as u32);
            }
            breadboard_main_section.add_entry((2 * i) as u16, DataEntry::Uuid(component.uuid()));
            let component_id = COMPONENT_ID_START + i as u32;
            proof {
                lemma_absent_above(
                    breadboard_main_section.ids(),
                    (2 * i + 1) as u32,
                    (2 * i + 1) as u32,
                );
            }
            breadboard_main_section.add_entry((2 * i + 1) as u16, DataEntry::U32(component_id));
            proof {
                assert(breadboard_main_section.ids() =~= main_ids((i + 1) as nat));
                assert(breadboard_main_section.entry_views() =~= main_entries(
                    components.take(i + 1),
                ));
                assert(fed_from_before(components, i as int));
                assert forall|j: int| 0 <= j < component.input_lines().len() implies {
                    let line = #[trigger] component.input_lines()[j];
                    line.component_index < outputs.len() && line.output_index
                        < outputs[line.component_index as int].len()
                } by {
                    let line = component.input_lines()[j];
                    assert(is_output(components.take(i as int), line));
                    assert(components.take(i as int)[line.component_index as int]
                        == components[line.component_index as int]);
                }
            }
            let mut component_section_data =
                wire_map.get_component_data_section_with_inputs_and_outputs(i, component);
            let ghost wired = component_section_data.entry_views();
            let position = ComponentPosition::new(
                Float32::from_small_int(200 * (i as u32)),
                Float32::from_small_int(0),
            );
            proof {
                component_section_data.lemma_wf();
                lemma_parameter_ids(*component);
                lemma_placed(*component, wired, position);
            }
            position.set_section_data_position(&mut component_section_data);
            let ghost section_ids = data.section_ids();
            let ghost sections = data.sections();
            proof {
                assert forall|k: int| 0 <= k < section_ids.len() implies #[trigger] section_ids[k]
                    < component_id by {
                    if k >= 2 {
                        assert(section_ids[k] == (72542 + (k - 2)) as u32);
                    }
                }
                lemma_absent_above(section_ids, component_id, component_id);
            }
            data.add_section_data(SectionId::new(component_id), component_section_data);
            proof {
                assert(data.section_ids() =~= seq![3000u32, 72541u32] + Seq::new(
                    (i + 1) as nat,
                    |k: int| (72542 + k) as u32,
                ));
                assert(data.sections() == sections.push(component_section_data));
                assert forall|k: int| 2 <= k < i + 3 implies (#[trigger] data.sections()[k]).ids()
                    == placed_ids(components[k - 2]) && data.sections()[k].entry_views()
                    == placed_entries(
                    components[k - 2],
                    k - 2,
                    locals[k - 2],
                    outputs[k - 2],
                    outputs,
                ) by {
                    if k < i + 2 {
                        assert(data.sections()[k] == sections[k]);
                    }
                }
            }
            i += 1;
        }
        proof {
            assert(components.take(n as int) =~= components);
            let section_ids = data.section_ids();
            if section_ids.contains(9999u32) {
                let k = choose|k: int| 0 <= k < section_ids.len() && section_ids[k] == 9999u32;
                if k >= 2 {
                    assert(section_ids[k] == (72542 + (k - 2)) as u32);
                }
            }
        }
        let ghost sections = data.sections();
        // the host looks at this section to instantiate components
        data.add_section_data(SectionId::new(MAIN_SECTION), breadboard_main_section);
        proof {
            assert(data.section_ids() =~= block_section_ids(n as nat));
            assert(data.sections() == sections.push(breadboard_main_section));
            assert forall|k: int| 2 <= k < n + 2 implies (#[trigger] data.sections()[k]).ids()
                == placed_ids(components[k - 2]) && data.sections()[k].entry_views()
                == placed_entries(
                components[k - 2],
                k - 2,
                locals[k - 2],
                outputs[k - 2],
                outputs,
            ) by {
                assert(data.sections()[k] == sections[k]);
            }
            assert(data.sections()[0] == sections[0]);
            assert(data.sections()[1] == sections[1]);
        }
        data
    }

    /// The block of the breadboard, with fresh identifiers for its wires.
    /// The identifiers are random and bear the marks of random identifiers;
    /// the block is the one that `block_data_with` gives for them.
    pub fn block_data(&self) -> (block: BlockData)
        requires
            self.wf(),
            self.writable(),
        ensures
            block.wf(),
            exists|outputs: Seq<Seq<Guid>>, locals: Seq<Seq<Guid>>|
                fit(outputs, locals, self.components()) && minted(outputs) && minted(locals)
                    && describes(block, self.components(), outputs, locals),
    {
        let wire_map = BreadboardWireMap::mint(&self.components);
        self.block_data_with(&wire_map)
    }

    /// The blueprint that holds the breadboard as its block 0, with fresh
    /// identifiers for the breadboard's wires.
    pub fn blueprint(&self) -> (blueprint: BlueprintData)
        requires
            self.wf(),
            self.writable(),
        ensures
            blueprint.wf(),
            blueprint.block_indices() == seq![0u32],
            blueprint.blocks().len() == 1,
            exists|outputs: Seq<Seq<Guid>>, locals: Seq<Seq<Guid>>|
                fit(outputs, locals, self.components()) && minted(outputs) && minted(locals)
                    && describes(blueprint.blocks()[0], self.components(), outputs, locals),
    {
        let mut data = BlueprintData::new();
        data.add_block_data(BlockIndex::new(0), self.block_data());
        data
    }
}

} // verus!
