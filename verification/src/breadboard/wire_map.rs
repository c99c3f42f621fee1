//! The identifiers that a breadboard's wires get when it is written out:
//! one for every output of every component, and one more for every input,
//! which the host wants beside the identifier of the output that feeds it.

use vstd::prelude::*;
use super::line_value::LineInner;
use super::Component;
use crate::ftd_data::{DataEntry, EntryView, SectionData};
use crate::guid::Guid;

verus! {

/// The id of the entry that holds a component's input descriptors.
pub const INPUTS_ENTRY: u16 = 900;

/// The id of the entry that holds the identifiers of a component's outputs.
pub const OUTPUTS_ENTRY: u16 = 901;

/// The bytes of the identifiers, one after another.
pub open spec fn flat(ids: Seq<Guid>) -> Seq<u8>
    decreases ids.len(),
{
    if ids.len() == 0 {
        Seq::empty()
    } else {
        flat(ids.drop_last()) + ids.last()@
    }
}

/// One descriptor for every input: the input's own identifier, then the
/// identifier of the output that feeds it.
pub open spec fn input_descriptors(locals: Seq<Guid>, sources: Seq<Guid>) -> Seq<u8>
    decreases locals.len(),
{
    if locals.len() == 0 || sources.len() == 0 {
        Seq::empty()
    } else {
        input_descriptors(locals.drop_last(), sources.drop_last()) + locals.last()@
            + sources.last()@
    }
}

/// The identifiers of the outputs that `lines` name.
pub open spec fn sources(lines: Seq<LineInner>, outputs: Seq<Seq<Guid>>) -> Seq<Guid> {
    Seq::new(
        lines.len(),
        |j: int| outputs[lines[j].component_index as int][lines[j].output_index as int],
    )
}

/// Whether there is one identifier for every output and one for every
/// input of every component.
pub open spec fn fit(
    outputs: Seq<Seq<Guid>>,
    locals: Seq<Seq<Guid>>,
    components: Seq<Component>,
) -> bool {
    &&& outputs.len() == components.len()
    &&& locals.len() == components.len()
    &&& forall|i: int|
        0 <= i < components.len() ==> (#[trigger] outputs[i]).len() == components[i].output_count()
    &&& forall|i: int|
        0 <= i < components.len() ==> (#[trigger] locals[i]).len()
            == components[i].input_lines().len()
}

/// Whether every identifier bears the marks of a random identifier.
pub open spec fn minted(ids: Seq<Seq<Guid>>) -> bool {
    forall|i: int, j: int|
        0 <= i < ids.len() && 0 <= j < ids[i].len() ==> (#[trigger] ids[i][j]).is_version_four()
}

/// The ids of a component's section once its wires were added.
pub open spec fn wired_ids(component: Component) -> Seq<u32> {
    component.parameter_ids() + seq![900u32, 901u32]
}

/// The entries of a component's section once its wires were added: the
/// component's settings, its input descriptors, its output identifiers.
pub open spec fn wired_entries(
    component: Component,
    locals: Seq<Guid>,
    own_outputs: Seq<Guid>,
    outputs: Seq<Seq<Guid>>,
) -> Seq<EntryView> {
    component.parameters() + seq![
        EntryView::Bytes(input_descriptors(locals, sources(component.input_lines(), outputs))),
        EntryView::Bytes(flat(own_outputs)),
    ]
}

/// The identifiers of a breadboard's wires.
#[derive(Debug)]
pub struct BreadboardWireMap {
    /// 2d array where first index is component id, 2nd is output index
    data: Vec<Vec<Guid>>,
    /// 2d array where first index is component id, 2nd is input index
    local: Vec<Vec<Guid>>,
}

fn fresh_ids(count: usize) -> (ids: Vec<Guid>)
    ensures
        ids@.len() == count,
        forall|j: int| 0 <= j < count ==> (#[trigger] ids@[j]).is_version_four(),
{
    let mut ids: Vec<Guid> = Vec::new();
    let mut i: usize = 0;
    while i < count
        invariant
            i <= count,
            ids@.len() == i,
            forall|j: int| 0 <= j < i ==> (#[trigger] ids@[j]).is_version_four(),
        decreases count - i,
    {
        ids.push(Guid::random());
        i += 1;
    }
    ids
}

impl BreadboardWireMap {
    /// The identifiers of the outputs, by component and output.
    pub closed spec fn outputs(&self) -> Seq<Seq<Guid>> {
        Seq::new(self.data@.len(), |i: int| self.data@[i]@)
    }

    /// The identifiers of the inputs, by component and input.
    pub closed spec fn locals(&self) -> Seq<Seq<Guid>> {
        Seq::new(self.local@.len(), |i: int| self.local@[i]@)
    }

    /// Whether the map has one identifier for every output and one for
    /// every input of every component.
    pub open spec fn fits(&self, components: Seq<Component>) -> bool {
        fit(self.outputs(), self.locals(), components)
    }

    /// A map for `num_components` components, without identifiers yet.
    pub fn new(num_components: usize) -> (map: Self)
        ensures
            map.outputs().len() == num_components,
            map.locals().len() == num_components,
            forall|i: int| 0 <= i < num_components ==> (#[trigger] map.outputs()[i]).len() == 0,
            forall|i: int| 0 <= i < num_components ==> (#[trigger] map.locals()[i]).len() == 0,
    {
        let mut data: Vec<Vec<Guid>> = Vec::new();
        let mut local: Vec<Vec<Guid>> = Vec::new();
        let mut i: usize = 0;
        while i < num_components
            invariant
                i <= num_components,
                data@.len() == i,
                local@.len() == i,
                forall|k: int| 0 <= k < i ==> (#[trigger] data@[k])@.len() == 0,
                forall|k: int| 0 <= k < i ==> (#[trigger] local@[k])@.len() == 0,
            decreases num_components - i,
        {
            data.push(Vec::new());
            local.push(Vec::new());
            i += 1;
        }
        BreadboardWireMap { data, local }
    }

    /// A map that holds the given identifiers.
    pub fn from_ids(data: Vec<Vec<Guid>>, local: Vec<Vec<Guid>>) -> (map: Self)
        ensures
            map.outputs() == Seq::new(data@.len(), |i: int| data@[i]@),
            map.locals() == Seq::new(local@.len(), |i: int| local@[i]@),
    {
        BreadboardWireMap { data, local }
    }

    /// Gives the component at `component_index` fresh identifiers for
    /// `num_outputs` outputs and `num_inputs` inputs, in place of those it
    /// had.
    pub fn set_num_outputs(&mut self, component_index: usize, num_outputs: usize, num_inputs: usize)
        requires
            component_index < old(self).outputs().len(),
            component_index < old(self).locals().len(),
        ensures
            final(self).outputs().len() == old(self).outputs().len(),
            final(self).locals().len() == old(self).locals().len(),
            final(self).outputs()[component_index as int].len() == num_outputs,
            final(self).locals()[component_index as int].len() == num_inputs,
            forall|j: int|
                0 <= j < num_outputs ==> (#[trigger] final(self).outputs()[component_index
                    as int][j]).is_version_four(),
            forall|j: int|
                0 <= j < num_inputs ==> (#[trigger] final(self).locals()[component_index
                    as int][j]).is_version_four(),
            forall|i: int|
                0 <= i < old(self).outputs().len() && i != component_index
                    ==> #[trigger] final(self).outputs()[i] == old(self).outputs()[i],
            forall|i: int|
                0 <= i < old(self).locals().len() && i != component_index
                    ==> #[trigger] final(self).locals()[i] == old(self).locals()[i],
    {
        self.data.set(component_index, fresh_ids(num_outputs));
        self.local.set(component_index, fresh_ids(num_inputs));
    }

    /// A map with fresh identifiers for the wires of `components`.
    pub fn mint(components: &Vec<Component>) -> (map: Self)
        ensures
            map.fits(components@),
            minted(map.outputs()),
            minted(map.locals()),
    {
        let n = components.len();
        let mut map = BreadboardWireMap::new(n);
        let mut i: usize = 0;
        while i < n
            invariant
                n == components@.len(),
                i <= n,
                map.outputs().len() == n,
                map.locals().len() == n,
                forall|k: int|
                    0 <= k < i ==> (#[trigger] map.outputs()[k]).len()
                        == components@[k].output_count(),
                forall|k: int|
                    0 <= k < i ==> (#[trigger] map.locals()[k]).len()
                        == components@[k].input_lines().len(),
                forall|k: int, j: int|
                    0 <= k < i && 0 <= j < map.outputs()[k].len() ==> (#[trigger] map
                        .outputs()[k][j]).is_version_four(),
                forall|k: int, j: int|
                    0 <= k < i && 0 <= j < map.locals()[k].len() ==> (#[trigger] map
                        .locals()[k][j]).is_version_four(),
            decreases n - i,
        {
            let component = &components[i];
            let inputs = component.inputs();
            map.set_num_outputs(i, component.num_outputs(), inputs.len());
            i += 1;
        }
        map
    }

    /// The identifier of the output that `line` names.
    pub fn get_output_uuid(&self, line: LineInner) -> (id: &Guid)
        requires
            line.component_index < self.outputs().len(),
            line.output_index < self.outputs()[line.component_index as int].len(),
        ensures
            *id == self.outputs()[line.component_index as int][line.output_index as int],
    {
        &self.data[line.component_index][line.output_index]
    }

    /// The section of the component at `component_index`: its settings, its
    /// input descriptors under entry 900 and the identifiers of its outputs
    /// under entry 901.
    pub fn get_component_data_section_with_inputs_and_outputs(
        &self,
        component_index: usize,
        component: &Component,
    ) -> (section: SectionData)
        requires
            component_index < self.outputs().len(),
            component_index < self.locals().len(),
            self.locals()[component_index as int].len() == component.input_lines().len(),
            forall|j: int|
                0 <= j < component.input_lines().len() ==> {
                    let line = #[trigger] component.input_lines()[j];
                    line.component_index < self.outputs().len() && line.output_index
                        < self.outputs()[line.component_index as int].len()
                },
        ensures
            section.wf(),
            section.ids() == wired_ids(*component),
            section.entry_views() == wired_entries(
                *component,
                self.locals()[component_index as int],
                self.outputs()[component_index as int],
                self.outputs(),
            ),
    {
        let lines = component.inputs();
        let ghost locals = self.locals()[component_index as int];
        let ghost feeding = sources(component.input_lines(), self.outputs());
        let mut input_bytes: Vec<u8> = Vec::new();
        let mut j: usize = 0;
        assert(locals.take(0) =~= Seq::<Guid>::empty());
        while j < lines.len()
            invariant
                j <= lines@.len(),
                lines@ == component.input_lines(),
                component_index < self.locals().len(),
                locals == self.locals()[component_index as int],
                locals.len() == lines@.len(),
                feeding == sources(component.input_lines(), self.outputs()),
                forall|k: int|
                    0 <= k < component.input_lines().len() ==> {
                        let line = #[trigger] component.input_lines()[k];
                        line.component_index < self.outputs().len() && line.output_index
                            < self.outputs()[line.component_index as int].len()
                    },
                input_bytes@ == input_descriptors(locals.take(j as int), feeding.take(j as int)),
            decreases lines@.len() - j,
        {
            let line = lines[j];
            assert(line == component.input_lines()[j as int]);
            let local_id = &self.local[component_index][j];
            let source_id = self.get_output_uuid(line);
            let ghost before = input_bytes@;
            push_id(&mut input_bytes, local_id);
            push_id(&mut input_bytes, source_id);
            proof {
                assert(locals.take(j + 1).drop_last() =~= locals.take(j as int));
                assert(feeding.take(j + 1).drop_last() =~= feeding.take(j as int));
                assert(locals.take(j + 1).last() == *local_id);
                assert(feeding.take(j + 1).last() == *source_id);
                assert(input_bytes@ =~= before + local_id@ + source_id@);
            }
            j += 1;
        }
        proof {
            assert(locals.take(j as int) =~= locals);
            assert(feeding.take(j as int) =~= feeding);
        }
        let own = &self.data[component_index];
        let mut output_bytes: Vec<u8> = Vec::new();
        let mut k: usize = 0;
        assert(own@.take(0) =~= Seq::<Guid>::empty());
        while k < own.len()
            invariant
                k <= own@.len(),
                output_bytes@ == flat(own@.take(k as int)),
            decreases own@.len() - k,
        {
            let ghost before = output_bytes@;
            push_id(&mut output_bytes, &own[k]);
            proof {
                assert(own@.take(k + 1).drop_last() =~= own@.take(k as int));
                assert(output_bytes@ =~= before + own@[k as int]@);
            }
            k += 1;
        }
        assert(own@.take(k as int) =~= own@);
        let parameters = component.section_data();
        proof {
            parameters.lemma_wf();
            lemma_parameter_ids(*component);
        }
        let with_inputs = parameters.with_entry(INPUTS_ENTRY, DataEntry::Bytes(input_bytes));
        proof {
            assert(with_inputs.ids() =~= component.parameter_ids().push(900u32));
            assert(!with_inputs.ids().contains(901u32)) by {
                if with_inputs.ids().contains(901u32) {
                    let i = choose|i: int|
                        0 <= i < with_inputs.ids().len() && with_inputs.ids()[i] == 901u32;
                    assert(i < component.parameter_ids().len());
                    assert(component.parameter_ids()[i] == 901u32);
                }
            }
        }
        let section = with_inputs.with_entry(OUTPUTS_ENTRY, DataEntry::Bytes(output_bytes));
        assert(section.ids() =~= wired_ids(*component));
        assert(section.entry_views() =~= wired_entries(
            *component,
            self.locals()[component_index as int],
            self.outputs()[component_index as int],
            self.outputs(),
        ));
        section
    }
}

/// The ids of a component's settings are below every id that the library
/// adds to a component's section.
pub proof fn lemma_parameter_ids(component: Component)
    ensures
        forall|i: int|
            0 <= i < component.parameter_ids().len() ==> #[trigger] component.parameter_ids()[i]
                < 2,
        component.parameter_ids().len() == component.parameters().len(),
        !component.parameter_ids().contains(900u32),
        !component.parameter_ids().contains(901u32),
{
}

fn push_id(bytes: &mut Vec<u8>, id: &Guid)
    ensures
        final(bytes)@ == old(bytes)@ + id@,
{
    let raw = id.as_bytes();
    let mut i: usize = 0;
    while i < 16
        invariant
            i <= 16,
            raw@ == id@,
            raw@.len() == 16,
            bytes@ == old(bytes)@ + raw@.take(i as int),
        decreases 16 - i,
    {
        bytes.push(raw[i]);
        assert(raw@.take(i + 1) =~= raw@.take(i as int).push(raw@[i as int]));
        assert(bytes@ =~= old(bytes)@ + raw@.take(i + 1));
        i += 1;
    }
    assert(raw@.take(16) =~= raw@);
}

} // verus!
