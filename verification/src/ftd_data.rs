//! The blueprint container: blocks of sections of typed entries, and the
//! byte layout in which the host reads them.

use vstd::prelude::*;
use vstd::string::*;
use crate::float32::{Float32, Float64};
use crate::guid::Guid;
use crate::keyed::{keys_after, position, values_after, Keyed};
use crate::serializer::{
    chunked, i32_bits, i64_bits, length_words, u16_le, u24_le, u32_le, u64_le, word_swapped_u32,
    words_le, Serializer,
};

verus! {

/// The first value that no 24-bit identifier can hold.
pub const ID_LIMIT: u32 = 0x100_0000;

/// The longest block header that a blueprint can announce in 16 bits.
pub const MAX_HEADER_LEN: usize = 65535;

/// The identifier of a block within a blueprint, below 2^24.
#[derive(Debug, Clone, Copy, PartialEq, Eq, Hash, Structural)]
pub struct BlockIndex(u32);

impl BlockIndex {
    /// The identifier's number.
    pub closed spec fn value(self) -> u32 {
        self.0
    }

    /// The identifier fits in three bytes.
    pub closed spec fn wf(self) -> bool {
        self.0 < 0x100_0000
    }

    pub fn new(n: u32) -> (index: Self)
        requires
            n < 0x100_0000,
        ensures
            index.wf(),
            index.value() == n,
    {
        BlockIndex(n)
    }

    /// The identifier for `n`, if `n` fits in three bytes.
    pub fn try_new(n: u32) -> (index: Option<Self>)
        ensures
            index.is_some() == (n < 0x100_0000),
            index.is_some() ==> index.unwrap().wf() && index.unwrap().value() == n,
    {
        if n >= ID_LIMIT {
            None
        } else {
            Some(BlockIndex(n))
        }
    }

    pub fn get(self) -> (n: u32)
        ensures
            n == self.value(),
    {
        self.0
    }
}

/// The identifier of a section within a block, below 2^24.
#[derive(Debug, Clone, Copy, PartialEq, Eq, Hash, Structural)]
pub struct SectionId(u32);

impl SectionId {
    /// The identifier's number.
    pub closed spec fn value(self) -> u32 {
        self.0
    }

    /// The identifier fits in three bytes.
    pub closed spec fn wf(self) -> bool {
        self.0 < 0x100_0000
    }

    pub fn new(n: u32) -> (id: Self)
        requires
            n < 0x100_0000,
        ensures
            id.wf(),
            id.value() == n,
    {
        SectionId(n)
    }

    /// The identifier for `n`, if `n` fits in three bytes.
    pub fn try_new(n: u32) -> (id: Option<Self>)
        ensures
            id.is_some() == (n < 0x100_0000),
            id.is_some() ==> id.unwrap().wf() && id.unwrap().value() == n,
    {
        if n >= ID_LIMIT {
            None
        } else {
            Some(SectionId(n))
        }
    }

    pub fn get(self) -> (n: u32)
        ensures
            n == self.value(),
    {
        self.0
    }
}

pub type DataEntryId = u16;

/// A pair of single-precision numbers.
#[derive(Debug, Clone, Copy, PartialEq, Eq, Structural)]
pub struct Vector2 {
    pub x: Float32,
    pub y: Float32,
}

impl Vector2 {
    pub fn new(x: Float32, y: Float32) -> (v: Self)
        ensures
            v.x == x,
            v.y == y,
    {
        Vector2 { x, y }
    }
}

/// One typed value of a section.
#[derive(Debug)]
pub enum DataEntry {
    Bool(bool),
    U32(u32),
    I32(i32),
    F32(Float32),
    I64(i64),
    F64(Float64),
    Vector2(Vector2),
    Uuid(Guid),
    Bytes(Vec<u8>),
    String(String),
}

/// What an entry holds, as a mathematical value.
pub enum EntryView {
    Bool(bool),
    U32(u32),
    I32(i32),
    F32(Float32),
    I64(i64),
    F64(Float64),
    Vector2(Vector2),
    Uuid(Seq<u8>),
    Bytes(Seq<u8>),
    String(Seq<char>),
}

impl View for DataEntry {
    type V = EntryView;

    open spec fn view(&self) -> EntryView {
        match self {
            DataEntry::Bool(v) => EntryView::Bool(*v),
            DataEntry::U32(v) => EntryView::U32(*v),
            DataEntry::I32(v) => EntryView::I32(*v),
            DataEntry::F32(v) => EntryView::F32(*v),
            DataEntry::I64(v) => EntryView::I64(*v),
            DataEntry::F64(v) => EntryView::F64(*v),
            DataEntry::Vector2(v) => EntryView::Vector2(*v),
            DataEntry::Uuid(v) => EntryView::Uuid(v@),
            DataEntry::Bytes(v) => EntryView::Bytes(v@),
            DataEntry::String(v) => EntryView::String(v@),
        }
    }
}

/// What each of the entries holds.
pub open spec fn views(entries: Seq<DataEntry>) -> Seq<EntryView> {
    Seq::new(entries.len(), |i: int| entries[i]@)
}

/// A fixed-width entry as it is emitted: the entry id, the payload's
/// length in one byte, the payload.
pub open spec fn scalar_entry(id: u16, payload: Seq<u8>) -> Seq<u8> {
    u16_le(id) + seq![payload.len() as u8] + payload
}

impl EntryView {
    /// The payload of a fixed-width entry; for bytes and text, the whole
    /// value before it is cut into chunks.
    pub open spec fn payload(self) -> Seq<u8> {
        match self {
            EntryView::Bool(v) => seq![if v { 1u8 } else { 0u8 }],
            EntryView::U32(v) => u32_le(v),
            EntryView::I32(v) => u32_le(i32_bits(v)),
            EntryView::F32(v) => u32_le(v.bits),
            EntryView::I64(v) => u64_le(i64_bits(v)),
            EntryView::F64(v) => u64_le(v.bits),
            EntryView::Vector2(v) => u32_le(v.x.bits) + u32_le(v.y.bits),
            EntryView::Uuid(v) => v,
            EntryView::Bytes(v) => v,
            EntryView::String(v) => vstd::utf8::encode_utf8(v),
        }
    }

    /// Whether the entry is emitted in chunks.
    pub open spec fn is_chunked(self) -> bool {
        self is Bytes || self is String
    }

    /// The entry as it is emitted under `id`.
    pub open spec fn bytes(self, id: u16) -> Seq<u8> {
        if self.is_chunked() {
            chunked(id, self.payload())
        } else {
            scalar_entry(id, self.payload())
        }
    }
}

impl DataEntry {
    /// The payload of a fixed-width entry; for bytes and text, the whole
    /// value before it is cut into chunks.
    pub open spec fn payload(&self) -> Seq<u8> {
        self@.payload()
    }

    /// Whether the entry is emitted in chunks.
    pub open spec fn is_chunked(&self) -> bool {
        self@.is_chunked()
    }

    /// The entry as it is emitted under `id`.
    pub open spec fn bytes(&self, id: u16) -> Seq<u8> {
        self@.bytes(id)
    }

    /// A fixed-width payload has the width of its type.
    pub proof fn lemma_payload_len(&self)
        ensures
            self is Bool ==> self.payload().len() == 1,
            self is U32 || self is I32 || self is F32 ==> self.payload().len() == 4,
            self is I64 || self is F64 || self is Vector2 ==> self.payload().len() == 8,
            self is Uuid ==> self.payload().len() == 16,
    {
        if let DataEntry::Uuid(v) = self {
            v.lemma_view_len();
        }
    }

    pub fn serialize_to(&self, entry_id: u16, serializer: &mut Serializer)
        ensures
            final(serializer)@ == old(serializer)@ + self.bytes(entry_id),
    {
        proof {
            self.lemma_payload_len();
        }
        let ghost before = serializer@;
        match self {
            DataEntry::Bool(val) => {
                serializer.push_u16(entry_id);
                serializer.push_u8(1);
                serializer.push_u8(if *val { 1 } else { 0 });
                assert(serializer@ =~= before + self.bytes(entry_id));
            },
            DataEntry::U32(val) => {
                serializer.push_u16(entry_id);
                serializer.push_u8(4);
                serializer.push_u32(*val);
                assert(serializer@ =~= before + self.bytes(entry_id));
            },
            DataEntry::I32(val) => {
                serializer.push_u16(entry_id);
                serializer.push_u8(4);
                serializer.push_i32(*val);
                assert(serializer@ =~= before + self.bytes(entry_id));
            },
            DataEntry::F32(val) => {
                serializer.push_u16(entry_id);
                serializer.push_u8(4);
                serializer.push_u32(val.to_bits());
                assert(serializer@ =~= before + self.bytes(entry_id));
            },
            DataEntry::I64(val) => {
                serializer.push_u16(entry_id);
                serializer.push_u8(8);
                serializer.push_i64(*val);
                assert(serializer@ =~= before + self.bytes(entry_id));
            },
            DataEntry::F64(val) => {
                serializer.push_u16(entry_id);
                serializer.push_u8(8);
                serializer.push_u64(val.to_bits());
                assert(serializer@ =~= before + self.bytes(entry_id));
            },
            DataEntry::Vector2(val) => {
                serializer.push_u16(entry_id);
                serializer.push_u8(8);
                serializer.push_u32(val.x.to_bits());
                serializer.push_u32(val.y.to_bits());
                assert(serializer@ =~= before + self.bytes(entry_id));
            },
            DataEntry::Uuid(val) => {
                serializer.push_u16(entry_id);
                serializer.push_u8(16);
                serializer.push_bytes(val.as_bytes().as_slice());
                assert(serializer@ =~= before + self.bytes(entry_id));
            },
            DataEntry::Bytes(val) => {
                serializer.push_chunked(entry_id, val.as_slice());
            },
            DataEntry::String(val) => {
                serializer.push_chunked(entry_id, val.as_str().as_bytes());
            },
        }
    }
}

/// The entries of a section as they are emitted, one after another.
pub open spec fn entries_bytes(ids: Seq<u32>, entries: Seq<EntryView>) -> Seq<u8>
    decreases ids.len(),
{
    if ids.len() == 0 || entries.len() == 0 {
        Seq::empty()
    } else {
        entries_bytes(ids.drop_last(), entries.drop_last()) + entries.last().bytes(
            ids.last() as u16,
        )
    }
}

/// The typed entries of one section, each under a 16-bit id.
#[derive(Debug)]
pub struct SectionData {
    entries: Keyed<DataEntry>,
}

impl SectionData {
    /// The entry ids, in the order in which they are emitted.
    pub closed spec fn ids(&self) -> Seq<u32> {
        self.entries.keys()
    }

    /// The entries, each at the place of its id.
    pub closed spec fn entries(&self) -> Seq<DataEntry> {
        self.entries.values()
    }

    /// Every id stands once, has one entry and fits in 16 bits.
    pub closed spec fn wf(&self) -> bool {
        &&& self.entries.wf()
        &&& forall|i: int| 0 <= i < self.entries.keys().len() ==> self.entries.keys()[i] < 0x1_0000
    }

    /// What each of the entries holds, each at the place of its id.
    pub open spec fn entry_views(&self) -> Seq<EntryView> {
        views(self.entries())
    }

    /// The section's body as it is emitted.
    pub open spec fn bytes(&self) -> Seq<u8> {
        entries_bytes(self.ids(), self.entry_views())
    }

    /// What well-formedness means for the ids and entries.
    pub proof fn lemma_wf(&self)
        requires
            self.wf(),
        ensures
            self.ids().len() == self.entries().len(),
            self.ids().no_duplicates(),
            forall|i: int| 0 <= i < self.ids().len() ==> self.ids()[i] < 0x1_0000,
    {
        self.entries.lemma_wf();
    }

    /// A section without entries.
    pub fn new() -> (section: Self)
        ensures
            section.wf(),
            section.ids() == Seq::<u32>::empty(),
            section.entries() == Seq::<DataEntry>::empty(),
    {
        SectionData { entries: Keyed::new() }
    }

    /// The number of entries.
    pub fn len(&self) -> (n: usize)
        requires
            self.wf(),
        ensures
            n == self.ids().len(),
    {
        self.entries.len()
    }

    /// Puts `entry` under `id`, in place of an entry that `id` had.
    pub fn add_entry(&mut self, id: DataEntryId, entry: DataEntry)
        requires
            old(self).wf(),
        ensures
            final(self).wf(),
            final(self).ids() == keys_after(old(self).ids(), id as u32),
            final(self).entries() == values_after(
                old(self).ids(),
                old(self).entries(),
                id as u32,
                entry,
            ),
            final(self).entry_views() == values_after(
                old(self).ids(),
                old(self).entry_views(),
                id as u32,
                entry@,
            ),
    {
        proof {
            self.entries.lemma_wf();
        }
        self.entries.insert(id as u32, entry);
        assert(self.entry_views() =~= values_after(
            old(self).ids(),
            old(self).entry_views(),
            id as u32,
            entry@,
        ));
    }

    /// The section with `entry` put under `id`.
    pub fn with_entry(self, id: DataEntryId, entry: DataEntry) -> (section: Self)
        requires
            self.wf(),
        ensures
            section.wf(),
            section.ids() == keys_after(self.ids(), id as u32),
            section.entries() == values_after(self.ids(), self.entries(), id as u32, entry),
            section.entry_views() == values_after(
                self.ids(),
                self.entry_views(),
                id as u32,
                entry@,
            ),
    {
        let mut section = self;
        section.add_entry(id, entry);
        section
    }

    /// The entry under `id`, if there is one.
    pub fn entry(&self, id: DataEntryId) -> (found: Option<&DataEntry>)
        requires
            self.wf(),
        ensures
            match found {
                Some(e) => self.ids().contains(id as u32) && *e == self.entries()[position(
                    self.ids(),
                    id as u32,
                )],
                None => !self.ids().contains(id as u32),
            },
    {
        self.entries.get(id as u32)
    }

    pub fn serialize_to(&self, serializer: &mut Serializer)
        requires
            self.wf(),
        ensures
            final(serializer)@ == old(serializer)@ + self.bytes(),
    {
        let n = self.entries.len();
        let ghost ids = self.ids();
        let ghost entries = self.entry_views();
        let mut i: usize = 0;
        assert(ids.take(0) =~= Seq::<u32>::empty());
        while i < n
            invariant
                self.wf(),
                ids == self.ids(),
                entries == self.entry_views(),
                n == ids.len(),
                n == entries.len(),
                i <= n,
                serializer@ == old(serializer)@ + entries_bytes(
                    ids.take(i as int),
                    entries.take(i as int),
                ),
            decreases n - i,
        {
            let key = self.entries.key_at(i);
            let entry = self.entries.value_at(i);
            let ghost before = serializer@;
            entry.serialize_to(key as u16, serializer);
            proof {
                assert(entry@ == entries[i as int]);
                assert(ids.take(i + 1).drop_last() =~= ids.take(i as int));
                assert(entries.take(i + 1).drop_last() =~= entries.take(i as int));
                assert(serializer@ =~= old(serializer)@ + entries_bytes(
                    ids.take(i + 1),
                    entries.take(i + 1),
                ));
            }
            i += 1;
        }
        assert(ids.take(n as int) =~= ids);
        assert(entries.take(n as int) =~= entries);
    }
}

impl Default for SectionData {
    fn default() -> (section: Self)
        ensures
            section.wf(),
            section.ids() == Seq::<u32>::empty(),
            section.entries() == Seq::<DataEntry>::empty(),
    {
        SectionData::new()
    }
}

/// The bodies of the sections, one after another.
pub open spec fn bodies(sections: Seq<SectionData>) -> Seq<u8>
    decreases sections.len(),
{
    if sections.len() == 0 {
        Seq::empty()
    } else {
        bodies(sections.drop_last()) + sections.last().bytes()
    }
}

/// One header per section: its 24-bit id, then the offset of its body among
/// the bodies in the legacy 32-bit layout.
pub open spec fn section_headers(ids: Seq<u32>, sections: Seq<SectionData>) -> Seq<u8>
    decreases ids.len(),
{
    if ids.len() == 0 || sections.len() == 0 {
        Seq::empty()
    } else {
        section_headers(ids.drop_last(), sections.drop_last()) + u24_le(ids.last())
            + word_swapped_u32(bodies(sections.drop_last()).len() as u32)
    }
}

/// Every section's body starts at an offset that 32 bits can hold.
pub open spec fn offsets_fit(sections: Seq<SectionData>) -> bool {
    forall|i: int| 0 <= i < sections.len() ==> bodies(#[trigger] sections.take(i)).len() <= u32::MAX
}

/// The sizes of a block's two parts, as the blueprint records them.
#[derive(Debug, Clone, Copy)]
pub struct BlockDataSerializeInfo {
    pub header_len: usize,
    pub data_length: usize,
}

/// The sections of one block, each under a 24-bit id.
#[derive(Debug)]
pub struct BlockData {
    sections: Keyed<SectionData>,
}

impl BlockData {
    /// The section ids, in the order in which they are emitted.
    pub closed spec fn section_ids(&self) -> Seq<u32> {
        self.sections.keys()
    }

    /// The sections, each at the place of its id.
    pub closed spec fn sections(&self) -> Seq<SectionData> {
        self.sections.values()
    }

    /// Every id stands once, has one section and fits in 24 bits, and every
    /// section is well formed.
    pub closed spec fn wf(&self) -> bool {
        &&& self.sections.wf()
        &&& forall|i: int|
            0 <= i < self.sections.keys().len() ==> self.sections.keys()[i] < 0x100_0000
        &&& forall|i: int|
            0 <= i < self.sections.values().len() ==> (#[trigger] self.sections.values()[i]).wf()
    }

    /// Whether the block fits the format: every body offset fits in 32
    /// bits.
    pub open spec fn encodable(&self) -> bool {
        offsets_fit(self.sections())
    }

    /// The length of the block's headers: seven bytes for every section.
    pub open spec fn header_len(&self) -> nat {
        7 * self.section_ids().len()
    }

    /// The bodies of all sections: the block's data part.
    pub open spec fn body(&self) -> Seq<u8> {
        bodies(self.sections())
    }

    /// The block as it is emitted: the section headers, then the bodies.
    pub open spec fn bytes(&self) -> Seq<u8> {
        section_headers(self.section_ids(), self.sections()) + self.body()
    }

    /// What well-formedness means for the ids and sections.
    pub proof fn lemma_wf(&self)
        requires
            self.wf(),
        ensures
            self.section_ids().len() == self.sections().len(),
            self.section_ids().no_duplicates(),
            forall|i: int| 0 <= i < self.section_ids().len() ==> self.section_ids()[i] < 0x100_0000,
            forall|i: int| 0 <= i < self.sections().len() ==> (#[trigger] self.sections()[i]).wf(),
    {
        self.sections.lemma_wf();
    }

    /// A block without sections.
    pub fn new() -> (block: Self)
        ensures
            block.wf(),
            block.section_ids() == Seq::<u32>::empty(),
            block.sections() == Seq::<SectionData>::empty(),
    {
        BlockData { sections: Keyed::new() }
    }

    /// The number of sections.
    pub fn len(&self) -> (n: usize)
        requires
            self.wf(),
        ensures
            n == self.section_ids().len(),
    {
        self.sections.len()
    }

    /// Puts `data` under `id`, in place of a section that `id` had.
    pub fn add_section_data(&mut self, id: SectionId, data: SectionData)
        requires
            old(self).wf(),
            id.wf(),
            data.wf(),
        ensures
            final(self).wf(),
            final(self).section_ids() == keys_after(old(self).section_ids(), id.value()),
            final(self).sections() == values_after(
                old(self).section_ids(),
                old(self).sections(),
                id.value(),
                data,
            ),
    {
        proof {
            self.sections.lemma_wf();
        }
        self.sections.insert(id.get(), data);
        proof {
            self.sections.lemma_wf();
        }
    }

    /// The section under `id`, if there is one.
    pub fn section(&self, id: SectionId) -> (found: Option<&SectionData>)
        requires
            self.wf(),
        ensures
            match found {
                Some(s) => self.section_ids().contains(id.value()) && s.wf() && *s
                    == self.sections()[position(self.section_ids(), id.value())],
                None => !self.section_ids().contains(id.value()),
            },
    {
        proof {
            self.sections.lemma_wf();
        }
        match self.sections.find(id.get()) {
            Some(i) => Some(self.sections.value_at(i)),
            None => None,
        }
    }

    /// Appends the block to `serializer` and reports the sizes of its two
    /// parts. A block that does not fit the format is refused, and
    /// `serializer` stays as it was.
    pub fn serialize_to(&self, serializer: &mut Serializer) -> (info: Option<
        BlockDataSerializeInfo,
    >)
        requires
            self.wf(),
        ensures
            info.is_some() == self.encodable(),
            info.is_some() ==> {
                &&& final(serializer)@ == old(serializer)@ + self.bytes()
                &&& info.unwrap().header_len == self.header_len()
                &&& info.unwrap().data_length == self.body().len()
            },
            info.is_none() ==> final(serializer)@ == old(serializer)@,
    {
        proof {
            self.sections.lemma_wf();
        }
        let n = self.sections.len();
        let ghost ids = self.section_ids();
        let ghost sections = self.sections();
        // headers and bodies each grow in a buffer of their own, so that
        // nothing is written where a section turns out not to fit
        let mut headers = Serializer::new();
        let mut data_body = Serializer::new();
        let mut i: usize = 0;
        assert(ids.take(0) =~= Seq::<u32>::empty());
        assert(sections.take(0) =~= Seq::<SectionData>::empty());
        while i < n
            invariant
                self.wf(),
                ids == self.section_ids(),
                sections == self.sections(),
                n == ids.len(),
                n == sections.len(),
                i <= n,
                serializer@ == old(serializer)@,
                headers@ == section_headers(ids.take(i as int), sections.take(i as int)),
                headers@.len() == 7 * i,
                data_body@ == bodies(sections.take(i as int)),
                forall|j: int| 0 <= j < i ==> bodies(#[trigger] sections.take(j)).len() <= u32::MAX,
            decreases n - i,
        {
            let offset = data_body.len();
            if offset > u32::MAX as usize {
                return None;
            }
            let id = self.sections.key_at(i);
            let section = self.sections.value_at(i);
            let ghost before = headers@;
            section.serialize_to(&mut data_body);
            headers.push_u24(id);
            headers.push_wierd_u32(offset as u32);
            proof {
                assert(ids.take(i + 1).drop_last() =~= ids.take(i as int));
                assert(sections.take(i + 1).drop_last() =~= sections.take(i as int));
                assert(headers@ =~= before + u24_le(id) + word_swapped_u32(offset as u32));
            }
            i += 1;
        }
        proof {
            assert(ids.take(n as int) =~= ids);
            assert(sections.take(n as int) =~= sections);
        }
        let header_len = headers.len();
        let data_length = data_body.len();
        serializer.push_bytes(headers.as_slice());
        serializer.push_bytes(data_body.as_slice());
        assert(serializer@ =~= old(serializer)@ + self.bytes());
        Some(BlockDataSerializeInfo { header_len, data_length })
    }
}

impl Default for BlockData {
    fn default() -> (block: Self)
        ensures
            block.wf(),
            block.section_ids() == Seq::<u32>::empty(),
            block.sections() == Seq::<SectionData>::empty(),
    {
        BlockData::new()
    }
}

/// One block as the blueprint holds it: its 24-bit index, the length of its
/// headers, two unused bytes, the length words of its data part, the block.
pub open spec fn block_record(index: u32, block: BlockData) -> Seq<u8> {
    u24_le(index) + u16_le(block.header_len() as u16) + u16_le(0u16) + words_le(
        length_words(block.body().len()),
    ) + block.bytes()
}

/// The records of the blocks, one after another.
pub open spec fn block_records(indices: Seq<u32>, blocks: Seq<BlockData>) -> Seq<u8>
    decreases indices.len(),
{
    if indices.len() == 0 || blocks.len() == 0 {
        Seq::empty()
    } else {
        block_records(indices.drop_last(), blocks.drop_last()) + block_record(
            indices.last(),
            blocks.last(),
        )
    }
}

/// The text of `data` in base64 with the standard alphabet and padding.
pub uninterp spec fn base64_standard(data: Seq<u8>) -> Seq<char>;

/// Encodes `data` in base64 with the standard alphabet and padding.
///
/// Calls `encode` of the `base64` crate's `STANDARD` engine. The result is
/// the text that the engine gives for these bytes. The engine panics where
/// the text's length, four characters for every three bytes begun, does
/// not fit in `usize`; such input is left out.
#[verifier::external_body]
fn encode_base64(data: &[u8]) -> (text: String)
    requires
        (data@.len() + 2) / 3 * 4 <= usize::MAX,
    ensures
        text@ == base64_standard(data@),
{
    base64::Engine::encode(&base64::engine::general_purpose::STANDARD, data)
}

/// The blocks of a blueprint, each under a 24-bit index.
#[derive(Debug)]
pub struct BlueprintData {
    data: Keyed<BlockData>,
}

impl BlueprintData {
    /// The block indices, in the order in which they are emitted.
    pub closed spec fn block_indices(&self) -> Seq<u32> {
        self.data.keys()
    }

    /// The blocks, each at the place of its index.
    pub closed spec fn blocks(&self) -> Seq<BlockData> {
        self.data.values()
    }

    /// Every index stands once, has one block and fits in 24 bits, and
    /// every block is well formed.
    pub closed spec fn wf(&self) -> bool {
        &&& self.data.wf()
        &&& forall|i: int| 0 <= i < self.data.keys().len() ==> self.data.keys()[i] < 0x100_0000
        &&& forall|i: int|
            0 <= i < self.data.values().len() ==> (#[trigger] self.data.values()[i]).wf()
    }

    /// Whether the blueprint fits the format: every block does, and the
    /// length of every block's headers can be written in 16 bits.
    pub open spec fn encodable(&self) -> bool {
        forall|i: int|
            0 <= i < self.blocks().len() ==> (#[trigger] self.blocks()[i]).encodable()
                && self.blocks()[i].header_len() <= 65535
    }

    /// The blueprint as it is emitted.
    pub open spec fn bytes(&self) -> Seq<u8> {
        block_records(self.block_indices(), self.blocks())
    }

    /// Whether the blueprint's bytes are few enough for their base64 text
    /// to have a length that fits in `usize`.
    pub open spec fn printable(&self) -> bool {
        (self.bytes().len() + 2) / 3 * 4 <= usize::MAX
    }

    /// What well-formedness means for the indices and blocks.
    pub proof fn lemma_wf(&self)
        requires
            self.wf(),
        ensures
            self.block_indices().len() == self.blocks().len(),
            self.block_indices().no_duplicates(),
            forall|i: int|
                0 <= i < self.block_indices().len() ==> self.block_indices()[i] < 0x100_0000,
            forall|i: int| 0 <= i < self.blocks().len() ==> (#[trigger] self.blocks()[i]).wf(),
    {
        self.data.lemma_wf();
    }

    /// A blueprint without blocks.
    pub fn new() -> (blueprint: Self)
        ensures
            blueprint.wf(),
            blueprint.block_indices() == Seq::<u32>::empty(),
            blueprint.blocks() == Seq::<BlockData>::empty(),
    {
        BlueprintData { data: Keyed::new() }
    }

    /// Puts `data` under `index`, in place of a block that `index` had.
    pub fn add_block_data(&mut self, index: BlockIndex, data: BlockData)
        requires
            old(self).wf(),
            index.wf(),
            data.wf(),
        ensures
            final(self).wf(),
            final(self).block_indices() == keys_after(old(self).block_indices(), index.value()),
            final(self).blocks() == values_after(
                old(self).block_indices(),
                old(self).blocks(),
                index.value(),
                data,
            ),
    {
        proof {
            self.data.lemma_wf();
        }
        self.data.insert(index.get(), data);
        proof {
            self.data.lemma_wf();
        }
    }

    /// The block under `index`, if there is one.
    pub fn block(&self, index: BlockIndex) -> (found: Option<&BlockData>)
        requires
            self.wf(),
        ensures
            match found {
                Some(b) => self.block_indices().contains(index.value()) && b.wf() && *b
                    == self.blocks()[position(self.block_indices(), index.value())],
                None => !self.block_indices().contains(index.value()),
            },
    {
        proof {
            self.data.lemma_wf();
        }
        match self.data.find(index.get()) {
            Some(i) => Some(self.data.value_at(i)),
            None => None,
        }
    }

    /// The blueprint's bytes, unless a block does not fit the format or
    /// has headers too long for the blueprint to announce.
    pub fn try_serialize(&self) -> (bytes: Option<Vec<u8>>)
        requires
            self.wf(),
        ensures
            bytes.is_some() == self.encodable(),
            bytes.is_some() ==> bytes.unwrap()@ == self.bytes(),
    {
        proof {
            self.data.lemma_wf();
        }
        let n = self.data.len();
        let ghost indices = self.block_indices();
        let ghost blocks = self.blocks();
        let mut serializer = Serializer::new();
        let mut i: usize = 0;
        assert(indices.take(0) =~= Seq::<u32>::empty());
        while i < n
            invariant
                self.wf(),
                indices == self.block_indices(),
                blocks == self.blocks(),
                n == indices.len(),
                n == blocks.len(),
                i <= n,
                serializer@ == block_records(indices.take(i as int), blocks.take(i as int)),
                forall|j: int|
                    0 <= j < i ==> (#[trigger] blocks[j]).encodable() && blocks[j].header_len()
                        <= 65535,
            decreases n - i,
        {
            let block_index = self.data.key_at(i);
            let block = self.data.value_at(i);
            let mut block_data_serializer = Serializer::new();
            let block_serialize_info = match block.serialize_to(&mut block_data_serializer) {
                Some(info) => info,
                None => {
                    return None;
                },
            };
            if block_serialize_info.header_len > MAX_HEADER_LEN {
                return None;
            }
            let ghost before = serializer@;
            assert(block_data_serializer@ =~= block.bytes());
            serializer.push_u24(block_index);
            serializer.push_u16(block_serialize_info.header_len as u16);
            // these bytes are unused
            serializer.push_u16(0);
            serializer.push_length_words(block_serialize_info.data_length);
            serializer.push_bytes(block_data_serializer.as_slice());
            proof {
                assert(indices.take(i + 1).drop_last() =~= indices.take(i as int));
                assert(blocks.take(i + 1).drop_last() =~= blocks.take(i as int));
                assert(serializer@ =~= before + block_record(block_index, *block));
            }
            i += 1;
        }
        proof {
            assert(indices.take(n as int) =~= indices);
            assert(blocks.take(n as int) =~= blocks);
        }
        Some(serializer.into_inner())
    }

    /// The blueprint's bytes.
    pub fn serialize(&self) -> (bytes: Vec<u8>)
        requires
            self.wf(),
            self.encodable(),
        ensures
            bytes@ == self.bytes(),
    {
        self.try_serialize().unwrap()
    }

    /// The base64 text of the blueprint's bytes, unless a block does not
    /// fit the format or the text would be longer than `usize` can count.
    pub fn try_serialize_to_bp_data_string(&self) -> (text: Option<String>)
        requires
            self.wf(),
        ensures
            text.is_some() == (self.encodable() && self.printable()),
            text.is_some() ==> text.unwrap()@ == base64_standard(self.bytes()),
    {
        match self.try_serialize() {
            Some(data) => {
                let groups: usize = data.len() / 3 + (if data.len() % 3 == 0 {
                    0
                } else {
                    1
                });
                if groups > usize::MAX / 4 {
                    None
                } else {
                    Some(encode_base64(data.as_slice()))
                }
            },
            None => None,
        }
    }

    /// The base64 text of the blueprint's bytes, as it stands in the block
    /// data field of a blueprint file.
    pub fn serialize_to_bp_data_string(&self) -> (text: String)
        requires
            self.wf(),
            self.encodable(),
            self.printable(),
        ensures
            text@ == base64_standard(self.bytes()),
    {
        let data = self.serialize();
        encode_base64(data.as_slice())
    }
}

impl Default for BlueprintData {
    fn default() -> (blueprint: Self)
        ensures
            blueprint.wf(),
            blueprint.block_indices() == Seq::<u32>::empty(),
            blueprint.blocks() == Seq::<BlockData>::empty(),
    {
        BlueprintData::new()
    }
}

} // verus!
