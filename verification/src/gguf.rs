//! Plain-value GGUF observations: typed metadata and tensor descriptors.

use crate::text::same_text;
use vstd::prelude::*;

verus! {

/// GGUF metadata value types.
#[derive(Clone, Copy, Debug, PartialEq, Eq, Structural)]
pub enum MetaValueType {
    U8,
    I8,
    U16,
    I16,
    U32,
    I32,
    F32,
    Bool,
    String,
    Array,
    U64,
    I64,
    F64,
}

/// A typed GGUF metadata value.
///
/// Floating-point values are carried by their IEEE 754 bit patterns.
#[derive(Debug)]
pub enum MetaValue {
    U8(u8),
    I8(i8),
    U16(u16),
    I16(i16),
    U32(u32),
    I32(i32),
    F32(u32),
    Bool(bool),
    String(String),
    Array(MetaArray),
    U64(u64),
    I64(i64),
    F64(u64),
}

/// A GGUF array: its declared element type and its values.
#[derive(Debug)]
pub struct MetaArray {
    pub element_type: MetaValueType,
    pub values: Vec<MetaValue>,
}

impl MetaValue {
    /// The type of a value.
    pub open spec fn spec_value_type(&self) -> MetaValueType {
        match self {
            MetaValue::U8(_) => MetaValueType::U8,
            MetaValue::I8(_) => MetaValueType::I8,
            MetaValue::U16(_) => MetaValueType::U16,
            MetaValue::I16(_) => MetaValueType::I16,
            MetaValue::U32(_) => MetaValueType::U32,
            MetaValue::I32(_) => MetaValueType::I32,
            MetaValue::F32(_) => MetaValueType::F32,
            MetaValue::Bool(_) => MetaValueType::Bool,
            MetaValue::String(_) => MetaValueType::String,
            MetaValue::Array(_) => MetaValueType::Array,
            MetaValue::U64(_) => MetaValueType::U64,
            MetaValue::I64(_) => MetaValueType::I64,
            MetaValue::F64(_) => MetaValueType::F64,
        }
    }

    /// Return the type of this value.
    pub fn value_type(&self) -> (kind: MetaValueType)
        ensures
            kind == self.spec_value_type(),
    {
        match self {
            MetaValue::U8(_) => MetaValueType::U8,
            MetaValue::I8(_) => MetaValueType::I8,
            MetaValue::U16(_) => MetaValueType::U16,
            MetaValue::I16(_) => MetaValueType::I16,
            MetaValue::U32(_) => MetaValueType::U32,
            MetaValue::I32(_) => MetaValueType::I32,
            MetaValue::F32(_) => MetaValueType::F32,
            MetaValue::Bool(_) => MetaValueType::Bool,
            MetaValue::String(_) => MetaValueType::String,
            MetaValue::Array(_) => MetaValueType::Array,
            MetaValue::U64(_) => MetaValueType::U64,
            MetaValue::I64(_) => MetaValueType::I64,
            MetaValue::F64(_) => MetaValueType::F64,
        }
    }
}

/// GGML storage types of a tensor payload.
///
/// `Other` carries the raw tag of a storage type that no row reader accepts.
#[derive(Clone, Copy, Debug, PartialEq, Eq, Structural)]
pub enum GgmlType {
    F32,
    Q8_0,
    Q4K,
    Q5K,
    Q6K,
    IQ4NL,
    IQ4XS,
    Other(u32),
}

/// The name, shape, and storage type that an artifact records for one tensor.
#[derive(Debug)]
pub struct TensorDescriptor {
    pub name: String,
    pub dims: Vec<u64>,
    pub ggml_type: GgmlType,
}

/// What one retained-file parse and whole-stream digest observed.
#[derive(Debug)]
pub struct ObservedArtifact {
    pub metadata: Metadata,
    pub tensors: Vec<TensorDescriptor>,
    pub digest: [u8; 32],
    pub file_len: u64,
}

/// One metadata entry.
#[derive(Debug)]
struct MetadataEntry {
    key: String,
    value: MetaValue,
}

/// A metadata table from keys to typed values; no key occurs twice.
#[derive(Debug)]
pub struct Metadata {
    entries: Vec<MetadataEntry>,
}

spec fn distinct_keys(entries: Seq<MetadataEntry>) -> bool {
    forall|i: int, j: int|
        #![trigger entries[i], entries[j]]
        0 <= i < j < entries.len() ==> entries[i].key@ != entries[j].key@
}

spec fn has_key(entries: Seq<MetadataEntry>, key: Seq<char>) -> bool {
    exists|i: int| 0 <= i < entries.len() && #[trigger] entries[i].key@ == key
}

spec fn value_of(entries: Seq<MetadataEntry>, key: Seq<char>) -> MetaValue {
    let i = choose|i: int| 0 <= i < entries.len() && #[trigger] entries[i].key@ == key;
    entries[i].value
}

/// The value of the entry at `i` is the value of its key.
proof fn lemma_value_of(entries: Seq<MetadataEntry>, i: int)
    requires
        distinct_keys(entries),
        0 <= i < entries.len(),
    ensures
        has_key(entries, entries[i].key@),
        value_of(entries, entries[i].key@) == entries[i].value,
{
    let key = entries[i].key@;
    assert(has_key(entries, key));
    let chosen = choose|j: int| 0 <= j < entries.len() && #[trigger] entries[j].key@ == key;
    assert(entries[chosen].key@ == key);
    if chosen < i {
        assert(entries[chosen].key@ != entries[i].key@);
    } else if i < chosen {
        assert(entries[i].key@ != entries[chosen].key@);
    }
}

spec fn as_map(entries: Seq<MetadataEntry>) -> Map<Seq<char>, MetaValue> {
    Map::new(|key: Seq<char>| has_key(entries, key), |key: Seq<char>| value_of(entries, key))
}

/// Two duplicate-free tables agree on every key that occurs at one place in both.
proof fn lemma_changed_entry(
    before: Seq<MetadataEntry>,
    after: Seq<MetadataEntry>,
    at: int,
    entry: MetadataEntry,
)
    requires
        distinct_keys(before),
        distinct_keys(after),
        0 <= at < after.len(),
        after[at] == entry,
        before.len() <= after.len() <= before.len() + 1,
        forall|j: int| 0 <= j < after.len() && j != at ==> j < before.len() && after[j] == before[j],
        at < before.len() ==> before[at].key@ == entry.key@ && after.len() == before.len(),
        at == before.len() ==> !has_key(before, entry.key@),
    ensures
        as_map(after) =~= as_map(before).insert(entry.key@, entry.value),
{
    assert forall|key: Seq<char>| #[trigger]
        has_key(after, key) == (has_key(before, key) || key == entry.key@) by {
        if has_key(after, key) {
            let j = choose|j: int| 0 <= j < after.len() && #[trigger] after[j].key@ == key;
            if j != at {
                assert(before[j].key@ == key);
            }
        }
        if has_key(before, key) {
            let j = choose|j: int| 0 <= j < before.len() && #[trigger] before[j].key@ == key;
            assert(after[j].key@ == key);
        }
        if key == entry.key@ {
            assert(after[at].key@ == key);
        }
    }
    assert forall|key: Seq<char>| has_key(after, key) implies #[trigger] value_of(after, key) == (
    if key == entry.key@ {
        entry.value
    } else {
        value_of(before, key)
    }) by {
        let j = choose|j: int| 0 <= j < after.len() && #[trigger] after[j].key@ == key;
        lemma_value_of(after, j);
        if key == entry.key@ {
            lemma_value_of(after, at);
        } else {
            assert(j != at);
            lemma_value_of(before, j);
        }
    }
}

impl View for Metadata {
    type V = Map<Seq<char>, MetaValue>;

    closed spec fn view(&self) -> Map<Seq<char>, MetaValue> {
        as_map(self.entries@)
    }
}

impl Metadata {
    #[verifier::type_invariant]
    spec fn distinct(self) -> bool {
        distinct_keys(self.entries@)
    }

    /// Return the empty table.
    pub fn new() -> (table: Metadata)
        ensures
            table@ == Map::<Seq<char>, MetaValue>::empty(),
    {
        let table = Metadata { entries: Vec::new() };
        assert(table@ =~= Map::<Seq<char>, MetaValue>::empty());
        table
    }

    /// Borrow the value stored under `key`, if there is one.
    pub fn get(&self, key: &str) -> (value: Option<&MetaValue>)
        ensures
            value == (if self@.dom().contains(key@) { Some(&self@[key@]) } else { None }),
    {
        proof {
            use_type_invariant(self);
        }
        let mut i: usize = 0;
        while i < self.entries.len()
            invariant
                0 <= i <= self.entries.len(),
                distinct_keys(self.entries@),
                forall|j: int| 0 <= j < i ==> #[trigger] self.entries@[j].key@ != key@,
            decreases self.entries.len() - i,
        {
            if same_text(self.entries[i].key.as_str(), key) {
                proof {
                    lemma_value_of(self.entries@, i as int);
                }
                return Some(&self.entries[i].value);
            }
            i = i + 1;
        }
        assert(!has_key(self.entries@, key@));
        None
    }

    /// Report whether a value is stored under `key`.
    pub fn contains_key(&self, key: &str) -> (present: bool)
        ensures
            present == self@.dom().contains(key@),
    {
        self.get(key).is_some()
    }

    /// Store `value` under `key`, replacing the value stored there before.
    pub fn insert(&mut self, key: String, value: MetaValue)
        ensures
            final(self)@ == old(self)@.insert(key@, value),
    {
        proof {
            use_type_invariant(&*self);
        }
        let mut entries: Vec<MetadataEntry> = Vec::new();
        std::mem::swap(&mut entries, &mut self.entries);
        let ghost before = entries@;
        let mut i: usize = 0;
        while i < entries.len()
            invariant
                0 <= i <= entries.len(),
                entries@ == before,
                before == old(self).entries@,
                distinct_keys(before),
                forall|j: int| 0 <= j < i ==> #[trigger] before[j].key@ != key@,
            decreases entries.len() - i,
        {
            if entries[i].key == key {
                let entry = MetadataEntry { key, value };
                entries.set(i, entry);
                proof {
                    assert(distinct_keys(entries@));
                    lemma_changed_entry(before, entries@, i as int, entry);
                }
                self.entries = entries;
                return ;
            }
            i = i + 1;
        }
        let entry = MetadataEntry { key, value };
        entries.push(entry);
        proof {
            assert(distinct_keys(entries@));
            lemma_changed_entry(before, entries@, before.len() as int, entry);
        }
        self.entries = entries;
    }
}

/// An observation together with the digest-verified bytes of every tensor.
#[derive(Debug)]
pub struct VerifiedArtifact {
    observation: ObservedArtifact,
    payloads: Vec<Vec<u8>>,
}

/// One verified tensor: its descriptor and its bytes.
#[derive(Clone, Copy, Debug)]
pub struct VerifiedTensor<'artifact> {
    pub descriptor: &'artifact TensorDescriptor,
    pub bytes: &'artifact Vec<u8>,
}

/// Whether tensor `i` of a list is the first of its name.
pub open spec fn first_named(tensors: Seq<TensorDescriptor>, name: Seq<char>, i: int) -> bool {
    &&& 0 <= i < tensors.len()
    &&& tensors[i].name@ == name
    &&& forall|j: int| 0 <= j < i ==> (#[trigger] tensors[j]).name@ != name
}

/// Whether a list has no tensor of a name.
pub open spec fn unnamed(tensors: Seq<TensorDescriptor>, name: Seq<char>) -> bool {
    forall|j: int| 0 <= j < tensors.len() ==> (#[trigger] tensors[j]).name@ != name
}

impl VerifiedArtifact {
    /// What was observed of the artifact.
    pub closed spec fn spec_observation(self) -> ObservedArtifact {
        self.observation
    }

    /// The bytes of every tensor, in descriptor order.
    pub closed spec fn spec_payloads(self) -> Seq<Vec<u8>> {
        self.payloads@
    }

    #[verifier::type_invariant]
    spec fn paired(self) -> bool {
        self.payloads@.len() == self.observation.tensors@.len()
    }

    /// Pair an observation with the bytes of its tensors, one for each descriptor.
    pub fn pair(observation: ObservedArtifact, payloads: Vec<Vec<u8>>) -> (artifact: Option<
        VerifiedArtifact,
    >)
        ensures
            match artifact {
                Some(artifact) => {
                    &&& payloads@.len() == observation.tensors@.len()
                    &&& artifact.spec_observation() == observation
                    &&& artifact.spec_payloads() == payloads@
                },
                None => payloads@.len() != observation.tensors@.len(),
            },
    {
        if payloads.len() == observation.tensors.len() {
            Some(VerifiedArtifact { observation, payloads })
        } else {
            None
        }
    }

    /// Borrow what was observed of the artifact.
    pub fn observation(&self) -> (observation: &ObservedArtifact)
        ensures
            *observation == self.spec_observation(),
    {
        &self.observation
    }

    /// Find the first tensor of a name.
    pub fn tensor<'artifact>(&'artifact self, name: &str) -> (tensor: Option<
        VerifiedTensor<'artifact>,
    >)
        ensures
            match tensor {
                Some(tensor) => exists|i: int|
                    {
                        &&& #[trigger] first_named(self.spec_observation().tensors@, name@, i)
                        &&& i < self.spec_payloads().len()
                        &&& *tensor.descriptor == self.spec_observation().tensors@[i]
                        &&& *tensor.bytes == self.spec_payloads()[i]
                    },
                None => unnamed(self.spec_observation().tensors@, name@),
            },
    {
        proof {
            use_type_invariant(self);
        }
        let mut i: usize = 0;
        while i < self.observation.tensors.len()
            invariant
                0 <= i <= self.observation.tensors.len(),
                self.payloads@.len() == self.observation.tensors@.len(),
                forall|j: int|
                    0 <= j < i ==> (#[trigger] self.observation.tensors@[j]).name@ != name@,
            decreases self.observation.tensors.len() - i,
        {
            if same_text(self.observation.tensors[i].name.as_str(), name) {
                assert(first_named(self.spec_observation().tensors@, name@, i as int));
                return Some(
                    VerifiedTensor {
                        descriptor: &self.observation.tensors[i],
                        bytes: &self.payloads[i],
                    },
                );
            }
            i = i + 1;
        }
        None
    }
}

/// The little-endian word `i` of a byte string.
pub open spec fn word(bytes: Seq<u8>, i: int) -> u32 {
    (bytes[4 * i] + 0x100 * bytes[4 * i + 1] + 0x1_0000 * bytes[4 * i + 2] + 0x100_0000 * bytes[4
        * i + 3]) as u32
}

/// Read the little-endian word `i` of a byte string.
pub fn read_word(bytes: &[u8], i: usize) -> (bits: u32)
    requires
        4 * i + 3 < bytes@.len(),
    ensures
        bits == word(bytes@, i as int),
{
    let length: usize = bytes.len();
    assert(4 * i + 3 < length);
    let at: usize = 4 * i;
    bytes[at] as u32 + 0x100 * (bytes[at + 1] as u32) + 0x1_0000 * (bytes[at + 2] as u32)
        + 0x100_0000 * (bytes[at + 3] as u32)
}

} // verus!
