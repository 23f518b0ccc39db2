//! The schema tree and the literal values it carries.
//!
//! A [`Meta`] describes one configuration structure: its name, its
//! documentation and its fields in the order in which they were declared. A
//! field is either a leaf, which holds a value, or nested, which refers to the
//! schema of another structure. Leaves may carry a default, written as an
//! [`Expr`].

use vstd::prelude::*;
use vstd::string::*;
use vstd::std_specs::convert::FromSpecImpl;
use crate::text::{decimal_text, is_digit, lemma_decimal_digits_are_digits, signed_text};

verus! {

/// Root type: the description of one configuration structure.
///
/// The fields are owned, so a schema is a finite tree by construction: no
/// structure can nest itself, directly or through others.
#[derive(Clone, Debug, PartialEq)]
pub struct Meta {
    /// The type (struct) name.
    pub name: &'static str,
    /// Doc comments.
    pub doc: &'static [&'static str],
    /// The fields, in declaration order.
    pub fields: Vec<Field>,
}

/// One field of a configuration structure.
#[derive(Clone, Debug, PartialEq)]
pub struct Field {
    pub name: &'static str,
    pub doc: &'static [&'static str],
    pub kind: FieldKind,
}

/// What a field holds: a value, or another structure.
#[derive(Clone, Copy, Debug, PartialEq)]
pub enum FieldKind {
    Leaf {
        /// The environment variable that feeds this field, if any.
        env: Option<&'static str>,
        kind: LeafKind,
    },
    Nested {
        meta: &'static Meta,
    },
}

#[derive(Clone, Copy, Debug, PartialEq)]
pub enum LeafKind {
    /// A leaf field that must end up with a value, from a source or from
    /// `default`.
    Required { default: Option<Expr> },
    /// A leaf field whose absence is valid.
    Optional,
}

/// A literal value.
#[derive(Debug, Clone, Copy, PartialEq)]
#[non_exhaustive]
pub enum Expr {
    Str(&'static str),
    Float(Float),
    Integer(Integer),
    Bool(bool),
    Array(&'static [Expr]),
    /// A key value map, stored as slice in source code order. Keys that occur
    /// twice are kept as they are.
    Mapping(&'static [MapEntry]),
}

/// A literal that can serve as the key of a map.
#[derive(Debug, Clone, Copy, PartialEq)]
#[non_exhaustive]
pub enum MapKey {
    Str(&'static str),
    Float(Float),
    Integer(Integer),
    Bool(bool),
}

#[derive(Debug, Clone, Copy, PartialEq)]
pub struct MapEntry {
    pub key: MapKey,
    pub value: Expr,
}

/// A floating-point literal, held as the bit pattern of its IEEE 754 binary
/// encoding in the width of the field it was declared for. Two literals are
/// equal where their bit patterns are.
#[derive(Debug, Clone, Copy, PartialEq, Eq)]
pub enum Float {
    F32(u32),
    F64(u64),
}

/// An integer literal that remembers the width of the field it was declared
/// for.
#[derive(Debug, Clone, Copy, PartialEq, Eq)]
pub enum Integer {
    U8(u8),
    U16(u16),
    U32(u32),
    U64(u64),
    U128(u128),
    Usize(usize),
    I8(i8),
    I16(i16),
    I32(i32),
    I64(i64),
    I128(i128),
    Isize(isize),
}

impl Integer {
    /// The number that the literal denotes, whatever its width.
    pub open spec fn value(self) -> int {
        match self {
            Integer::U8(v) => v as int,
            Integer::U16(v) => v as int,
            Integer::U32(v) => v as int,
            Integer::U64(v) => v as int,
            Integer::U128(v) => v as int,
            Integer::Usize(v) => v as int,
            Integer::I8(v) => v as int,
            Integer::I16(v) => v as int,
            Integer::I32(v) => v as int,
            Integer::I64(v) => v as int,
            Integer::I128(v) => v as int,
            Integer::Isize(v) => v as int,
        }
    }

    /// The text that the literal is displayed as: the plain decimal number.
    pub open spec fn spec_text(self) -> Seq<char> {
        decimal_text(self.value())
    }

    /// The literal widened to the largest signed type, or `None` for an
    /// unsigned literal.
    fn signed(&self) -> (r: Option<i128>)
        ensures
            match r {
                Some(v) => v == self.value(),
                None => self.value() >= 0,
            },
    {
        match self {
            Integer::I8(v) => Some(*v as i128),
            Integer::I16(v) => Some(*v as i128),
            Integer::I32(v) => Some(*v as i128),
            Integer::I64(v) => Some(*v as i128),
            Integer::I128(v) => Some(*v),
            Integer::Isize(v) => Some(*v as i128),
            _ => None,
        }
    }

    /// The literal widened to the largest unsigned type.
    fn unsigned(&self) -> (r: u128)
        requires
            self.value() >= 0,
        ensures
            r == self.value(),
    {
        match self {
            Integer::U8(v) => *v as u128,
            Integer::U16(v) => *v as u128,
            Integer::U32(v) => *v as u128,
            Integer::U64(v) => *v as u128,
            Integer::U128(v) => *v,
            Integer::Usize(v) => *v as u128,
            Integer::I8(v) => *v as u128,
            Integer::I16(v) => *v as u128,
            Integer::I32(v) => *v as u128,
            Integer::I64(v) => *v as u128,
            Integer::I128(v) => *v as u128,
            Integer::Isize(v) => *v as u128,
        }
    }

    /// Displays the literal: the plain number, with nothing that tells its
    /// width.
    pub fn to_string(&self) -> (s: String)
        ensures
            s@ == self.spec_text(),
    {
        match self.signed() {
            Some(v) => {
                if v < 0 {
                    let magnitude: u128 = (-(v + 1)) as u128 + 1;
                    signed_text(true, magnitude)
                } else {
                    signed_text(false, v as u128)
                }
            },
            None => signed_text(false, self.unsigned()),
        }
    }
}

/// The displayed text tells the number and not the width: two literals that
/// denote the same number are displayed alike, whatever their variants.
pub proof fn law_integer_text_hides_width(a: Integer, b: Integer)
    requires
        a.value() == b.value(),
    ensures
        a.spec_text() == b.spec_text(),
{
}

/// The displayed text is a plain number: decimal digits, and before them a
/// minus sign exactly where the number is negative. No other character, such
/// as a suffix that names a type, occurs in it.
pub proof fn law_integer_text_is_plain(a: Integer)
    ensures
        a.spec_text().len() >= 1,
        a.value() < 0 <==> a.spec_text()[0] == '-',
        forall|i: int|
            0 <= i < a.spec_text().len() ==> is_digit(#[trigger] a.spec_text()[i]) || (i == 0
                && a.value() < 0),
{
    let v = a.value();
    if v < 0 {
        lemma_decimal_digits_are_digits((-v) as nat);
    } else {
        lemma_decimal_digits_are_digits(v as nat);
        // The first character is a digit, and no digit is the sign.
        assert(is_digit(a.spec_text()[0]));
    }
}

impl MapKey {
    /// The key as a literal value: the same variant, holding the same.
    pub open spec fn literal(self) -> Expr {
        match self {
            MapKey::Str(v) => Expr::Str(v),
            MapKey::Integer(v) => Expr::Integer(v),
            MapKey::Float(v) => Expr::Float(v),
            MapKey::Bool(v) => Expr::Bool(v),
        }
    }
}

impl From<MapKey> for Expr {
    /// Every key is a literal: the conversion keeps the variant and what it
    /// holds.
    fn from(src: MapKey) -> (r: Expr) {
        match src {
            MapKey::Str(v) => Expr::Str(v),
            MapKey::Integer(v) => Expr::Integer(v),
            MapKey::Float(v) => Expr::Float(v),
            MapKey::Bool(v) => Expr::Bool(v),
        }
    }
}

impl FromSpecImpl<MapKey> for Expr {
    open spec fn obeys_from_spec() -> bool {
        true
    }

    open spec fn from_spec(src: MapKey) -> Expr {
        src.literal()
    }
}

/// The conversion from key to literal loses nothing: it never yields an array
/// or a map, and two keys that convert to the same literal are the same key.
pub proof fn law_key_conversion_is_lossless(a: MapKey, b: MapKey)
    ensures
        !(a.literal() is Array),
        !(a.literal() is Mapping),
        a.literal() == b.literal() ==> a == b,
{
}

/// One call that serializing a map literal makes on a serializer.
#[derive(Debug, Clone, Copy, PartialEq)]
pub enum MapStep {
    /// Open a map that will hold `len` entries.
    Begin { len: usize },
    /// Write one key with its value.
    Entry { key: MapKey, value: Expr },
    /// Close the map.
    End,
}

/// The calls that serialize a map literal: the map is opened with the number
/// of entries, every entry is written once, in the order of `entries`, and the
/// map is closed.
pub open spec fn map_steps(entries: Seq<MapEntry>) -> Seq<MapStep> {
    seq![MapStep::Begin { len: entries.len() as usize }] + entries.map_values(
        |e: MapEntry| MapStep::Entry { key: e.key, value: e.value },
    ) + seq![MapStep::End]
}

/// Lays out how a map literal is serialized as a genuine map. The entries are
/// taken from the slice as it stands: nothing is sorted and no key is dropped,
/// also where a key occurs twice.
pub fn serialize_map(map: &[MapEntry]) -> (steps: Vec<MapStep>)
    ensures
        steps@ == map_steps(map@),
{
    let mut steps: Vec<MapStep> = Vec::new();
    steps.push(MapStep::Begin { len: map.len() });
    let mut i: usize = 0;
    while i < map.len()
        invariant
            i <= map.len(),
            steps@ == seq![MapStep::Begin { len: map@.len() as usize }] + map@.take(i as int).map_values(
                |e: MapEntry| MapStep::Entry { key: e.key, value: e.value },
            ),
        decreases map.len() - i,
    {
        let entry = &map[i];
        steps.push(MapStep::Entry { key: entry.key, value: entry.value });
        i = i + 1;
    }
    steps.push(MapStep::End);
    steps
}

/// The entries that a run of calls has written, in the order in which they
/// were written: what a reader of the serialized map is handed.
pub open spec fn entries_written(steps: Seq<MapStep>) -> Seq<MapEntry>
    decreases steps.len(),
{
    if steps.len() == 0 {
        Seq::empty()
    } else {
        let before = entries_written(steps.drop_last());
        match steps.last() {
            MapStep::Entry { key, value } => before.push(MapEntry { key, value }),
            _ => before,
        }
    }
}

/// The entries written by the calls for the first `n` entries of a map are
/// those `n` entries.
proof fn lemma_entries_written_so_far(entries: Seq<MapEntry>, n: int)
    requires
        0 <= n <= entries.len(),
    ensures
        entries_written(map_steps(entries).take(n + 1)) == entries.take(n),
    decreases n,
{
    let steps = map_steps(entries);
    let so_far = steps.take(n + 1);
    if n == 0 {
        assert(entries_written(so_far.drop_last()) =~= Seq::<MapEntry>::empty());
    } else {
        lemma_entries_written_so_far(entries, n - 1);
        assert(so_far.drop_last() =~= steps.take(n));
    }
}

/// Serializing a map of N entries writes N entries, the i-th written being the
/// i-th declared, between one call that opens the map and one that closes it.
/// Reading the written entries back in the order in which they were written
/// gives the map's entries again: the same entries in the same order.
pub proof fn law_serialize_map_keeps_order(entries: Seq<MapEntry>)
    ensures
        map_steps(entries).len() == entries.len() + 2,
        map_steps(entries)[0] == (MapStep::Begin { len: entries.len() as usize }),
        map_steps(entries)[entries.len() as int + 1] == MapStep::End,
        forall|i: int|
            0 <= i < entries.len() ==> #[trigger] map_steps(entries)[i + 1] == (MapStep::Entry {
                key: entries[i].key,
                value: entries[i].value,
            }),
        entries_written(map_steps(entries)) == entries,
{
    lemma_entries_written_so_far(entries, entries.len() as int);
    assert(map_steps(entries).take(entries.len() as int + 1) =~= map_steps(entries).drop_last());
    assert(entries.take(entries.len() as int) =~= entries);
}

} // verus!
