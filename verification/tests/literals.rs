use std::fmt;

use confique::meta::{serialize_map, Expr, Float, Integer, MapEntry, MapKey, MapStep};
use serde::de::{Deserialize, Deserializer, MapAccess, Visitor};
use serde::ser::{Serialize, SerializeMap, SerializeSeq, Serializer};

fn leak<T>(items: Vec<T>) -> &'static [T] {
    Box::leak(items.into_boxed_slice())
}

fn f32_lit(v: f32) -> Float {
    Float::F32(v.to_bits())
}

fn scores() -> &'static [MapEntry] {
    leak(vec![
        MapEntry { key: MapKey::Str("cookie"), value: Expr::Float(f32_lit(1.5)) },
        MapEntry { key: MapKey::Str("server"), value: Expr::Float(f32_lit(12.7)) },
    ])
}

/// A literal as a serializer sees it.
struct Lit(Expr);

/// A key as a serializer sees it.
struct Key(MapKey);

fn write_float<S: Serializer>(v: Float, s: S) -> Result<S::Ok, S::Error> {
    match v {
        Float::F32(bits) => s.serialize_f32(f32::from_bits(bits)),
        Float::F64(bits) => s.serialize_f64(f64::from_bits(bits)),
    }
}

fn write_integer<S: Serializer>(v: Integer, s: S) -> Result<S::Ok, S::Error> {
    match v {
        Integer::U8(i) => s.serialize_u8(i),
        Integer::U16(i) => s.serialize_u16(i),
        Integer::U32(i) => s.serialize_u32(i),
        Integer::U64(i) => s.serialize_u64(i),
        Integer::U128(i) => s.serialize_u128(i),
        Integer::Usize(i) => s.serialize_u64(i as u64),
        Integer::I8(i) => s.serialize_i8(i),
        Integer::I16(i) => s.serialize_i16(i),
        Integer::I32(i) => s.serialize_i32(i),
        Integer::I64(i) => s.serialize_i64(i),
        Integer::I128(i) => s.serialize_i128(i),
        Integer::Isize(i) => s.serialize_i64(i as i64),
    }
}

impl Serialize for Key {
    fn serialize<S: Serializer>(&self, s: S) -> Result<S::Ok, S::Error> {
        match self.0 {
            MapKey::Str(v) => s.serialize_str(v),
            MapKey::Float(v) => write_float(v, s),
            MapKey::Integer(v) => write_integer(v, s),
            MapKey::Bool(v) => s.serialize_bool(v),
            _ => unreachable!(),
        }
    }
}

impl Serialize for Lit {
    fn serialize<S: Serializer>(&self, s: S) -> Result<S::Ok, S::Error> {
        match self.0 {
            Expr::Str(v) => s.serialize_str(v),
            Expr::Float(v) => write_float(v, s),
            Expr::Integer(v) => write_integer(v, s),
            Expr::Bool(v) => s.serialize_bool(v),
            Expr::Array(items) => {
                let mut seq = s.serialize_seq(Some(items.len()))?;
                for item in items {
                    seq.serialize_element(&Lit(*item))?;
                }
                seq.end()
            }
            Expr::Mapping(entries) => {
                let mut steps = serialize_map(entries).into_iter();
                let len = match steps.next() {
                    Some(MapStep::Begin { len }) => len,
                    other => panic!("a map is opened first, not {:?}", other),
                };
                let mut map = s.serialize_map(Some(len))?;
                for step in steps {
                    match step {
                        MapStep::Entry { key, value } => {
                            map.serialize_entry(&Key(key), &Lit(value))?
                        }
                        MapStep::End => return map.end(),
                        MapStep::Begin { .. } => panic!("a map is opened once"),
                    }
                }
                panic!("a map is closed last")
            }
            _ => unreachable!(),
        }
    }
}

/// The entries of a JSON object in the order in which they are written.
struct Pairs(Vec<(String, f32)>);

struct PairsVisitor;

impl<'de> Visitor<'de> for PairsVisitor {
    type Value = Pairs;

    fn expecting(&self, f: &mut fmt::Formatter) -> fmt::Result {
        f.write_str("a map from strings to numbers")
    }

    fn visit_map<A: MapAccess<'de>>(self, mut map: A) -> Result<Pairs, A::Error> {
        let mut pairs = Vec::new();
        while let Some((k, v)) = map.next_entry::<String, f32>()? {
            pairs.push((k, v));
        }
        Ok(Pairs(pairs))
    }
}

impl<'de> Deserialize<'de> for Pairs {
    fn deserialize<D: Deserializer<'de>>(d: D) -> Result<Pairs, D::Error> {
        d.deserialize_map(PairsVisitor)
    }
}

#[test]
fn key_converts_to_the_same_literal() {
    assert_eq!(
        Expr::from(MapKey::Integer(Integer::U16(80))),
        Expr::Integer(Integer::U16(80))
    );
    assert_eq!(Expr::from(MapKey::Str("cookie")), Expr::Str("cookie"));
    assert_eq!(Expr::from(MapKey::Bool(true)), Expr::Bool(true));
    assert_eq!(Expr::from(MapKey::Bool(false)), Expr::Bool(false));
    assert_eq!(Expr::from(MapKey::Float(f32_lit(1.5))), Expr::Float(f32_lit(1.5)));
    assert_eq!(
        Expr::from(MapKey::Float(Float::F64(2.25f64.to_bits()))),
        Expr::Float(Float::F64(2.25f64.to_bits()))
    );
}

#[test]
fn key_conversion_keeps_the_width() {
    assert_ne!(
        Expr::from(MapKey::Integer(Integer::U16(80))),
        Expr::Integer(Integer::U64(80))
    );
    assert_ne!(
        Expr::from(MapKey::Float(f32_lit(1.5))),
        Expr::Float(Float::F64(1.5f64.to_bits()))
    );
    let converted: Expr = MapKey::Integer(Integer::I8(-3)).into();
    assert_eq!(converted, Expr::Integer(Integer::I8(-3)));
}

#[test]
fn map_is_written_in_declaration_order() {
    let steps = serialize_map(scores());
    assert_eq!(
        steps,
        vec![
            MapStep::Begin { len: 2 },
            MapStep::Entry { key: MapKey::Str("cookie"), value: Expr::Float(f32_lit(1.5)) },
            MapStep::Entry { key: MapKey::Str("server"), value: Expr::Float(f32_lit(12.7)) },
            MapStep::End,
        ]
    );
}

#[test]
fn map_is_not_sorted() {
    let entries = leak(vec![
        MapEntry { key: MapKey::Str("zebra"), value: Expr::Bool(true) },
        MapEntry { key: MapKey::Str("apple"), value: Expr::Bool(false) },
        MapEntry { key: MapKey::Str("mango"), value: Expr::Bool(true) },
    ]);
    let steps = serialize_map(entries);
    assert_eq!(steps.len(), 5);
    assert_eq!(steps[0], MapStep::Begin { len: 3 });
    assert_eq!(steps[1], MapStep::Entry { key: MapKey::Str("zebra"), value: Expr::Bool(true) });
    assert_eq!(steps[2], MapStep::Entry { key: MapKey::Str("apple"), value: Expr::Bool(false) });
    assert_eq!(steps[3], MapStep::Entry { key: MapKey::Str("mango"), value: Expr::Bool(true) });
    assert_eq!(steps[4], MapStep::End);
    assert_eq!(
        serde_json::to_string(&Lit(Expr::Mapping(entries))).unwrap(),
        r#"{"zebra":true,"apple":false,"mango":true}"#
    );
}

#[test]
fn empty_map_is_opened_and_closed() {
    let steps = serialize_map(&[]);
    assert_eq!(steps, vec![MapStep::Begin { len: 0 }, MapStep::End]);
    assert_eq!(serde_json::to_string(&Lit(Expr::Mapping(&[]))).unwrap(), "{}");
}

#[test]
fn repeated_keys_are_all_written() {
    let entries = leak(vec![
        MapEntry { key: MapKey::Str("a"), value: Expr::Integer(Integer::U8(1)) },
        MapEntry { key: MapKey::Str("a"), value: Expr::Integer(Integer::U8(2)) },
    ]);
    let steps = serialize_map(entries);
    assert_eq!(
        steps,
        vec![
            MapStep::Begin { len: 2 },
            MapStep::Entry { key: MapKey::Str("a"), value: Expr::Integer(Integer::U8(1)) },
            MapStep::Entry { key: MapKey::Str("a"), value: Expr::Integer(Integer::U8(2)) },
            MapStep::End,
        ]
    );
}

#[test]
fn scores_serialize_to_an_object_in_declaration_order() {
    let json = serde_json::to_string(&Lit(Expr::Mapping(scores()))).unwrap();
    assert_eq!(json, r#"{"cookie":1.5,"server":12.7}"#);
    assert!(json.find("cookie").unwrap() < json.find("server").unwrap());
}

#[test]
fn map_entries_read_back_in_the_same_order() {
    let entries = leak(vec![
        MapEntry { key: MapKey::Str("server"), value: Expr::Float(f32_lit(12.7)) },
        MapEntry { key: MapKey::Str("cookie"), value: Expr::Float(f32_lit(1.5)) },
        MapEntry { key: MapKey::Str("accept"), value: Expr::Float(f32_lit(-0.25)) },
    ]);
    let json = serde_json::to_string(&Lit(Expr::Mapping(entries))).unwrap();
    let read: Pairs = serde_json::from_str(&json).unwrap();
    assert_eq!(read.0.len(), entries.len());
    for (entry, (key, value)) in entries.iter().zip(read.0.iter()) {
        assert_eq!(entry.key, MapKey::Str(leak(vec![key.clone()])[0].as_str()));
        assert_eq!(entry.value, Expr::Float(f32_lit(*value)));
    }
}

#[test]
fn numbers_serialize_without_a_width_tag() {
    assert_eq!(serde_json::to_string(&Lit(Expr::Integer(Integer::U16(80)))).unwrap(), "80");
    assert_eq!(serde_json::to_string(&Lit(Expr::Integer(Integer::I64(80)))).unwrap(), "80");
    assert_eq!(serde_json::to_string(&Lit(Expr::Float(f32_lit(1.5)))).unwrap(), "1.5");
    assert_eq!(
        serde_json::to_string(&Lit(Expr::Float(Float::F64(1.5f64.to_bits())))).unwrap(),
        "1.5"
    );
}

#[test]
fn array_serializes_as_an_ordered_sequence() {
    let items = leak(vec![Expr::Str("content-type"), Expr::Str("content-encoding")]);
    assert_eq!(
        serde_json::to_string(&Lit(Expr::Array(items))).unwrap(),
        r#"["content-type","content-encoding"]"#
    );
}

#[test]
fn keys_that_are_not_strings_become_json_keys() {
    let entries = leak(vec![
        MapEntry { key: MapKey::Integer(Integer::U16(80)), value: Expr::Str("http") },
        MapEntry { key: MapKey::Bool(true), value: Expr::Str("yes") },
        MapEntry { key: MapKey::Integer(Integer::I8(-1)), value: Expr::Str("none") },
    ]);
    assert_eq!(
        serde_json::to_string(&Lit(Expr::Mapping(entries))).unwrap(),
        r#"{"80":"http","true":"yes","-1":"none"}"#
    );
}

#[test]
fn literals_compare_by_variant_and_payload() {
    assert_eq!(Expr::Mapping(scores()), Expr::Mapping(scores()));
    let swapped = leak(vec![scores()[1], scores()[0]]);
    assert_ne!(Expr::Mapping(scores()), Expr::Mapping(swapped));
    assert_ne!(Expr::Integer(Integer::U8(7)), Expr::Integer(Integer::U64(7)));
    assert_ne!(Expr::Str("7"), Expr::Integer(Integer::U8(7)));
    assert_eq!(Expr::Array(&[Expr::Bool(true)]), Expr::Array(&[Expr::Bool(true)]));
}
