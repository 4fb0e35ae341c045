use ripewire::pod_simple::dbg_print::{check_dump, dbg_print, DbgItem, DbgKey};
use ripewire::pod_simple::render::{line_prefix, render, render_line};
use ripewire::pod_simple::deserialize::{PodDeserializer, PodDeserializerKind};
use ripewire::pod_simple::serialize::Builder;
use ripewire::spa_types::{SpaFraction, SpaRectangle, SpaType};
use ripewire::pod_simple::dbg_print::DbgLine;
use ripewire::pod_simple::render::item_text;

fn demo() -> Vec<u8> {
    let mut builder = Builder::new();
    builder.push_struct_with(|b| {
        b.push(())
            .push(false)
            .push(true)
            .push(u32::MAX as i32)
            .push(u64::MAX as i64)
            .push(SpaRectangle { width: 1, height: 2 })
            .push(SpaFraction { num: 1, denom: 2 })
            .push_struct_with(|b| {
                b.push(()).push(false).push(true).push(u32::MAX as i32).push(u64::MAX as i64);
            })
            .push("abc")
            .push([1u8, 2].as_slice())
            .push_array_with(4, SpaType::Int, |b, a| {
                a.push(b, 1).push(b, 2).push(b, 3);
            });
    });
    builder.into_inner()
}

#[test]
fn demo_struct_is_printed_line_by_line() {
    let bytes = demo();
    let lines = dbg_print(&bytes);
    assert!(matches!(lines[0].item, DbgItem::StructOpen));
    assert_eq!(lines[0].nest, 0);
    assert!(matches!(lines[1].item, DbgItem::NoneType));
    assert_eq!(lines[1].nest, 1);
    assert!(matches!(lines[2].item, DbgItem::Bool(false)));
    assert!(matches!(lines[3].item, DbgItem::Bool(true)));
    assert!(matches!(lines[4].item, DbgItem::Int(-1)));
    assert!(matches!(lines[5].item, DbgItem::Long(-1)));
    assert!(matches!(lines[6].item, DbgItem::Rectangle(SpaRectangle { width: 1, height: 2 })));
    assert!(matches!(lines[7].item, DbgItem::Fraction(SpaFraction { num: 1, denom: 2 })));
    assert!(matches!(lines[8].item, DbgItem::StructOpen));
    assert_eq!(lines[9].nest, 2);
    assert!(matches!(lines[14].item, DbgItem::CloseBrace));
    assert!(matches!(lines[15].item, DbgItem::String(s) if s == b"abc"));
    assert!(matches!(lines[16].item, DbgItem::Bytes(s) if s == [1, 2]));
    assert!(matches!(lines[17].item, DbgItem::ArrayOpen));
    assert!(matches!(lines[18].item, DbgItem::Int(1)));
    assert!(matches!(lines[20].item, DbgItem::Int(3)));
    assert!(matches!(lines[21].item, DbgItem::CloseBracket));
    assert!(matches!(lines[22].item, DbgItem::CloseBrace));
    assert_eq!(lines.len(), 23);
    assert!(lines.iter().all(|l| l.key == DbgKey::NoKey));
}

#[test]
fn demo_struct_reads_back() {
    let bytes = demo();
    let (pod, rest) = PodDeserializer::new(&bytes);
    assert!(rest.is_empty());
    assert_eq!(pod.ty(), SpaType::Struct);
    let mut s = pod.as_struct().unwrap();
    assert!(matches!(s.pop_field().unwrap().kind(), PodDeserializerKind::NoneType));
    assert!(matches!(s.pop_field().unwrap().kind(), PodDeserializerKind::Bool(false)));
    assert!(matches!(s.pop_field().unwrap().kind(), PodDeserializerKind::Bool(true)));
    assert!(matches!(s.pop_field().unwrap().kind(), PodDeserializerKind::Int(-1)));
}

#[test]
fn int_pod_bytes_match_pod_v2() {
    let mut b = Builder::new();
    b.push(7i32);
    let mut c = ripewire::pod_v2::serialize::Builder::new();
    c.write_int(7);
    assert_eq!(b.into_inner(), c.into_inner());
}

#[test]
fn nested_struct_dump_text() {
    let bytes: [u8; 32] = [
        24, 0, 0, 0, 14, 0, 0, 0, 16, 0, 0, 0, 14, 0, 0, 0, 4, 0, 0, 0, 4, 0, 0, 0, 1, 0, 0, 0, 0,
        0, 0, 0,
    ];
    let lines = dbg_print(&bytes);
    assert_eq!(render(&lines).unwrap(), "Struct {\n  Struct {\n    Int(1)\n  }\n}\n");
}

#[test]
fn demo_dump_text() {
    let bytes = demo();
    let lines = dbg_print(&bytes);
    let whole = render(&lines).unwrap();
    assert!(whole.starts_with("Struct {\n  None\n  Bool(false)\n"));
    assert!(whole.contains("\n  String(\"abc\")\n  Bytes [1, 2]\n"));
    assert!(whole.ends_with("  ]\n}\n"));
    let texts: Vec<Option<String>> = lines.iter().map(|l| render_line(l)).collect();
    assert_eq!(texts[0].as_deref(), Some("Struct {"));
    assert_eq!(texts[1].as_deref(), Some("  None"));
    assert_eq!(texts[2].as_deref(), Some("  Bool(false)"));
    assert_eq!(texts[4].as_deref(), Some("  Int(-1)"));
    assert_eq!(texts[5].as_deref(), Some("  Long(-1)"));
    assert_eq!(texts[6].as_deref(), Some("  SpaRectangle { width: 1, height: 2 }"));
    assert_eq!(texts[7].as_deref(), Some("  SpaFraction { num: 1, denom: 2 }"));
    let s = lines.iter().position(|l| matches!(l.item, DbgItem::String(_))).unwrap();
    assert_eq!(texts[s].as_deref(), Some("  String(\"abc\")"));
    assert_eq!(line_prefix(&lines[s]), "  ");
    assert_eq!(texts[s + 1].as_deref(), Some("  Bytes [1, 2]"));
    assert_eq!(texts[s + 2].as_deref(), Some("  Array ["));
    assert_eq!(texts[s + 3].as_deref(), Some("    Int(1)"));
    assert_eq!(texts[s + 6].as_deref(), Some("  ]"));
    assert_eq!(texts.last().unwrap().as_deref(), Some("}"));
}

#[test]
fn array_with_exact_bytes() {
    let mut builder = Builder::new();
    builder.push_array_with(4, SpaType::Int, |b, a| {
        a.push(b, 1).push(b, 2).push(b, 3);
    });
    assert_eq!(
        builder.into_inner(),
        vec![20, 0, 0, 0, 13, 0, 0, 0, 4, 0, 0, 0, 4, 0, 0, 0, 1, 0, 0, 0, 2, 0, 0, 0, 3, 0, 0, 0, 0, 0, 0, 0]
    );
}

#[test]
fn dumpable_pods_are_recognised() {
    let bytes = demo();
    assert!(check_dump(&bytes));
    let mut truncated = bytes.clone();
    truncated.truncate(bytes.len() - 8);
    assert!(!check_dump(&truncated));
    let unknown_type: [u8; 16] = [4, 0, 0, 0, 200, 0, 0, 0, 1, 0, 0, 0, 0, 0, 0, 0];
    assert!(!check_dump(&unknown_type));
}

#[test]
fn simple_reader_over_short_body() {
    let bytes: [u8; 8] = [0, 0, 0, 0, 4, 0, 0, 0];
    let (pod, rest) = PodDeserializer::new(&bytes);
    assert_eq!(pod.size(), 0);
    assert_eq!(pod.ty(), SpaType::Int);
    assert!(rest.is_empty());
    assert!(pod.as_struct().is_none());
}

#[test]
fn string_lines_escape_like_bstr() {
    let raw: &[u8] = b"a\"b\n\xff";
    let line = DbgLine { nest: 0, key: ripewire::pod_simple::dbg_print::DbgKey::NoKey, item: DbgItem::String(raw) };
    assert_eq!(item_text(&line.item).as_deref(), Some("String(\"a\\\"b\\n\\xff\")"));
    let empty = DbgItem::String(b"");
    assert_eq!(item_text(&empty).as_deref(), Some("String(\"\")"));
}
