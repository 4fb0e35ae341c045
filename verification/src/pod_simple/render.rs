//! The text of a dump: each line indented two spaces per level, with its
//! property key if any, then what it shows.
//!
//! Floating-point values are shown by std's `Debug` text, which this module
//! does not produce: their lines have no text here. Strings are shown by
//! `bstr`'s `Debug` text, which this module asks of `bstr`.

use vstd::prelude::*;
use vstd::string::StringExecFns;
use crate::spa_types::{SpaChoiceType, SpaFormat, SpaType};
use crate::spa_enum::SpaRawEnum;
use super::dbg_print::{spec_lines, DbgItem, DbgKey, DbgLine, DbgLineView, DbgValue};

verus! {

/// The name a type is shown by.
pub open spec fn spec_type_label(v: SpaType) -> Seq<char> {
    match v {
        SpaType::NoneType => "None"@,
        SpaType::Bool => "Bool"@,
        SpaType::Id => "Id"@,
        SpaType::Int => "Int"@,
        SpaType::Long => "Long"@,
        SpaType::Float => "Float"@,
        SpaType::Double => "Double"@,
        SpaType::String => "String"@,
        SpaType::Bytes => "Bytes"@,
        SpaType::Rectangle => "Rectangle"@,
        SpaType::Fraction => "Fraction"@,
        SpaType::Bitmap => "Bitmap"@,
        SpaType::Array => "Array"@,
        SpaType::Struct => "Struct"@,
        SpaType::Object => "Object"@,
        SpaType::Sequence => "Sequence"@,
        SpaType::Pointer => "Pointer"@,
        SpaType::Fd => "Fd"@,
        SpaType::Choice => "Choice"@,
        SpaType::Pod => "Pod"@,
        SpaType::PointerBuffer => "PointerBuffer"@,
        SpaType::PointerMeta => "PointerMeta"@,
        SpaType::PointerDict => "PointerDict"@,
        SpaType::EventDevice => "EventDevice"@,
        SpaType::EventNode => "EventNode"@,
        SpaType::CommandDevice => "CommandDevice"@,
        SpaType::CommandNode => "CommandNode"@,
        SpaType::ObjectPropInfo => "ObjectPropInfo"@,
        SpaType::ObjectProps => "ObjectProps"@,
        SpaType::ObjectFormat => "ObjectFormat"@,
        SpaType::ObjectParamBuffers => "ObjectParamBuffers"@,
        SpaType::ObjectParamMeta => "ObjectParamMeta"@,
        SpaType::ObjectParamIo => "ObjectParamIo"@,
        SpaType::ObjectParamProfile => "ObjectParamProfile"@,
        SpaType::ObjectParamPortConfig => "ObjectParamPortConfig"@,
        SpaType::ObjectParamRoute => "ObjectParamRoute"@,
        SpaType::ObjectProfiler => "ObjectProfiler"@,
        SpaType::ObjectParamLatency => "ObjectParamLatency"@,
        SpaType::ObjectParamProcessLatency => "ObjectParamProcessLatency"@,
        SpaType::ObjectParamParamTag => "ObjectParamParamTag"@,
        SpaType::VendorPipeWire => "VendorPipeWire"@,
        SpaType::VendorOther => "VendorOther"@,
    }
}

/// The name a type is shown by.
pub fn spa_type_label(v: SpaType) -> (r: &'static str)
    ensures
        r@ == spec_type_label(v),
{
    match v {
        SpaType::NoneType => "None",
        SpaType::Bool => "Bool",
        SpaType::Id => "Id",
        SpaType::Int => "Int",
        SpaType::Long => "Long",
        SpaType::Float => "Float",
        SpaType::Double => "Double",
        SpaType::String => "String",
        SpaType::Bytes => "Bytes",
        SpaType::Rectangle => "Rectangle",
        SpaType::Fraction => "Fraction",
        SpaType::Bitmap => "Bitmap",
        SpaType::Array => "Array",
        SpaType::Struct => "Struct",
        SpaType::Object => "Object",
        SpaType::Sequence => "Sequence",
        SpaType::Pointer => "Pointer",
        SpaType::Fd => "Fd",
        SpaType::Choice => "Choice",
        SpaType::Pod => "Pod",
        SpaType::PointerBuffer => "PointerBuffer",
        SpaType::PointerMeta => "PointerMeta",
        SpaType::PointerDict => "PointerDict",
        SpaType::EventDevice => "EventDevice",
        SpaType::EventNode => "EventNode",
        SpaType::CommandDevice => "CommandDevice",
        SpaType::CommandNode => "CommandNode",
        SpaType::ObjectPropInfo => "ObjectPropInfo",
        SpaType::ObjectProps => "ObjectProps",
        SpaType::ObjectFormat => "ObjectFormat",
        SpaType::ObjectParamBuffers => "ObjectParamBuffers",
        SpaType::ObjectParamMeta => "ObjectParamMeta",
        SpaType::ObjectParamIo => "ObjectParamIo",
        SpaType::ObjectParamProfile => "ObjectParamProfile",
        SpaType::ObjectParamPortConfig => "ObjectParamPortConfig",
        SpaType::ObjectParamRoute => "ObjectParamRoute",
        SpaType::ObjectProfiler => "ObjectProfiler",
        SpaType::ObjectParamLatency => "ObjectParamLatency",
        SpaType::ObjectParamProcessLatency => "ObjectParamProcessLatency",
        SpaType::ObjectParamParamTag => "ObjectParamParamTag",
        SpaType::VendorPipeWire => "VendorPipeWire",
        SpaType::VendorOther => "VendorOther",
    }
}

/// The name a choice type is shown by.
pub open spec fn spec_choice_name(v: SpaChoiceType) -> Seq<char> {
    match v {
        SpaChoiceType::NoneChoice => "None"@,
        SpaChoiceType::Range => "Range"@,
        SpaChoiceType::Step => "Step"@,
        SpaChoiceType::Enum => "Enum"@,
        SpaChoiceType::Flags => "Flags"@,
    }
}

/// The name a choice type is shown by.
pub fn choice_name(v: SpaChoiceType) -> (r: &'static str)
    ensures
        r@ == spec_choice_name(v),
{
    match v {
        SpaChoiceType::NoneChoice => "None",
        SpaChoiceType::Range => "Range",
        SpaChoiceType::Step => "Step",
        SpaChoiceType::Enum => "Enum",
        SpaChoiceType::Flags => "Flags",
    }
}

/// The name a format property key is shown by.
pub open spec fn spec_format_name(v: SpaFormat) -> Seq<char> {
    match v {
        SpaFormat::Start => "Start"@,
        SpaFormat::MediaType => "MediaType"@,
        SpaFormat::MediaSubtype => "MediaSubtype"@,
        SpaFormat::StartAudio => "StartAudio"@,
        SpaFormat::AudioFormat => "AudioFormat"@,
        SpaFormat::AudioFlags => "AudioFlags"@,
        SpaFormat::AudioRate => "AudioRate"@,
        SpaFormat::AudioChannels => "AudioChannels"@,
        SpaFormat::AudioPosition => "AudioPosition"@,
        SpaFormat::AudioIec958Codec => "AudioIec958Codec"@,
        SpaFormat::AudioBitorder => "AudioBitorder"@,
        SpaFormat::AudioInterleave => "AudioInterleave"@,
        SpaFormat::AudioBitrate => "AudioBitrate"@,
        SpaFormat::AudioBlockAlign => "AudioBlockAlign"@,
        SpaFormat::AudioAacStreamFormat => "AudioAacStreamFormat"@,
        SpaFormat::AudioWmaProfile => "AudioWmaProfile"@,
        SpaFormat::AudioAmrBandMode => "AudioAmrBandMode"@,
        SpaFormat::StartVideo => "StartVideo"@,
        SpaFormat::VideoFormat => "VideoFormat"@,
        SpaFormat::VideoModifier => "VideoModifier"@,
        SpaFormat::VideoSize => "VideoSize"@,
        SpaFormat::VideoFramerate => "VideoFramerate"@,
        SpaFormat::VideoMaxFramerate => "VideoMaxFramerate"@,
        SpaFormat::VideoViews => "VideoViews"@,
        SpaFormat::VideoInterlaceMode => "VideoInterlaceMode"@,
        SpaFormat::VideoPixelAspectRatio => "VideoPixelAspectRatio"@,
        SpaFormat::VideoMultiviewMode => "VideoMultiviewMode"@,
        SpaFormat::VideoMultiviewFlags => "VideoMultiviewFlags"@,
        SpaFormat::VideoChromaSite => "VideoChromaSite"@,
        SpaFormat::VideoColorRange => "VideoColorRange"@,
        SpaFormat::VideoColorMatrix => "VideoColorMatrix"@,
        SpaFormat::VideoTransferFunction => "VideoTransferFunction"@,
        SpaFormat::VideoColorPrimaries => "VideoColorPrimaries"@,
        SpaFormat::VideoProfile => "VideoProfile"@,
        SpaFormat::VideoLevel => "VideoLevel"@,
        SpaFormat::VideoH264StreamFormat => "VideoH264StreamFormat"@,
        SpaFormat::VideoH264Alignment => "VideoH264Alignment"@,
        SpaFormat::StartImage => "StartImage"@,
        SpaFormat::StartBinary => "StartBinary"@,
        SpaFormat::StartStream => "StartStream"@,
        SpaFormat::StartApplication => "StartApplication"@,
    }
}

/// The name a format property key is shown by.
pub fn format_name(v: SpaFormat) -> (r: &'static str)
    ensures
        r@ == spec_format_name(v),
{
    match v {
        SpaFormat::Start => "Start",
        SpaFormat::MediaType => "MediaType",
        SpaFormat::MediaSubtype => "MediaSubtype",
        SpaFormat::StartAudio => "StartAudio",
        SpaFormat::AudioFormat => "AudioFormat",
        SpaFormat::AudioFlags => "AudioFlags",
        SpaFormat::AudioRate => "AudioRate",
        SpaFormat::AudioChannels => "AudioChannels",
        SpaFormat::AudioPosition => "AudioPosition",
        SpaFormat::AudioIec958Codec => "AudioIec958Codec",
        SpaFormat::AudioBitorder => "AudioBitorder",
        SpaFormat::AudioInterleave => "AudioInterleave",
        SpaFormat::AudioBitrate => "AudioBitrate",
        SpaFormat::AudioBlockAlign => "AudioBlockAlign",
        SpaFormat::AudioAacStreamFormat => "AudioAacStreamFormat",
        SpaFormat::AudioWmaProfile => "AudioWmaProfile",
        SpaFormat::AudioAmrBandMode => "AudioAmrBandMode",
        SpaFormat::StartVideo => "StartVideo",
        SpaFormat::VideoFormat => "VideoFormat",
        SpaFormat::VideoModifier => "VideoModifier",
        SpaFormat::VideoSize => "VideoSize",
        SpaFormat::VideoFramerate => "VideoFramerate",
        SpaFormat::VideoMaxFramerate => "VideoMaxFramerate",
        SpaFormat::VideoViews => "VideoViews",
        SpaFormat::VideoInterlaceMode => "VideoInterlaceMode",
        SpaFormat::VideoPixelAspectRatio => "VideoPixelAspectRatio",
        SpaFormat::VideoMultiviewMode => "VideoMultiviewMode",
        SpaFormat::VideoMultiviewFlags => "VideoMultiviewFlags",
        SpaFormat::VideoChromaSite => "VideoChromaSite",
        SpaFormat::VideoColorRange => "VideoColorRange",
        SpaFormat::VideoColorMatrix => "VideoColorMatrix",
        SpaFormat::VideoTransferFunction => "VideoTransferFunction",
        SpaFormat::VideoColorPrimaries => "VideoColorPrimaries",
        SpaFormat::VideoProfile => "VideoProfile",
        SpaFormat::VideoLevel => "VideoLevel",
        SpaFormat::VideoH264StreamFormat => "VideoH264StreamFormat",
        SpaFormat::VideoH264Alignment => "VideoH264Alignment",
        SpaFormat::StartImage => "StartImage",
        SpaFormat::StartBinary => "StartBinary",
        SpaFormat::StartStream => "StartStream",
        SpaFormat::StartApplication => "StartApplication",
    }
}

/// The digit `d`.
pub open spec fn spec_digit(d: nat) -> Seq<char> {
    if d == 0 {
        "0"@
    } else if d == 1 {
        "1"@
    } else if d == 2 {
        "2"@
    } else if d == 3 {
        "3"@
    } else if d == 4 {
        "4"@
    } else if d == 5 {
        "5"@
    } else if d == 6 {
        "6"@
    } else if d == 7 {
        "7"@
    } else if d == 8 {
        "8"@
    } else {
        "9"@
    }
}

/// The decimal digits of `n`.
pub open spec fn spec_decimal(n: nat) -> Seq<char>
    decreases n,
{
    if n < 10 {
        spec_digit(n)
    } else {
        spec_decimal(n / 10) + spec_digit(n % 10)
    }
}

/// The decimal text of `v`, with a minus sign when negative.
pub open spec fn spec_signed(v: int) -> Seq<char> {
    if v < 0 {
        "-"@ + spec_decimal((-v) as nat)
    } else {
        spec_decimal(v as nat)
    }
}

/// The bytes in decimal, separated by a comma and a space.
pub open spec fn spec_byte_items(b: Seq<u8>) -> Seq<char>
    decreases b.len(),
{
    if b.len() == 0 {
        Seq::empty()
    } else if b.len() == 1 {
        spec_decimal(b[0] as nat)
    } else {
        spec_byte_items(b.drop_last()) + ", "@ + spec_decimal(b.last() as nat)
    }
}

/// The bytes as a list in brackets.
pub open spec fn spec_byte_list(b: Seq<u8>) -> Seq<char> {
    "["@ + spec_byte_items(b) + "]"@
}

/// Two spaces for each of `n` levels.
pub open spec fn spec_pad(n: nat) -> Seq<char>
    decreases n,
{
    if n == 0 {
        Seq::empty()
    } else {
        spec_pad((n - 1) as nat) + "  "@
    }
}

/// The text of `bstr`'s `Debug` for bytes.
pub uninterp spec fn spec_bstr_debug(bytes: Seq<u8>) -> Seq<char>;

/// Calls `bstr::BStr`'s `Debug` impl (through `format!`): the bytes between
/// double quotes, read as UTF-8 with Rust's escapes, and each byte of an
/// invalid sequence as `\xNN`. The contract names the result and states only
/// that it is quoted: it starts and ends with `"`, and holds nothing more for
/// no bytes.
#[verifier::external_body]
fn bstr_debug(bytes: &[u8]) -> (r: String)
    ensures
        r@ == spec_bstr_debug(bytes@),
        r@.len() >= 2,
        r@[0] == '"',
        r@[r@.len() - 1] == '"',
        bytes@.len() == 0 ==> r@.len() == 2,
{
    format!("{:?}", bstr::BStr::new(bytes))
}

/// What a line shows, after its indentation and key; floating-point values
/// have none here.
pub open spec fn spec_item_text(item: DbgValue) -> Option<Seq<char>> {
    match item {
        DbgValue::NoneType => Some("None"@),
        DbgValue::Bool(b) => Some(
            if b {
                "Bool(true)"@
            } else {
                "Bool(false)"@
            },
        ),
        DbgValue::Id(v) => Some("Id("@ + spec_decimal(v as nat) + ")"@),
        DbgValue::Int(v) => Some("Int("@ + spec_signed(v as int) + ")"@),
        DbgValue::Long(v) => Some("Long("@ + spec_signed(v as int) + ")"@),
        DbgValue::Float(_) => None,
        DbgValue::Double(_) => None,
        DbgValue::Rectangle(r) => Some(
            "SpaRectangle { width: "@ + spec_decimal(r.width as nat) + ", height: "@
                + spec_decimal(r.height as nat) + " }"@,
        ),
        DbgValue::Fraction(f) => Some(
            "SpaFraction { num: "@ + spec_decimal(f.num as nat) + ", denom: "@ + spec_decimal(
                f.denom as nat,
            ) + " }"@,
        ),
        DbgValue::Bitmap(b) => Some("Bitmap "@ + spec_byte_list(b)),
        DbgValue::ArrayOpen => Some("Array ["@),
        DbgValue::StructOpen => Some("Struct {"@),
        DbgValue::ObjectOpen(t) => Some(spec_type_label(t) + " {"@),
        DbgValue::ChoiceOpen(c) => Some("Choice::"@ + spec_choice_name(c) + " ["@),
        DbgValue::Fd(v) => Some("Fn("@ + spec_signed(v as int) + ")"@),
        DbgValue::Bytes(b) => Some("Bytes "@ + spec_byte_list(b)),
        DbgValue::String(b) => Some("String("@ + spec_bstr_debug(b) + ")"@),
        DbgValue::Unknown(t) => Some(spec_type_label(t)),
        DbgValue::CloseBracket => Some("]"@),
        DbgValue::CloseBrace => Some("}"@),
    }
}

/// What precedes what a line shows: its indentation, and for an object
/// property the key followed by the indentation again.
pub open spec fn spec_line_prefix(l: DbgLineView) -> Seq<char> {
    spec_pad(l.nest) + match l.key {
        DbgKey::NoKey => Seq::empty(),
        DbgKey::Format(f) => spec_format_name(f) + ":"@ + spec_pad(l.nest),
        DbgKey::Key(k) => "key: "@ + spec_decimal(k as nat) + spec_pad(l.nest),
    }
}

/// The text of a line, without its line break.
pub open spec fn spec_render_line(l: DbgLineView) -> Option<Seq<char>> {
    match spec_item_text(l.item) {
        Some(t) => Some(spec_line_prefix(l) + t),
        None => None,
    }
}

/// The text of lines, each ended by a line break.
pub open spec fn spec_render(ls: Seq<DbgLineView>) -> Option<Seq<char>>
    decreases ls.len(),
{
    if ls.len() == 0 {
        Some(Seq::empty())
    } else {
        match (spec_render(ls.drop_last()), spec_render_line(ls.last())) {
            (Some(a), Some(b)) => Some(a + b + "\n"@),
            _ => None,
        }
    }
}

fn push_digit(out: &mut String, d: u64)
    requires
        d < 10,
    ensures
        final(out)@ == old(out)@ + spec_digit(d as nat),
{
    let s = if d == 0 {
        "0"
    } else if d == 1 {
        "1"
    } else if d == 2 {
        "2"
    } else if d == 3 {
        "3"
    } else if d == 4 {
        "4"
    } else if d == 5 {
        "5"
    } else if d == 6 {
        "6"
    } else if d == 7 {
        "7"
    } else if d == 8 {
        "8"
    } else {
        "9"
    };
    out.append(s);
}

/// Append the decimal digits of `n`.
pub fn push_decimal(out: &mut String, n: u64)
    ensures
        final(out)@ == old(out)@ + spec_decimal(n as nat),
    decreases n,
{
    if n >= 10 {
        push_decimal(out, n / 10);
    }
    push_digit(out, n % 10);
    assert(final(out)@ =~= old(out)@ + spec_decimal(n as nat)) by {
        if n >= 10 {
            assert(old(out)@ + spec_decimal(n as nat) =~= old(out)@ + spec_decimal((n / 10) as nat)
                + spec_digit((n % 10) as nat));
        }
    }
}

/// Append the decimal text of `v`.
pub fn push_signed(out: &mut String, v: i64)
    ensures
        final(out)@ == old(out)@ + spec_signed(v as int),
{
    if v < 0 {
        out.append("-");
        let m: u64 = (0i128 - v as i128) as u64;
        push_decimal(out, m);
        assert(final(out)@ =~= old(out)@ + ("-"@ + spec_decimal((-v) as nat)));
    } else {
        push_decimal(out, v as u64);
    }
}

fn push_byte_list(out: &mut String, b: &[u8])
    ensures
        final(out)@ == old(out)@ + spec_byte_list(b@),
{
    let ghost o0 = out@;
    out.append("[");
    let mut i: usize = 0;
    assert(b@.take(0) =~= Seq::<u8>::empty());
    assert(out@ =~= o0 + "["@ + spec_byte_items(b@.take(0)));
    while i < b.len()
        invariant
            i <= b.len(),
            out@ == o0 + "["@ + spec_byte_items(b@.take(i as int)),
        decreases b.len() - i,
    {
        let ghost before = out@;
        if i > 0 {
            out.append(", ");
        }
        push_decimal(out, b[i] as u64);
        proof {
            let t = b@.take(i + 1);
            assert(t.drop_last() =~= b@.take(i as int));
            assert(t.last() == b@[i as int]);
            if i == 0 {
                assert(t.len() == 1);
                assert(out@ =~= o0 + "["@ + spec_byte_items(t));
            } else {
                assert(out@ =~= o0 + "["@ + spec_byte_items(t));
            }
        }
        i = i + 1;
    }
    assert(b@.take(b.len() as int) =~= b@);
    out.append("]");
    assert(out@ =~= o0 + spec_byte_list(b@));
}

fn push_pad(out: &mut String, n: usize)
    ensures
        final(out)@ == old(out)@ + spec_pad(n as nat),
{
    let ghost o0 = out@;
    let mut i: usize = 0;
    assert(out@ =~= o0 + spec_pad(0));
    while i < n
        invariant
            i <= n,
            out@ == o0 + spec_pad(i as nat),
        decreases n - i,
    {
        out.append("  ");
        assert(out@ =~= o0 + spec_pad((i + 1) as nat));
        i = i + 1;
    }
}

/// What a line shows, after its indentation and key: `None` for a
/// floating-point value.
pub fn item_text(item: &DbgItem) -> (r: Option<String>)
    ensures
        match spec_item_text(item.view()) {
            Some(t) => r matches Some(s) && s@ == t,
            None => r is None,
        },
{
    let mut out = String::new();
    match item {
        DbgItem::NoneType => out.append("None"),
        DbgItem::Bool(b) => {
            if *b {
                out.append("Bool(true)");
            } else {
                out.append("Bool(false)");
            }
        },
        DbgItem::Id(v) => {
            out.append("Id(");
            push_decimal(&mut out, *v as u64);
            out.append(")");
        },
        DbgItem::Int(v) => {
            out.append("Int(");
            push_signed(&mut out, *v as i64);
            out.append(")");
        },
        DbgItem::Long(v) => {
            out.append("Long(");
            push_signed(&mut out, *v);
            out.append(")");
        },
        DbgItem::Float(_) => return None,
        DbgItem::Double(_) => return None,
        DbgItem::Rectangle(r) => {
            out.append("SpaRectangle { width: ");
            push_decimal(&mut out, r.width as u64);
            out.append(", height: ");
            push_decimal(&mut out, r.height as u64);
            out.append(" }");
        },
        DbgItem::Fraction(f) => {
            out.append("SpaFraction { num: ");
            push_decimal(&mut out, f.num as u64);
            out.append(", denom: ");
            push_decimal(&mut out, f.denom as u64);
            out.append(" }");
        },
        DbgItem::Bitmap(b) => {
            out.append("Bitmap ");
            push_byte_list(&mut out, b);
        },
        DbgItem::ArrayOpen => out.append("Array ["),
        DbgItem::StructOpen => out.append("Struct {"),
        DbgItem::ObjectOpen(t) => {
            out.append(spa_type_label(*t));
            out.append(" {");
        },
        DbgItem::ChoiceOpen(c) => {
            out.append("Choice::");
            out.append(choice_name(*c));
            out.append(" [");
        },
        DbgItem::Fd(v) => {
            out.append("Fn(");
            push_signed(&mut out, *v);
            out.append(")");
        },
        DbgItem::Bytes(b) => {
            out.append("Bytes ");
            push_byte_list(&mut out, b);
        },
        DbgItem::String(b) => {
            out.append("String(");
            let text = bstr_debug(b);
            out.append(text.as_str());
            out.append(")");
        },
        DbgItem::Unknown(t) => out.append(spa_type_label(*t)),
        DbgItem::CloseBracket => out.append("]"),
        DbgItem::CloseBrace => out.append("}"),
    }
    assert(Some(out@) == spec_item_text(item.view()));
    Some(out)
}

/// What precedes what a line shows: its indentation, and for an object
/// property the key followed by the indentation again.
pub fn line_prefix(line: &DbgLine) -> (r: String)
    ensures
        r@ == spec_line_prefix(line.view()),
{
    let mut out = String::new();
    push_pad(&mut out, line.nest);
    match line.key {
        DbgKey::NoKey => {},
        DbgKey::Format(f) => {
            out.append(format_name(f));
            out.append(":");
            push_pad(&mut out, line.nest);
        },
        DbgKey::Key(k) => {
            out.append("key: ");
            push_decimal(&mut out, k as u64);
            push_pad(&mut out, line.nest);
        },
    }
    assert(out@ =~= spec_line_prefix(line.view()));
    out
}

/// The text of a line, without its line break; `None` when it shows a
/// floating-point value.
pub fn render_line(line: &DbgLine) -> (r: Option<String>)
    ensures
        match spec_render_line(line.view()) {
            Some(t) => r matches Some(s) && s@ == t,
            None => r is None,
        },
{
    match item_text(&line.item) {
        Some(t) => {
            let mut out = line_prefix(line);
            out.append(t.as_str());
            Some(out)
        },
        None => None,
    }
}

/// The text of a dump, each line ended by a line break; `None` when a line
/// shows a floating-point value.
pub fn render(lines: &Vec<DbgLine>) -> (r: Option<String>)
    ensures
        match spec_render(spec_lines(lines@)) {
            Some(t) => r matches Some(s) && s@ == t,
            None => r is None,
        },
{
    let mut out = String::new();
    let mut i: usize = 0;
    assert(spec_lines(lines@).take(0) =~= Seq::<DbgLineView>::empty());
    while i < lines.len()
        invariant
            i <= lines.len(),
            spec_render(spec_lines(lines@).take(i as int)) == Some(out@),
        decreases lines.len() - i,
    {
        let ghost prev = out@;
        proof {
            let t = spec_lines(lines@).take(i + 1);
            assert(t.drop_last() =~= spec_lines(lines@).take(i as int));
            assert(t.last() == lines@[i as int].view());
        }
        match render_line(&lines[i]) {
            Some(t) => {
                out.append(t.as_str());
                out.append("\n");
            },
            None => {
                proof {
                    lemma_render_stays_none(spec_lines(lines@), i as int + 1);
                }
                return None;
            },
        }
        i = i + 1;
    }
    assert(spec_lines(lines@).take(lines.len() as int) =~= spec_lines(lines@));
    Some(out)
}

/// Once a prefix of lines has no text, no longer prefix has.
proof fn lemma_render_stays_none(ls: Seq<DbgLineView>, k: int)
    requires
        0 <= k <= ls.len(),
        spec_render(ls.take(k)) is None,
    ensures
        spec_render(ls) is None,
    decreases ls.len() - k,
{
    if k < ls.len() {
        let t = ls.take(k + 1);
        assert(t.drop_last() =~= ls.take(k));
        lemma_render_stays_none(ls, k + 1);
    } else {
        assert(ls.take(k) =~= ls);
    }
}


/// Each type is shown by the name its raw value has in SPA: 1 is `None`, 2 is `Bool`, 3 is `Id`, 4 is `Int`, 5 is `Long`, 6 is `Float`, 7 is `Double`, 8 is `String`, 9 is `Bytes`, 10 is `Rectangle`, 11 is `Fraction`, 12 is `Bitmap`, 13 is `Array`, 14 is `Struct`, 15 is `Object`, 16 is `Sequence`, 17 is `Pointer`, 18 is `Fd`, 19 is `Choice`, 20 is `Pod`, 65537 is `PointerBuffer`, 65538 is `PointerMeta`, 65539 is `PointerDict`, 131073 is `EventDevice`, 131074 is `EventNode`, 196609 is `CommandDevice`, 196610 is `CommandNode`, 262145 is `ObjectPropInfo`, 262146 is `ObjectProps`, 262147 is `ObjectFormat`, 262148 is `ObjectParamBuffers`, 262149 is `ObjectParamMeta`, 262150 is `ObjectParamIo`, 262151 is `ObjectParamProfile`, 262152 is `ObjectParamPortConfig`, 262153 is `ObjectParamRoute`, 262154 is `ObjectProfiler`, 262155 is `ObjectParamLatency`, 262156 is `ObjectParamProcessLatency`, 262157 is `ObjectParamParamTag`, 33554432 is `VendorPipeWire`, 2130706432 is `VendorOther`.
pub proof fn law_type_labels_follow_raw_values(v: SpaType)
    ensures
        v.spec_to_raw() == 1 ==> spec_type_label(v) == "None"@,
        v.spec_to_raw() == 2 ==> spec_type_label(v) == "Bool"@,
        v.spec_to_raw() == 3 ==> spec_type_label(v) == "Id"@,
        v.spec_to_raw() == 4 ==> spec_type_label(v) == "Int"@,
        v.spec_to_raw() == 5 ==> spec_type_label(v) == "Long"@,
        v.spec_to_raw() == 6 ==> spec_type_label(v) == "Float"@,
        v.spec_to_raw() == 7 ==> spec_type_label(v) == "Double"@,
        v.spec_to_raw() == 8 ==> spec_type_label(v) == "String"@,
        v.spec_to_raw() == 9 ==> spec_type_label(v) == "Bytes"@,
        v.spec_to_raw() == 10 ==> spec_type_label(v) == "Rectangle"@,
        v.spec_to_raw() == 11 ==> spec_type_label(v) == "Fraction"@,
        v.spec_to_raw() == 12 ==> spec_type_label(v) == "Bitmap"@,
        v.spec_to_raw() == 13 ==> spec_type_label(v) == "Array"@,
        v.spec_to_raw() == 14 ==> spec_type_label(v) == "Struct"@,
        v.spec_to_raw() == 15 ==> spec_type_label(v) == "Object"@,
        v.spec_to_raw() == 16 ==> spec_type_label(v) == "Sequence"@,
        v.spec_to_raw() == 17 ==> spec_type_label(v) == "Pointer"@,
        v.spec_to_raw() == 18 ==> spec_type_label(v) == "Fd"@,
        v.spec_to_raw() == 19 ==> spec_type_label(v) == "Choice"@,
        v.spec_to_raw() == 20 ==> spec_type_label(v) == "Pod"@,
        v.spec_to_raw() == 65537 ==> spec_type_label(v) == "PointerBuffer"@,
        v.spec_to_raw() == 65538 ==> spec_type_label(v) == "PointerMeta"@,
        v.spec_to_raw() == 65539 ==> spec_type_label(v) == "PointerDict"@,
        v.spec_to_raw() == 131073 ==> spec_type_label(v) == "EventDevice"@,
        v.spec_to_raw() == 131074 ==> spec_type_label(v) == "EventNode"@,
        v.spec_to_raw() == 196609 ==> spec_type_label(v) == "CommandDevice"@,
        v.spec_to_raw() == 196610 ==> spec_type_label(v) == "CommandNode"@,
        v.spec_to_raw() == 262145 ==> spec_type_label(v) == "ObjectPropInfo"@,
        v.spec_to_raw() == 262146 ==> spec_type_label(v) == "ObjectProps"@,
        v.spec_to_raw() == 262147 ==> spec_type_label(v) == "ObjectFormat"@,
        v.spec_to_raw() == 262148 ==> spec_type_label(v) == "ObjectParamBuffers"@,
        v.spec_to_raw() == 262149 ==> spec_type_label(v) == "ObjectParamMeta"@,
        v.spec_to_raw() == 262150 ==> spec_type_label(v) == "ObjectParamIo"@,
        v.spec_to_raw() == 262151 ==> spec_type_label(v) == "ObjectParamProfile"@,
        v.spec_to_raw() == 262152 ==> spec_type_label(v) == "ObjectParamPortConfig"@,
        v.spec_to_raw() == 262153 ==> spec_type_label(v) == "ObjectParamRoute"@,
        v.spec_to_raw() == 262154 ==> spec_type_label(v) == "ObjectProfiler"@,
        v.spec_to_raw() == 262155 ==> spec_type_label(v) == "ObjectParamLatency"@,
        v.spec_to_raw() == 262156 ==> spec_type_label(v) == "ObjectParamProcessLatency"@,
        v.spec_to_raw() == 262157 ==> spec_type_label(v) == "ObjectParamParamTag"@,
        v.spec_to_raw() == 33554432 ==> spec_type_label(v) == "VendorPipeWire"@,
        v.spec_to_raw() == 2130706432 ==> spec_type_label(v) == "VendorOther"@,
{
}

/// Each choice type is shown by the name its raw value has in SPA: 0 is `None`, 1 is `Range`, 2 is `Step`, 3 is `Enum`, 4 is `Flags`.
pub proof fn law_choice_names_follow_raw_values(v: SpaChoiceType)
    ensures
        v.spec_to_raw() == 0 ==> spec_choice_name(v) == "None"@,
        v.spec_to_raw() == 1 ==> spec_choice_name(v) == "Range"@,
        v.spec_to_raw() == 2 ==> spec_choice_name(v) == "Step"@,
        v.spec_to_raw() == 3 ==> spec_choice_name(v) == "Enum"@,
        v.spec_to_raw() == 4 ==> spec_choice_name(v) == "Flags"@,
{
}

/// Each format key is shown by the name its raw value has in SPA: 0 is `Start`, 1 is `MediaType`, 2 is `MediaSubtype`, 65536 is `StartAudio`, 65537 is `AudioFormat`, 65538 is `AudioFlags`, 65539 is `AudioRate`, 65540 is `AudioChannels`, 65541 is `AudioPosition`, 65542 is `AudioIec958Codec`, 65543 is `AudioBitorder`, 65544 is `AudioInterleave`, 65545 is `AudioBitrate`, 65546 is `AudioBlockAlign`, 65547 is `AudioAacStreamFormat`, 65548 is `AudioWmaProfile`, 65549 is `AudioAmrBandMode`, 131072 is `StartVideo`, 131073 is `VideoFormat`, 131074 is `VideoModifier`, 131075 is `VideoSize`, 131076 is `VideoFramerate`, 131077 is `VideoMaxFramerate`, 131078 is `VideoViews`, 131079 is `VideoInterlaceMode`, 131080 is `VideoPixelAspectRatio`, 131081 is `VideoMultiviewMode`, 131082 is `VideoMultiviewFlags`, 131083 is `VideoChromaSite`, 131084 is `VideoColorRange`, 131085 is `VideoColorMatrix`, 131086 is `VideoTransferFunction`, 131087 is `VideoColorPrimaries`, 131088 is `VideoProfile`, 131089 is `VideoLevel`, 131090 is `VideoH264StreamFormat`, 131091 is `VideoH264Alignment`, 196608 is `StartImage`, 262144 is `StartBinary`, 327680 is `StartStream`, 393216 is `StartApplication`.
pub proof fn law_format_names_follow_raw_values(v: SpaFormat)
    ensures
        v.spec_to_raw() == 0 ==> spec_format_name(v) == "Start"@,
        v.spec_to_raw() == 1 ==> spec_format_name(v) == "MediaType"@,
        v.spec_to_raw() == 2 ==> spec_format_name(v) == "MediaSubtype"@,
        v.spec_to_raw() == 65536 ==> spec_format_name(v) == "StartAudio"@,
        v.spec_to_raw() == 65537 ==> spec_format_name(v) == "AudioFormat"@,
        v.spec_to_raw() == 65538 ==> spec_format_name(v) == "AudioFlags"@,
        v.spec_to_raw() == 65539 ==> spec_format_name(v) == "AudioRate"@,
        v.spec_to_raw() == 65540 ==> spec_format_name(v) == "AudioChannels"@,
        v.spec_to_raw() == 65541 ==> spec_format_name(v) == "AudioPosition"@,
        v.spec_to_raw() == 65542 ==> spec_format_name(v) == "AudioIec958Codec"@,
        v.spec_to_raw() == 65543 ==> spec_format_name(v) == "AudioBitorder"@,
        v.spec_to_raw() == 65544 ==> spec_format_name(v) == "AudioInterleave"@,
        v.spec_to_raw() == 65545 ==> spec_format_name(v) == "AudioBitrate"@,
        v.spec_to_raw() == 65546 ==> spec_format_name(v) == "AudioBlockAlign"@,
        v.spec_to_raw() == 65547 ==> spec_format_name(v) == "AudioAacStreamFormat"@,
        v.spec_to_raw() == 65548 ==> spec_format_name(v) == "AudioWmaProfile"@,
        v.spec_to_raw() == 65549 ==> spec_format_name(v) == "AudioAmrBandMode"@,
        v.spec_to_raw() == 131072 ==> spec_format_name(v) == "StartVideo"@,
        v.spec_to_raw() == 131073 ==> spec_format_name(v) == "VideoFormat"@,
        v.spec_to_raw() == 131074 ==> spec_format_name(v) == "VideoModifier"@,
        v.spec_to_raw() == 131075 ==> spec_format_name(v) == "VideoSize"@,
        v.spec_to_raw() == 131076 ==> spec_format_name(v) == "VideoFramerate"@,
        v.spec_to_raw() == 131077 ==> spec_format_name(v) == "VideoMaxFramerate"@,
        v.spec_to_raw() == 131078 ==> spec_format_name(v) == "VideoViews"@,
        v.spec_to_raw() == 131079 ==> spec_format_name(v) == "VideoInterlaceMode"@,
        v.spec_to_raw() == 131080 ==> spec_format_name(v) == "VideoPixelAspectRatio"@,
        v.spec_to_raw() == 131081 ==> spec_format_name(v) == "VideoMultiviewMode"@,
        v.spec_to_raw() == 131082 ==> spec_format_name(v) == "VideoMultiviewFlags"@,
        v.spec_to_raw() == 131083 ==> spec_format_name(v) == "VideoChromaSite"@,
        v.spec_to_raw() == 131084 ==> spec_format_name(v) == "VideoColorRange"@,
        v.spec_to_raw() == 131085 ==> spec_format_name(v) == "VideoColorMatrix"@,
        v.spec_to_raw() == 131086 ==> spec_format_name(v) == "VideoTransferFunction"@,
        v.spec_to_raw() == 131087 ==> spec_format_name(v) == "VideoColorPrimaries"@,
        v.spec_to_raw() == 131088 ==> spec_format_name(v) == "VideoProfile"@,
        v.spec_to_raw() == 131089 ==> spec_format_name(v) == "VideoLevel"@,
        v.spec_to_raw() == 131090 ==> spec_format_name(v) == "VideoH264StreamFormat"@,
        v.spec_to_raw() == 131091 ==> spec_format_name(v) == "VideoH264Alignment"@,
        v.spec_to_raw() == 196608 ==> spec_format_name(v) == "StartImage"@,
        v.spec_to_raw() == 262144 ==> spec_format_name(v) == "StartBinary"@,
        v.spec_to_raw() == 327680 ==> spec_format_name(v) == "StartStream"@,
        v.spec_to_raw() == 393216 ==> spec_format_name(v) == "StartApplication"@,
{
}


/// A line of a scalar, an object or an unknown type shows the name of its
/// type: a number as that name and its value in parentheses, a boolean as
/// `Bool(true)` or `Bool(false)`, an object as its type's name and an
/// opening brace, a choice as `Choice::`, the name of its kind and an
/// opening bracket.
pub proof fn law_item_text_names_its_type(item: DbgValue)
    ensures
        item matches DbgValue::Bool(b) ==> spec_item_text(item) == Some(
            spec_type_label(SpaType::Bool) + "("@ + (if b {
                "true"@
            } else {
                "false"@
            }) + ")"@,
        ),
        item matches DbgValue::Id(v) ==> spec_item_text(item) == Some(
            spec_type_label(SpaType::Id) + "("@ + spec_decimal(v as nat) + ")"@,
        ),
        item matches DbgValue::Int(v) ==> spec_item_text(item) == Some(
            spec_type_label(SpaType::Int) + "("@ + spec_signed(v as int) + ")"@,
        ),
        item matches DbgValue::Long(v) ==> spec_item_text(item) == Some(
            spec_type_label(SpaType::Long) + "("@ + spec_signed(v as int) + ")"@,
        ),
        item matches DbgValue::ObjectOpen(t) ==> spec_item_text(item) == Some(
            spec_type_label(t) + " {"@,
        ),
        item matches DbgValue::ChoiceOpen(k) ==> spec_item_text(item) == Some(
            spec_type_label(SpaType::Choice) + "::"@ + spec_choice_name(k) + " ["@,
        ),
        item matches DbgValue::Unknown(t) ==> spec_item_text(item) == Some(spec_type_label(t)),
{
    reveal_strlit("Bool");
    reveal_strlit("Bool(true)");
    reveal_strlit("Bool(false)");
    reveal_strlit("true");
    reveal_strlit("false");
    reveal_strlit("(");
    reveal_strlit(")");
    reveal_strlit("Id");
    reveal_strlit("Id(");
    reveal_strlit("Int");
    reveal_strlit("Int(");
    reveal_strlit("Long");
    reveal_strlit("Long(");
    reveal_strlit("Choice");
    reveal_strlit("Choice::");
    reveal_strlit("::");
    match item {
        DbgValue::Bool(b) => {
            assert("Bool"@ + "("@ + "true"@ + ")"@ =~= "Bool(true)"@);
            assert("Bool"@ + "("@ + "false"@ + ")"@ =~= "Bool(false)"@);
        },
        DbgValue::Id(v) => {
            assert("Id"@ + "("@ =~= "Id("@);
        },
        DbgValue::Int(v) => {
            assert("Int"@ + "("@ =~= "Int("@);
        },
        DbgValue::Long(v) => {
            assert("Long"@ + "("@ =~= "Long("@);
        },
        DbgValue::ChoiceOpen(k) => {
            assert("Choice"@ + "::"@ =~= "Choice::"@);
        },
        _ => {},
    }
}

} // verus!
