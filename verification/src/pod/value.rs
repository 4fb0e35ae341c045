//! A value tree read from a pod. Floating-point numbers are kept as the bits
//! of their IEEE 754 encoding.

use vstd::prelude::*;
use crate::bytes::{spec_le32, spec_le64};
use crate::pod_v2::Id;
use crate::pod_v2::deserialize::{
    spec_array_view, spec_choice_view, spec_cstr, spec_head_view, spec_item_pod, spec_item_rest,
    ArrayView, ChoiceView, PodArrayDeserializer, PodChoiceDeserializer, PodDeserializer,
    PodObjectDeserializer, PodStructDeserializer, PodView, PobObjectPropertyDeserializer,
};
use crate::pod_v2::format::{
    spec_pod_fits, spec_pod_rest, TYPE_ARRAY, TYPE_BOOL, TYPE_BYTES, TYPE_CHOICE, TYPE_DOUBLE,
    TYPE_FD, TYPE_FLOAT, TYPE_FRACTION, TYPE_ID, TYPE_INT, TYPE_LONG, TYPE_NONE, TYPE_OBJECT,
    TYPE_POINTER, TYPE_RECTANGLE, TYPE_STRING, TYPE_STRUCT,
};
use crate::pod_v2::kind::PodDeserializerKind;
use crate::protocol::codec::{bstr_to_string, spec_bstr_to_string};
use crate::spa_enum::SpaRawEnum;
use crate::spa_types::{SpaChoiceType, SpaFraction, SpaPointerType, SpaRectangle, SpaType};

verus! {

/// A file descriptor: its index among the descriptors sent with the message,
/// and the descriptor itself once it is known.
#[derive(Debug, Clone, Copy, PartialEq, Eq, Structural)]
pub struct Fd {
    pub id: i64,
    pub fd: Option<i32>,
}

impl Fd {
    /// The file descriptor with index `id`, not yet resolved.
    pub fn new(id: i64) -> (r: Self)
        ensures
            r == (Fd { id, fd: None }),
    {
        Fd { id, fd: None }
    }

    /// The descriptor, taken as the index itself.
    pub fn get(&self) -> (r: i32)
        ensures
            r == self.id as i32,
    {
        self.id as i32
    }
}

/// The bits of a `Float` value.
#[derive(Debug, Clone, Copy, PartialEq, Eq, Structural)]
pub struct FloatBits(pub u32);

/// The bits of a `Double` value.
#[derive(Debug, Clone, Copy, PartialEq, Eq, Structural)]
pub struct DoubleBits(pub u64);

/// A value of fixed size, as an array or a choice holds it.
pub trait PodElement: Sized {
    /// The raw pod type of the value.
    spec fn spec_pod_type() -> u32;

    /// The value a body of that type holds.
    spec fn spec_from_body(body: Seq<u8>) -> Self;

    fn read(pod: &PodDeserializer) -> (r: Self)
        requires
            pod.view().ty == Self::spec_pod_type(),
            pod.valid(),
        ensures
            r == Self::spec_from_body(pod.view().body),
    ;
}

impl PodElement for () {
    open spec fn spec_pod_type() -> u32 {
        TYPE_NONE
    }

    open spec fn spec_from_body(body: Seq<u8>) -> Self {
        ()
    }

    fn read(pod: &PodDeserializer) -> (r: Self) {
        ()
    }
}

impl PodElement for bool {
    open spec fn spec_pod_type() -> u32 {
        TYPE_BOOL
    }

    open spec fn spec_from_body(body: Seq<u8>) -> Self {
        spec_le32(body, 0) != 0
    }

    fn read(pod: &PodDeserializer) -> (r: Self) {
        pod.as_bool().unwrap()
    }
}

impl PodElement for Id {
    open spec fn spec_pod_type() -> u32 {
        TYPE_ID
    }

    open spec fn spec_from_body(body: Seq<u8>) -> Self {
        Id(spec_le32(body, 0))
    }

    fn read(pod: &PodDeserializer) -> (r: Self) {
        Id(pod.as_id().unwrap())
    }
}

impl PodElement for i32 {
    open spec fn spec_pod_type() -> u32 {
        TYPE_INT
    }

    open spec fn spec_from_body(body: Seq<u8>) -> Self {
        spec_le32(body, 0) as i32
    }

    fn read(pod: &PodDeserializer) -> (r: Self) {
        pod.as_i32().unwrap()
    }
}

impl PodElement for i64 {
    open spec fn spec_pod_type() -> u32 {
        TYPE_LONG
    }

    open spec fn spec_from_body(body: Seq<u8>) -> Self {
        spec_le64(body, 0) as i64
    }

    fn read(pod: &PodDeserializer) -> (r: Self) {
        pod.as_i64().unwrap()
    }
}

impl PodElement for FloatBits {
    open spec fn spec_pod_type() -> u32 {
        TYPE_FLOAT
    }

    open spec fn spec_from_body(body: Seq<u8>) -> Self {
        FloatBits(spec_le32(body, 0))
    }

    fn read(pod: &PodDeserializer) -> (r: Self) {
        FloatBits(pod.float_bits())
    }
}

impl PodElement for DoubleBits {
    open spec fn spec_pod_type() -> u32 {
        TYPE_DOUBLE
    }

    open spec fn spec_from_body(body: Seq<u8>) -> Self {
        DoubleBits(spec_le64(body, 0))
    }

    fn read(pod: &PodDeserializer) -> (r: Self) {
        DoubleBits(pod.double_bits())
    }
}

impl PodElement for SpaRectangle {
    open spec fn spec_pod_type() -> u32 {
        TYPE_RECTANGLE
    }

    open spec fn spec_from_body(body: Seq<u8>) -> Self {
        SpaRectangle { width: spec_le32(body, 0), height: spec_le32(body, 4) }
    }

    fn read(pod: &PodDeserializer) -> (r: Self) {
        pod.as_rectangle().unwrap()
    }
}

impl PodElement for SpaFraction {
    open spec fn spec_pod_type() -> u32 {
        TYPE_FRACTION
    }

    open spec fn spec_from_body(body: Seq<u8>) -> Self {
        SpaFraction { num: spec_le32(body, 0), denom: spec_le32(body, 4) }
    }

    fn read(pod: &PodDeserializer) -> (r: Self) {
        pod.as_fraction().unwrap()
    }
}

impl PodElement for Fd {
    open spec fn spec_pod_type() -> u32 {
        TYPE_FD
    }

    open spec fn spec_from_body(body: Seq<u8>) -> Self {
        Fd { id: spec_le64(body, 0) as i64, fd: None }
    }

    fn read(pod: &PodDeserializer) -> (r: Self) {
        Fd::new(pod.as_fd().unwrap())
    }
}

/// The values of the children, of `size` bytes each, that `body` holds.
pub open spec fn spec_elements<T: PodElement>(size: u32, body: Seq<u8>) -> Seq<T>
    decreases body.len(),
{
    if body.len() == 0 || size == 0 || size > body.len() {
        Seq::empty()
    } else {
        seq![T::spec_from_body(body.subrange(0, size as int))] + spec_elements::<T>(
            size,
            body.subrange(size as int, body.len() as int),
        )
    }
}

/// Children can be taken one after another until none is left: they are not
/// empty, or there are none.
pub open spec fn spec_chunks_end(size: u32, body: Seq<u8>) -> bool {
    size > 0 || body.len() == 0
}

/// Read every child of an array, of the type `T` reads.
fn array_elements<T: PodElement>(array: &mut PodArrayDeserializer) -> (r: Vec<T>)
    requires
        old(array).view().child_ty == T::spec_pod_type(),
        spec_chunks_end(old(array).view().child_size, old(array).view().body),
    ensures
        r@ == spec_elements::<T>(old(array).view().child_size, old(array).view().body),
{
    let ghost size = array.view().child_size;
    let ghost orig = array.view().body;
    let mut out: Vec<T> = Vec::new();
    loop
        invariant
            array.view().child_size == size,
            array.view().child_ty == T::spec_pod_type(),
            spec_chunks_end(size, array.view().body),
            array.view().body.len() <= orig.len(),
            spec_elements::<T>(size, orig) == out@ + spec_elements::<T>(size, array.view().body),
        ensures
            out@ == spec_elements::<T>(size, orig),
        decreases array.view().body.len(),
    {
        let ghost before = array.view().body;
        match array.pop_element() {
            Ok(pod) => {
                let x = T::read(&pod);
                out.push(x);
                proof {
                    assert(before.len() > 0);
                    assert(size > 0);
                    assert(size <= before.len());
                    assert(spec_elements::<T>(size, before) == seq![x] + spec_elements::<T>(size, array.view().body));
                }
            },
            Err(_) => {
                proof {
                    assert(spec_elements::<T>(size, before) =~= Seq::<T>::empty());
                }
                break;
            },
        }
    }
    out
}

/// Read every alternative of a choice, of the type `T` reads.
fn choice_elements<T: PodElement>(choice: &mut PodChoiceDeserializer) -> (r: Vec<T>)
    requires
        old(choice).view().child_ty == T::spec_pod_type(),
        spec_chunks_end(old(choice).view().child_size, old(choice).view().body),
    ensures
        r@ == spec_elements::<T>(old(choice).view().child_size, old(choice).view().body),
        final(choice).view().choice_ty == old(choice).view().choice_ty,
{
    let ghost size = choice.view().child_size;
    let ghost orig = choice.view().body;
    let ghost kind = choice.view().choice_ty;
    let mut out: Vec<T> = Vec::new();
    loop
        invariant
            choice.view().child_size == size,
            choice.view().choice_ty == kind,
            choice.view().child_ty == T::spec_pod_type(),
            spec_chunks_end(size, choice.view().body),
            choice.view().body.len() <= orig.len(),
            spec_elements::<T>(size, orig) == out@ + spec_elements::<T>(size, choice.view().body),
        ensures
            out@ == spec_elements::<T>(size, orig),
            choice.view().choice_ty == kind,
        decreases choice.view().body.len(),
    {
        let ghost before = choice.view().body;
        match choice.pop_element() {
            Ok(pod) => {
                let x = T::read(&pod);
                out.push(x);
                proof {
                    assert(spec_elements::<T>(size, before) == seq![x] + spec_elements::<T>(
                        size,
                        choice.view().body,
                    ));
                }
            },
            Err(_) => {
                proof {
                    assert(spec_elements::<T>(size, before) =~= Seq::<T>::empty());
                }
                break;
            },
        }
    }
    out
}

/// An array of values of one type.
#[derive(Debug, Clone, PartialEq)]
pub enum ValueArray {
    NoneType(Vec<()>),
    Bool(Vec<bool>),
    Id(Vec<Id>),
    Int(Vec<i32>),
    Long(Vec<i64>),
    Float(Vec<FloatBits>),
    Double(Vec<DoubleBits>),
    Rectangle(Vec<SpaRectangle>),
    Fraction(Vec<SpaFraction>),
    Fd(Vec<Fd>),
}

/// What an array of values holds.
pub ghost enum ValueArrayView {
    NoneType(Seq<()>),
    Bool(Seq<bool>),
    Id(Seq<Id>),
    Int(Seq<i32>),
    Long(Seq<i64>),
    Float(Seq<FloatBits>),
    Double(Seq<DoubleBits>),
    Rectangle(Seq<SpaRectangle>),
    Fraction(Seq<SpaFraction>),
    Fd(Seq<Fd>),
}

impl ValueArray {
    pub open spec fn view(self) -> ValueArrayView {
        match self {
            ValueArray::NoneType(v) => ValueArrayView::NoneType(v@),
            ValueArray::Bool(v) => ValueArrayView::Bool(v@),
            ValueArray::Id(v) => ValueArrayView::Id(v@),
            ValueArray::Int(v) => ValueArrayView::Int(v@),
            ValueArray::Long(v) => ValueArrayView::Long(v@),
            ValueArray::Float(v) => ValueArrayView::Float(v@),
            ValueArray::Double(v) => ValueArrayView::Double(v@),
            ValueArray::Rectangle(v) => ValueArrayView::Rectangle(v@),
            ValueArray::Fraction(v) => ValueArrayView::Fraction(v@),
            ValueArray::Fd(v) => ValueArrayView::Fd(v@),
        }
    }
}

/// The array of values an array reader holds, if it can be read: its
/// children are of a fixed-size type, and not empty unless there are none.
pub open spec fn spec_value_array(a: ArrayView) -> Option<ValueArrayView> {
    if !spec_chunks_end(a.child_size, a.body) {
        None
    } else if a.child_ty == TYPE_NONE {
        Some(ValueArrayView::NoneType(spec_elements::<()>(a.child_size, a.body)))
    } else if a.child_ty == TYPE_BOOL {
        Some(ValueArrayView::Bool(spec_elements::<bool>(a.child_size, a.body)))
    } else if a.child_ty == TYPE_ID {
        Some(ValueArrayView::Id(spec_elements::<Id>(a.child_size, a.body)))
    } else if a.child_ty == TYPE_INT {
        Some(ValueArrayView::Int(spec_elements::<i32>(a.child_size, a.body)))
    } else if a.child_ty == TYPE_LONG {
        Some(ValueArrayView::Long(spec_elements::<i64>(a.child_size, a.body)))
    } else if a.child_ty == TYPE_FLOAT {
        Some(ValueArrayView::Float(spec_elements::<FloatBits>(a.child_size, a.body)))
    } else if a.child_ty == TYPE_DOUBLE {
        Some(ValueArrayView::Double(spec_elements::<DoubleBits>(a.child_size, a.body)))
    } else if a.child_ty == TYPE_RECTANGLE {
        Some(ValueArrayView::Rectangle(spec_elements::<SpaRectangle>(a.child_size, a.body)))
    } else if a.child_ty == TYPE_FRACTION {
        Some(ValueArrayView::Fraction(spec_elements::<SpaFraction>(a.child_size, a.body)))
    } else if a.child_ty == TYPE_FD {
        Some(ValueArrayView::Fd(spec_elements::<Fd>(a.child_size, a.body)))
    } else {
        None
    }
}

impl ValueArray {
    /// Read the array of values an array reader holds.
    pub fn deserialize_v2(deserializer: &mut PodArrayDeserializer) -> (r: Self)
        requires
            spec_value_array(old(deserializer).view()) is Some,
        ensures
            Some(r.view()) == spec_value_array(old(deserializer).view()),
    {
        let ghost v = deserializer.view();
        let raw = deserializer.child_ty().as_raw();
        proof {
            <SpaType as SpaRawEnum>::lemma_raw_inverse(v.child_ty);
        }
        if raw == TYPE_NONE {
            ValueArray::NoneType(array_elements::<()>(deserializer))
        } else if raw == TYPE_BOOL {
            ValueArray::Bool(array_elements::<bool>(deserializer))
        } else if raw == TYPE_ID {
            ValueArray::Id(array_elements::<Id>(deserializer))
        } else if raw == TYPE_INT {
            ValueArray::Int(array_elements::<i32>(deserializer))
        } else if raw == TYPE_LONG {
            ValueArray::Long(array_elements::<i64>(deserializer))
        } else if raw == TYPE_FLOAT {
            ValueArray::Float(array_elements::<FloatBits>(deserializer))
        } else if raw == TYPE_DOUBLE {
            ValueArray::Double(array_elements::<DoubleBits>(deserializer))
        } else if raw == TYPE_RECTANGLE {
            ValueArray::Rectangle(array_elements::<SpaRectangle>(deserializer))
        } else if raw == TYPE_FRACTION {
            ValueArray::Fraction(array_elements::<SpaFraction>(deserializer))
        } else {
            ValueArray::Fd(array_elements::<Fd>(deserializer))
        }
    }
}

/// The flags of a choice; none is defined.
#[derive(Debug, Clone, Copy, PartialEq, Eq, Structural)]
pub struct ChoiceFlags {
    bits: u32,
}

impl ChoiceFlags {
    /// The raw bits.
    pub closed spec fn spec_bits(self) -> u32 {
        self.bits
    }

    /// No flag.
    pub fn empty() -> (r: Self)
        ensures
            r.spec_bits() == 0,
    {
        ChoiceFlags { bits: 0 }
    }

    /// The raw bits.
    pub fn bits(&self) -> (r: u32)
        ensures
            r == self.spec_bits(),
    {
        self.bits
    }
}

/// The alternatives of a choice, by kind of choice.
#[derive(Debug, Clone, PartialEq)]
pub enum ChoiceEnum<T> {
    NoneChoice(T),
    Range { default: T, min: T, max: T },
    Step { default: T, min: T, max: T, step: T },
    Enum { default: T, alternatives: Vec<T> },
    Flags { default: T, flags: Vec<T> },
}

/// What the alternatives of a choice are.
pub ghost enum ChoiceEnumView<T> {
    NoneChoice(T),
    Range(T, T, T),
    Step(T, T, T, T),
    Enum(T, Seq<T>),
    Flags(T, Seq<T>),
}

impl<T> ChoiceEnum<T> {
    pub open spec fn view(self) -> ChoiceEnumView<T> {
        match self {
            ChoiceEnum::NoneChoice(v) => ChoiceEnumView::NoneChoice(v),
            ChoiceEnum::Range { default, min, max } => ChoiceEnumView::Range(default, min, max),
            ChoiceEnum::Step { default, min, max, step } => ChoiceEnumView::Step(
                default,
                min,
                max,
                step,
            ),
            ChoiceEnum::Enum { default, alternatives } => ChoiceEnumView::Enum(
                default,
                alternatives@,
            ),
            ChoiceEnum::Flags { default, flags } => ChoiceEnumView::Flags(default, flags@),
        }
    }
}

/// A choice: its flags and its alternatives.
#[derive(Debug, Clone, PartialEq)]
pub struct Choice<T>(pub ChoiceFlags, pub ChoiceEnum<T>);

/// The alternatives of a choice of kind `kind` whose values are `e`, if there
/// are enough of them: a range has a default, a minimum and a maximum; a step
/// also has a step; the other kinds have at least a default.
pub open spec fn spec_choice_enum<T>(kind: SpaChoiceType, e: Seq<T>) -> Option<ChoiceEnumView<T>> {
    match kind {
        SpaChoiceType::NoneChoice => if e.len() >= 1 {
            Some(ChoiceEnumView::NoneChoice(e[0]))
        } else {
            None
        },
        SpaChoiceType::Range => if e.len() >= 3 {
            Some(ChoiceEnumView::Range(e[0], e[1], e[2]))
        } else {
            None
        },
        SpaChoiceType::Step => if e.len() >= 4 {
            Some(ChoiceEnumView::Step(e[0], e[1], e[2], e[3]))
        } else {
            None
        },
        SpaChoiceType::Enum => if e.len() >= 1 {
            Some(ChoiceEnumView::Enum(e[0], e.subrange(1, e.len() as int)))
        } else {
            None
        },
        SpaChoiceType::Flags => if e.len() >= 1 {
            Some(ChoiceEnumView::Flags(e[0], e.subrange(1, e.len() as int)))
        } else {
            None
        },
    }
}

/// A choice arranged from its alternatives `e` keeps them in their wire
/// order: the default comes first; a range then has its minimum and maximum;
/// a step its minimum, maximum and step; an enumeration or flags choice the
/// rest of the alternatives. The kind of choice decides the variant.
pub proof fn law_choice_alternatives_in_order<T>(kind: SpaChoiceType, e: Seq<T>, c: ChoiceEnum<T>)
    requires
        spec_choice_enum(kind, e) == Some(c.view()),
    ensures
        c matches ChoiceEnum::NoneChoice(d) ==> kind == SpaChoiceType::NoneChoice && d == e[0],
        c matches ChoiceEnum::Range { default, min, max } ==> kind == SpaChoiceType::Range
            && e.len() >= 3 && default == e[0] && min == e[1] && max == e[2],
        c matches ChoiceEnum::Step { default, min, max, step } ==> kind == SpaChoiceType::Step
            && e.len() >= 4 && default == e[0] && min == e[1] && max == e[2] && step == e[3],
        c matches ChoiceEnum::Enum { default, alternatives } ==> kind == SpaChoiceType::Enum
            && default == e[0] && alternatives@ == e.subrange(1, e.len() as int),
        c matches ChoiceEnum::Flags { default, flags } ==> kind == SpaChoiceType::Flags && default
            == e[0] && flags@ == e.subrange(1, e.len() as int),
{
}

/// The values of `e` after the first.
fn tail<T: Copy>(e: &Vec<T>) -> (r: Vec<T>)
    requires
        e@.len() >= 1,
    ensures
        r@ == e@.subrange(1, e@.len() as int),
{
    let mut out: Vec<T> = Vec::new();
    let n = e.len();
    let mut i: usize = 1;
    while i < n
        invariant
            n == e@.len(),
            1 <= i <= n,
            out@ == e@.subrange(1, i as int),
        decreases n - i,
    {
        out.push(e[i]);
        proof {
            assert(e@.subrange(1, i + 1) =~= e@.subrange(1, i as int).push(e@[i as int]));
        }
        i = i + 1;
    }
    out
}

/// Arrange the values `e` of a choice of kind `kind`.
fn choice_of<T: Copy>(e: Vec<T>, kind: SpaChoiceType) -> (r: Choice<T>)
    requires
        spec_choice_enum(kind, e@) is Some,
    ensures
        r.0.spec_bits() == 0,
        Some(r.1.view()) == spec_choice_enum(kind, e@),
{
    let choice = match kind {
        SpaChoiceType::NoneChoice => ChoiceEnum::NoneChoice(e[0]),
        SpaChoiceType::Range => ChoiceEnum::Range { default: e[0], min: e[1], max: e[2] },
        SpaChoiceType::Step => ChoiceEnum::Step { default: e[0], min: e[1], max: e[2], step: e[3] },
        SpaChoiceType::Enum => ChoiceEnum::Enum { default: e[0], alternatives: tail(&e) },
        SpaChoiceType::Flags => ChoiceEnum::Flags { default: e[0], flags: tail(&e) },
    };
    Choice(ChoiceFlags::empty(), choice)
}

/// A choice of values of one type.
#[derive(Debug, Clone, PartialEq)]
pub enum ChoiceValue {
    Bool(Choice<bool>),
    Int(Choice<i32>),
    Long(Choice<i64>),
    Float(Choice<FloatBits>),
    Double(Choice<DoubleBits>),
    Id(Choice<Id>),
    Rectangle(Choice<SpaRectangle>),
    Fraction(Choice<SpaFraction>),
    Fd(Choice<Fd>),
}

/// What a choice of values is: its flags and its alternatives.
pub ghost enum ChoiceValueView {
    Bool(u32, ChoiceEnumView<bool>),
    Int(u32, ChoiceEnumView<i32>),
    Long(u32, ChoiceEnumView<i64>),
    Float(u32, ChoiceEnumView<FloatBits>),
    Double(u32, ChoiceEnumView<DoubleBits>),
    Id(u32, ChoiceEnumView<Id>),
    Rectangle(u32, ChoiceEnumView<SpaRectangle>),
    Fraction(u32, ChoiceEnumView<SpaFraction>),
    Fd(u32, ChoiceEnumView<Fd>),
}

impl ChoiceValue {
    pub open spec fn view(self) -> ChoiceValueView {
        match self {
            ChoiceValue::Bool(c) => ChoiceValueView::Bool(c.0.spec_bits(), c.1.view()),
            ChoiceValue::Int(c) => ChoiceValueView::Int(c.0.spec_bits(), c.1.view()),
            ChoiceValue::Long(c) => ChoiceValueView::Long(c.0.spec_bits(), c.1.view()),
            ChoiceValue::Float(c) => ChoiceValueView::Float(c.0.spec_bits(), c.1.view()),
            ChoiceValue::Double(c) => ChoiceValueView::Double(c.0.spec_bits(), c.1.view()),
            ChoiceValue::Id(c) => ChoiceValueView::Id(c.0.spec_bits(), c.1.view()),
            ChoiceValue::Rectangle(c) => ChoiceValueView::Rectangle(c.0.spec_bits(), c.1.view()),
            ChoiceValue::Fraction(c) => ChoiceValueView::Fraction(c.0.spec_bits(), c.1.view()),
            ChoiceValue::Fd(c) => ChoiceValueView::Fd(c.0.spec_bits(), c.1.view()),
        }
    }
}

/// The choice of values a choice reader holds, if it can be read: its kind
/// is known, its alternatives are of a fixed-size type other than `None`, not
/// empty unless there are none, and there are enough of them for the kind.
/// The flags read are always empty.
pub open spec fn spec_choice_value(c: ChoiceView) -> Option<ChoiceValueView> {
    match SpaChoiceType::spec_from_raw(c.choice_ty) {
        None => None,
        Some(kind) => if !spec_chunks_end(c.child_size, c.body) {
            None
        } else if c.child_ty == TYPE_BOOL {
            match spec_choice_enum(kind, spec_elements::<bool>(c.child_size, c.body)) {
                Some(e) => Some(ChoiceValueView::Bool(0, e)),
                None => None,
            }
        } else if c.child_ty == TYPE_INT {
            match spec_choice_enum(kind, spec_elements::<i32>(c.child_size, c.body)) {
                Some(e) => Some(ChoiceValueView::Int(0, e)),
                None => None,
            }
        } else if c.child_ty == TYPE_LONG {
            match spec_choice_enum(kind, spec_elements::<i64>(c.child_size, c.body)) {
                Some(e) => Some(ChoiceValueView::Long(0, e)),
                None => None,
            }
        } else if c.child_ty == TYPE_FLOAT {
            match spec_choice_enum(kind, spec_elements::<FloatBits>(c.child_size, c.body)) {
                Some(e) => Some(ChoiceValueView::Float(0, e)),
                None => None,
            }
        } else if c.child_ty == TYPE_DOUBLE {
            match spec_choice_enum(kind, spec_elements::<DoubleBits>(c.child_size, c.body)) {
                Some(e) => Some(ChoiceValueView::Double(0, e)),
                None => None,
            }
        } else if c.child_ty == TYPE_ID {
            match spec_choice_enum(kind, spec_elements::<Id>(c.child_size, c.body)) {
                Some(e) => Some(ChoiceValueView::Id(0, e)),
                None => None,
            }
        } else if c.child_ty == TYPE_RECTANGLE {
            match spec_choice_enum(kind, spec_elements::<SpaRectangle>(c.child_size, c.body)) {
                Some(e) => Some(ChoiceValueView::Rectangle(0, e)),
                None => None,
            }
        } else if c.child_ty == TYPE_FRACTION {
            match spec_choice_enum(kind, spec_elements::<SpaFraction>(c.child_size, c.body)) {
                Some(e) => Some(ChoiceValueView::Fraction(0, e)),
                None => None,
            }
        } else if c.child_ty == TYPE_FD {
            match spec_choice_enum(kind, spec_elements::<Fd>(c.child_size, c.body)) {
                Some(e) => Some(ChoiceValueView::Fd(0, e)),
                None => None,
            }
        } else {
            None
        },
    }
}

impl ChoiceValue {
    /// Read the choice of values a choice reader holds.
    pub fn deserialize_v2(deserializer: &mut PodChoiceDeserializer) -> (r: Self)
        requires
            spec_choice_value(old(deserializer).view()) is Some,
        ensures
            Some(r.view()) == spec_choice_value(old(deserializer).view()),
    {
        let ghost v = deserializer.view();
        let raw = deserializer.child_ty().as_raw();
        let kind = deserializer.choice_ty().unwrap();
        proof {
            <SpaType as SpaRawEnum>::lemma_raw_inverse(v.child_ty);
        }
        if raw == TYPE_BOOL {
            ChoiceValue::Bool(choice_of(choice_elements::<bool>(deserializer), kind))
        } else if raw == TYPE_INT {
            ChoiceValue::Int(choice_of(choice_elements::<i32>(deserializer), kind))
        } else if raw == TYPE_LONG {
            ChoiceValue::Long(choice_of(choice_elements::<i64>(deserializer), kind))
        } else if raw == TYPE_FLOAT {
            ChoiceValue::Float(choice_of(choice_elements::<FloatBits>(deserializer), kind))
        } else if raw == TYPE_DOUBLE {
            ChoiceValue::Double(choice_of(choice_elements::<DoubleBits>(deserializer), kind))
        } else if raw == TYPE_ID {
            ChoiceValue::Id(choice_of(choice_elements::<Id>(deserializer), kind))
        } else if raw == TYPE_RECTANGLE {
            ChoiceValue::Rectangle(choice_of(choice_elements::<SpaRectangle>(deserializer), kind))
        } else if raw == TYPE_FRACTION {
            ChoiceValue::Fraction(choice_of(choice_elements::<SpaFraction>(deserializer), kind))
        } else {
            ChoiceValue::Fd(choice_of(choice_elements::<Fd>(deserializer), kind))
        }
    }
}

/// The flags of an object property. The flag constants are raw bits.
#[derive(Debug, Clone, Copy, PartialEq, Eq, Structural)]
pub struct PropertyFlags {
    bits: u32,
}

impl PropertyFlags {
    /// The property is read-only.
    pub const READONLY: u32 = 1;

    /// The property is some sort of hardware parameter.
    pub const HARDWARE: u32 = 2;

    /// The property contains a dictionary struct.
    pub const HINT_DICT: u32 = 4;

    /// The property is mandatory.
    pub const MANDATORY: u32 = 8;

    /// The raw bits.
    pub closed spec fn spec_bits(self) -> u32 {
        self.bits
    }

    /// The raw bits.
    pub fn bits(&self) -> (r: u32)
        ensures
            r == self.spec_bits(),
    {
        self.bits
    }

    /// The flags with exactly the given bits, known or not.
    pub fn from_bits_retain(bits: u32) -> (r: Self)
        ensures
            r.spec_bits() == bits,
    {
        PropertyFlags { bits }
    }

    /// No flag.
    pub fn empty() -> (r: Self)
        ensures
            r.spec_bits() == 0,
    {
        PropertyFlags { bits: 0 }
    }
}

/// A value read from a pod.
#[derive(Debug, PartialEq)]
pub enum Value {
    NoneType,
    Bool(bool),
    Id(Id),
    Int(i32),
    Long(i64),
    Float(FloatBits),
    Double(DoubleBits),
    String(String),
    Bytes(Vec<u8>),
    Rectangle(SpaRectangle),
    Fraction(SpaFraction),
    Fd(Fd),
    ValueArray(ValueArray),
    Struct(Vec<Value>),
    Object(Object),
    Choice(ChoiceValue),
    Pointer(SpaPointerType, u64),
}

/// An object: its type, its id and its properties.
#[derive(Debug, PartialEq)]
pub struct Object {
    pub type_: SpaType,
    pub id: u32,
    pub properties: Vec<Property>,
}

/// A property of an object: its key, its flags and its value.
#[derive(Debug, PartialEq)]
pub struct Property {
    pub key: u32,
    pub flags: PropertyFlags,
    pub value: Value,
}

/// What a value is.
pub ghost enum ValueView {
    NoneType,
    Bool(bool),
    Id(u32),
    Int(i32),
    Long(i64),
    Float(u32),
    Double(u64),
    String(Seq<char>),
    Bytes(Seq<u8>),
    Rectangle(SpaRectangle),
    Fraction(SpaFraction),
    Fd(Fd),
    Array(ValueArrayView),
    Struct(Seq<ValueView>),
    Object(ObjectValueView),
    Choice(ChoiceValueView),
    Pointer(SpaPointerType, u64),
}

/// What an object is: its type, its id and its properties.
pub ghost struct ObjectValueView {
    pub ty: SpaType,
    pub id: u32,
    pub properties: Seq<PropertyView>,
}

/// What a property is: its key, its raw flags and its value.
pub ghost struct PropertyView {
    pub key: u32,
    pub flags: u32,
    pub value: ValueView,
}

impl Value {
    pub open spec fn view(self) -> ValueView
        decreases self,
    {
        match self {
            Value::NoneType => ValueView::NoneType,
            Value::Bool(b) => ValueView::Bool(b),
            Value::Id(x) => ValueView::Id(x.0),
            Value::Int(x) => ValueView::Int(x),
            Value::Long(x) => ValueView::Long(x),
            Value::Float(x) => ValueView::Float(x.0),
            Value::Double(x) => ValueView::Double(x.0),
            Value::String(s) => ValueView::String(s@),
            Value::Bytes(b) => ValueView::Bytes(b@),
            Value::Rectangle(r) => ValueView::Rectangle(r),
            Value::Fraction(f) => ValueView::Fraction(f),
            Value::Fd(f) => ValueView::Fd(f),
            Value::ValueArray(a) => ValueView::Array(a.view()),
            Value::Struct(vs) => ValueView::Struct(spec_values_view(vs@)),
            Value::Object(o) => ValueView::Object(
                ObjectValueView { ty: o.type_, id: o.id, properties: spec_props_view(o.properties@) },
            ),
            Value::Choice(c) => ValueView::Choice(c.view()),
            Value::Pointer(t, a) => ValueView::Pointer(t, a),
        }
    }
}

/// What the values of `s` are.
pub open spec fn spec_values_view(s: Seq<Value>) -> Seq<ValueView>
    decreases s,
{
    if s.len() == 0 {
        Seq::empty()
    } else {
        spec_values_view(s.drop_last()).push(s.last().view())
    }
}

/// What the properties of `s` are.
pub open spec fn spec_props_view(s: Seq<Property>) -> Seq<PropertyView>
    decreases s,
{
    if s.len() == 0 {
        Seq::empty()
    } else {
        spec_props_view(s.drop_last()).push(
            PropertyView { key: s.last().key, flags: s.last().flags.spec_bits(), value: s.last().value.view() },
        )
    }
}

/// The value a pod holds, if it can be read: every nested pod is of a type a
/// value can hold (not a bitmap, a sequence or an unknown type), pointers
/// and objects are of known types, and arrays and choices can be read.
pub open spec fn spec_value(v: PodView) -> Option<ValueView>
    decreases v.body.len(), 1nat,
{
    let b = v.body;
    if v.ty == TYPE_NONE {
        Some(ValueView::NoneType)
    } else if v.ty == TYPE_BOOL {
        Some(ValueView::Bool(spec_le32(b, 0) != 0))
    } else if v.ty == TYPE_ID {
        Some(ValueView::Id(spec_le32(b, 0)))
    } else if v.ty == TYPE_INT {
        Some(ValueView::Int(spec_le32(b, 0) as i32))
    } else if v.ty == TYPE_LONG {
        Some(ValueView::Long(spec_le64(b, 0) as i64))
    } else if v.ty == TYPE_FLOAT {
        Some(ValueView::Float(spec_le32(b, 0)))
    } else if v.ty == TYPE_DOUBLE {
        Some(ValueView::Double(spec_le64(b, 0)))
    } else if v.ty == TYPE_STRING {
        Some(ValueView::String(spec_bstr_to_string(spec_cstr(b))))
    } else if v.ty == TYPE_BYTES {
        Some(ValueView::Bytes(b))
    } else if v.ty == TYPE_RECTANGLE {
        Some(ValueView::Rectangle(SpaRectangle { width: spec_le32(b, 0), height: spec_le32(b, 4) }))
    } else if v.ty == TYPE_FRACTION {
        Some(ValueView::Fraction(SpaFraction { num: spec_le32(b, 0), denom: spec_le32(b, 4) }))
    } else if v.ty == TYPE_FD {
        Some(ValueView::Fd(Fd { id: spec_le64(b, 0) as i64, fd: None }))
    } else if v.ty == TYPE_ARRAY {
        match spec_value_array(spec_array_view(b)) {
            Some(a) => Some(ValueView::Array(a)),
            None => None,
        }
    } else if v.ty == TYPE_CHOICE {
        match spec_choice_value(spec_choice_view(b)) {
            Some(c) => Some(ValueView::Choice(c)),
            None => None,
        }
    } else if v.ty == TYPE_POINTER {
        match SpaPointerType::spec_from_raw(spec_le32(b, 0)) {
            Some(t) => Some(ValueView::Pointer(t, spec_le64(b, 8))),
            None => None,
        }
    } else if v.ty == TYPE_STRUCT {
        match spec_struct_values(b) {
            Some(vs) => Some(ValueView::Struct(vs)),
            None => None,
        }
    } else if v.ty == TYPE_OBJECT {
        if b.len() < 8 {
            None
        } else {
            match SpaType::spec_from_raw(spec_le32(b, 0)) {
                Some(t) => match spec_props_values(b.subrange(8, b.len() as int)) {
                    Some(ps) => Some(
                        ValueView::Object(ObjectValueView { ty: t, id: spec_le32(b, 4), properties: ps }),
                    ),
                    None => None,
                },
                None => None,
            }
        }
    } else {
        None
    }
}

/// The values of the fields a struct body `s` holds, if they can be read.
pub open spec fn spec_struct_values(s: Seq<u8>) -> Option<Seq<ValueView>>
    decreases s.len(), 0nat,
{
    if s.len() == 0 {
        Some(Seq::empty())
    } else if !spec_pod_fits(s) {
        None
    } else {
        match spec_value(spec_head_view(s)) {
            Some(x) => match spec_struct_values(spec_pod_rest(s)) {
                Some(xs) => Some(seq![x] + xs),
                None => None,
            },
            None => None,
        }
    }
}

/// The properties the items `s` of an object hold, if they can be read.
pub open spec fn spec_props_values(s: Seq<u8>) -> Option<Seq<PropertyView>>
    decreases s.len(), 0nat,
{
    if s.len() == 0 {
        Some(Seq::empty())
    } else if s.len() < 8 || !spec_pod_fits(spec_item_pod(s)) {
        None
    } else {
        match spec_value(spec_head_view(spec_item_pod(s))) {
            Some(x) => match spec_props_values(spec_item_rest(s)) {
                Some(xs) => Some(
                    seq![PropertyView { key: spec_le32(s, 0), flags: spec_le32(s, 4), value: x }]
                        + xs,
                ),
                None => None,
            },
            None => None,
        }
    }
}

/// The values of the remaining fields of a struct.
fn struct_values(fields: &mut PodStructDeserializer) -> (r: Vec<Value>)
    requires
        spec_struct_values(old(fields).view()) is Some,
    ensures
        Some(spec_values_view(r@)) == spec_struct_values(old(fields).view()),
    decreases old(fields).view().len(), 0nat,
{
    let ghost orig = fields.view();
    let mut out: Vec<Value> = Vec::new();
    assert(spec_values_view(out@) =~= Seq::<ValueView>::empty());
    loop
        invariant
            orig == old(fields).view(),
            fields.view().len() <= orig.len(),
            spec_struct_values(fields.view()) is Some,
            spec_struct_values(orig) == Some(
                spec_values_view(out@) + spec_struct_values(fields.view())->0,
            ),
        ensures
            spec_struct_values(orig) == Some(spec_values_view(out@)),
        decreases fields.view().len(),
    {
        let ghost before = fields.view();
        let ghost done = out@;
        match fields.pop_field() {
            Ok(mut field) => {
                assert(spec_pod_fits(before));
                assert(field.view().body.len() < before.len());
                let x = Value::deserialize_v2(&mut field);
                out.push(x);
                proof {
                    assert(out@.drop_last() =~= done);
                    let xs = spec_struct_values(fields.view())->0;
                    assert(spec_struct_values(before) == Some(seq![x.view()] + xs));
                    assert(spec_values_view(done) + (seq![x.view()] + xs) =~= spec_values_view(
                        out@,
                    ) + xs);
                }
            },
            Err(_) => {
                proof {
                    assert(spec_values_view(out@) + Seq::<ValueView>::empty() =~= spec_values_view(
                        out@,
                    ));
                }
                break;
            },
        }
    }
    out
}

impl Value {
    /// Read the value a pod holds.
    pub fn deserialize_v2(deserializer: &mut PodDeserializer) -> (r: Self)
        requires
            spec_value(old(deserializer).view()) is Some,
            old(deserializer).valid(),
        ensures
            Some(r.view()) == spec_value(old(deserializer).view()),
        decreases old(deserializer).view().body.len(), 1nat,
    {
        let ghost v = deserializer.view();
        match deserializer.kind() {
            PodDeserializerKind::NoneType => Value::NoneType,
            PodDeserializerKind::Bool(b) => Value::Bool(b),
            PodDeserializerKind::Id(x) => Value::Id(Id(x)),
            PodDeserializerKind::Int(x) => Value::Int(x),
            PodDeserializerKind::Long(x) => Value::Long(x),
            PodDeserializerKind::Float(x) => Value::Float(FloatBits(x)),
            PodDeserializerKind::Double(x) => Value::Double(DoubleBits(x)),
            PodDeserializerKind::String(s) => Value::String(bstr_to_string(s)),
            PodDeserializerKind::Bytes(b) => Value::Bytes(vstd::slice::slice_to_vec(b)),
            PodDeserializerKind::Rectangle(r) => Value::Rectangle(r),
            PodDeserializerKind::Fraction(f) => Value::Fraction(f),
            PodDeserializerKind::Fd(x) => Value::Fd(Fd::new(x)),
            PodDeserializerKind::Array(mut a) => Value::ValueArray(ValueArray::deserialize_v2(&mut a)),
            PodDeserializerKind::Choice(mut c) => Value::Choice(ChoiceValue::deserialize_v2(&mut c)),
            PodDeserializerKind::Pointer { ty } => {
                let raw = ty.as_raw();
                proof {
                    <SpaType as SpaRawEnum>::lemma_raw_inverse(spec_le32(v.body, 0));
                }
                let t = SpaPointerType::from_raw_value(raw).unwrap();
                Value::Pointer(t, deserializer.pointer_address())
            },
            PodDeserializerKind::Struct(mut fields) => Value::Struct(struct_values(&mut fields)),
            PodDeserializerKind::Object(mut o) => Value::Object(Object::deserialize_v2(&mut o)),
            PodDeserializerKind::Bitmap(_) => vstd::pervasive::unreached(),
            PodDeserializerKind::Sequence(_) => vstd::pervasive::unreached(),
            PodDeserializerKind::Unknown(_) => vstd::pervasive::unreached(),
        }
    }
}

impl Object {
    /// Read the object an object reader holds.
    pub fn deserialize_v2(deserializer: &mut PodObjectDeserializer) -> (r: Self)
        requires
            SpaType::spec_from_raw(old(deserializer).view().object_ty) is Some,
            spec_props_values(old(deserializer).view().body) is Some,
        ensures
            Some(r.type_) == SpaType::spec_from_raw(old(deserializer).view().object_ty),
            r.id == old(deserializer).view().object_id,
            Some(spec_props_view(r.properties@)) == spec_props_values(old(deserializer).view().body),
        decreases old(deserializer).view().body.len(), 0nat,
    {
        let ghost orig = deserializer.view().body;
        let type_ = deserializer.object_ty().unwrap();
        let id = deserializer.object_id();
        let mut out: Vec<Property> = Vec::new();
        assert(spec_props_view(out@) =~= Seq::<PropertyView>::empty());
        loop
            invariant
                orig == old(deserializer).view().body,
                deserializer.view().body.len() <= orig.len(),
                spec_props_values(deserializer.view().body) is Some,
                spec_props_values(orig) == Some(
                    spec_props_view(out@) + spec_props_values(deserializer.view().body)->0,
                ),
            ensures
                spec_props_values(orig) == Some(spec_props_view(out@)),
            decreases deserializer.view().body.len(),
        {
            let ghost before = deserializer.view().body;
            let ghost done = out@;
            match deserializer.pop_property() {
                Ok(mut prop) => {
                    assert(spec_pod_fits(spec_item_pod(before)));
                    assert(prop.value.view().body.len() < before.len());
                    let p = Property::deserialize_v2(&mut prop);
                    out.push(p);
                    proof {
                        assert(out@.drop_last() =~= done);
                        let xs = spec_props_values(deserializer.view().body)->0;
                        let pv = PropertyView {
                            key: p.key,
                            flags: p.flags.spec_bits(),
                            value: p.value.view(),
                        };
                        assert(spec_props_values(before) == Some(seq![pv] + xs));
                        assert(spec_props_view(done) + (seq![pv] + xs) =~= spec_props_view(out@)
                            + xs);
                    }
                },
                Err(_) => {
                    proof {
                        assert(spec_props_view(out@) + Seq::<PropertyView>::empty()
                            =~= spec_props_view(out@));
                    }
                    break;
                },
            }
        }
        Object { type_, id, properties: out }
    }
}

impl Property {
    /// Read a property of an object.
    pub fn deserialize_v2(deserializer: &mut PobObjectPropertyDeserializer) -> (r: Self)
        requires
            spec_value(old(deserializer).value.view()) is Some,
            old(deserializer).value.valid(),
        ensures
            r.key == old(deserializer).key,
            r.flags.spec_bits() == old(deserializer).flags,
            Some(r.value.view()) == spec_value(old(deserializer).value.view()),
        decreases old(deserializer).value.view().body.len(), 2nat,
    {
        let key = deserializer.key;
        let flags = PropertyFlags::from_bits_retain(deserializer.flags);
        let value = Value::deserialize_v2(&mut deserializer.value);
        Property { key, flags, value }
    }
}

/// The values of the fields of a struct.
#[derive(Debug)]
pub struct Struct(pub Vec<Value>);

impl Struct {
    /// Read the values of the fields of a struct pod; a pod of another type
    /// is an error.
    pub fn deserialize(deserializer: &PodDeserializer) -> (r: crate::pod_v2::deserialize::PodResult<
        Self,
    >)
        requires
            deserializer.view().ty == TYPE_STRUCT ==> spec_struct_values(deserializer.view().body)
                is Some,
            deserializer.readable_as(TYPE_STRUCT),
        ensures
            match r {
                Ok(x) => deserializer.view().ty == TYPE_STRUCT && Some(spec_values_view(x.0@))
                    == spec_struct_values(deserializer.view().body),
                Err(e) => deserializer.view().ty != TYPE_STRUCT && e
                    == crate::pod_v2::deserialize::spec_unexpected(
                    SpaType::Struct,
                    deserializer.view().ty,
                ),
            },
    {
        let mut fields = deserializer.as_struct()?;
        Ok(Struct(struct_values(&mut fields)))
    }
}


/// The values of a struct's fields are the values of the pods its reader
/// yields, one for each, in the same order.
pub proof fn law_struct_values_follow_fields(s: Seq<u8>)
    requires
        spec_struct_values(s) is Some,
    ensures
        spec_struct_values(s).unwrap().len() == crate::pod_v2::laws::spec_struct_fields(s).len(),
        forall|i: int|
            0 <= i < spec_struct_values(s).unwrap().len() ==> spec_value(
                #[trigger] crate::pod_v2::laws::spec_struct_fields(s)[i],
            ) == Some(spec_struct_values(s).unwrap()[i]),
    decreases s.len(),
{
    if s.len() > 0 {
        let r = spec_pod_rest(s);
        law_struct_values_follow_fields(r);
        let vs = spec_struct_values(s).unwrap();
        let fs = crate::pod_v2::laws::spec_struct_fields(s);
        assert(fs == seq![spec_head_view(s)] + crate::pod_v2::laws::spec_struct_fields(r));
        assert(vs == seq![spec_value(spec_head_view(s)).unwrap()] + spec_struct_values(r).unwrap());
        assert forall|i: int| 0 <= i < vs.len() implies spec_value(#[trigger] fs[i]) == Some(
            vs[i],
        ) by {
            if i > 0 {
                assert(fs[i] == crate::pod_v2::laws::spec_struct_fields(r)[i - 1]);
                assert(vs[i] == spec_struct_values(r).unwrap()[i - 1]);
            }
        }
    }
}

} // verus!
