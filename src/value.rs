//! The decoded value of an IFD entry.
use vstd::prelude::*;

verus! {

/// The value of an IFD entry.
///
/// Floating-point values are held as their IEEE 754 bit patterns. A `List` holds scalars only.
#[derive(Debug, PartialEq)]
pub enum Value {
    /// BYTE or UNDEFINED.
    Byte(u8),
    /// SHORT.
    Short(u16),
    /// SBYTE.
    SignedByte(i8),
    /// SSHORT.
    SignedShort(i16),
    /// SLONG.
    Signed(i32),
    /// SLONG8.
    SignedBig(i64),
    /// LONG.
    Unsigned(u32),
    /// LONG8.
    UnsignedBig(u64),
    /// FLOAT, as its bit pattern.
    Float(u32),
    /// DOUBLE, as its bit pattern.
    Double(u64),
    /// Several values of one type.
    List(Vec<Value>),
    /// RATIONAL: numerator and denominator.
    Rational(u32, u32),
    /// SRATIONAL: numerator and denominator.
    SRational(i32, i32),
    /// ASCII, up to its first NUL.
    Ascii(String),
    /// IFD offset.
    Ifd(u32),
    /// IFD8 offset.
    IfdBig(u64),
}

/// Copies a value that is not a list; a list becomes an empty list.
fn clone_scalar(v: &Value) -> (r: Value)
    ensures
        r.scalar_view() == v.scalar_view(),
        r@ == r.scalar_view(),
{
    let r = match v {
        Value::Byte(x) => Value::Byte(*x),
        Value::Short(x) => Value::Short(*x),
        Value::SignedByte(x) => Value::SignedByte(*x),
        Value::SignedShort(x) => Value::SignedShort(*x),
        Value::Signed(x) => Value::Signed(*x),
        Value::SignedBig(x) => Value::SignedBig(*x),
        Value::Unsigned(x) => Value::Unsigned(*x),
        Value::UnsignedBig(x) => Value::UnsignedBig(*x),
        Value::Float(x) => Value::Float(*x),
        Value::Double(x) => Value::Double(*x),
        Value::List(_) => Value::List(Vec::new()),
        Value::Rational(n, d) => Value::Rational(*n, *d),
        Value::SRational(n, d) => Value::SRational(*n, *d),
        Value::Ascii(s) => Value::Ascii(s.clone()),
        Value::Ifd(x) => Value::Ifd(*x),
        Value::IfdBig(x) => Value::IfdBig(*x),
    };
    proof {
        if r is List {
            assert(r->List_0@.map_values(|x: Value| x.scalar_view()) =~= Seq::<ValueView>::empty());
        }
    }
    r
}

impl Clone for Value {
    /// Copies the value: a list element by element.
    fn clone(&self) -> (r: Value)
        ensures
            r@ == self@,
    {
        match self {
            Value::List(items) => {
                let mut out: Vec<Value> = Vec::new();
                let mut i: usize = 0;
                while i < items.len()
                    invariant
                        i <= items@.len(),
                        out@.len() == i,
                        forall|j: int| 0 <= j < i ==> (#[trigger] out@[j]).scalar_view() == items@[j].scalar_view(),
                    decreases items@.len() - i,
                {
                    out.push(clone_scalar(&items[i]));
                    i += 1;
                }
                proof {
                    assert(out@.map_values(|x: Value| x.scalar_view()) =~= items@.map_values(|x: Value| x.scalar_view()));
                }
                Value::List(out)
            },
            _ => clone_scalar(self),
        }
    }
}

/// The mathematical form of a [`Value`].
pub enum ValueView {
    Byte(u8),
    Short(u16),
    SignedByte(i8),
    SignedShort(i16),
    Signed(i32),
    SignedBig(i64),
    Unsigned(u32),
    UnsignedBig(u64),
    Float(u32),
    Double(u64),
    List(Seq<ValueView>),
    Rational(u32, u32),
    SRational(i32, i32),
    Ascii(Seq<char>),
    Ifd(u32),
    IfdBig(u64),
}

impl Value {
    /// The view of a value that is not a list.
    pub open spec fn scalar_view(&self) -> ValueView {
        match self {
            Value::Byte(v) => ValueView::Byte(*v),
            Value::Short(v) => ValueView::Short(*v),
            Value::SignedByte(v) => ValueView::SignedByte(*v),
            Value::SignedShort(v) => ValueView::SignedShort(*v),
            Value::Signed(v) => ValueView::Signed(*v),
            Value::SignedBig(v) => ValueView::SignedBig(*v),
            Value::Unsigned(v) => ValueView::Unsigned(*v),
            Value::UnsignedBig(v) => ValueView::UnsignedBig(*v),
            Value::Float(v) => ValueView::Float(*v),
            Value::Double(v) => ValueView::Double(*v),
            Value::List(_) => ValueView::List(Seq::empty()),
            Value::Rational(n, d) => ValueView::Rational(*n, *d),
            Value::SRational(n, d) => ValueView::SRational(*n, *d),
            Value::Ascii(s) => ValueView::Ascii(s@),
            Value::Ifd(v) => ValueView::Ifd(*v),
            Value::IfdBig(v) => ValueView::IfdBig(*v),
        }
    }
}

impl View for Value {
    type V = ValueView;

    open spec fn view(&self) -> ValueView {
        match self {
            Value::List(v) => ValueView::List(v@.map_values(|x: Value| x.scalar_view())),
            _ => self.scalar_view(),
        }
    }
}

/// A scalar read as a `u16`, where it is an unsigned integer that fits.
pub open spec fn as_u16(v: ValueView) -> Option<u16> {
    match v {
        ValueView::Short(x) => Some(x),
        ValueView::Unsigned(x) => if x <= u16::MAX { Some(x as u16) } else { None },
        ValueView::UnsignedBig(x) => if x <= u16::MAX { Some(x as u16) } else { None },
        _ => None,
    }
}

/// A scalar read as a `u32`, where it is an unsigned integer that fits.
pub open spec fn as_u32(v: ValueView) -> Option<u32> {
    match v {
        ValueView::Short(x) => Some(x as u32),
        ValueView::Unsigned(x) => Some(x),
        ValueView::UnsignedBig(x) => if x <= u32::MAX { Some(x as u32) } else { None },
        ValueView::Ifd(x) => Some(x),
        ValueView::IfdBig(x) => if x <= u32::MAX { Some(x as u32) } else { None },
        _ => None,
    }
}

/// A scalar read as a `u64`, where it is an unsigned integer.
pub open spec fn as_u64(v: ValueView) -> Option<u64> {
    match v {
        ValueView::Short(x) => Some(x as u64),
        ValueView::Unsigned(x) => Some(x as u64),
        ValueView::UnsignedBig(x) => Some(x),
        ValueView::Ifd(x) => Some(x as u64),
        ValueView::IfdBig(x) => Some(x),
        _ => None,
    }
}

/// A scalar read as a byte.
pub open spec fn as_u8(v: ValueView) -> Option<u8> {
    match v {
        ValueView::Byte(x) => Some(x),
        _ => None,
    }
}

/// A scalar read as the bit pattern of a double.
pub open spec fn as_f64_bits(v: ValueView) -> Option<u64> {
    match v {
        ValueView::Double(x) => Some(x),
        _ => None,
    }
}

/// The elements of a value: those of a list, or the value itself.
pub open spec fn elements(v: ValueView) -> Seq<ValueView> {
    match v {
        ValueView::List(s) => s,
        _ => seq![v],
    }
}

/// The elements of `v`, each read by `as_u16`; `None` if one cannot be.
pub open spec fn u16_list(v: ValueView) -> Option<Seq<u16>> {
    let s = elements(v);
    if forall|i: int| 0 <= i < s.len() ==> (#[trigger] as_u16(s[i])) is Some {
        Some(Seq::new(s.len(), |i: int| as_u16(s[i])->0))
    } else {
        None
    }
}

/// The elements of `v`, each read by `as_u64`; `None` if one cannot be.
pub open spec fn u64_list(v: ValueView) -> Option<Seq<u64>> {
    let s = elements(v);
    if forall|i: int| 0 <= i < s.len() ==> (#[trigger] as_u64(s[i])) is Some {
        Some(Seq::new(s.len(), |i: int| as_u64(s[i])->0))
    } else {
        None
    }
}

/// The elements of `v`, each read by `as_u8`; `None` if one cannot be.
pub open spec fn u8_list(v: ValueView) -> Option<Seq<u8>> {
    let s = elements(v);
    if forall|i: int| 0 <= i < s.len() ==> (#[trigger] as_u8(s[i])) is Some {
        Some(Seq::new(s.len(), |i: int| as_u8(s[i])->0))
    } else {
        None
    }
}

/// The elements of `v`, each read by `as_f64_bits`; `None` if one cannot be.
pub open spec fn f64_bits_list(v: ValueView) -> Option<Seq<u64>> {
    let s = elements(v);
    if forall|i: int| 0 <= i < s.len() ==> (#[trigger] as_f64_bits(s[i])) is Some {
        Some(Seq::new(s.len(), |i: int| as_f64_bits(s[i])->0))
    } else {
        None
    }
}

impl Value {
    /// This scalar as a `u16`.
    pub fn into_u16(&self) -> (r: Option<u16>)
        ensures
            r == as_u16(self.scalar_view()),
    {
        match self {
            Value::Short(x) => Some(*x),
            Value::Unsigned(x) => if *x <= 0xFFFF { Some(*x as u16) } else { None },
            Value::UnsignedBig(x) => if *x <= 0xFFFF { Some(*x as u16) } else { None },
            _ => None,
        }
    }

    /// This scalar as a `u32`.
    pub fn into_u32(&self) -> (r: Option<u32>)
        ensures
            r == as_u32(self.scalar_view()),
    {
        match self {
            Value::Short(x) => Some(*x as u32),
            Value::Unsigned(x) => Some(*x),
            Value::UnsignedBig(x) => if *x <= 0xFFFF_FFFF { Some(*x as u32) } else { None },
            Value::Ifd(x) => Some(*x),
            Value::IfdBig(x) => if *x <= 0xFFFF_FFFF { Some(*x as u32) } else { None },
            _ => None,
        }
    }

    /// This scalar as a `u64`.
    pub fn into_u64(&self) -> (r: Option<u64>)
        ensures
            r == as_u64(self.scalar_view()),
    {
        match self {
            Value::Short(x) => Some(*x as u64),
            Value::Unsigned(x) => Some(*x as u64),
            Value::UnsignedBig(x) => Some(*x),
            Value::Ifd(x) => Some(*x as u64),
            Value::IfdBig(x) => Some(*x),
            _ => None,
        }
    }

    /// This scalar as a byte.
    pub fn into_u8(&self) -> (r: Option<u8>)
        ensures
            r == as_u8(self.scalar_view()),
    {
        match self {
            Value::Byte(x) => Some(*x),
            _ => None,
        }
    }

    /// This scalar as the bit pattern of a double.
    pub fn into_f64_bits(&self) -> (r: Option<u64>)
        ensures
            r == as_f64_bits(self.scalar_view()),
    {
        match self {
            Value::Double(x) => Some(*x),
            _ => None,
        }
    }

    /// The numerator and denominator of a RATIONAL value.
    pub fn into_rational(&self) -> (r: Option<(u32, u32)>)
        ensures
            r == match self@ {
                ValueView::Rational(n, d) => Some((n, d)),
                _ => None::<(u32, u32)>,
            },
    {
        match self {
            Value::Rational(n, d) => Some((*n, *d)),
            _ => None,
        }
    }

    /// The string of an ASCII value.
    pub fn into_string(&self) -> (r: Option<String>)
        ensures
            match self@ {
                ValueView::Ascii(s) => r is Some && r->0@ == s,
                _ => r is None,
            },
    {
        match self {
            Value::Ascii(s) => Some(s.clone()),
            _ => None,
        }
    }

    /// The elements of this value (those of a list, or the value itself), each read by
    /// [`Value::into_u16`].
    pub fn into_u16_vec(&self) -> (r: Option<Vec<u16>>)
        ensures
            r matches Some(v) ==> u16_list(self@) == Some(v@),
            r is None ==> u16_list(self@) is None,
    {
        match self {
            Value::List(items) => {
                let mut out: Vec<u16> = Vec::new();
                let mut i: usize = 0;
                while i < items.len()
                    invariant
                        i <= items@.len(),
                        out@.len() == i,
                        elements(self@) == items@.map_values(|x: Value| x.scalar_view()),
                        forall|j: int| 0 <= j < i ==> as_u16(#[trigger] elements(self@)[j]) == Some(out@[j]),
                    decreases items@.len() - i,
                {
                    match items[i].into_u16() {
                        Some(x) => out.push(x),
                        None => {
                            proof {
                                assert(as_u16(elements(self@)[i as int]) is None);
                            }
                            return None;
                        },
                    }
                    i += 1;
                }
                proof {
                    let s = elements(self@);
                    assert forall|j: int| 0 <= j < s.len() implies (#[trigger] as_u16(s[j])) is Some by {
                        assert(as_u16(elements(self@)[j]) == Some(out@[j]));
                    }
                    assert(Seq::new(s.len(), |j: int| as_u16(s[j])->0) =~= out@);
                }
                Some(out)
            },
            _ => match self.into_u16() {
                Some(x) => {
                    proof {
                        let s = elements(self@);
                        assert(as_u16(s[0]) is Some);
                        assert(Seq::new(s.len(), |j: int| as_u16(s[j])->0) =~= seq![x]);
                    }
                    Some(vec![x])
                },
                None => {
                    proof {
                        assert(as_u16(elements(self@)[0]) is None);
                    }
                    None
                },
            },
        }
    }

    /// The elements of this value (those of a list, or the value itself), each read by
    /// [`Value::into_u64`].
    pub fn into_u64_vec(&self) -> (r: Option<Vec<u64>>)
        ensures
            r matches Some(v) ==> u64_list(self@) == Some(v@),
            r is None ==> u64_list(self@) is None,
    {
        match self {
            Value::List(items) => {
                let mut out: Vec<u64> = Vec::new();
                let mut i: usize = 0;
                while i < items.len()
                    invariant
                        i <= items@.len(),
                        out@.len() == i,
                        elements(self@) == items@.map_values(|x: Value| x.scalar_view()),
                        forall|j: int| 0 <= j < i ==> as_u64(#[trigger] elements(self@)[j]) == Some(out@[j]),
                    decreases items@.len() - i,
                {
                    match items[i].into_u64() {
                        Some(x) => out.push(x),
                        None => {
                            proof {
                                assert(as_u64(elements(self@)[i as int]) is None);
                            }
                            return None;
                        },
                    }
                    i += 1;
                }
                proof {
                    let s = elements(self@);
                    assert forall|j: int| 0 <= j < s.len() implies (#[trigger] as_u64(s[j])) is Some by {
                        assert(as_u64(elements(self@)[j]) == Some(out@[j]));
                    }
                    assert(Seq::new(s.len(), |j: int| as_u64(s[j])->0) =~= out@);
                }
                Some(out)
            },
            _ => match self.into_u64() {
                Some(x) => {
                    proof {
                        let s = elements(self@);
                        assert(as_u64(s[0]) is Some);
                        assert(Seq::new(s.len(), |j: int| as_u64(s[j])->0) =~= seq![x]);
                    }
                    Some(vec![x])
                },
                None => {
                    proof {
                        assert(as_u64(elements(self@)[0]) is None);
                    }
                    None
                },
            },
        }
    }

    /// The elements of this value (those of a list, or the value itself), each read by
    /// [`Value::into_u8`].
    pub fn into_u8_vec(&self) -> (r: Option<Vec<u8>>)
        ensures
            r matches Some(v) ==> u8_list(self@) == Some(v@),
            r is None ==> u8_list(self@) is None,
    {
        match self {
            Value::List(items) => {
                let mut out: Vec<u8> = Vec::new();
                let mut i: usize = 0;
                while i < items.len()
                    invariant
                        i <= items@.len(),
                        out@.len() == i,
                        elements(self@) == items@.map_values(|x: Value| x.scalar_view()),
                        forall|j: int| 0 <= j < i ==> as_u8(#[trigger] elements(self@)[j]) == Some(out@[j]),
                    decreases items@.len() - i,
                {
                    match items[i].into_u8() {
                        Some(x) => out.push(x),
                        None => {
                            proof {
                                assert(as_u8(elements(self@)[i as int]) is None);
                            }
                            return None;
                        },
                    }
                    i += 1;
                }
                proof {
                    let s = elements(self@);
                    assert forall|j: int| 0 <= j < s.len() implies (#[trigger] as_u8(s[j])) is Some by {
                        assert(as_u8(elements(self@)[j]) == Some(out@[j]));
                    }
                    assert(Seq::new(s.len(), |j: int| as_u8(s[j])->0) =~= out@);
                }
                Some(out)
            },
            _ => match self.into_u8() {
                Some(x) => {
                    proof {
                        let s = elements(self@);
                        assert(as_u8(s[0]) is Some);
                        assert(Seq::new(s.len(), |j: int| as_u8(s[j])->0) =~= seq![x]);
                    }
                    Some(vec![x])
                },
                None => {
                    proof {
                        assert(as_u8(elements(self@)[0]) is None);
                    }
                    None
                },
            },
        }
    }

    /// The elements of this value (those of a list, or the value itself), each read by
    /// [`Value::into_f64_bits`].
    pub fn into_f64_bits_vec(&self) -> (r: Option<Vec<u64>>)
        ensures
            r matches Some(v) ==> f64_bits_list(self@) == Some(v@),
            r is None ==> f64_bits_list(self@) is None,
    {
        match self {
            Value::List(items) => {
                let mut out: Vec<u64> = Vec::new();
                let mut i: usize = 0;
                while i < items.len()
                    invariant
                        i <= items@.len(),
                        out@.len() == i,
                        elements(self@) == items@.map_values(|x: Value| x.scalar_view()),
                        forall|j: int| 0 <= j < i ==> as_f64_bits(#[trigger] elements(self@)[j]) == Some(out@[j]),
                    decreases items@.len() - i,
                {
                    match items[i].into_f64_bits() {
                        Some(x) => out.push(x),
                        None => {
                            proof {
                                assert(as_f64_bits(elements(self@)[i as int]) is None);
                            }
                            return None;
                        },
                    }
                    i += 1;
                }
                proof {
                    let s = elements(self@);
                    assert forall|j: int| 0 <= j < s.len() implies (#[trigger] as_f64_bits(s[j])) is Some by {
                        assert(as_f64_bits(elements(self@)[j]) == Some(out@[j]));
                    }
                    assert(Seq::new(s.len(), |j: int| as_f64_bits(s[j])->0) =~= out@);
                }
                Some(out)
            },
            _ => match self.into_f64_bits() {
                Some(x) => {
                    proof {
                        let s = elements(self@);
                        assert(as_f64_bits(s[0]) is Some);
                        assert(Seq::new(s.len(), |j: int| as_f64_bits(s[j])->0) =~= seq![x]);
                    }
                    Some(vec![x])
                },
                None => {
                    proof {
                        assert(as_f64_bits(elements(self@)[0]) is None);
                    }
                    None
                },
            },
        }
    }
}

} // verus!
