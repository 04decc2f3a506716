use vstd::prelude::*;

verus! {

/// A field of an update request as it came over the wire, before it is read as a
/// change: JSON `null`, a number (with its value when it is a non-negative
/// integer that fits in 64 bits), a string, or anything else.
pub enum WireValue {
    Null,
    Number(Option<u64>),
    Text(String),
    Other,
}

/// A change to a field that can be cleared: leave it, clear it, or set it.
#[derive(Debug, Clone, Copy, PartialEq, Eq, Structural)]
pub enum Patch<T> {
    Unset,
    Clear,
    Value(T),
}

/// A reference to another entity: absent leaves it, `null` clears it, an integer
/// sets it to that id (taken modulo 2^32, as ids are 32-bit), anything else clears it.
pub open spec fn spec_decode_id(w: Option<WireValue>) -> Patch<u32> {
    match w {
        None => Patch::Unset,
        Some(WireValue::Number(Some(n))) => Patch::Value(n as u32),
        Some(_) => Patch::Clear,
    }
}

/// A text field that can be cleared: absent leaves it, a string sets it, `null`
/// or anything else clears it.
pub open spec fn spec_decode_text(w: Option<WireValue>) -> Patch<Seq<char>> {
    match w {
        None => Patch::Unset,
        Some(WireValue::Text(s)) => Patch::Value(s@),
        Some(_) => Patch::Clear,
    }
}

pub open spec fn text_patch_view(p: Patch<String>) -> Patch<Seq<char>> {
    match p {
        Patch::Unset => Patch::Unset,
        Patch::Clear => Patch::Clear,
        Patch::Value(s) => Patch::Value(s@),
    }
}

pub fn decode_id(w: &Option<WireValue>) -> (r: Patch<u32>)
    ensures
        r == spec_decode_id(*w),
{
    match w {
        None => Patch::Unset,
        Some(WireValue::Number(Some(n))) => Patch::Value(*n as u32),
        Some(_) => Patch::Clear,
    }
}

pub fn decode_text(w: &Option<WireValue>) -> (r: Patch<String>)
    ensures
        text_patch_view(r) == spec_decode_text(*w),
{
    match w {
        None => Patch::Unset,
        Some(WireValue::Text(s)) => Patch::Value(s.clone()),
        Some(_) => Patch::Clear,
    }
}

} // verus!
