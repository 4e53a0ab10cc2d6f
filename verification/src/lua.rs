use vstd::prelude::*;

verus! {

/// The kinds of values that a libffi call interface describes.
#[derive(Clone, Copy, Debug, PartialEq, Eq, Structural)]
pub enum FfiType {
    Void,
    Int,
    Float,
    Double,
    LongDouble,
    UInt8,
    SInt8,
    UInt16,
    SInt16,
    UInt32,
    SInt32,
    UInt64,
    SInt64,
    Struct,
    Pointer,
    Complex,
}

/// The integer kinds among them.
#[derive(Clone, Copy, Debug, PartialEq, Eq, Structural)]
pub enum IntKind {
    Int,
    Pointer,
    UInt8,
    SInt8,
    UInt16,
    SInt16,
    UInt32,
    SInt32,
    UInt64,
    SInt64,
}

/// How a value of a libffi type is handed to Lua and taken back.
#[derive(Clone, Copy, Debug, PartialEq, Eq, Structural)]
pub enum LuaRepr {
    /// As a Lua integer.
    Integer(IntKind),
    /// As a Lua number (the floating-point kinds).
    Number,
    /// No value: only a return type can be `void`.
    Nothing,
    /// Not handled: long double, complex and struct values.
    Unsupported,
}

pub open spec fn lua_repr_of(ty: FfiType) -> LuaRepr {
    match ty {
        FfiType::Void => LuaRepr::Nothing,
        FfiType::Int => LuaRepr::Integer(IntKind::Int),
        FfiType::Float => LuaRepr::Number,
        FfiType::Double => LuaRepr::Number,
        FfiType::LongDouble => LuaRepr::Unsupported,
        FfiType::UInt8 => LuaRepr::Integer(IntKind::UInt8),
        FfiType::SInt8 => LuaRepr::Integer(IntKind::SInt8),
        FfiType::UInt16 => LuaRepr::Integer(IntKind::UInt16),
        FfiType::SInt16 => LuaRepr::Integer(IntKind::SInt16),
        FfiType::UInt32 => LuaRepr::Integer(IntKind::UInt32),
        FfiType::SInt32 => LuaRepr::Integer(IntKind::SInt32),
        FfiType::UInt64 => LuaRepr::Integer(IntKind::UInt64),
        FfiType::SInt64 => LuaRepr::Integer(IntKind::SInt64),
        FfiType::Struct => LuaRepr::Unsupported,
        FfiType::Pointer => LuaRepr::Integer(IntKind::Pointer),
        FfiType::Complex => LuaRepr::Unsupported,
    }
}

/// How values of a libffi type cross to Lua: integers as Lua integers,
/// `float` and `double` as Lua numbers, `void` as nothing; long double,
/// complex and struct values are not handled.
pub fn lua_repr(ty: FfiType) -> (r: LuaRepr)
    ensures
        r == lua_repr_of(ty),
        ty == FfiType::Void ==> r == LuaRepr::Nothing,
        ty == FfiType::Int ==> r == LuaRepr::Integer(IntKind::Int),
        ty == FfiType::Float ==> r == LuaRepr::Number,
        ty == FfiType::Double ==> r == LuaRepr::Number,
        ty == FfiType::LongDouble ==> r == LuaRepr::Unsupported,
        ty == FfiType::UInt8 ==> r == LuaRepr::Integer(IntKind::UInt8),
        ty == FfiType::SInt8 ==> r == LuaRepr::Integer(IntKind::SInt8),
        ty == FfiType::UInt16 ==> r == LuaRepr::Integer(IntKind::UInt16),
        ty == FfiType::SInt16 ==> r == LuaRepr::Integer(IntKind::SInt16),
        ty == FfiType::UInt32 ==> r == LuaRepr::Integer(IntKind::UInt32),
        ty == FfiType::SInt32 ==> r == LuaRepr::Integer(IntKind::SInt32),
        ty == FfiType::UInt64 ==> r == LuaRepr::Integer(IntKind::UInt64),
        ty == FfiType::SInt64 ==> r == LuaRepr::Integer(IntKind::SInt64),
        ty == FfiType::Struct ==> r == LuaRepr::Unsupported,
        ty == FfiType::Pointer ==> r == LuaRepr::Integer(IntKind::Pointer),
        ty == FfiType::Complex ==> r == LuaRepr::Unsupported,
{
    match ty {
        FfiType::Void => LuaRepr::Nothing,
        FfiType::Int => LuaRepr::Integer(IntKind::Int),
        FfiType::Float => LuaRepr::Number,
        FfiType::Double => LuaRepr::Number,
        FfiType::LongDouble => LuaRepr::Unsupported,
        FfiType::UInt8 => LuaRepr::Integer(IntKind::UInt8),
        FfiType::SInt8 => LuaRepr::Integer(IntKind::SInt8),
        FfiType::UInt16 => LuaRepr::Integer(IntKind::UInt16),
        FfiType::SInt16 => LuaRepr::Integer(IntKind::SInt16),
        FfiType::UInt32 => LuaRepr::Integer(IntKind::UInt32),
        FfiType::SInt32 => LuaRepr::Integer(IntKind::SInt32),
        FfiType::UInt64 => LuaRepr::Integer(IntKind::UInt64),
        FfiType::SInt64 => LuaRepr::Integer(IntKind::SInt64),
        FfiType::Struct => LuaRepr::Unsupported,
        FfiType::Pointer => LuaRepr::Integer(IntKind::Pointer),
        FfiType::Complex => LuaRepr::Unsupported,
    }
}

/// An integer value of one of the integer kinds, as read from or written to
/// a call's argument or result slot.
#[derive(Clone, Copy, Debug, PartialEq, Eq, Structural)]
pub enum FfiInt {
    Int(i32),
    Pointer(isize),
    UInt8(u8),
    SInt8(i8),
    UInt16(u16),
    SInt16(i16),
    UInt32(u32),
    SInt32(i32),
    UInt64(u64),
    SInt64(i64),
}

pub open spec fn int_kind(v: FfiInt) -> IntKind {
    match v {
        FfiInt::Int(_) => IntKind::Int,
        FfiInt::Pointer(_) => IntKind::Pointer,
        FfiInt::UInt8(_) => IntKind::UInt8,
        FfiInt::SInt8(_) => IntKind::SInt8,
        FfiInt::UInt16(_) => IntKind::UInt16,
        FfiInt::SInt16(_) => IntKind::SInt16,
        FfiInt::UInt32(_) => IntKind::UInt32,
        FfiInt::SInt32(_) => IntKind::SInt32,
        FfiInt::UInt64(_) => IntKind::UInt64,
        FfiInt::SInt64(_) => IntKind::SInt64,
    }
}

pub open spec fn int_value(v: FfiInt) -> int {
    match v {
        FfiInt::Int(x) => x as int,
        FfiInt::Pointer(x) => x as int,
        FfiInt::UInt8(x) => x as int,
        FfiInt::SInt8(x) => x as int,
        FfiInt::UInt16(x) => x as int,
        FfiInt::SInt16(x) => x as int,
        FfiInt::UInt32(x) => x as int,
        FfiInt::SInt32(x) => x as int,
        FfiInt::UInt64(x) => x as int,
        FfiInt::SInt64(x) => x as int,
    }
}

/// The range of values of an integer kind.
pub open spec fn kind_holds(kind: IntKind, v: int) -> bool {
    match kind {
        IntKind::Int => i32::MIN <= v <= i32::MAX,
        IntKind::Pointer => isize::MIN <= v <= isize::MAX,
        IntKind::UInt8 => 0 <= v <= u8::MAX,
        IntKind::SInt8 => i8::MIN <= v <= i8::MAX,
        IntKind::UInt16 => 0 <= v <= u16::MAX,
        IntKind::SInt16 => i16::MIN <= v <= i16::MAX,
        IntKind::UInt32 => 0 <= v <= u32::MAX,
        IntKind::SInt32 => i32::MIN <= v <= i32::MAX,
        IntKind::UInt64 => 0 <= v <= u64::MAX,
        IntKind::SInt64 => i64::MIN <= v <= i64::MAX,
    }
}

/// The Lua integer for a C integer: the same value, where a Lua integer
/// (64-bit signed) holds it.
pub open spec fn to_lua_of(v: FfiInt) -> Option<i64> {
    if int_value(v) <= i64::MAX {
        Some(int_value(v) as i64)
    } else {
        None
    }
}

/// The C integer of kind `kind` with value `v`, where the kind holds it.
pub open spec fn from_lua_of(kind: IntKind, v: i64) -> Option<FfiInt> {
    if !kind_holds(kind, v as int) {
        None
    } else {
        Some(
            match kind {
                IntKind::Int => FfiInt::Int(v as i32),
                IntKind::Pointer => FfiInt::Pointer(v as isize),
                IntKind::UInt8 => FfiInt::UInt8(v as u8),
                IntKind::SInt8 => FfiInt::SInt8(v as i8),
                IntKind::UInt16 => FfiInt::UInt16(v as u16),
                IntKind::SInt16 => FfiInt::SInt16(v as i16),
                IntKind::UInt32 => FfiInt::UInt32(v as u32),
                IntKind::SInt32 => FfiInt::SInt32(v as i32),
                IntKind::UInt64 => FfiInt::UInt64(v as u64),
                IntKind::SInt64 => FfiInt::SInt64(v),
            },
        )
    }
}

/// The Lua integer for a C integer argument: the same value, where it fits
/// in a Lua integer; only a `uint64_t` above `i64::MAX` does not.
pub fn int_to_lua(v: FfiInt) -> (r: Option<i64>)
    ensures
        r == to_lua_of(v),
        r is None <==> int_value(v) > i64::MAX,
        r matches Some(n) ==> n as int == int_value(v),
{
    match v {
        FfiInt::Int(x) => Some(x as i64),
        FfiInt::Pointer(x) => Some(x as i64),
        FfiInt::UInt8(x) => Some(x as i64),
        FfiInt::SInt8(x) => Some(x as i64),
        FfiInt::UInt16(x) => Some(x as i64),
        FfiInt::SInt16(x) => Some(x as i64),
        FfiInt::UInt32(x) => Some(x as i64),
        FfiInt::SInt32(x) => Some(x as i64),
        FfiInt::UInt64(x) => if x <= 9223372036854775807u64 {
            Some(x as i64)
        } else {
            None
        },
        FfiInt::SInt64(x) => Some(x),
    }
}

/// The C integer of kind `kind` for a Lua integer result: the same value,
/// where the kind can hold it.
pub fn lua_to_int(kind: IntKind, v: i64) -> (r: Option<FfiInt>)
    ensures
        r == from_lua_of(kind, v),
        r is Some <==> kind_holds(kind, v as int),
        r matches Some(x) ==> int_kind(x) == kind && int_value(x) == v as int,
{
    match kind {
        IntKind::Int => if i32::MIN as i64 <= v && v <= i32::MAX as i64 {
            Some(FfiInt::Int(v as i32))
        } else {
            None
        },
        IntKind::Pointer => if isize::MIN as i64 <= v && v <= isize::MAX as i64 {
            Some(FfiInt::Pointer(v as isize))
        } else {
            None
        },
        IntKind::UInt8 => if 0 <= v && v <= u8::MAX as i64 {
            Some(FfiInt::UInt8(v as u8))
        } else {
            None
        },
        IntKind::SInt8 => if i8::MIN as i64 <= v && v <= i8::MAX as i64 {
            Some(FfiInt::SInt8(v as i8))
        } else {
            None
        },
        IntKind::UInt16 => if 0 <= v && v <= u16::MAX as i64 {
            Some(FfiInt::UInt16(v as u16))
        } else {
            None
        },
        IntKind::SInt16 => if i16::MIN as i64 <= v && v <= i16::MAX as i64 {
            Some(FfiInt::SInt16(v as i16))
        } else {
            None
        },
        IntKind::UInt32 => if 0 <= v && v <= u32::MAX as i64 {
            Some(FfiInt::UInt32(v as u32))
        } else {
            None
        },
        IntKind::SInt32 => if i32::MIN as i64 <= v && v <= i32::MAX as i64 {
            Some(FfiInt::SInt32(v as i32))
        } else {
            None
        },
        IntKind::UInt64 => if 0 <= v {
            Some(FfiInt::UInt64(v as u64))
        } else {
            None
        },
        IntKind::SInt64 => Some(FfiInt::SInt64(v)),
    }
}

/// Each integer type crosses to Lua as an integer of the same width and
/// signedness (a `uint8_t` stays unsigned, a pointer stays a pointer-sized
/// integer); `float` and `double` cross as numbers, `void` as nothing, and
/// the other types are not handled.
pub proof fn lemma_lua_repr_kinds(ty: FfiType)
    ensures
        ty == FfiType::Void ==> lua_repr_of(ty) == LuaRepr::Nothing,
        ty == FfiType::Int ==> lua_repr_of(ty) == LuaRepr::Integer(IntKind::Int),
        ty == FfiType::Float ==> lua_repr_of(ty) == LuaRepr::Number,
        ty == FfiType::Double ==> lua_repr_of(ty) == LuaRepr::Number,
        ty == FfiType::LongDouble ==> lua_repr_of(ty) == LuaRepr::Unsupported,
        ty == FfiType::UInt8 ==> lua_repr_of(ty) == LuaRepr::Integer(IntKind::UInt8),
        ty == FfiType::SInt8 ==> lua_repr_of(ty) == LuaRepr::Integer(IntKind::SInt8),
        ty == FfiType::UInt16 ==> lua_repr_of(ty) == LuaRepr::Integer(IntKind::UInt16),
        ty == FfiType::SInt16 ==> lua_repr_of(ty) == LuaRepr::Integer(IntKind::SInt16),
        ty == FfiType::UInt32 ==> lua_repr_of(ty) == LuaRepr::Integer(IntKind::UInt32),
        ty == FfiType::SInt32 ==> lua_repr_of(ty) == LuaRepr::Integer(IntKind::SInt32),
        ty == FfiType::UInt64 ==> lua_repr_of(ty) == LuaRepr::Integer(IntKind::UInt64),
        ty == FfiType::SInt64 ==> lua_repr_of(ty) == LuaRepr::Integer(IntKind::SInt64),
        ty == FfiType::Struct ==> lua_repr_of(ty) == LuaRepr::Unsupported,
        ty == FfiType::Pointer ==> lua_repr_of(ty) == LuaRepr::Integer(IntKind::Pointer),
        ty == FfiType::Complex ==> lua_repr_of(ty) == LuaRepr::Unsupported,
{
}

/// The ranges of the integer kinds: each holds exactly the values of its C
/// type.
pub proof fn lemma_kind_ranges(v: int)
    ensures
        kind_holds(IntKind::UInt8, v) <==> 0 <= v <= 255,
        kind_holds(IntKind::SInt8, v) <==> -128 <= v <= 127,
        kind_holds(IntKind::UInt16, v) <==> 0 <= v <= 65535,
        kind_holds(IntKind::SInt16, v) <==> -32768 <= v <= 32767,
        kind_holds(IntKind::UInt32, v) <==> 0 <= v <= 4294967295,
        kind_holds(IntKind::SInt32, v) <==> -2147483648 <= v <= 2147483647,
        kind_holds(IntKind::Int, v) <==> -2147483648 <= v <= 2147483647,
        kind_holds(IntKind::UInt64, v) <==> 0 <= v <= 18446744073709551615,
        kind_holds(IntKind::SInt64, v) <==> -9223372036854775808 <= v <= 9223372036854775807,
        kind_holds(IntKind::Pointer, v) <==> isize::MIN <= v <= isize::MAX,
{
}

/// A C integer handed to Lua and taken back as the same kind comes back
/// unchanged, whenever a Lua integer holds it.
pub proof fn lemma_int_round_trip(v: FfiInt)
    ensures
        to_lua_of(v) matches Some(n) ==> from_lua_of(int_kind(v), n) == Some(v),
{
}

/// A Lua integer taken as a C integer of some kind and handed back to Lua
/// comes back unchanged, whenever that kind holds it.
pub proof fn lemma_lua_round_trip(kind: IntKind, n: i64)
    ensures
        from_lua_of(kind, n) matches Some(x) ==> int_kind(x) == kind && to_lua_of(x) == Some(n),
{
}

} // verus!
