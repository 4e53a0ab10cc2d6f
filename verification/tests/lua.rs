use vvvvvv_hook::lua::{int_to_lua, lua_repr, lua_to_int, FfiInt, FfiType, IntKind, LuaRepr};

#[test]
fn lua_repr_kinds() {
    assert_eq!(lua_repr(FfiType::Void), LuaRepr::Nothing);
    assert_eq!(lua_repr(FfiType::Int), LuaRepr::Integer(IntKind::Int));
    assert_eq!(lua_repr(FfiType::Pointer), LuaRepr::Integer(IntKind::Pointer));
    assert_eq!(lua_repr(FfiType::UInt64), LuaRepr::Integer(IntKind::UInt64));
    assert_eq!(lua_repr(FfiType::Float), LuaRepr::Number);
    assert_eq!(lua_repr(FfiType::Double), LuaRepr::Number);
    assert_eq!(lua_repr(FfiType::LongDouble), LuaRepr::Unsupported);
    assert_eq!(lua_repr(FfiType::Struct), LuaRepr::Unsupported);
    assert_eq!(lua_repr(FfiType::Complex), LuaRepr::Unsupported);
}

#[test]
fn int_to_lua_values() {
    assert_eq!(int_to_lua(FfiInt::SInt8(-5)), Some(-5));
    assert_eq!(int_to_lua(FfiInt::UInt32(u32::MAX)), Some(4294967295));
    assert_eq!(int_to_lua(FfiInt::UInt64(i64::MAX as u64)), Some(i64::MAX));
    assert_eq!(int_to_lua(FfiInt::UInt64(u64::MAX)), None);
    assert_eq!(int_to_lua(FfiInt::SInt64(i64::MIN)), Some(i64::MIN));
    assert_eq!(int_to_lua(FfiInt::Pointer(-1)), Some(-1));
}

#[test]
fn lua_to_int_ranges() {
    assert_eq!(lua_to_int(IntKind::UInt8, 255), Some(FfiInt::UInt8(255)));
    assert_eq!(lua_to_int(IntKind::UInt8, 256), None);
    assert_eq!(lua_to_int(IntKind::UInt8, -1), None);
    assert_eq!(lua_to_int(IntKind::SInt16, -32768), Some(FfiInt::SInt16(-32768)));
    assert_eq!(lua_to_int(IntKind::SInt16, 32768), None);
    assert_eq!(lua_to_int(IntKind::Int, 1 << 31), None);
    assert_eq!(lua_to_int(IntKind::UInt64, -1), None);
    assert_eq!(lua_to_int(IntKind::UInt64, i64::MAX), Some(FfiInt::UInt64(i64::MAX as u64)));
    assert_eq!(lua_to_int(IntKind::SInt64, i64::MIN), Some(FfiInt::SInt64(i64::MIN)));
}

#[test]
fn int_round_trips_through_lua() {
    let values = [
        FfiInt::Int(-7),
        FfiInt::Pointer(123456),
        FfiInt::UInt8(200),
        FfiInt::SInt8(-128),
        FfiInt::UInt16(65535),
        FfiInt::SInt16(-1),
        FfiInt::UInt32(4000000000),
        FfiInt::SInt32(i32::MIN),
        FfiInt::UInt64(1 << 62),
        FfiInt::SInt64(i64::MAX),
    ];
    let kinds = [
        IntKind::Int,
        IntKind::Pointer,
        IntKind::UInt8,
        IntKind::SInt8,
        IntKind::UInt16,
        IntKind::SInt16,
        IntKind::UInt32,
        IntKind::SInt32,
        IntKind::UInt64,
        IntKind::SInt64,
    ];
    for (v, k) in values.iter().zip(kinds.iter()) {
        let n = int_to_lua(*v).unwrap();
        assert_eq!(lua_to_int(*k, n), Some(*v));
    }
}
