use deno_ffi::dispatch::{
    open_library, plan_call, prepare_call, DlcallArgs, FfiArg, FfiPermissions, HandleTable,
    NoFfiPermissions,
};
use deno_ffi::error::FfiError;
use deno_ffi::marshal::NativeCell;
use deno_ffi::types::TypeTag;
use deno_ffi::value::DynamicValue;
use deno_ffi::Unstable;

/// A permission policy that denies everything, as a host embedding might.
struct DenyAll;

impl FfiPermissions for DenyAll {
    fn check(&mut self) -> Result<(), FfiError> {
        Err(FfiError::PermissionDenied("ffi access denied".to_string()))
    }

    fn check_read(&mut self, _path: &str) -> Result<(), FfiError> {
        Err(FfiError::PermissionDenied("read denied".to_string()))
    }
}

fn call_req(sym: &str, args: Vec<(&str, DynamicValue)>, return_type: &str) -> DlcallArgs {
    DlcallArgs {
        sym: sym.to_string(),
        args: args
            .into_iter()
            .map(|(t, value)| FfiArg { arg_type: t.to_string(), value })
            .collect(),
        return_type: return_type.to_string(),
    }
}

#[test]
fn unstable_flag_is_reported() {
    assert!(Unstable(true).allows());
    assert!(!Unstable(false).allows());
}

#[test]
fn open_nonexistent_library_leaves_no_entry() {
    let mut table = HandleTable::new();
    let mut perms = NoFfiPermissions;
    let r = open_library(&mut table, &mut perms, "/definitely/not/a/library.so");
    assert!(matches!(r, Err(FfiError::LibraryLoadError(_))));
    assert!(!table.is_valid(0));
}

#[test]
fn open_denied_by_permissions_leaves_no_entry() {
    let mut table = HandleTable::new();
    let mut perms = DenyAll;
    let r = open_library(&mut table, &mut perms, "libm.so.6");
    assert!(matches!(r, Err(FfiError::PermissionDenied(_))));
    assert!(!table.is_valid(0));
}

#[test]
fn open_and_close_a_real_library() {
    let mut table = HandleTable::new();
    let mut perms = NoFfiPermissions;
    let rid = open_library(&mut table, &mut perms, "libm.so.6").unwrap();
    assert_eq!(rid, 0);
    assert!(table.is_valid(rid));
    assert!(table.library(rid).is_some());
    assert_eq!(table.close(rid), Ok(()));
    assert!(!table.is_valid(rid));
    assert_eq!(table.close(rid), Err(FfiError::InvalidHandle));
}

#[test]
fn handle_ids_grow_with_each_open() {
    let mut table = HandleTable::new();
    let mut perms = NoFfiPermissions;
    let first = open_library(&mut table, &mut perms, "libm.so.6").unwrap();
    let second = open_library(&mut table, &mut perms, "libm.so.6").unwrap();
    assert_eq!(first, 0);
    assert_eq!(second, 1);
    assert!(table.is_valid(first) && table.is_valid(second));
}

#[test]
fn call_with_unknown_handle_is_invalid_handle() {
    let table = HandleTable::new();
    let req = call_req("cos", vec![("f64", DynamicValue::Float(0))], "f64");
    assert_eq!(prepare_call(&table, 7, &req), Err(FfiError::InvalidHandle));
}

#[test]
fn call_with_closed_handle_is_invalid_handle() {
    let mut table = HandleTable::new();
    let mut perms = NoFfiPermissions;
    let rid = open_library(&mut table, &mut perms, "libm.so.6").unwrap();
    table.close(rid).unwrap();
    let req = call_req("abs", vec![], "i32");
    assert_eq!(prepare_call(&table, rid, &req), Err(FfiError::InvalidHandle));
}

#[test]
fn unknown_return_type_fails_before_marshalling() {
    let mut table = HandleTable::new();
    let mut perms = NoFfiPermissions;
    let rid = open_library(&mut table, &mut perms, "libm.so.6").unwrap();
    // The value would also mismatch, but the unknown name must win.
    let req = call_req("f", vec![("u8", DynamicValue::Null)], "number");
    assert_eq!(
        prepare_call(&table, rid, &req),
        Err(FfiError::UnknownType("number".to_string()))
    );
}

#[test]
fn unknown_argument_type_fails_before_marshalling() {
    let mut table = HandleTable::new();
    let mut perms = NoFfiPermissions;
    let rid = open_library(&mut table, &mut perms, "libm.so.6").unwrap();
    // The first argument's value is incompatible with its declared type,
    // but every declared name is resolved before any value is marshalled,
    // so the unknown name of the second argument is reported.
    let req = call_req(
        "f",
        vec![
            ("u8", DynamicValue::Null),
            ("bogus", DynamicValue::UInt(1)),
        ],
        "void",
    );
    assert_eq!(
        prepare_call(&table, rid, &req),
        Err(FfiError::UnknownType("bogus".to_string()))
    );
}

#[test]
fn mismatched_value_fails_with_type_mismatch() {
    let mut table = HandleTable::new();
    let mut perms = NoFfiPermissions;
    let rid = open_library(&mut table, &mut perms, "libm.so.6").unwrap();
    let req = call_req(
        "f",
        vec![
            ("u32", DynamicValue::UInt(1)),
            ("u16", DynamicValue::Int(-3)),
        ],
        "void",
    );
    assert_eq!(
        prepare_call(&table, rid, &req),
        Err(FfiError::TypeMismatch(TypeTag::U16))
    );
}

#[test]
fn plan_preserves_argument_order() {
    let mut table = HandleTable::new();
    let mut perms = NoFfiPermissions;
    let rid = open_library(&mut table, &mut perms, "libm.so.6").unwrap();
    let req = call_req(
        "sub",
        vec![
            ("i32", DynamicValue::Int(1)),
            ("i32", DynamicValue::Int(2)),
            ("i32", DynamicValue::Int(3)),
        ],
        "i32",
    );
    let plan = prepare_call(&table, rid, &req).unwrap();
    assert_eq!(
        plan.cells,
        vec![NativeCell::I32(1), NativeCell::I32(2), NativeCell::I32(3)]
    );
    assert_eq!(
        plan.iface.arg_types,
        vec![TypeTag::I32, TypeTag::I32, TypeTag::I32]
    );
    assert_eq!(plan.iface.return_type, TypeTag::I32);
}

#[test]
fn plan_call_denied_by_permissions() {
    let mut table = HandleTable::new();
    let mut open_perms = NoFfiPermissions;
    let rid = open_library(&mut table, &mut open_perms, "libm.so.6").unwrap();
    let mut perms = DenyAll;
    let req = call_req("cos", vec![("f64", DynamicValue::Float(0))], "f64");
    assert!(matches!(
        plan_call(&table, &mut perms, rid, &req),
        Err(FfiError::PermissionDenied(_))
    ));
}

#[test]
fn plan_call_allowed_matches_prepare() {
    let mut table = HandleTable::new();
    let mut perms = NoFfiPermissions;
    let rid = open_library(&mut table, &mut perms, "libm.so.6").unwrap();
    let req = call_req("cos", vec![("f64", DynamicValue::Float(0))], "f64");
    let a = plan_call(&table, &mut perms, rid, &req).unwrap();
    let b = prepare_call(&table, rid, &req).unwrap();
    assert_eq!(a.cells, b.cells);
    assert_eq!(a.iface.arg_types, b.iface.arg_types);
    assert_eq!(a.iface.return_type, b.iface.return_type);
}
