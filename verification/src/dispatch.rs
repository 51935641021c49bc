//! The dispatch surface: opening libraries into a handle table and
//! turning a call request into a validated, ordered call plan.
//!
//! Loading a library is the one outside call made here; resolving a
//! symbol and transferring control into native code need `unsafe` and are
//! the host's, which runs them against the plan this module proves
//! correct.  A handle stays valid for as long as any resolved symbol from
//! it may still be invoked; closing a handle while a call against it is in
//! flight is undefined behaviour — a caller obligation, not defended
//! against here.

use vstd::prelude::*;
use crate::error::FfiError;
use crate::marshal::{
    build_arguments, build_interface, spec_extract, ArgumentSpec, CallInterfaceDescriptor,
    NativeCell,
};
use crate::types::{resolve_type, spec_tag_of_name, TypeTag};
use crate::value::DynamicValue;

verus! {

/// The capability check consulted before any library or symbol is touched.
/// The host supplies the implementation; a denial is surfaced to the
/// caller unchanged.
pub trait FfiPermissions {
    /// May the caller use the dynamic-library surface at all?
    fn check(&mut self) -> Result<(), FfiError>;

    /// May the caller read the library at `path`?
    fn check_read(&mut self, path: &str) -> Result<(), FfiError>;
}

/// The permission policy that allows everything.
pub struct NoFfiPermissions;

impl FfiPermissions for NoFfiPermissions {
    fn check(&mut self) -> Result<(), FfiError> {
        Ok(())
    }

    fn check_read(&mut self, _path: &str) -> Result<(), FfiError> {
        Ok(())
    }
}

#[verifier::external_type_specification]
#[verifier::external_body]
pub struct ExLibrary(dlopen::raw::Library);

/// Relies on dlopen's `raw::Library::open`: maps the dynamic library at
/// `path` into the process and returns the live handle, or the platform
/// loader's diagnostic when the path does not resolve to a loadable
/// library.  Whether it succeeds depends on what is on disk, so nothing
/// is promised of the outcome.
#[verifier::external_body]
fn load_library(path: &str) -> (r: Result<dlopen::raw::Library, String>) {
    dlopen::raw::Library::open(path).map_err(|e| format!("{}", e))
}

/// The table of open library handles: a handle id is an index, and a slot
/// goes empty when its handle is closed.  Its view is the occupancy of
/// each slot.
pub struct HandleTable {
    slots: Vec<Option<dlopen::raw::Library>>,
}

impl View for HandleTable {
    type V = Seq<bool>;

    closed spec fn view(&self) -> Seq<bool> {
        Seq::new(self.slots@.len(), |i: int| self.slots@[i] is Some)
    }
}

/// A handle id that names a live (open, not yet closed) library.
pub open spec fn spec_valid_handle(t: HandleTable, rid: usize) -> bool {
    rid < t@.len() && t@[rid as int]
}

impl HandleTable {
    /// An empty table, with no handles outstanding.
    pub fn new() -> (r: HandleTable)
        ensures
            r@ =~= Seq::<bool>::empty(),
    {
        HandleTable { slots: Vec::new() }
    }

    /// Whether `rid` names a live handle.
    pub fn is_valid(&self, rid: usize) -> (b: bool)
        ensures
            b == spec_valid_handle(*self, rid),
    {
        rid < self.slots.len() && self.slots[rid].is_some()
    }

    /// The library behind a handle id, for the host to resolve symbols
    /// against; present exactly for live handles.
    pub fn library(&self, rid: usize) -> (r: Option<&dlopen::raw::Library>)
        ensures
            r is Some <==> spec_valid_handle(*self, rid),
    {
        if rid < self.slots.len() {
            self.slots[rid].as_ref()
        } else {
            None
        }
    }

    /// Registers a freshly loaded library, returning its new handle id.
    fn insert(&mut self, lib: dlopen::raw::Library) -> (rid: usize)
        ensures
            rid == old(self)@.len(),
            final(self)@ =~= old(self)@.push(true),
    {
        let rid = self.slots.len();
        self.slots.push(Some(lib));
        rid
    }

    /// Closes a handle: the library is dropped (unloaded) and the id goes
    /// dead.  Fails with `InvalidHandle` exactly when the id was not live,
    /// and then changes nothing.
    pub fn close(&mut self, rid: usize) -> (r: Result<(), FfiError>)
        ensures
            match r {
                Ok(()) => spec_valid_handle(*old(self), rid) && final(self)@ =~= old(
                    self,
                )@.update(rid as int, false),
                Err(e) => !spec_valid_handle(*old(self), rid) && e == FfiError::InvalidHandle
                    && final(self)@ =~= old(self)@,
            },
    {
        if rid < self.slots.len() && self.slots[rid].is_some() {
            self.slots.set(rid, None);
            Ok(())
        } else {
            Err(FfiError::InvalidHandle)
        }
    }
}

/// Opens the dynamic library at `path` under the host's permission
/// policy: the capability and read checks run first, and only then is the
/// loader touched.  On success the new handle id is returned and exactly
/// one slot was appended; on any failure — denial or load error — the
/// table is unchanged, so no handle entry is ever left behind.
pub fn open_library<P: FfiPermissions>(
    table: &mut HandleTable,
    permissions: &mut P,
    path: &str,
) -> (r: Result<usize, FfiError>)
    ensures
        match r {
            Ok(rid) => rid == old(table)@.len() && final(table)@ =~= old(table)@.push(true),
            Err(_) => final(table)@ =~= old(table)@,
        },
{
    match permissions.check() {
        Ok(()) => (),
        Err(e) => {
            return Err(e);
        },
    }
    match permissions.check_read(path) {
        Ok(()) => (),
        Err(e) => {
            return Err(e);
        },
    }
    match load_library(path) {
        Ok(lib) => Ok(table.insert(lib)),
        Err(diagnostic) => Err(FfiError::LibraryLoadError(diagnostic)),
    }
}

/// One argument of a call request, as it crosses the host boundary: the
/// declared type still textual, the value already classed.
#[derive(Debug, Clone)]
pub struct FfiArg {
    pub arg_type: String,
    pub value: DynamicValue,
}

/// A call request: the symbol to invoke, the arguments in call order, and
/// the declared return type.
#[derive(Debug, Clone)]
pub struct DlcallArgs {
    pub sym: String,
    pub args: Vec<FfiArg>,
    pub return_type: String,
}

/// Everything the host needs to perform the foreign call: the argument
/// cells and the call-interface descriptor, built from the same declared
/// types in the same order.
#[derive(Debug, PartialEq, Eq)]
pub struct CallPlan {
    pub cells: Vec<NativeCell>,
    pub iface: CallInterfaceDescriptor,
}

/// The resolved tag of one request argument's declared type name.
pub open spec fn spec_arg_tag(a: FfiArg) -> Option<TypeTag> {
    spec_tag_of_name(a.arg_type@)
}

/// A plan correctly derived from a request: the descriptor's argument
/// tags and the argument cells both mirror the request's arguments in
/// length and order, each cell extracted under its own declared tag, and
/// the descriptor's return tag is the declared one.
pub open spec fn spec_plan_ok(plan: CallPlan, req: DlcallArgs) -> bool {
    &&& spec_tag_of_name(req.return_type@) == Some(plan.iface.return_type)
    &&& plan.iface.arg_types@.len() == req.args@.len()
    &&& plan.cells@.len() == req.args@.len()
    &&& forall|i: int|
        0 <= i < req.args@.len() ==> #[trigger] spec_arg_tag(req.args@[i]) == Some(
            plan.iface.arg_types@[i],
        )
    &&& forall|i: int|
        0 <= i < req.args@.len() ==> Some(plan.cells@[i]) == #[trigger] spec_extract(
            spec_arg_tag(req.args@[i])->Some_0,
            req.args@[i].value,
        )
}

/// Validates a call request against the handle table and builds its call
/// plan.  Touches nothing native: the checks run in this order, each
/// reached only when the earlier ones passed —
/// an unknown handle id fails with `InvalidHandle`;
/// an unknown return type name, then an unknown argument type name (first
/// in call order), fails with `UnknownType` before any marshalling;
/// an incompatible value fails with `TypeMismatch` (first in call order);
/// and otherwise the plan is owed and correct.
pub fn prepare_call(table: &HandleTable, rid: usize, req: &DlcallArgs) -> (r: Result<
    CallPlan,
    FfiError,
>)
    ensures
        !spec_valid_handle(*table, rid) <==> r == Err::<CallPlan, FfiError>(
            FfiError::InvalidHandle,
        ),
        match r {
            Ok(plan) => spec_plan_ok(plan, *req),
            Err(e) => match e {
                FfiError::UnknownType(n) => spec_valid_handle(*table, rid) && (
                spec_tag_of_name(req.return_type@) is None ==> n@ == req.return_type@) && (
                spec_tag_of_name(req.return_type@) is Some ==> exists|i: int|
                    0 <= i < req.args@.len() && #[trigger] spec_arg_tag(req.args@[i]) is None
                        && n@ == req.args@[i].arg_type@ && forall|j: int|
                        0 <= j < i ==> #[trigger] spec_arg_tag(req.args@[j]) is Some),
                FfiError::TypeMismatch(tag) => spec_valid_handle(*table, rid)
                    && spec_tag_of_name(req.return_type@) is Some && exists|i: int|
                    0 <= i < req.args@.len() && (#[trigger] spec_arg_tag(req.args@[i]))
                        == Some(tag) && spec_extract(tag, req.args@[i].value) is None
                        && forall|j: int|
                        0 <= j < i ==> #[trigger] spec_arg_tag(req.args@[j]) is Some
                            && spec_extract(
                            spec_arg_tag(req.args@[j])->Some_0,
                            req.args@[j].value,
                        ) is Some,
                FfiError::InvalidHandle => !spec_valid_handle(*table, rid),
                _ => false,
            },
        },
{
    if !table.is_valid(rid) {
        return Err(FfiError::InvalidHandle);
    }
    let return_type = match resolve_type(&req.return_type) {
        Ok(t) => t,
        Err(e) => {
            return Err(e);
        },
    };
    let mut arg_types: Vec<TypeTag> = Vec::new();
    let mut specs: Vec<ArgumentSpec> = Vec::new();
    let mut k: usize = 0;
    while k < req.args.len()
        invariant
            spec_valid_handle(*table, rid),
            spec_tag_of_name(req.return_type@) == Some(return_type),
            0 <= k <= req.args@.len(),
            arg_types@.len() == k,
            specs@.len() == k,
            forall|i: int|
                0 <= i < k ==> #[trigger] spec_arg_tag(req.args@[i]) == Some(arg_types@[i]),
            forall|i: int|
                0 <= i < k ==> #[trigger] specs@[i] == (ArgumentSpec {
                    tag: spec_arg_tag(req.args@[i])->Some_0,
                    value: req.args@[i].value,
                }),
        decreases req.args@.len() - k,
    {
        let tag = match resolve_type(&req.args[k].arg_type) {
            Ok(t) => t,
            Err(e) => {
                proof {
                    assert(spec_arg_tag(req.args@[k as int]) is None);
                }
                return Err(e);
            },
        };
        arg_types.push(tag);
        specs.push(ArgumentSpec { tag, value: req.args[k].value });
        k = k + 1;
    }
    let cells = match build_arguments(&specs) {
        Ok(c) => c,
        Err(e) => {
            proof {
                let i0 = choose|i: int|
                    0 <= i < specs@.len() && #[trigger] spec_extract(
                        specs@[i].tag,
                        specs@[i].value,
                    ) is None && e == FfiError::TypeMismatch(specs@[i].tag) && forall|j: int|
                        0 <= j < i ==> #[trigger] spec_extract(specs@[j].tag, specs@[j].value)
                            is Some;
                assert(spec_arg_tag(req.args@[i0]) == Some(specs@[i0].tag));
                assert(spec_extract(specs@[i0].tag, req.args@[i0].value) is None);
                assert forall|j: int|
                    0 <= j < i0 implies #[trigger] spec_arg_tag(req.args@[j]) is Some
                        && spec_extract(
                        spec_arg_tag(req.args@[j])->Some_0,
                        req.args@[j].value,
                    ) is Some by {
                    assert(specs@[j] == (ArgumentSpec {
                        tag: spec_arg_tag(req.args@[j])->Some_0,
                        value: req.args@[j].value,
                    }));
                    assert(spec_extract(specs@[j].tag, specs@[j].value) is Some);
                }
            }
            return Err(e);
        },
    };
    proof {
        assert forall|i: int| 0 <= i < req.args@.len() implies Some(cells@[i])
            == #[trigger] spec_extract(spec_arg_tag(req.args@[i])->Some_0, req.args@[i].value) by {
            assert(specs@[i] == (ArgumentSpec {
                tag: spec_arg_tag(req.args@[i])->Some_0,
                value: req.args@[i].value,
            }));
            assert(Some(cells@[i]) == spec_extract(specs@[i].tag, specs@[i].value));
        }
    }
    Ok(CallPlan { cells, iface: build_interface(arg_types, return_type) })
}

/// The call entry point short of the foreign transfer itself: the
/// capability check runs first, and only when it allows is the request
/// validated and planned.  A plan is handed out only for a live handle
/// and a fully validated request.
pub fn plan_call<P: FfiPermissions>(
    table: &HandleTable,
    permissions: &mut P,
    rid: usize,
    req: &DlcallArgs,
) -> (r: Result<CallPlan, FfiError>)
    ensures
        r matches Ok(plan) ==> spec_plan_ok(plan, *req) && spec_valid_handle(*table, rid),
{
    match permissions.check() {
        Ok(()) => (),
        Err(e) => {
            return Err(e);
        },
    }
    prepare_call(table, rid, req)
}

} // verus!
