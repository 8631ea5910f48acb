//! Signature validation for the stateless authoring style.
//!
//! A peripheral with no per-instance heap state marks four plain
//! functions as its `init`, `read`, `write` and `drop` entry points; each
//! marked function must match one fixed signature exactly, and a mismatch
//! is a hard generation-time failure naming the expected signature. This
//! module holds that validation over a plain model of a function
//! signature; the generation step itself parses source tokens into
//! [`FnSig`] values and re-exports the function verbatim only when its
//! validator accepts.

use vstd::prelude::*;
use vstd::string::StringSliceAdditionalSpecFns;

verus! {

/// The shape of a type, as far as validation inspects it: a path that is
/// a single identifier, a tuple, or anything else.
pub enum TypeShape {
    Ident(Vec<u8>),
    Tuple(Vec<TypeShape>),
    Other,
}

/// One parameter: a `self` receiver, or a typed argument.
pub enum ParamShape {
    Receiver,
    Typed(TypeShape),
}

/// The return part of a signature: absent, or an explicit type.
pub enum ReturnShape {
    Default,
    Ty(TypeShape),
}

/// A function signature, as far as validation inspects it.
pub struct FnSig {
    /// Declared with `unsafe` (module-level storage access requires it).
    pub is_unsafe: bool,
    /// The function's name, as identifier bytes.
    pub ident: Vec<u8>,
    /// Default (inherited) visibility, with no `pub` modifier.
    pub inherited_visibility: bool,
    /// Has a variadic `...` parameter.
    pub variadic: bool,
    /// Has an explicit calling-convention override (`extern "..."`).
    pub abi_override: bool,
    /// Number of generic parameters.
    pub generic_params: usize,
    /// Has a `where` clause.
    pub where_clause: bool,
    /// The parameters, in order.
    pub inputs: Vec<ParamShape>,
    /// The return part.
    pub output: ReturnShape,
}

/// Whether `t` is the bare `u8` type.
pub open spec fn is_u8_shape(t: TypeShape) -> bool {
    t matches TypeShape::Ident(id) && id@ == ("u8").spec_bytes()
}

/// Whether `p` is a plain parameter of type `u8`.
pub open spec fn is_u8_param(p: ParamShape) -> bool {
    p matches ParamShape::Typed(t) && is_u8_shape(t)
}

/// Whether the output is nothing or the empty tuple.
pub open spec fn is_unit_output(o: ReturnShape) -> bool {
    match o {
        ReturnShape::Default => true,
        ReturnShape::Ty(t) => t matches TypeShape::Tuple(elems) && elems@.len() == 0,
    }
}

/// Whether the output is `u8`, directly or as the sole element of a
/// one-element tuple.
pub open spec fn is_u8_output(o: ReturnShape) -> bool {
    match o {
        ReturnShape::Default => false,
        ReturnShape::Ty(t) => is_u8_shape(t) || (t matches TypeShape::Tuple(elems)
            && elems@.len() == 1 && is_u8_shape(elems@[0])),
    }
}

/// The structural constraints shared by all four markers: unchecked
/// (`unsafe`) semantics, default visibility, no variadics, no calling
/// convention override, and no generic parameters.
pub open spec fn common_shape_ok(sig: FnSig) -> bool {
    &&& sig.is_unsafe
    &&& sig.inherited_visibility
    &&& !sig.variadic
    &&& !sig.abi_override
    &&& sig.generic_params == 0
    &&& !sig.where_clause
}

/// The required shape of the stateless `init` entry point:
/// `unsafe fn init(u8)`.
pub open spec fn init_shape_ok(sig: FnSig) -> bool {
    &&& common_shape_ok(sig)
    &&& sig.ident@ == ("init").spec_bytes()
    &&& sig.inputs@.len() == 1
    &&& is_u8_param(sig.inputs@[0])
    &&& is_unit_output(sig.output)
}

/// The required shape of the stateless `read` entry point:
/// `unsafe fn read(u8) -> u8`.
pub open spec fn read_shape_ok(sig: FnSig) -> bool {
    &&& common_shape_ok(sig)
    &&& sig.ident@ == ("read").spec_bytes()
    &&& sig.inputs@.len() == 1
    &&& is_u8_param(sig.inputs@[0])
    &&& is_u8_output(sig.output)
}

/// The required shape of the stateless `write` entry point:
/// `unsafe fn write(u8, u8)`.
pub open spec fn write_shape_ok(sig: FnSig) -> bool {
    &&& common_shape_ok(sig)
    &&& sig.ident@ == ("write").spec_bytes()
    &&& sig.inputs@.len() == 2
    &&& is_u8_param(sig.inputs@[0])
    &&& is_u8_param(sig.inputs@[1])
    &&& is_unit_output(sig.output)
}

/// The required shape of the stateless `drop` entry point:
/// `unsafe fn drop()`.
pub open spec fn drop_shape_ok(sig: FnSig) -> bool {
    &&& common_shape_ok(sig)
    &&& sig.ident@ == ("drop").spec_bytes()
    &&& sig.inputs@.len() == 0
    &&& is_unit_output(sig.output)
}

/// Compares two byte strings.
pub fn bytes_eq(a: &Vec<u8>, b: &Vec<u8>) -> (r: bool)
    ensures
        r == (a@ == b@),
{
    if a.len() != b.len() {
        return false;
    }
    let mut i: usize = 0;
    while i < a.len()
        invariant
            i <= a@.len(),
            a@.len() == b@.len(),
            forall|j: int| 0 <= j < i ==> a@[j] == b@[j],
        decreases a@.len() - i,
    {
        if a[i] != b[i] {
            return false;
        }
        i = i + 1;
    }
    proof {
        assert(a@ =~= b@);
    }
    true
}

/// Whether the function's name is the given marker name.
fn ident_is(sig: &FnSig, name: &str) -> (r: bool)
    ensures
        r == (sig.ident@ == name.spec_bytes()),
{
    let expected = name.as_bytes_vec();
    bytes_eq(&sig.ident, &expected)
}

fn common_ok(sig: &FnSig) -> (r: bool)
    ensures
        r == common_shape_ok(*sig),
{
    sig.is_unsafe && sig.inherited_visibility && !sig.variadic && !sig.abi_override
        && sig.generic_params == 0 && !sig.where_clause
}

fn is_u8_type(t: &TypeShape) -> (r: bool)
    ensures
        r == is_u8_shape(*t),
{
    match t {
        TypeShape::Ident(id) => {
            let expected = ("u8").as_bytes_vec();
            bytes_eq(id, &expected)
        },
        _ => false,
    }
}

fn is_u8_param_exec(p: &ParamShape) -> (r: bool)
    ensures
        r == is_u8_param(*p),
{
    match p {
        ParamShape::Typed(t) => is_u8_type(t),
        _ => false,
    }
}

fn is_unit_output_exec(o: &ReturnShape) -> (r: bool)
    ensures
        r == is_unit_output(*o),
{
    match o {
        ReturnShape::Default => true,
        ReturnShape::Ty(TypeShape::Tuple(elems)) => elems.len() == 0,
        _ => false,
    }
}

fn is_u8_output_exec(o: &ReturnShape) -> (r: bool)
    ensures
        r == is_u8_output(*o),
{
    match o {
        ReturnShape::Default => false,
        ReturnShape::Ty(t) => {
            if is_u8_type(t) {
                true
            } else {
                match t {
                    TypeShape::Tuple(elems) => elems.len() == 1 && is_u8_type(&elems[0]),
                    _ => false,
                }
            }
        },
    }
}

/// Validates a function marked as the stateless `init` entry point; a
/// mismatch fails with the exact expected signature.
pub fn validate_init(sig: &FnSig) -> (r: Result<(), String>)
    ensures
        r is Ok <==> init_shape_ok(*sig),
        r matches Err(m) ==> m@ == ("expected a function signature of `unsafe fn init(u8)`")@,
{
    let ok = common_ok(sig) && ident_is(sig, "init") && sig.inputs.len() == 1 && is_u8_param_exec(
        &sig.inputs[0],
    ) && is_unit_output_exec(&sig.output);
    if ok {
        Ok(())
    } else {
        Err(("expected a function signature of `unsafe fn init(u8)`").to_owned())
    }
}

/// Validates a function marked as the stateless `read` entry point.
pub fn validate_read(sig: &FnSig) -> (r: Result<(), String>)
    ensures
        r is Ok <==> read_shape_ok(*sig),
        r matches Err(m) ==> m@ == ("expected a function signature of `unsafe fn read(u8) -> u8`")@,
{
    let ok = common_ok(sig) && ident_is(sig, "read") && sig.inputs.len() == 1 && is_u8_param_exec(
        &sig.inputs[0],
    ) && is_u8_output_exec(&sig.output);
    if ok {
        Ok(())
    } else {
        Err(("expected a function signature of `unsafe fn read(u8) -> u8`").to_owned())
    }
}

/// Validates a function marked as the stateless `write` entry point.
pub fn validate_write(sig: &FnSig) -> (r: Result<(), String>)
    ensures
        r is Ok <==> write_shape_ok(*sig),
        r matches Err(m) ==> m@ == ("expected a function signature of `unsafe fn write(u8, u8)`")@,
{
    let ok = common_ok(sig) && ident_is(sig, "write") && sig.inputs.len() == 2 && is_u8_param_exec(
        &sig.inputs[0],
    ) && is_u8_param_exec(&sig.inputs[1]) && is_unit_output_exec(&sig.output);
    if ok {
        Ok(())
    } else {
        Err(("expected a function signature of `unsafe fn write(u8, u8)`").to_owned())
    }
}

/// Validates a function marked as the stateless `drop` entry point.
pub fn validate_drop(sig: &FnSig) -> (r: Result<(), String>)
    ensures
        r is Ok <==> drop_shape_ok(*sig),
        r matches Err(m) ==> m@ == ("expected a function signature of `unsafe fn drop()`")@,
{
    let ok = common_ok(sig) && ident_is(sig, "drop") && sig.inputs.len() == 0
        && is_unit_output_exec(&sig.output);
    if ok {
        Ok(())
    } else {
        Err(("expected a function signature of `unsafe fn drop()`").to_owned())
    }
}

} // verus!
