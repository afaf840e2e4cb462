//! The schema-to-dispatch expansion: from a validated taxonomy it emits, as
//! source text, one dispatching function per error type, with one branch per
//! variant. A branch matches the variant's shape-qualified pattern without
//! binding its payload and calls the runtime constructor with the variant's
//! application code, its full code, its client message, and the rendered
//! error value. The same branch logic is also offered directly at runtime as
//! a lookup over the schema, keyed by the variant's position.

use vstd::prelude::*;
use vstd::string::StringExecFns;

use crate::schema::{EnumVariants, ErrorData, SchemaData, VariantShape, full_code};
use crate::{ErrorInfo, FromCode};
use crate::encode::hash_text;

verus! {

/// The two construction policies a dispatcher can target: strict, where an
/// unreadable application code aborts, and fallible, where it comes back to
/// the dispatcher's caller as a typed failure.
#[derive(Clone, Copy, PartialEq, Eq, Structural)]
pub enum GenMode {
    Strict,
    Fallible,
}

/// Why a generation failed: the taxonomy's data shape is a record, not a
/// list of variants.
#[derive(Clone, Copy, Debug, PartialEq, Eq, Structural)]
pub enum GenError {
    NotAnEnum,
}

impl GenError {
    /// The descriptive text of the failure.
    pub fn message(&self) -> (r: String)
        ensures
            r@ == "only enum support"@,
    {
        "only enum support".to_owned()
    }
}

/// The constructor a dispatch branch calls under each policy.
pub open spec fn ctor_text(mode: GenMode) -> Seq<char> {
    match mode {
        GenMode::Strict => "ErrorInfo::new"@,
        GenMode::Fallible => "ErrorInfo::try_new"@,
    }
}

/// The pattern of one dispatch branch: the variant's path, qualified by its
/// shape, binding nothing of its payload.
pub open spec fn pattern_text(name: Seq<char>, v: EnumVariants) -> Seq<char> {
    match v.shape {
        VariantShape::Unit => name + "::"@ + v.ident@ + " { .. }"@,
        VariantShape::Tuple => name + "::"@ + v.ident@ + "(_)"@,
        VariantShape::Struct => name + "::"@ + v.ident@ + " { .. }"@,
    }
}

/// One dispatch branch: the pattern, then a constructor call carrying the
/// variant's application code, its full code with the prefix already in
/// front, its client message, and the rendered error value.
pub open spec fn arm_text(name: Seq<char>, prefix: Seq<char>, mode: GenMode, v: EnumVariants)
    -> Seq<char> {
    "            "@ + pattern_text(name, v) + " => "@ + ctor_text(mode) + "(\""@ + v.app_code@
        + "\", \""@ + prefix + v.code@ + "\".to_string(), \""@ + v.client_msg@
        + "\".to_string(), self.to_string()),\n"@
}

/// All dispatch branches, one per variant, in the schema's order.
pub open spec fn arms_text(name: Seq<char>, prefix: Seq<char>, mode: GenMode, vs: Seq<EnumVariants>)
    -> Seq<char>
    decreases vs.len(),
{
    if vs.len() == 0 {
        Seq::empty()
    } else {
        arms_text(name, prefix, mode, vs.drop_last()) + arm_text(name, prefix, mode, vs.last())
    }
}

/// The emitted strict dispatcher: an implementation of `ToErrorInfo` whose
/// `to_error_info` matches on the instance and runs the branch of its
/// variant. With no variants the match is empty and trivially exhaustive.
pub open spec fn strict_impl_text(d: ErrorData, vs: Seq<EnumVariants>) -> Seq<char> {
    "impl"@ + d.generics@ + " ToErrorInfo for "@ + d.ident@ + d.generics@ + " {\n    type T = "@
        + d.app_type@ + ";\n    fn to_error_info(&self) -> ErrorInfo<Self::T> {\n        match self {\n"@
        + arms_text(d.ident@, d.prefix@, GenMode::Strict, vs)
        + "        }\n    }\n}\n"@
}

/// The emitted fallible dispatcher: an inherent `try_to_error_info` of the
/// same branch logic, handing a failed conversion to its own caller.
pub open spec fn fallible_impl_text(d: ErrorData, vs: Seq<EnumVariants>) -> Seq<char> {
    "impl"@ + d.generics@ + " "@ + d.ident@ + d.generics@
        + " {\n    fn try_to_error_info(&self) -> Result<ErrorInfo<"@ + d.app_type@ + ">, <"@
        + d.app_type@ + " as FromCode>::Err> {\n        match self {\n"@
        + arms_text(d.ident@, d.prefix@, GenMode::Fallible, vs)
        + "        }\n    }\n}\n"@
}

/// What a successful generation emits for a schema under each policy.
pub open spec fn dispatcher_text(d: ErrorData, mode: GenMode) -> Seq<char> {
    match d.data {
        SchemaData::Enum(vs) => match mode {
            GenMode::Strict => strict_impl_text(d, vs@),
            GenMode::Fallible => fallible_impl_text(d, vs@),
        },
        SchemaData::Struct => Seq::empty(),
    }
}

/// Emits one dispatch branch.
fn emit_arm(name: &str, prefix: &str, mode: GenMode, v: &EnumVariants) -> (r: String)
    ensures
        r@ == arm_text(name@, prefix@, mode, *v),
{
    let mut out: String = "            ".to_owned();
    out.append(name);
    out.append("::");
    out.append(v.ident.as_str());
    match v.shape {
        VariantShape::Unit => out.append(" { .. }"),
        VariantShape::Tuple => out.append("(_)"),
        VariantShape::Struct => out.append(" { .. }"),
    }
    out.append(" => ");
    match mode {
        GenMode::Strict => out.append("ErrorInfo::new"),
        GenMode::Fallible => out.append("ErrorInfo::try_new"),
    }
    out.append("(\"");
    out.append(v.app_code.as_str());
    out.append("\", \"");
    out.append(prefix);
    out.append(v.code.as_str());
    out.append("\".to_string(), \"");
    out.append(v.client_msg.as_str());
    out.append("\".to_string(), self.to_string()),\n");
    proof {
        assert(out@ =~= arm_text(name@, prefix@, mode, *v));
    }
    out
}

/// Validates a taxonomy schema and expands it into dispatch source text
/// under the chosen policy. A schema whose data shape is a record fails with
/// a descriptive error and emits nothing; a variant list, even an empty one,
/// emits a complete dispatcher.
pub fn process_error_info(d: &ErrorData, mode: GenMode) -> (r: Result<String, GenError>)
    ensures
        r is Ok <==> d.data matches SchemaData::Enum(_),
        r matches Ok(text) ==> text@ == dispatcher_text(*d, mode),
        r matches Err(e) ==> e == GenError::NotAnEnum,
{
    let vs: &Vec<EnumVariants> = match &d.data {
        SchemaData::Enum(vs) => vs,
        SchemaData::Struct => {
            return Err(GenError::NotAnEnum);
        },
    };
    let mut arms: String = String::new();
    let mut i: usize = 0;
    while i < vs.len()
        invariant
            i <= vs.len(),
            arms@ == arms_text(d.ident@, d.prefix@, mode, vs@.take(i as int)),
            d.data matches SchemaData::Enum(vs2) && vs2 == vs,
        decreases vs.len() - i,
    {
        let arm = emit_arm(d.ident.as_str(), d.prefix.as_str(), mode, &vs[i]);
        arms.append(arm.as_str());
        proof {
            assert(vs@.take(i + 1 as int).drop_last() =~= vs@.take(i as int));
            assert(vs@.take(i + 1 as int).last() == vs@[i as int]);
        }
        i = i + 1;
    }
    proof {
        assert(vs@.take(vs@.len() as int) =~= vs@);
    }
    let mut out: String = "impl".to_owned();
    out.append(d.generics.as_str());
    match mode {
        GenMode::Strict => {
            out.append(" ToErrorInfo for ");
            out.append(d.ident.as_str());
            out.append(d.generics.as_str());
            out.append(" {\n    type T = ");
            out.append(d.app_type.as_str());
            out.append(";\n    fn to_error_info(&self) -> ErrorInfo<Self::T> {\n        match self {\n");
        },
        GenMode::Fallible => {
            out.append(" ");
            out.append(d.ident.as_str());
            out.append(d.generics.as_str());
            out.append(" {\n    fn try_to_error_info(&self) -> Result<ErrorInfo<");
            out.append(d.app_type.as_str());
            out.append(">, <");
            out.append(d.app_type.as_str());
            out.append(" as FromCode>::Err> {\n        match self {\n");
        },
    }
    out.append(arms.as_str());
    out.append("        }\n    }\n}\n");
    proof {
        assert(out@ =~= dispatcher_text(*d, mode));
    }
    Ok(out)
}

/// Runs one dispatch branch directly at runtime under the strict policy:
/// the record of the variant at `tag`, over the given rendering of the
/// instance. Its code is exactly the prefix followed by that variant's local
/// code, and its texts are that variant's, whichever variant is selected.
pub fn dispatch_strict<T: FromCode>(d: &ErrorData, tag: usize, server_msg: String) -> (r: ErrorInfo<
    T,
>)
    requires
        d.wf(),
        d.data matches SchemaData::Enum(vs) && tag < vs@.len(),
        d.data matches SchemaData::Enum(vs) ==> T::spec_parses(vs@[tag as int].app_code@),
    ensures
        d.data matches SchemaData::Enum(vs) ==> r.code@ == d.prefix@ + vs@[tag as int].code@
            && r.client_msg@ == vs@[tag as int].client_msg@ && r.server_msg@ == server_msg@
            && r.hash@ == hash_text(server_msg@) && r.wf(),
{
    let vs: &Vec<EnumVariants> = match &d.data {
        SchemaData::Enum(vs) => vs,
        SchemaData::Struct => vstd::pervasive::unreached(),
    };
    let v = &vs[tag];
    let code = full_code(d.prefix.as_str(), v.code.as_str());
    ErrorInfo::<T>::new(v.app_code.as_str(), code, v.client_msg.clone(), server_msg)
}

/// Runs one dispatch branch directly at runtime under the fallible policy:
/// as `dispatch_strict`, but an application code the status type cannot
/// read comes back as its parse error, and exactly then.
pub fn dispatch_fallible<T: FromCode>(d: &ErrorData, tag: usize, server_msg: String) -> (r: Result<
    ErrorInfo<T>,
    T::Err,
>)
    requires
        d.wf(),
        d.data matches SchemaData::Enum(vs) && tag < vs@.len(),
    ensures
        d.data matches SchemaData::Enum(vs) ==> ((r is Ok <==> T::spec_parses(
            vs@[tag as int].app_code@,
        )) && (r matches Ok(info) ==> info.code@ == d.prefix@ + vs@[tag as int].code@
            && info.client_msg@ == vs@[tag as int].client_msg@ && info.server_msg@ == server_msg@
            && info.hash@ == hash_text(server_msg@) && info.wf())),
{
    let vs: &Vec<EnumVariants> = match &d.data {
        SchemaData::Enum(vs) => vs,
        SchemaData::Struct => vstd::pervasive::unreached(),
    };
    let v = &vs[tag];
    let code = full_code(d.prefix.as_str(), v.code.as_str());
    ErrorInfo::<T>::try_new(v.app_code.as_str(), code, v.client_msg.clone(), server_msg)
}

} // verus!
