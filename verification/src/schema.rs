//! The parsed taxonomy schema: the identity of the error type being
//! described, the status type its application codes convert into, the
//! taxonomy-wide prefix, and one entry per variant with its local code and
//! optional texts. The schema arrives already structured from whatever reads
//! the annotation syntax; it is immutable from here on.

use vstd::prelude::*;
use vstd::string::StringExecFns;

verus! {

/// The data shape of one variant: no payload, a single unnamed payload, or
/// named fields. Dispatch matches on the shape without binding the payload.
#[derive(Clone, Copy, PartialEq, Eq, Structural)]
pub enum VariantShape {
    Unit,
    Tuple,
    Struct,
}

/// One variant of the taxonomy: its name, its data shape, its local code,
/// and its application code and client message, both empty when undeclared.
pub struct EnumVariants {
    pub ident: String,
    pub shape: VariantShape,
    pub code: String,
    pub app_code: String,
    pub client_msg: String,
}

/// The data shape of the whole taxonomy: a list of variants, or a single
/// record of named fields, which the generator rejects.
pub enum SchemaData {
    Enum(Vec<EnumVariants>),
    Struct,
}

/// The whole taxonomy description.
pub struct ErrorData {
    pub ident: String,
    pub generics: String,
    pub data: SchemaData,
    pub app_type: String,
    pub prefix: String,
}

impl ErrorData {
    /// The schema invariant: every declared variant carries a non-empty
    /// local code.
    pub open spec fn wf(&self) -> bool {
        match self.data {
            SchemaData::Enum(vs) => forall|i: int|
                0 <= i < vs@.len() ==> (#[trigger] vs@[i]).code@.len() > 0,
            SchemaData::Struct => true,
        }
    }
}

/// The full code of a variant: the taxonomy prefix concatenated directly
/// with the variant's local code, no separator.
pub fn full_code(prefix: &str, local: &str) -> (r: String)
    ensures
        r@ == prefix@ + local@,
{
    let mut out: String = prefix.to_owned();
    out.append(local);
    out
}

} // verus!
