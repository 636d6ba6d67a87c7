//! The type-marshaling resolver: maps a semantic type to its C-ABI
//! representation and default transfer mode, honoring explicit overrides,
//! and validates the declarative configuration of one owning type.

use vstd::prelude::*;
use vstd::string::StringExecFns;

use crate::category::FfiType;
use crate::error::{DescriptorError, DescriptorErrorView};
use crate::semtype::{spec_is_primitive, SemType, SemTypeView};
use crate::transfer::TransferMode;

verus! {

/// An explicit C-type / transfer-mode pair, supplied where the semantic
/// type has no built-in marshaling rule.
#[derive(Debug)]
pub struct CTypeOverride {
    pub c_type: String,
    pub transfer: TransferMode,
}

/// The model of a `CTypeOverride`.
pub struct CTypeOverrideView {
    pub c_type: Seq<char>,
    pub transfer: TransferMode,
}

impl View for CTypeOverride {
    type V = CTypeOverrideView;

    open spec fn view(&self) -> CTypeOverrideView {
        CTypeOverrideView { c_type: self.c_type@, transfer: self.transfer }
    }
}

/// The transfer mode a mode keyword names, if any.
pub open spec fn spec_transfer_keyword(s: Seq<char>) -> Option<TransferMode> {
    if s == "primitive"@ {
        Some(TransferMode::Primitive)
    } else if s == "none"@ {
        Some(TransferMode::Borrowed)
    } else if s == "full"@ {
        Some(TransferMode::Owned)
    } else {
        None
    }
}

impl CTypeOverride {
    /// Build an override from its declared pieces: the C type text, the key
    /// of the following argument (which must be `transfer`), and the mode
    /// keyword (`primitive`, `none` or `full`).
    pub fn parse(c_type: &String, key: &String, mode: &String) -> (r: Result<
        CTypeOverride,
        DescriptorError,
    >)
        ensures
            match r {
                Ok(o) => key@ == "transfer"@ && o@.c_type == c_type@ && Some(o@.transfer)
                    == spec_transfer_keyword(mode@),
                Err(e) => if key@ != "transfer"@ {
                    e@ == (DescriptorErrorView::ExpectedTransferKeyword { found: key@ })
                } else {
                    spec_transfer_keyword(mode@) is None && e@
                        == (DescriptorErrorView::UnknownTransferMode { found: mode@ })
                },
            },
    {
        if *key != String::from_str("transfer") {
            return Err(DescriptorError::ExpectedTransferKeyword { found: key.clone() });
        }
        let transfer = if *mode == String::from_str("primitive") {
            TransferMode::Primitive
        } else if *mode == String::from_str("none") {
            TransferMode::Borrowed
        } else if *mode == String::from_str("full") {
            TransferMode::Owned
        } else {
            return Err(DescriptorError::UnknownTransferMode { found: mode.clone() });
        };
        Ok(CTypeOverride { c_type: c_type.clone(), transfer })
    }

}

/// The C-ABI representation a semantic type resolves to.
#[derive(Debug)]
pub enum CRepr {
    /// An ordinary value with a C type and a transfer mode.
    Value { c_type: String, mode: TransferMode },
    /// The empty type: no parameter, no return slot.
    Nothing,
    /// A location: a mutable pointer through which a primitive is read and
    /// written; no ownership crosses.
    Location { c_type: String },
}

/// The model of a `CRepr`.
pub enum CReprView {
    Value { c_type: Seq<char>, mode: TransferMode },
    Nothing,
    Location { c_type: Seq<char> },
}

impl View for CRepr {
    type V = CReprView;

    open spec fn view(&self) -> CReprView {
        match self {
            CRepr::Value { c_type, mode } => CReprView::Value { c_type: c_type@, mode: *mode },
            CRepr::Nothing => CReprView::Nothing,
            CRepr::Location { c_type } => CReprView::Location { c_type: c_type@ },
        }
    }
}

/// The C name of a primitive type: booleans become the native boolean
/// integer, numbers keep their width.
pub open spec fn spec_prim_c_name(t: SemTypeView) -> Seq<char> {
    match t {
        SemTypeView::Bool => "gboolean"@,
        SemTypeView::I8 => "i8"@,
        SemTypeView::U8 => "u8"@,
        SemTypeView::I16 => "i16"@,
        SemTypeView::U16 => "u16"@,
        SemTypeView::I32 => "i32"@,
        SemTypeView::U32 => "u32"@,
        SemTypeView::I64 => "i64"@,
        SemTypeView::U64 => "u64"@,
        _ => ""@,
    }
}

/// The built-in resolution of a semantic type with no override: its C type
/// and default transfer mode. `Option` resolves to its inner type's
/// representation, with the inner sentinel reserved to signal absence. A
/// mutable reference to a primitive is a location. A type outside the
/// built-in rules fails with the one user-facing error of this component.
pub open spec fn spec_resolve(t: SemTypeView) -> Result<CReprView, DescriptorErrorView>
    decreases t,
{
    match t {
        SemTypeView::Unit => Ok(CReprView::Nothing),
        SemTypeView::Bool | SemTypeView::I8 | SemTypeView::U8 | SemTypeView::I16
            | SemTypeView::U16 | SemTypeView::I32 | SemTypeView::U32 | SemTypeView::I64
            | SemTypeView::U64 => Ok(
            CReprView::Value { c_type: spec_prim_c_name(t), mode: TransferMode::Primitive },
        ),
        SemTypeView::Str | SemTypeView::Path | SemTypeView::GStr => Ok(
            CReprView::Value { c_type: "*mut c_char"@, mode: TransferMode::Owned },
        ),
        SemTypeView::ByteVec | SemTypeView::Bytes => Ok(
            CReprView::Value { c_type: "*mut GBytes"@, mode: TransferMode::Owned },
        ),
        SemTypeView::Variant => Ok(
            CReprView::Value { c_type: "*mut GVariant"@, mode: TransferMode::Owned },
        ),
        SemTypeView::StrList => Ok(
            CReprView::Value { c_type: "*mut GList"@, mode: TransferMode::Owned },
        ),
        SemTypeView::Opt(inner) => spec_resolve(*inner),
        SemTypeView::MutRef(inner) => if spec_is_primitive(*inner) {
            Ok(CReprView::Location { c_type: "*mut "@ + spec_prim_c_name(*inner) })
        } else {
            Err(
                DescriptorErrorView::NoMarshalingRule {
                    ty_name: crate::semtype::spec_rust_type_name(t),
                },
            )
        },
        SemTypeView::ResultOf(_) | SemTypeView::Named(_) => Err(
            DescriptorErrorView::NoMarshalingRule {
                ty_name: crate::semtype::spec_rust_type_name(t),
            },
        ),
    }
}

/// The C name of a primitive type.
fn prim_c_name(t: &SemType) -> (r: String)
    requires
        spec_is_primitive(t@),
    ensures
        r@ == spec_prim_c_name(t@),
{
    match t {
        SemType::Bool => String::from_str("gboolean"),
        _ => t.rust_type_name(),
    }
}

/// Resolve a semantic type to its C-ABI representation. An explicit
/// override always wins; otherwise the built-in rules of `spec_resolve`
/// apply.
pub fn resolve(t: &SemType, override_spec: Option<&CTypeOverride>) -> (r: Result<
    CRepr,
    DescriptorError,
>)
    ensures
        match override_spec {
            Some(o) => r matches Ok(c) && c@ == (CReprView::Value {
                c_type: o@.c_type,
                mode: o@.transfer,
            }),
            None => match (r, spec_resolve(t@)) {
                (Ok(c), Ok(s)) => c@ == s,
                (Err(e), Err(s)) => e@ == s,
                _ => false,
            },
        },
    decreases *t,
{
    if let Some(o) = override_spec {
        return Ok(CRepr::Value { c_type: o.c_type.clone(), mode: o.transfer });
    }
    match t {
        SemType::Unit => Ok(CRepr::Nothing),
        SemType::Bool => Ok(
            CRepr::Value { c_type: String::from_str("gboolean"), mode: TransferMode::Primitive },
        ),
        SemType::I8 | SemType::U8 | SemType::I16 | SemType::U16 | SemType::I32 | SemType::U32
            | SemType::I64 | SemType::U64 => {
            let name = t.rust_type_name();
            proof {
                assert(name@ == spec_prim_c_name(t@));
            }
            Ok(CRepr::Value { c_type: name, mode: TransferMode::Primitive })
        },
        SemType::Str | SemType::Path | SemType::GStr => Ok(
            CRepr::Value { c_type: String::from_str("*mut c_char"), mode: TransferMode::Owned },
        ),
        SemType::ByteVec | SemType::Bytes => Ok(
            CRepr::Value { c_type: String::from_str("*mut GBytes"), mode: TransferMode::Owned },
        ),
        SemType::Variant => Ok(
            CRepr::Value { c_type: String::from_str("*mut GVariant"), mode: TransferMode::Owned },
        ),
        SemType::StrList => Ok(
            CRepr::Value { c_type: String::from_str("*mut GList"), mode: TransferMode::Owned },
        ),
        SemType::Opt(inner) => resolve(inner, None),
        SemType::MutRef(inner) => {
            if inner.is_primitive() {
                let mut s = String::from_str("*mut ");
                let n = prim_c_name(inner);
                s.append(n.as_str());
                proof {
                    assert(s@ =~= "*mut "@ + spec_prim_c_name(inner@));
                }
                Ok(CRepr::Location { c_type: s })
            } else {
                Err(DescriptorError::NoMarshalingRule { ty_name: t.rust_type_name() })
            }
        },
        SemType::ResultOf(_) | SemType::Named(_) => Err(
            DescriptorError::NoMarshalingRule { ty_name: t.rust_type_name() },
        ),
    }
}

/// The declarative configuration of one owning type: an optional explicit
/// C type name, an optional namespace prefix, and the receiver category.
/// The category has no implicit fallback in the data model; parsing the
/// configuration supplies `Object` only as the documented default.
#[derive(Debug)]
pub struct FfiImplArgs {
    pub c_type_name: Option<String>,
    pub prefix: String,
    pub ty: FfiType,
}

/// The model of an `FfiImplArgs`.
pub struct FfiImplArgsView {
    pub c_type_name: Option<Seq<char>>,
    pub prefix: Seq<char>,
    pub ty: FfiType,
}

impl View for FfiImplArgs {
    type V = FfiImplArgsView;

    open spec fn view(&self) -> FfiImplArgsView {
        FfiImplArgsView {
            c_type_name: match &self.c_type_name {
                Some(n) => Some(n@),
                None => None,
            },
            prefix: self.prefix@,
            ty: self.ty,
        }
    }
}

/// The configuration before any key is read: no explicit C type name, an
/// empty prefix, and the `object` category.
pub open spec fn spec_default_args() -> FfiImplArgsView {
    FfiImplArgsView { c_type_name: None, prefix: Seq::empty(), ty: FfiType::Object }
}

/// The receiver category a keyword names, if any.
pub open spec fn spec_category_keyword(s: Seq<char>) -> Option<FfiType> {
    if s == "object"@ {
        Some(FfiType::Object)
    } else if s == "boxed"@ {
        Some(FfiType::Boxed)
    } else if s == "shared"@ {
        Some(FfiType::Shared)
    } else if s == "enum"@ {
        Some(FfiType::Enum)
    } else if s == "flags"@ {
        Some(FfiType::Flags)
    } else {
        None
    }
}

/// One key/value pair applied to a partial configuration; a later key
/// overrides an earlier one.
pub open spec fn spec_args_step(
    acc: FfiImplArgsView,
    key: Seq<char>,
    value: Seq<char>,
) -> Result<FfiImplArgsView, DescriptorErrorView> {
    if key == "c_type_name"@ {
        Ok(FfiImplArgsView { c_type_name: Some(value), prefix: acc.prefix, ty: acc.ty })
    } else if key == "prefix"@ {
        Ok(FfiImplArgsView { c_type_name: acc.c_type_name, prefix: value, ty: acc.ty })
    } else if key == "ty"@ {
        match spec_category_keyword(value) {
            Some(t) => Ok(
                FfiImplArgsView { c_type_name: acc.c_type_name, prefix: acc.prefix, ty: t },
            ),
            None => Err(DescriptorErrorView::UnknownCategory { found: value }),
        }
    } else {
        Err(DescriptorErrorView::UnknownArgumentKey { found: key })
    }
}

/// The configuration read from the pairs at and after position `i`,
/// starting from the partial configuration `acc`.
pub open spec fn spec_parse_args_from(
    pairs: Seq<(Seq<char>, Seq<char>)>,
    i: int,
    acc: FfiImplArgsView,
) -> Result<FfiImplArgsView, DescriptorErrorView>
    decreases pairs.len() - i,
{
    if i < 0 || i >= pairs.len() {
        Ok(acc)
    } else {
        match spec_args_step(acc, pairs[i].0, pairs[i].1) {
            Ok(a) => spec_parse_args_from(pairs, i + 1, a),
            Err(e) => Err(e),
        }
    }
}

/// The configuration read from a whole key/value list.
pub open spec fn spec_parse_args(pairs: Seq<(Seq<char>, Seq<char>)>) -> Result<
    FfiImplArgsView,
    DescriptorErrorView,
> {
    spec_parse_args_from(pairs, 0, spec_default_args())
}

impl FfiImplArgs {
    /// Read the configuration from its declared key/value pairs. Keys are
    /// `c_type_name`, `prefix` and `ty`; any other key, or a `ty` value
    /// naming no category, is a descriptor error.
    pub fn parse(pairs: &Vec<(String, String)>) -> (r: Result<FfiImplArgs, DescriptorError>)
        ensures
            match (r, spec_parse_args(pairs.deep_view())) {
                (Ok(a), Ok(s)) => a@ == s,
                (Err(e), Err(s)) => e@ == s,
                _ => false,
            },
    {
        let ghost pv = pairs.deep_view();
        let mut acc = FfiImplArgs {
            c_type_name: None,
            prefix: String::new(),
            ty: FfiType::Object,
        };
        proof {
            assert(acc@ == spec_default_args());
        }
        let mut i: usize = 0;
        while i < pairs.len()
            invariant
                i <= pairs.len(),
                pv == pairs.deep_view(),
                spec_parse_args(pv) == spec_parse_args_from(pv, i as int, acc@),
            decreases pairs.len() - i,
        {
            let key = &pairs[i].0;
            let value = &pairs[i].1;
            proof {
                assert(pv[i as int].0 == key@ && pv[i as int].1 == value@);
            }
            if *key == String::from_str("c_type_name") {
                acc.c_type_name = Some(value.clone());
            } else if *key == String::from_str("prefix") {
                acc.prefix = value.clone();
            } else if *key == String::from_str("ty") {
                if *value == String::from_str("object") {
                    acc.ty = FfiType::Object;
                } else if *value == String::from_str("boxed") {
                    acc.ty = FfiType::Boxed;
                } else if *value == String::from_str("shared") {
                    acc.ty = FfiType::Shared;
                } else if *value == String::from_str("enum") {
                    acc.ty = FfiType::Enum;
                } else if *value == String::from_str("flags") {
                    acc.ty = FfiType::Flags;
                } else {
                    return Err(DescriptorError::UnknownCategory { found: value.clone() });
                }
            } else {
                return Err(DescriptorError::UnknownArgumentKey { found: key.clone() });
            }
            i = i + 1;
        }
        Ok(acc)
    }

    /// The C type name of the owning type: the explicit name where one was
    /// given, the owning type's own name otherwise. An empty type name
    /// cannot stand in generated identifiers and is a descriptor error.
    pub fn get_c_type_name(&self, rust_type: &String) -> (r: Result<String, DescriptorError>)
        ensures
            match r {
                Ok(s) => match self@.c_type_name {
                    Some(n) => s@ == n,
                    None => rust_type@.len() > 0 && s@ == rust_type@,
                },
                Err(e) => self@.c_type_name is None && rust_type@.len() == 0 && e@
                    == DescriptorErrorView::MissingTypeName,
            },
    {
        match &self.c_type_name {
            Some(name) => Ok(name.clone()),
            None => {
                if *rust_type == String::new() {
                    Err(DescriptorError::MissingTypeName)
                } else {
                    proof {
                        if rust_type@.len() == 0 {
                            assert(rust_type@ =~= Seq::<char>::empty());
                        }
                    }
                    Ok(rust_type.clone())
                }
            },
        }
    }
}

} // verus!
