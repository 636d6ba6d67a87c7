//! The semantic value types that can cross the boundary, and their mapping
//! to C-ABI type text.

use vstd::prelude::*;
use vstd::string::StringExecFns;

verus! {

/// A semantic value type as it appears in a method signature.
pub enum SemType {
    /// The empty type: no parameter, no return value.
    Unit,
    /// Boolean, marshaled as a fixed-width integer.
    Bool,
    I8,
    U8,
    I16,
    U16,
    I32,
    U32,
    I64,
    U64,
    /// Owned textual string.
    Str,
    /// Filesystem path, marshaled like a string.
    Path,
    /// The native string type of the managed runtime.
    GStr,
    /// Byte sequence `Vec<u8>`, marshaled as a refcounted byte buffer.
    ByteVec,
    /// The native refcounted byte-buffer type.
    Bytes,
    /// The native structured-value type.
    Variant,
    /// Sequence of strings, marshaled as a native list.
    StrList,
    /// `Option` of an inner type; absence is signaled by the inner sentinel.
    Opt(Box<SemType>),
    /// Mutable reference to an inner type; a location crosses, not a value.
    MutRef(Box<SemType>),
    /// Fallible result carrying a success payload; the error side is the
    /// runtime's error-information object.
    ResultOf(Box<SemType>),
    /// An externally-defined type with no built-in marshaling rule; it needs
    /// an explicit transfer override. The text is the type as written.
    Named(String),
}

/// The mathematical model of a `SemType`: the same shape over `Seq<char>`.
pub enum SemTypeView {
    Unit,
    Bool,
    I8,
    U8,
    I16,
    U16,
    I32,
    U32,
    I64,
    U64,
    Str,
    Path,
    GStr,
    ByteVec,
    Bytes,
    Variant,
    StrList,
    Opt(Box<SemTypeView>),
    MutRef(Box<SemTypeView>),
    ResultOf(Box<SemTypeView>),
    Named(Seq<char>),
}

/// The model of a semantic type: the same shape over `Seq<char>`.
pub open spec fn sem_view(t: SemType) -> SemTypeView
    decreases t,
{
    match t {
        SemType::Unit => SemTypeView::Unit,
        SemType::Bool => SemTypeView::Bool,
        SemType::I8 => SemTypeView::I8,
        SemType::U8 => SemTypeView::U8,
        SemType::I16 => SemTypeView::I16,
        SemType::U16 => SemTypeView::U16,
        SemType::I32 => SemTypeView::I32,
        SemType::U32 => SemTypeView::U32,
        SemType::I64 => SemTypeView::I64,
        SemType::U64 => SemTypeView::U64,
        SemType::Str => SemTypeView::Str,
        SemType::Path => SemTypeView::Path,
        SemType::GStr => SemTypeView::GStr,
        SemType::ByteVec => SemTypeView::ByteVec,
        SemType::Bytes => SemTypeView::Bytes,
        SemType::Variant => SemTypeView::Variant,
        SemType::StrList => SemTypeView::StrList,
        SemType::Opt(inner) => SemTypeView::Opt(Box::new(sem_view(*inner))),
        SemType::MutRef(inner) => SemTypeView::MutRef(Box::new(sem_view(*inner))),
        SemType::ResultOf(inner) => SemTypeView::ResultOf(Box::new(sem_view(*inner))),
        SemType::Named(s) => SemTypeView::Named(s@),
    }
}

impl View for SemType {
    type V = SemTypeView;

    open spec fn view(&self) -> SemTypeView {
        sem_view(*self)
    }
}

/// Whether the type is a primitive: copied by value, never owned across the
/// boundary.
pub open spec fn spec_is_primitive(t: SemTypeView) -> bool {
    match t {
        SemTypeView::Bool => true,
        SemTypeView::I8 => true,
        SemTypeView::U8 => true,
        SemTypeView::I16 => true,
        SemTypeView::U16 => true,
        SemTypeView::I32 => true,
        SemTypeView::U32 => true,
        SemTypeView::I64 => true,
        SemTypeView::U64 => true,
        _ => false,
    }
}

/// The Rust-source name of a semantic type, as the emitted wrapper text
/// spells it.
pub open spec fn spec_rust_type_name(t: SemTypeView) -> Seq<char>
    decreases t,
{
    match t {
        SemTypeView::Unit => "()"@,
        SemTypeView::Bool => "bool"@,
        SemTypeView::I8 => "i8"@,
        SemTypeView::U8 => "u8"@,
        SemTypeView::I16 => "i16"@,
        SemTypeView::U16 => "u16"@,
        SemTypeView::I32 => "i32"@,
        SemTypeView::U32 => "u32"@,
        SemTypeView::I64 => "i64"@,
        SemTypeView::U64 => "u64"@,
        SemTypeView::Str => "String"@,
        SemTypeView::Path => "PathBuf"@,
        SemTypeView::GStr => "::glib::GString"@,
        SemTypeView::ByteVec => "Vec<u8>"@,
        SemTypeView::Bytes => "::glib::Bytes"@,
        SemTypeView::Variant => "::glib::Variant"@,
        SemTypeView::StrList => "Vec<String>"@,
        SemTypeView::Opt(inner) => "Option<"@ + spec_rust_type_name(*inner) + ">"@,
        SemTypeView::MutRef(inner) => "&mut "@ + spec_rust_type_name(*inner),
        SemTypeView::ResultOf(inner) => "Result<"@ + spec_rust_type_name(*inner)
            + ", ::glib::Error>"@,
        SemTypeView::Named(s) => s,
    }
}

/// The C-ABI type text of a semantic type: a mutable pointer for a location,
/// the conversion trait's associated C type otherwise; an `Option` uses its
/// inner type's C representation.
pub open spec fn spec_c_type(t: SemTypeView) -> Seq<char>
    decreases t,
{
    match t {
        SemTypeView::MutRef(inner) => "*mut "@ + spec_c_type(*inner),
        SemTypeView::Opt(inner) => "<"@ + spec_rust_type_name(*inner)
            + " as ::gobject_ffi::FfiConvert>::CType"@,
        _ => "<"@ + spec_rust_type_name(t) + " as ::gobject_ffi::FfiConvert>::CType"@,
    }
}

impl SemType {
    /// A structural copy of the type.
    pub fn duplicate(&self) -> (r: SemType)
        ensures
            r@ == self@,
        decreases *self,
    {
        match self {
            SemType::Unit => SemType::Unit,
            SemType::Bool => SemType::Bool,
            SemType::I8 => SemType::I8,
            SemType::U8 => SemType::U8,
            SemType::I16 => SemType::I16,
            SemType::U16 => SemType::U16,
            SemType::I32 => SemType::I32,
            SemType::U32 => SemType::U32,
            SemType::I64 => SemType::I64,
            SemType::U64 => SemType::U64,
            SemType::Str => SemType::Str,
            SemType::Path => SemType::Path,
            SemType::GStr => SemType::GStr,
            SemType::ByteVec => SemType::ByteVec,
            SemType::Bytes => SemType::Bytes,
            SemType::Variant => SemType::Variant,
            SemType::StrList => SemType::StrList,
            SemType::Opt(inner) => SemType::Opt(Box::new(inner.duplicate())),
            SemType::MutRef(inner) => SemType::MutRef(Box::new(inner.duplicate())),
            SemType::ResultOf(inner) => SemType::ResultOf(Box::new(inner.duplicate())),
            SemType::Named(s) => SemType::Named(s.clone()),
        }
    }

    /// Whether the type is a primitive copied by value.
    pub fn is_primitive(&self) -> (r: bool)
        ensures
            r == spec_is_primitive(self@),
    {
        match self {
            SemType::Bool => true,
            SemType::I8 => true,
            SemType::U8 => true,
            SemType::I16 => true,
            SemType::U16 => true,
            SemType::I32 => true,
            SemType::U32 => true,
            SemType::I64 => true,
            SemType::U64 => true,
            _ => false,
        }
    }

    /// The Rust-source name of the type as the emitted text spells it.
    pub fn rust_type_name(&self) -> (r: String)
        ensures
            r@ == spec_rust_type_name(self@),
        decreases *self,
    {
        match self {
            SemType::Unit => String::from_str("()"),
            SemType::Bool => String::from_str("bool"),
            SemType::I8 => String::from_str("i8"),
            SemType::U8 => String::from_str("u8"),
            SemType::I16 => String::from_str("i16"),
            SemType::U16 => String::from_str("u16"),
            SemType::I32 => String::from_str("i32"),
            SemType::U32 => String::from_str("u32"),
            SemType::I64 => String::from_str("i64"),
            SemType::U64 => String::from_str("u64"),
            SemType::Str => String::from_str("String"),
            SemType::Path => String::from_str("PathBuf"),
            SemType::GStr => String::from_str("::glib::GString"),
            SemType::ByteVec => String::from_str("Vec<u8>"),
            SemType::Bytes => String::from_str("::glib::Bytes"),
            SemType::Variant => String::from_str("::glib::Variant"),
            SemType::StrList => String::from_str("Vec<String>"),
            SemType::Opt(inner) => {
                let mut s = String::from_str("Option<");
                let i = inner.rust_type_name();
                s.append(i.as_str());
                s.append(">");
                proof {
                    assert(s@ =~= spec_rust_type_name(self@));
                }
                s
            },
            SemType::MutRef(inner) => {
                let mut s = String::from_str("&mut ");
                let i = inner.rust_type_name();
                s.append(i.as_str());
                proof {
                    assert(s@ =~= spec_rust_type_name(self@));
                }
                s
            },
            SemType::ResultOf(inner) => {
                let mut s = String::from_str("Result<");
                let i = inner.rust_type_name();
                s.append(i.as_str());
                s.append(", ::glib::Error>");
                proof {
                    assert(s@ =~= spec_rust_type_name(self@));
                }
                s
            },
            SemType::Named(s) => s.clone(),
        }
    }
}

/// Whether the type is the empty type.
pub fn is_unit_type(t: &SemType) -> (r: bool)
    ensures
        r == (t@ is Unit),
{
    match t {
        SemType::Unit => true,
        _ => false,
    }
}

/// Whether the declared return type is a two-variant success/error result.
pub fn is_result_type(t: &SemType) -> (r: bool)
    ensures
        r == (t@ is ResultOf),
{
    match t {
        SemType::ResultOf(_) => true,
        _ => false,
    }
}

/// The inner type of an `Option`, if the type is one.
pub fn extract_option_inner(t: &SemType) -> (r: Option<&SemType>)
    ensures
        match r {
            Some(inner) => t@ matches SemTypeView::Opt(b) && inner@ == *b,
            None => !(t@ is Opt),
        },
{
    match t {
        SemType::Opt(inner) => Some(&**inner),
        _ => None,
    }
}

/// Whether the type is a mutable reference.
pub fn is_mutable_reference(t: &SemType) -> (r: bool)
    ensures
        r == (t@ is MutRef),
{
    match t {
        SemType::MutRef(_) => true,
        _ => false,
    }
}

/// The referent type of a mutable reference, if the type is one.
pub fn extract_mut_ref_inner(t: &SemType) -> (r: Option<&SemType>)
    ensures
        match r {
            Some(inner) => t@ matches SemTypeView::MutRef(b) && inner@ == *b,
            None => !(t@ is MutRef),
        },
{
    match t {
        SemType::MutRef(inner) => Some(&**inner),
        _ => None,
    }
}

/// The success payload of a fallible return type, or the empty type where
/// the return type is not a result.
pub fn extract_result_ok_type_as_type(t: &SemType) -> (r: SemType)
    ensures
        r@ == (match t@ {
            SemTypeView::ResultOf(b) => *b,
            _ => SemTypeView::Unit,
        }),
{
    match t {
        SemType::ResultOf(inner) => inner.duplicate(),
        _ => SemType::Unit,
    }
}

/// Whether a declared return type is fallible.
pub fn check_fallibility(return_type: &SemType) -> (r: bool)
    ensures
        r == (return_type@ is ResultOf),
{
    is_result_type(return_type)
}

/// The C-ABI type text of a semantic type.
pub fn rust_type_to_c_type(t: &SemType) -> (r: String)
    ensures
        r@ == spec_c_type(t@),
    decreases *t,
{
    match t {
        SemType::MutRef(inner) => {
            let mut s = String::from_str("*mut ");
            let i = rust_type_to_c_type(inner);
            s.append(i.as_str());
            proof {
                assert(s@ =~= spec_c_type(t@));
            }
            s
        },
        SemType::Opt(inner) => {
            let mut s = String::from_str("<");
            let i = inner.rust_type_name();
            s.append(i.as_str());
            s.append(" as ::gobject_ffi::FfiConvert>::CType");
            proof {
                assert(s@ =~= spec_c_type(t@));
            }
            s
        },
        _ => {
            let mut s = String::from_str("<");
            let i = t.rust_type_name();
            s.append(i.as_str());
            s.append(" as ::gobject_ffi::FfiConvert>::CType");
            proof {
                assert(s@ =~= spec_c_type(t@));
            }
            s
        },
    }
}

} // verus!
