//! The receiver-category dispatcher: the owning-type classification that
//! fixes the self-parameter convention of every generated entry point.

use vstd::prelude::*;
use vstd::string::StringExecFns;

use crate::transfer::TransferMode;

verus! {

/// The category of the owning type. Exactly one category holds per type and
/// applies to every method of that type.
#[derive(Clone, Copy, Debug, PartialEq, Eq, Structural)]
pub enum FfiType {
    /// Heap-allocated, reference-counted object; self is a raw non-owning pointer.
    Object,
    /// Value type with a defined native pointer representation; self is a borrowed pointer.
    Boxed,
    /// Reference-counted value; self is a borrowed pointer.
    Shared,
    /// Enumeration; self is passed by value as a fixed-width signed integer.
    Enum,
    /// Bitflag set; self is passed by value as a fixed-width unsigned integer.
    Flags,
}

/// The C type carrying self for the value categories: a fixed-width integer.
/// The pointer categories have no fixed text here; their self type is a
/// pointer to the generated C type name.
pub open spec fn spec_self_c_type(t: FfiType) -> Option<Seq<char>> {
    match t {
        FfiType::Enum => Some("i32"@),
        FfiType::Flags => Some("u32"@),
        FfiType::Object => None,
        FfiType::Boxed => None,
        FfiType::Shared => None,
    }
}

/// The transfer mode converting the incoming self parameter: a value copy
/// for the value categories, a borrow for the pointer categories.
pub open spec fn spec_self_transfer_mode(t: FfiType) -> TransferMode {
    if t is Enum || t is Flags {
        TransferMode::Primitive
    } else {
        TransferMode::Borrowed
    }
}

impl FfiType {
    /// Whether the category is reference-counted. Only such receivers retain
    /// a cloned handle to report as the originator of an asynchronous
    /// completion notification.
    pub fn is_gobject(&self) -> (r: bool)
        ensures
            r == (*self is Object),
    {
        match self {
            FfiType::Object => true,
            _ => false,
        }
    }

    /// The C type of the incoming self parameter where the category passes
    /// self by value; `None` for the pointer categories.
    pub fn self_c_type(&self) -> (r: Option<String>)
        ensures
            match spec_self_c_type(*self) {
                Some(t) => r matches Some(s) && s@ == t,
                None => r is None,
            },
    {
        match self {
            FfiType::Enum => Some(String::from_str("i32")),
            FfiType::Flags => Some(String::from_str("u32")),
            _ => None,
        }
    }

    /// The transfer mode used to convert the incoming self parameter:
    /// a plain value copy for the value categories, a borrow for the
    /// pointer categories.
    pub fn self_transfer_mode(&self) -> (r: TransferMode)
        ensures
            r == spec_self_transfer_mode(*self),
    {
        match self {
            FfiType::Enum | FfiType::Flags => TransferMode::Primitive,
            FfiType::Object | FfiType::Boxed | FfiType::Shared => TransferMode::Borrowed,
        }
    }
}

} // verus!
