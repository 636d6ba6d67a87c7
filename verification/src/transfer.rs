//! The transfer-mode model: the ownership vocabulary for values crossing the
//! C-ABI boundary, and the conversion / sentinel text each mode fixes.

use vstd::prelude::*;
use vstd::string::StringExecFns;

verus! {

/// The ownership contract governing one value crossing the native boundary.
#[derive(Clone, Copy, Debug, PartialEq, Eq, Structural)]
pub enum TransferMode {
    /// Value copy (an integer-encoded enum, a number); no ownership crosses.
    Primitive,
    /// C does not gain ownership; the source must not be freed or consumed.
    Borrowed,
    /// Ownership moves across the boundary; exactly one side frees the value.
    Owned,
}

/// The runtime path of the from-C conversion function a mode selects.
pub open spec fn spec_from_glib_path(mode: TransferMode) -> Seq<char> {
    match mode {
        TransferMode::Primitive => "::glib::translate::FromGlib::from_glib"@,
        TransferMode::Borrowed => "::glib::translate::FromGlibPtrNone::from_glib_none"@,
        TransferMode::Owned => "::glib::translate::FromGlibPtrFull::from_glib_full"@,
    }
}

/// The statement converting a raw C value named `name` of internal type `ty`
/// into the internal representation, consuming or borrowing per `mode`.
pub open spec fn spec_convert_from(mode: TransferMode, name: Seq<char>, ty: Seq<char>) -> Seq<
    char,
> {
    "let "@ + name + ": "@ + ty + " = unsafe { "@ + spec_from_glib_path(mode) + "("@ + name
        + ") };"@
}

/// The expression converting the internal value `val` into its C
/// representation, transferring ownership per `mode`.
pub open spec fn spec_convert_to(mode: TransferMode, val: Seq<char>) -> Seq<char> {
    match mode {
        TransferMode::Primitive => "::glib::translate::IntoGlib::into_glib("@ + val + ")"@,
        TransferMode::Borrowed => "::glib::translate::ToGlibPtr::to_glib_none(&"@ + val + ").0"@,
        TransferMode::Owned => "::glib::translate::ToGlibPtr::to_glib_full(&"@ + val + ")"@,
    }
}

/// The canonical sentinel returned on failure for `mode`: zero for a value
/// copy, the null pointer for both pointer-carrying modes.
pub open spec fn spec_error_value(mode: TransferMode) -> Seq<char> {
    match mode {
        TransferMode::Primitive => "0"@,
        TransferMode::Borrowed => "::std::ptr::null_mut()"@,
        TransferMode::Owned => "::std::ptr::null_mut()"@,
    }
}

impl TransferMode {
    /// Produce the statement that converts the raw C parameter `param_name`
    /// of internal type `ty` into the internal representation.
    pub fn convert_from(&self, param_name: &str, ty: &str) -> (r: String)
        ensures
            r@ == spec_convert_from(*self, param_name@, ty@),
    {
        let path: &str = match self {
            TransferMode::Primitive => "::glib::translate::FromGlib::from_glib",
            TransferMode::Borrowed => "::glib::translate::FromGlibPtrNone::from_glib_none",
            TransferMode::Owned => "::glib::translate::FromGlibPtrFull::from_glib_full",
        };
        let mut s = String::new();
        s.append("let ");
        s.append(param_name);
        s.append(": ");
        s.append(ty);
        s.append(" = unsafe { ");
        s.append(path);
        s.append("(");
        s.append(param_name);
        s.append(") };");
        proof {
            assert(s@ =~= spec_convert_from(*self, param_name@, ty@));
        }
        s
    }

    /// Produce the expression that converts the internal value text `val`
    /// into its C representation.
    pub fn convert_to(&self, val: &str) -> (r: String)
        ensures
            r@ == spec_convert_to(*self, val@),
    {
        let (head, tail): (&str, &str) = match self {
            TransferMode::Primitive => ("::glib::translate::IntoGlib::into_glib(", ")"),
            TransferMode::Borrowed => ("::glib::translate::ToGlibPtr::to_glib_none(&", ").0"),
            TransferMode::Owned => ("::glib::translate::ToGlibPtr::to_glib_full(&", ")"),
        };
        let mut s = String::new();
        s.append(head);
        s.append(val);
        s.append(tail);
        proof {
            assert(s@ =~= spec_convert_to(*self, val@));
        }
        s
    }

    /// Produce the sentinel expression returned on failure for this mode.
    pub fn error_value(&self) -> (r: String)
        ensures
            r@ == spec_error_value(*self),
    {
        let text: &str = match self {
            TransferMode::Primitive => "0",
            TransferMode::Borrowed => "::std::ptr::null_mut()",
            TransferMode::Owned => "::std::ptr::null_mut()",
        };
        let mut s = String::new();
        s.append(text);
        proof {
            assert(s@ =~= spec_error_value(*self));
        }
        s
    }
}

} // verus!
