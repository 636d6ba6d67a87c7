//! Descriptor errors: raised at synthesis time, surfaced as static
//! diagnostics, never deferred to the generated code.

use vstd::prelude::*;
use vstd::string::StringExecFns;

verus! {

/// An error found while validating descriptors or resolving marshaling
/// rules. Code generation aborts on the first such error.
#[derive(Debug)]
pub enum DescriptorError {
    /// A semantic type has neither a built-in marshaling rule nor an
    /// explicit override.
    NoMarshalingRule { ty_name: String },
    /// A transfer override named something other than the `transfer` key.
    ExpectedTransferKeyword { found: String },
    /// A transfer override named an unknown mode.
    UnknownTransferMode { found: String },
    /// A configuration key other than `c_type_name`, `prefix` or `ty`.
    UnknownArgumentKey { found: String },
    /// A `ty` value naming no receiver category.
    UnknownCategory { found: String },
    /// No C type name was given and none can be derived from the owning
    /// type's name.
    MissingTypeName,
}

/// The model of a `DescriptorError`.
pub enum DescriptorErrorView {
    NoMarshalingRule { ty_name: Seq<char> },
    ExpectedTransferKeyword { found: Seq<char> },
    UnknownTransferMode { found: Seq<char> },
    UnknownArgumentKey { found: Seq<char> },
    UnknownCategory { found: Seq<char> },
    MissingTypeName,
}

impl View for DescriptorError {
    type V = DescriptorErrorView;

    open spec fn view(&self) -> DescriptorErrorView {
        match self {
            DescriptorError::NoMarshalingRule { ty_name } => DescriptorErrorView::NoMarshalingRule {
                ty_name: ty_name@,
            },
            DescriptorError::ExpectedTransferKeyword { found } => DescriptorErrorView::ExpectedTransferKeyword {
                found: found@,
            },
            DescriptorError::UnknownTransferMode { found } => DescriptorErrorView::UnknownTransferMode {
                found: found@,
            },
            DescriptorError::UnknownArgumentKey { found } => DescriptorErrorView::UnknownArgumentKey {
                found: found@,
            },
            DescriptorError::UnknownCategory { found } => DescriptorErrorView::UnknownCategory {
                found: found@,
            },
            DescriptorError::MissingTypeName => DescriptorErrorView::MissingTypeName,
        }
    }
}

/// The diagnostic text of an error.
pub open spec fn spec_message(e: DescriptorErrorView) -> Seq<char> {
    match e {
        DescriptorErrorView::NoMarshalingRule { ty_name } => "no marshaling rule for `"@
            + ty_name + "`; supply an explicit transfer override"@,
        DescriptorErrorView::ExpectedTransferKeyword { found } => "expected `transfer`, found `"@
            + found + "`"@,
        DescriptorErrorView::UnknownTransferMode { found } => "expected `primitive`, `none`, or `full`, found `"@
            + found + "`"@,
        DescriptorErrorView::UnknownArgumentKey { found } => "expected `c_type_name`, `prefix`, or `ty`, found `"@
            + found + "`"@,
        DescriptorErrorView::UnknownCategory { found } => "expected one of: `object`, `boxed`, `shared`, `enum`, `flags`, found `"@
            + found + "`"@,
        DescriptorErrorView::MissingTypeName => "cannot derive a C type name; specify `c_type_name` explicitly"@,
    }
}

impl DescriptorError {
    /// The diagnostic text shown for this error.
    pub fn message(&self) -> (r: String)
        ensures
            r@ == spec_message(self@),
    {
        match self {
            DescriptorError::NoMarshalingRule { ty_name } => {
                let mut s = String::from_str("no marshaling rule for `");
                s.append(ty_name.as_str());
                s.append("`; supply an explicit transfer override");
                proof {
                    assert(s@ =~= spec_message(self@));
                }
                s
            },
            DescriptorError::ExpectedTransferKeyword { found } => {
                let mut s = String::from_str("expected `transfer`, found `");
                s.append(found.as_str());
                s.append("`");
                proof {
                    assert(s@ =~= spec_message(self@));
                }
                s
            },
            DescriptorError::UnknownTransferMode { found } => {
                let mut s = String::from_str("expected `primitive`, `none`, or `full`, found `");
                s.append(found.as_str());
                s.append("`");
                proof {
                    assert(s@ =~= spec_message(self@));
                }
                s
            },
            DescriptorError::UnknownArgumentKey { found } => {
                let mut s = String::from_str("expected `c_type_name`, `prefix`, or `ty`, found `");
                s.append(found.as_str());
                s.append("`");
                proof {
                    assert(s@ =~= spec_message(self@));
                }
                s
            },
            DescriptorError::UnknownCategory { found } => {
                let mut s = String::from_str(
                    "expected one of: `object`, `boxed`, `shared`, `enum`, `flags`, found `",
                );
                s.append(found.as_str());
                s.append("`");
                proof {
                    assert(s@ =~= spec_message(self@));
                }
                s
            },
            DescriptorError::MissingTypeName => {
                let s = String::from_str(
                    "cannot derive a C type name; specify `c_type_name` explicitly",
                );
                s
            },
        }
    }
}

} // verus!
