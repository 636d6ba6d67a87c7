//! Method descriptors: the language-neutral description of one declared
//! method that the synthesis pass consumes.

use vstd::prelude::*;

use crate::resolver::{CTypeOverride, CTypeOverrideView};
use crate::semtype::{SemType, SemTypeView};

verus! {

/// One declared parameter: its name, its semantic type, and an optional
/// explicit C-type / transfer override for types with no built-in rule.
/// Parameter order is significant and preserved in generated lists.
pub struct ParamDescriptor {
    pub name: String,
    pub ty: SemType,
    pub transfer_override: Option<CTypeOverride>,
}

/// The model of a `ParamDescriptor`.
pub struct ParamDescriptorView {
    pub name: Seq<char>,
    pub ty: SemTypeView,
    pub transfer_override: Option<CTypeOverrideView>,
}

impl View for ParamDescriptor {
    type V = ParamDescriptorView;

    open spec fn view(&self) -> ParamDescriptorView {
        ParamDescriptorView {
            name: self.name@,
            ty: self.ty@,
            transfer_override: match &self.transfer_override {
                Some(o) => Some(o@),
                None => None,
            },
        }
    }
}

/// The models of a parameter list, in declaration order.
pub open spec fn params_view(params: Seq<ParamDescriptor>) -> Seq<ParamDescriptorView> {
    params.map_values(|p: ParamDescriptor| p@)
}

/// One declared method: name, receiver kind (a method borrows self, a
/// constructor has no receiver), ordered parameters, declared return type,
/// synchronicity, and an optional return override. Immutable once built.
pub struct MethodDescriptor {
    pub name: String,
    /// True for a method on a borrowed receiver; false for a constructor.
    pub has_self: bool,
    pub params: Vec<ParamDescriptor>,
    /// The declared return type; a fallible method declares a result type
    /// whose success payload is the value crossing the boundary.
    pub ret: SemType,
    pub is_async: bool,
    pub return_override: Option<CTypeOverride>,
}

/// The model of a `MethodDescriptor`.
pub struct MethodDescriptorView {
    pub name: Seq<char>,
    pub has_self: bool,
    pub params: Seq<ParamDescriptorView>,
    pub ret: SemTypeView,
    pub is_async: bool,
    pub return_override: Option<CTypeOverrideView>,
}

impl View for MethodDescriptor {
    type V = MethodDescriptorView;

    open spec fn view(&self) -> MethodDescriptorView {
        MethodDescriptorView {
            name: self.name@,
            has_self: self.has_self,
            params: params_view(self.params@),
            ret: self.ret@,
            is_async: self.is_async,
            return_override: match &self.return_override {
                Some(o) => Some(o@),
                None => None,
            },
        }
    }
}

impl MethodDescriptor {
    /// Whether the method is a constructor: it has no receiver.
    pub fn is_constructor(&self) -> (r: bool)
        ensures
            r == !self@.has_self,
    {
        !self.has_self
    }

    /// Whether the declared return type is a two-variant success/error
    /// result.
    pub fn is_fallible(&self) -> (r: bool)
        ensures
            r == (self@.ret is ResultOf),
    {
        crate::semtype::is_result_type(&self.ret)
    }
}

} // verus!
