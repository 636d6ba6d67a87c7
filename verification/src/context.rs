//! Per-method synthesis context: the exported name prefix, fallibility and
//! synchronicity flags, and the derived triad names for async methods.

use vstd::prelude::*;
use vstd::string::StringExecFns;

use crate::descriptor::MethodDescriptor;

verus! {

/// The three exported identifiers generated for one asynchronous
/// operation, derived deterministically from one base name.
pub struct AsyncFunctionNames {
    /// The non-blocking start entry point; it carries the base name itself.
    pub async_name: String,
    /// The completion entry point: the base name with `_finish` appended.
    pub finish_name: String,
    /// The blocking entry point: the base name with `_sync` appended.
    pub sync_name: String,
}

/// The model of an `AsyncFunctionNames`.
pub struct AsyncFunctionNamesView {
    pub async_name: Seq<char>,
    pub finish_name: Seq<char>,
    pub sync_name: Seq<char>,
}

impl View for AsyncFunctionNames {
    type V = AsyncFunctionNamesView;

    open spec fn view(&self) -> AsyncFunctionNamesView {
        AsyncFunctionNamesView {
            async_name: self.async_name@,
            finish_name: self.finish_name@,
            sync_name: self.sync_name@,
        }
    }
}

/// The triad names derived from one exported base name: the start entry
/// point carries the base name, finish and sync append their suffixes.
pub open spec fn spec_async_names(ffi_prefix: Seq<char>) -> AsyncFunctionNamesView {
    AsyncFunctionNamesView {
        async_name: ffi_prefix,
        finish_name: ffi_prefix + "_finish"@,
        sync_name: ffi_prefix + "_sync"@,
    }
}

impl AsyncFunctionNames {
    /// Derive the triad names from the exported base name.
    pub fn from_prefix(ffi_prefix: &str) -> (r: AsyncFunctionNames)
        ensures
            r@ == spec_async_names(ffi_prefix@),
    {
        let mut finish_name = String::from_str(ffi_prefix);
        finish_name.append("_finish");
        let mut sync_name = String::from_str(ffi_prefix);
        sync_name.append("_sync");
        let r = AsyncFunctionNames {
            async_name: String::from_str(ffi_prefix),
            finish_name,
            sync_name,
        };
        proof {
            assert(r@ == spec_async_names(ffi_prefix@));
        }
        r
    }
}

/// The synthesis context of one method: its declared name, the exported
/// name it generates under, and the flags steering emission.
pub struct FfiMethodContext {
    pub fn_name: String,
    pub ffi_prefix: String,
    pub is_async: bool,
    pub is_fallible: bool,
    pub async_names: Option<AsyncFunctionNames>,
}

/// The model of an `FfiMethodContext`.
pub struct FfiMethodContextView {
    pub fn_name: Seq<char>,
    pub ffi_prefix: Seq<char>,
    pub is_async: bool,
    pub is_fallible: bool,
    pub async_names: Option<AsyncFunctionNamesView>,
}

impl View for FfiMethodContext {
    type V = FfiMethodContextView;

    open spec fn view(&self) -> FfiMethodContextView {
        FfiMethodContextView {
            fn_name: self.fn_name@,
            ffi_prefix: self.ffi_prefix@,
            is_async: self.is_async,
            is_fallible: self.is_fallible,
            async_names: match &self.async_names {
                Some(n) => Some(n@),
                None => None,
            },
        }
    }
}

/// The context of one method under an exported prefix: the exported name
/// is the prefix, an underscore, and the method's declared name; async
/// methods also carry their triad names.
pub open spec fn spec_context(
    m: crate::descriptor::MethodDescriptorView,
    prefix: Seq<char>,
) -> FfiMethodContextView {
    let ffi_prefix = prefix + "_"@ + m.name;
    FfiMethodContextView {
        fn_name: m.name,
        ffi_prefix: ffi_prefix,
        is_async: m.is_async,
        is_fallible: m.ret is ResultOf,
        async_names: if m.is_async {
            Some(spec_async_names(ffi_prefix))
        } else {
            None
        },
    }
}

impl FfiMethodContext {
    /// Build the context for one method under the owning type's exported
    /// prefix.
    pub fn new(method: &MethodDescriptor, prefix: &str) -> (r: FfiMethodContext)
        ensures
            r@ == spec_context(method@, prefix@),
    {
        let mut ffi_prefix = String::from_str(prefix);
        ffi_prefix.append("_");
        ffi_prefix.append(method.name.as_str());
        let is_async = method.is_async;
        let is_fallible = method.is_fallible();
        let async_names = if is_async {
            Some(AsyncFunctionNames::from_prefix(ffi_prefix.as_str()))
        } else {
            None
        };
        let r = FfiMethodContext {
            fn_name: method.name.clone(),
            ffi_prefix,
            is_async,
            is_fallible,
            async_names,
        };
        proof {
            assert(r@.ffi_prefix =~= spec_context(method@, prefix@).ffi_prefix);
            assert(r@ == spec_context(method@, prefix@));
        }
        r
    }
}

} // verus!
