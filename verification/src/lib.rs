//! Synthesis of C-ABI-callable entry points for a managed object system.
//!
//! Given a declarative description of an object's methods (name, parameter
//! types, return type, fallibility, synchronicity, receiver kind), this
//! library produces the text of C-callable wrapper functions that marshal
//! values across the native boundary, preserve ownership discipline, and
//! bridge asynchronous operations into callback-based and blocking forms.
//! Alongside the emitters it holds executable models of the runtime
//! discipline the emitted wrappers follow: value marshaling with an explicit
//! native heap, the synchronous wrapper's convert-invoke-relay steps, and the
//! cooperative start/finish/sync triad for asynchronous operations.

mod casing;
mod category;
mod components;
mod context;
mod descriptor;
mod error;
mod generator;
mod marshal;
mod method;
mod resolver;
mod semtype;
mod transfer;
mod triad;
mod wrapper;

pub use casing::{pascal_of, snake_of};
pub use category::FfiType;
pub use components::{build_ffi_params, generate_param_conversion, FfiComponents};
pub use context::{AsyncFunctionNames, FfiMethodContext};
pub use descriptor::{MethodDescriptor, ParamDescriptor};
pub use error::DescriptorError;
pub use generator::{AsyncFfiParams, FfiBuilder, FfiKind};
pub use method::FfiMethod;
pub use resolver::{resolve, CRepr, CTypeOverride, FfiImplArgs};
pub use semtype::{
    check_fallibility, extract_mut_ref_inner, extract_option_inner,
    extract_result_ok_type_as_type, is_mutable_reference, is_result_type, is_unit_type,
    rust_type_to_c_type, SemType,
};
pub use marshal::{
    c_error_value, from_c_borrowed, from_c_full, marshal_type_of, to_c_owned, CValue, MarshalType,
    NativeHeap, RVal,
};
pub use transfer::TransferMode;
pub use triad::{
    finish, sync_call, AsyncBody, CancelToken, CompletionResult, OpOutcome, OperationError,
    Scheduler, TaskOutcome,
};
pub use wrapper::{convert_params, run_fallible_wrapper, run_mut_ref_wrapper, ErrorInfo};

use vstd::prelude::*;
use vstd::string::StringExecFns;

use crate::casing::{to_pascal_case, to_snake_case};
use crate::descriptor::MethodDescriptorView;
use crate::error::DescriptorErrorView;
use crate::method::{
    spec_method_async_params, spec_method_builder, spec_method_error, spec_method_view,
};
use crate::resolver::FfiImplArgsView;

verus! {

/// The exported prefix of one owning type: the snake_case form of its
/// name, under the configured namespace prefix where one is set.
pub open spec fn spec_prefix(args: FfiImplArgsView, self_type: Seq<char>) -> Seq<char> {
    if args.prefix.len() == 0 {
        snake_of(self_type)
    } else {
        args.prefix + "_"@ + snake_of(self_type)
    }
}

/// The generated C type name: the explicit one where given, the
/// UpperCamelCase form of the exported prefix otherwise.
pub open spec fn spec_module_c_type_name(args: FfiImplArgsView, prefix: Seq<char>) -> Seq<char> {
    match args.c_type_name {
        Some(n) => n,
        None => pascal_of(prefix),
    }
}

/// The alias binding the generated C type name to the runtime
/// representation the receiver category prescribes.
pub open spec fn spec_type_alias(
    ffi_type: FfiType,
    self_type: Seq<char>,
    c_type_name: Seq<char>,
) -> Seq<char> {
    match ffi_type {
        FfiType::Object => "pub type "@ + c_type_name + " = <imp::"@ + self_type
            + " as ::glib::subclass::prelude::ObjectSubclass>::Instance;"@,
        FfiType::Shared => "pub type "@ + c_type_name + " = *mut <<super::"@ + self_type
            + " as ::glib::subclass::shared::SharedType>::RefCountedType as ::glib::subclass::shared::RefCounted>::InnerType;"@,
        FfiType::Boxed => "pub type "@ + c_type_name + " = <super::"@ + self_type
            + " as ::glib::translate::GlibPtrDefault>::GlibType;"@,
        FfiType::Enum => "pub type "@ + c_type_name + " = super::"@ + self_type + ";"@,
        FfiType::Flags => "pub type "@ + c_type_name + " = super::"@ + self_type + ";"@,
    }
}

/// The process-wide type-identity accessor every generated type exposes.
pub open spec fn spec_get_type_fn(prefix: Seq<char>, self_type: Seq<char>) -> Seq<char> {
    "#[unsafe(no_mangle)]\npub unsafe extern \"C\" fn "@ + prefix
        + "_get_type() -> ::glib::ffi::GType {\n    ::glib::translate::IntoGlib::into_glib(<super::"@
        + self_type + " as ::glib::prelude::StaticType>::static_type())\n}\n"@
}

/// The emitted text of one method: a triad for an async method, one entry
/// point otherwise.
pub open spec fn spec_generated_fn(
    m: MethodDescriptorView,
    prefix: Seq<char>,
    self_type: Seq<char>,
    c_type_name: Seq<char>,
    ffi_type: FfiType,
) -> Seq<char> {
    let fm = spec_method_view(m, prefix, self_type, c_type_name, ffi_type);
    if m.is_async {
        crate::generator::spec_build_async(spec_method_builder(fm), spec_method_async_params(fm))
    } else {
        crate::generator::spec_build_sync(spec_method_builder(fm))
    }
}

/// The first synthesis error among the methods at and after position `i`.
pub open spec fn spec_first_method_error(
    ms: Seq<MethodDescriptorView>,
    self_type: Seq<char>,
    i: int,
) -> Option<DescriptorErrorView>
    decreases ms.len() - i,
{
    if i < 0 || i >= ms.len() {
        None
    } else {
        match spec_method_error(ms[i], self_type) {
            Some(e) => Some(e),
            None => spec_first_method_error(ms, self_type, i + 1),
        }
    }
}

/// The models of a method list.
pub open spec fn methods_view(ms: Seq<MethodDescriptor>) -> Seq<MethodDescriptorView> {
    ms.map_values(|m: MethodDescriptor| m@)
}

/// One synthesized namespace: the names it generates under, the type
/// alias, the type-identity accessor, and the entry points of every
/// declared method, in declaration order.
#[derive(Debug)]
pub struct GeneratedModule {
    pub prefix: String,
    pub c_type_name: String,
    pub type_alias: String,
    pub get_type_fn: String,
    pub functions: Vec<String>,
}

/// The model of a `GeneratedModule`.
pub struct GeneratedModuleView {
    pub prefix: Seq<char>,
    pub c_type_name: Seq<char>,
    pub type_alias: Seq<char>,
    pub get_type_fn: Seq<char>,
    pub functions: Seq<Seq<char>>,
}

impl View for GeneratedModule {
    type V = GeneratedModuleView;

    open spec fn view(&self) -> GeneratedModuleView {
        GeneratedModuleView {
            prefix: self.prefix@,
            c_type_name: self.c_type_name@,
            type_alias: self.type_alias@,
            get_type_fn: self.get_type_fn@,
            functions: self.functions@.map_values(|f: String| f@),
        }
    }
}

/// The generated entry points laid out one after another, each followed
/// by a blank line.
pub open spec fn spec_functions_text(fs: Seq<Seq<char>>) -> Seq<char>
    decreases fs.len(),
{
    if fs.len() == 0 {
        Seq::empty()
    } else {
        spec_functions_text(fs.drop_last()) + fs.last() + "\n"@
    }
}

/// The whole text of a synthesized module.
pub open spec fn spec_module_text(g: GeneratedModuleView) -> Seq<char> {
    "pub mod ffi {\n    use super::*;\n\n"@ + g.type_alias + "\n\n"@ + g.get_type_fn + "\n"@
        + spec_functions_text(g.functions) + "}\n"@
}

impl GeneratedModule {
    /// The whole module as one piece of text: the alias, the
    /// type-identity accessor, and every entry point, in order.
    pub fn module_text(&self) -> (r: String)
        ensures
            r@ == spec_module_text(self@),
    {
        let ghost fv = self.functions@.map_values(|f: String| f@);
        let mut s = String::from_str("pub mod ffi {\n    use super::*;\n\n");
        s.append(self.type_alias.as_str());
        s.append("\n\n");
        s.append(self.get_type_fn.as_str());
        s.append("\n");
        let ghost base = s@;
        let mut i: usize = 0;
        while i < self.functions.len()
            invariant
                i <= self.functions.len(),
                fv == self.functions@.map_values(|f: String| f@),
                fv.len() == self.functions@.len(),
                s@ == base + spec_functions_text(fv.take(i as int)),
            decreases self.functions.len() - i,
        {
            s.append(self.functions[i].as_str());
            s.append("\n");
            proof {
                assert(fv.take((i + 1) as int).drop_last() =~= fv.take(i as int));
                assert(fv.take((i + 1) as int).last() == fv[i as int]);
                assert(fv[i as int] == self.functions@[i as int]@);
                assert(s@ =~= base + spec_functions_text(fv.take((i + 1) as int)));
            }
            i = i + 1;
        }
        proof {
            assert(fv.take(self.functions@.len() as int) =~= fv);
        }
        s.append("}\n");
        proof {
            assert(s@ =~= spec_module_text(self@));
        }
        s
    }
}

/// The expected whole content of a synthesized module on valid input.
pub open spec fn spec_generated_module(
    args: FfiImplArgsView,
    self_type: Seq<char>,
    ms: Seq<MethodDescriptorView>,
) -> GeneratedModuleView {
    let prefix = spec_prefix(args, self_type);
    let c_type_name = spec_module_c_type_name(args, prefix);
    GeneratedModuleView {
        prefix: prefix,
        c_type_name: c_type_name,
        type_alias: spec_type_alias(args.ty, self_type, c_type_name),
        get_type_fn: spec_get_type_fn(prefix, self_type),
        functions: ms.map_values(
            |m: MethodDescriptorView| spec_generated_fn(m, prefix, self_type, c_type_name, args.ty),
        ),
    }
}

/// The alias binding the generated C type name to the category's runtime
/// representation.
pub fn generate_type_alias(ffi_type: FfiType, self_type: &String, c_type_name: &String) -> (r:
    String)
    ensures
        r@ == spec_type_alias(ffi_type, self_type@, c_type_name@),
{
    let mut s = String::from_str("pub type ");
    s.append(c_type_name.as_str());
    match ffi_type {
        FfiType::Object => {
            s.append(" = <imp::");
            s.append(self_type.as_str());
            s.append(" as ::glib::subclass::prelude::ObjectSubclass>::Instance;");
        },
        FfiType::Shared => {
            s.append(" = *mut <<super::");
            s.append(self_type.as_str());
            s.append(
                " as ::glib::subclass::shared::SharedType>::RefCountedType as ::glib::subclass::shared::RefCounted>::InnerType;",
            );
        },
        FfiType::Boxed => {
            s.append(" = <super::");
            s.append(self_type.as_str());
            s.append(" as ::glib::translate::GlibPtrDefault>::GlibType;");
        },
        FfiType::Enum => {
            s.append(" = super::");
            s.append(self_type.as_str());
            s.append(";");
        },
        FfiType::Flags => {
            s.append(" = super::");
            s.append(self_type.as_str());
            s.append(";");
        },
    }
    proof {
        assert(s@ =~= spec_type_alias(ffi_type, self_type@, c_type_name@));
    }
    s
}

/// The type-identity accessor of one generated type.
pub fn generate_get_type_fn(prefix: &String, self_type: &String) -> (r: String)
    ensures
        r@ == spec_get_type_fn(prefix@, self_type@),
{
    let mut s = String::from_str("#[unsafe(no_mangle)]\npub unsafe extern \"C\" fn ");
    s.append(prefix.as_str());
    s.append(
        "_get_type() -> ::glib::ffi::GType {\n    ::glib::translate::IntoGlib::into_glib(<super::",
    );
    s.append(self_type.as_str());
    s.append(" as ::glib::prelude::StaticType>::static_type())\n}\n");
    proof {
        assert(s@ =~= spec_get_type_fn(prefix@, self_type@));
    }
    s
}

/// Synthesize the whole C-ABI surface of one owning type: derive its
/// exported prefix and C type name, validate every declared method, and
/// emit the type alias, the type-identity accessor, and every entry
/// point. The first descriptor error aborts generation.
pub fn ffi_impl(args: &FfiImplArgs, self_type: &String, methods: &Vec<MethodDescriptor>) -> (r:
    Result<GeneratedModule, DescriptorError>)
    ensures
        match r {
            Ok(g) => spec_first_method_error(methods_view(methods@), self_type@, 0) is None && g@
                == spec_generated_module(args@, self_type@, methods_view(methods@)),
            Err(e) => spec_first_method_error(methods_view(methods@), self_type@, 0) == Some(e@),
        },
{
    let ghost msv = methods_view(methods@);
    let type_name_lower = to_snake_case(self_type.as_str());
    let prefix: String = if args.prefix.as_str().is_empty() {
        type_name_lower
    } else {
        let mut p = args.prefix.clone();
        p.append("_");
        p.append(type_name_lower.as_str());
        proof {
            assert(p@ =~= args@.prefix + "_"@ + snake_of(self_type@));
        }
        p
    };
    let c_type_name: String = match &args.c_type_name {
        Some(n) => n.clone(),
        None => to_pascal_case(prefix.as_str()),
    };
    proof {
        assert(prefix@ == spec_prefix(args@, self_type@));
        assert(c_type_name@ == spec_module_c_type_name(args@, prefix@));
    }
    let mut functions: Vec<String> = Vec::new();
    let mut i: usize = 0;
    while i < methods.len()
        invariant
            i <= methods.len(),
            msv == methods_view(methods@),
            msv.len() == methods@.len(),
            prefix@ == spec_prefix(args@, self_type@),
            c_type_name@ == spec_module_c_type_name(args@, prefix@),
            spec_first_method_error(msv, self_type@, 0) == spec_first_method_error(
                msv,
                self_type@,
                i as int,
            ),
            functions@.map_values(|f: String| f@) == msv.take(i as int).map_values(
                |m: MethodDescriptorView| spec_generated_fn(
                    m,
                    prefix@,
                    self_type@,
                    c_type_name@,
                    args@.ty,
                ),
            ),
        decreases methods.len() - i,
    {
        let m = &methods[i];
        proof {
            assert(msv[i as int] == m@);
        }
        let fm = match FfiMethod::from_method(m, prefix.as_str(), self_type, &c_type_name, args.ty) {
            Ok(fm) => fm,
            Err(e) => {
                return Err(e);
            },
        };
        let generated = if fm.is_async() {
            fm.generate_async()
        } else {
            fm.generate_sync()
        };
        let ghost genv = generated@;
        let ghost pre_functions = functions@;
        functions.push(generated);
        proof {
            let gf = |mm: MethodDescriptorView| spec_generated_fn(
                mm,
                prefix@,
                self_type@,
                c_type_name@,
                args@.ty,
            );
            let cs = functions@.map_values(|f: String| f@);
            let ss = msv.take((i + 1) as int).map_values(gf);
            assert(genv == gf(msv[i as int]));
            assert(functions@.len() == pre_functions.len() + 1);
            assert(pre_functions.map_values(|f: String| f@).len() == pre_functions.len());
            assert(pre_functions.len() == i);
            assert forall|j: int| 0 <= j < i + 1 implies cs[j] == ss[j] by {
                assert(msv.take((i + 1) as int)[j] == msv[j]);
                if j < i {
                    assert(functions@[j] == pre_functions[j]);
                    assert(pre_functions.map_values(|f: String| f@)[j] == msv.take(
                        i as int,
                    ).map_values(gf)[j]);
                } else {
                    assert(functions@[j]@ == genv);
                }
            }
            assert(cs =~= ss);
        }
        i = i + 1;
    }
    proof {
        assert(msv.take(methods@.len() as int) =~= msv);
    }
    let type_alias = generate_type_alias(args.ty, self_type, &c_type_name);
    let get_type_fn = generate_get_type_fn(&prefix, self_type);
    Ok(GeneratedModule { prefix, c_type_name, type_alias, get_type_fn, functions })
}

} // verus!
