//! Per-method synthesis: validation of one method descriptor against the
//! marshaling rules, then assembly of its emission inputs — context,
//! components, body and self-parameter handling — and emission of the
//! entry point (or triad) through the wrapper builders.

use vstd::prelude::*;
use vstd::string::StringExecFns;

use crate::category::{spec_self_c_type, spec_self_transfer_mode, FfiType};
use crate::components::{
    build_ffi_params, spec_components, FfiComponents, FfiComponentsView,
};
use crate::context::{spec_context, FfiMethodContext, FfiMethodContextView};
use crate::descriptor::{params_view, MethodDescriptor, MethodDescriptorView, ParamDescriptorView};
use crate::error::{DescriptorError, DescriptorErrorView};
use crate::generator::{
    spec_build_async, spec_build_sync, AsyncFfiParams, AsyncFfiParamsView, FfiBuilder,
    FfiBuilderView, FfiKind, FfiKindView,
};
use crate::resolver::spec_resolve;
use crate::semtype::{spec_rust_type_name, SemType, SemTypeView};
use crate::transfer::spec_convert_from;

verus! {

/// The internal type text of the owning type as the emitted wrappers
/// refer to it: relative to the generated module.
pub open spec fn spec_self_type_text(impl_self_type: Seq<char>) -> Seq<char> {
    "super::"@ + impl_self_type
}

/// The expression invoking the underlying operation: an associated call
/// on the owning type for a constructor, a call on the converted receiver
/// otherwise.
pub open spec fn spec_method_body(
    is_constructor: bool,
    self_type_text: Seq<char>,
    fn_name: Seq<char>,
    param_call_args: Seq<char>,
) -> Seq<char> {
    if is_constructor {
        self_type_text + "::"@ + fn_name + "("@ + param_call_args + ")"@
    } else {
        "self_param."@ + fn_name + "("@ + param_call_args + ")"@
    }
}

/// The C type of the incoming self parameter: the category's value type
/// where it has one, a pointer to the generated C type otherwise.
pub open spec fn spec_self_ffi_type(ffi_type: FfiType, c_type_name: Seq<char>) -> Seq<char> {
    match spec_self_c_type(ffi_type) {
        Some(t) => t,
        None => "*mut "@ + c_type_name,
    }
}

/// The statement converting the incoming self parameter.
pub open spec fn spec_self_conversion(ffi_type: FfiType, impl_self_type: Seq<char>) -> Seq<char> {
    spec_convert_from(
        spec_self_transfer_mode(ffi_type),
        "self_param"@,
        spec_self_type_text(impl_self_type),
    )
}

/// The success payload crossing the boundary: the owning type itself for
/// a constructor, the declared result's payload for a fallible method,
/// the declared return type otherwise.
pub open spec fn spec_ok_payload(m: MethodDescriptorView, impl_self_type: Seq<char>) -> SemTypeView {
    if !m.has_self {
        SemTypeView::Named(spec_self_type_text(impl_self_type))
    } else {
        match m.ret {
            SemTypeView::ResultOf(b) => *b,
            _ => m.ret,
        }
    }
}

/// The conversion statements of a method with a receiver: the self
/// conversion first, then the parameter conversions in order, and — for
/// an async method on a reference-counted receiver — the retained handle
/// kept to report as the completion source.
pub open spec fn spec_full_conversions(
    is_async: bool,
    ffi_type: FfiType,
    impl_self_type: Seq<char>,
    base: Seq<Seq<char>>,
) -> Seq<Seq<char>> {
    let with_self = seq![spec_self_conversion(ffi_type, impl_self_type)] + base;
    if is_async && ffi_type is Object {
        with_self + seq!["let source_for_task = self_param.clone();"@]
    } else {
        with_self
    }
}

/// The first marshaling error among the declared parameters at and after
/// position `i`: a parameter with an explicit override always resolves.
pub open spec fn spec_first_param_error(ps: Seq<ParamDescriptorView>, i: int) -> Option<
    DescriptorErrorView,
>
    decreases ps.len() - i,
{
    if i < 0 || i >= ps.len() {
        None
    } else if ps[i].transfer_override is None && spec_resolve(ps[i].ty) is Err {
        Some(spec_resolve(ps[i].ty)->Err_0)
    } else {
        spec_first_param_error(ps, i + 1)
    }
}

/// The one synthesis-time error of a method, if any: the first parameter
/// whose type has neither a built-in rule nor an override, then the
/// return payload under the same test. A constructor's return is the
/// owning type and needs no rule.
pub open spec fn spec_method_error(m: MethodDescriptorView, impl_self_type: Seq<char>) -> Option<
    DescriptorErrorView,
> {
    match spec_first_param_error(m.params, 0) {
        Some(e) => Some(e),
        None => if m.has_self && m.return_override is None && spec_resolve(
            spec_ok_payload(m, impl_self_type),
        ) is Err {
            Some(spec_resolve(spec_ok_payload(m, impl_self_type))->Err_0)
        } else {
            None
        },
    }
}

/// Everything one method's emission is assembled from.
pub struct FfiMethod {
    pub ctx: FfiMethodContext,
    pub components: FfiComponents,
    pub body: String,
    /// The full parameter list including the self parameter; absent for a
    /// constructor.
    pub full_params: Option<String>,
    /// The full conversion list including the self conversion; absent for
    /// a constructor.
    pub full_conversions: Option<Vec<String>>,
    /// The arguments the blocking wrapper forwards, self included.
    pub full_sync_call_args: String,
    /// The success payload type text.
    pub ok_type_text: String,
    pub c_type_name: String,
    pub ffi_type: FfiType,
    pub is_constructor: bool,
}

/// The model of an `FfiMethod`.
pub struct FfiMethodView {
    pub ctx: FfiMethodContextView,
    pub components: FfiComponentsView,
    pub body: Seq<char>,
    pub full_params: Option<Seq<char>>,
    pub full_conversions: Option<Seq<Seq<char>>>,
    pub full_sync_call_args: Seq<char>,
    pub ok_type_text: Seq<char>,
    pub c_type_name: Seq<char>,
    pub ffi_type: FfiType,
    pub is_constructor: bool,
}

impl View for FfiMethod {
    type V = FfiMethodView;

    open spec fn view(&self) -> FfiMethodView {
        FfiMethodView {
            ctx: self.ctx@,
            components: self.components@,
            body: self.body@,
            full_params: match &self.full_params {
                Some(p) => Some(p@),
                None => None,
            },
            full_conversions: match &self.full_conversions {
                Some(c) => Some(c@.map_values(|s: String| s@)),
                None => None,
            },
            full_sync_call_args: self.full_sync_call_args@,
            ok_type_text: self.ok_type_text@,
            c_type_name: self.c_type_name@,
            ffi_type: self.ffi_type,
            is_constructor: self.is_constructor,
        }
    }
}

/// Whether a constructor of this category hands out an owned pointer to
/// the generated C type: only the pointer categories do; a constructor of
/// a value category (an enumeration or a bitflag set) returns through the
/// conversion trait like any other value.
pub open spec fn spec_owned_ctor_return(is_ctor: bool, ffi_type: FfiType) -> bool {
    is_ctor && (ffi_type is Object || ffi_type is Boxed || ffi_type is Shared)
}

/// The assembled emission inputs of one valid method.
pub open spec fn spec_method_view(
    m: MethodDescriptorView,
    prefix: Seq<char>,
    impl_self_type: Seq<char>,
    c_type_name: Seq<char>,
    ffi_type: FfiType,
) -> FfiMethodView {
    let is_ctor = !m.has_self;
    let payload = spec_ok_payload(m, impl_self_type);
    let comps = spec_components(
        m.params,
        payload,
        c_type_name,
        m.return_override,
        spec_owned_ctor_return(is_ctor, ffi_type),
    );
    FfiMethodView {
        ctx: spec_context(m, prefix),
        components: comps,
        body: spec_method_body(
            is_ctor,
            spec_self_type_text(impl_self_type),
            m.name,
            comps.param_call_args,
        ),
        full_params: if is_ctor {
            None
        } else {
            Some("self_param: "@ + spec_self_ffi_type(ffi_type, c_type_name) + ", "@ + comps.params)
        },
        full_conversions: if is_ctor {
            None
        } else {
            Some(spec_full_conversions(m.is_async, ffi_type, impl_self_type, comps.conversions))
        },
        full_sync_call_args: if is_ctor {
            comps.sync_call_args
        } else {
            "self_param, "@ + comps.sync_call_args
        },
        ok_type_text: spec_rust_type_name(payload),
        c_type_name: c_type_name,
        ffi_type: ffi_type,
        is_constructor: is_ctor,
    }
}

/// The builder an `FfiMethod` hands to the emitters.
pub open spec fn spec_method_builder(fm: FfiMethodView) -> FfiBuilderView {
    FfiBuilderView {
        ctx: fm.ctx,
        components: fm.components,
        body: fm.body,
        params_override: fm.full_params,
        conversions_override: fm.full_conversions,
    }
}

/// The async emission inputs an `FfiMethod` hands to the triad builder.
pub open spec fn spec_method_async_params(fm: FfiMethodView) -> AsyncFfiParamsView {
    AsyncFfiParamsView {
        c_type_name: fm.c_type_name,
        ok_type: fm.ok_type_text,
        sync_call_args: fm.full_sync_call_args,
        kind: if fm.is_constructor {
            FfiKindView::Constructor
        } else {
            FfiKindView::Method { source_for_task: "source_for_task"@ }
        },
        ffi_type: fm.ffi_type,
    }
}

/// Append clones of all of `src` to `dst`.
fn push_all_strings(dst: &mut Vec<String>, src: &Vec<String>)
    ensures
        final(dst)@.map_values(|s: String| s@) == old(dst)@.map_values(|s: String| s@)
            + src@.map_values(|s: String| s@),
{
    let ghost base = dst@.map_values(|s: String| s@);
    let ghost srcv = src@.map_values(|s: String| s@);
    let mut i: usize = 0;
    while i < src.len()
        invariant
            i <= src.len(),
            srcv == src@.map_values(|s: String| s@),
            srcv.len() == src@.len(),
            dst@.map_values(|s: String| s@) == base + srcv.take(i as int),
        decreases src.len() - i,
    {
        let ghost pre = dst@;
        dst.push(src[i].clone());
        proof {
            let cs = dst@.map_values(|s: String| s@);
            let ss = base + srcv.take((i + 1) as int);
            assert(dst@.len() == pre.len() + 1);
            assert(pre.map_values(|s: String| s@).len() == pre.len());
            assert((base + srcv.take(i as int)).len() == base.len() + i);
            assert(pre.len() == base.len() + i);
            assert forall|j: int| 0 <= j < cs.len() implies cs[j] == ss[j] by {
                if j < pre.len() {
                    assert(dst@[j] == pre[j]);
                    assert(pre.map_values(|s: String| s@)[j] == (base + srcv.take(i as int))[j]);
                } else {
                    assert(dst@[j] == src@[i as int]);
                    assert(ss[j] == srcv[i as int]);
                }
            }
            assert(cs =~= ss);
        }
        i = i + 1;
    }
    proof {
        assert(srcv.take(src@.len() as int) =~= srcv);
    }
}

impl FfiMethod {
    /// Validate one method descriptor against the marshaling rules and
    /// assemble its emission inputs. Every parameter type, and a method's
    /// return payload, must have a built-in rule or an override; the
    /// first miss is the synthesis error.
    pub fn from_method(
        method: &MethodDescriptor,
        prefix: &str,
        impl_self_type: &String,
        c_type_name: &String,
        ffi_type: FfiType,
    ) -> (r: Result<FfiMethod, DescriptorError>)
        ensures
            match r {
                Ok(fm) => spec_method_error(method@, impl_self_type@) is None && fm@
                    == spec_method_view(
                    method@,
                    prefix@,
                    impl_self_type@,
                    c_type_name@,
                    ffi_type,
                ),
                Err(e) => spec_method_error(method@, impl_self_type@) == Some(e@),
            },
    {
        let ghost mv = method@;
        let ghost pv = params_view(method.params@);
        let is_ctor = method.is_constructor();
        // Validate the parameters, in declaration order.
        let mut i: usize = 0;
        while i < method.params.len()
            invariant
                i <= method.params.len(),
                pv == params_view(method.params@),
                pv.len() == method.params@.len(),
                spec_first_param_error(pv, 0) == spec_first_param_error(pv, i as int),
            decreases method.params.len() - i,
        {
            let p = &method.params[i];
            proof {
                assert(pv[i as int] == p@);
            }
            if p.transfer_override.is_none() {
                match crate::resolver::resolve(&p.ty, None) {
                    Ok(_) => {},
                    Err(e) => {
                        return Err(e);
                    },
                }
            }
            i = i + 1;
        }
        // The success payload, and its validation for methods.
        let payload: SemType = if is_ctor {
            let mut t = String::from_str("super::");
            t.append(impl_self_type.as_str());
            proof {
                assert(t@ =~= spec_self_type_text(impl_self_type@));
            }
            SemType::Named(t)
        } else if method.is_fallible() {
            crate::semtype::extract_result_ok_type_as_type(&method.ret)
        } else {
            method.ret.duplicate()
        };
        proof {
            assert(payload@ == spec_ok_payload(mv, impl_self_type@));
        }
        if !is_ctor && method.return_override.is_none() {
            match crate::resolver::resolve(&payload, None) {
                Ok(_) => {},
                Err(e) => {
                    return Err(e);
                },
            }
        }
        // Assemble the emission inputs.
        let ctx = FfiMethodContext::new(method, prefix);
        // Only a constructor of a pointer category returns an owned
        // pointer; one of a value category converts its result like any
        // other value.
        let owned_ctor_return = is_ctor && match ffi_type {
            FfiType::Object | FfiType::Boxed | FfiType::Shared => true,
            FfiType::Enum | FfiType::Flags => false,
        };
        let components = build_ffi_params(
            &method.params,
            &payload,
            c_type_name,
            method.return_override.as_ref(),
            owned_ctor_return,
        );
        let mut body = String::new();
        if is_ctor {
            let mut t = String::from_str("super::");
            t.append(impl_self_type.as_str());
            body.append(t.as_str());
            body.append("::");
        } else {
            body.append("self_param.");
        }
        body.append(method.name.as_str());
        body.append("(");
        body.append(components.param_call_args.as_str());
        body.append(")");
        proof {
            assert(body@ =~= spec_method_body(
                !mv.has_self,
                spec_self_type_text(impl_self_type@),
                mv.name,
                spec_method_view(mv, prefix@, impl_self_type@, c_type_name@, ffi_type)
                    .components
                    .param_call_args,
            ));
        }
        let (full_params, full_conversions): (Option<String>, Option<Vec<String>>) = if is_ctor {
            (None, None)
        } else {
            let mut fp = String::from_str("self_param: ");
            match ffi_type.self_c_type() {
                Some(t) => fp.append(t.as_str()),
                None => {
                    fp.append("*mut ");
                    fp.append(c_type_name.as_str());
                },
            };
            fp.append(", ");
            fp.append(components.params.as_str());
            proof {
                assert(fp@ =~= "self_param: "@ + spec_self_ffi_type(ffi_type, c_type_name@) + ", "@
                    + components@.params);
            }
            let mut st = String::from_str("super::");
            st.append(impl_self_type.as_str());
            let self_conv = ffi_type.self_transfer_mode().convert_from("self_param", st.as_str());
            proof {
                assert(st@ =~= spec_self_type_text(impl_self_type@));
                assert(self_conv@ == spec_self_conversion(ffi_type, impl_self_type@));
            }
            let mut fc: Vec<String> = Vec::new();
            fc.push(self_conv);
            proof {
                assert(fc@.map_values(|s: String| s@) =~= seq![
                    spec_self_conversion(ffi_type, impl_self_type@),
                ]);
            }
            push_all_strings(&mut fc, &components.conversions);
            let ghost with_self = fc@.map_values(|s: String| s@);
            proof {
                assert(with_self =~= seq![spec_self_conversion(ffi_type, impl_self_type@)]
                    + components@.conversions);
            }
            if method.is_async && ffi_type.is_gobject() {
                let ghost pre_tail = fc@;
                fc.push(String::from_str("let source_for_task = self_param.clone();"));
                proof {
                    let cs = fc@.map_values(|s: String| s@);
                    let ss = with_self + seq!["let source_for_task = self_param.clone();"@];
                    assert(fc@.len() == pre_tail.len() + 1);
                    assert(pre_tail.map_values(|s: String| s@).len() == pre_tail.len());
                    assert forall|j: int| 0 <= j < cs.len() implies cs[j] == ss[j] by {
                        if j < pre_tail.len() {
                            assert(fc@[j] == pre_tail[j]);
                            assert(pre_tail.map_values(|s: String| s@)[j] == with_self[j]);
                        } else {
                            assert(fc@[j]@ == "let source_for_task = self_param.clone();"@);
                        }
                    }
                    assert(cs =~= ss);
                }
            }
            proof {
                assert(fc@.map_values(|s: String| s@) =~= spec_full_conversions(
                    mv.is_async,
                    ffi_type,
                    impl_self_type@,
                    components@.conversions,
                ));
            }
            (Some(fp), Some(fc))
        };
        let full_sync_call_args: String = if is_ctor {
            components.sync_call_args.clone()
        } else {
            let mut s = String::from_str("self_param, ");
            s.append(components.sync_call_args.as_str());
            proof {
                assert(s@ =~= "self_param, "@ + components@.sync_call_args);
            }
            s
        };
        let ok_type_text = payload.rust_type_name();
        let r = FfiMethod {
            ctx,
            components,
            body,
            full_params,
            full_conversions,
            full_sync_call_args,
            ok_type_text,
            c_type_name: c_type_name.clone(),
            ffi_type,
            is_constructor: is_ctor,
        };
        proof {
            assert(r@ == spec_method_view(mv, prefix@, impl_self_type@, c_type_name@, ffi_type));
        }
        Ok(r)
    }

    /// Whether the method is asynchronous.
    pub fn is_async(&self) -> (r: bool)
        ensures
            r == self@.ctx.is_async,
    {
        self.ctx.is_async
    }

    /// Emit the one C entry point of a non-async method.
    pub fn generate_sync(self) -> (r: String)
        ensures
            r@ == spec_build_sync(spec_method_builder(self@)),
    {
        let ghost fmv = self@;
        let builder = FfiBuilder {
            ctx: self.ctx,
            components: self.components,
            body: self.body,
            params_override: self.full_params,
            conversions_override: self.full_conversions,
        };
        proof {
            assert(builder@ == spec_method_builder(fmv));
        }
        builder.build_sync()
    }

    /// Emit the start/finish/sync triad of an async method.
    pub fn generate_async(self) -> (r: String)
        requires
            self@.ctx.async_names is Some,
        ensures
            r@ == spec_build_async(spec_method_builder(self@), spec_method_async_params(self@)),
    {
        let ghost fmv = self@;
        let kind = if self.is_constructor {
            FfiKind::Constructor
        } else {
            FfiKind::Method { source_for_task: String::from_str("source_for_task") }
        };
        let async_params = AsyncFfiParams {
            c_type_name: self.c_type_name,
            ok_type: self.ok_type_text,
            sync_call_args: self.full_sync_call_args,
            kind,
            ffi_type: self.ffi_type,
        };
        proof {
            assert(async_params@ == spec_method_async_params(fmv));
        }
        let builder = FfiBuilder {
            ctx: self.ctx,
            components: self.components,
            body: self.body,
            params_override: self.full_params,
            conversions_override: self.full_conversions,
        };
        proof {
            assert(builder@ == spec_method_builder(fmv));
        }
        builder.build_async(async_params)
    }
}

} // verus!
