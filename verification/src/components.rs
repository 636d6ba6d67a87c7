//! Per-method emission components: the generated parameter list, the
//! conversion statements, and the return-type handling texts that the
//! wrapper builders assemble into complete entry points.

use vstd::prelude::*;
use vstd::string::StringExecFns;

use crate::descriptor::{params_view, ParamDescriptor, ParamDescriptorView};
use crate::resolver::{CTypeOverride, CTypeOverrideView};
use crate::semtype::{spec_c_type, spec_rust_type_name, SemType, SemTypeView};
use crate::transfer::{spec_convert_from, spec_convert_to, spec_error_value, TransferMode};

verus! {

/// The emission components of one method.
pub struct FfiComponents {
    /// The generated C parameter list, one `name: ctype, ` piece per
    /// declared parameter, in declaration order.
    pub params: String,
    /// The conversion statements, one per declared parameter, in order.
    pub conversions: Vec<String>,
    /// The C return type text.
    pub return_type: String,
    /// The expression converting the successful internal value `val` to C.
    pub ok_handler: String,
    /// The sentinel expression returned on failure.
    pub err_handler: String,
    /// The argument list handed by the blocking wrapper to the start entry
    /// point: each name followed by `, `.
    pub sync_call_args: String,
    /// The argument list handed to the underlying method: names joined by
    /// `, `.
    pub param_call_args: String,
}

/// The model of an `FfiComponents`.
pub struct FfiComponentsView {
    pub params: Seq<char>,
    pub conversions: Seq<Seq<char>>,
    pub return_type: Seq<char>,
    pub ok_handler: Seq<char>,
    pub err_handler: Seq<char>,
    pub sync_call_args: Seq<char>,
    pub param_call_args: Seq<char>,
}

impl View for FfiComponents {
    type V = FfiComponentsView;

    open spec fn view(&self) -> FfiComponentsView {
        FfiComponentsView {
            params: self.params@,
            conversions: self.conversions@.map_values(|c: String| c@),
            return_type: self.return_type@,
            ok_handler: self.ok_handler@,
            err_handler: self.err_handler@,
            sync_call_args: self.sync_call_args@,
            param_call_args: self.param_call_args@,
        }
    }
}

/// The C type text of one parameter: its override's C type where one is
/// given, the built-in mapping otherwise.
pub open spec fn spec_param_c_type(p: ParamDescriptorView) -> Seq<char> {
    match p.transfer_override {
        Some(o) => o.c_type,
        None => spec_c_type(p.ty),
    }
}

/// One piece of the generated parameter list: `name: ctype, `.
pub open spec fn spec_param_piece(p: ParamDescriptorView) -> Seq<char> {
    p.name + ": "@ + spec_param_c_type(p) + ", "@
}

/// The whole generated parameter list, in declaration order.
pub open spec fn spec_params_text(ps: Seq<ParamDescriptorView>) -> Seq<char>
    decreases ps.len(),
{
    if ps.len() == 0 {
        Seq::empty()
    } else {
        spec_params_text(ps.drop_last()) + spec_param_piece(ps.last())
    }
}

/// The conversion statement of one parameter. A mutable reference is
/// converted by dereferencing, never through a transfer mode; an override
/// converts per its declared mode; every other parameter converts through
/// the conversion trait as a borrow.
pub open spec fn spec_param_conversion(p: ParamDescriptorView) -> Seq<char> {
    if p.ty is MutRef {
        "let "@ + p.name + ": "@ + spec_rust_type_name(p.ty) + " = unsafe { &mut *"@ + p.name
            + " };"@
    } else {
        match p.transfer_override {
            Some(o) => spec_convert_from(o.transfer, p.name, spec_rust_type_name(p.ty)),
            None => "let "@ + p.name + ": "@ + spec_rust_type_name(p.ty) + " = unsafe { <"@
                + spec_rust_type_name(p.ty) + " as ::gobject_ffi::FfiConvert>::from_c_borrowed("@
                + p.name + ") };"@,
        }
    }
}

/// The conversion statements of all parameters, in order.
pub open spec fn spec_conversions(ps: Seq<ParamDescriptorView>) -> Seq<Seq<char>> {
    ps.map_values(|p: ParamDescriptorView| spec_param_conversion(p))
}

/// The blocking wrapper's forwarded arguments: each name followed by `, `.
pub open spec fn spec_sync_call_args(ps: Seq<ParamDescriptorView>) -> Seq<char>
    decreases ps.len(),
{
    if ps.len() == 0 {
        Seq::empty()
    } else {
        spec_sync_call_args(ps.drop_last()) + ps.last().name + ", "@
    }
}

/// The underlying call's arguments: names joined by `, `.
pub open spec fn spec_param_call_args(ps: Seq<ParamDescriptorView>) -> Seq<char>
    decreases ps.len(),
{
    if ps.len() == 0 {
        Seq::empty()
    } else if ps.len() == 1 {
        ps.last().name
    } else {
        spec_param_call_args(ps.drop_last()) + ", "@ + ps.last().name
    }
}

/// The return-type handling where the owned-pointer constructor rule does
/// not apply (any method, and a constructor of a value category): the C
/// return type, the success conversion of `val`, and the failure sentinel. The
/// empty type returns nothing; an override converts per its mode; every
/// other type converts through the conversion trait, an `Option` borrowing
/// its inner type's C representation.
pub open spec fn spec_return_handling(ok: SemTypeView, ov: Option<CTypeOverrideView>) -> (
    Seq<char>,
    Seq<char>,
    Seq<char>,
) {
    if ok is Unit {
        ("()"@, "()"@, "()"@)
    } else {
        match ov {
            Some(o) => (o.c_type, spec_convert_to(o.transfer, "val"@), spec_error_value(o.transfer)),
            None => (
                spec_c_type(ok),
                "<"@ + spec_rust_type_name(ok) + " as ::gobject_ffi::FfiConvert>::to_c_owned(val)"@,
                "<"@ + spec_rust_type_name(ok) + " as ::gobject_ffi::FfiConvert>::c_error_value()"@,
            ),
        }
    }
}

/// The model of an override handed by reference.
pub open spec fn spec_opt_override(ov: Option<&CTypeOverride>) -> Option<CTypeOverrideView> {
    match ov {
        Some(o) => Some(o@),
        None => None,
    }
}

/// All emission components of one method. `owned_ctor_return` holds for a
/// constructor of a pointer category (object, boxed, shared): with no
/// return override, such a constructor returns an owned pointer to the
/// generated C type. A constructor of a value category leaves the flag
/// off and returns through the conversion trait like any other value.
pub open spec fn spec_components(
    ps: Seq<ParamDescriptorView>,
    ok: SemTypeView,
    c_type_name: Seq<char>,
    ov: Option<CTypeOverrideView>,
    owned_ctor_return: bool,
) -> FfiComponentsView {
    let (return_type, ok_handler, err_handler) = if owned_ctor_return && ov is None {
        (
            "*mut "@ + c_type_name,
            spec_convert_to(TransferMode::Owned, "val"@),
            spec_error_value(TransferMode::Owned),
        )
    } else {
        spec_return_handling(ok, ov)
    };
    FfiComponentsView {
        params: spec_params_text(ps),
        conversions: spec_conversions(ps),
        return_type,
        ok_handler,
        err_handler,
        sync_call_args: spec_sync_call_args(ps),
        param_call_args: spec_param_call_args(ps),
    }
}

/// The conversion statement of one declared parameter.
pub fn generate_param_conversion(p: &ParamDescriptor) -> (r: String)
    ensures
        r@ == spec_param_conversion(p@),
{
    let ty_name = p.ty.rust_type_name();
    if crate::semtype::is_mutable_reference(&p.ty) {
        let mut s = String::from_str("let ");
        s.append(p.name.as_str());
        s.append(": ");
        s.append(ty_name.as_str());
        s.append(" = unsafe { &mut *");
        s.append(p.name.as_str());
        s.append(" };");
        proof {
            assert(s@ =~= spec_param_conversion(p@));
        }
        s
    } else {
        match &p.transfer_override {
            Some(o) => {
                let s = o.transfer.convert_from(p.name.as_str(), ty_name.as_str());
                s
            },
            None => {
                let mut s = String::from_str("let ");
                s.append(p.name.as_str());
                s.append(": ");
                s.append(ty_name.as_str());
                s.append(" = unsafe { <");
                s.append(ty_name.as_str());
                s.append(" as ::gobject_ffi::FfiConvert>::from_c_borrowed(");
                s.append(p.name.as_str());
                s.append(") };");
                proof {
                    assert(s@ =~= spec_param_conversion(p@));
                }
                s
            },
        }
    }
}

/// The return-type handling texts of a non-constructor return.
pub fn generate_return_type_handling(ok_type: &SemType, c_return_type: Option<&CTypeOverride>) -> (r:
    (String, String, String))
    ensures
        (r.0@, r.1@, r.2@) == spec_return_handling(ok_type@, spec_opt_override(c_return_type)),
{
    if crate::semtype::is_unit_type(ok_type) {
        (String::from_str("()"), String::from_str("()"), String::from_str("()"))
    } else {
        match c_return_type {
            Some(o) => (o.c_type.clone(), o.transfer.convert_to("val"), o.transfer.error_value()),
            None => {
                let c_type = crate::semtype::rust_type_to_c_type(ok_type);
                let name = ok_type.rust_type_name();
                let mut ok_handler = String::from_str("<");
                ok_handler.append(name.as_str());
                ok_handler.append(" as ::gobject_ffi::FfiConvert>::to_c_owned(val)");
                let mut err_handler = String::from_str("<");
                err_handler.append(name.as_str());
                err_handler.append(" as ::gobject_ffi::FfiConvert>::c_error_value()");
                proof {
                    assert(ok_handler@ =~= "<"@ + spec_rust_type_name(ok_type@)
                        + " as ::gobject_ffi::FfiConvert>::to_c_owned(val)"@);
                    assert(err_handler@ =~= "<"@ + spec_rust_type_name(ok_type@)
                        + " as ::gobject_ffi::FfiConvert>::c_error_value()"@);
                }
                (c_type, ok_handler, err_handler)
            },
        }
    }
}

/// Assemble the emission components of one method from its parameters,
/// its success payload type, the generated C type name, an optional
/// return override, and whether the method is a constructor of a pointer
/// category — only those return an owned pointer to the generated C type.
pub fn build_ffi_params(
    params: &Vec<ParamDescriptor>,
    ok_type: &SemType,
    c_type_name: &String,
    c_return_type: Option<&CTypeOverride>,
    owned_ctor_return: bool,
) -> (r: FfiComponents)
    ensures
        r@ == spec_components(
            params_view(params@),
            ok_type@,
            c_type_name@,
            spec_opt_override(c_return_type),
            owned_ctor_return,
        ),
{
    let ghost pv = params_view(params@);
    let mut params_text = String::new();
    let mut conversions: Vec<String> = Vec::new();
    let mut sync_call_args = String::new();
    let mut param_call_args = String::new();
    let mut i: usize = 0;
    while i < params.len()
        invariant
            i <= params.len(),
            pv == params_view(params@),
            pv.len() == params@.len(),
            params_text@ == spec_params_text(pv.take(i as int)),
            conversions@.map_values(|c: String| c@) == spec_conversions(pv.take(i as int)),
            sync_call_args@ == spec_sync_call_args(pv.take(i as int)),
            param_call_args@ == spec_param_call_args(pv.take(i as int)),
        decreases params.len() - i,
    {
        let p = &params[i];
        proof {
            assert(pv[i as int] == p@);
        }
        let c_type: String = match &p.transfer_override {
            Some(o) => o.c_type.clone(),
            None => crate::semtype::rust_type_to_c_type(&p.ty),
        };
        params_text.append(p.name.as_str());
        params_text.append(": ");
        params_text.append(c_type.as_str());
        params_text.append(", ");
        let conv = generate_param_conversion(p);
        let ghost convv = conv@;
        let ghost pre_conversions = conversions@;
        proof {
            assert(pre_conversions.len() == spec_conversions(pv.take(i as int)).len());
            assert(pre_conversions.len() == i);
        }
        conversions.push(conv);
        sync_call_args.append(p.name.as_str());
        sync_call_args.append(", ");
        if i > 0 {
            param_call_args.append(", ");
        }
        param_call_args.append(p.name.as_str());
        proof {
            assert(pv.take((i + 1) as int).drop_last() =~= pv.take(i as int));
            assert(pv.take((i + 1) as int).last() == pv[i as int]);
            assert(params_text@ =~= spec_params_text(pv.take((i + 1) as int)));
            assert(sync_call_args@ =~= spec_sync_call_args(pv.take((i + 1) as int)));
            assert(param_call_args@ =~= spec_param_call_args(pv.take((i + 1) as int)));
            let cs = conversions@.map_values(|c: String| c@);
            let ss = spec_conversions(pv.take((i + 1) as int));
            assert(conversions@.len() == i + 1);
            assert(cs.len() == i + 1 && ss.len() == i + 1);
            assert forall|j: int| 0 <= j < i + 1 implies cs[j] == ss[j] by {
                assert(pv.take((i + 1) as int)[j] == pv[j]);
                if j < i {
                    assert(conversions@[j] == pre_conversions[j]);
                    assert(pre_conversions.map_values(|c: String| c@)[j]
                        == spec_conversions(pv.take(i as int))[j]);
                } else {
                    assert(conversions@[j]@ == convv);
                }
            }
            assert(cs =~= ss);
        }
        i = i + 1;
    }
    proof {
        assert(pv.take(params@.len() as int) =~= pv);
    }
    let (return_type, ok_handler, err_handler) = if owned_ctor_return && c_return_type.is_none() {
        let mut rt = String::from_str("*mut ");
        rt.append(c_type_name.as_str());
        proof {
            assert(rt@ =~= "*mut "@ + c_type_name@);
        }
        (rt, TransferMode::Owned.convert_to("val"), TransferMode::Owned.error_value())
    } else {
        generate_return_type_handling(ok_type, c_return_type)
    };
    FfiComponents {
        params: params_text,
        conversions,
        return_type,
        ok_handler,
        err_handler,
        sync_call_args,
        param_call_args,
    }
}

} // verus!
